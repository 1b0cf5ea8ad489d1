//! Per-hero results of a simulation, laid out over the slots of a team of
//! the largest size.
use vstd::prelude::*;

verus! {

/// The value for team slot `i`: the `i`-th input value, or the default past
/// the end of the input.
fn slot_value<T: Default + Clone>(input_vector: &Vec<T>, i: usize) -> (res: T)
    ensures
        i < input_vector@.len() ==> cloned(input_vector@[i as int], res),
        i >= input_vector@.len() ==> call_ensures(T::default, (), res),
{
    if i >= input_vector.len() {
        T::default()
    } else {
        input_vector[i].clone()
    }
}

/// input_vector is converted to an array sized to match the max team size.
/// Excess values are truncated; missing ones are the default value.
pub fn convert_vec_to_max_team_sized_array<T: Default + Clone>(input_vector: Vec<T>) -> (res: [T; 5])
    ensures
        forall|i: int|
            0 <= i < 5 && i < input_vector@.len() ==> cloned(input_vector@[i], #[trigger] res@[i]),
        forall|i: int|
            0 <= i < 5 && i >= input_vector@.len() ==> call_ensures(T::default, (), #[trigger] res@[i]),
{
    let res = [
        slot_value(&input_vector, 0),
        slot_value(&input_vector, 1),
        slot_value(&input_vector, 2),
        slot_value(&input_vector, 3),
        slot_value(&input_vector, 4),
    ];
    res
}

} // verus!
