//! What the duo-skill result sheet shows of a trial's skillset: the skill
//! names of the trial description, each replaced by its abbreviation.
use crate::lookup::NameMap;
use crate::text::{chars_of, push_char, views};
use vstd::prelude::*;

verus! {

/// `c` is one of the characters `[`, `]` and `"` that a listed skillset is
/// written with.
pub open spec fn is_list_punctuation(c: char) -> bool {
    c == '[' || c == ']' || c == '"'
}

/// `s` without the characters `[`, `]` and `"`.
pub open spec fn strip_list_punctuation(s: Seq<char>) -> Seq<char>
    decreases s.len(),
{
    if s.len() == 0 {
        s
    } else if is_list_punctuation(s.last()) {
        strip_list_punctuation(s.drop_last())
    } else {
        strip_list_punctuation(s.drop_last()).push(s.last())
    }
}

/// The pieces of `s` between occurrences of `", "`, read from the left.
pub open spec fn split_comma_space(s: Seq<char>) -> Seq<Seq<char>>
    decreases s.len(),
{
    if s.len() == 0 {
        seq![Seq::<char>::empty()]
    } else if s.len() >= 2 && s[0] == ',' && s[1] == ' ' {
        seq![Seq::<char>::empty()] + split_comma_space(s.skip(2))
    } else {
        let rest = split_comma_space(s.drop_first());
        rest.update(0, seq![s[0]] + rest[0])
    }
}

proof fn lemma_split_comma_space_nonempty(s: Seq<char>)
    ensures
        split_comma_space(s).len() >= 1,
    decreases s.len(),
{
    if s.len() >= 2 && s[0] == ',' && s[1] == ' ' {
        lemma_split_comma_space_nonempty(s.skip(2));
    } else if s.len() > 0 {
        lemma_split_comma_space_nonempty(s.drop_first());
    }
}

/// The skill names of a trial description written as a listed skillset,
/// `["a", "b", ...]`: the description without `[`, `]` and `"`, cut at `", "`.
pub open spec fn described_skills(description: Seq<char>) -> Seq<Seq<char>> {
    split_comma_space(strip_list_punctuation(description))
}

/// The abbreviation of `skill`, or the skill itself when it has none.
pub open spec fn abbreviation_of(skill: Seq<char>, abbreviations: Map<Seq<char>, String>) -> Seq<char> {
    if abbreviations.contains_key(skill) {
        abbreviations[skill]@
    } else {
        skill
    }
}

/// The characters of `s` that are not `[`, `]` or `"`.
fn strip_punctuation(s: &str) -> (res: Vec<char>)
    ensures
        res@ == strip_list_punctuation(s@),
{
    let chars = chars_of(s);
    let mut res: Vec<char> = Vec::new();
    let mut i: usize = 0;
    while i < chars.len()
        invariant
            chars@ == s@,
            i <= chars@.len(),
            res@ == strip_list_punctuation(s@.subrange(0, i as int)),
        decreases chars@.len() - i,
    {
        let c = chars[i];
        proof {
            assert(s@.subrange(0, i + 1).drop_last() =~= s@.subrange(0, i as int));
        }
        if !(c == '[' || c == ']' || c == '"') {
            res.push(c);
        }
        i = i + 1;
    }
    assert(s@.subrange(0, chars@.len() as int) =~= s@);
    res
}

/// The pieces of `chars` between occurrences of `", "`.
fn split_on_comma_space(chars: &Vec<char>) -> (res: Vec<String>)
    ensures
        views(res@) == split_comma_space(chars@),
{
    let len = chars.len();
    let mut done: Vec<String> = Vec::new();
    let mut current = String::new();
    let mut i: usize = 0;
    proof {
        assert(chars@.skip(0) =~= chars@);
        lemma_split_comma_space_nonempty(chars@);
        assert(seq![Seq::<char>::empty() + split_comma_space(chars@)[0]] + split_comma_space(
            chars@,
        ).drop_first() =~= split_comma_space(chars@));
    }
    while i < len
        invariant
            len == chars@.len(),
            i <= len,
            split_comma_space(chars@.skip(i as int)).len() >= 1,
            split_comma_space(chars@) == views(done@) + seq![
                current@ + split_comma_space(chars@.skip(i as int))[0],
            ] + split_comma_space(chars@.skip(i as int)).drop_first(),
        decreases len - i,
    {
        let ghost rest = chars@.skip(i as int);
        if chars[i] == ',' && i + 1 < len && chars[i + 1] == ' ' {
            proof {
                assert(rest[0] == ',' && rest[1] == ' ');
                assert(rest.skip(2) =~= chars@.skip(i + 2));
                lemma_split_comma_space_nonempty(chars@.skip(i + 2));
                let r2 = split_comma_space(chars@.skip(i + 2));
                assert(split_comma_space(rest) == seq![Seq::<char>::empty()] + r2);
                assert(views(done@.push(current)) =~= views(done@).push(current@));
                assert(views(done@) + seq![current@ + split_comma_space(rest)[0]]
                    + split_comma_space(rest).drop_first() =~= views(done@.push(current)) + seq![
                    Seq::<char>::empty() + r2[0],
                ] + r2.drop_first());
            }
            done.push(current);
            current = String::new();
            i = i + 2;
        } else {
            let c = chars[i];
            proof {
                assert(rest.drop_first() =~= chars@.skip(i + 1));
                lemma_split_comma_space_nonempty(chars@.skip(i + 1));
                let r1 = split_comma_space(chars@.skip(i + 1));
                assert(split_comma_space(rest) == r1.update(0, seq![c] + r1[0]));
                assert(split_comma_space(rest).drop_first() =~= r1.drop_first());
                assert(current@ + split_comma_space(rest)[0] =~= current@.push(c) + r1[0]);
            }
            push_char(&mut current, c);
            i = i + 1;
        }
    }
    proof {
        assert(chars@.skip(len as int) =~= Seq::<char>::empty());
        assert(split_comma_space(Seq::<char>::empty()) == seq![Seq::<char>::empty()]);
        assert(current@ + Seq::<char>::empty() =~= current@);
    }
    let ghost before = done@;
    done.push(current);
    proof {
        assert(views(done@) =~= views(before).push(current@));
        assert(seq![Seq::<char>::empty()].drop_first() =~= Seq::<Seq<char>>::empty());
    }
    assert(views(done@) =~= split_comma_space(chars@));
    done
}

/// The skill names of a trial description, `["a", "b", ...]`, each replaced
/// by its abbreviation where the map has one.
pub fn abbreviate_described_skills(description: &str, abbreviations: &NameMap<String>) -> (res: Vec<
    String,
>)
    ensures
        views(res@) == described_skills(description@).map_values(
            |k: Seq<char>| abbreviation_of(k, abbreviations@),
        ),
{
    let stripped = strip_punctuation(description);
    let skills = split_on_comma_space(&stripped);
    let mut res: Vec<String> = Vec::new();
    let mut i: usize = 0;
    while i < skills.len()
        invariant
            views(skills@) == described_skills(description@),
            i <= skills@.len(),
            res@.len() == i,
            forall|k: int|
                0 <= k < i ==> #[trigger] res@[k]@ == abbreviation_of(skills@[k]@, abbreviations@),
        decreases skills@.len() - i,
    {
        match abbreviations.get(skills[i].as_str()) {
            Some(abbreviation) => res.push(abbreviation.clone()),
            None => res.push(skills[i].clone()),
        }
        i = i + 1;
    }
    proof {
        assert forall|k: int| 0 <= k < views(skills@).len() implies views(skills@)[k] == skills@[k]@ by {
        }
        assert(views(res@) =~= described_skills(description@).map_values(
            |k: Seq<char>| abbreviation_of(k, abbreviations@),
        ));
    }
    res
}

} // verus!
