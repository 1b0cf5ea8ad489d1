use adept::combinations::{count_combinations, count_combinations_checked, iter_combination};

#[test]
fn count_combinations_small_values() {
    assert_eq!(count_combinations(5, 2), 10);
    assert_eq!(count_combinations(4, 4), 1);
    assert_eq!(count_combinations(4, 0), 1);
    assert_eq!(count_combinations(10, 3), 120);
    assert_eq!(count_combinations(20, 4), 4845);
}

#[test]
fn count_combinations_more_items_than_choices_is_zero() {
    assert_eq!(count_combinations(3, 5), 0);
    assert_eq!(count_combinations(0, 1), 0);
}

#[test]
fn count_combinations_negative_size_has_none() {
    assert_eq!(count_combinations(5, -1), 0);
    assert_eq!(count_combinations(0, -3), 0);
}

#[test]
fn count_combinations_is_symmetric() {
    for n in 0..30i64 {
        for r in 0..=n {
            assert_eq!(count_combinations(n, r), count_combinations(n, n - r));
        }
    }
}

#[test]
fn count_combinations_checked_agrees_where_it_fits() {
    assert_eq!(count_combinations_checked(5, 2), Some(10));
    assert_eq!(count_combinations_checked(3, 5), Some(0));
    assert_eq!(count_combinations_checked(60, 30), Some(118264581564861424));
}

#[test]
fn count_combinations_checked_refuses_overflow() {
    // 31 * C(62, 31) leaves i64 on the way, though C(62, 31) itself fits.
    assert_eq!(count_combinations_checked(62, 31), None);
    assert_eq!(count_combinations_checked(100, 50), None);
}

#[test]
fn count_combinations_checked_negative_size_is_zero() {
    assert_eq!(count_combinations_checked(i64::MAX, -5), Some(0));
    assert_eq!(count_combinations_checked(5, -1), Some(0));
}

#[test]
fn iter_combination_first_and_last() {
    assert_eq!(iter_combination(0, 5, 2), vec![1, 0]);
    assert_eq!(iter_combination(9, 5, 2), vec![4, 3]);
    assert_eq!(iter_combination(3, 5, 2), vec![3, 0]);
}

#[test]
fn iter_combination_outside_the_list_is_empty() {
    assert_eq!(iter_combination(10, 5, 2), Vec::<i64>::new());
    assert_eq!(iter_combination(-1, 5, 2), Vec::<i64>::new());
    assert_eq!(iter_combination(0, 3, 5), Vec::<i64>::new());
    assert_eq!(iter_combination(-1, 100, 50), Vec::<i64>::new());
}

#[test]
fn iter_combination_walks_every_combination_once() {
    let n = 7i64;
    let r = 3i64;
    let total = count_combinations(n, r);
    let mut seen: Vec<Vec<i64>> = Vec::new();
    for index in 0..total {
        let c = iter_combination(index, n, r);
        assert_eq!(c.len(), r as usize);
        for w in c.windows(2) {
            assert!(w[0] > w[1]);
        }
        assert!(c.iter().all(|&x| 0 <= x && x < n));
        assert!(!seen.contains(&c));
        seen.push(c);
    }
    assert_eq!(seen.len() as i64, 35);
}

#[test]
fn iter_combination_positions_are_ranks() {
    // The position of a descending combination is the sum of C(s[i], r - i).
    let n = 8i64;
    let r = 4i64;
    for index in 0..count_combinations(n, r) {
        let c = iter_combination(index, n, r);
        let mut rank = 0i64;
        for (i, &x) in c.iter().enumerate() {
            rank += count_combinations(x, r - i as i64);
        }
        assert_eq!(rank, index);
    }
}

#[test]
fn iter_combination_positions_follow_lexicographic_order() {
    let listed: Vec<Vec<i64>> = (0..6).map(|i| iter_combination(i, 4, 2)).collect();
    assert_eq!(
        listed,
        vec![vec![1, 0], vec![2, 0], vec![2, 1], vec![3, 0], vec![3, 1], vec![3, 2]]
    );
    let n = 9i64;
    let r = 3i64;
    let total = count_combinations(n, r);
    for i in 1..total {
        assert!(iter_combination(i - 1, n, r) < iter_combination(i, n, r));
    }
}

#[test]
fn sixty_one_items_fit() {
    assert_eq!(count_combinations(61, 30), 232714176627630544);
    assert_eq!(count_combinations_checked(61, 31), Some(232714176627630544));
    let last = count_combinations(61, 30) - 1;
    let top = iter_combination(last, 61, 30);
    assert_eq!(top, (31..61).rev().collect::<Vec<i64>>());
    assert!(iter_combination(last - 1, 61, 30) < top);
}
