use basics::control_flow::{
    if_condition, is_divisible, is_even, not_zero, run_countdown, run_counter,
    run_for, run_iterative_while, run_labeled_loops, run_loop_step, run_while, Divisibility,
    LoopLine, COUNTER_LIMIT,
};

#[test]
fn if_condition_takes_true_branch_below_five() {
    assert!(if_condition(3));
    assert!(if_condition(4));
    assert!(if_condition(-100));
}

#[test]
fn if_condition_takes_false_branch_from_five() {
    assert!(!if_condition(5));
    assert!(!if_condition(6));
    assert!(!if_condition(i32::MAX));
}

#[test]
fn not_zero_tells_zero_apart() {
    assert!(not_zero(3));
    assert!(not_zero(-1));
    assert!(!not_zero(0));
}

#[test]
fn is_even_matches_remainder_by_two() {
    for n in -20..=20 {
        assert_eq!(is_even(n), n.rem_euclid(2) == 0);
    }
    assert!(!is_even(15));
    assert!(is_even(0));
    assert!(is_even(-4));
    assert!(!is_even(-3));
    assert!(!is_even(i32::MAX));
    assert!(is_even(i32::MIN));
}

#[test]
fn divisible_fifteen_selects_three() {
    assert_eq!(is_divisible(15), Divisibility::ByThree);
}

#[test]
fn divisible_twelve_selects_four_first() {
    assert_eq!(is_divisible(12), Divisibility::ByFour);
}

#[test]
fn divisible_seven_selects_neither() {
    assert_eq!(is_divisible(7), Divisibility::Neither);
}

#[test]
fn divisible_by_two_only() {
    assert_eq!(is_divisible(10), Divisibility::ByTwo);
    assert_eq!(is_divisible(-14), Divisibility::ByTwo);
    assert_eq!(is_divisible(0), Divisibility::ByFour);
    assert_eq!(is_divisible(-9), Divisibility::ByThree);
}

#[test]
fn counter_yields_twice_the_limit() {
    assert_eq!(COUNTER_LIMIT, 10);
    assert_eq!(run_counter(), 20);
}

#[test]
fn labeled_loops_stop_at_outer_count_two() {
    let (lines, count) = run_labeled_loops();
    assert_eq!(count, 2);
    assert_eq!(
        lines,
        vec![
            LoopLine::Count(0),
            LoopLine::Remaining(10),
            LoopLine::Remaining(9),
            LoopLine::Count(1),
            LoopLine::Remaining(10),
            LoopLine::Remaining(9),
            LoopLine::Count(2),
            LoopLine::Remaining(10),
        ]
    );
    let outer: Vec<u32> = lines
        .iter()
        .filter_map(|l| match l {
            LoopLine::Count(c) => Some(*c),
            LoopLine::Remaining(_) => None,
        })
        .collect();
    assert_eq!(outer, vec![0, 1, 2]);
}

#[test]
fn while_counts_down_from_three() {
    assert_eq!(run_while(), vec![3, 2, 1]);
}

#[test]
fn indexed_walk_reads_whole_array() {
    assert_eq!(run_iterative_while(), vec![10, 20, 30, 40, 50]);
}

#[test]
fn iterated_walk_reads_whole_array() {
    assert_eq!(run_for(), vec![10, 20, 30, 40, 50]);
}

#[test]
fn reversed_range_counts_down_from_three() {
    assert_eq!(run_countdown(), vec![3, 2, 1]);
}

#[test]
fn loop_step_adds_one() {
    assert_eq!(run_loop_step(0), 1);
    assert_eq!(run_loop_step(41), 42);
    assert_eq!(run_loop_step(-1), 0);
    assert_eq!(run_loop_step(i32::MAX - 1), i32::MAX);
}
