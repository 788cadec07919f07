//! Predicates, branch selection and bounded loops.

use vstd::prelude::*;

verus! {

/// Whether `value` lies below five: the branch that a plain `if`/`else` takes.
pub fn if_condition(value: i32) -> (r: bool)
    ensures
        r == (value < 5),
{
    if value < 5 {
        true
    } else {
        false
    }
}

/// Whether `value` differs from zero.
pub fn not_zero(value: i32) -> (r: bool)
    ensures
        r == (value != 0),
{
    value != 0
}

/// Whether `x` is even, for negative numbers too.
pub fn is_even(x: i32) -> (r: bool)
    ensures
        r == (x as int % 2 == 0),
{
    if x % 2 == 0 {
        true
    } else {
        false
    }
}

/// The first of 4, 3 and 2 that divides a number, checked in that order.
#[derive(Clone, Copy, Debug, PartialEq, Eq, Structural)]
pub enum Divisibility {
    ByFour,
    ByThree,
    ByTwo,
    Neither,
}

/// The branch chosen for `x`: divisibility by 4 first, then by 3, then by 2.
pub open spec fn divisibility_of(x: int) -> Divisibility {
    if x % 4 == 0 {
        Divisibility::ByFour
    } else if x % 3 == 0 {
        Divisibility::ByThree
    } else if x % 2 == 0 {
        Divisibility::ByTwo
    } else {
        Divisibility::Neither
    }
}

/// Selects among four exclusive outcomes by divisibility of `x` by 4, 3 or 2.
pub fn is_divisible(x: i32) -> (r: Divisibility)
    ensures
        r == divisibility_of(x as int),
{
    if x % 4 == 0 {
        Divisibility::ByFour
    } else if x % 3 == 0 {
        Divisibility::ByThree
    } else if x % 2 == 0 {
        Divisibility::ByTwo
    } else {
        Divisibility::Neither
    }
}

/// The threshold at which the counting loop stops.
pub const COUNTER_LIMIT: i32 = 10;

/// Counts up from zero by one, stops at the threshold and yields twice the count.
pub fn run_counter() -> (r: i32)
    ensures
        r == 2 * COUNTER_LIMIT,
{
    let mut counter: i32 = 0;
    let mut result: i32 = 0;
    loop
        invariant_except_break
            0 <= counter < COUNTER_LIMIT,
        ensures
            counter == COUNTER_LIMIT,
            result == 2 * COUNTER_LIMIT,
        decreases COUNTER_LIMIT - counter,
    {
        counter += 1;
        if counter == COUNTER_LIMIT {
            result = counter * 2;
            break;
        }
    }
    result
}

/// One line shown by the nested counting loops.
#[derive(Clone, Copy, Debug, PartialEq, Eq, Structural)]
pub enum LoopLine {
    /// The outer counter at the start of an outer pass.
    Count(u32),
    /// The inner countdown at the start of an inner pass.
    Remaining(u32),
}

/// The lines of one outer pass that ends by leaving the inner loop alone.
pub open spec fn outer_pass(count: u32) -> Seq<LoopLine> {
    seq![LoopLine::Count(count), LoopLine::Remaining(10), LoopLine::Remaining(9)]
}

/// The lines of the first `n` complete outer passes.
pub open spec fn outer_passes(n: nat) -> Seq<LoopLine>
    decreases n,
{
    if n == 0 {
        Seq::empty()
    } else {
        outer_passes((n - 1) as nat) + outer_pass((n - 1) as u32)
    }
}

/// Everything the nested loops show: two full outer passes, then the third
/// pass leaves both loops at once from inside the inner one.
pub open spec fn labeled_loop_lines() -> Seq<LoopLine> {
    seq![
        LoopLine::Count(0),
        LoopLine::Remaining(10),
        LoopLine::Remaining(9),
        LoopLine::Count(1),
        LoopLine::Remaining(10),
        LoopLine::Remaining(9),
        LoopLine::Count(2),
        LoopLine::Remaining(10),
    ]
}

/// Runs an outer counting loop around an inner countdown from 10; the inner
/// loop ends at 9, and breaks out of the outer one once the outer count is 2.
/// Returns the lines shown, in order, and the final outer count.
pub fn run_labeled_loops() -> (r: (Vec<LoopLine>, u32))
    ensures
        r.0@ == labeled_loop_lines(),
        r.1 == 2,
{
    let mut lines: Vec<LoopLine> = Vec::new();
    let mut count: u32 = 0;
    'counting_up: loop
        invariant_except_break
            count <= 2,
            lines@ == outer_passes(count as nat),
        ensures
            count == 2,
            lines@ == outer_passes(2) + seq![LoopLine::Count(2), LoopLine::Remaining(10)],
        decreases 2 - count,
    {
        lines.push(LoopLine::Count(count));
        let mut remaining: u32 = 10;
        loop
            invariant_except_break
                count <= 2,
                9 <= remaining <= 10,
                remaining == 9 ==> count < 2,
                remaining == 10 ==> lines@ == outer_passes(count as nat) + seq![
                    LoopLine::Count(count),
                ],
                remaining == 9 ==> lines@ == outer_passes(count as nat) + seq![
                    LoopLine::Count(count),
                    LoopLine::Remaining(10),
                ],
            ensures
                count < 2,
                lines@ == outer_passes(count as nat) + outer_pass(count),
            decreases remaining,
        {
            lines.push(LoopLine::Remaining(remaining));
            if remaining == 9 {
                break;
            }
            if count == 2 {
                break 'counting_up;
            }
            remaining -= 1;
        }
        count += 1;
    }
    assert(outer_passes(2) =~= seq![
        LoopLine::Count(0),
        LoopLine::Remaining(10),
        LoopLine::Remaining(9),
        LoopLine::Count(1),
        LoopLine::Remaining(10),
        LoopLine::Remaining(9),
    ]) by {
        reveal_with_fuel(outer_passes, 3);
    }
    assert(lines@ =~= labeled_loop_lines());
    (lines, count)
}

/// The values that the countdowns show before lift-off.
pub open spec fn countdown_values() -> Seq<u32> {
    seq![3u32, 2u32, 1u32]
}

/// The array that the two array walks read.
pub open spec fn walked_values() -> Seq<i32> {
    seq![10i32, 20i32, 30i32, 40i32, 50i32]
}

/// Counts down from 3 with a `while` loop; returns each value shown, in order.
pub fn run_while() -> (r: Vec<u32>)
    ensures
        r@ == countdown_values(),
{
    let mut shown: Vec<u32> = Vec::new();
    let mut number: u32 = 3;
    while number != 0
        invariant
            number <= 3,
            shown@ == countdown_values().take(3 - number),
        decreases number,
    {
        shown.push(number);
        number -= 1;
        assert(shown@ =~= countdown_values().take(3 - number));
    }
    assert(shown@ =~= countdown_values());
    shown
}

/// Reads every element of a five-element array by index; returns them in order.
pub fn run_iterative_while() -> (r: Vec<i32>)
    ensures
        r@ == walked_values(),
{
    let a: [i32; 5] = [10, 20, 30, 40, 50];
    assert(a@ =~= walked_values());
    let mut shown: Vec<i32> = Vec::new();
    let mut index: usize = 0;
    while index < a.len()
        invariant
            index <= 5,
            a@ == walked_values(),
            shown@ == walked_values().take(index as int),
        decreases 5 - index,
    {
        shown.push(a[index]);
        index += 1;
        assert(shown@ =~= walked_values().take(index as int));
    }
    assert(shown@ =~= walked_values());
    shown
}

/// Reads every element of a five-element array by iterating over it; returns
/// them in order.
pub fn run_for() -> (r: Vec<i32>)
    ensures
        r@ == walked_values(),
{
    let a: [i32; 5] = [10, 20, 30, 40, 50];
    assert(a@ =~= walked_values());
    let mut shown: Vec<i32> = Vec::new();
    for element in it: a.iter()
        invariant
            a@ == walked_values(),
            shown@ == walked_values().take(it.index() as int),
    {
        shown.push(*element);
        assert(shown@ =~= walked_values().take(it.index() as int + 1));
    }
    assert(shown@ =~= walked_values());
    shown
}

/// Counts down over the range 1 to 3 taken in reverse; returns each value
/// shown, in order.
pub fn run_countdown() -> (r: Vec<u32>)
    ensures
        r@ == countdown_values(),
{
    let mut shown: Vec<u32> = Vec::new();
    for number in it: (1..4u32).rev()
        invariant
            shown@ == it.seq().take(it.index() as int),
    {
        shown.push(number);
        assert(shown@ =~= it.seq().take(it.index() as int + 1));
    }
    assert(shown@ =~= countdown_values());
    shown
}

/// One pass of the loop that never ends by itself: the next value of its
/// counter.
pub fn run_loop_step(it: i32) -> (r: i32)
    requires
        it < i32::MAX,
    ensures
        r == it + 1,
{
    it + 1
}

} // verus!
