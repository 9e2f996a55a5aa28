//! Control flow: a conditional, a loop that yields a value, a `while`
//! loop that counts down, a walk over a sequence, and a walk over a range
//! in reverse.

use vstd::prelude::*;

verus! {

/// What a launch demonstration shows: the numbers of its countdown, in the
/// order in which they are counted, and after them the message that
/// closes it.
#[derive(Debug, Clone, PartialEq, Eq)]
pub struct Launch<T> {
    /// The numbers counted, first to last.
    pub countdown: Vec<T>,
    /// The message that follows the last number.
    pub message: &'static str,
}

/// Compares the fixed number 5 with 7 and picks the message of the branch
/// that the comparison selects: since 5 lies below 7, the one that says the
/// condition is true.
pub fn condition_if() -> (message: &'static str)
    ensures
        message@ == "Condition is true"@,
{
    let x: i32 = 5;
    if x < 7 {
        "Condition is true"
    } else {
        "Condition is false"
    }
}

/// Counts up from zero in steps of one and, once the counter equals
/// `threshold`, leaves the loop with twice the counter.
///
/// The loop is only left at the threshold, so the threshold has to lie
/// ahead of zero, and its double has to fit the result type.
pub fn count_and_double(threshold: i32) -> (yielded: i32)
    requires
        0 < threshold,
        2 * threshold <= i32::MAX,
    ensures
        yielded == 2 * threshold,
{
    let mut counter: i32 = 0;
    let mut result: i32 = 0;
    loop
        invariant_except_break
            0 <= counter < threshold,
        invariant
            2 * threshold <= i32::MAX,
        ensures
            result == 2 * threshold,
        decreases threshold - counter,
    {
        counter += 1;
        if counter == threshold {
            result = counter * 2;
            break;
        }
    }
    result
}

/// The value-returning loop with its threshold fixed at ten.
pub fn loop_that_returns_value() -> (yielded: i32)
    ensures
        yielded == 20,
{
    count_and_double(10)
}

/// The steps of a countdown from `start`: `start`, `start - 1`, and so on
/// down to one.
pub open spec fn countdown_from(start: u32) -> Seq<u32> {
    Seq::new(start as nat, |i: int| (start - i) as u32)
}

/// Counts down from `start` to zero with a `while` loop and returns the
/// counter's value at each step, in the order the steps were taken.
///
/// The loop takes exactly `start` steps; zero itself ends it and is not
/// among them.
pub fn countdown(start: u32) -> (steps: Vec<u32>)
    ensures
        steps@ == countdown_from(start),
        steps@.len() == start,
{
    let mut steps: Vec<u32> = Vec::new();
    let mut number: u32 = start;
    while number != 0
        invariant
            number <= start,
            steps@.len() == start - number,
            forall|i: int| 0 <= i < steps@.len() ==> steps@[i] == start - i,
        decreases number,
    {
        steps.push(number);
        number -= 1;
    }
    steps
}

/// The countdown with its start fixed at three, closed by the lift-off
/// message.
pub fn while_loop() -> (launch: Launch<u32>)
    ensures
        launch.countdown@ == seq![3u32, 2u32, 1u32],
        launch.message@ == "LIFTOFF"@,
{
    let steps: Vec<u32> = countdown(3);
    Launch { countdown: steps, message: "LIFTOFF" }
}

/// Visits the elements of `items` with a `for` loop and returns them as
/// they were met: each once, in the order in which they stand.
pub fn visit_each(items: &[i32]) -> (visited: Vec<i32>)
    ensures
        visited@ == items@,
{
    let mut visited: Vec<i32> = Vec::new();
    for element in iter: items.iter()
        invariant
            visited@ == items@.take(iter.index()),
    {
        visited.push(*element);
    }
    visited
}

/// The walk over the fixed sequence 10, 20, 30, 40, 50.
pub fn for_loop() -> (visited: Vec<i32>)
    ensures
        visited@ == seq![10i32, 20i32, 30i32, 40i32, 50i32],
{
    let a: [i32; 5] = [10, 20, 30, 40, 50];
    visit_each(&a)
}

/// The integers of the half-open range from `low` up to, but without,
/// `high`, largest first. Empty unless `low` lies below `high`.
pub open spec fn reversed_range(low: i32, high: i32) -> Seq<i32> {
    Seq::new(
        if low < high { (high - low) as nat } else { 0 },
        |i: int| (high - 1 - i) as i32,
    )
}

/// Walks the range `low..high` in reverse, taking one number after the
/// other from its upper end, and returns the numbers as they were met.
pub fn reverse_range(low: i32, high: i32) -> (numbers: Vec<i32>)
    ensures
        numbers@ == reversed_range(low, high),
{
    let mut numbers: Vec<i32> = Vec::new();
    let mut end: i32 = high;
    while low < end
        invariant
            low < high ==> low <= end <= high,
            low >= high ==> end == high,
            numbers@.len() == high - end,
            forall|i: int| 0 <= i < numbers@.len() ==> numbers@[i] == high - 1 - i,
        decreases end - low,
    {
        end -= 1;
        numbers.push(end);
    }
    numbers
}

/// The reversed walk over the fixed range `1..4`, closed by the lift-off
/// message.
pub fn range_in_for_loop() -> (launch: Launch<i32>)
    ensures
        launch.countdown@ == seq![3i32, 2i32, 1i32],
        launch.message@ == "LIFTOFF"@,
{
    let numbers: Vec<i32> = reverse_range(1, 4);
    Launch { countdown: numbers, message: "LIFTOFF" }
}

} // verus!
