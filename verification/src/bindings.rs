//! Variables and mutability: immutable and mutable bindings, and
//! shadowing.

use vstd::prelude::*;

verus! {

/// What the binding demonstration observes.
#[derive(Debug, Clone, Copy, PartialEq, Eq, Structural)]
pub struct Bindings {
    /// The value of the immutable binding.
    pub immutable: i32,
    /// The value of the mutable binding before it is assigned to.
    pub initial: i32,
    /// The value of the mutable binding after it has been assigned to.
    pub mutated: i32,
}

/// What the shadowing demonstration observes.
#[derive(Debug, Clone, Copy, PartialEq, Eq, Structural)]
pub struct Shadowed {
    /// The number bound to a name that shadows an earlier number.
    pub number: i32,
    /// The length bound to a name that shadows an earlier text.
    pub length: usize,
}

/// Binds 5 immutably, binds 10 mutably, and assigns 5 to the mutable
/// binding, observing it before and after.
pub fn variables() -> (seen: Bindings)
    ensures
        seen == (Bindings { immutable: 5, initial: 10, mutated: 5 }),
{
    let x: i32 = 5;
    let mut y: i32 = 10;
    let initial: i32 = y;
    y = 5;
    Bindings { immutable: x, initial, mutated: y }
}

/// Shadows the number 5 by itself plus ten, and a text of three spaces by
/// its length, which changes the type that the name stands for.
pub fn shadowed_variables() -> (seen: Shadowed)
    ensures
        seen == (Shadowed { number: 15, length: 3 }),
{
    let x: i32 = 5;
    let x: i32 = x + 10;
    let spaces = "   ";
    proof {
        reveal_strlit("   ");
        vstd::utf8::is_ascii_chars_encode_utf8(spaces@);
    }
    let spaces: usize = spaces.len();
    Shadowed { number: x, length: spaces }
}

} // verus!
