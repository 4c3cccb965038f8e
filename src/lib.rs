//! A CHIP-8 virtual machine: instruction decoder, executor and machine state.
//!
//! The host supplies ROM bytes, the currently pressed key and the timer
//! cadence; the library performs one instruction per step and exposes the
//! framebuffer, registers and timers for inspection.

use vstd::prelude::*;

pub mod input;
pub mod instruction;
pub mod display;
pub mod chip;
pub mod execute;
pub mod laws;
pub mod controller;
pub mod screen;
pub mod rom;
pub mod text;

verus! {

/// `n` copies of `value`.
pub(crate) fn filled<T: Copy>(value: T, n: usize) -> (r: Vec<T>)
    ensures
        r@ == Seq::new(n as nat, |k: int| value),
{
    let mut r: Vec<T> = Vec::new();
    let mut k: usize = 0;
    while k < n
        invariant
            k <= n,
            r@ == Seq::new(k as nat, |j: int| value),
        decreases n - k,
    {
        r.push(value);
        k += 1;
        proof {
            assert(r@ =~= Seq::new(k as nat, |j: int| value));
        }
    }
    r
}

} // verus!
