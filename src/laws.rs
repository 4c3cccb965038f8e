//! Laws relating several executions of instructions.

use vstd::prelude::*;
use crate::chip::{ChipState, FLAG, REGISTER_COUNT};
use crate::display::{blank_frame, drawn, flip, valid_frame};
use crate::execute::{advance, execute_spec, reg, sprite_at};
use crate::instruction::Instruction;

verus! {

/// Drawing the same sprite twice at the same place restores the frame:
/// exclusive-or is its own inverse.
pub proof fn lemma_draw_self_inverse(f: Seq<u8>, sprite: Seq<u8>, x: u8, y: u8)
    requires
        valid_frame(f),
    ensures
        drawn(drawn(f, sprite, x, y), sprite, x, y) == f,
{
    let once = drawn(f, sprite, x, y);
    let twice = drawn(once, sprite, x, y);
    assert forall|p: int| 0 <= p < f.len() implies twice[p] == f[p] by {
        assert(f[p] <= 1);
        assert(flip(flip(f[p])) == f[p]);
    }
    assert(twice =~= f);
}

/// Adding the byte `b` to register `x` twice leaves the same registers,
/// memory, timers and framebuffer as adding `(b + b) mod 256` once; the
/// program counter is one instruction further on.
pub proof fn lemma_add_byte_twice(s: ChipState, x: u8, b: u8, random: u8)
    requires
        s.wf(),
        x < REGISTER_COUNT,
    ensures
        ({
            let once = execute_spec(s, Instruction::ADDBR(x, b), random);
            let twice = execute_spec(once->Ok_0, Instruction::ADDBR(x, b), random);
            let doubled = execute_spec(s, Instruction::ADDBR(x, ((b + b) % 256) as u8), random);
            &&& once is Ok
            &&& twice is Ok
            &&& doubled is Ok
            &&& twice->Ok_0 == advance(doubled->Ok_0)
        }),
{
    reveal(execute_spec);
    let once = execute_spec(s, Instruction::ADDBR(x, b), random)->Ok_0;
    let twice = execute_spec(once, Instruction::ADDBR(x, b), random)->Ok_0;
    let double = execute_spec(s, Instruction::ADDBR(x, ((b + b) % 256) as u8), random)->Ok_0;
    let v0 = reg(s, x);
    assert((((v0 + b) % 256) + b) % 256 == (v0 + (b + b) % 256) % 256) by (nonlinear_arith);
    assert(twice.v =~= double.v);
}

/// Clearing the screen and then drawing gives the same framebuffer and
/// registers as drawing the same sprite on a blank framebuffer.
pub proof fn lemma_clear_then_draw(s: ChipState, x: u8, y: u8, n: u8, random: u8)
    requires
        s.wf(),
        x < REGISTER_COUNT,
        y < REGISTER_COUNT,
    ensures
        ({
            let cleared = execute_spec(s, Instruction::CLS, random)->Ok_0;
            let after = execute_spec(cleared, Instruction::DRW(x, y, n), random)->Ok_0;
            let on_blank = execute_spec(
                ChipState { display: blank_frame(), ..s },
                Instruction::DRW(x, y, n),
                random,
            )->Ok_0;
            &&& execute_spec(s, Instruction::CLS, random) is Ok
            &&& execute_spec(cleared, Instruction::DRW(x, y, n), random) is Ok
            &&& after.display == on_blank.display
            &&& after.v == on_blank.v
        }),
{
    reveal(execute_spec);
    let cleared = execute_spec(s, Instruction::CLS, random)->Ok_0;
    assert(sprite_at(cleared, n) == sprite_at(ChipState { display: blank_frame(), ..s }, n));
}

/// Drawing the same sprite twice with the same instruction restores the
/// framebuffer, as long as neither coordinate register is `VF`, which the
/// first draw overwrites with the collision flag.
pub proof fn lemma_draw_twice_restores(s: ChipState, x: u8, y: u8, n: u8, random: u8)
    requires
        s.wf(),
        x < REGISTER_COUNT,
        y < REGISTER_COUNT,
        x != FLAG,
        y != FLAG,
    ensures
        ({
            let once = execute_spec(s, Instruction::DRW(x, y, n), random)->Ok_0;
            let twice = execute_spec(once, Instruction::DRW(x, y, n), random)->Ok_0;
            &&& execute_spec(s, Instruction::DRW(x, y, n), random) is Ok
            &&& execute_spec(once, Instruction::DRW(x, y, n), random) is Ok
            &&& twice.display == s.display
        }),
{
    reveal(execute_spec);
    let once = execute_spec(s, Instruction::DRW(x, y, n), random)->Ok_0;
    assert(reg(once, x) == reg(s, x));
    assert(reg(once, y) == reg(s, y));
    assert(sprite_at(once, n) =~= sprite_at(s, n));
    lemma_draw_self_inverse(s.display, sprite_at(s, n), reg(s, x), reg(s, y));
}

/// No instruction changes a timer, except the two that load it from a
/// register.
pub proof fn lemma_timers_change_only_by_load(s: ChipState, ins: Instruction, random: u8)
    requires
        s.wf(),
        ins.wf(),
    ensures
        execute_spec(s, ins, random) matches Ok(t) ==> {
            &&& (!(ins is LDRDT) ==> t.dt == s.dt)
            &&& (!(ins is LDRST) ==> t.st == s.st)
        },
{
    reveal(execute_spec);
}

} // verus!
