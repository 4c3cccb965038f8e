//! The host-facing controller: a machine with operations for stepping,
//! keys, ROM loading, timers, reset and the framebuffer.

use vstd::prelude::*;
use crate::chip::{Chip, ChipError, ChipState, count_down, initial_state, load_spec, step_spec};
use crate::input::{ChipKey, KeyCode, host_chip_key, into_chip_key};

verus! {

/// `randoms.len()` steps from `s`, step `k` drawing `randoms[k]` for `RND`,
/// stopping at the first error: the final state and `Ok`, or the state
/// before the failing step and its error.
pub open spec fn run_spec(s: ChipState, randoms: Seq<u8>) -> (ChipState, Result<(), ChipError>)
    decreases randoms.len(),
{
    if randoms.len() == 0 {
        (s, Ok(()))
    } else {
        let (t, r) = run_spec(s, randoms.drop_last());
        match r {
            Ok(()) => match step_spec(t, randoms.last()) {
                (u, Ok(_)) => (u, Ok(())),
                (u, Err(e)) => (u, Err(e)),
            },
            Err(e) => (t, Err(e)),
        }
    }
}

/// The number of steps that `ChipController::tick` performs.
pub open spec fn step_count(instructions: Option<usize>) -> int {
    match instructions {
        Some(n) => n as int,
        None => 1,
    }
}

/// What a host loop does after a cycle.
#[derive(Debug, Clone, Copy, PartialEq, Eq, Structural)]
pub enum HostAction {
    /// Go on with the next cycle.
    Continue,
    /// The user asked to quit.
    Quit,
    /// The step failed with this error.
    Fault(ChipError),
}

/// The key with which the user quits.
pub const QUIT_KEY: char = 'q';

/// The state after one decrement of each timer that is due.
pub open spec fn timers_ticked(s: ChipState, delay_due: bool, sound_due: bool) -> ChipState {
    ChipState {
        dt: if delay_due { count_down(s.dt) } else { s.dt },
        st: if sound_due { count_down(s.st) } else { s.st },
        ..s
    }
}

/// A machine driven by a host.
pub struct ChipController {
    chip: Chip,
}

impl View for ChipController {
    type V = ChipState;

    closed spec fn view(&self) -> ChipState {
        self.chip@
    }
}

impl ChipController {
    pub open spec fn wf(&self) -> bool {
        self@.wf()
    }

    /// A controller with a fresh machine.
    pub fn new() -> (r: Self)
        ensures
            r@ == initial_state(),
            r.wf(),
    {
        ChipController { chip: Chip::new() }
    }

    /// Performs `instructions` steps, or one step when it is `None`,
    /// stopping at the first error, which it returns.
    pub fn tick(&mut self, instructions: Option<usize>) -> (r: Result<(), ChipError>)
        requires
            old(self).wf(),
        ensures
            final(self).wf(),
            exists|randoms: Seq<u8>|
                {
                    &&& randoms.len() <= step_count(instructions)
                    &&& (r is Ok ==> randoms.len() == step_count(instructions))
                    &&& #[trigger] run_spec(old(self)@, randoms) == (final(self)@, r)
                },
    {
        let n = match instructions {
            Some(is) => is,
            None => 1,
        };
        let ghost mut randoms: Seq<u8> = Seq::empty();
        let mut k: usize = 0;
        while k < n
            invariant
                k <= n,
                n == step_count(instructions),
                self.wf(),
                randoms.len() == k,
                run_spec(old(self)@, randoms) == (self@, Ok::<(), ChipError>(())),
            decreases n - k,
        {
            let ghost before = self@;
            let res = self.chip.tick();
            let ghost random = choose|random: u8| #[trigger]
                step_spec(before, random) == (self@, res);
            proof {
                assert(randoms.push(random).drop_last() =~= randoms);
                randoms = randoms.push(random);
            }
            if let Err(e) = res {
                assert(run_spec(old(self)@, randoms) == (self@, Err::<(), ChipError>(e)));
                return Err(e);
            }
            k += 1;
        }
        Ok(())
    }

    /// Sets or clears the key that the host reports as pressed.
    pub fn set_pressed_key(&mut self, key: Option<ChipKey>)
        requires
            old(self).wf(),
        ensures
            final(self).wf(),
            final(self)@ == (ChipState { pressed_key: key, ..old(self)@ }),
    {
        self.chip.set_key(key);
    }

    /// Loads a ROM; see `Chip::read_rom_bytes`.
    pub fn set_rom(&mut self, file: Vec<u8>) -> (r: Result<(), ChipError>)
        requires
            old(self).wf(),
        ensures
            final(self).wf(),
            match load_spec(old(self)@, file@) {
                Ok(t) => r is Ok && final(self)@ == t,
                Err(e) => r == Err::<(), ChipError>(e) && final(self)@ == old(self)@,
            },
    {
        self.chip.read_rom_bytes(file)
    }

    /// The delay timer.
    pub fn delay_timer(&self) -> (r: u8)
        ensures
            r == self@.dt,
    {
        self.chip.dt
    }

    /// The sound timer.
    pub fn sound_timer(&self) -> (r: u8)
        ensures
            r == self@.st,
    {
        self.chip.st
    }

    /// Decrements the delay timer by one, stopping at zero.
    pub fn dec_delay_timer(&mut self)
        requires
            old(self).wf(),
        ensures
            final(self).wf(),
            final(self)@ == (ChipState { dt: count_down(old(self)@.dt), ..old(self)@ }),
    {
        if self.chip.dt > 0 {
            self.chip.dt = self.chip.dt - 1;
        }
    }

    /// Decrements the sound timer by one, stopping at zero.
    pub fn dec_sound_timer(&mut self)
        requires
            old(self).wf(),
        ensures
            final(self).wf(),
            final(self)@ == (ChipState { st: count_down(old(self)@.st), ..old(self)@ }),
    {
        if self.chip.st > 0 {
            self.chip.st = self.chip.st - 1;
        }
    }

    /// Decrements both timers by one, stopping at zero.
    pub fn dec_timers(&mut self)
        requires
            old(self).wf(),
        ensures
            final(self).wf(),
            final(self)@ == (ChipState {
                dt: count_down(old(self)@.dt),
                st: count_down(old(self)@.st),
                ..old(self)@
            }),
    {
        self.chip.decrement_timers();
    }

    /// The delay timer; reading it changes nothing.
    pub fn get_delay_timer(&self) -> (r: u8)
        ensures
            r == self@.dt,
    {
        self.chip.dt
    }

    /// The sound timer; reading it changes nothing.
    pub fn get_sound_timer(&self) -> (r: u8)
        ensures
            r == self@.st,
    {
        self.chip.st
    }

    /// Resets the machine so that another ROM can be loaded.
    pub fn reset(&mut self)
        ensures
            final(self)@ == initial_state(),
            final(self).wf(),
    {
        self.chip.remove_rom();
    }

    /// A copy of the framebuffer, row-major, one byte per pixel.
    pub fn get_display(&self) -> (r: Vec<u8>)
        ensures
            r@ == self@.display,
    {
        self.chip.display.get_pixels()
    }

    /// The machine, for inspection.
    pub fn chip(&self) -> (r: &Chip)
        ensures
            r@ == self@,
    {
        &self.chip
    }

    /// One cycle of a host loop, given the key the host read (`KeyCode::Null`
    /// for none) and whether each timer's period has elapsed: each due timer
    /// is decremented (stopping at zero); then the quit key ends the loop,
    /// and any other key is reported as pressed (a keypad key, or none) and
    /// one step is performed.
    pub fn cycle(&mut self, key: KeyCode, delay_due: bool, sound_due: bool) -> (r: HostAction)
        requires
            old(self).wf(),
        ensures
            final(self).wf(),
            ({
                let s1 = timers_ticked(old(self)@, delay_due, sound_due);
                if key == KeyCode::Char(QUIT_KEY) {
                    r == HostAction::Quit && final(self)@ == s1
                } else {
                    exists|random: u8|
                        {
                            let (t, res) = #[trigger] step_spec(
                                ChipState { pressed_key: host_chip_key(key), ..s1 },
                                random,
                            );
                            &&& final(self)@ == t
                            &&& r == match res {
                                Ok(_) => HostAction::Continue,
                                Err(e) => HostAction::Fault(e),
                            }
                        }
                }
            }),
    {
        if delay_due {
            self.dec_delay_timer();
        }
        if sound_due {
            self.dec_sound_timer();
        }
        if key == KeyCode::Char(QUIT_KEY) {
            return HostAction::Quit;
        }
        let chip_key = into_chip_key(&key);
        self.chip.set_key(chip_key);
        let res = self.chip.tick();
        match res {
            Ok(_) => HostAction::Continue,
            Err(e) => HostAction::Fault(e),
        }
    }
}

} // verus!
