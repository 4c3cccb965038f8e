//! The machine state: memory, registers, stack, timers, framebuffer and
//! pressed key, its mathematical model, and the host-facing operations
//! (load, reset, step, timer decrement).

use vstd::prelude::*;
use crate::display::{ChipDisplay, valid_frame, blank_frame};
use crate::filled;
use crate::input::ChipKey;
use crate::instruction::{Instruction, decode_spec, word_of};
use crate::execute::{advance, execute_spec};

verus! {

/// Bytes of memory.
pub const MEMORY_SIZE: usize = 4096;

/// Address at which a ROM is loaded and execution starts.
pub const ROM_START: u16 = 0x200;

/// Largest ROM that fits between `ROM_START` and the top of memory.
pub const MAX_ROM_SIZE: usize = 3584;

/// Number of general-purpose registers `V0..VF`.
pub const REGISTER_COUNT: usize = 16;

/// Index of the flag register `VF`.
pub const FLAG: usize = 15;

/// Number of stack slots.
pub const STACK_SIZE: usize = 16;

/// Bytes of the built-in font: sixteen glyphs of five bytes.
pub const FONT_SIZE: usize = 80;

/// Bytes per font glyph.
pub const GLYPH_SIZE: u16 = 5;

/// Errors surfaced to the host; none of them changes the machine.
#[derive(Debug, Clone, Copy, PartialEq, Eq, Structural)]
pub enum ChipError {
    /// The word matches no instruction.
    DecodeError(u16),
    /// `CALL` with all sixteen stack slots in use.
    StackOverflow,
    /// `RET` with no active call frame.
    StackUnderflow,
    /// The ROM does not fit between `ROM_START` and the top of memory.
    RomTooLarge,
    /// A ROM is loaded already and the machine was not reset since.
    AlreadyLoaded,
}

/// The built-in font: the glyphs of the hexadecimal digits 0 to F, five
/// rows each, most significant bit leftmost.
pub open spec fn font() -> Seq<u8> {
    seq![
        0xF0, 0x90, 0x90, 0x90, 0xF0, 0x20, 0x60, 0x20, 0x20, 0x70, 0xF0, 0x10, 0xF0, 0x80,
        0xF0, 0xF0, 0x10, 0xF0, 0x10, 0xF0, 0x90, 0x90, 0xF0, 0x10, 0x10, 0xF0, 0x80, 0xF0,
        0x10, 0xF0, 0xF0, 0x80, 0xF0, 0x90, 0xF0, 0xF0, 0x10, 0x20, 0x40, 0x40, 0xF0, 0x90,
        0xF0, 0x90, 0xF0, 0xF0, 0x90, 0xF0, 0x10, 0xF0, 0xF0, 0x90, 0xF0, 0x90, 0x90, 0xE0,
        0x90, 0xE0, 0x90, 0xE0, 0xF0, 0x80, 0x80, 0x80, 0xF0, 0xE0, 0x90, 0x90, 0x90, 0xE0,
        0xF0, 0x80, 0xF0, 0x80, 0xF0, 0xF0, 0x80, 0xF0, 0x80, 0x80,
    ]
}

/// Memory holding the font at its base and zero everywhere else.
pub open spec fn font_memory() -> Seq<u8> {
    Seq::new(MEMORY_SIZE as nat, |a: int| if a < FONT_SIZE { font()[a] } else { 0u8 })
}

/// The model of the machine.
pub struct ChipState {
    /// Memory, `MEMORY_SIZE` bytes.
    pub ram: Seq<u8>,
    /// Registers `V0..VF`.
    pub v: Seq<u8>,
    /// Delay timer.
    pub dt: u8,
    /// Sound timer.
    pub st: u8,
    /// Index register.
    pub i: u16,
    /// Program counter.
    pub pc: u16,
    /// Return addresses; the first `sp` slots are the active frames.
    pub stack: Seq<u16>,
    /// Stack depth.
    pub sp: u8,
    /// The framebuffer.
    pub display: Seq<u8>,
    /// The key the host reports as pressed, if any.
    pub pressed_key: Option<ChipKey>,
    /// While a key-wait instruction is pending: the register that receives the key.
    pub awaiting_key: Option<u8>,
    /// Whether a ROM was loaded since the last reset.
    pub rom_read: bool,
}

impl ChipState {
    pub open spec fn wf(self) -> bool {
        &&& self.ram.len() == MEMORY_SIZE
        &&& self.v.len() == REGISTER_COUNT
        &&& self.stack.len() == STACK_SIZE
        &&& self.sp <= STACK_SIZE
        &&& valid_frame(self.display)
        &&& self.awaiting_key matches Some(x) ==> x < REGISTER_COUNT
    }
}

/// The state of a machine that was just created or reset: font loaded,
/// everything else zero, no key, no ROM.
pub open spec fn initial_state() -> ChipState {
    ChipState {
        ram: font_memory(),
        v: Seq::new(REGISTER_COUNT as nat, |k: int| 0u8),
        dt: 0,
        st: 0,
        i: 0,
        pc: 0,
        stack: Seq::new(STACK_SIZE as nat, |k: int| 0u16),
        sp: 0,
        display: blank_frame(),
        pressed_key: None,
        awaiting_key: None,
        rom_read: false,
    }
}

/// The state after loading `rom`, or the error for it.
pub open spec fn load_spec(s: ChipState, rom: Seq<u8>) -> Result<ChipState, ChipError> {
    if s.rom_read {
        Err(ChipError::AlreadyLoaded)
    } else if rom.len() > MAX_ROM_SIZE {
        Err(ChipError::RomTooLarge)
    } else {
        Ok(ChipState {
            ram: Seq::new(
                MEMORY_SIZE as nat,
                |a: int|
                    if ROM_START <= a < ROM_START + rom.len() {
                        rom[a - ROM_START]
                    } else {
                        s.ram[a]
                    },
            ),
            pc: ROM_START,
            rom_read: true,
            ..s
        })
    }
}

/// The counter decremented by one, stopping at zero.
pub open spec fn count_down(t: u8) -> u8 {
    if t > 0 { (t - 1) as u8 } else { 0 }
}

/// The memory cell that address `a` selects: addresses wrap at the top of
/// memory.
pub open spec fn mem_addr(a: int) -> int {
    a % (MEMORY_SIZE as int)
}

/// The instruction word at the program counter (addresses wrap at the top
/// of memory).
pub open spec fn fetch_spec(s: ChipState) -> u16 {
    word_of(s.ram[mem_addr(s.pc as int)], s.ram[mem_addr(s.pc + 1)])
}

/// One step of the machine, with `random` as the byte that `RND` draws: the
/// next state and the instruction executed, or the error (the machine then
/// stays as it was).
///
/// While a key-wait is pending the step completes it if a key is pressed
/// (the key's value goes to the waiting register and the program counter
/// moves on), and does nothing otherwise. Else the word at the program
/// counter is decoded and executed.
#[verifier::opaque]
pub open spec fn step_spec(s: ChipState, random: u8) -> (ChipState, Result<Instruction, ChipError>) {
    match s.awaiting_key {
        Some(x) => match s.pressed_key {
            Some(k) => (
                advance(ChipState { v: s.v.update(x as int, k.value()), awaiting_key: None, ..s }),
                Ok(Instruction::LDKR(x)),
            ),
            None => (s, Ok(Instruction::LDKR(x))),
        },
        None => {
            let ins = decode_spec(fetch_spec(s));
            match execute_spec(s, ins, random) {
                Ok(t) => (t, Ok(ins)),
                Err(e) => (s, Err(e)),
            }
        },
    }
}

/// The machine.
pub struct Chip {
    pub ram: Vec<u8>,
    pub v: Vec<u8>,
    pub dt: u8,
    pub st: u8,
    pub i: u16,
    pub pc: u16,
    pub stack: Vec<u16>,
    pub sp: u8,
    pub display: ChipDisplay,
    pub pressed_key: Option<ChipKey>,
    pub awaiting_key: Option<u8>,
    pub rom_read: bool,
}

/// The machine under its other name.
pub type Chip8 = Chip;

impl View for Chip {
    type V = ChipState;

    open spec fn view(&self) -> ChipState {
        ChipState {
            ram: self.ram@,
            v: self.v@,
            dt: self.dt,
            st: self.st,
            i: self.i,
            pc: self.pc,
            stack: self.stack@,
            sp: self.sp,
            display: self.display@,
            pressed_key: self.pressed_key,
            awaiting_key: self.awaiting_key,
            rom_read: self.rom_read,
        }
    }
}

impl Chip {
    pub open spec fn wf(&self) -> bool {
        self@.wf()
    }

    /// A machine with the font loaded and everything else zero.
    pub fn new() -> (r: Chip)
        ensures
            r@ == initial_state(),
            r.wf(),
    {
        let mut chip = Chip {
            ram: filled(0u8, MEMORY_SIZE),
            display: ChipDisplay::new(),
            v: filled(0u8, REGISTER_COUNT),
            dt: 0,
            st: 0,
            i: 0,
            pc: 0,
            stack: filled(0u16, STACK_SIZE),
            sp: 0,
            pressed_key: None,
            awaiting_key: None,
            rom_read: false,
        };
        chip.init();
        proof {
            assert(chip.ram@ =~= font_memory());
            assert(chip.display@ =~= blank_frame());
        }
        chip
    }

    /// Whether the pressed key is the key whose value is the low nibble of `Vx`.
    pub fn key_matches(&self, x: u8) -> (r: bool)
        requires
            self.wf(),
            x < REGISTER_COUNT,
        ensures
            r == match self.pressed_key {
                Some(k) => k.value() == self.v@[x as int] % 16,
                None => false,
            },
    {
        match self.pressed_key {
            Some(k) => k.nibble() == self.v[x as usize] % 16,
            None => false,
        }
    }

    /// Writes the font to the base of memory.
    fn init(&mut self)
        requires
            old(self).ram@.len() == MEMORY_SIZE,
        ensures
            final(self)@ == (ChipState {
                ram: Seq::new(
                    MEMORY_SIZE as nat,
                    |a: int| if a < FONT_SIZE { font()[a] } else { old(self).ram@[a] },
                ),
                ..old(self)@
            }),
    {
        let sprites: Vec<u8> = vec![
            0xF0, 0x90, 0x90, 0x90, 0xF0, 0x20, 0x60, 0x20, 0x20, 0x70, 0xF0, 0x10, 0xF0, 0x80,
            0xF0, 0xF0, 0x10, 0xF0, 0x10, 0xF0, 0x90, 0x90, 0xF0, 0x10, 0x10, 0xF0, 0x80, 0xF0,
            0x10, 0xF0, 0xF0, 0x80, 0xF0, 0x90, 0xF0, 0xF0, 0x10, 0x20, 0x40, 0x40, 0xF0, 0x90,
            0xF0, 0x90, 0xF0, 0xF0, 0x90, 0xF0, 0x10, 0xF0, 0xF0, 0x90, 0xF0, 0x90, 0x90, 0xE0,
            0x90, 0xE0, 0x90, 0xE0, 0xF0, 0x80, 0x80, 0x80, 0xF0, 0xE0, 0x90, 0x90, 0x90, 0xE0,
            0xF0, 0x80, 0xF0, 0x80, 0xF0, 0xF0, 0x80, 0xF0, 0x80, 0x80,
        ];
        assert(sprites@ =~= font());
        let ghost ram0 = self.ram@;
        assert(ram0 =~= Seq::new(MEMORY_SIZE as nat, |a: int| if a < 0 { font()[a] } else { ram0[a] }));
        let mut k: usize = 0;
        while k < FONT_SIZE
            invariant
                k <= FONT_SIZE,
                sprites@ == font(),
                ram0 == old(self).ram@,
                ram0.len() == MEMORY_SIZE,
                self@ == (ChipState {
                    ram: Seq::new(
                        MEMORY_SIZE as nat,
                        |a: int| if a < k { font()[a] } else { ram0[a] },
                    ),
                    ..old(self)@
                }),
            decreases FONT_SIZE - k,
        {
            self.ram.set(k, sprites[k]);
            k += 1;
            proof {
                assert(self.ram@ =~= Seq::new(
                    MEMORY_SIZE as nat,
                    |a: int| if a < k { font()[a] } else { ram0[a] },
                ));
            }
        }
    }

    /// Loads `file` as the ROM: its bytes go to memory from `ROM_START` on
    /// and the program counter to `ROM_START`. Fails, changing nothing, when
    /// a ROM is loaded already or `file` does not fit in memory.
    pub fn read_rom_bytes(&mut self, file: Vec<u8>) -> (r: Result<(), ChipError>)
        requires
            old(self).wf(),
        ensures
            final(self).wf(),
            match load_spec(old(self)@, file@) {
                Ok(t) => r is Ok && final(self)@ == t,
                Err(e) => r == Err::<(), ChipError>(e) && final(self)@ == old(self)@,
            },
    {
        if self.rom_read {
            return Err(ChipError::AlreadyLoaded);
        }
        if file.len() > MAX_ROM_SIZE {
            return Err(ChipError::RomTooLarge);
        }
        let ghost s0 = self@;
        let start = ROM_START as usize;
        let mut k: usize = 0;
        proof {
            assert(s0.ram =~= Seq::new(
                MEMORY_SIZE as nat,
                |a: int| if start <= a < start + 0 { file@[a - start] } else { s0.ram[a] },
            ));
        }
        while k < file.len()
            invariant
                k <= file@.len() <= MAX_ROM_SIZE,
                start == ROM_START,
                s0 == old(self)@,
                s0.wf(),
                self@ == (ChipState {
                    ram: Seq::new(
                        MEMORY_SIZE as nat,
                        |a: int| if start <= a < start + k { file@[a - start] } else { s0.ram[a] },
                    ),
                    ..s0
                }),
            decreases file@.len() - k,
        {
            self.ram.set(start + k, file[k]);
            k += 1;
            proof {
                assert(self.ram@ =~= Seq::new(
                    MEMORY_SIZE as nat,
                    |a: int| if start <= a < start + k { file@[a - start] } else { s0.ram[a] },
                ));
            }
        }
        self.pc = ROM_START;
        self.rom_read = true;
        Ok(())
    }

    /// Resets the machine so that another ROM can be loaded: memory holds
    /// only the font, registers, stack, timers and framebuffer are zero, no
    /// key is pressed and the program counter is 0.
    pub fn remove_rom(&mut self)
        ensures
            final(self)@ == initial_state(),
            final(self).wf(),
    {
        *self = Chip::new();
    }

    /// Sets or clears the key that the host reports as pressed.
    pub fn set_key(&mut self, key: Option<ChipKey>)
        ensures
            final(self)@ == (ChipState { pressed_key: key, ..old(self)@ }),
    {
        self.pressed_key = key;
    }

    /// Decrements the delay and sound timers by one each, stopping at zero.
    pub fn decrement_timers(&mut self)
        ensures
            final(self)@ == (ChipState {
                dt: count_down(old(self).dt),
                st: count_down(old(self).st),
                ..old(self)@
            }),
    {
        if self.dt > 0 {
            self.dt = self.dt - 1;
        }
        if self.st > 0 {
            self.st = self.st - 1;
        }
    }

    /// The instruction word at the program counter.
    fn fetch(&self) -> (r: u16)
        requires
            self.wf(),
        ensures
            r == fetch_spec(self@),
    {
        let pc = self.pc as usize;
        let hi = self.ram[pc % MEMORY_SIZE];
        let lo = self.ram[(pc + 1) % MEMORY_SIZE];
        hi as u16 * 256 + lo as u16
    }

    /// Performs one step with `random` as the byte that `RND` draws, and
    /// returns the instruction executed or the error.
    pub fn tick_with(&mut self, random: u8) -> (r: Result<Instruction, ChipError>)
        requires
            old(self).wf(),
        ensures
            final(self).wf(),
            (final(self)@, r) == step_spec(old(self)@, random),
    {
        reveal(step_spec);
        if let Some(x) = self.awaiting_key {
            if let Some(k) = self.pressed_key {
                let val = k.nibble();
                self.v.set(x as usize, val);
                self.awaiting_key = None;
                self.next();
            }
            return Ok(Instruction::LDKR(x));
        }
        let ins = Instruction::decode(self.fetch());
        match ins.execute_with(self, random) {
            Ok(()) => Ok(ins),
            Err(e) => Err(e),
        }
    }

    /// Performs one step (executes the instruction at the program counter,
    /// or resumes a pending key-wait) and returns the instruction executed
    /// or the error. `RND` draws its byte from the host's random source.
    pub fn tick(&mut self) -> (r: Result<Instruction, ChipError>)
        requires
            old(self).wf(),
        ensures
            final(self).wf(),
            exists|random: u8| #[trigger] step_spec(old(self)@, random) == (final(self)@, r),
    {
        reveal(step_spec);
        if self.awaiting_key.is_some() {
            let r = self.tick_with(0);
            assert(step_spec(old(self)@, 0) == (self@, r));
            return r;
        }
        let ins = Instruction::decode(self.fetch());
        let res = ins.execute(self);
        let ghost random = choose|random: u8|
            match #[trigger] execute_spec(old(self)@, ins, random) {
                Ok(t) => res is Ok && self@ == t,
                Err(e) => res == Err::<(), ChipError>(e) && self@ == old(self)@,
            };
        let r = match res {
            Ok(()) => Ok(ins),
            Err(e) => Err(e),
        };
        assert(step_spec(old(self)@, random) == (self@, r));
        r
    }
}

} // verus!
