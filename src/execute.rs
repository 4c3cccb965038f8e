//! The executor: what each instruction does to the machine, as a spec
//! function, and the executable code proved against it.

use vstd::prelude::*;
use crate::chip::{
    Chip, ChipError, ChipState, FLAG, GLYPH_SIZE, MEMORY_SIZE, REGISTER_COUNT, STACK_SIZE,
    mem_addr,
};
use crate::display::{blank_frame, collides, drawn};
use crate::instruction::Instruction;

verus! {

/// Register `x`.
pub open spec fn reg(s: ChipState, x: u8) -> u8 {
    s.v[x as int]
}

/// The state with the program counter moved past one instruction (the
/// program counter wraps at 16 bits).
pub open spec fn advance(s: ChipState) -> ChipState {
    ChipState { pc: ((s.pc + 2) % 0x10000) as u16, ..s }
}

/// The state with the program counter moved past two instructions when
/// `cond` holds, past one otherwise.
pub open spec fn skip_when(s: ChipState, cond: bool) -> ChipState {
    ChipState { pc: ((s.pc + if cond { 4int } else { 2int }) % 0x10000) as u16, ..s }
}

/// The state with register `x` set to `val`.
pub open spec fn with_reg(s: ChipState, x: u8, val: u8) -> ChipState {
    ChipState { v: s.v.update(x as int, val), ..s }
}

/// The state with register `x` set to `val`, then `VF` set to `flag`.
pub open spec fn with_reg_flag(s: ChipState, x: u8, val: u8, flag: u8) -> ChipState {
    ChipState { v: s.v.update(x as int, val).update(FLAG as int, flag), ..s }
}

/// Whether the pressed key is the key whose value is the low nibble of `Vx`.
pub open spec fn key_is_pressed(s: ChipState, x: u8) -> bool {
    match s.pressed_key {
        Some(k) => k.value() == reg(s, x) % 16,
        None => false,
    }
}

/// The `n` bytes of memory from `I` on.
pub open spec fn sprite_at(s: ChipState, n: u8) -> Seq<u8> {
    Seq::new(n as nat, |r: int| s.ram[mem_addr(s.i + r)])
}

/// Memory with `V0..=Vx` written from `I` on.
pub open spec fn stored_registers(s: ChipState, x: u8) -> Seq<u8> {
    Seq::new(
        MEMORY_SIZE as nat,
        |a: int|
            {
                let k = mem_addr(a - s.i);
                if k <= x { s.v[k] } else { s.ram[a] }
            },
    )
}

/// Registers with `V0..=Vx` read from memory from `I` on.
pub open spec fn loaded_registers(s: ChipState, x: u8) -> Seq<u8> {
    Seq::new(
        REGISTER_COUNT as nat,
        |k: int| if k <= x { s.ram[mem_addr(s.i + k)] } else { s.v[k] },
    )
}

/// What executing `ins` does to `s`: the next state, or the error, in which
/// case the machine stays as it was. `random` is the byte that `RND` draws.
#[verifier::opaque]
pub open spec fn execute_spec(s: ChipState, ins: Instruction, random: u8) -> Result<
    ChipState,
    ChipError,
> {
    match ins {
        Instruction::SYS(_) => Ok(advance(s)),
        Instruction::CLS => Ok(advance(ChipState { display: blank_frame(), ..s })),
        Instruction::RET => if s.sp == 0 {
            Err(ChipError::StackUnderflow)
        } else {
            Ok(
                ChipState {
                    sp: (s.sp - 1) as u8,
                    pc: ((s.stack[s.sp - 1] + 2) % 0x10000) as u16,
                    ..s
                },
            )
        },
        Instruction::ERR(w) => Err(ChipError::DecodeError(w)),
        Instruction::JP(a) => Ok(ChipState { pc: a, ..s }),
        Instruction::JP3N(a) => Ok(ChipState { pc: (a + reg(s, 0)) as u16, ..s }),
        Instruction::CALL(a) => if s.sp >= STACK_SIZE {
            Err(ChipError::StackOverflow)
        } else {
            Ok(
                ChipState {
                    stack: s.stack.update(s.sp as int, s.pc),
                    sp: (s.sp + 1) as u8,
                    pc: a,
                    ..s
                },
            )
        },
        Instruction::SIREB(x, b) => Ok(skip_when(s, reg(s, x) == b)),
        Instruction::SIRNEB(x, b) => Ok(skip_when(s, reg(s, x) != b)),
        Instruction::SIRER(x, y) => Ok(skip_when(s, reg(s, x) == reg(s, y))),
        Instruction::SIRNER(x, y) => Ok(skip_when(s, reg(s, x) != reg(s, y))),
        Instruction::SKP(x) => Ok(skip_when(s, key_is_pressed(s, x))),
        Instruction::SKNP(x) => Ok(skip_when(s, !key_is_pressed(s, x))),
        Instruction::LDBR(x, b) => Ok(advance(with_reg(s, x, b))),
        Instruction::LDRR(x, y) => Ok(advance(with_reg(s, x, reg(s, y)))),
        Instruction::LD3NI(a) => Ok(advance(ChipState { i: a, ..s })),
        Instruction::LDDTR(x) => Ok(advance(with_reg(s, x, s.dt))),
        Instruction::LDRDT(x) => Ok(advance(ChipState { dt: reg(s, x), ..s })),
        Instruction::LDKR(x) => Ok(ChipState { awaiting_key: Some(x), ..s }),
        Instruction::LDRST(x) => Ok(advance(ChipState { st: reg(s, x), ..s })),
        Instruction::LDSI(x) => Ok(advance(ChipState { i: (reg(s, x) * GLYPH_SIZE) as u16, ..s })),
        Instruction::LDRBCDL(x) => Ok(
            advance(
                ChipState {
                    ram: s.ram.update(mem_addr(s.i as int), reg(s, x) / 100).update(
                        mem_addr(s.i + 1),
                        (reg(s, x) / 10) % 10,
                    ).update(mem_addr(s.i + 2), reg(s, x) % 10),
                    ..s
                },
            ),
        ),
        Instruction::LDRRL(x) => Ok(advance(ChipState { ram: stored_registers(s, x), ..s })),
        Instruction::LDLRR(x) => Ok(advance(ChipState { v: loaded_registers(s, x), ..s })),
        Instruction::ADDBR(x, b) => Ok(advance(with_reg(s, x, ((reg(s, x) + b) % 256) as u8))),
        Instruction::ADDRR(x, y) => Ok(
            advance(
                with_reg_flag(
                    s,
                    x,
                    ((reg(s, x) + reg(s, y)) % 256) as u8,
                    if reg(s, x) + reg(s, y) > 255 { 1 } else { 0 },
                ),
            ),
        ),
        Instruction::ADDRI(x) => Ok(advance(ChipState { i: ((s.i + reg(s, x)) % 0x10000) as u16, ..s })),
        Instruction::OR(x, y) => Ok(advance(with_reg(s, x, reg(s, x) | reg(s, y)))),
        Instruction::AND(x, y) => Ok(advance(with_reg(s, x, reg(s, x) & reg(s, y)))),
        Instruction::XOR(x, y) => Ok(advance(with_reg(s, x, reg(s, x) ^ reg(s, y)))),
        Instruction::SUB(x, y) => Ok(
            advance(
                with_reg_flag(
                    s,
                    x,
                    ((reg(s, x) + 256 - reg(s, y)) % 256) as u8,
                    if reg(s, x) > reg(s, y) { 1 } else { 0 },
                ),
            ),
        ),
        Instruction::SUBN(x, y) => Ok(
            advance(
                with_reg_flag(
                    s,
                    y,
                    ((reg(s, y) + 256 - reg(s, x)) % 256) as u8,
                    if reg(s, y) > reg(s, x) { 1 } else { 0 },
                ),
            ),
        ),
        Instruction::SHR(x) => Ok(advance(with_reg_flag(s, x, reg(s, x) / 2, reg(s, x) % 2))),
        Instruction::SHL(x) => Ok(
            advance(with_reg_flag(s, x, ((reg(s, x) * 2) % 256) as u8, reg(s, x) / 128)),
        ),
        Instruction::RND(x, b) => Ok(advance(with_reg(s, x, b & random))),
        Instruction::DRW(x, y, n) => {
            let sprite = sprite_at(s, n);
            let hit = collides(s.display, sprite, reg(s, x), reg(s, y));
            Ok(
                advance(
                    ChipState {
                        display: drawn(s.display, sprite, reg(s, x), reg(s, y)),
                        v: s.v.update(FLAG as int, if hit { 1 } else { 0 }),
                        ..s
                    },
                ),
            )
        },
    }
}

/// A random byte.
/// Relies on `rand::random`: a byte from the thread-local generator, which
/// promises nothing about the value.
#[verifier::external_body]
fn random_byte() -> (r: u8) {
    rand::random::<u8>()
}

impl Chip {
    /// Goes to the next instruction: the program counter moves by 2.
    pub fn next(&mut self)
        ensures
            final(self)@ == advance(old(self)@),
    {
        self.pc = ((self.pc as u32 + 2) % 0x10000) as u16;
    }

    /// Skips the next instruction: the program counter moves by 4.
    pub fn skip(&mut self)
        ensures
            final(self)@ == skip_when(old(self)@, true),
    {
        self.pc = ((self.pc as u32 + 4) % 0x10000) as u16;
    }

    /// Skips the next instruction when `cond` holds, goes to it otherwise.
    fn skip_if(&mut self, cond: bool)
        ensures
            final(self)@ == skip_when(old(self)@, cond),
    {
        if cond {
            self.skip();
        } else {
            self.next();
        }
    }

    /// Writes `V0..=Vx` to memory from `I` on.
    fn store_registers(&mut self, x: u8)
        requires
            old(self).wf(),
            x < REGISTER_COUNT,
        ensures
            final(self)@ == (ChipState { ram: stored_registers(old(self)@, x), ..old(self)@ }),
    {
        let ghost s0 = self@;
        let base = self.i as usize;
        let mut k: usize = 0;
        proof {
            assert(s0.ram =~= Seq::new(
                MEMORY_SIZE as nat,
                |a: int| { let j = mem_addr(a - s0.i); if j < 0 { s0.v[j] } else { s0.ram[a] } },
            ));
        }
        while k <= x as usize
            invariant
                k <= x + 1,
                x < REGISTER_COUNT,
                base == s0.i,
                s0 == old(self)@,
                s0.wf(),
                self@ == (ChipState {
                    ram: Seq::new(
                        MEMORY_SIZE as nat,
                        |a: int|
                            {
                                let j = mem_addr(a - s0.i);
                                if j < k { s0.v[j] } else { s0.ram[a] }
                            },
                    ),
                    ..s0
                }),
            decreases x + 1 - k,
        {
            let addr = (base + k) % MEMORY_SIZE;
            let val = self.v[k];
            self.ram.set(addr, val);
            proof {
                assert forall|a: int| 0 <= a < MEMORY_SIZE implies (#[trigger] mem_addr(a - s0.i) == k)
                    == (a == addr) by {
                    assert(mem_addr(a - s0.i) == k ==> a == addr);
                }
            }
            k += 1;
            proof {
                assert(self.ram@ =~= Seq::new(
                    MEMORY_SIZE as nat,
                    |a: int|
                        {
                            let j = mem_addr(a - s0.i);
                            if j < k { s0.v[j] } else { s0.ram[a] }
                        },
                ));
            }
        }
        proof {
            assert(self.ram@ =~= stored_registers(s0, x));
        }
    }

    /// Reads `V0..=Vx` from memory from `I` on.
    fn load_registers(&mut self, x: u8)
        requires
            old(self).wf(),
            x < REGISTER_COUNT,
        ensures
            final(self)@ == (ChipState { v: loaded_registers(old(self)@, x), ..old(self)@ }),
    {
        let ghost s0 = self@;
        let base = self.i as usize;
        let mut k: usize = 0;
        proof {
            assert(s0.v =~= Seq::new(
                REGISTER_COUNT as nat,
                |j: int| if j < 0 { s0.ram[mem_addr(s0.i + j)] } else { s0.v[j] },
            ));
        }
        while k <= x as usize
            invariant
                k <= x + 1,
                x < REGISTER_COUNT,
                base == s0.i,
                s0 == old(self)@,
                s0.wf(),
                self@ == (ChipState {
                    v: Seq::new(
                        REGISTER_COUNT as nat,
                        |j: int| if j < k { s0.ram[mem_addr(s0.i + j)] } else { s0.v[j] },
                    ),
                    ..s0
                }),
            decreases x + 1 - k,
        {
            let val = self.ram[(base + k) % MEMORY_SIZE];
            self.v.set(k, val);
            k += 1;
            proof {
                assert(self.v@ =~= Seq::new(
                    REGISTER_COUNT as nat,
                    |j: int| if j < k { s0.ram[mem_addr(s0.i + j)] } else { s0.v[j] },
                ));
            }
        }
        proof {
            assert(self.v@ =~= loaded_registers(s0, x));
        }
    }

    /// Draws the `n`-byte sprite at `I` at `(Vx, Vy)` and sets `VF` to
    /// whether a set pixel was unset.
    fn draw_sprite(&mut self, x: u8, y: u8, n: u8)
        requires
            old(self).wf(),
            x < REGISTER_COUNT,
            y < REGISTER_COUNT,
        ensures
            ({
                let s = old(self)@;
                let sprite = sprite_at(s, n);
                let hit = collides(s.display, sprite, reg(s, x), reg(s, y));
                final(self)@ == (ChipState {
                    display: drawn(s.display, sprite, reg(s, x), reg(s, y)),
                    v: s.v.update(FLAG as int, if hit { 1 } else { 0 }),
                    ..s
                })
            }),
    {
        let ghost s0 = self@;
        let mut sprite: Vec<u8> = Vec::new();
        let mut r: u8 = 0;
        while r < n
            invariant
                r <= n,
                s0 == self@,
                s0.wf(),
                sprite@ == Seq::new(r as nat, |k: int| s0.ram[mem_addr(s0.i + k)]),
            decreases n - r,
        {
            sprite.push(self.ram[(self.i as usize + r as usize) % MEMORY_SIZE]);
            r += 1;
            proof {
                assert(sprite@ =~= Seq::new(r as nat, |k: int| s0.ram[mem_addr(s0.i + k)]));
            }
        }
        let vx = self.v[x as usize];
        let vy = self.v[y as usize];
        let collision = self.display.draw(&sprite, vx, vy);
        self.v.set(FLAG, if collision { 1 } else { 0 });
    }
}

impl Instruction {
    /// Executes this instruction on `chip`, with `random` as the byte that
    /// `RND` draws. On an error the machine is left unchanged.
    pub fn execute_with(&self, chip: &mut Chip, random: u8) -> (r: Result<(), ChipError>)
        requires
            old(chip).wf(),
            self.wf(),
        ensures
            final(chip).wf(),
            match execute_spec(old(chip)@, *self, random) {
                Ok(t) => r is Ok && final(chip)@ == t,
                Err(e) => r == Err::<(), ChipError>(e) && final(chip)@ == old(chip)@,
            },
    {
        reveal(execute_spec);
        match *self {
            Instruction::SYS(_) => {
                chip.next();
            },
            Instruction::CLS => {
                chip.display.clear();
                chip.next();
            },
            Instruction::RET => {
                if chip.sp == 0 {
                    return Err(ChipError::StackUnderflow);
                }
                chip.sp = chip.sp - 1;
                chip.pc = chip.stack[chip.sp as usize];
                chip.next();
            },
            Instruction::ERR(w) => {
                return Err(ChipError::DecodeError(w));
            },
            Instruction::JP(a) => {
                chip.pc = a;
            },
            Instruction::JP3N(a) => {
                chip.pc = a + chip.v[0] as u16;
            },
            Instruction::CALL(a) => {
                if chip.sp as usize >= STACK_SIZE {
                    return Err(ChipError::StackOverflow);
                }
                chip.stack.set(chip.sp as usize, chip.pc);
                chip.sp = chip.sp + 1;
                chip.pc = a;
            },
            Instruction::SIREB(x, b) => {
                let c = chip.v[x as usize] == b;
                chip.skip_if(c);
            },
            Instruction::SIRNEB(x, b) => {
                let c = chip.v[x as usize] != b;
                chip.skip_if(c);
            },
            Instruction::SIRER(x, y) => {
                let c = chip.v[x as usize] == chip.v[y as usize];
                chip.skip_if(c);
            },
            Instruction::SIRNER(x, y) => {
                let c = chip.v[x as usize] != chip.v[y as usize];
                chip.skip_if(c);
            },
            Instruction::SKP(x) => {
                let c = chip.key_matches(x);
                chip.skip_if(c);
            },
            Instruction::SKNP(x) => {
                let c = !chip.key_matches(x);
                chip.skip_if(c);
            },
            Instruction::LDBR(x, b) => {
                chip.v.set(x as usize, b);
                chip.next();
            },
            Instruction::LDRR(x, y) => {
                let val = chip.v[y as usize];
                chip.v.set(x as usize, val);
                chip.next();
            },
            Instruction::LD3NI(a) => {
                chip.i = a;
                chip.next();
            },
            Instruction::LDDTR(x) => {
                let val = chip.dt;
                chip.v.set(x as usize, val);
                chip.next();
            },
            Instruction::LDRDT(x) => {
                chip.dt = chip.v[x as usize];
                chip.next();
            },
            Instruction::LDKR(x) => {
                chip.awaiting_key = Some(x);
            },
            Instruction::LDRST(x) => {
                chip.st = chip.v[x as usize];
                chip.next();
            },
            Instruction::LDSI(x) => {
                chip.i = chip.v[x as usize] as u16 * GLYPH_SIZE;
                chip.next();
            },
            Instruction::LDRBCDL(x) => {
                let val = chip.v[x as usize];
                let i = chip.i as usize;
                chip.ram.set(i % MEMORY_SIZE, val / 100);
                chip.ram.set((i + 1) % MEMORY_SIZE, (val / 10) % 10);
                chip.ram.set((i + 2) % MEMORY_SIZE, val % 10);
                chip.next();
            },
            Instruction::LDRRL(x) => {
                chip.store_registers(x);
                chip.next();
            },
            Instruction::LDLRR(x) => {
                chip.load_registers(x);
                chip.next();
            },
            Instruction::ADDBR(x, b) => {
                let val = ((chip.v[x as usize] as u16 + b as u16) % 256) as u8;
                chip.v.set(x as usize, val);
                chip.next();
            },
            Instruction::ADDRR(x, y) => {
                let sum = chip.v[x as usize] as u16 + chip.v[y as usize] as u16;
                chip.v.set(x as usize, (sum % 256) as u8);
                chip.v.set(FLAG, if sum > 255 { 1 } else { 0 });
                chip.next();
            },
            Instruction::ADDRI(x) => {
                chip.i = ((chip.i as u32 + chip.v[x as usize] as u32) % 0x10000) as u16;
                chip.next();
            },
            Instruction::OR(x, y) => {
                let val = chip.v[x as usize] | chip.v[y as usize];
                chip.v.set(x as usize, val);
                chip.next();
            },
            Instruction::AND(x, y) => {
                let val = chip.v[x as usize] & chip.v[y as usize];
                chip.v.set(x as usize, val);
                chip.next();
            },
            Instruction::XOR(x, y) => {
                let val = chip.v[x as usize] ^ chip.v[y as usize];
                chip.v.set(x as usize, val);
                chip.next();
            },
            Instruction::SUB(x, y) => {
                let a = chip.v[x as usize];
                let b = chip.v[y as usize];
                chip.v.set(x as usize, ((a as u16 + 256 - b as u16) % 256) as u8);
                chip.v.set(FLAG, if a > b { 1 } else { 0 });
                chip.next();
            },
            Instruction::SUBN(x, y) => {
                let a = chip.v[x as usize];
                let b = chip.v[y as usize];
                chip.v.set(y as usize, ((b as u16 + 256 - a as u16) % 256) as u8);
                chip.v.set(FLAG, if b > a { 1 } else { 0 });
                chip.next();
            },
            Instruction::SHR(x) => {
                let a = chip.v[x as usize];
                chip.v.set(x as usize, a / 2);
                chip.v.set(FLAG, a % 2);
                chip.next();
            },
            Instruction::SHL(x) => {
                let a = chip.v[x as usize];
                chip.v.set(x as usize, ((a as u16 * 2) % 256) as u8);
                chip.v.set(FLAG, a / 128);
                chip.next();
            },
            Instruction::RND(x, b) => {
                chip.v.set(x as usize, b & random);
                chip.next();
            },
            Instruction::DRW(x, y, n) => {
                chip.draw_sprite(x, y, n);
                chip.next();
            },
        }
        Ok(())
    }

    /// Executes this instruction on `chip`; `RND` draws its byte from the
    /// host's random source. On an error the machine is left unchanged.
    pub fn execute(&self, chip: &mut Chip) -> (r: Result<(), ChipError>)
        requires
            old(chip).wf(),
            self.wf(),
        ensures
            final(chip).wf(),
            exists|random: u8|
                match #[trigger] execute_spec(old(chip)@, *self, random) {
                    Ok(t) => r is Ok && final(chip)@ == t,
                    Err(e) => r == Err::<(), ChipError>(e) && final(chip)@ == old(chip)@,
                },
    {
        let random = if let Instruction::RND(_, _) = *self {
            random_byte()
        } else {
            0
        };
        self.execute_with(chip, random)
    }
}

} // verus!
