use vstd::prelude::*;

use crate::display::{binary_pixels, blank, collision, drawn, Display, DisplayChange, BUFFER_SIZE};
use crate::instruction::{decoded, Instruction};
use crate::keyboard::{lowest_pressed, released, Keyboard, KEY_COUNT};
use crate::memory::{overwritten, zeroed, Memory, MEMORY_SIZE, PROGRAM_START};

verus! {

/// Number of general registers, `V0` to `VF`.
pub const REGISTER_COUNT: usize = 16;

/// Depth of the call stack.
pub const STACK_SIZE: usize = 16;

/// Index of the flag register `VF`.
pub const FLAG: u8 = 0xF;

/// Height in bytes of a font glyph.
pub const GLYPH_HEIGHT: u16 = 5;

/// A fatal condition met while executing an instruction.
#[derive(Clone, Copy, Debug, PartialEq, Eq, Structural)]
pub enum ChipError {
    /// The opcode matches no instruction.
    IllegalInstruction(u16),
    /// A call with all sixteen stack slots in use.
    StackOverflow,
    /// A return with an empty stack.
    StackUnderflow,
    /// An instruction or its operands lie beyond the end of memory.
    MemoryOutOfBounds,
}

/// The whole machine as values: registers, stack, timers, memory, framebuffer,
/// damage descriptor and keypad.
pub struct ChipState {
    pub v: Seq<u8>,
    pub i: u16,
    pub pc: u16,
    pub sp: u8,
    pub stack: Seq<u16>,
    pub dt: u8,
    pub st: u8,
    pub memory: Seq<u8>,
    pub screen: Seq<u8>,
    pub changes: Option<DisplayChange>,
    pub keys: Seq<bool>,
}

impl ChipState {
    /// Sizes match the machine and every pixel is 0 or 1.
    pub open spec fn wf(self) -> bool {
        &&& self.v.len() == REGISTER_COUNT
        &&& self.stack.len() == STACK_SIZE
        &&& self.sp <= STACK_SIZE
        &&& self.memory.len() == MEMORY_SIZE
        &&& self.screen.len() == BUFFER_SIZE
        &&& binary_pixels(self.screen)
        &&& self.keys.len() == KEY_COUNT
    }
}

/// `pc` moved forward by `d` bytes, modulo 2^16.
pub open spec fn advance(pc: u16, d: int) -> u16 {
    ((pc + d) % 0x10000) as u16
}

/// The next `pc` of a conditional skip.
pub open spec fn skip(pc: u16, c: bool) -> u16 {
    if c {
        advance(pc, 4)
    } else {
        advance(pc, 2)
    }
}

/// The value a flag-setting instruction stores in `VF`.
pub open spec fn flag(c: bool) -> u8 {
    if c {
        1
    } else {
        0
    }
}

/// `n` modulo 256, as a byte.
pub open spec fn wrap8(n: int) -> u8 {
    (n % 256) as u8
}

/// Whether key `k` is on the pad and held.
pub open spec fn key_held(keys: Seq<bool>, k: u8) -> bool {
    k < KEY_COUNT && keys[k as int]
}

/// The decimal digits of `b`: hundreds, tens, ones.
pub open spec fn bcd(b: u8) -> Seq<u8> {
    seq![b / 100, (b / 10) % 10, b % 10]
}

/// The state after executing `ins`, with `rnd` as the random byte of `Cxkk`, or
/// the fault it raises.
pub open spec fn run(s: ChipState, ins: Instruction, rnd: u8) -> Result<ChipState, ChipError> {
    let next = advance(s.pc, 2);
    match ins {
        Instruction::Cls => Ok(ChipState { screen: blank(), pc: next, ..s }),
        Instruction::Ret => if s.sp == 0 {
            Err(ChipError::StackUnderflow)
        } else {
            Ok(ChipState { sp: (s.sp - 1) as u8, pc: s.stack[s.sp - 1], ..s })
        },
        Instruction::Jp(a) => Ok(ChipState { pc: a, ..s }),
        Instruction::Call(a) => if s.sp >= STACK_SIZE {
            Err(ChipError::StackOverflow)
        } else {
            Ok(
                ChipState {
                    stack: s.stack.update(s.sp as int, next),
                    sp: (s.sp + 1) as u8,
                    pc: a,
                    ..s
                },
            )
        },
        Instruction::SeByte(x, kk) => Ok(ChipState { pc: skip(s.pc, s.v[x as int] == kk), ..s }),
        Instruction::SneByte(x, kk) => Ok(ChipState { pc: skip(s.pc, s.v[x as int] != kk), ..s }),
        Instruction::SeReg(x, y) => Ok(
            ChipState { pc: skip(s.pc, s.v[x as int] == s.v[y as int]), ..s },
        ),
        Instruction::SneReg(x, y) => Ok(
            ChipState { pc: skip(s.pc, s.v[x as int] != s.v[y as int]), ..s },
        ),
        Instruction::LdByte(x, kk) => Ok(ChipState { v: s.v.update(x as int, kk), pc: next, ..s }),
        Instruction::AddByte(x, kk) => Ok(
            ChipState { v: s.v.update(x as int, wrap8(s.v[x as int] + kk)), pc: next, ..s },
        ),
        Instruction::LdReg(x, y) => Ok(
            ChipState { v: s.v.update(x as int, s.v[y as int]), pc: next, ..s },
        ),
        Instruction::Or(x, y) => Ok(
            ChipState { v: s.v.update(x as int, s.v[x as int] | s.v[y as int]), pc: next, ..s },
        ),
        Instruction::And(x, y) => Ok(
            ChipState { v: s.v.update(x as int, s.v[x as int] & s.v[y as int]), pc: next, ..s },
        ),
        Instruction::Xor(x, y) => Ok(
            ChipState { v: s.v.update(x as int, s.v[x as int] ^ s.v[y as int]), pc: next, ..s },
        ),
        Instruction::AddReg(x, y) => {
            let sum = s.v[x as int] + s.v[y as int];
            Ok(
                ChipState {
                    v: s.v.update(x as int, wrap8(sum)).update(FLAG as int, flag(sum > 255)),
                    pc: next,
                    ..s
                },
            )
        },
        Instruction::Sub(x, y) => {
            let (a, b) = (s.v[x as int], s.v[y as int]);
            Ok(
                ChipState {
                    v: s.v.update(x as int, wrap8(a - b)).update(FLAG as int, flag(a >= b)),
                    pc: next,
                    ..s
                },
            )
        },
        Instruction::Subn(x, y) => {
            let (a, b) = (s.v[x as int], s.v[y as int]);
            Ok(
                ChipState {
                    v: s.v.update(x as int, wrap8(b - a)).update(FLAG as int, flag(b >= a)),
                    pc: next,
                    ..s
                },
            )
        },
        Instruction::Shr(x) => {
            let a = s.v[x as int];
            Ok(
                ChipState {
                    v: s.v.update(x as int, a / 2).update(FLAG as int, a % 2),
                    pc: next,
                    ..s
                },
            )
        },
        Instruction::Shl(x) => {
            let a = s.v[x as int];
            Ok(
                ChipState {
                    v: s.v.update(x as int, wrap8(a * 2)).update(FLAG as int, a / 128),
                    pc: next,
                    ..s
                },
            )
        },
        Instruction::LdI(a) => Ok(ChipState { i: a, pc: next, ..s }),
        Instruction::JpV0(a) => Ok(ChipState { pc: (a + s.v[0]) as u16, ..s }),
        Instruction::Rnd(x, kk) => Ok(ChipState { v: s.v.update(x as int, rnd & kk), pc: next, ..s }),
        Instruction::Drw(x, y, n) => if s.i + n > MEMORY_SIZE {
            Err(ChipError::MemoryOutOfBounds)
        } else {
            let (px, py) = (s.v[x as int], s.v[y as int]);
            let sprite = s.memory.subrange(s.i as int, s.i + n);
            Ok(
                ChipState {
                    screen: drawn(s.screen, px as int, py as int, sprite),
                    changes: Some(DisplayChange { x: px as usize, y: py as usize, n: n as usize }),
                    v: s.v.update(FLAG as int, flag(collision(s.screen, px as int, py as int, sprite))),
                    pc: next,
                    ..s
                },
            )
        },
        Instruction::Skp(x) => Ok(ChipState { pc: skip(s.pc, key_held(s.keys, s.v[x as int])), ..s }),
        Instruction::Sknp(x) => Ok(
            ChipState { pc: skip(s.pc, !key_held(s.keys, s.v[x as int])), ..s },
        ),
        Instruction::LdVxDt(x) => Ok(ChipState { v: s.v.update(x as int, s.dt), pc: next, ..s }),
        Instruction::LdVxK(x) => match lowest_pressed(s.keys) {
            Some(k) => Ok(ChipState { v: s.v.update(x as int, k), pc: next, ..s }),
            None => Ok(s),
        },
        Instruction::LdDtVx(x) => Ok(ChipState { dt: s.v[x as int], pc: next, ..s }),
        Instruction::LdStVx(x) => Ok(ChipState { st: s.v[x as int], pc: next, ..s }),
        Instruction::AddI(x) => Ok(
            ChipState { i: ((s.i + s.v[x as int]) % 0x10000) as u16, pc: next, ..s },
        ),
        Instruction::LdF(x) => Ok(
            ChipState { i: (s.v[x as int] * GLYPH_HEIGHT) as u16, pc: next, ..s },
        ),
        Instruction::LdB(x) => if s.i + 3 > MEMORY_SIZE {
            Err(ChipError::MemoryOutOfBounds)
        } else {
            Ok(
                ChipState {
                    memory: overwritten(s.memory, s.i as int, bcd(s.v[x as int])),
                    pc: next,
                    ..s
                },
            )
        },
        Instruction::StoreRegs(x) => if s.i + x + 1 > MEMORY_SIZE {
            Err(ChipError::MemoryOutOfBounds)
        } else {
            Ok(
                ChipState {
                    memory: overwritten(s.memory, s.i as int, s.v.subrange(0, x + 1)),
                    pc: next,
                    ..s
                },
            )
        },
        Instruction::LoadRegs(x) => if s.i + x + 1 > MEMORY_SIZE {
            Err(ChipError::MemoryOutOfBounds)
        } else {
            Ok(
                ChipState {
                    v: overwritten(s.v, 0, s.memory.subrange(s.i as int, s.i + x + 1)),
                    pc: next,
                    ..s
                },
            )
        },
    }
}

/// The state after executing opcode `op`, or the fault it raises.
pub open spec fn step(s: ChipState, op: u16, rnd: u8) -> Result<ChipState, ChipError> {
    match decoded(op) {
        Some(ins) => run(s, ins, rnd),
        None => Err(ChipError::IllegalInstruction(op)),
    }
}

/// `post` and `r` are what `expected` describes; on a fault the state is kept.
pub open spec fn outcome(
    pre: ChipState,
    post: ChipState,
    r: Result<(), ChipError>,
    expected: Result<ChipState, ChipError>,
) -> bool {
    match expected {
        Ok(t) => r is Ok && post == t,
        Err(e) => r == Err::<(), ChipError>(e) && post == pre,
    }
}

/// Whether the instruction at `pc` lies inside memory.
pub open spec fn fetchable(s: ChipState) -> bool {
    s.pc + 1 < MEMORY_SIZE
}

/// The big-endian instruction word at `pc`.
pub open spec fn fetched(s: ChipState) -> u16 {
    (s.memory[s.pc as int] * 256 + s.memory[s.pc + 1]) as u16
}

/// `s` with the damage descriptor cleared.
pub open spec fn settled(s: ChipState) -> ChipState {
    ChipState { changes: None, ..s }
}

/// The power-on state, with `memory` as its memory and `changes` as its damage
/// descriptor.
pub open spec fn power_on(memory: Seq<u8>, changes: Option<DisplayChange>) -> ChipState {
    ChipState {
        v: Seq::new(REGISTER_COUNT as nat, |r: int| 0u8),
        i: 0,
        pc: PROGRAM_START as u16,
        sp: 0,
        stack: Seq::new(STACK_SIZE as nat, |r: int| 0u16),
        dt: 0,
        st: 0,
        memory,
        screen: blank(),
        changes,
        keys: released(),
    }
}

/// Largest program that fits between the load address and the end of memory.
pub const MAX_PROGRAM_SIZE: usize = MEMORY_SIZE - PROGRAM_START;

/// Which executor handles `ins`.
spec fn group(ins: Instruction) -> int {
    match ins {
        Instruction::Cls
        | Instruction::Ret
        | Instruction::Jp(..)
        | Instruction::Call(..)
        | Instruction::SeByte(..)
        | Instruction::SneByte(..)
        | Instruction::SeReg(..)
        | Instruction::SneReg(..)
        | Instruction::JpV0(..)
        | Instruction::Skp(..)
        | Instruction::Sknp(..) => 0,
        Instruction::LdByte(..)
        | Instruction::AddByte(..)
        | Instruction::LdReg(..)
        | Instruction::Or(..)
        | Instruction::And(..)
        | Instruction::Xor(..) => 1,
        Instruction::AddReg(..)
        | Instruction::Sub(..)
        | Instruction::Subn(..)
        | Instruction::Shr(..)
        | Instruction::Shl(..)
        | Instruction::Rnd(..) => 2,
        Instruction::LdI(..)
        | Instruction::Drw(..)
        | Instruction::LdVxDt(..)
        | Instruction::LdVxK(..)
        | Instruction::LdDtVx(..)
        | Instruction::LdStVx(..) => 3,
        _ => 4,
    }
}

/// Relies on rand::random: a byte from the thread-local generator. Any value may
/// come back.
#[verifier::external_body]
fn random_byte() -> (r: u8) {
    rand::random::<u8>()
}

/// The CHIP-8 interpreter: registers, stack, timers and memory, with the display
/// and keypad it drives.
#[derive(Debug)]
pub struct Chip {
    v: [u8; REGISTER_COUNT],
    i: u16,
    dt: u8,
    st: u8,
    pc: u16,
    sp: u8,
    stack: [u16; STACK_SIZE],
    memory: Memory,
    pub display: Display,
    pub keyboard: Keyboard,
}

impl View for Chip {
    type V = ChipState;

    closed spec fn view(&self) -> ChipState {
        ChipState {
            v: self.v@,
            i: self.i,
            pc: self.pc,
            sp: self.sp,
            stack: self.stack@,
            dt: self.dt,
            st: self.st,
            memory: self.memory@,
            screen: self.display.pixels(),
            changes: self.display.changes(),
            keys: self.keyboard@,
        }
    }
}

impl Chip {
    /// Well-formedness: the view is well formed.
    pub open spec fn wf(&self) -> bool {
        self@.wf()
    }

    /// A machine in its power-on state with `program` loaded at `PROGRAM_START`.
    pub fn new(program: &[u8]) -> (r: Chip)
        requires
            program@.len() <= MAX_PROGRAM_SIZE,
        ensures
            r.wf(),
            r@ == power_on(overwritten(zeroed(), PROGRAM_START as int, program@), None),
    {
        let mut chip = Chip::default();
        chip.load(program);
        chip
    }

    /// Returns to the power-on state, zeroing memory and releasing every key.
    /// The damage descriptor is kept.
    pub fn reset(&mut self)
        requires
            old(self).wf(),
        ensures
            final(self).wf(),
            final(self)@ == power_on(zeroed(), old(self)@.changes),
    {
        self.v = [0u8; REGISTER_COUNT];
        self.i = 0;
        self.dt = 0;
        self.st = 0;
        self.pc = PROGRAM_START as u16;
        self.sp = 0;
        self.stack = [0u16; STACK_SIZE];
        self.memory.clear();
        self.keyboard.reset();
        self.display.clear();
        assert(self.v@ =~= power_on(zeroed(), None).v);
        assert(self.stack@ =~= power_on(zeroed(), None).stack);
    }

    /// Copies `program` into memory at `PROGRAM_START`; nothing else changes.
    pub fn load(&mut self, program: &[u8])
        requires
            old(self).wf(),
            program@.len() <= MAX_PROGRAM_SIZE,
        ensures
            final(self).wf(),
            final(self)@ == (ChipState {
                memory: overwritten(old(self)@.memory, PROGRAM_START as int, program@),
                ..old(self)@
            }),
    {
        let start = PROGRAM_START;
        let end = start + program.len();
        self.memory.write_slice(start, end, program);
    }

    /// Clears the damage descriptor, then fetches and executes one instruction.
    /// When `pc` leaves no room for an instruction, nothing changes and
    /// `MemoryOutOfBounds` is returned.
    pub fn tick(&mut self) -> (r: Result<(), ChipError>)
        requires
            old(self).wf(),
        ensures
            final(self).wf(),
            !fetchable(old(self)@) ==> r == Err::<(), ChipError>(ChipError::MemoryOutOfBounds)
                && final(self)@ == old(self)@,
            fetchable(old(self)@) ==> exists|b: u8|
                outcome(
                    settled(old(self)@),
                    final(self)@,
                    r,
                    step(settled(old(self)@), fetched(old(self)@), b),
                ),
    {
        if self.pc >= (MEMORY_SIZE - 1) as u16 {
            return Err(ChipError::MemoryOutOfBounds);
        }
        let instruction = self.fetch();
        self.display.clear_status();
        self.execute(instruction)
    }

    /// Decrements both timers, stopping at zero.
    pub fn update_timers(&mut self)
        requires
            old(self).wf(),
        ensures
            final(self).wf(),
            final(self)@ == (ChipState {
                dt: if old(self)@.dt == 0 {
                    0u8
                } else {
                    (old(self)@.dt - 1) as u8
                },
                st: if old(self)@.st == 0 {
                    0u8
                } else {
                    (old(self)@.st - 1) as u8
                },
                ..old(self)@
            }),
    {
        self.dt = self.dt.saturating_sub(1);
        self.st = self.st.saturating_sub(1);
    }

    /// The big-endian instruction word at `pc`.
    pub fn fetch(&self) -> (r: u16)
        requires
            self.wf(),
            fetchable(self@),
        ensures
            r == fetched(self@),
    {
        let msb = self.memory.read(self.pc as usize) as u16;
        let lsb = self.memory.read(self.pc as usize + 1) as u16;
        assert((msb << 8u16) | lsb == msb * 256 + lsb) by (bit_vector)
            requires
                msb < 256,
                lsb < 256,
        ;
        (msb << 8u16) | lsb
    }

    /// Executes `opcode`; `Cxkk` draws its byte from the thread-local generator.
    pub fn execute(&mut self, opcode: u16) -> (r: Result<(), ChipError>)
        requires
            old(self).wf(),
        ensures
            final(self).wf(),
            exists|b: u8| outcome(old(self)@, final(self)@, r, step(old(self)@, opcode, b)),
    {
        let random = match Instruction::decode(opcode) {
            Some(Instruction::Rnd(_, _)) => random_byte(),
            _ => 0u8,
        };
        self.execute_with(opcode, random)
    }

    /// Executes `opcode`, with `random` as the byte that `Cxkk` masks.
    pub fn execute_with(&mut self, opcode: u16, random: u8) -> (r: Result<(), ChipError>)
        requires
            old(self).wf(),
        ensures
            final(self).wf(),
            outcome(old(self)@, final(self)@, r, step(old(self)@, opcode, random)),
    {
        match Instruction::decode(opcode) {
            Some(ins) => self.run_instruction(ins, random),
            None => Err(ChipError::IllegalInstruction(opcode)),
        }
    }

    /// Register `Vx`.
    pub fn register(&self, x: u8) -> (r: u8)
        requires
            x < REGISTER_COUNT,
        ensures
            r == self@.v[x as int],
    {
        self.v[x as usize]
    }

    /// The index register `I`.
    pub fn i(&self) -> (r: u16)
        ensures
            r == self@.i,
    {
        self.i
    }

    /// The program counter.
    pub fn pc(&self) -> (r: u16)
        ensures
            r == self@.pc,
    {
        self.pc
    }

    /// The stack pointer: the number of return addresses held.
    pub fn sp(&self) -> (r: u8)
        ensures
            r == self@.sp,
    {
        self.sp
    }

    /// The delay timer.
    pub fn dt(&self) -> (r: u8)
        ensures
            r == self@.dt,
    {
        self.dt
    }

    /// The sound timer.
    pub fn st(&self) -> (r: u8)
        ensures
            r == self@.st,
    {
        self.st
    }

    /// The memory.
    pub fn memory(&self) -> (r: &Memory)
        ensures
            r@ == self@.memory,
    {
        &self.memory
    }
}

impl Default for Chip {
    /// A machine in its power-on state with zeroed memory.
    fn default() -> (r: Chip)
        ensures
            r.wf(),
            r@ == power_on(zeroed(), None),
    {
        let r = Chip {
            v: [0u8; REGISTER_COUNT],
            i: 0,
            dt: 0,
            st: 0,
            pc: PROGRAM_START as u16,
            sp: 0,
            stack: [0u16; STACK_SIZE],
            memory: Memory::new(),
            display: Display::new(),
            keyboard: Keyboard::new(),
        };
        assert(r.v@ =~= power_on(zeroed(), None).v);
        assert(r.stack@ =~= power_on(zeroed(), None).stack);
        r
    }
}

impl Chip {
    fn write_register(&mut self, x: u8, value: u8)
        requires
            old(self).wf(),
            x < REGISTER_COUNT,
        ensures
            final(self).wf(),
            final(self)@ == (ChipState { v: old(self)@.v.update(x as int, value), ..old(self)@ }),
    {
        self.v[x as usize] = value;
        assert(self.v@ =~= old(self)@.v.update(x as int, value));
    }

    fn set_flag(&mut self, cond: bool)
        requires
            old(self).wf(),
        ensures
            final(self).wf(),
            final(self)@ == (ChipState {
                v: old(self)@.v.update(FLAG as int, flag(cond)),
                ..old(self)@
            }),
    {
        self.write_register(FLAG, if cond {
            1
        } else {
            0
        });
    }

    fn increment(&mut self)
        requires
            old(self).wf(),
        ensures
            final(self).wf(),
            final(self)@ == (ChipState { pc: advance(old(self)@.pc, 2), ..old(self)@ }),
    {
        self.pc = self.pc.wrapping_add(2);
    }

    fn skip_if(&mut self, cond: bool)
        requires
            old(self).wf(),
        ensures
            final(self).wf(),
            final(self)@ == (ChipState { pc: skip(old(self)@.pc, cond), ..old(self)@ }),
    {
        self.pc = self.pc.wrapping_add(if cond {
            4
        } else {
            2
        });
    }

    fn jump(&mut self, addr: u16)
        requires
            old(self).wf(),
        ensures
            final(self).wf(),
            final(self)@ == (ChipState { pc: addr, ..old(self)@ }),
    {
        self.pc = addr;
    }

    fn set_index(&mut self, addr: u16)
        requires
            old(self).wf(),
        ensures
            final(self).wf(),
            final(self)@ == (ChipState { i: addr, pc: advance(old(self)@.pc, 2), ..old(self)@ }),
    {
        self.i = addr;
        self.increment();
    }

    fn cls(&mut self)
        requires
            old(self).wf(),
        ensures
            final(self).wf(),
            final(self)@ == (ChipState { screen: blank(), pc: advance(old(self)@.pc, 2), ..old(self)@ }),
    {
        self.display.clear();
        self.increment();
    }

    fn ret(&mut self) -> (r: Result<(), ChipError>)
        requires
            old(self).wf(),
        ensures
            final(self).wf(),
            outcome(old(self)@, final(self)@, r, run(old(self)@, Instruction::Ret, 0)),
    {
        if self.sp == 0 {
            return Err(ChipError::StackUnderflow);
        }
        self.sp = self.sp - 1;
        self.pc = self.stack[self.sp as usize];
        Ok(())
    }

    fn call_addr(&mut self, addr: u16) -> (r: Result<(), ChipError>)
        requires
            old(self).wf(),
        ensures
            final(self).wf(),
            outcome(old(self)@, final(self)@, r, run(old(self)@, Instruction::Call(addr), 0)),
    {
        if self.sp as usize >= STACK_SIZE {
            return Err(ChipError::StackOverflow);
        }
        let ret = self.pc.wrapping_add(2);
        self.stack[self.sp as usize] = ret;
        self.sp = self.sp + 1;
        self.pc = addr;
        assert(self.stack@ =~= old(self)@.stack.update(old(self)@.sp as int, ret));
        Ok(())
    }

    fn key_held(&self, x: u8) -> (r: bool)
        requires
            self.wf(),
            x < REGISTER_COUNT,
        ensures
            r == key_held(self@.keys, self@.v[x as int]),
    {
        let key = self.v[x as usize];
        (key as usize) < KEY_COUNT && self.keyboard.is_pressed(key)
    }

    fn ld_dt_vx(&mut self, x: u8)
        requires
            old(self).wf(),
            x < REGISTER_COUNT,
        ensures
            final(self).wf(),
            final(self)@ == (ChipState { dt: old(self)@.v[x as int], pc: advance(old(self)@.pc, 2), ..old(self)@ }),
    {
        self.dt = self.v[x as usize];
        self.increment();
    }

    fn ld_st_vx(&mut self, x: u8)
        requires
            old(self).wf(),
            x < REGISTER_COUNT,
        ensures
            final(self).wf(),
            final(self)@ == (ChipState { st: old(self)@.v[x as int], pc: advance(old(self)@.pc, 2), ..old(self)@ }),
    {
        self.st = self.v[x as usize];
        self.increment();
    }

    fn ld_vx_b(&mut self, x: u8, kk: u8)
        requires
            old(self).wf(),
            x < REGISTER_COUNT,
        ensures
            final(self).wf(),
            run(old(self)@, Instruction::LdByte(x, kk), 0) == Ok::<ChipState, ChipError>(final(self)@),
    {
        self.write_register(x, kk);
        self.increment();
    }

    fn add_vx_b(&mut self, x: u8, kk: u8)
        requires
            old(self).wf(),
            x < REGISTER_COUNT,
        ensures
            final(self).wf(),
            run(old(self)@, Instruction::AddByte(x, kk), 0) == Ok::<ChipState, ChipError>(final(self)@),
    {
        let value = self.v[x as usize].wrapping_add(kk);
        self.write_register(x, value);
        self.increment();
    }

    fn ld_vx_vy(&mut self, x: u8, y: u8)
        requires
            old(self).wf(),
            x < REGISTER_COUNT,
            y < REGISTER_COUNT,
        ensures
            final(self).wf(),
            run(old(self)@, Instruction::LdReg(x, y), 0) == Ok::<ChipState, ChipError>(final(self)@),
    {
        let value = self.v[y as usize];
        self.write_register(x, value);
        self.increment();
    }

    fn or_vx_vy(&mut self, x: u8, y: u8)
        requires
            old(self).wf(),
            x < REGISTER_COUNT,
            y < REGISTER_COUNT,
        ensures
            final(self).wf(),
            run(old(self)@, Instruction::Or(x, y), 0) == Ok::<ChipState, ChipError>(final(self)@),
    {
        let value = self.v[x as usize] | self.v[y as usize];
        self.write_register(x, value);
        self.increment();
    }

    fn and_vx_vy(&mut self, x: u8, y: u8)
        requires
            old(self).wf(),
            x < REGISTER_COUNT,
            y < REGISTER_COUNT,
        ensures
            final(self).wf(),
            run(old(self)@, Instruction::And(x, y), 0) == Ok::<ChipState, ChipError>(final(self)@),
    {
        let value = self.v[x as usize] & self.v[y as usize];
        self.write_register(x, value);
        self.increment();
    }

    fn xor_vx_vy(&mut self, x: u8, y: u8)
        requires
            old(self).wf(),
            x < REGISTER_COUNT,
            y < REGISTER_COUNT,
        ensures
            final(self).wf(),
            run(old(self)@, Instruction::Xor(x, y), 0) == Ok::<ChipState, ChipError>(final(self)@),
    {
        let value = self.v[x as usize] ^ self.v[y as usize];
        self.write_register(x, value);
        self.increment();
    }

    fn add_i_vx(&mut self, x: u8)
        requires
            old(self).wf(),
            x < REGISTER_COUNT,
        ensures
            final(self).wf(),
            run(old(self)@, Instruction::AddI(x), 0) == Ok::<ChipState, ChipError>(final(self)@),
    {
        let addr = self.i.wrapping_add(self.v[x as usize] as u16);
        self.set_index(addr);
    }

    fn ld_f_vx(&mut self, x: u8)
        requires
            old(self).wf(),
            x < REGISTER_COUNT,
        ensures
            final(self).wf(),
            run(old(self)@, Instruction::LdF(x), 0) == Ok::<ChipState, ChipError>(final(self)@),
    {
        let addr = self.v[x as usize] as u16 * GLYPH_HEIGHT;
        self.set_index(addr);
    }

    fn ld_vx_k(&mut self, x: u8)
        requires
            old(self).wf(),
            x < REGISTER_COUNT,
        ensures
            final(self).wf(),
            run(old(self)@, Instruction::LdVxK(x), 0) == Ok::<ChipState, ChipError>(final(self)@),
    {
        if let Some(key) = self.keyboard.get_pressed() {
            self.write_register(x, key);
            self.increment();
        }
    }

    fn ld_b_vx(&mut self, x: u8) -> (r: Result<(), ChipError>)
        requires
            old(self).wf(),
            x < REGISTER_COUNT,
        ensures
            final(self).wf(),
            outcome(old(self)@, final(self)@, r, run(old(self)@, Instruction::LdB(x), 0)),
    {
        let i = self.i as usize;
        if i + 3 > MEMORY_SIZE {
            return Err(ChipError::MemoryOutOfBounds);
        }
        let value = self.v[x as usize];
        self.memory.write(i, value / 100);
        self.memory.write(i + 1, (value / 10) % 10);
        self.memory.write(i + 2, value % 10);
        assert(self.memory@ =~= overwritten(old(self)@.memory, i as int, bcd(value)));
        self.increment();
        Ok(())
    }

    fn ld_i_vx(&mut self, x: u8) -> (r: Result<(), ChipError>)
        requires
            old(self).wf(),
            x < REGISTER_COUNT,
        ensures
            final(self).wf(),
            outcome(old(self)@, final(self)@, r, run(old(self)@, Instruction::StoreRegs(x), 0)),
    {
        let count = x as usize + 1;
        let i = self.i as usize;
        if i + count > MEMORY_SIZE {
            return Err(ChipError::MemoryOutOfBounds);
        }
        let ghost regs = self.v@.subrange(0, count as int);
        let mut k: usize = 0;
        while k < count
            invariant
                0 <= k <= count <= REGISTER_COUNT,
                i + count <= MEMORY_SIZE,
                i == old(self).i,
                self.wf(),
                regs == self.v@.subrange(0, count as int),
                self@ == (ChipState { memory: self@.memory, ..old(self)@ }),
                self.memory@ == overwritten(old(self)@.memory, i as int, regs.subrange(0, k as int)),
            decreases count - k,
        {
            let value = self.v[k];
            self.memory.write(i + k, value);
            k = k + 1;
            assert(self.memory@ =~= overwritten(old(self)@.memory, i as int, regs.subrange(0, k as int)));
        }
        assert(regs.subrange(0, count as int) =~= regs);
        self.increment();
        Ok(())
    }

    fn ld_vx_i(&mut self, x: u8) -> (r: Result<(), ChipError>)
        requires
            old(self).wf(),
            x < REGISTER_COUNT,
        ensures
            final(self).wf(),
            outcome(old(self)@, final(self)@, r, run(old(self)@, Instruction::LoadRegs(x), 0)),
    {
        let count = x as usize + 1;
        let i = self.i as usize;
        if i + count > MEMORY_SIZE {
            return Err(ChipError::MemoryOutOfBounds);
        }
        let ghost bytes = self.memory@.subrange(i as int, i + count);
        let mut k: usize = 0;
        while k < count
            invariant
                0 <= k <= count <= REGISTER_COUNT,
                i + count <= MEMORY_SIZE,
                i == old(self).i,
                self.wf(),
                bytes == self.memory@.subrange(i as int, i + count),
                self@ == (ChipState { v: self@.v, ..old(self)@ }),
                self.v@ == overwritten(old(self)@.v, 0, bytes.subrange(0, k as int)),
            decreases count - k,
        {
            let value = self.memory.read(i + k);
            self.v[k] = value;
            k = k + 1;
            assert(self.v@ =~= overwritten(old(self)@.v, 0, bytes.subrange(0, k as int)));
        }
        assert(bytes.subrange(0, count as int) =~= bytes);
        self.increment();
        Ok(())
    }

    fn add_vx_vy(&mut self, x: u8, y: u8)
        requires
            old(self).wf(),
            x < REGISTER_COUNT,
            y < REGISTER_COUNT,
        ensures
            final(self).wf(),
            run(old(self)@, Instruction::AddReg(x, y), 0) == Ok::<ChipState, ChipError>(final(self)@),
    {
        let sum = self.v[x as usize] as u16 + self.v[y as usize] as u16;
        self.write_register(x, (sum % 256) as u8);
        self.set_flag(sum > 255);
        self.increment();
    }

    fn sub_vx_vy(&mut self, x: u8, y: u8)
        requires
            old(self).wf(),
            x < REGISTER_COUNT,
            y < REGISTER_COUNT,
        ensures
            final(self).wf(),
            run(old(self)@, Instruction::Sub(x, y), 0) == Ok::<ChipState, ChipError>(final(self)@),
    {
        let (a, b) = (self.v[x as usize], self.v[y as usize]);
        self.write_register(x, a.wrapping_sub(b));
        self.set_flag(a >= b);
        self.increment();
    }

    fn sub_vy_vx(&mut self, x: u8, y: u8)
        requires
            old(self).wf(),
            x < REGISTER_COUNT,
            y < REGISTER_COUNT,
        ensures
            final(self).wf(),
            run(old(self)@, Instruction::Subn(x, y), 0) == Ok::<ChipState, ChipError>(final(self)@),
    {
        let (a, b) = (self.v[x as usize], self.v[y as usize]);
        self.write_register(x, b.wrapping_sub(a));
        self.set_flag(b >= a);
        self.increment();
    }

    fn shr_vx(&mut self, x: u8)
        requires
            old(self).wf(),
            x < REGISTER_COUNT,
        ensures
            final(self).wf(),
            run(old(self)@, Instruction::Shr(x), 0) == Ok::<ChipState, ChipError>(final(self)@),
    {
        let a = self.v[x as usize];
        self.write_register(x, a / 2);
        self.write_register(FLAG, a % 2);
        self.increment();
    }

    fn shl_vx(&mut self, x: u8)
        requires
            old(self).wf(),
            x < REGISTER_COUNT,
        ensures
            final(self).wf(),
            run(old(self)@, Instruction::Shl(x), 0) == Ok::<ChipState, ChipError>(final(self)@),
    {
        let a = self.v[x as usize];
        self.write_register(x, ((a as u16 * 2) % 256) as u8);
        self.write_register(FLAG, a / 128);
        self.increment();
    }

    fn drw_x_y_n(&mut self, x: u8, y: u8, n: u8) -> (r: Result<(), ChipError>)
        requires
            old(self).wf(),
            x < REGISTER_COUNT,
            y < REGISTER_COUNT,
        ensures
            final(self).wf(),
            outcome(old(self)@, final(self)@, r, run(old(self)@, Instruction::Drw(x, y, n), 0)),
    {
        let i = self.i as usize;
        let end = i + n as usize;
        if end > MEMORY_SIZE {
            return Err(ChipError::MemoryOutOfBounds);
        }
        let px = self.v[x as usize] as usize;
        let py = self.v[y as usize] as usize;
        let sprite = self.memory.read_slice(i, end);
        let collided = self.display.load_sprite(px, py, sprite.as_slice());
        self.set_flag(collided);
        self.increment();
        Ok(())
    }

    /// Executes an instruction that clears the screen or moves `pc` other than by 2.
    fn run_control(&mut self, ins: Instruction, random: u8) -> (r: Result<(), ChipError>)
        requires
            old(self).wf(),
            ins.wf(),
            group(ins) == 0,
        ensures
            final(self).wf(),
            outcome(old(self)@, final(self)@, r, run(old(self)@, ins, random)),
    {
        match ins {
            Instruction::Cls => self.cls(),
            Instruction::Ret => {
                return self.ret();
            },
            Instruction::Jp(addr) => self.jump(addr),
            Instruction::Call(addr) => {
                return self.call_addr(addr);
            },
            Instruction::SeByte(x, kk) => {
                let c = self.v[x as usize] == kk;
                self.skip_if(c);
            },
            Instruction::SneByte(x, kk) => {
                let c = self.v[x as usize] != kk;
                self.skip_if(c);
            },
            Instruction::SeReg(x, y) => {
                let c = self.v[x as usize] == self.v[y as usize];
                self.skip_if(c);
            },
            Instruction::SneReg(x, y) => {
                let c = self.v[x as usize] != self.v[y as usize];
                self.skip_if(c);
            },
            Instruction::JpV0(addr) => {
                let target = addr + self.v[0] as u16;
                self.jump(target);
            },
            Instruction::Skp(x) => {
                let held = self.key_held(x);
                self.skip_if(held);
            },
            Instruction::Sknp(x) => {
                let held = self.key_held(x);
                self.skip_if(!held);
            },
            _ => {},
        }
        Ok(())
    }

    /// Executes a register load or a bitwise operation.
    fn run_transfer(&mut self, ins: Instruction, random: u8) -> (r: Result<(), ChipError>)
        requires
            old(self).wf(),
            ins.wf(),
            group(ins) == 1,
        ensures
            final(self).wf(),
            outcome(old(self)@, final(self)@, r, run(old(self)@, ins, random)),
    {
        match ins {
            Instruction::LdByte(x, kk) => self.ld_vx_b(x, kk),
            Instruction::AddByte(x, kk) => self.add_vx_b(x, kk),
            Instruction::LdReg(x, y) => self.ld_vx_vy(x, y),
            Instruction::Or(x, y) => self.or_vx_vy(x, y),
            Instruction::And(x, y) => self.and_vx_vy(x, y),
            Instruction::Xor(x, y) => self.xor_vx_vy(x, y),
            _ => {},
        }
        Ok(())
    }

    /// Executes an instruction that sets `VF` from its result, or `Cxkk`.
    fn run_arith(&mut self, ins: Instruction, random: u8) -> (r: Result<(), ChipError>)
        requires
            old(self).wf(),
            ins.wf(),
            group(ins) == 2,
        ensures
            final(self).wf(),
            outcome(old(self)@, final(self)@, r, run(old(self)@, ins, random)),
    {
        match ins {
            Instruction::AddReg(x, y) => self.add_vx_vy(x, y),
            Instruction::Sub(x, y) => self.sub_vx_vy(x, y),
            Instruction::Subn(x, y) => self.sub_vy_vx(x, y),
            Instruction::Shr(x) => self.shr_vx(x),
            Instruction::Shl(x) => self.shl_vx(x),
            Instruction::Rnd(x, kk) => {
                self.write_register(x, random & kk);
                self.increment();
            },
            _ => {},
        }
        Ok(())
    }

    /// Executes an instruction on `I`, the timers, the display or the keypad.
    fn run_devices(&mut self, ins: Instruction, random: u8) -> (r: Result<(), ChipError>)
        requires
            old(self).wf(),
            ins.wf(),
            group(ins) == 3,
        ensures
            final(self).wf(),
            outcome(old(self)@, final(self)@, r, run(old(self)@, ins, random)),
    {
        match ins {
            Instruction::LdI(addr) => self.set_index(addr),
            Instruction::Drw(x, y, n) => {
                return self.drw_x_y_n(x, y, n);
            },
            Instruction::LdVxDt(x) => {
                let value = self.dt;
                self.write_register(x, value);
                self.increment();
            },
            Instruction::LdVxK(x) => self.ld_vx_k(x),
            Instruction::LdDtVx(x) => self.ld_dt_vx(x),
            Instruction::LdStVx(x) => self.ld_st_vx(x),
            _ => {},
        }
        Ok(())
    }

    /// Executes an instruction that computes `I` or moves bytes through memory.
    fn run_memory(&mut self, ins: Instruction, random: u8) -> (r: Result<(), ChipError>)
        requires
            old(self).wf(),
            ins.wf(),
            group(ins) == 4,
        ensures
            final(self).wf(),
            outcome(old(self)@, final(self)@, r, run(old(self)@, ins, random)),
    {
        match ins {
            Instruction::AddI(x) => self.add_i_vx(x),
            Instruction::LdF(x) => self.ld_f_vx(x),
            Instruction::LdB(x) => {
                return self.ld_b_vx(x);
            },
            Instruction::StoreRegs(x) => {
                return self.ld_i_vx(x);
            },
            Instruction::LoadRegs(x) => {
                return self.ld_vx_i(x);
            },
            _ => {},
        }
        Ok(())
    }

    fn run_instruction(&mut self, ins: Instruction, random: u8) -> (r: Result<(), ChipError>)
        requires
            old(self).wf(),
            ins.wf(),
        ensures
            final(self).wf(),
            outcome(old(self)@, final(self)@, r, run(old(self)@, ins, random)),
    {
        match ins {
            Instruction::Cls
            | Instruction::Ret
            | Instruction::Jp(..)
            | Instruction::Call(..)
            | Instruction::SeByte(..)
            | Instruction::SneByte(..)
            | Instruction::SeReg(..)
            | Instruction::SneReg(..)
            | Instruction::JpV0(..)
            | Instruction::Skp(..)
            | Instruction::Sknp(..) => self.run_control(ins, random),
            Instruction::LdByte(..)
            | Instruction::AddByte(..)
            | Instruction::LdReg(..)
            | Instruction::Or(..)
            | Instruction::And(..)
            | Instruction::Xor(..) => self.run_transfer(ins, random),
            Instruction::AddReg(..)
            | Instruction::Sub(..)
            | Instruction::Subn(..)
            | Instruction::Shr(..)
            | Instruction::Shl(..)
            | Instruction::Rnd(..) => self.run_arith(ins, random),
            Instruction::LdI(..)
            | Instruction::Drw(..)
            | Instruction::LdVxDt(..)
            | Instruction::LdVxK(..)
            | Instruction::LdDtVx(..)
            | Instruction::LdStVx(..) => self.run_devices(ins, random),
            Instruction::AddI(..)
            | Instruction::LdF(..)
            | Instruction::LdB(..)
            | Instruction::StoreRegs(..)
            | Instruction::LoadRegs(..) => self.run_memory(ins, random),
        }
    }
}

} // verus!
