//! The mathematical model of the machine: its state as plain sequences and
//! integers, and the effect of every operation as a function on that state.
//! The contracts of the interpreter are stated over this model.

use vstd::prelude::*;
use crate::alu::{
    carry, decimal_digits, difference, doubled, exceeds, glyph_address, halved, high_bit, low_bit,
    sum,
};
use crate::display::{
    blank_screen, collides, covered, decayed_screen, drawn, lemma_drawn_wf, Pixel, CELLS,
};
use crate::mmu::{blank_memory, program_image, with_font, wrap_address, MEMORY_SIZE};
use crate::opcode::{decoded, lemma_decoded_wf, Instruction};
use crate::timer::Timers;

verus! {

/// Address of the first instruction of a program.
pub const ENTRY_POINT: u16 = 0x200;

/// Address from which the stack slots are counted.
pub const STACK_BASE: u16 = 0x100;

/// Number of keys of the keypad.
pub const KEYS: u8 = 16;

/// Why a step could not be completed.
#[derive(Clone, Copy, Debug, PartialEq, Eq, Structural)]
pub enum Fault {
    /// The word fetched encodes no operation. The run cannot go on; the two
    /// bytes of the word are reported.
    UnknownOpcode { hi: u8, lo: u8 },
    /// A key instruction named a key that the keypad does not have.
    UnknownKey { key: u8 },
}

/// The state of the machine.
#[verifier::ext_equal]
pub struct Machine {
    /// The address space.
    pub memory: Seq<u8>,
    /// The general registers `V0` to `VF`.
    pub v: Seq<u8>,
    /// The index register.
    pub i: u16,
    /// The program counter.
    pub pc: u16,
    /// The stack pointer.
    pub sp: u8,
    /// The display, row by row.
    pub screen: Seq<Pixel>,
    /// The timers.
    pub timers: Timers,
}

/// Whether key `key` is down in the keypad state `keys`, which holds one
/// entry per key.
pub open spec fn key_down(keys: [bool; 16], key: u8) -> bool {
    keys[key as int]
}

/// Address of the stack slot that the stack pointer `sp` names.
pub open spec fn stack_slot(sp: u8) -> int {
    STACK_BASE + 2 * sp
}

/// `value` reduced to sixteen bits.
pub open spec fn wrap16(value: int) -> u16 {
    (value % 0x1_0000) as u16
}

/// `value` reduced to eight bits.
pub open spec fn wrap8(value: int) -> u8 {
    (value % 0x100) as u8
}

impl Machine {
    /// The sizes of the state's parts, and the range of every phase.
    pub open spec fn wf(self) -> bool {
        &&& self.memory.len() == MEMORY_SIZE
        &&& self.v.len() == 16
        &&& self.screen.len() == CELLS
        &&& forall|k: int| 0 <= k < CELLS ==> (#[trigger] self.screen[k]).wf()
    }

    /// The machine as it is created: memory blank but for the font table,
    /// everything else as after a reset.
    pub open spec fn power_on() -> Machine {
        Machine {
            memory: with_font(blank_memory()),
            v: Seq::new(16, |k: int| 0u8),
            i: 0,
            pc: ENTRY_POINT,
            sp: 0,
            screen: blank_screen(),
            timers: Timers::stopped(),
        }
    }

    /// The machine after a reset: registers, stack pointer, timers and display
    /// cleared, the program counter at the entry point, the font table written
    /// anew. The rest of memory, and so a program loaded earlier, stays.
    pub open spec fn reset(self) -> Machine {
        Machine { memory: with_font(self.memory), ..Machine::power_on() }
    }

    /// The machine after a program image has replaced its memory.
    pub open spec fn loaded(self, rom: Seq<u8>) -> Machine {
        Machine { memory: program_image(rom), ..self }
    }

    /// The byte at `address`, reduced by the bus.
    pub open spec fn read(self, address: int) -> u8 {
        self.memory[wrap_address(address)]
    }

    /// The machine after `value` has been written at `address`, reduced by
    /// the bus.
    pub open spec fn written(self, address: int, value: u8) -> Machine {
        Machine { memory: self.memory.update(wrap_address(address), value), ..self }
    }

    /// The machine after `value` has been pushed: the stack pointer moves on
    /// by one, wrapping at eight bits, and the value is stored in the slot it
    /// then names, high byte first.
    pub open spec fn pushed(self, value: u16) -> Machine {
        let sp = wrap8(self.sp + 1);
        let slot = stack_slot(sp);
        Machine { sp, ..self.written(slot, (value / 256) as u8).written(slot + 1, (value % 256) as u8) }
    }

    /// The value on top of the stack: the two bytes of the slot that the
    /// stack pointer names, high byte first.
    pub open spec fn top(self) -> u16 {
        let slot = stack_slot(self.sp);
        (self.read(slot) * 256 + self.read(slot + 1)) as u16
    }

    /// The machine after a pop: the stack pointer moves back by one, wrapping
    /// at eight bits.
    pub open spec fn popped(self) -> Machine {
        Machine { sp: wrap8(self.sp - 1), ..self }
    }

    /// The word at the program counter, high byte first.
    pub open spec fn next_word(self) -> (u8, u8) {
        (self.read(self.pc as int), self.read(self.pc + 1))
    }

    /// The operation that the word at the program counter encodes, if it
    /// encodes one.
    pub open spec fn next_instruction(self) -> Option<Instruction> {
        decoded(self.next_word().0, self.next_word().1)
    }

    /// The machine with the program counter moved on by `bytes`, wrapping at
    /// sixteen bits.
    pub open spec fn advanced(self, bytes: int) -> Machine {
        Machine { pc: wrap16(self.pc + bytes), ..self }
    }

    /// The machine after a conditional skip: the program counter moves past
    /// one instruction if `condition` holds.
    pub open spec fn skipped_if(self, condition: bool) -> Machine {
        if condition {
            self.advanced(2)
        } else {
            self
        }
    }

    /// The machine with register `x` set to `value`.
    pub open spec fn with_register(self, x: u8, value: u8) -> Machine {
        Machine { v: self.v.update(x as int, value), ..self }
    }

    /// The `rows` bytes of memory that start at the index register.
    pub open spec fn sprite(self, rows: u8) -> Seq<u8> {
        Seq::new(rows as nat, |r: int| self.read(self.i + r))
    }

    /// The machine after the sprite of `rows` rows at the index register has
    /// been drawn at the position held in registers `x` and `y`. Register `F`
    /// is 1 if a lit pixel was put out and 0 if none was.
    pub open spec fn drew(self, x: u8, y: u8, rows: u8) -> Machine {
        let sprite = self.sprite(rows);
        let column = self.v[x as int] as int;
        let row = self.v[y as int] as int;
        let flag: u8 = if collides(self.screen, sprite, column, row) {
            1
        } else {
            0
        };
        Machine {
            screen: drawn(self.screen, sprite, column, row),
            v: self.v.update(0xF, flag),
            ..self
        }
    }

    /// The machine after registers `V0` to `Vx` have been stored at the index
    /// register, one byte each, every address reduced by the bus.
    pub open spec fn registers_stored(self, x: u8) -> Machine {
        Machine {
            memory: Seq::new(
                self.memory.len(),
                |a: int|
                    if (a - self.i) % 4096 <= x {
                        self.v[(a - self.i) % 4096]
                    } else {
                        self.memory[a]
                    },
            ),
            ..self
        }
    }

    /// The machine after registers `V0` to `Vx` have been loaded from the
    /// index register, one byte each, every address reduced by the bus.
    pub open spec fn registers_loaded(self, x: u8) -> Machine {
        Machine {
            v: Seq::new(
                self.v.len(),
                |r: int|
                    if r <= x {
                        self.read(self.i + r)
                    } else {
                        self.v[r]
                    },
            ),
            ..self
        }
    }

    /// The machine after the decimal digits of register `x` have been stored
    /// at the index register, most significant first.
    pub open spec fn decimal_stored(self, x: u8) -> Machine {
        let digits = decimal_digits(self.v[x as int]);
        self.written(self.i as int, digits.0).written(self.i + 1, digits.1).written(
            self.i + 2,
            digits.2,
        )
    }

    /// The fault that `ins` ends in, if it ends in one: a key instruction for
    /// a key that the keypad does not have.
    pub open spec fn fault(self, ins: Instruction) -> Option<Fault> {
        match ins {
            Instruction::SkipKey { x } | Instruction::SkipNoKey { x } => {
                if self.v[x as int] >= KEYS {
                    Some(Fault::UnknownKey { key: self.v[x as int] })
                } else {
                    None
                }
            },
            _ => None,
        }
    }

    /// The machine after `ins` has been executed, with `random` for the
    /// random byte and `keys` for the state of the keypad. The program
    /// counter already points past the instruction.
    pub open spec fn executed(self, ins: Instruction, random: u8, keys: [bool; 16]) -> Machine {
        match ins {
            Instruction::ClearScreen | Instruction::ClearScreenHires => Machine {
                screen: blank_screen(),
                ..self
            },
            Instruction::Return => Machine { pc: self.top(), ..self.popped() },
            Instruction::Nop => self,
            Instruction::Jump { addr } => Machine { pc: addr, ..self },
            Instruction::Call { addr } => Machine { pc: addr, ..self.pushed(self.pc) },
            Instruction::SkipEqImm { x, byte } => self.skipped_if(self.v[x as int] == byte),
            Instruction::SkipNeImm { x, byte } => self.skipped_if(self.v[x as int] != byte),
            Instruction::SkipEqReg { x, y } => self.skipped_if(self.v[x as int] == self.v[y as int]),
            Instruction::LoadImm { x, byte } => self.with_register(x, byte),
            Instruction::AddImm { x, byte } => self.with_register(x, sum(self.v[x as int], byte)),
            Instruction::Move { x, y } => self.with_register(x, self.v[y as int]),
            Instruction::Or { x, y } => self.with_register(x, self.v[x as int] | self.v[y as int]),
            Instruction::And { x, y } => self.with_register(x, self.v[x as int] & self.v[y as int]),
            Instruction::Xor { x, y } => self.with_register(x, self.v[x as int] ^ self.v[y as int]),
            Instruction::Add { x, y } => {
                let a = self.v[x as int];
                let b = self.v[y as int];
                self.with_register(x, sum(a, b)).with_register(0xF, carry(a, b))
            },
            Instruction::Sub { x, y } => {
                let a = self.v[x as int];
                let b = self.v[y as int];
                self.with_register(0xF, exceeds(a, b)).with_register(x, difference(a, b))
            },
            Instruction::ShiftRight { x } => {
                let flagged = self.with_register(0xF, low_bit(self.v[x as int]));
                flagged.with_register(x, halved(flagged.v[x as int]))
            },
            Instruction::SubReverse { x, y } => {
                let a = self.v[x as int];
                let b = self.v[y as int];
                self.with_register(0xF, exceeds(b, a)).with_register(x, difference(b, a))
            },
            Instruction::ShiftLeft { x } => {
                let flagged = self.with_register(0xF, high_bit(self.v[x as int]));
                flagged.with_register(x, doubled(flagged.v[x as int]))
            },
            Instruction::SkipNeReg { x, y } => self.skipped_if(self.v[x as int] != self.v[y as int]),
            Instruction::LoadIndex { addr } => Machine { i: addr, ..self },
            Instruction::JumpOffset { addr } => Machine { pc: wrap16(addr + self.v[0]), ..self },
            Instruction::Random { x, byte } => self.with_register(x, random & byte),
            Instruction::Draw { x, y, n } => self.drew(x, y, n),
            Instruction::SkipKey { x } => self.skipped_if(
                self.v[x as int] < KEYS && key_down(keys, self.v[x as int]),
            ),
            Instruction::SkipNoKey { x } => self.skipped_if(
                self.v[x as int] < KEYS && !key_down(keys, self.v[x as int]),
            ),
            Instruction::ReadDelay { x } => self.with_register(x, self.timers.delay),
            Instruction::SetDelay { x } => Machine {
                timers: Timers { delay: self.v[x as int], ..self.timers },
                ..self
            },
            Instruction::SetSound { x } => Machine {
                timers: Timers { sound: self.v[x as int], ..self.timers },
                ..self
            },
            Instruction::AddIndex { x } => Machine { i: wrap16(self.i + self.v[x as int]), ..self },
            Instruction::Glyph { x } => Machine { i: glyph_address(self.v[x as int]), ..self },
            Instruction::Decimal { x } => self.decimal_stored(x),
            Instruction::Store { x } => self.registers_stored(x),
            Instruction::Load { x } => self.registers_loaded(x),
        }
    }

    /// The machine after one decay tick on every pixel.
    pub open spec fn faded(self) -> Machine {
        Machine { screen: decayed_screen(self.screen), ..self }
    }

    /// The machine after its timers have advanced by `elapsed_ns`.
    pub open spec fn timed(self, elapsed_ns: u64) -> Machine {
        Machine { timers: self.timers.advanced(elapsed_ns), ..self }
    }

    /// The machine after the part of a step that follows the fade: the timers
    /// advance, the word at the program counter is fetched and the counter
    /// moved past it, and the operation that the word encodes is executed. A
    /// word that encodes none leaves the machine as it is after the fetch.
    pub open spec fn finished(self, elapsed_ns: u64, random: u8, keys: [bool; 16]) -> Machine {
        let fetched = self.timed(elapsed_ns).advanced(2);
        match self.next_instruction() {
            Some(ins) => fetched.executed(ins, random, keys),
            None => fetched,
        }
    }

    /// The machine after one step: every pixel fades by one tick, then the
    /// timers advance by `elapsed_ns`, then one instruction is fetched and
    /// executed with `random` for the random byte and `keys` for the keypad.
    pub open spec fn stepped(self, elapsed_ns: u64, random: u8, keys: [bool; 16]) -> Machine {
        self.faded().finished(elapsed_ns, random, keys)
    }

    /// The fault that the next step ends in, if it ends in one.
    pub open spec fn step_fault(self) -> Option<Fault> {
        match self.next_instruction() {
            Some(ins) => self.fault(ins),
            None => Some(Fault::UnknownOpcode { hi: self.next_word().0, lo: self.next_word().1 }),
        }
    }

    /// Whether `count` steps in a row, none of which ends in a fault, can lead
    /// from this machine to `after` while `keys` are held, for some elapsed
    /// times and some random bytes.
    pub open spec fn runs_to(self, after: Machine, keys: [bool; 16], count: nat) -> bool
        decreases count,
    {
        if count == 0 {
            after == self
        } else {
            exists|mid: Machine, elapsed_ns: u64, random: u8|
                self.runs_to(mid, keys, (count - 1) as nat) && mid.step_fault() is None && after
                    == #[trigger] mid.stepped(elapsed_ns, random, keys)
        }
    }

    /// Whether fewer than `limit` steps without a fault, followed by one step
    /// that ends in `fault`, can lead from this machine to `after` while
    /// `keys` are held.
    pub open spec fn halts_at(self, after: Machine, keys: [bool; 16], fault: Fault, limit: nat) -> bool {
        exists|count: nat, mid: Machine, elapsed_ns: u64, random: u8|
            count < limit && #[trigger] self.runs_to(mid, keys, count) && mid.step_fault() == Some(
                fault,
            ) && after == #[trigger] mid.stepped(elapsed_ns, random, keys)
    }
}

/// Wherever the program counter stands, both bytes of the next word are read
/// from within the address space, and the counter then stands two further on,
/// wrapping at sixteen bits.
pub proof fn lemma_fetch_in_bounds(m: Machine)
    requires
        m.wf(),
    ensures
        0 <= wrap_address(m.pc as int) < m.memory.len(),
        0 <= wrap_address(m.pc + 1) < m.memory.len(),
        m.next_word() == (m.memory[wrap_address(m.pc as int)], m.memory[wrap_address(m.pc + 1)]),
        m.advanced(2).pc == (m.pc + 2) % 0x1_0000,
{
}

/// A value that has been pushed is the value that the next pop returns, and
/// that pop leaves the stack pointer where it was before the push.
pub proof fn lemma_push_pop(m: Machine, value: u16)
    requires
        m.wf(),
    ensures
        m.pushed(value).top() == value,
        m.pushed(value).popped().sp == m.sp,
        m.pushed(value).popped() == (Machine { memory: m.pushed(value).memory, ..m }),
{
}

/// The flags of the arithmetic instructions. With `x` a register other than
/// `F`: addition leaves the sum modulo 256 in `Vx` and the carry in `VF`;
/// the two subtractions leave the difference modulo 256 in `Vx` and in `VF`
/// whether the minuend was strictly greater; the shifts leave the shifted
/// value in `Vx` and the bit dropped in `VF`.
pub proof fn lemma_arithmetic_flags(m: Machine, x: u8, y: u8, random: u8, keys: [bool; 16])
    requires
        m.wf(),
        x < 0xF,
        y < 16,
    ensures
        ({
            let a = m.v[x as int];
            let b = m.v[y as int];
            let added = m.executed(Instruction::Add { x, y }, random, keys);
            let subtracted = m.executed(Instruction::Sub { x, y }, random, keys);
            let reversed = m.executed(Instruction::SubReverse { x, y }, random, keys);
            let right = m.executed(Instruction::ShiftRight { x }, random, keys);
            let left = m.executed(Instruction::ShiftLeft { x }, random, keys);
            &&& added.v[x as int] == (a + b) % 256
            &&& added.v[0xF] == (if a + b > 255 { 1int } else { 0int })
            &&& subtracted.v[x as int] == (a - b) % 256
            &&& subtracted.v[0xF] == (if a > b { 1int } else { 0int })
            &&& reversed.v[x as int] == (b - a) % 256
            &&& reversed.v[0xF] == (if b > a { 1int } else { 0int })
            &&& right.v[x as int] == a / 2
            &&& right.v[0xF] == a % 2
            &&& left.v[x as int] == (a * 2) % 256
            &&& left.v[0xF] == a / 128
        }),
{
}

/// Executing a well-formed instruction keeps the machine well-formed.
pub proof fn lemma_executed_wf(m: Machine, ins: Instruction, random: u8, keys: [bool; 16])
    requires
        m.wf(),
        ins.wf(),
    ensures
        m.executed(ins, random, keys).wf(),
{
    match ins {
        Instruction::Draw { x, y, n } => {
            lemma_drawn_wf(m.screen, m.sprite(n), m.v[x as int] as int, m.v[y as int] as int);
        },
        _ => {},
    }
}

/// A step keeps the machine well-formed, whatever time has passed, whatever
/// the random byte and the keys, and whether or not it ends in a fault.
pub proof fn lemma_stepped_wf(m: Machine, elapsed_ns: u64, random: u8, keys: [bool; 16])
    requires
        m.wf(),
    ensures
        m.stepped(elapsed_ns, random, keys).wf(),
{
    let word = m.next_word();
    let fetched = m.faded().timed(elapsed_ns).advanced(2);
    match decoded(word.0, word.1) {
        Some(ins) => {
            lemma_decoded_wf(word.0, word.1);
            lemma_executed_wf(fetched, ins, random, keys);
        },
        None => {},
    }
}

/// A step changes a pixel by one decay tick and no more, unless its
/// instruction clears the display or draws a sprite that reaches the pixel.
pub proof fn lemma_step_fades(m: Machine, elapsed_ns: u64, random: u8, keys: [bool; 16], k: int)
    requires
        m.wf(),
        0 <= k < CELLS,
        match m.next_instruction() {
            Some(Instruction::ClearScreen) | Some(Instruction::ClearScreenHires) => false,
            Some(Instruction::Draw { x, y, n }) => !covered(
                n as nat,
                m.v[x as int] as int,
                m.v[y as int] as int,
                k,
            ),
            _ => true,
        },
    ensures
        m.stepped(elapsed_ns, random, keys).screen[k] == m.screen[k].decayed(),
{
}

/// A step advances the timers by the time that has passed and does no more
/// to them, unless its instruction sets one of them.
pub proof fn lemma_step_timers(m: Machine, elapsed_ns: u64, random: u8, keys: [bool; 16])
    requires
        m.wf(),
        match m.next_instruction() {
            Some(Instruction::SetDelay { .. }) | Some(Instruction::SetSound { .. }) => false,
            _ => true,
        },
    ensures
        m.stepped(elapsed_ns, random, keys).timers == m.timers.advanced(elapsed_ns),
{
}

/// What a step does not depend on. The random byte matters to a random
/// instruction only, the keys to a key instruction only, and the time that
/// has passed to the timers, and through them to an instruction that reads
/// the delay timer, only.
pub proof fn lemma_step_inputs(
    m: Machine,
    elapsed_ns: u64,
    random: u8,
    keys: [bool; 16],
    other_elapsed_ns: u64,
    other_random: u8,
    other_keys: [bool; 16],
)
    requires
        m.wf(),
    ensures
        !(m.next_instruction() matches Some(Instruction::Random { .. })) ==> m.stepped(
            elapsed_ns,
            random,
            keys,
        ) == m.stepped(elapsed_ns, other_random, keys),
        !(m.next_instruction() matches Some(Instruction::SkipKey { .. }))
            && !(m.next_instruction() matches Some(Instruction::SkipNoKey { .. })) ==> m.stepped(
            elapsed_ns,
            random,
            keys,
        ) == m.stepped(elapsed_ns, random, other_keys),
        !(m.next_instruction() matches Some(Instruction::ReadDelay { .. })) ==> m.stepped(
            elapsed_ns,
            random,
            keys,
        ) == (Machine {
            timers: m.stepped(elapsed_ns, random, keys).timers,
            ..m.stepped(other_elapsed_ns, random, keys)
        }),
{
    if !(m.next_instruction() matches Some(Instruction::ReadDelay { .. })) {
        let one = m.stepped(elapsed_ns, random, keys);
        let other = m.stepped(other_elapsed_ns, random, keys);
        match m.next_instruction() {
            Some(Instruction::Draw { n, .. }) => {
                let sprite = m.faded().timed(elapsed_ns).advanced(2).sprite(n);
                assert(sprite =~= m.faded().timed(other_elapsed_ns).advanced(2).sprite(n));
            },
            _ => {},
        }
        assert(one.memory =~= other.memory);
        assert(one.v =~= other.v);
    }
}

} // verus!
