//! The interpreter: the register file, the call stack and the execution of
//! one instruction at a time against memory, display and timers.

use vstd::prelude::*;
use std::time::Instant;
use crate::alu::{
    add_with_carry, decimal_digits_of, glyph_address_of, shift_left, shift_right,
    subtract_with_flag,
};
use crate::display::{frame_of, Pixel, Screen};
use crate::machine::{Fault, Machine, ENTRY_POINT, KEYS, STACK_BASE};
use crate::mmu::Mmu;
use crate::opcode::{Instruction, Opcode};
use crate::sources::{nanos_since, random_byte};
use crate::timer::Timers;

verus! {

/// The result of a step that ends in `fault`, or completes if there is none.
pub open spec fn outcome(fault: Option<Fault>) -> Result<(), Fault> {
    match fault {
        Some(f) => Err(f),
        None => Ok(()),
    }
}

/// The interpreter and the whole state of its machine.
pub struct CPU {
    memory: Mmu,
    screen: Screen,
    v: [u8; 16],
    i: u16,
    pc: u16,
    sp: u8,
    timers: Timers,
    timer_instant: Option<Instant>,
}

impl View for CPU {
    type V = Machine;

    closed spec fn view(&self) -> Machine {
        Machine {
            memory: self.memory@,
            v: self.v@,
            i: self.i,
            pc: self.pc,
            sp: self.sp,
            screen: self.screen@,
            timers: self.timers,
        }
    }
}

impl CPU {
    /// A machine as it is created: blank but for the font table, ready to run
    /// from the entry point.
    pub fn new() -> (cpu: CPU)
        ensures
            cpu@ == Machine::power_on(),
            cpu@.wf(),
    {
        let mut memory = Mmu::new();
        memory.install_font();
        let screen = Screen::new();
        proof {
            use_type_invariant(&memory);
            use_type_invariant(&screen);
        }
        CPU {
            memory,
            screen,
            v: [0; 16],
            i: 0,
            pc: ENTRY_POINT,
            sp: 0,
            timers: Timers::new(),
            timer_instant: None,
        }
    }

    /// Replaces memory by the image of `rom`: the program from address 0x200
    /// on, cut off at the end of the address space, and zero everywhere else.
    /// Nothing but memory changes.
    pub fn take_rom(&mut self, rom: Vec<u8>)
        ensures
            final(self)@ == old(self)@.loaded(rom@),
            final(self)@.wf(),
    {
        self.memory.load(&rom);
        proof {
            use_type_invariant(&self.memory);
            use_type_invariant(&self.screen);
        }
    }

    /// Resets the machine: registers, stack pointer, timers and display are
    /// cleared, the program counter goes to the entry point and the font
    /// table is written anew. The rest of memory is kept.
    pub fn reset(&mut self)
        ensures
            final(self)@ == old(self)@.reset(),
            final(self)@.wf(),
    {
        self.v = [0; 16];
        self.i = 0;
        self.sp = 0;
        self.pc = ENTRY_POINT;
        self.timers = Timers::new();
        self.timer_instant = None;
        self.screen.clear();
        self.memory.install_font();
        proof {
            use_type_invariant(&self.memory);
            use_type_invariant(&self.screen);
        }
    }

    /// Reads the byte at `address`.
    pub fn read(&self, address: u16) -> (value: u8)
        ensures
            value == self@.read(address as int),
    {
        self.memory.read(address as usize)
    }

    /// Writes `value` at `address`.
    pub fn write(&mut self, address: u16, value: u8)
        ensures
            final(self)@ == old(self)@.written(address as int, value),
            final(self)@.wf(),
    {
        self.memory.write(address as usize, value);
        proof {
            use_type_invariant(&self.memory);
            use_type_invariant(&self.screen);
        }
    }

    /// Pushes `value` on the call stack.
    pub fn push(&mut self, value: u16)
        ensures
            final(self)@ == old(self)@.pushed(value),
            final(self)@.wf(),
    {
        self.sp = self.sp.wrapping_add(1);
        let address: u16 = STACK_BASE + (self.sp as u16) * 2;
        assert(value >> 8 == value / 256 && value & 0xFF == value % 256) by (bit_vector);
        self.write(address, (value >> 8) as u8);
        self.write(address + 1, (value & 0xFF) as u8);
    }

    /// Pops the value on top of the call stack.
    pub fn pop(&mut self) -> (value: u16)
        ensures
            value == old(self)@.top(),
            final(self)@ == old(self)@.popped(),
            final(self)@.wf(),
    {
        let address: u16 = STACK_BASE + (self.sp as u16) * 2;
        let hi = self.read(address);
        let lo = self.read(address + 1);
        self.sp = self.sp.wrapping_sub(1);
        proof {
            use_type_invariant(&self.memory);
            use_type_invariant(&self.screen);
        }
        assert(((hi as u16) << 8) | (lo as u16) == hi * 256 + lo) by (bit_vector);
        ((hi as u16) << 8) | (lo as u16)
    }

    /// Reads the byte at the program counter and moves the counter past it.
    pub fn read_next(&mut self) -> (value: u8)
        ensures
            value == old(self)@.read(old(self)@.pc as int),
            final(self)@ == old(self)@.advanced(1),
            final(self)@.wf(),
    {
        let value = self.read(self.pc);
        self.pc = self.pc.wrapping_add(1);
        proof {
            use_type_invariant(&self.memory);
            use_type_invariant(&self.screen);
        }
        value
    }

    /// Fetches the word at the program counter and moves the counter past it.
    pub fn fetch(&mut self) -> (opcode: Opcode)
        ensures
            opcode@ == old(self)@.next_word(),
            final(self)@ == old(self)@.advanced(2),
            final(self)@.wf(),
    {
        let hi = self.read_next();
        let lo = self.read_next();
        Opcode::new(hi, lo)
    }

    /// Renders the display and returns the frame: four bytes per pixel in
    /// row-major order, three brightness channels and one opacity channel.
    /// The machine is unchanged.
    pub fn screen_as_framebuffer(&mut self) -> (frame: &[u8])
        ensures
            frame@ == frame_of(old(self)@.screen),
            final(self)@ == old(self)@,
    {
        self.screen.render()
    }

    /// Moves the program counter past one instruction.
    fn skip(&mut self)
        ensures
            final(self)@ == old(self)@.advanced(2),
    {
        self.pc = self.pc.wrapping_add(2);
    }

    /// Draws the sprite of `rows` rows at the index register at the position
    /// held in registers `x` and `y`, and leaves in register `F` whether a lit
    /// pixel was put out.
    fn draw(&mut self, x: u8, y: u8, rows: u8)
        requires
            x < 16,
            y < 16,
            rows < 16,
        ensures
            final(self)@ == old(self)@.drew(x, y, rows),
    {
        let column = self.v[x as usize];
        let row = self.v[y as usize];
        let mut sprite: Vec<u8> = Vec::new();
        let mut r: u8 = 0;
        while r < rows
            invariant
                r <= rows < 16,
                self@ == old(self)@,
                sprite@.len() == r,
                forall|k: int| 0 <= k < r ==> sprite@[k] == self@.read(self@.i + k),
            decreases rows - r,
        {
            sprite.push(self.memory.read(self.i as usize + r as usize));
            r += 1;
        }
        assert(sprite@ == self@.sprite(rows));
        let collision = self.screen.draw(column, row, &sprite);
        self.v[0xF] = if collision {
            1
        } else {
            0
        };
    }

    /// Stores registers `V0` to `Vx` at the index register.
    fn store_registers(&mut self, x: u8)
        requires
            x < 16,
        ensures
            final(self)@ == old(self)@.registers_stored(x),
    {
        proof {
            use_type_invariant(&self.memory);
        }
        let mut r: u8 = 0;
        while r <= x
            invariant
                r <= x + 1,
                x < 16,
                self@.memory.len() == 4096,
                self@ == (Machine { memory: self@.memory, ..old(self)@ }),
                forall|a: int|
                    0 <= a < 4096 ==> #[trigger] self@.memory[a] == (if (a - self@.i) % 4096 < r {
                        self@.v[(a - self@.i) % 4096]
                    } else {
                        old(self)@.memory[a]
                    }),
            decreases x + 1 - r,
        {
            self.memory.write(self.i as usize + r as usize, self.v[r as usize]);
            proof {
                use_type_invariant(&self.memory);
            }
            r += 1;
        }
    }

    /// Loads registers `V0` to `Vx` from the index register.
    fn load_registers(&mut self, x: u8)
        requires
            x < 16,
        ensures
            final(self)@ == old(self)@.registers_loaded(x),
    {
        let mut r: u8 = 0;
        while r <= x
            invariant
                r <= x + 1,
                x < 16,
                self@ == (Machine { v: self@.v, ..old(self)@ }),
                self@.v.len() == 16,
                forall|k: int|
                    0 <= k < 16 ==> #[trigger] self@.v[k] == (if k < r {
                        old(self)@.read(old(self)@.i + k)
                    } else {
                        old(self)@.v[k]
                    }),
            decreases x + 1 - r,
        {
            self.v[r as usize] = self.memory.read(self.i as usize + r as usize);
            r += 1;
        }
    }

    /// Stores the decimal digits of register `x` at the index register.
    fn store_decimal(&mut self, x: u8)
        requires
            x < 16,
        ensures
            final(self)@ == old(self)@.decimal_stored(x),
    {
        let digits = decimal_digits_of(self.v[x as usize]);
        let base = self.i as usize;
        self.memory.write(base, digits.0);
        self.memory.write(base + 1, digits.1);
        self.memory.write(base + 2, digits.2);
    }

    /// Executes `ins`, with `random` for the random byte and `keys` for the
    /// state of the keypad, one entry per key.
    fn execute(&mut self, ins: Instruction, random: u8, keys: [bool; 16]) -> (r: Result<(), Fault>)
        requires
            ins.wf(),
        ensures
            final(self)@ == old(self)@.executed(ins, random, keys),
            r == outcome(old(self)@.fault(ins)),
    {
        match ins {
            Instruction::ClearScreen | Instruction::ClearScreenHires => {
                self.screen.clear();
            },
            Instruction::Return => {
                let addr = self.pop();
                self.pc = addr;
            },
            Instruction::Nop => {},
            Instruction::Jump { addr } => {
                self.pc = addr;
            },
            Instruction::Call { addr } => {
                let pc = self.pc;
                self.push(pc);
                self.pc = addr;
            },
            Instruction::SkipEqImm { x, byte } => {
                if self.v[x as usize] == byte {
                    self.skip();
                }
            },
            Instruction::SkipNeImm { x, byte } => {
                if self.v[x as usize] != byte {
                    self.skip();
                }
            },
            Instruction::SkipEqReg { x, y } => {
                if self.v[x as usize] == self.v[y as usize] {
                    self.skip();
                }
            },
            Instruction::LoadImm { x, byte } => {
                self.v[x as usize] = byte;
            },
            Instruction::AddImm { x, byte } => {
                self.v[x as usize] = add_with_carry(self.v[x as usize], byte).0;
            },
            Instruction::Move { x, y } => {
                self.v[x as usize] = self.v[y as usize];
            },
            Instruction::Or { x, y } => {
                self.v[x as usize] = self.v[x as usize] | self.v[y as usize];
            },
            Instruction::And { x, y } => {
                self.v[x as usize] = self.v[x as usize] & self.v[y as usize];
            },
            Instruction::Xor { x, y } => {
                self.v[x as usize] = self.v[x as usize] ^ self.v[y as usize];
            },
            Instruction::Add { x, y } => {
                let (result, flag) = add_with_carry(self.v[x as usize], self.v[y as usize]);
                self.v[x as usize] = result;
                self.v[0xF] = flag;
            },
            Instruction::Sub { x, y } => {
                let (result, flag) = subtract_with_flag(self.v[x as usize], self.v[y as usize]);
                self.v[0xF] = flag;
                self.v[x as usize] = result;
            },
            Instruction::ShiftRight { x } => {
                self.v[0xF] = shift_right(self.v[x as usize]).1;
                self.v[x as usize] = shift_right(self.v[x as usize]).0;
            },
            Instruction::SubReverse { x, y } => {
                let (result, flag) = subtract_with_flag(self.v[y as usize], self.v[x as usize]);
                self.v[0xF] = flag;
                self.v[x as usize] = result;
            },
            Instruction::ShiftLeft { x } => {
                self.v[0xF] = shift_left(self.v[x as usize]).1;
                self.v[x as usize] = shift_left(self.v[x as usize]).0;
            },
            Instruction::SkipNeReg { x, y } => {
                if self.v[x as usize] != self.v[y as usize] {
                    self.skip();
                }
            },
            Instruction::LoadIndex { addr } => {
                self.i = addr;
            },
            Instruction::JumpOffset { addr } => {
                self.pc = addr.wrapping_add(self.v[0] as u16);
            },
            Instruction::Random { x, byte } => {
                self.v[x as usize] = random & byte;
            },
            Instruction::Draw { x, y, n } => {
                self.draw(x, y, n);
            },
            Instruction::SkipKey { x } => {
                let key = self.v[x as usize];
                if key >= KEYS {
                    return Err(Fault::UnknownKey { key });
                }
                if keys[key as usize] {
                    self.skip();
                }
            },
            Instruction::SkipNoKey { x } => {
                let key = self.v[x as usize];
                if key >= KEYS {
                    return Err(Fault::UnknownKey { key });
                }
                if !keys[key as usize] {
                    self.skip();
                }
            },
            Instruction::ReadDelay { x } => {
                self.v[x as usize] = self.timers.delay;
            },
            Instruction::SetDelay { x } => {
                self.timers.delay = self.v[x as usize];
            },
            Instruction::SetSound { x } => {
                self.timers.sound = self.v[x as usize];
            },
            Instruction::AddIndex { x } => {
                self.i = self.i.wrapping_add(self.v[x as usize] as u16);
            },
            Instruction::Glyph { x } => {
                self.i = glyph_address_of(self.v[x as usize]);
            },
            Instruction::Decimal { x } => {
                self.store_decimal(x);
            },
            Instruction::Store { x } => {
                self.store_registers(x);
            },
            Instruction::Load { x } => {
                self.load_registers(x);
            },
        }
        Ok(())
    }

    /// Runs the part of a step that follows the fade: advances the timers by
    /// `elapsed_ns`, fetches the word at the program counter and executes it.
    fn finish(&mut self, elapsed_ns: u64, random: u8, keys: [bool; 16]) -> (r: Result<(), Fault>)
        ensures
            final(self)@ == old(self)@.finished(elapsed_ns, random, keys),
            final(self)@.wf(),
            r == outcome(old(self)@.step_fault()),
    {
        self.timers.advance(elapsed_ns);
        let opcode = self.fetch();
        let r = match opcode.decode() {
            Some(ins) => self.execute(ins, random, keys),
            None => {
                let (hi, lo) = opcode.bytes();
                Err(Fault::UnknownOpcode { hi, lo })
            },
        };
        proof {
            use_type_invariant(&self.memory);
            use_type_invariant(&self.screen);
        }
        r
    }

    /// Runs one step with the given inputs: `elapsed_ns` nanoseconds have
    /// passed since the step before, `random` is the byte that a random
    /// instruction receives, and `keys` holds for each key of the keypad
    /// whether it is down.
    ///
    /// The step ticks the fade of every pixel, advances the timers, fetches
    /// the word at the program counter and executes it. It ends in a fault if
    /// the word encodes no operation or names a key that does not exist; the
    /// machine is then left as the fetch left it.
    pub fn step(&mut self, elapsed_ns: u64, random: u8, keys: [bool; 16]) -> (r: Result<(), Fault>)
        ensures
            final(self)@ == old(self)@.stepped(elapsed_ns, random, keys),
            final(self)@.wf(),
            r == outcome(old(self)@.step_fault()),
    {
        self.screen.decay();
        self.finish(elapsed_ns, random, keys)
    }

    /// Whether the next instruction is a random one.
    fn wants_random(&self) -> (wanted: bool)
        ensures
            wanted == (self@.next_instruction() matches Some(Instruction::Random { .. })),
    {
        let hi = self.read(self.pc);
        assert(hi >> 4 == hi / 16) by (bit_vector);
        hi >> 4 == 0xC
    }

    /// Runs one step on the wall clock. After the fade, the time since the
    /// end of the step before is measured and a random byte is drawn if the
    /// next instruction asks for one; the step goes on with them, and at its
    /// end the point in time to measure from is taken anew. Whatever the clock
    /// and the generator give, the machine ends as `step` describes for some
    /// elapsed time and some byte; whether the step ends in a fault does not
    /// depend on them.
    pub fn run_next(&mut self, keys: [bool; 16]) -> (r: Result<(), Fault>)
        ensures
            exists|elapsed_ns: u64, random: u8|
                final(self)@ == #[trigger] old(self)@.stepped(elapsed_ns, random, keys),
            final(self)@.wf(),
            r == outcome(old(self)@.step_fault()),
    {
        self.screen.decay();
        let elapsed_ns = match self.timer_instant {
            Some(start) => nanos_since(&start),
            None => 0,
        };
        let random = if self.wants_random() {
            random_byte()
        } else {
            0
        };
        let r = self.finish(elapsed_ns, random, keys);
        self.timer_instant = Some(Instant::now());
        assert(self@ == old(self)@.stepped(elapsed_ns, random, keys));
        r
    }

    /// The general registers `V0` to `VF`.
    pub fn registers(&self) -> (v: [u8; 16])
        ensures
            v@ == self@.v,
    {
        self.v
    }

    /// The index register.
    pub fn index(&self) -> (i: u16)
        ensures
            i == self@.i,
    {
        self.i
    }

    /// The program counter.
    pub fn program_counter(&self) -> (pc: u16)
        ensures
            pc == self@.pc,
    {
        self.pc
    }

    /// The stack pointer.
    pub fn stack_pointer(&self) -> (sp: u8)
        ensures
            sp == self@.sp,
    {
        self.sp
    }

    /// The timers.
    pub fn timers(&self) -> (t: Timers)
        ensures
            t == self@.timers,
    {
        self.timers
    }

    /// The pixel in column `x mod 64` of row `y mod 32`.
    pub fn pixel(&self, x: u8, y: u8) -> (p: Pixel)
        ensures
            p == self@.screen[crate::display::cell_index(x as int, y as int)],
    {
        self.screen.pixel(x, y)
    }
}

impl Default for CPU {
    fn default() -> (cpu: CPU)
        ensures
            cpu@ == Machine::power_on(),
    {
        CPU::new()
    }
}

} // verus!
