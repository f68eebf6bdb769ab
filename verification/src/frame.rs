//! The core as a host drives it: a program is inserted or removed, and the
//! machine runs one frame at a time.

use vstd::prelude::*;
use crate::cpu::CPU;
use crate::machine::{Fault, Machine};

verus! {

/// Number of instructions that make one frame.
pub const STEPS_PER_FRAME: usize = 8;

/// The largest program, in bytes, that is taken from an image.
pub const ROM_LIMIT: usize = 0x800;

/// The part of `image` that is installed: its first `ROM_LIMIT` bytes, or all
/// of it if it is shorter.
pub open spec fn program_of(image: Seq<u8>) -> Seq<u8> {
    if image.len() > ROM_LIMIT {
        image.subrange(0, ROM_LIMIT as int)
    } else {
        image
    }
}

/// An interpreter packaged for a host.
pub struct Core {
    interpreter: CPU,
}

impl View for Core {
    type V = Machine;

    closed spec fn view(&self) -> Machine {
        self.interpreter@
    }
}

impl Core {
    /// A core with a machine as it is created.
    pub fn new() -> (core: Core)
        ensures
            core@ == Machine::power_on(),
            core@.wf(),
    {
        Core { interpreter: CPU::new() }
    }

    /// Resets the machine.
    pub fn reset(&mut self)
        ensures
            final(self)@ == old(self)@.reset(),
            final(self)@.wf(),
    {
        self.interpreter.reset();
    }

    /// Inserts a program: the first `ROM_LIMIT` bytes of `image` replace
    /// memory, as `CPU::take_rom` describes.
    pub fn rom_insert(&mut self, image: Vec<u8>)
        ensures
            final(self)@ == old(self)@.loaded(program_of(image@)),
            final(self)@.wf(),
    {
        let mut rom = image;
        rom.truncate(ROM_LIMIT);
        self.interpreter.take_rom(rom);
    }

    /// Removes the program: memory is left blank, and the machine goes on
    /// from there.
    pub fn rom_remove(&mut self)
        ensures
            final(self)@ == old(self)@.loaded(Seq::<u8>::empty()),
            final(self)@.wf(),
    {
        self.interpreter.take_rom(Vec::new());
    }

    /// Renders the display, as `CPU::screen_as_framebuffer` describes.
    pub fn frame(&mut self) -> (frame: &[u8])
        ensures
            frame@ == crate::display::frame_of(old(self)@.screen),
            final(self)@ == old(self)@,
    {
        self.interpreter.screen_as_framebuffer()
    }

    /// Runs one frame on the wall clock: `STEPS_PER_FRAME` steps with `keys`
    /// held, or fewer if one of them ends in a fault, which is then returned
    /// and ends the frame.
    pub fn run_next(&mut self, keys: [bool; 16]) -> (r: Result<(), Fault>)
        ensures
            final(self)@.wf(),
            match r {
                Ok(()) => old(self)@.runs_to(final(self)@, keys, STEPS_PER_FRAME as nat),
                Err(fault) => old(self)@.halts_at(
                    final(self)@,
                    keys,
                    fault,
                    STEPS_PER_FRAME as nat,
                ),
            },
    {
        let mut count: usize = 0;
        while count < STEPS_PER_FRAME
            invariant
                count <= STEPS_PER_FRAME,
                count > 0 ==> self@.wf(),
                old(self)@.runs_to(self@, keys, count as nat),
            decreases STEPS_PER_FRAME - count,
        {
            match self.interpreter.run_next(keys) {
                Ok(()) => {},
                Err(fault) => {
                    return Err(fault);
                },
            }
            count += 1;
        }
        Ok(())
    }
}

impl Default for Core {
    fn default() -> (core: Core)
        ensures
            core@ == Machine::power_on(),
    {
        Core::new()
    }
}

} // verus!
