use vstd::prelude::*;
use crate::frame::FrameScheduler;
use crate::ports::{
    after_read, after_write, read_value, readable, writable, write_samples, DeviceIO, PortError,
    OP_IN, OP_OUT,
};
use crate::video::Display;

verus! {

/// What the driver does with the CPU before it dispatches an instruction.
#[derive(Debug, PartialEq, Eq)]
pub enum Intercept {
    /// Not a port instruction: nothing to do.
    Pass,
    /// An `IN`: load this value into the accumulator.
    Load(u8),
    /// An `OUT`: play these samples, in order.
    Play(Vec<usize>),
}

/// The board: ports, framebuffer and frame scheduler.
pub struct Invaders {
    pub io: DeviceIO,
    pub display: Display,
    pub scheduler: FrameScheduler,
}

impl Invaders {
    pub open spec fn wf(&self) -> bool {
        self.io.wf() && self.scheduler.wf()
    }

    /// The board at power-up.
    pub fn power_up() -> (r: Invaders)
        ensures
            r.wf(),
            r.io == DeviceIO::power_up_state(),
            r.scheduler == FrameScheduler::power_up_state(),
            r.display.raster@.len() == 224 * 256,
    {
        Invaders {
            io: DeviceIO::power_up(),
            display: Display::power_up(),
            scheduler: FrameScheduler::power_up(),
        }
    }

    /// Handles the instruction about to be dispatched, given its opcode, the
    /// byte after it and the accumulator: an `IN` reads a port, an `OUT` writes
    /// the accumulator to one. The CPU's own dispatch of either must then only
    /// spend its cycles and advance past the two bytes.
    pub fn next(&mut self, opcode: u8, port: u8, a: u8) -> (r: Result<Intercept, PortError>)
        requires
            old(self).wf(),
        ensures
            final(self).wf(),
            final(self).display == old(self).display,
            final(self).scheduler == old(self).scheduler,
            opcode == OP_IN && readable(port) ==> r == Ok::<Intercept, PortError>(
                Intercept::Load(read_value(old(self).io, port)),
            ) && final(self).io == after_read(old(self).io, port),
            opcode == OP_IN && !readable(port) ==> r == Err::<Intercept, PortError>(
                PortError::BadRead(port),
            ) && final(self).io == old(self).io,
            opcode == OP_OUT && writable(port) ==> (match r {
                Ok(Intercept::Play(s)) => s@ == write_samples(old(self).io, port, a),
                _ => false,
            }) && final(self).io == after_write(old(self).io, port, a),
            opcode == OP_OUT && !writable(port) ==> r == Err::<Intercept, PortError>(
                PortError::BadWrite(port),
            ) && final(self).io == old(self).io,
            opcode != OP_IN && opcode != OP_OUT ==> r == Ok::<Intercept, PortError>(Intercept::Pass)
                && final(self).io == old(self).io,
    {
        if opcode == OP_IN {
            match self.io.read_port(port) {
                Ok(v) => Ok(Intercept::Load(v)),
                Err(e) => Err(e),
            }
        } else if opcode == OP_OUT {
            match self.io.write_port(port, a) {
                Ok(s) => Ok(Intercept::Play(s)),
                Err(e) => Err(e),
            }
        } else {
            Ok(Intercept::Pass)
        }
    }
}

} // verus!
