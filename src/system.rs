//! The system that owns a processor and its memory and drives it.
use vstd::prelude::*;

use crate::cpu::engine::step_spec;
use crate::cpu::{reset_state, Cpu, CpuState};
use crate::EmulatorError;

verus! {

/// A processor with its 64 KiB of memory.
pub struct System {
    pub cpu: Cpu,
}

impl System {
    /// A system with a processor in its reset state and zeroed memory.
    pub fn new() -> (sys: System)
        ensures
            sys.cpu@ == reset_state(Seq::new(65536, |i: int| 0u8)),
            sys.cpu.t_states == 0,
            sys.cpu.event_queue@.len() == 0,
    {
        System { cpu: Cpu::new() }
    }

    /// Runs one processor step, discarding the cycle count.
    pub fn tick(&mut self) -> (r: crate::Result<()>)
        ensures
            ({
                let o = step_spec(old(self).cpu@, old(self).cpu.event_queue@, old(self).cpu.t_states);
                &&& final(self).cpu@ == o.state
                &&& final(self).cpu.event_queue@ == o.queue
                &&& final(self).cpu.t_states == o.clock
                &&& (r is Ok <==> o.result is Ok)
                &&& (o.result matches Err(e) ==> r == Err::<(), EmulatorError>(e))
            }),
            crate::event::sorted(final(self).cpu.event_queue@),
            forall|k: int|
                0 <= k < final(self).cpu.event_queue@.len() ==> #[trigger] final(self).cpu.event_queue@[k].1
                    > final(self).cpu.t_states,
    {
        match self.cpu.step() {
            Ok(_) => Ok(()),
            Err(e) => Err(e),
        }
    }

    /// Loads `program` at address 0; fails with `MemoryError(0)`, changing
    /// nothing, when it is longer than 64 KiB.
    pub fn load_program(&mut self, program: &[u8]) -> (r: crate::Result<()>)
        ensures
            program@.len() > 65536 ==> r == Err::<(), EmulatorError>(EmulatorError::MemoryError(0))
                && final(self).cpu@ == old(self).cpu@,
            program@.len() <= 65536 ==> r == Ok::<(), EmulatorError>(()) && final(self).cpu@
                == (CpuState { mem: crate::memory::loaded(old(self).cpu@.mem, 0, program@), ..old(self).cpu@ }),
            final(self).cpu.t_states == old(self).cpu.t_states,
            final(self).cpu.event_queue == old(self).cpu.event_queue,
    {
        self.cpu.load_program(0, program)
    }
}

impl Default for System {
    fn default() -> (sys: System)
        ensures
            sys.cpu@ == reset_state(Seq::new(65536, |i: int| 0u8)),
            sys.cpu.t_states == 0,
            sys.cpu.event_queue@.len() == 0,
    {
        System::new()
    }
}

} // verus!
