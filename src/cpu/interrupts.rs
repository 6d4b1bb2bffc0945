//! Interrupt acceptance, the enable flip-flops and the interrupt returns.
use vstd::prelude::*;

use super::control_flow::ret_spec;
use super::{add16, pair, push_spec, rd16, top, Cpu, CpuState};

verus! {

/// The three maskable interrupt modes.
#[derive(Debug, Clone, Copy, PartialEq, Eq)]
pub enum InterruptMode {
    Mode0,
    Mode1,
    Mode2,
}

/// Address of the non-maskable interrupt handler.
pub const NMI_VECTOR: u16 = 0x0066;

/// Address that modes 0 and 1 jump to (the target of RST 38H). Mode 0
/// runs whatever instruction the device puts on the bus; it is modelled as
/// RST 38H, the instruction devices most commonly supply.
pub const RST38_VECTOR: u16 = 0x0038;

/// The byte on the data bus during a mode 2 acknowledge: no device drives
/// the bus in this model, so it floats high.
pub const BUS_VECTOR: u8 = 0xFF;

/// The state once a HALT is left: PC moves past the HALT opcode.
pub open spec fn leave_halt(s: CpuState) -> CpuState {
    if s.halted {
        CpuState { halted: false, pc: add16(s.pc, 1), ..s }
    } else {
        s
    }
}

/// The state after a non-maskable interrupt: IFF1 saved in IFF2 and cleared,
/// PC pushed, execution at 0x0066.
pub open spec fn nmi_spec(s: CpuState) -> CpuState {
    let t = leave_halt(s);
    let u = CpuState { iff1: false, iff2: t.iff1, ..t };
    CpuState { pc: NMI_VECTOR, ..push_spec(u, u.pc) }
}

/// Where an accepted maskable interrupt continues: the word read from the
/// table at `I:bus byte` in mode 2, 0x0038 otherwise.
pub open spec fn interrupt_target(s: CpuState) -> u16 {
    if s.interrupt_mode == 2 {
        rd16(s.mem, pair(s.i, BUS_VECTOR))
    } else {
        RST38_VECTOR
    }
}

/// The state after a maskable interrupt request: ignored while IFF1 is
/// clear; otherwise both flip-flops cleared, PC pushed and the target taken.
pub open spec fn interrupt_spec(s: CpuState) -> CpuState {
    if !s.iff1 {
        s
    } else {
        let t = leave_halt(s);
        let u = CpuState { iff1: false, iff2: false, ..t };
        CpuState { pc: interrupt_target(s), ..push_spec(u, u.pc) }
    }
}

/// A halted processor with interrupts enabled in mode 1 accepts a maskable
/// interrupt: it leaves the halt, pushes the address after the HALT opcode
/// and continues at 0x0038.
pub proof fn lemma_interrupt_during_halt(s: CpuState)
    requires
        s.halted,
        s.iff1,
        s.interrupt_mode == 1,
        s.mem.len() == 65536,
    ensures
        !interrupt_spec(s).halted,
        top(interrupt_spec(s)) == add16(s.pc, 1),
        interrupt_spec(s).pc == 0x0038,
        interrupt_spec(s).sp == add16(s.sp, -2),
        !interrupt_spec(s).iff1 && !interrupt_spec(s).iff2,
{
    super::lemma_rd16_wr16(s.mem, add16(s.sp, -2), add16(s.pc, 1));
}

impl Cpu {
    /// Accepts a non-maskable interrupt; always taken.
    pub fn handle_nmi(&mut self)
        ensures
            final(self)@ == nmi_spec(old(self)@),
            final(self).t_states == old(self).t_states,
            final(self).event_queue == old(self).event_queue,
    {
        if self.halted {
            self.halted = false;
            self.pc = self.pc.wrapping_add(1);
        }
        self.iff2 = self.iff1;
        self.iff1 = false;
        let pc = self.pc;
        self.push(pc);
        self.pc = NMI_VECTOR;
    }

    /// Offers a maskable interrupt; taken only while IFF1 is set.
    pub fn handle_interrupt(&mut self)
        ensures
            final(self)@ == interrupt_spec(old(self)@),
            final(self).t_states == old(self).t_states,
            final(self).event_queue == old(self).event_queue,
    {
        if !self.iff1 {
            return;
        }
        let target = if self.interrupt_mode == 2 {
            let address = (self.i as u16) * 256 + (BUS_VECTOR as u16);
            self.read_word(address)
        } else {
            RST38_VECTOR
        };
        if self.halted {
            self.halted = false;
            self.pc = self.pc.wrapping_add(1);
        }
        self.iff1 = false;
        self.iff2 = false;
        let pc = self.pc;
        self.push(pc);
        self.pc = target;
    }

    /// EI: sets both flip-flops.
    pub fn ei(&mut self)
        ensures
            final(self)@ == (CpuState { iff1: true, iff2: true, ..old(self)@ }),
    {
        self.iff1 = true;
        self.iff2 = true;
    }

    /// DI: clears both flip-flops.
    pub fn di(&mut self)
        ensures
            final(self)@ == (CpuState { iff1: false, iff2: false, ..old(self)@ }),
    {
        self.iff1 = false;
        self.iff2 = false;
    }

    /// Selects the interrupt mode.
    pub fn set_interrupt_mode(&mut self, mode: InterruptMode)
        ensures
            final(self)@ == (CpuState {
                interrupt_mode: match mode {
                    InterruptMode::Mode0 => 0u8,
                    InterruptMode::Mode1 => 1u8,
                    InterruptMode::Mode2 => 2u8,
                },
                ..old(self)@
            }),
    {
        self.interrupt_mode = match mode {
            InterruptMode::Mode0 => 0,
            InterruptMode::Mode1 => 1,
            InterruptMode::Mode2 => 2,
        };
    }

    /// RETN: returns and restores IFF1 from IFF2.
    pub fn retn(&mut self)
        ensures
            final(self)@ == (CpuState { iff1: old(self).iff2, ..ret_spec(old(self)@) }),
    {
        self.pc = self.pop();
        self.iff1 = self.iff2;
    }

    /// RETI: returns and enables both flip-flops.
    pub fn reti(&mut self)
        ensures
            final(self)@ == (CpuState { iff1: true, iff2: true, ..ret_spec(old(self)@) }),
    {
        self.pc = self.pop();
        self.iff1 = true;
        self.iff2 = true;
    }
}

} // verus!
