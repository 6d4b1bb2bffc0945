//! The fetch-decode-execute loop and the draining of scheduled events.
use vstd::prelude::*;

use super::decoder::{next_prefix, resolved, Prefix};
use super::execute::exec_spec;
use super::instruction::{Op, Operands};
use super::interrupts::interrupt_spec;
use super::tables::Descriptor;
use super::{add16, next_r, pair, rd8, Cpu, CpuState};
use crate::event::{sorted, Event, EventQueue};
use crate::EmulatorError;

verus! {

/// The state after an event is handled: an interrupt request is offered to
/// the interrupt controller; a timer tick has no effect on the processor.
pub open spec fn handle_spec(s: CpuState, e: Event) -> CpuState {
    match e {
        Event::Interrupt => interrupt_spec(s),
        Event::Timer => s,
    }
}

/// The state and queue after every event due at or before cycle `t` has
/// been taken from the front of the queue and handled, in queue order.
pub open spec fn drain(s: CpuState, q: Seq<(Event, u64)>, t: u64) -> (CpuState, Seq<(Event, u64)>)
    decreases q.len(),
{
    if q.len() > 0 && q[0].1 <= t {
        drain(handle_spec(s, q[0].0), q.drop_first(), t)
    } else {
        (s, q)
    }
}

/// After draining, nothing at the front of the queue is due.
pub proof fn lemma_drain_settled(s: CpuState, q: Seq<(Event, u64)>, t: u64)
    ensures
        drain(s, q, t).1.len() == 0 || drain(s, q, t).1[0].1 > t,
    decreases q.len(),
{
    if q.len() > 0 && q[0].1 <= t {
        lemma_drain_settled(handle_spec(s, q[0].0), q.drop_first(), t);
    }
}

/// The refresh register after `k` opcode fetches.
pub open spec fn r_after(r: u8, k: nat) -> u8
    decreases k,
{
    if k == 0 {
        r
    } else {
        next_r(r_after(r, (k - 1) as nat))
    }
}

/// `b` read as a two's complement byte.
pub open spec fn signed(b: u8) -> i8 {
    if b < 128 {
        b as i8
    } else {
        (b - 256) as i8
    }
}

/// A completely fetched instruction: its descriptor, the number of opcode
/// bytes fed to the decoder, the displacement byte of a DD CB / FD CB form,
/// and where its immediate data starts.
pub ghost struct Fetched {
    pub desc: Descriptor,
    pub fed: nat,
    pub indexed_bit_op: bool,
    pub d: u8,
    pub next: u16,
}

/// The outcome of fetching and decoding at `pc`.
pub ghost enum FetchResult {
    /// No table defines the sequence; `byte` is its last byte.
    Bad { byte: u8, fed: nat },
    Good(Fetched),
}

/// The outcome once `b` ends the opcode bytes in prefix state `p`.
pub open spec fn finish(p: Prefix, b: u8, fed: nat, next: u16, indexed: bool, d: u8) -> FetchResult {
    match resolved(p, b) {
        Some(desc) => FetchResult::Good(Fetched { desc, fed, indexed_bit_op: indexed, d, next }),
        None => FetchResult::Bad { byte: b, fed },
    }
}

/// Fetching and decoding the instruction at `pc`: up to two prefix bytes,
/// then, after DD CB or FD CB, a displacement byte before the opcode.
pub open spec fn fetch_decode(mem: Seq<u8>, pc: u16) -> FetchResult {
    let b0 = rd8(mem, pc);
    match next_prefix(Prefix::NoPrefix, b0) {
        None => finish(Prefix::NoPrefix, b0, 1, add16(pc, 1), false, 0),
        Some(after_first) => {
            let b1 = rd8(mem, add16(pc, 1));
            match next_prefix(after_first, b1) {
                None => finish(after_first, b1, 2, add16(pc, 2), false, 0),
                Some(after_second) => finish(after_second, rd8(mem, add16(pc, 3)), 3, add16(pc, 4), true, rd8(mem, add16(pc, 2))),
            }
        },
    }
}

/// The immediate data of a fetched instruction.
pub open spec fn operands_of(mem: Seq<u8>, f: Fetched) -> Operands {
    let b1 = rd8(mem, f.next);
    let b2 = rd8(mem, add16(f.next, 1));
    Operands {
        d: signed(if f.indexed_bit_op { f.d } else { b1 }),
        n: if f.desc.op is LdIdxDN { b2 } else { b1 },
        nn: pair(b2, b1),
    }
}

/// `t + c` modulo 2^64.
pub open spec fn add64(t: u64, c: u32) -> u64 {
    if t + c > u64::MAX {
        (t + c - 0x1_0000_0000_0000_0000) as u64
    } else {
        (t + c) as u64
    }
}

/// What one step leaves behind.
pub ghost struct Outcome {
    pub state: CpuState,
    pub queue: Seq<(Event, u64)>,
    pub clock: u64,
    pub result: Result<u32, EmulatorError>,
}

/// One step from state `s`, queue `q` and clock `t`: due events are handled;
/// a halted processor then idles for four cycles; otherwise the instruction
/// at PC is fetched (each opcode byte counting in R), PC moves past it, it is
/// executed, its cycles are added to the clock and the events due by then
/// are handled. An undefined opcode stops the step with `InvalidOpcode`,
/// leaving PC and the clock as they were.
pub open spec fn step_spec(s: CpuState, q: Seq<(Event, u64)>, t: u64) -> Outcome {
    let (s1, q1) = drain(s, q, t);
    if s1.halted {
        let t2 = add64(t, 4);
        let (s2, q2) = drain(s1, q1, t2);
        Outcome { state: s2, queue: q2, clock: t2, result: Ok(4) }
    } else {
        match fetch_decode(s1.mem, s1.pc) {
            FetchResult::Bad { byte, fed } => Outcome {
                state: CpuState { r: r_after(s1.r, fed), ..s1 },
                queue: q1,
                clock: t,
                result: Err(EmulatorError::InvalidOpcode(byte)),
            },
            FetchResult::Good(f) => {
                let s2 = CpuState { pc: add16(s1.pc, f.desc.length as int), r: r_after(s1.r, f.fed), ..s1 };
                let s3 = exec_spec(s2, f.desc.op, operands_of(s1.mem, f));
                let t2 = add64(t, f.desc.t_states);
                let (s4, q4) = drain(s3, q1, t2);
                Outcome { state: s4, queue: q4, clock: t2, result: Ok(f.desc.t_states) }
            },
        }
    }
}

fn to_signed(b: u8) -> (r: i8)
    ensures
        r == signed(b),
{
    if b < 128 {
        b as i8
    } else {
        (b as i16 - 256) as i8
    }
}

impl Cpu {
    /// Handles one event.
    fn handle_event(&mut self, event: Event)
        ensures
            final(self)@ == handle_spec(old(self)@, event),
            final(self).t_states == old(self).t_states,
            final(self).event_queue == old(self).event_queue,
    {
        match event {
            Event::Interrupt => self.handle_interrupt(),
            Event::Timer => {},
        }
    }

    /// Handles, in order, every queued event due by the current clock.
    pub fn process_events(&mut self)
        ensures
            (final(self)@, final(self).event_queue@) == drain(old(self)@, old(self).event_queue@, old(self).t_states),
            final(self).t_states == old(self).t_states,
            sorted(final(self).event_queue@),
            forall|k: int|
                0 <= k < final(self).event_queue@.len() ==> #[trigger] final(self).event_queue@[k].1
                    > final(self).t_states,
    {
        let t = self.t_states;
        loop
            invariant
                self.t_states == t,
                drain(self@, self.event_queue@, t) == drain(old(self)@, old(self).event_queue@, t),
            ensures
                self.t_states == t,
                (self@, self.event_queue@) == drain(old(self)@, old(self).event_queue@, t),
                sorted(self.event_queue@),
                forall|k: int| 0 <= k < self.event_queue@.len() ==> #[trigger] self.event_queue@[k].1 > t,
            decreases self.event_queue@.len(),
        {
            let due = match self.event_queue.peek() {
                Some(entry) => entry.1 <= t,
                None => false,
            };
            if !due {
                proof {
                    assert(drain(self@, self.event_queue@, t) == (self@, self.event_queue@));
                    assert forall|k: int| 0 <= k < self.event_queue@.len() implies #[trigger] self.event_queue@[k].1
                        > t by {
                        assert(self.event_queue@[0].1 <= self.event_queue@[k].1);
                    }
                }
                break;
            }
            match self.event_queue.pop() {
                Some((event, _)) => self.handle_event(event),
                None => {},
            }
        }
    }

    /// Fetches and decodes the instruction at PC and reads its immediate
    /// data; PC is left alone, R counts each opcode byte.
    #[verifier::rlimit(80)]
    fn fetch_instruction(&mut self) -> (r: crate::Result<(super::instruction::Instruction, Operands)>)
        ensures
            final(self).t_states == old(self).t_states,
            final(self).event_queue == old(self).event_queue,
            match fetch_decode(old(self)@.mem, old(self).pc) {
                FetchResult::Bad { byte, fed } => r == Err::<(super::instruction::Instruction, Operands), EmulatorError>(
                    EmulatorError::InvalidOpcode(byte),
                ) && final(self)@ == (CpuState { r: r_after(old(self).r, fed), ..old(self)@ }),
                FetchResult::Good(f) => r matches Ok((i, o)) && super::tables::shape(Some(i)) == Some(f.desc)
                    && o == operands_of(old(self)@.mem, f) && final(self)@ == (CpuState {
                    r: r_after(old(self).r, f.fed),
                    ..old(self)@
                }),
            },
    {
        let ghost s1 = self@;
        let start = self.pc;
        self.decoder.reset();
        let b0 = self.read_byte(start);
        self.increment_r();
        let mut fed: u16 = 1;
        let mut indexed = false;
        let mut d: u8 = 0;
        let mut byte = b0;
        let ghost initial = next_prefix(Prefix::NoPrefix, b0);
        let ghost mut result: FetchResult = finish(Prefix::NoPrefix, b0, 1, add16(start, 1), false, 0);
        assert(b0 == rd8(s1.mem, s1.pc));
        if self.decoder.handle_prefix(b0) {
            let ghost after_first = self.decoder.current_prefix;
            assert(initial == Some(after_first));
            let b1 = self.read_byte(start.wrapping_add(1));
            assert(b1 == rd8(s1.mem, add16(s1.pc, 1)));
            self.increment_r();
            fed = 2;
            byte = b1;
            if self.decoder.handle_prefix(b1) {
                let ghost after_second = self.decoder.current_prefix;
                assert(next_prefix(after_first, b1) == Some(after_second));
                d = self.read_byte(start.wrapping_add(2));
                byte = self.read_byte(start.wrapping_add(3));
                self.increment_r();
                fed = 3;
                indexed = true;
                proof {
                    result = finish(after_second, byte, 3, add16(start, 4), true, d);
                    assert(fetch_decode(s1.mem, s1.pc) == result);
                }
            } else {
                proof {
                    assert(next_prefix(after_first, b1) is None);
                    result = finish(after_first, byte, 2, add16(start, 2), false, 0);
                    assert(fetch_decode(s1.mem, s1.pc) == result);
                }
            }
        }
        let next = if indexed {
            start.wrapping_add(4)
        } else {
            start.wrapping_add(fed)
        };
        proof {
            reveal_with_fuel(r_after, 4);
            assert(fetch_decode(s1.mem, s1.pc) == result);
            assert(self@ == (CpuState { r: r_after(s1.r, fed as nat), ..s1 }));
            assert(result == finish(self.decoder.current_prefix, byte, fed as nat, next, indexed, d));
        }
        let instruction = match self.decoder.resolve(byte) {
            Ok(i) => i,
            Err(e) => {
                return Err(e);
            },
        };
        let b1 = self.read_byte(next);
        let b2 = self.read_byte(next.wrapping_add(1));
        let operands = Operands {
            d: to_signed(if indexed { d } else { b1 }),
            n: match instruction.op {
                Op::LdIdxDN(_) => b2,
                _ => b1,
            },
            nn: (b2 as u16) * 256 + b1 as u16,
        };
        Ok((instruction, operands))
    }

    /// Runs one instruction (see `step_spec`) and returns the cycles it took.
    pub fn step(&mut self) -> (r: crate::Result<u32>)
        ensures
            ({
                let o = step_spec(old(self)@, old(self).event_queue@, old(self).t_states);
                &&& final(self)@ == o.state
                &&& final(self).event_queue@ == o.queue
                &&& final(self).t_states == o.clock
                &&& r == o.result
            }),
            sorted(final(self).event_queue@),
            forall|k: int|
                0 <= k < final(self).event_queue@.len() ==> #[trigger] final(self).event_queue@[k].1
                    > final(self).t_states,
    {
        let t = self.t_states;
        self.process_events();
        if self.halted {
            self.t_states = t.wrapping_add(4);
            self.process_events();
            return Ok(4);
        }
        let start = self.pc;
        let (instruction, operands) = match self.fetch_instruction() {
            Ok(fetched) => fetched,
            Err(e) => {
                return Err(e);
            },
        };
        proof {
            lemma_drain_settled(old(self)@, old(self).event_queue@, t);
        }
        self.process_events();
        self.pc = start.wrapping_add(instruction.length as u16);
        let mut queue = EventQueue::new();
        core::mem::swap(&mut queue, &mut self.event_queue);
        self.execute(instruction.op, operands);
        core::mem::swap(&mut queue, &mut self.event_queue);
        self.t_states = t.wrapping_add(instruction.t_states as u64);
        self.process_events();
        Ok(instruction.t_states)
    }
}

} // verus!
