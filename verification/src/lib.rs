//! Client requests for a dynamic-instrumentation profiler (callgrind-style).
//!
//! An instrumented program can ask a co-running profiler to start, stop, and
//! toggle collection of performance counters at chosen points in its own
//! code.  The signal is a client-request trap: a short, fixed instruction
//! sequence that is a harmless no-op under normal execution and that an
//! attached profiler recognizes and intercepts.
//!
//! This library builds and proves the protocol side of that signal: which
//! opcode each operation carries (a fixed magic constant plus a small
//! per-action offset), the layout of the six-word argument block handed to
//! the trap, the order in which the composite operations emit their
//! primitive requests, and the exact marker byte pattern the profiler's
//! scanner matches.  Emitting the trap itself takes inline assembly, which
//! stays outside the verified library.

use vstd::prelude::*;

verus! {

/// The magic constant that marks a word as a genuine client-request opcode
/// rather than arbitrary data.  Every opcode this library emits is this
/// value plus a small offset selecting the action.
pub const MAGIC_NUMBER: u64 = 1129578496;

/// The three primitive profiler actions a request can invoke.
#[derive(Clone, Copy, PartialEq, Eq, Structural, Debug)]
pub enum Action {
    /// Flip whether the profiler is currently accumulating counters.
    ToggleCollection,
    /// Enable the profiler's tracking machinery from this point on.
    StartInstrumentation,
    /// Disable the profiler's tracking machinery.
    StopInstrumentation,
}

/// The small offset added to [`MAGIC_NUMBER`] to select an action.
/// These three are the only opcodes this library defines.
pub open spec fn action_offset(a: Action) -> u64 {
    match a {
        Action::ToggleCollection => 2,
        Action::StartInstrumentation => 4,
        Action::StopInstrumentation => 5,
    }
}

/// One client request, built immediately before the trap is invoked: the
/// opcode word, the five auxiliary argument words (unused by the actions
/// this library defines, hence fixed at zero), and the caller's default
/// result word, which the trap returns unchanged when no profiler is
/// attached.
#[derive(Debug, PartialEq, Eq)]
pub struct Request {
    /// The opcode word: [`MAGIC_NUMBER`] plus the action's offset.
    pub opcode: u64,
    /// The five auxiliary argument words.
    pub args: Vec<u64>,
    /// The fallback result, returned when no profiler intercepts the trap.
    pub default: u64,
}

impl Request {
    /// The request is exactly the one that invokes `a`: opcode equal to the
    /// magic constant plus the action's offset, five zero auxiliary words,
    /// and a zero default result.
    pub open spec fn encodes(self, a: Action) -> bool {
        &&& self.opcode == MAGIC_NUMBER + action_offset(a)
        &&& self.args@ == seq![0u64, 0u64, 0u64, 0u64, 0u64]
        &&& self.default == 0
    }

    /// The six-word argument block the trap hands to the profiler:
    /// the opcode first, then the five auxiliary words.
    pub fn block(&self) -> (b: Vec<u64>)
        ensures
            b@ == seq![self.opcode] + self.args@,
    {
        let mut b: Vec<u64> = Vec::new();
        b.push(self.opcode);
        let mut i: usize = 0;
        while i < self.args.len()
            invariant
                i <= self.args@.len(),
                b@ == seq![self.opcode] + self.args@.subrange(0, i as int),
            decreases self.args@.len() - i,
        {
            b.push(self.args[i]);
            i = i + 1;
            proof {
                assert(b@ =~= seq![self.opcode] + self.args@.subrange(0, i as int));
            }
        }
        proof {
            assert(self.args@.subrange(0, self.args@.len() as int) =~= self.args@);
        }
        b
    }
}

/// Build the request for one primitive action: opcode [`MAGIC_NUMBER`] plus
/// the action's offset, all five auxiliary words zero, default result zero.
pub fn request_for(a: Action) -> (r: Request)
    ensures
        r.encodes(a),
{
    let opcode: u64 = match a {
        Action::ToggleCollection => MAGIC_NUMBER + 2,
        Action::StartInstrumentation => MAGIC_NUMBER + 4,
        Action::StopInstrumentation => MAGIC_NUMBER + 5,
    };
    let mut args: Vec<u64> = Vec::new();
    args.push(0);
    args.push(0);
    args.push(0);
    args.push(0);
    args.push(0);
    proof {
        assert(args@ =~= seq![0u64, 0u64, 0u64, 0u64, 0u64]);
    }
    Request { opcode, args, default: 0 }
}

/// The request that flips whether counter accumulation is active.
pub fn toggle_collection() -> (r: Request)
    ensures
        r.encodes(Action::ToggleCollection),
{
    request_for(Action::ToggleCollection)
}

/// The request that enables the profiler's tracking from this point on.
pub fn start_instrumentation() -> (r: Request)
    ensures
        r.encodes(Action::StartInstrumentation),
{
    request_for(Action::StartInstrumentation)
}

/// The request that disables the profiler's tracking.
pub fn stop_instrumentation() -> (r: Request)
    ensures
        r.encodes(Action::StopInstrumentation),
{
    request_for(Action::StopInstrumentation)
}

/// The requests that begin profiling from the call site, in the order they
/// must be emitted: start instrumentation strictly first, then toggle
/// collection.  When the profiler was launched with collection initially
/// disabled, the toggle turns collection on.
pub fn start() -> (plan: Vec<Request>)
    ensures
        plan@.len() == 2,
        plan@[0].encodes(Action::StartInstrumentation),
        plan@[1].encodes(Action::ToggleCollection),
{
    let mut plan: Vec<Request> = Vec::new();
    plan.push(start_instrumentation());
    plan.push(toggle_collection());
    plan
}

/// The requests that end profiling at the call site, in the order they must
/// be emitted: toggle collection strictly first (turning it back off), then
/// stop instrumentation.
pub fn stop() -> (plan: Vec<Request>)
    ensures
        plan@.len() == 2,
        plan@[0].encodes(Action::ToggleCollection),
        plan@[1].encodes(Action::StopInstrumentation),
{
    let mut plan: Vec<Request> = Vec::new();
    plan.push(toggle_collection());
    plan.push(stop_instrumentation());
    plan
}

/// The exact byte pattern of the trap's instruction sequence, which the
/// profiler's scanner searches for in the instruction stream and which must
/// therefore be reproduced bit-for-bit at every call site: four rotate
/// instructions on the signal register (left by 3, 13, 61, and 51 — a full
/// 128 bits in total, so the register is unchanged), immediately followed by
/// the marker instruction, an exchange of a register with itself.
pub open spec fn marker_pattern() -> Seq<u8> {
    seq![
        0x48u8, 0xc1u8, 0xc7u8, 0x03u8,
        0x48u8, 0xc1u8, 0xc7u8, 0x0du8,
        0x48u8, 0xc1u8, 0xc7u8, 0x3du8,
        0x48u8, 0xc1u8, 0xc7u8, 0x33u8,
        0x48u8, 0x87u8, 0xdbu8,
    ]
}

/// The marker byte pattern as an executable value, for comparing against a
/// disassembled call site.
pub fn marker_bytes() -> (bytes: Vec<u8>)
    ensures
        bytes@ == marker_pattern(),
{
    let mut bytes: Vec<u8> = Vec::new();
    bytes.push(0x48);
    bytes.push(0xc1);
    bytes.push(0xc7);
    bytes.push(0x03);
    bytes.push(0x48);
    bytes.push(0xc1);
    bytes.push(0xc7);
    bytes.push(0x0d);
    bytes.push(0x48);
    bytes.push(0xc1);
    bytes.push(0xc7);
    bytes.push(0x3d);
    bytes.push(0x48);
    bytes.push(0xc1);
    bytes.push(0xc7);
    bytes.push(0x33);
    bytes.push(0x48);
    bytes.push(0x87);
    bytes.push(0xdb);
    proof {
        assert(bytes@ =~= marker_pattern());
    }
    bytes
}

/// Every request this library builds carries an opcode equal to the magic
/// constant plus one of the three defined offsets; no other opcode is ever
/// emitted.
pub proof fn lemma_only_defined_opcodes(r: Request, a: Action)
    requires
        r.encodes(a),
    ensures
        r.opcode == MAGIC_NUMBER + 2 || r.opcode == MAGIC_NUMBER + 4 || r.opcode == MAGIC_NUMBER + 5,
{
}

} // verus!
