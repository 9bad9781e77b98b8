//! The closure invocation protocol: the strictly sequential, two-phase
//! calling convention by which the host allocates guest-sized buffers,
//! invokes the guest's main computation with the argument string, and then
//! drives the opaque effect closure the guest produced.
//!
//! The driver here is the verified decision core: it dictates, step by step,
//! what the host must do next (which size to allocate, when to invoke, what
//! to free in which order), and records each completed step in a ghost
//! trace. The unverified shell performs the foreign calls and the raw heap
//! operations exactly as the driver directs. The laws at the end of the
//! module state the protocol's allocation-balance and ownership-transfer
//! guarantees over that trace.

use vstd::prelude::*;
use crate::effects::{EmitEffect, ErrorStream, emits_output};

verus! {

/// The argument string handed to the guest's main invocation: an owned text
/// value built once from the process argument list. Passing it to
/// `Driver::invoke_main` moves it, so the host can perform no further
/// operation on it after the transfer.
pub struct ArgString {
    text: String,
}

impl View for ArgString {
    type V = Seq<char>;

    closed spec fn view(&self) -> Seq<char> {
        self.text@
    }
}

impl ArgString {
    pub fn new(text: String) -> (r: ArgString)
        ensures
            r@ == text@,
    {
        ArgString { text }
    }

    /// The text itself, for handing its characters to the guest.
    pub fn as_str(&self) -> (r: &str)
        ensures
            r@ == self@,
    {
        self.text.as_str()
    }
}

/// Picks the host's single positional argument out of the process argument
/// list: the entry after the program name. A missing argument is a fatal
/// precondition failure, reported before any guest interaction begins.
pub fn program_argument(args: &Vec<String>) -> (r: Option<ArgString>)
    ensures
        args@.len() >= 2 ==> (r matches Some(a) && a@ == args@[1]@),
        args@.len() < 2 ==> r is None,
{
    if args.len() >= 2 {
        Some(ArgString::new(args[1].clone()))
    } else {
        None
    }
}

/// Converts the byte count a guest size query reported into an allocation
/// size. The guest-supplied value is untrusted: anything negative or beyond
/// the host's address range is rejected.
pub fn size_from_query(raw: i64) -> (r: Option<usize>)
    ensures
        (0 <= raw && raw as int <= usize::MAX as int) ==> r == Some(raw as usize),
        !(0 <= raw && raw as int <= usize::MAX as int) ==> r is None,
{
    if raw < 0 {
        None
    } else {
        let v: u64 = raw as u64;
        if v > (usize::MAX as u64) {
            None
        } else {
            Some(v as usize)
        }
    }
}

/// How far through the protocol a driver has come. The phases are strictly
/// sequential; each driver method advances by exactly one.
#[derive(Clone, Copy, Debug, PartialEq, Eq, Structural)]
pub enum Phase {
    Start,
    MainSized,
    MainBuffered,
    MainInvoked,
    ResultSized,
    ResultBuffered,
    EffectInvoked,
    ResultFreed,
    MainFreed,
    Finished,
}

/// The two host-allocated buffers of one run: the guest's main output buffer
/// (holding the effect closure) and the effect invocation's result buffer.
#[derive(Clone, Copy, Debug, PartialEq, Eq, Structural)]
pub enum BufferId {
    Main,
    Result,
}

/// One completed host step, as recorded in the driver's trace.
#[derive(Clone, Copy, Debug, PartialEq, Eq, Structural)]
pub enum HostOp {
    /// The guest's main size query answered with this byte count.
    QueriedMainSize { size: usize },
    /// A buffer of exactly this many bytes was allocated.
    Allocated { buffer: BufferId, size: usize },
    /// The guest's main entry point was invoked, taking ownership of the
    /// argument string.
    InvokedMain,
    /// The guest's effect-result size query answered with this byte count.
    QueriedResultSize { size: usize },
    /// The guest's effect entry point was invoked.
    InvokedEffect,
    /// A buffer was released.
    Freed { buffer: BufferId },
    /// The run completed with this exit code.
    Exited { code: i32 },
}

/// The number of protocol steps a driver in the given phase has completed.
pub open spec fn phase_index(p: Phase) -> int {
    match p {
        Phase::Start => 0,
        Phase::MainSized => 1,
        Phase::MainBuffered => 2,
        Phase::MainInvoked => 3,
        Phase::ResultSized => 4,
        Phase::ResultBuffered => 5,
        Phase::EffectInvoked => 6,
        Phase::ResultFreed => 7,
        Phase::MainFreed => 8,
        Phase::Finished => 9,
    }
}

/// The operations of one complete run, in protocol order: each size query
/// precedes the allocation it sizes, each allocation precedes the invocation
/// that writes into it, and the result buffer is freed before the main
/// buffer.
pub open spec fn full_trace(main_size: usize, result_size: usize) -> Seq<HostOp> {
    seq![
        HostOp::QueriedMainSize { size: main_size },
        HostOp::Allocated { buffer: BufferId::Main, size: main_size },
        HostOp::InvokedMain,
        HostOp::QueriedResultSize { size: result_size },
        HostOp::Allocated { buffer: BufferId::Result, size: result_size },
        HostOp::InvokedEffect,
        HostOp::Freed { buffer: BufferId::Result },
        HostOp::Freed { buffer: BufferId::Main },
        HostOp::Exited { code: 0 },
    ]
}

/// The verified decision core of the host. Each method corresponds to one
/// protocol step: its precondition admits the step only in the right phase,
/// and its postcondition records the step in the trace.
pub struct Driver {
    phase: Phase,
    main_size: usize,
    result_size: usize,
    trace: Ghost<Seq<HostOp>>,
}

impl Driver {
    pub closed spec fn phase(self) -> Phase {
        self.phase
    }

    /// The byte count the guest's main size query reported.
    pub closed spec fn main_size(self) -> usize {
        self.main_size
    }

    /// The byte count the guest's effect-result size query reported.
    pub closed spec fn result_size(self) -> usize {
        self.result_size
    }

    /// Every host step completed so far, in order.
    pub closed spec fn trace(self) -> Seq<HostOp> {
        self.trace@
    }

    /// A driver is well formed when its trace is exactly the canonical
    /// protocol prefix for its phase.
    pub open spec fn wf(self) -> bool {
        self.trace() == full_trace(self.main_size(), self.result_size()).take(
            phase_index(self.phase()),
        )
    }

    /// The current phase, for the shell and for tests.
    pub fn current_phase(&self) -> (p: Phase)
        ensures
            p == self.phase(),
    {
        self.phase
    }

    /// A driver about to begin a run: nothing queried, nothing allocated.
    pub fn new() -> (d: Driver)
        ensures
            d.wf(),
            d.phase() == Phase::Start,
            d.trace() == Seq::<HostOp>::empty(),
    {
        let d = Driver { phase: Phase::Start, main_size: 0, result_size: 0, trace: Ghost(Seq::empty()) };
        proof {
            assert(full_trace(0, 0).take(0) =~= Seq::<HostOp>::empty());
        }
        d
    }

    /// Records the answer of the guest's main size query. Must happen before
    /// any buffer is allocated.
    pub fn record_main_size(&mut self, size: usize)
        requires
            old(self).wf(),
            old(self).phase() == Phase::Start,
        ensures
            final(self).wf(),
            final(self).phase() == Phase::MainSized,
            final(self).main_size() == size,
            final(self).trace() == old(self).trace().push(HostOp::QueriedMainSize { size }),
    {
        self.main_size = size;
        self.phase = Phase::MainSized;
        proof {
            self.trace@ = self.trace@.push(HostOp::QueriedMainSize { size });
            assert(old(self).trace() =~= Seq::<HostOp>::empty());
            assert(full_trace(size, self.result_size).take(1) =~= Seq::<HostOp>::empty().push(
                HostOp::QueriedMainSize { size },
            ));
        }
    }

    /// Directs the shell to allocate the guest's main output buffer: exactly
    /// as many bytes as the main size query reported.
    pub fn allocate_main_buffer(&mut self) -> (size: usize)
        requires
            old(self).wf(),
            old(self).phase() == Phase::MainSized,
        ensures
            final(self).wf(),
            final(self).phase() == Phase::MainBuffered,
            size == old(self).main_size(),
            final(self).main_size() == old(self).main_size(),
            final(self).trace() == old(self).trace().push(HostOp::Allocated {
                buffer: BufferId::Main,
                size,
            }),
    {
        self.phase = Phase::MainBuffered;
        proof {
            self.trace@ = self.trace@.push(HostOp::Allocated {
                buffer: BufferId::Main,
                size: self.main_size,
            });
            let t = full_trace(self.main_size, self.result_size);
            assert(t.take(2) =~= t.take(1).push(t[1]));
        }
        self.main_size
    }

    /// Records the guest's main invocation. The argument string is moved
    /// into the call: the guest now owns its single reference, and the host
    /// can never touch it again.
    pub fn invoke_main(&mut self, argument: ArgString)
        requires
            old(self).wf(),
            old(self).phase() == Phase::MainBuffered,
        ensures
            final(self).wf(),
            final(self).phase() == Phase::MainInvoked,
            final(self).main_size() == old(self).main_size(),
            final(self).trace() == old(self).trace().push(HostOp::InvokedMain),
    {
        self.phase = Phase::MainInvoked;
        proof {
            self.trace@ = self.trace@.push(HostOp::InvokedMain);
            let t = full_trace(self.main_size, self.result_size);
            assert(t.take(3) =~= t.take(2).push(t[2]));
        }
    }

    /// Records the answer of the guest's effect-result size query. Queried
    /// only after the main invocation returned, and before the result buffer
    /// is allocated: the two sizes of a run are independent.
    pub fn record_result_size(&mut self, size: usize)
        requires
            old(self).wf(),
            old(self).phase() == Phase::MainInvoked,
        ensures
            final(self).wf(),
            final(self).phase() == Phase::ResultSized,
            final(self).main_size() == old(self).main_size(),
            final(self).result_size() == size,
            final(self).trace() == old(self).trace().push(HostOp::QueriedResultSize { size }),
    {
        proof {
            let told = full_trace(self.main_size, self.result_size);
            let tnew = full_trace(self.main_size, size);
            assert(told.take(3) =~= tnew.take(3));
        }
        self.result_size = size;
        self.phase = Phase::ResultSized;
        proof {
            self.trace@ = self.trace@.push(HostOp::QueriedResultSize { size });
            let t = full_trace(self.main_size, size);
            assert(t.take(4) =~= t.take(3).push(t[3]));
        }
    }

    /// Directs the shell to allocate the effect invocation's result buffer:
    /// exactly as many bytes as the effect-result size query reported.
    pub fn allocate_result_buffer(&mut self) -> (size: usize)
        requires
            old(self).wf(),
            old(self).phase() == Phase::ResultSized,
        ensures
            final(self).wf(),
            final(self).phase() == Phase::ResultBuffered,
            size == old(self).result_size(),
            final(self).main_size() == old(self).main_size(),
            final(self).result_size() == old(self).result_size(),
            final(self).trace() == old(self).trace().push(HostOp::Allocated {
                buffer: BufferId::Result,
                size,
            }),
    {
        self.phase = Phase::ResultBuffered;
        proof {
            self.trace@ = self.trace@.push(HostOp::Allocated {
                buffer: BufferId::Result,
                size: self.result_size,
            });
            let t = full_trace(self.main_size, self.result_size);
            assert(t.take(5) =~= t.take(4).push(t[4]));
        }
        self.result_size
    }

    /// Records the effect invocation: the guest's effect entry point ran to
    /// completion, having requested its effects synchronously in between.
    pub fn record_effect_invoked(&mut self)
        requires
            old(self).wf(),
            old(self).phase() == Phase::ResultBuffered,
        ensures
            final(self).wf(),
            final(self).phase() == Phase::EffectInvoked,
            final(self).main_size() == old(self).main_size(),
            final(self).result_size() == old(self).result_size(),
            final(self).trace() == old(self).trace().push(HostOp::InvokedEffect),
    {
        self.phase = Phase::EffectInvoked;
        proof {
            self.trace@ = self.trace@.push(HostOp::InvokedEffect);
            let t = full_trace(self.main_size, self.result_size);
            assert(t.take(6) =~= t.take(5).push(t[5]));
        }
    }

    /// Directs the shell to release the result buffer. It is freed first:
    /// nothing depends on it once the effect invocation returned.
    pub fn free_result_buffer(&mut self)
        requires
            old(self).wf(),
            old(self).phase() == Phase::EffectInvoked,
        ensures
            final(self).wf(),
            final(self).phase() == Phase::ResultFreed,
            final(self).main_size() == old(self).main_size(),
            final(self).result_size() == old(self).result_size(),
            final(self).trace() == old(self).trace().push(HostOp::Freed {
                buffer: BufferId::Result,
            }),
    {
        self.phase = Phase::ResultFreed;
        proof {
            self.trace@ = self.trace@.push(HostOp::Freed { buffer: BufferId::Result });
            let t = full_trace(self.main_size, self.result_size);
            assert(t.take(7) =~= t.take(6).push(t[6]));
        }
    }

    /// Directs the shell to release the main buffer, which had to stay valid
    /// until the effect invocation returned: the effect closure lived in it.
    pub fn free_main_buffer(&mut self)
        requires
            old(self).wf(),
            old(self).phase() == Phase::ResultFreed,
        ensures
            final(self).wf(),
            final(self).phase() == Phase::MainFreed,
            final(self).main_size() == old(self).main_size(),
            final(self).result_size() == old(self).result_size(),
            final(self).trace() == old(self).trace().push(HostOp::Freed {
                buffer: BufferId::Main,
            }),
    {
        self.phase = Phase::MainFreed;
        proof {
            self.trace@ = self.trace@.push(HostOp::Freed { buffer: BufferId::Main });
            let t = full_trace(self.main_size, self.result_size);
            assert(t.take(8) =~= t.take(7).push(t[7]));
        }
    }

    /// Completes the run. The result buffer's content is deliberately not
    /// inspected: a normal completion exits with code 0 regardless.
    pub fn finish(&mut self) -> (code: i32)
        requires
            old(self).wf(),
            old(self).phase() == Phase::MainFreed,
        ensures
            final(self).wf(),
            final(self).phase() == Phase::Finished,
            final(self).main_size() == old(self).main_size(),
            final(self).result_size() == old(self).result_size(),
            final(self).trace() == old(self).trace().push(HostOp::Exited { code: 0 }),
            code == 0,
    {
        self.phase = Phase::Finished;
        proof {
            self.trace@ = self.trace@.push(HostOp::Exited { code: 0 });
            let t = full_trace(self.main_size, self.result_size);
            assert(t.take(9) =~= t.take(8).push(t[8]));
        }
        0
    }
}

/// Whether an operation allocates the given buffer.
pub open spec fn is_alloc_of(op: HostOp, b: BufferId) -> bool {
    match op {
        HostOp::Allocated { buffer, size: _ } => buffer == b,
        _ => false,
    }
}

/// Whether an operation frees the given buffer.
pub open spec fn is_free_of(op: HostOp, b: BufferId) -> bool {
    match op {
        HostOp::Freed { buffer } => buffer == b,
        _ => false,
    }
}

/// Whether an operation touches the argument string. The main invocation is
/// the only host operation that does: it transfers the host's single
/// reference to the guest.
pub open spec fn touches_argument(op: HostOp) -> bool {
    op is InvokedMain
}

/// How many operations of a trace allocate the given buffer.
pub open spec fn alloc_count(t: Seq<HostOp>, b: BufferId) -> int
    decreases t.len(),
{
    if t.len() == 0 {
        0
    } else {
        alloc_count(t.drop_last(), b) + if is_alloc_of(t.last(), b) {
            1int
        } else {
            0int
        }
    }
}

/// How many operations of a trace free the given buffer.
pub open spec fn free_count(t: Seq<HostOp>, b: BufferId) -> int
    decreases t.len(),
{
    if t.len() == 0 {
        0
    } else {
        free_count(t.drop_last(), b) + if is_free_of(t.last(), b) {
            1int
        } else {
            0int
        }
    }
}

/// How many operations of a trace transfer the argument string.
pub open spec fn transfer_count(t: Seq<HostOp>) -> int
    decreases t.len(),
{
    if t.len() == 0 {
        0
    } else {
        transfer_count(t.drop_last()) + if touches_argument(t.last()) {
            1int
        } else {
            0int
        }
    }
}

/// The number of buffers allocated but not yet freed.
pub open spec fn outstanding_buffers(t: Seq<HostOp>) -> int {
    alloc_count(t, BufferId::Main) + alloc_count(t, BufferId::Result) - free_count(
        t,
        BufferId::Main,
    ) - free_count(t, BufferId::Result)
}

/// After a completed run, each of the two guest buffers was allocated
/// exactly once — with exactly the byte count the corresponding size query
/// reported, the query standing immediately before the allocation — and
/// freed exactly once, the result buffer strictly before the main buffer.
/// No allocation is outstanding at the end, and the run exited with code 0.
pub proof fn lemma_allocations_balanced(d: Driver)
    requires
        d.wf(),
        d.phase() == Phase::Finished,
    ensures
        d.trace() == full_trace(d.main_size(), d.result_size()),
        alloc_count(d.trace(), BufferId::Main) == 1,
        alloc_count(d.trace(), BufferId::Result) == 1,
        free_count(d.trace(), BufferId::Main) == 1,
        free_count(d.trace(), BufferId::Result) == 1,
        outstanding_buffers(d.trace()) == 0,
        d.trace()[0] == (HostOp::QueriedMainSize { size: d.main_size() }),
        d.trace()[1] == (HostOp::Allocated { buffer: BufferId::Main, size: d.main_size() }),
        d.trace()[3] == (HostOp::QueriedResultSize { size: d.result_size() }),
        d.trace()[4] == (HostOp::Allocated { buffer: BufferId::Result, size: d.result_size() }),
        d.trace()[6] == (HostOp::Freed { buffer: BufferId::Result }),
        d.trace()[7] == (HostOp::Freed { buffer: BufferId::Main }),
        d.trace()[8] == (HostOp::Exited { code: 0 }),
{
    let t = full_trace(d.main_size(), d.result_size());
    assert(d.trace() =~= t);
    lemma_full_trace_counts(d.main_size(), d.result_size());
}

proof fn lemma_full_trace_counts(ms: usize, rs: usize)
    ensures
        alloc_count(full_trace(ms, rs), BufferId::Main) == 1,
        alloc_count(full_trace(ms, rs), BufferId::Result) == 1,
        free_count(full_trace(ms, rs), BufferId::Main) == 1,
        free_count(full_trace(ms, rs), BufferId::Result) == 1,
        transfer_count(full_trace(ms, rs)) == 1,
{
    let t = full_trace(ms, rs);
    let t0 = t.take(0);
    let t1 = t.take(1);
    let t2 = t.take(2);
    let t3 = t.take(3);
    let t4 = t.take(4);
    let t5 = t.take(5);
    let t6 = t.take(6);
    let t7 = t.take(7);
    let t8 = t.take(8);
    assert(t0 =~= Seq::<HostOp>::empty());
    assert(t1.drop_last() =~= t0 && t1.last() == t[0]);
    assert(t2.drop_last() =~= t1 && t2.last() == t[1]);
    assert(t3.drop_last() =~= t2 && t3.last() == t[2]);
    assert(t4.drop_last() =~= t3 && t4.last() == t[3]);
    assert(t5.drop_last() =~= t4 && t5.last() == t[4]);
    assert(t6.drop_last() =~= t5 && t6.last() == t[5]);
    assert(t7.drop_last() =~= t6 && t7.last() == t[6]);
    assert(t8.drop_last() =~= t7 && t8.last() == t[7]);
    assert(t.drop_last() =~= t8 && t.last() == t[8]);
    assert(alloc_count(t0, BufferId::Main) == 0 && alloc_count(t0, BufferId::Result) == 0
        && free_count(t0, BufferId::Main) == 0 && free_count(t0, BufferId::Result) == 0
        && transfer_count(t0) == 0);
    assert(alloc_count(t1, BufferId::Main) == 0 && alloc_count(t1, BufferId::Result) == 0
        && free_count(t1, BufferId::Main) == 0 && free_count(t1, BufferId::Result) == 0
        && transfer_count(t1) == 0);
    assert(alloc_count(t2, BufferId::Main) == 1 && alloc_count(t2, BufferId::Result) == 0
        && free_count(t2, BufferId::Main) == 0 && free_count(t2, BufferId::Result) == 0
        && transfer_count(t2) == 0);
    assert(alloc_count(t3, BufferId::Main) == 1 && alloc_count(t3, BufferId::Result) == 0
        && free_count(t3, BufferId::Main) == 0 && free_count(t3, BufferId::Result) == 0
        && transfer_count(t3) == 1);
    assert(alloc_count(t4, BufferId::Main) == 1 && alloc_count(t4, BufferId::Result) == 0
        && free_count(t4, BufferId::Main) == 0 && free_count(t4, BufferId::Result) == 0
        && transfer_count(t4) == 1);
    assert(alloc_count(t5, BufferId::Main) == 1 && alloc_count(t5, BufferId::Result) == 1
        && free_count(t5, BufferId::Main) == 0 && free_count(t5, BufferId::Result) == 0
        && transfer_count(t5) == 1);
    assert(alloc_count(t6, BufferId::Main) == 1 && alloc_count(t6, BufferId::Result) == 1
        && free_count(t6, BufferId::Main) == 0 && free_count(t6, BufferId::Result) == 0
        && transfer_count(t6) == 1);
    assert(alloc_count(t7, BufferId::Main) == 1 && alloc_count(t7, BufferId::Result) == 1
        && free_count(t7, BufferId::Main) == 0 && free_count(t7, BufferId::Result) == 1
        && transfer_count(t7) == 1);
    assert(alloc_count(t8, BufferId::Main) == 1 && alloc_count(t8, BufferId::Result) == 1
        && free_count(t8, BufferId::Main) == 1 && free_count(t8, BufferId::Result) == 1
        && transfer_count(t8) == 1);
    assert(alloc_count(t, BufferId::Main) == 1 && alloc_count(t, BufferId::Result) == 1
        && free_count(t, BufferId::Main) == 1 && free_count(t, BufferId::Result) == 1
        && transfer_count(t) == 1);
}

/// In every reachable driver state the argument string has been transferred
/// at most once; from the main invocation on, exactly once. The transfer is
/// the only host operation that ever touches the argument, so once it has
/// happened no later operation — in particular none that could change the
/// argument's reference count — concerns the argument again.
pub proof fn lemma_argument_transferred_once(d: Driver)
    requires
        d.wf(),
    ensures
        transfer_count(d.trace()) <= 1,
        phase_index(d.phase()) >= phase_index(Phase::MainInvoked) ==> transfer_count(d.trace()) == 1,
        forall|i: int|
            0 <= i < d.trace().len() && touches_argument(#[trigger] d.trace()[i]) ==> i == 2,
{
    let k = phase_index(d.phase());
    lemma_transfer_count_prefix(d.main_size(), d.result_size(), k);
    assert forall|i: int|
        0 <= i < d.trace().len() && touches_argument(#[trigger] d.trace()[i]) implies i == 2 by {
        let t = full_trace(d.main_size(), d.result_size());
        assert(d.trace()[i] == t[i]);
        if i != 2 {
            assert(i == 0 || i == 1 || i == 3 || i == 4 || i == 5 || i == 6 || i == 7 || i == 8);
            assert(!touches_argument(t[i]));
        }
    }
}

proof fn lemma_transfer_count_prefix(ms: usize, rs: usize, k: int)
    requires
        0 <= k <= 9,
    ensures
        transfer_count(full_trace(ms, rs).take(k)) == if k >= 3 {
            1int
        } else {
            0int
        },
    decreases k,
{
    let t = full_trace(ms, rs);
    if k == 0 {
        assert(t.take(0) =~= Seq::<HostOp>::empty());
    } else {
        lemma_transfer_count_prefix(ms, rs, k - 1);
        assert(t.take(k).drop_last() =~= t.take(k - 1));
        assert(t.take(k).last() == t[k - 1]);
        assert(k == 1 || k == 2 || k == 3 || k == 4 || k == 5 || k == 6 || k == 7 || k == 8
            || k == 9);
        assert(touches_argument(t[k - 1]) <==> k == 3);
    }
}

/// A guest as the host observes it: the byte counts its two size queries
/// report and the output requests its effect closure makes, in order. What
/// the guest computes is opaque; only these observations cross the boundary.
pub struct GuestModel {
    pub main_size: usize,
    pub result_size: usize,
    pub effects: Vec<EmitEffect>,
}

/// The outcome of one complete hosted run: the process exit code, the bytes
/// that reached the host's error stream, and the completed driver with its
/// trace.
pub struct RunOutcome {
    pub exit_code: i32,
    pub error_output: Vec<u8>,
    pub driver: Driver,
}

/// One complete run of the closure invocation protocol against a guest
/// model: size query, main invocation (taking ownership of the argument),
/// result size query, effect invocation serving the guest's output requests
/// in order, cleanup, exit. The run exits with code 0 and the error stream
/// carries exactly the guest's requested output, in request order.
pub fn run_host(argument: ArgString, guest: &GuestModel) -> (r: RunOutcome)
    ensures
        r.exit_code == 0,
        r.error_output@ == emits_output(guest.effects@),
        r.driver.wf(),
        r.driver.phase() == Phase::Finished,
        r.driver.main_size() == guest.main_size,
        r.driver.result_size() == guest.result_size,
{
    let mut driver = Driver::new();
    let mut err = ErrorStream::new();
    driver.record_main_size(guest.main_size);
    let _main_bytes: usize = driver.allocate_main_buffer();
    driver.invoke_main(argument);
    driver.record_result_size(guest.result_size);
    let _result_bytes: usize = driver.allocate_result_buffer();
    let mut i: usize = 0;
    while i < guest.effects.len()
        invariant
            i <= guest.effects@.len(),
            err@ == emits_output(guest.effects@.take(i as int)),
        decreases guest.effects@.len() - i,
    {
        err.apply(&guest.effects[i]);
        proof {
            let es = guest.effects@;
            assert(es.take(i + 1).drop_last() =~= es.take(i as int));
            assert(es.take(i + 1).last() == es[i as int]);
        }
        i = i + 1;
    }
    proof {
        assert(guest.effects@.take(guest.effects@.len() as int) =~= guest.effects@);
    }
    driver.record_effect_invoked();
    driver.free_result_buffer();
    driver.free_main_buffer();
    let code = driver.finish();
    RunOutcome { exit_code: code, error_output: err.into_bytes(), driver }
}

} // verus!
