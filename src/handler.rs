//! The order in which a handler's parameters are produced, and how the outcome
//! of a call is reported.
//!
//! A handler declares an ordered list of parameters. They are extracted left to
//! right; the first one that fails ends the call with an extractor error, and no
//! parameter to its right is extracted. When all succeed, the handler runs once.
use crate::error::LiRpcError;
use crate::json::Json;
use vstd::prelude::*;

verus! {

#[derive(Debug, Clone, Copy, PartialEq, Eq, Structural)]
pub enum InvocationPhase {
    /// Parameters are being extracted.
    Extracting,
    /// The extraction of this parameter failed.
    Aborted(usize),
    /// The handler ran and its result was reported.
    Finished,
}

/// What the adapter does next.
#[derive(Debug, Clone, Copy, PartialEq, Eq, Structural)]
pub enum InvocationStep {
    /// Extract the parameter at this position.
    Extract(usize),
    /// Run the handler with the extracted values.
    Invoke,
    /// Stop: the extraction of this parameter failed.
    Abort(usize),
    /// Nothing is left to do.
    Done,
}

pub struct InvocationView {
    pub arity: usize,
    pub extracted: usize,
    pub phase: InvocationPhase,
}

pub open spec fn invocation_wf(v: InvocationView) -> bool {
    &&& v.extracted <= v.arity
    &&& (v.phase matches InvocationPhase::Aborted(k) ==> k == v.extracted && k < v.arity)
}

pub open spec fn invocation_start(arity: usize) -> InvocationView {
    InvocationView { arity, extracted: 0, phase: InvocationPhase::Extracting }
}

pub open spec fn step_of(v: InvocationView) -> InvocationStep {
    match v.phase {
        InvocationPhase::Extracting => if v.extracted < v.arity {
            InvocationStep::Extract(v.extracted)
        } else {
            InvocationStep::Invoke
        },
        InvocationPhase::Aborted(k) => InvocationStep::Abort(k),
        InvocationPhase::Finished => InvocationStep::Done,
    }
}

/// The state after the extraction that `v` asks for succeeded (`ok`) or failed.
pub open spec fn after_extraction(v: InvocationView, ok: bool) -> InvocationView {
    if ok {
        InvocationView { arity: v.arity, extracted: (v.extracted + 1) as usize, phase: v.phase }
    } else {
        InvocationView {
            arity: v.arity,
            extracted: v.extracted,
            phase: InvocationPhase::Aborted(v.extracted),
        }
    }
}

pub open spec fn after_handler(v: InvocationView) -> InvocationView {
    InvocationView { arity: v.arity, extracted: v.extracted, phase: InvocationPhase::Finished }
}

pub open spec fn trace_measure(v: InvocationView) -> int {
    2 * (v.arity - v.extracted) + if v.phase is Extracting {
        1int
    } else {
        0int
    }
}

/// The steps the adapter takes from `v` on, when the extraction of parameter `i`
/// succeeds exactly where `outcomes[i]` holds; it ends at the first step that is
/// not an extraction.
pub open spec fn trace(v: InvocationView, outcomes: Seq<bool>) -> Seq<InvocationStep>
    decreases trace_measure(v),
    when v.extracted <= v.arity
{
    if v.phase is Extracting && v.extracted < v.arity {
        seq![InvocationStep::Extract(v.extracted)] + trace(
            after_extraction(v, outcomes[v.extracted as int]),
            outcomes,
        )
    } else {
        seq![step_of(v)]
    }
}

/// Positions `from`, `from + 1`, ..., `to - 1`, each as an extraction step.
pub open spec fn extractions(from: int, to: int) -> Seq<InvocationStep> {
    Seq::new((to - from) as nat, |i: int| InvocationStep::Extract((from + i) as usize))
}

/// The adapter's progress through one call.
pub struct Invocation {
    arity: usize,
    extracted: usize,
    phase: InvocationPhase,
}

impl View for Invocation {
    type V = InvocationView;

    closed spec fn view(&self) -> InvocationView {
        InvocationView { arity: self.arity, extracted: self.extracted, phase: self.phase }
    }
}

impl Invocation {
    /// A call of a handler with `arity` parameters, before any is extracted.
    pub fn new(arity: usize) -> (r: Self)
        ensures
            r@ == invocation_start(arity),
            invocation_wf(r@),
    {
        Invocation { arity, extracted: 0, phase: InvocationPhase::Extracting }
    }

    pub fn next_step(&self) -> (r: InvocationStep)
        ensures
            r == step_of(self@),
    {
        match self.phase {
            InvocationPhase::Extracting => if self.extracted < self.arity {
                InvocationStep::Extract(self.extracted)
            } else {
                InvocationStep::Invoke
            },
            InvocationPhase::Aborted(k) => InvocationStep::Abort(k),
            InvocationPhase::Finished => InvocationStep::Done,
        }
    }

    /// Records how the extraction that `next_step` asked for went. A failure
    /// ends the call with the failed parameter's error payload.
    pub fn record_extraction(&mut self, outcome: Result<(), Json>) -> (r: Result<(), LiRpcError>)
        requires
            invocation_wf(old(self)@),
            step_of(old(self)@) is Extract,
        ensures
            invocation_wf(final(self)@),
            final(self)@ == after_extraction(old(self)@, outcome is Ok),
            match outcome {
                Ok(()) => r is Ok,
                Err(p) => r == Err::<(), LiRpcError>(LiRpcError::ExtractorError(p)),
            },
    {
        match outcome {
            Ok(()) => {
                self.extracted = self.extracted + 1;
                Ok(())
            },
            Err(p) => {
                self.phase = InvocationPhase::Aborted(self.extracted);
                Err(LiRpcError::ExtractorError(p))
            },
        }
    }

    /// Records what the handler returned, once `next_step` has asked to invoke
    /// it. A handler's error becomes a handler error with its payload.
    pub fn record_handler(&mut self, result: Result<(), Json>) -> (r: Result<(), LiRpcError>)
        requires
            invocation_wf(old(self)@),
            step_of(old(self)@) is Invoke,
        ensures
            invocation_wf(final(self)@),
            final(self)@ == after_handler(old(self)@),
            match result {
                Ok(()) => r is Ok,
                Err(p) => r == Err::<(), LiRpcError>(LiRpcError::HandlerError(p)),
            },
    {
        self.phase = InvocationPhase::Finished;
        match result {
            Ok(()) => Ok(()),
            Err(p) => Err(LiRpcError::HandlerError(p)),
        }
    }
}

proof fn lemma_all_succeed_from(v: InvocationView, outcomes: Seq<bool>)
    requires
        invocation_wf(v),
        v.phase is Extracting,
        outcomes.len() == v.arity,
        forall|i: int| v.extracted <= i < v.arity ==> #[trigger] outcomes[i],
    ensures
        trace(v, outcomes) == extractions(v.extracted as int, v.arity as int).push(
            InvocationStep::Invoke,
        ),
    decreases v.arity - v.extracted,
{
    if v.extracted < v.arity {
        let w = after_extraction(v, outcomes[v.extracted as int]);
        lemma_all_succeed_from(w, outcomes);
        assert(trace(v, outcomes) =~= extractions(v.extracted as int, v.arity as int).push(
            InvocationStep::Invoke,
        ));
    } else {
        assert(trace(v, outcomes) =~= extractions(v.extracted as int, v.arity as int).push(
            InvocationStep::Invoke,
        ));
    }
}

/// When every parameter is extracted, the parameters are extracted once each, in
/// declaration order, and then the handler is invoked exactly once.
pub proof fn lemma_all_extracted_then_invoked(arity: usize, outcomes: Seq<bool>)
    requires
        outcomes.len() == arity,
        forall|i: int| 0 <= i < arity ==> #[trigger] outcomes[i],
    ensures
        trace(invocation_start(arity), outcomes) == extractions(0, arity as int).push(
            InvocationStep::Invoke,
        ),
{
    lemma_all_succeed_from(invocation_start(arity), outcomes);
}

proof fn lemma_fails_at_from(v: InvocationView, outcomes: Seq<bool>, k: int)
    requires
        invocation_wf(v),
        v.phase is Extracting,
        v.extracted <= k < v.arity,
        outcomes.len() == v.arity,
        !outcomes[k],
        forall|i: int| v.extracted <= i < k ==> #[trigger] outcomes[i],
    ensures
        trace(v, outcomes) == extractions(v.extracted as int, k + 1).push(
            InvocationStep::Abort(k as usize),
        ),
    decreases v.arity - v.extracted,
{
    let w = after_extraction(v, outcomes[v.extracted as int]);
    if v.extracted < k {
        lemma_fails_at_from(w, outcomes, k);
    } else {
        assert(trace(w, outcomes) == seq![step_of(w)]);
    }
    assert(trace(v, outcomes) =~= extractions(v.extracted as int, k + 1).push(
        InvocationStep::Abort(k as usize),
    ));
}

/// When the extraction of parameter `k` fails, parameters `0..=k` are extracted in
/// order, the call stops there, no parameter after `k` is extracted, and the
/// handler is never invoked.
pub proof fn lemma_failed_extraction_stops(arity: usize, outcomes: Seq<bool>, k: int)
    requires
        outcomes.len() == arity,
        0 <= k < arity,
        !outcomes[k],
        forall|i: int| 0 <= i < k ==> #[trigger] outcomes[i],
    ensures
        trace(invocation_start(arity), outcomes) == extractions(0, k + 1).push(
            InvocationStep::Abort(k as usize),
        ),
{
    lemma_fails_at_from(invocation_start(arity), outcomes, k);
}

} // verus!
