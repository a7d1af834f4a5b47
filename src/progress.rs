use vstd::prelude::*;

verus! {

/// One step of a quantizing transform, as reported to its observer.
#[derive(Clone, Debug, PartialEq, Eq)]
pub enum ProgressEvent {
    HyperparametersLoaded,
    TensorLoading { name: String, dims: Vec<usize>, element_type: String, n_elements: usize },
    TensorQuantizing { name: String },
    TensorQuantized { name: String, original_size: usize, reduced_size: usize },
    TensorSkipped { name: String, size: usize },
    Finished { original_size: usize, reduced_size: usize },
}

/// Why an observed event breaks the order of the protocol.
#[derive(Clone, Copy, Debug, PartialEq, Eq, Structural)]
pub enum ProgressError {
    /// An event came after `Finished`.
    AfterFinished,
    /// Hyperparameters were reported after a tensor event.
    HyperparametersAfterTensor,
}

/// Whether `s` ends with `Finished`.
pub open spec fn finished(s: Seq<ProgressEvent>) -> bool {
    s.len() > 0 && s.last() is Finished
}

/// The order of the protocol: hyperparameter events first, then tensor
/// events, and `Finished` at most once, as the last event.
pub open spec fn well_ordered(s: Seq<ProgressEvent>) -> bool {
    &&& forall|i: int| 0 <= i < s.len() && #[trigger] s[i] is Finished ==> i == s.len() - 1
    &&& forall|i: int, j: int|
        0 <= i < j < s.len() && #[trigger] s[j] is HyperparametersLoaded
            ==> #[trigger] s[i] is HyperparametersLoaded
}

/// Whether event `e` may follow the events `s`.
pub open spec fn may_follow(s: Seq<ProgressEvent>, e: ProgressEvent) -> bool {
    &&& !finished(s)
    &&& e is HyperparametersLoaded ==> forall|i: int|
        0 <= i < s.len() ==> #[trigger] s[i] is HyperparametersLoaded
}

/// An observer of a transform's progress that records each event in order
/// and refuses events that break the protocol.
pub struct ProgressLog {
    events: Vec<ProgressEvent>,
    tensor_seen: bool,
}

impl ProgressLog {
    /// The events recorded so far.
    pub closed spec fn events(&self) -> Seq<ProgressEvent> {
        self.events@
    }

    pub closed spec fn wf(&self) -> bool {
        &&& well_ordered(self.events@)
        &&& self.tensor_seen <==> exists|i: int|
            0 <= i < self.events@.len() && !(#[trigger] self.events@[i] is HyperparametersLoaded)
    }

    pub fn new() -> (r: ProgressLog)
        ensures
            r.wf(),
            r.events() == Seq::<ProgressEvent>::empty(),
    {
        ProgressLog { events: Vec::new(), tensor_seen: false }
    }

    /// Records `e` if it may follow the events recorded so far; otherwise
    /// leaves the log as it is and says why.
    pub fn record(&mut self, e: ProgressEvent) -> (r: Result<(), ProgressError>)
        requires
            old(self).wf(),
        ensures
            final(self).wf(),
            r is Ok <==> may_follow(old(self).events(), e),
            r is Ok ==> final(self).events() == old(self).events().push(e),
            r is Err ==> final(self).events() == old(self).events(),
            r == Err::<(), ProgressError>(ProgressError::AfterFinished) <==> finished(
                old(self).events(),
            ),
    {
        if self.is_finished() {
            return Err(ProgressError::AfterFinished);
        }
        let is_hyper = match e {
            ProgressEvent::HyperparametersLoaded => true,
            _ => false,
        };
        if is_hyper && self.tensor_seen {
            return Err(ProgressError::HyperparametersAfterTensor);
        }
        let ghost before = self.events@;
        self.events.push(e);
        if !is_hyper {
            self.tensor_seen = true;
            assert(!(self.events@[before.len() as int] is HyperparametersLoaded));
        } else {
            assert forall|i: int| 0 <= i < before.len() implies #[trigger] before[i] is HyperparametersLoaded by {
                if !(before[i] is HyperparametersLoaded) {
                    assert(self.tensor_seen);
                }
            }
        }
        assert(self.events@.drop_last() == before);
        Ok(())
    }

    /// Whether `Finished` has been recorded.
    pub fn is_finished(&self) -> (r: bool)
        ensures
            r == finished(self.events()),
    {
        let n = self.events.len();
        if n == 0 {
            false
        } else {
            match self.events[n - 1] {
                ProgressEvent::Finished { .. } => true,
                _ => false,
            }
        }
    }

    /// The number of events recorded.
    pub fn len(&self) -> (r: usize)
        ensures
            r == self.events().len(),
    {
        self.events.len()
    }
}

/// Once an observer has seen `Finished`, it has seen it exactly once, as the
/// last event.
pub proof fn lemma_finished_once_last(log: &ProgressLog)
    requires
        log.wf(),
        finished(log.events()),
    ensures
        log.events().last() is Finished,
        forall|i: int|
            0 <= i < log.events().len() && #[trigger] log.events()[i] is Finished ==> i
                == log.events().len() - 1,
{
}

} // verus!
