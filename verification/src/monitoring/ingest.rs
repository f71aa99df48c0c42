//! Ingestion decisions: what is checked before an event is stored, and the
//! tally of a batch ingestion.

use vstd::prelude::*;
use vstd::string::*;
use crate::monitoring::error::{AppError, AppResult, app_error_text};
use crate::monitoring::event::{MonitoringEvent, validation_failure};
use crate::monitoring::dto::{
    BatchItemErrorResponse, IngestEventsBatchRequest, IngestEventsBatchResponse,
};
use crate::monitoring::queries::is_validation_error;

verus! {

/// Checks an event before it is stored: a rule it breaks is a validation
/// error carrying the rule's message.
pub fn check_event_for_ingest(event: &MonitoringEvent) -> (r: AppResult<()>)
    ensures
        match r {
            Ok(_) => validation_failure(*event) is None,
            Err(e) => validation_failure(*event) matches Some(m) && is_validation_error(e, m),
        },
{
    match event.validate() {
        Ok(()) => Ok(()),
        Err(message) => Err(AppError::validation(message)),
    }
}

/// Checks that a batch holds at least one event.
pub fn check_batch_not_empty(request: &IngestEventsBatchRequest) -> (r: AppResult<()>)
    ensures
        match r {
            Ok(_) => request.events.len() > 0,
            Err(e) => request.events.len() == 0 && is_validation_error(
                e,
                "events batch must not be empty"@,
            ),
        },
{
    if request.events.len() == 0 {
        return Err(AppError::validation(String::from_str("events batch must not be empty")));
    }
    Ok(())
}

/// What became of one event of a batch.
#[derive(Clone, Debug)]
pub enum BatchItemOutcome {
    /// The event was stored.
    Accepted,
    /// The event could not be turned into its raw payload; the text says why.
    SerializationFailed(String),
    /// Storing the event failed with this error.
    Rejected(AppError),
}

/// The message recorded for a refused event.
pub open spec fn outcome_message(outcome: BatchItemOutcome) -> Seq<char> {
    match outcome {
        BatchItemOutcome::Accepted => Seq::empty(),
        BatchItemOutcome::SerializationFailed(detail) => "failed to serialize event to raw payload: "@
            + detail@,
        BatchItemOutcome::Rejected(e) => app_error_text(e),
    }
}

/// The errors recorded so far, as (index, message) pairs.
pub open spec fn error_entries(errors: Seq<BatchItemErrorResponse>) -> Seq<(int, Seq<char>)> {
    errors.map_values(|e: BatchItemErrorResponse| (e.index as int, e.message@))
}

/// The indices are strictly increasing and below `bound`.
pub open spec fn indices_ascending_below(errors: Seq<(int, Seq<char>)>, bound: int) -> bool {
    &&& forall|i: int, j: int| 0 <= i < j < errors.len() ==> #[trigger] errors[i].0 < #[trigger] errors[j].0
    &&& forall|i: int| 0 <= i < errors.len() ==> 0 <= #[trigger] errors[i].0 < bound
}

/// The tally of a batch ingestion in progress: events are recorded in order,
/// each either accepted or reported with its index.
pub struct BatchIngestion {
    processed: usize,
    accepted_count: usize,
    errors: Vec<BatchItemErrorResponse>,
}

/// (events recorded, events accepted, errors reported)
pub struct BatchIngestionView {
    pub processed: nat,
    pub accepted: nat,
    pub errors: Seq<(int, Seq<char>)>,
}

impl View for BatchIngestion {
    type V = BatchIngestionView;

    closed spec fn view(&self) -> BatchIngestionView {
        BatchIngestionView {
            processed: self.processed as nat,
            accepted: self.accepted_count as nat,
            errors: error_entries(self.errors@),
        }
    }
}

impl BatchIngestion {
    /// The tally is consistent: accepted and reported events add up to the
    /// events recorded, and reports carry ascending indices below that count.
    #[verifier::type_invariant]
    spec fn wf(self) -> bool {
        &&& self.accepted_count + self.errors.len() == self.processed
        &&& indices_ascending_below(error_entries(self.errors@), self.processed as int)
    }

    /// A tally with nothing recorded.
    pub fn new() -> (r: BatchIngestion)
        ensures
            r@.processed == 0,
            r@.accepted == 0,
            r@.errors.len() == 0,
    {
        BatchIngestion { processed: 0, accepted_count: 0, errors: Vec::new() }
    }

    /// The number of events recorded so far.
    pub fn processed(&self) -> (r: usize)
        ensures
            r == self@.processed,
    {
        self.processed
    }

    /// Records the outcome for the next event of the batch.
    pub fn record(&mut self, outcome: BatchItemOutcome)
        requires
            old(self)@.processed < usize::MAX,
        ensures
            final(self)@.processed == old(self)@.processed + 1,
            outcome is Accepted ==> final(self)@.accepted == old(self)@.accepted + 1
                && final(self)@.errors == old(self)@.errors,
            !(outcome is Accepted) ==> final(self)@.accepted == old(self)@.accepted
                && final(self)@.errors == old(self)@.errors.push(
                (old(self)@.processed as int, outcome_message(outcome)),
            ),
    {
        let mut before = BatchIngestion::new();
        std::mem::swap(&mut before, self);
        proof {
            use_type_invariant(&before);
        }
        let BatchIngestion { processed: index, accepted_count, mut errors } = before;
        let message = match outcome {
            BatchItemOutcome::Accepted => {
                *self = BatchIngestion {
                    processed: index + 1,
                    accepted_count: accepted_count + 1,
                    errors,
                };
                return;
            },
            BatchItemOutcome::SerializationFailed(detail) => {
                let mut m = String::from_str("failed to serialize event to raw payload: ");
                m.append(detail.as_str());
                m
            },
            BatchItemOutcome::Rejected(e) => e.to_string(),
        };
        let ghost entries = error_entries(errors@);
        errors.push(BatchItemErrorResponse { index, message });
        assert(error_entries(errors@) =~= entries.push((index as int, message@)));
        *self = BatchIngestion { processed: index + 1, accepted_count, errors };
    }

    /// The response for the batch: accepted and rejected counts that add up to
    /// the events recorded, and the reports in order.
    pub fn finish(self) -> (r: IngestEventsBatchResponse)
        ensures
            r.accepted_count == self@.accepted,
            r.rejected_count == self@.errors.len(),
            r.accepted_count + r.rejected_count == self@.processed,
            error_entries(r.errors@) == self@.errors,
            indices_ascending_below(error_entries(r.errors@), self@.processed as int),
    {
        proof {
            use_type_invariant(&self);
        }
        let BatchIngestion { processed: _, accepted_count, errors } = self;
        let rejected_count = errors.len();
        IngestEventsBatchResponse { accepted_count, rejected_count, errors }
    }
}

} // verus!
