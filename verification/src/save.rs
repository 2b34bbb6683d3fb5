//! Saving the metrics of opcodes to a file that may hold earlier ones.
//!
//! What is done to the file, and what turns metrics into text and back, is up
//! to the caller. [`OpcodeMetrics::save_step`] says what is to be done next,
//! given what came of the step before; the first step is [`SaveStep::Open`].
//! What each step does to the file is said by [`crate::file::file_step`].

use vstd::prelude::*;

use crate::metrics::{
    law_merge_associates, law_merge_fits_unless_a_field_overflows, law_merge_sums_fields,
    merge_fits, merged, ExecutionMetric, OpcodeMetrics,
};

verus! {

/// A step of a save. `E` is the error that a step can end in.
pub enum SaveStep<E> {
    /// Open the file to read and write it, and make it first if there is none.
    Open,
    /// Read all that the file holds, from its start.
    Read,
    /// Find out which metrics this text stands for.
    Parse(String),
    /// Write these metrics down as a text.
    Serialize(OpcodeMetrics),
    /// Empty the file and go back to its start. The text is to be written to it
    /// afterwards.
    Truncate(String),
    /// Write this text to the file, at the place where it stands.
    Write(String),
    /// There is nothing more to do, and this came of it.
    Finish(Result<(), E>),
}

/// What came of a step.
pub enum SaveEvent<E> {
    /// The file is open and stands at its start.
    Opened,
    /// The file holds this text.
    Content(String),
    /// The text stands for these metrics.
    Parsed(OpcodeMetrics),
    /// The metrics, written down.
    Serialized(String),
    /// The file is empty and stands at its start.
    Truncated,
    /// The text is written.
    Written,
    /// The step could not be done.
    Failed(E),
}

/// Whether an event can come of a step when the metrics `own` are saved. The
/// metrics that were parsed have to leave room for those that are added to
/// them.
pub open spec fn save_accepts<E>(
    own: Map<u8, ExecutionMetric>,
    step: SaveStep<E>,
    event: SaveEvent<E>,
) -> bool {
    match (step, event) {
        (SaveStep::Finish(_), _) => false,
        (_, SaveEvent::Failed(_)) => true,
        (SaveStep::Open, SaveEvent::Opened) => true,
        (SaveStep::Read, SaveEvent::Content(_)) => true,
        (SaveStep::Parse(_), SaveEvent::Parsed(stored)) => merge_fits(stored@, own),
        (SaveStep::Serialize(_), SaveEvent::Serialized(_)) => true,
        (SaveStep::Truncate(_), SaveEvent::Truncated) => true,
        (SaveStep::Write(_), SaveEvent::Written) => true,
        _ => false,
    }
}

/// Whether `next` is the step that follows on `step` and what came of it when
/// the metrics `own` are saved.
pub open spec fn save_follows<E>(
    own: Map<u8, ExecutionMetric>,
    step: SaveStep<E>,
    event: SaveEvent<E>,
    next: SaveStep<E>,
) -> bool {
    match (step, event) {
        (_, SaveEvent::Failed(error)) => next == SaveStep::<E>::Finish(Err(error)),
        (SaveStep::Open, SaveEvent::Opened) => next == SaveStep::<E>::Read,
        (SaveStep::Read, SaveEvent::Content(content)) => if content@.len() == 0 {
            next is Serialize && next->Serialize_0@ == own
        } else {
            next == SaveStep::<E>::Parse(content)
        },
        (SaveStep::Parse(_), SaveEvent::Parsed(stored)) => next is Serialize
            && next->Serialize_0@ == merged(stored@, own),
        (SaveStep::Serialize(_), SaveEvent::Serialized(text)) => next == SaveStep::<E>::Truncate(
            text,
        ),
        (SaveStep::Truncate(text), SaveEvent::Truncated) => next == SaveStep::<E>::Write(text),
        (SaveStep::Write(_), SaveEvent::Written) => next == SaveStep::<E>::Finish(Ok(())),
        _ => false,
    }
}

impl OpcodeMetrics {
    /// The step of a save that follows on `step`, of which `event` came.
    ///
    /// A file that holds nothing counts as one without metrics. Where it holds
    /// some, those that are saved are added to them.
    pub fn save_step<E>(&self, step: SaveStep<E>, event: SaveEvent<E>) -> (r: SaveStep<E>)
        requires
            save_accepts(self@, step, event),
        ensures
            save_follows(self@, step, event, r),
    {
        match (step, event) {
            (_, SaveEvent::Failed(error)) => SaveStep::Finish(Err(error)),
            (SaveStep::Open, _) => SaveStep::Read,
            (SaveStep::Read, SaveEvent::Content(content)) => if content.as_str().is_empty() {
                let mut existing = OpcodeMetrics::new();
                self.merge_into(&mut existing);
                assert(existing@ =~= self@);
                SaveStep::Serialize(existing)
            } else {
                SaveStep::Parse(content)
            },
            (SaveStep::Parse(_), SaveEvent::Parsed(stored)) => {
                let mut existing = stored;
                self.merge_into(&mut existing);
                SaveStep::Serialize(existing)
            },
            (SaveStep::Serialize(_), SaveEvent::Serialized(text)) => SaveStep::Truncate(text),
            (SaveStep::Truncate(text), _) => SaveStep::Write(text),
            (_, _) => SaveStep::Finish(Ok(())),
        }
    }
}

/// Whether `steps` are the steps of a save of the metrics `own`, as far as it
/// has come, and `events` what came of each of them but the last.
pub open spec fn save_run<E>(
    own: Map<u8, ExecutionMetric>,
    steps: Seq<SaveStep<E>>,
    events: Seq<SaveEvent<E>>,
) -> bool {
    &&& steps.len() == events.len() + 1
    &&& steps[0] == SaveStep::<E>::Open
    &&& forall|i: int|
        0 <= i < events.len() ==> save_accepts(own, steps[i], #[trigger] events[i])
            && save_follows(own, steps[i], events[i], steps[i + 1])
}

/// The metrics that a file held before a save: none where it held no text.
pub open spec fn stored_metrics<E>(events: Seq<SaveEvent<E>>) -> Map<u8, ExecutionMetric> {
    if events[1]->Content_0@.len() == 0 {
        Map::empty()
    } else {
        events[2]->Parsed_0@
    }
}

/// The place of the step that writes the metrics down: text that was read has
/// to be parsed first.
pub open spec fn serialize_place<E>(events: Seq<SaveEvent<E>>) -> int {
    if events[1]->Content_0@.len() == 0 {
        2
    } else {
        3
    }
}

/// Where each step of a save can stand, and what has come before it.
pub(crate) proof fn lemma_save_steps<E>(
    own: Map<u8, ExecutionMetric>,
    steps: Seq<SaveStep<E>>,
    events: Seq<SaveEvent<E>>,
    i: int,
)
    requires
        save_run(own, steps, events),
        0 <= i < steps.len(),
    ensures
        steps[i] is Open <==> i == 0,
        steps[i] is Read ==> i == 1,
        steps[i] is Parse ==> i == 2 && events[1] is Content && serialize_place(events) == 3,
        steps[i] is Serialize ==> {
            &&& events[1] is Content
            &&& i == serialize_place(events)
            &&& i == 3 ==> events[2] is Parsed
            &&& steps[i]->Serialize_0@ == merged(stored_metrics(events), own)
        },
        steps[i] is Truncate || steps[i] is Write ==> {
            let k = serialize_place(events);
            &&& events[1] is Content
            &&& k == 3 ==> events[2] is Parsed
            &&& steps[k] is Serialize
            &&& steps[k]->Serialize_0@ == merged(stored_metrics(events), own)
            &&& events[k] is Serialized
            &&& steps[i] == SaveStep::<E>::Truncate(events[k]->Serialized_0) && i == k + 1
                || steps[i] == SaveStep::<E>::Write(events[k]->Serialized_0) && i == k + 2
        },
        steps[i] is Finish ==> i == steps.len() - 1,
        steps[i] == SaveStep::<E>::Finish(Ok(())) ==> {
            let k = serialize_place(events);
            &&& i == k + 3
            &&& events[0] is Opened
            &&& events[1] is Content
            &&& k == 3 ==> events[2] is Parsed
            &&& steps[k] is Serialize
            &&& steps[k]->Serialize_0@ == merged(stored_metrics(events), own)
            &&& events[k] is Serialized
            &&& steps[k + 2] == SaveStep::<E>::Write(events[k]->Serialized_0)
            &&& events[k + 1] is Truncated
            &&& events[k + 2] is Written
        },
    decreases i,
{
    if i > 0 {
        lemma_save_steps(own, steps, events, i - 1);
        assert(save_follows(own, steps[i - 1], events[i - 1], steps[i]));
        assert(merged(Map::empty(), own) =~= own);
    }
    if i < events.len() {
        assert(save_accepts(own, steps[i], events[i]));
    }
}

/// A file is emptied and written to only once the text that takes the place of
/// what it held is at hand; that text stands for the metrics that it held
/// together with those that are saved.
pub proof fn law_save_writes_merged_metrics<E>(
    own: Map<u8, ExecutionMetric>,
    steps: Seq<SaveStep<E>>,
    events: Seq<SaveEvent<E>>,
    i: int,
)
    requires
        save_run(own, steps, events),
        0 <= i < steps.len(),
        steps[i] is Truncate || steps[i] is Write,
    ensures
        ({
            let k = serialize_place(events);
            &&& 0 <= k < i
            &&& events[1] is Content
            &&& k == 3 ==> events[2] is Parsed
            &&& steps[k] is Serialize
            &&& steps[k]->Serialize_0@ == merged(stored_metrics(events), own)
            &&& events[k] is Serialized
            &&& steps[i] == SaveStep::<E>::Truncate(events[k]->Serialized_0)
                || steps[i] == SaveStep::<E>::Write(events[k]->Serialized_0)
        }),
{
    lemma_save_steps(own, steps, events, i);
}

/// The steps of a save that succeeds: it has opened and read the file, has
/// parsed what it held unless that was nothing, has written the merged metrics
/// down, has emptied the file and has then written that text to it.
pub proof fn law_save_success_has_written<E>(
    own: Map<u8, ExecutionMetric>,
    steps: Seq<SaveStep<E>>,
    events: Seq<SaveEvent<E>>,
)
    requires
        save_run(own, steps, events),
        steps.last() == SaveStep::<E>::Finish(Ok(())),
    ensures
        ({
            let k = serialize_place(events);
            &&& events.len() == k + 3
            &&& events[0] is Opened
            &&& events[1] is Content
            &&& k == 3 ==> events[2] is Parsed
            &&& steps[k] is Serialize
            &&& steps[k]->Serialize_0@ == merged(stored_metrics(events), own)
            &&& events[k] is Serialized
            &&& events[k + 1] is Truncated
            &&& steps[k + 2] == SaveStep::<E>::Write(events[k]->Serialized_0)
            &&& events[k + 2] is Written
        }),
{
    lemma_save_steps(own, steps, events, steps.len() - 1);
}

/// Where a save finds in the file what the save before it has written, the
/// metrics of both come to be added to those that were there at first.
pub proof fn law_saves_add_up<E>(
    own1: Map<u8, ExecutionMetric>,
    steps1: Seq<SaveStep<E>>,
    events1: Seq<SaveEvent<E>>,
    own2: Map<u8, ExecutionMetric>,
    steps2: Seq<SaveStep<E>>,
    events2: Seq<SaveEvent<E>>,
)
    requires
        save_run(own1, steps1, events1),
        save_run(own2, steps2, events2),
        steps1.last() == SaveStep::<E>::Finish(Ok(())),
        steps2.last() == SaveStep::<E>::Finish(Ok(())),
        stored_metrics(events2) == steps1[serialize_place(events1)]->Serialize_0@,
    ensures
        steps2[serialize_place(events2)]->Serialize_0@ == merged(
            stored_metrics(events1),
            merged(own1, own2),
        ),
{
    law_save_success_has_written(own1, steps1, events1);
    law_save_success_has_written(own2, steps2, events2);
    lemma_stored_metrics_fit(own1, steps1, events1);
    lemma_stored_metrics_fit(own2, steps2, events2);
    law_merge_associates(stored_metrics(events1), own1, own2);
}

/// What a file held leaves room for the metrics that are saved to it.
proof fn lemma_stored_metrics_fit<E>(
    own: Map<u8, ExecutionMetric>,
    steps: Seq<SaveStep<E>>,
    events: Seq<SaveEvent<E>>,
)
    requires
        save_run(own, steps, events),
        steps.last() == SaveStep::<E>::Finish(Ok(())),
    ensures
        merge_fits(stored_metrics(events), own),
{
    law_save_success_has_written(own, steps, events);
    if serialize_place(events) == 3 {
        assert(save_accepts(own, steps[2], events[2]));
    }
}

/// A step that fails is the last of its save, which ends in the step's error.
pub proof fn law_save_failure_ends_it<E>(
    own: Map<u8, ExecutionMetric>,
    steps: Seq<SaveStep<E>>,
    events: Seq<SaveEvent<E>>,
    i: int,
)
    requires
        save_run(own, steps, events),
        0 <= i < events.len(),
        events[i] is Failed,
    ensures
        i == events.len() - 1,
        steps.last() == SaveStep::<E>::Finish(Err(events[i]->Failed_0)),
{
    assert(save_follows(own, steps[i], events[i], steps[i + 1]));
    lemma_save_steps(own, steps, events, i + 1);
}

/// A save that has come to its end succeeds unless one of its steps failed.
pub proof fn law_save_succeeds_without_failure<E>(
    own: Map<u8, ExecutionMetric>,
    steps: Seq<SaveStep<E>>,
    events: Seq<SaveEvent<E>>,
)
    requires
        save_run(own, steps, events),
        steps.last() is Finish,
        forall|i: int| 0 <= i < events.len() ==> !(#[trigger] events[i] is Failed),
    ensures
        steps.last() == SaveStep::<E>::Finish(Ok(())),
{
    let n = events.len() as int;
    assert(n > 0);
    assert(save_accepts(own, steps[n - 1], events[n - 1]));
    assert(save_follows(own, steps[n - 1], events[n - 1], steps[n]));
}

/// A save comes to its end after six steps at most.
pub proof fn law_save_is_short<E>(
    own: Map<u8, ExecutionMetric>,
    steps: Seq<SaveStep<E>>,
    events: Seq<SaveEvent<E>>,
)
    requires
        save_run(own, steps, events),
    ensures
        events.len() <= 6,
        events.len() == 6 ==> steps.last() is Finish,
{
    let n = events.len() as int;
    lemma_save_steps(own, steps, events, n);
    if n > 0 {
        lemma_save_steps(own, steps, events, n - 1);
        assert(save_accepts(own, steps[n - 1], events[n - 1]));
    }
}

/// A save opens the file, then reads it. Whatever text it reads, it goes on:
/// from no text at all to writing its own metrics down as they are, and from
/// any other text to parsing the whole of that text.
pub proof fn law_save_goes_on_from_any_text<E>(own: OpcodeMetrics, content: String, r: SaveStep<E>)
    ensures
        save_accepts(own@, SaveStep::<E>::Open, SaveEvent::Opened),
        call_ensures(
            OpcodeMetrics::save_step::<E>,
            (&own, SaveStep::Open, SaveEvent::Opened),
            r,
        ) ==> r is Read,
        save_accepts(own@, SaveStep::<E>::Read, SaveEvent::Content(content)),
        call_ensures(
            OpcodeMetrics::save_step::<E>,
            (&own, SaveStep::Read, SaveEvent::Content(content)),
            r,
        ) ==> {
            &&& content@.len() == 0 ==> r is Serialize && r->Serialize_0@ == own@
            &&& content@.len() > 0 ==> r is Parse && r->Parse_0 == content
        },
{
}

/// Metrics that were parsed from a file can be added to if and only if no field
/// of an opcode that both have comes to exceed a `u64`. What is written down
/// then has the opcodes of both, the sum of each field where both have the
/// opcode, and the metric of the one that has it otherwise.
pub proof fn law_save_adds_to_parsed_metrics<E>(
    own: OpcodeMetrics,
    text: String,
    stored: OpcodeMetrics,
    r: SaveStep<E>,
    opcode: u8,
)
    ensures
        save_accepts(own@, SaveStep::<E>::Parse(text), SaveEvent::Parsed(stored)) <==> forall|
            shared: u8,
        |
            #![trigger stored@.contains_key(shared)]
            stored@.contains_key(shared) && own@.contains_key(shared) ==> {
                &&& stored@[shared].count + own@[shared].count <= u64::MAX
                &&& stored@[shared].total_time + own@[shared].total_time <= u64::MAX
                &&& stored@[shared].total_gas + own@[shared].total_gas <= u64::MAX
            },
        save_accepts(own@, SaveStep::<E>::Parse(text), SaveEvent::Parsed(stored)) && call_ensures(
            OpcodeMetrics::save_step::<E>,
            (&own, SaveStep::Parse(text), SaveEvent::Parsed(stored)),
            r,
        ) ==> {
            let written = r->Serialize_0@;
            &&& r is Serialize
            &&& written.contains_key(opcode) <==> stored@.contains_key(opcode)
                || own@.contains_key(opcode)
            &&& stored@.contains_key(opcode) && own@.contains_key(opcode) ==> {
                &&& written[opcode].count == stored@[opcode].count + own@[opcode].count
                &&& written[opcode].total_time == stored@[opcode].total_time
                    + own@[opcode].total_time
                &&& written[opcode].total_gas == stored@[opcode].total_gas + own@[opcode].total_gas
            }
            &&& stored@.contains_key(opcode) && !own@.contains_key(opcode) ==> written[opcode]
                == stored@[opcode]
            &&& own@.contains_key(opcode) && !stored@.contains_key(opcode) ==> written[opcode]
                == own@[opcode]
        },
{
    law_merge_fits_unless_a_field_overflows(stored@, own@);
    law_merge_sums_fields(stored@, own@, opcode);
    if save_accepts(own@, SaveStep::<E>::Parse(text), SaveEvent::Parsed(stored)) {
        assert(stored@.contains_key(opcode) && own@.contains_key(opcode) ==> {
            &&& stored@[opcode].count + own@[opcode].count <= u64::MAX
            &&& stored@[opcode].total_time + own@[opcode].total_time <= u64::MAX
            &&& stored@[opcode].total_gas + own@[opcode].total_gas <= u64::MAX
        });
    }
}

/// Whatever text the metrics were written down as, the file is emptied and that
/// same text is then written to it, after which the save has succeeded.
pub proof fn law_save_writes_the_text_it_was_given<E>(
    own: OpcodeMetrics,
    metrics: OpcodeMetrics,
    text: String,
    r: SaveStep<E>,
)
    ensures
        save_accepts(own@, SaveStep::<E>::Serialize(metrics), SaveEvent::Serialized(text)),
        call_ensures(
            OpcodeMetrics::save_step::<E>,
            (&own, SaveStep::Serialize(metrics), SaveEvent::Serialized(text)),
            r,
        ) ==> r is Truncate && r->Truncate_0 == text,
        save_accepts(own@, SaveStep::<E>::Truncate(text), SaveEvent::Truncated),
        call_ensures(
            OpcodeMetrics::save_step::<E>,
            (&own, SaveStep::Truncate(text), SaveEvent::Truncated),
            r,
        ) ==> r is Write && r->Write_0 == text,
        save_accepts(own@, SaveStep::<E>::Write(text), SaveEvent::Written),
        call_ensures(
            OpcodeMetrics::save_step::<E>,
            (&own, SaveStep::Write(text), SaveEvent::Written),
            r,
        ) ==> r is Finish && r->Finish_0 is Ok,
{
}

/// Any step but the last can fail, and then the save ends in the very error
/// that the step ended in.
pub proof fn law_save_hands_on_any_failure<E>(
    own: OpcodeMetrics,
    step: SaveStep<E>,
    error: E,
    r: SaveStep<E>,
)
    requires
        !(step is Finish),
    ensures
        save_accepts(own@, step, SaveEvent::Failed(error)),
        call_ensures(OpcodeMetrics::save_step::<E>, (&own, step, SaveEvent::Failed(error)), r)
            ==> r is Finish && r->Finish_0 is Err && r->Finish_0->Err_0 == error,
{
}

/// What a save that succeeds has written down, told by its events alone. Where
/// the file held no text, it is the metrics that are saved. Where it held some,
/// it is those that were parsed from it, with the fields of the metrics that are
/// saved added to theirs.
pub proof fn law_successful_save_adds_own_metrics<E>(
    own: Map<u8, ExecutionMetric>,
    steps: Seq<SaveStep<E>>,
    events: Seq<SaveEvent<E>>,
    opcode: u8,
)
    requires
        save_run(own, steps, events),
        steps.last() == SaveStep::<E>::Finish(Ok(())),
    ensures
        ({
            let n = events.len() as int;
            let written = steps[n - 3]->Serialize_0@;
            &&& n == 5 || n == 6
            &&& events[1] is Content
            &&& n == 5 <==> events[1]->Content_0@.len() == 0
            &&& steps[n - 3] is Serialize && events[n - 3] is Serialized
            &&& steps[n - 2] is Truncate && events[n - 2] is Truncated
            &&& steps[n - 1] is Write && events[n - 1] is Written
            &&& steps[n - 1]->Write_0 == events[n - 3]->Serialized_0
            &&& n == 5 ==> written == own
            &&& n == 6 ==> {
                let stored = events[2]->Parsed_0@;
                &&& steps[2] is Parse && steps[2]->Parse_0 == events[1]->Content_0
                &&& events[2] is Parsed
                &&& written.contains_key(opcode) <==> stored.contains_key(opcode)
                    || own.contains_key(opcode)
                &&& stored.contains_key(opcode) && own.contains_key(opcode) ==> {
                    &&& written[opcode].count == stored[opcode].count + own[opcode].count
                    &&& written[opcode].total_time == stored[opcode].total_time
                        + own[opcode].total_time
                    &&& written[opcode].total_gas == stored[opcode].total_gas
                        + own[opcode].total_gas
                }
                &&& stored.contains_key(opcode) && !own.contains_key(opcode) ==> written[opcode]
                    == stored[opcode]
                &&& own.contains_key(opcode) && !stored.contains_key(opcode) ==> written[opcode]
                    == own[opcode]
            }
        }),
{
    law_save_success_has_written(own, steps, events);
    let k = serialize_place(events);
    assert(save_accepts(own, steps[0], events[0]));
    assert(save_follows(own, steps[0], events[0], steps[1]));
    assert(save_follows(own, steps[1], events[1], steps[2]));
    assert(save_follows(own, steps[k], events[k], steps[k + 1]));
    if k == 3 {
        let stored = events[2]->Parsed_0@;
        assert(save_accepts(own, steps[2], events[2]));
        law_merge_fits_unless_a_field_overflows(stored, own);
        law_merge_sums_fields(stored, own, opcode);
        assert(stored.contains_key(opcode) && own.contains_key(opcode) ==> {
            &&& stored[opcode].count + own[opcode].count <= u64::MAX
            &&& stored[opcode].total_time + own[opcode].total_time <= u64::MAX
            &&& stored[opcode].total_gas + own[opcode].total_gas <= u64::MAX
        });
    }
}

} // verus!
