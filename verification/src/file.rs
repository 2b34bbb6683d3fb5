//! What the steps of a save do to the file.

use vstd::prelude::*;
use vstd::utf8::{decode_utf8, encode_utf8, encode_utf8_decode_utf8};

use crate::metrics::{merged, ExecutionMetric};
use crate::save::{
    law_save_success_has_written, law_saves_add_up, lemma_save_steps, save_accepts, save_follows,
    save_run, serialize_place, stored_metrics, SaveEvent, SaveStep,
};

verus! {

/// A file: the bytes that it holds, and the place at which it is read or
/// written next. One that does not exist yet counts as one that holds nothing.
#[verifier::ext_equal]
pub struct FileState {
    pub contents: Seq<u8>,
    pub position: nat,
}

/// What a file holds once `bytes` were written to it at `position`: they take
/// the place of what was there, and zeros fill what lies between the end of
/// the file and a place beyond it.
pub open spec fn overwritten(contents: Seq<u8>, position: nat, bytes: Seq<u8>) -> Seq<u8> {
    let end = position + bytes.len();
    Seq::new(
        if contents.len() < end {
            end
        } else {
            contents.len()
        },
        |i: int|
            if position <= i < end {
                bytes[i - position]
            } else if i < contents.len() {
                contents[i]
            } else {
                0
            },
    )
}

/// Whether a step of a save, of which `event` came, has made the file `after`
/// of the file `before`.
///
/// A step that empties the file or writes to it may have done a part of its
/// work where it failed.
pub open spec fn file_step<E>(
    before: FileState,
    step: SaveStep<E>,
    event: SaveEvent<E>,
    after: FileState,
) -> bool {
    match (step, event) {
        (SaveStep::Truncate(_), SaveEvent::Failed(_)) => true,
        (SaveStep::Write(_), SaveEvent::Failed(_)) => true,
        (_, SaveEvent::Failed(_)) => after.contents == before.contents,
        (SaveStep::Open, _) => {
            &&& after.contents == before.contents
            &&& after.position == 0
        },
        (SaveStep::Read, SaveEvent::Content(content)) => {
            &&& before.position <= before.contents.len()
            &&& encode_utf8(content@) == before.contents.skip(before.position as int)
            &&& after.contents == before.contents
            &&& after.position == before.contents.len()
        },
        (SaveStep::Truncate(_), _) => {
            &&& after.contents == Seq::<u8>::empty()
            &&& after.position == 0
        },
        (SaveStep::Write(text), _) => {
            let bytes = encode_utf8(text@);
            &&& after.contents == overwritten(before.contents, before.position, bytes)
            &&& after.position == before.position + bytes.len()
        },
        _ => after == before,
    }
}

/// Whether `files` is what the file was before each step of a save and in the
/// end.
pub open spec fn file_run<E>(
    files: Seq<FileState>,
    steps: Seq<SaveStep<E>>,
    events: Seq<SaveEvent<E>>,
) -> bool {
    &&& files.len() == steps.len()
    &&& forall|i: int|
        0 <= i < events.len() ==> file_step(files[i], steps[i], #[trigger] events[i], files[i + 1])
}

/// The text that a save has read is what the file held before the save.
pub proof fn law_save_reads_what_file_held<E>(
    own: Map<u8, ExecutionMetric>,
    steps: Seq<SaveStep<E>>,
    events: Seq<SaveEvent<E>>,
    files: Seq<FileState>,
    i: int,
)
    requires
        save_run(own, steps, events),
        file_run(files, steps, events),
        0 <= i < events.len(),
        events[i] is Content,
    ensures
        encode_utf8(events[i]->Content_0@) == files[0].contents,
{
    assert(save_accepts(own, steps[i], events[i]));
    lemma_save_steps(own, steps, events, i);
    assert(save_accepts(own, steps[0], events[0]));
    assert(save_follows(own, steps[0], events[0], steps[1]));
    assert(file_step(files[0], steps[0], events[0], files[1]));
    assert(file_step(files[1], steps[1], events[1], files[2]));
    assert(files[1].contents.skip(0) =~= files[1].contents);
}

/// After a save that succeeds the file holds the text of the merged metrics,
/// all of it and nothing else, whatever it held before.
pub proof fn law_saved_file_holds_text<E>(
    own: Map<u8, ExecutionMetric>,
    steps: Seq<SaveStep<E>>,
    events: Seq<SaveEvent<E>>,
    files: Seq<FileState>,
)
    requires
        save_run(own, steps, events),
        file_run(files, steps, events),
        steps.last() == SaveStep::<E>::Finish(Ok(())),
    ensures
        ({
            let k = serialize_place(events);
            &&& 0 <= k && k + 2 < steps.len()
            &&& steps[k] is Serialize
            &&& steps[k]->Serialize_0@ == merged(stored_metrics(events), own)
            &&& events[k] is Serialized
            &&& steps[k + 2] == SaveStep::<E>::Write(events[k]->Serialized_0)
            &&& files.last().contents == encode_utf8(events[k]->Serialized_0@)
        }),
{
    law_save_success_has_written(own, steps, events);
    let k = serialize_place(events);
    let bytes = encode_utf8(events[k]->Serialized_0@);
    assert(save_accepts(own, steps[k + 1], events[k + 1]));
    assert(file_step(files[k + 1], steps[k + 1], events[k + 1], files[k + 2]));
    assert(file_step(files[k + 2], steps[k + 2], events[k + 2], files[k + 3]));
    assert(overwritten(Seq::empty(), 0, bytes) =~= bytes);
}

/// A file holds what it held until a step empties it or writes to it.
proof fn lemma_contents_are_kept<E>(
    steps: Seq<SaveStep<E>>,
    events: Seq<SaveEvent<E>>,
    files: Seq<FileState>,
    i: int,
)
    requires
        steps.len() == events.len() + 1,
        file_run(files, steps, events),
        0 <= i < steps.len(),
        forall|j: int| 0 <= j < i ==> !(#[trigger] steps[j] is Truncate) && !(steps[j] is Write),
    ensures
        files[i].contents == files[0].contents,
    decreases i,
{
    if i > 0 {
        lemma_contents_are_kept(steps, events, files, i - 1);
        assert(!(steps[i - 1] is Truncate));
        assert(file_step(files[i - 1], steps[i - 1], events[i - 1], files[i]));
    }
}

/// Where a save fails before it comes to empty the file, the file holds what
/// it held before.
pub proof fn law_early_failure_keeps_file<E>(
    own: Map<u8, ExecutionMetric>,
    steps: Seq<SaveStep<E>>,
    events: Seq<SaveEvent<E>>,
    files: Seq<FileState>,
    i: int,
)
    requires
        save_run(own, steps, events),
        file_run(files, steps, events),
        0 <= i < events.len(),
        events[i] is Failed,
        !(steps[i] is Truncate),
        !(steps[i] is Write),
    ensures
        i == events.len() - 1,
        files.last().contents == files[0].contents,
{
    assert(save_accepts(own, steps[i], events[i]));
    assert(save_follows(own, steps[i], events[i], steps[i + 1]));
    lemma_save_steps(own, steps, events, i);
    lemma_save_steps(own, steps, events, i + 1);
    assert forall|j: int| 0 <= j < i + 1 implies !(#[trigger] steps[j] is Truncate) && !(
    steps[j] is Write) by {
        lemma_save_steps(own, steps, events, j);
    }
    lemma_contents_are_kept(steps, events, files, i + 1);
}

/// A save reads the very text that the save before it has written, where
/// nothing else has touched the file in between.
pub proof fn law_next_save_reads_saved_text<E>(
    own1: Map<u8, ExecutionMetric>,
    steps1: Seq<SaveStep<E>>,
    events1: Seq<SaveEvent<E>>,
    files1: Seq<FileState>,
    own2: Map<u8, ExecutionMetric>,
    steps2: Seq<SaveStep<E>>,
    events2: Seq<SaveEvent<E>>,
    files2: Seq<FileState>,
    i: int,
)
    requires
        save_run(own1, steps1, events1),
        file_run(files1, steps1, events1),
        steps1.last() == SaveStep::<E>::Finish(Ok(())),
        save_run(own2, steps2, events2),
        file_run(files2, steps2, events2),
        files2[0].contents == files1.last().contents,
        0 <= i < events2.len(),
        events2[i] is Content,
    ensures
        events2[i]->Content_0@ == events1[serialize_place(events1)]->Serialized_0@,
{
    law_saved_file_holds_text(own1, steps1, events1, files1);
    law_save_reads_what_file_held(own2, steps2, events2, files2, i);
    let read = events2[i]->Content_0@;
    let written = events1[serialize_place(events1)]->Serialized_0@;
    encode_utf8_decode_utf8(read);
    encode_utf8_decode_utf8(written);
    assert(decode_utf8(encode_utf8(read)) == decode_utf8(encode_utf8(written)));
}

/// Two saves that succeed one after the other add the metrics of both to those
/// that the file held at first, where nothing else has touched the file in
/// between, no metrics are written down as an empty text, and the text that
/// the first save wrote is read as the metrics that it was written for.
pub proof fn law_saved_files_add_up<E>(
    own1: Map<u8, ExecutionMetric>,
    steps1: Seq<SaveStep<E>>,
    events1: Seq<SaveEvent<E>>,
    files1: Seq<FileState>,
    own2: Map<u8, ExecutionMetric>,
    steps2: Seq<SaveStep<E>>,
    events2: Seq<SaveEvent<E>>,
    files2: Seq<FileState>,
)
    requires
        save_run(own1, steps1, events1),
        file_run(files1, steps1, events1),
        steps1.last() == SaveStep::<E>::Finish(Ok(())),
        save_run(own2, steps2, events2),
        file_run(files2, steps2, events2),
        steps2.last() == SaveStep::<E>::Finish(Ok(())),
        files2[0].contents == files1.last().contents,
        events1[serialize_place(events1)]->Serialized_0@.len() > 0,
        forall|i: int|
            0 <= i < events2.len() && #[trigger] events2[i] is Parsed
                && steps2[i]->Parse_0@ == events1[serialize_place(events1)]->Serialized_0@
                ==> events2[i]->Parsed_0@ == steps1[serialize_place(events1)]->Serialize_0@,
    ensures
        ({
            let k = serialize_place(events2);
            &&& steps2[k] is Serialize
            &&& steps2[k]->Serialize_0@ == merged(stored_metrics(events1), merged(own1, own2))
            &&& events2[k] is Serialized
            &&& files2.last().contents == encode_utf8(events2[k]->Serialized_0@)
        }),
{
    law_save_success_has_written(own2, steps2, events2);
    law_next_save_reads_saved_text(
        own1,
        steps1,
        events1,
        files1,
        own2,
        steps2,
        events2,
        files2,
        1,
    );
    assert(save_accepts(own2, steps2[0], events2[0]));
    assert(save_follows(own2, steps2[0], events2[0], steps2[1]));
    assert(save_follows(own2, steps2[1], events2[1], steps2[2]));
    assert(events2[2] is Parsed);
    law_saves_add_up(own1, steps1, events1, own2, steps2, events2);
    law_saved_file_holds_text(own2, steps2, events2, files2);
}

/// After a save that succeeds the file holds the bytes of the text that the
/// metrics were written down as, which is told by the events alone.
pub proof fn law_saved_file_holds_last_text<E>(
    own: Map<u8, ExecutionMetric>,
    steps: Seq<SaveStep<E>>,
    events: Seq<SaveEvent<E>>,
    files: Seq<FileState>,
)
    requires
        save_run(own, steps, events),
        file_run(files, steps, events),
        steps.last() == SaveStep::<E>::Finish(Ok(())),
    ensures
        events.len() >= 5,
        events[events.len() - 3] is Serialized,
        files.last().contents == encode_utf8(events[events.len() - 3]->Serialized_0@),
{
    law_saved_file_holds_text(own, steps, events, files);
    law_save_success_has_written(own, steps, events);
}

} // verus!
