//! Whole imports: what holds of the messages of an import, whatever
//! happens to it.

use vstd::prelude::*;
use crate::cd::{is_rippable, CdInfoView, DiscTrack};
use crate::cover_art::{ArtActionView, ArtEvent, ArtSource};
use crate::import::{
    after_art, after_lookup, after_timeout, after_toc, after_track, album_directory, disc_record,
    first_source, import_step, info_line, info_lines, law_import_stays_well_formed, one_more,
    source_step, start_art, start_track, summary_line, ImportEvent, ImportStage,
    ImportStateView,
};
use crate::progress::ImportProgressView;
use crate::release::{law_resolution_keeps_disc, lookup_step, LookupActionView, LookupEvent};
use crate::track::{no_encoding, track_step, TrackActionView, TrackEvent};

verus! {

/// The kinds of message that are counted.
pub enum Kind {
    Total,
    Started,
    Completed,
    Failed,
    Finished,
}

/// Whether a message is of a kind.
pub open spec fn is_kind(message: ImportProgressView, kind: Kind) -> bool {
    match kind {
        Kind::Total => message is TotalTracks,
        Kind::Started => message is TrackStarted,
        Kind::Completed => message is TrackCompleted,
        Kind::Failed => message is TrackError,
        Kind::Finished => message is ImportFinished,
    }
}

/// How many messages are of a kind.
pub open spec fn count(messages: Seq<ImportProgressView>, kind: Kind) -> nat
    decreases messages.len(),
{
    if messages.len() == 0 {
        0
    } else {
        count(messages.drop_last(), kind) + if is_kind(messages.last(), kind) {
            1nat
        } else {
            0nat
        }
    }
}

/// One for a condition that holds, zero for one that does not.
pub open spec fn one_if(condition: bool) -> nat {
    if condition {
        1
    } else {
        0
    }
}

/// An import from its beginning: every state is the step from the one
/// before on the next event, and the messages are those of all steps, in
/// order.
pub struct Run {
    pub state: ImportStateView,
    pub messages: Seq<ImportProgressView>,
}

/// What an import has come to after a sequence of events, where encoding
/// the audio of the event at position `k` comes to `made(k)`.
pub open spec fn run(
    start: ImportStateView,
    events: Seq<ImportEvent>,
    made: spec_fn(int) -> Result<Seq<u8>, Seq<char>>,
) -> Run
    decreases events.len(),
{
    if events.len() == 0 {
        Run { state: start, messages: Seq::empty() }
    } else {
        let before = run(start, events.drop_last(), made);
        let step = import_step(before.state, events.last(), made(events.len() - 1));
        Run { state: step.state, messages: before.messages + step.messages }
    }
}

/// Tracks that were begun when an import stands at a stage.
pub open spec fn tracks_begun(state: ImportStateView) -> nat {
    match state.stage {
        ImportStage::Importing { index } => (index + 1) as nat,
        ImportStage::Finished => state.info->Some_0.tracks.len(),
        _ => 0,
    }
}

/// Tracks that were brought to an end, well or not, when an import stands at
/// a stage.
pub open spec fn tracks_ended(state: ImportStateView) -> nat {
    match state.stage {
        ImportStage::Importing { index } => index as nat,
        ImportStage::Finished => state.info->Some_0.tracks.len(),
        _ => 0,
    }
}

/// Every announcement of the number of tracks names this number.
pub open spec fn totals_name(messages: Seq<ImportProgressView>, tracks: nat) -> bool {
    forall|i: int|
        0 <= i < messages.len() ==> (#[trigger] messages[i] matches ImportProgressView::TotalTracks {
            count,
        } ==> count == tracks)
}

/// What the messages of an import say of the state it has come to: the
/// number of tracks was announced once the disc record was there, and it is
/// the number of tracks of the record; a track was started for every track
/// begun; every track brought to an end got one message, of completion or of
/// failure; as many were completed as the import counts; and the end of the
/// import was announced if it has ended with its tracks gone through, and
/// only then.
pub open spec fn tells(messages: Seq<ImportProgressView>, state: ImportStateView) -> bool {
    &&& count(messages, Kind::Total) == one_if(state.info is Some)
    &&& state.info matches Some(info) ==> totals_name(messages, info.tracks.len())
    &&& count(messages, Kind::Started) == tracks_begun(state)
    &&& count(messages, Kind::Completed) + count(messages, Kind::Failed) == tracks_ended(state)
    &&& count(messages, Kind::Completed) == state.completed
    &&& count(messages, Kind::Finished) == one_if(state.stage == ImportStage::Finished)
}

/// Counting goes along with putting sequences together.
pub proof fn lemma_count_add(a: Seq<ImportProgressView>, b: Seq<ImportProgressView>, kind: Kind)
    ensures
        count(a + b, kind) == count(a, kind) + count(b, kind),
    decreases b.len(),
{
    if b.len() == 0 {
        assert(a + b =~= a);
    } else {
        lemma_count_add(a, b.drop_last(), kind);
        assert((a + b).drop_last() =~= a + b.drop_last());
        assert((a + b).last() == b.last());
    }
}

/// One more message counts for its kind.
pub proof fn lemma_count_push(a: Seq<ImportProgressView>, m: ImportProgressView, kind: Kind)
    ensures
        count(a.push(m), kind) == count(a, kind) + one_if(is_kind(m, kind)),
{
    assert(a.push(m).drop_last() =~= a);
}

/// Untagged lines count for nothing.
pub proof fn lemma_count_info_lines(lines: Seq<Seq<char>>, kind: Kind)
    ensures
        count(info_lines(lines), kind) == 0,
    decreases lines.len(),
{
    if lines.len() > 0 {
        lemma_count_info_lines(lines.drop_last(), kind);
        assert(info_lines(lines).drop_last() =~= info_lines(lines.drop_last()));
    }
}

/// Messages that are all untagged lines count for nothing.
pub proof fn lemma_count_untagged(messages: Seq<ImportProgressView>, kind: Kind)
    requires
        forall|i: int| 0 <= i < messages.len() ==> #[trigger] messages[i] is Info,
    ensures
        count(messages, kind) == 0,
    decreases messages.len(),
{
    if messages.len() > 0 {
        assert forall|i: int| 0 <= i < messages.drop_last().len() implies #[trigger] messages.drop_last()[i] is Info by {
            assert(messages.drop_last()[i] == messages[i]);
        }
        lemma_count_untagged(messages.drop_last(), kind);
        assert(messages.last() == messages[messages.len() - 1]);
    }
}

/// Untagged lines name no number of tracks.
proof fn lemma_info_lines_name_no_total(lines: Seq<Seq<char>>, tracks: nat)
    ensures
        totals_name(info_lines(lines), tracks),
{
}

/// Putting together what names a number gives what names it.
proof fn lemma_totals_add(a: Seq<ImportProgressView>, b: Seq<ImportProgressView>, tracks: nat)
    requires
        totals_name(a, tracks),
        totals_name(b, tracks),
    ensures
        totals_name(a + b, tracks),
{
    assert forall|i: int| 0 <= i < (a + b).len() implies (#[trigger] (a + b)[i] matches ImportProgressView::TotalTracks {
        count,
    } ==> count == tracks) by {
        if i < a.len() {
            assert((a + b)[i] == a[i]);
        } else {
            assert((a + b)[i] == b[i - a.len()]);
        }
    }
}

/// Messages of no counted kind name no number of tracks.
proof fn lemma_uncounted_name_no_total(messages: Seq<ImportProgressView>, tracks: nat)
    requires
        count(messages, Kind::Total) == 0,
    ensures
        totals_name(messages, tracks),
    decreases messages.len(),
{
    if messages.len() > 0 {
        lemma_uncounted_name_no_total(messages.drop_last(), tracks);
        assert forall|i: int| 0 <= i < messages.len() implies (#[trigger] messages[i] matches ImportProgressView::TotalTracks {
            count,
        } ==> count == tracks) by {
            if i < messages.len() - 1 {
                assert(messages[i] == messages.drop_last()[i]);
            }
        }
    }
}

/// The work on a track reports untagged lines only.
proof fn lemma_count_track_step(
    info: CdInfoView,
    index: int,
    album_dir: Seq<char>,
    cover_art: Option<Seq<u8>>,
    done: TrackEvent,
    made: Result<Seq<u8>, Seq<char>>,
    kind: Kind,
)
    ensures
        count(
            track_step(info, info.tracks[index], album_dir, cover_art, done, made).messages,
            kind,
        ) == 0,
{
    let messages = track_step(info, info.tracks[index], album_dir, cover_art, done, made).messages;
    match done {
        TrackEvent::Begin => {},
        TrackEvent::Read(Ok(audio)) => {},
        TrackEvent::Read(Err(reason)) => {},
        TrackEvent::Written(Ok(_)) => {},
        TrackEvent::Written(Err(reason)) => {},
        TrackEvent::Tagged { saved } => {},
    }
    assert forall|i: int| 0 <= i < messages.len() implies #[trigger] messages[i] is Info by {
        assert(messages.len() == 1);
    }
    lemma_count_untagged(messages, kind);
}

/// Turning to a track starts it; turning to the end announces the end.
proof fn lemma_count_start_track(
    state: ImportStateView,
    info: CdInfoView,
    index: int,
    said: Seq<ImportProgressView>,
    kind: Kind,
)
    requires
        0 <= index <= info.tracks.len(),
    ensures
        count(start_track(state, info, index, said).messages, kind) == count(said, kind) + one_if(
            if index < info.tracks.len() {
                kind is Started
            } else {
                kind is Finished
            },
        ),
{
    if index < info.tracks.len() {
        let track = info.tracks[index];
        let started = ImportProgressView::TrackStarted { number: track.number, title: track.title };
        let first = track_step(
            info,
            track,
            album_directory(state.music_dir, info),
            state.cover_art,
            TrackEvent::Begin,
            no_encoding(),
        );
        lemma_count_push(said, started, kind);
        lemma_count_track_step(
            info,
            index,
            album_directory(state.music_dir, info),
            state.cover_art,
            TrackEvent::Begin,
            no_encoding(),
            kind,
        );
        lemma_count_add(said.push(started), first.messages, kind);
    } else {
        let summary = info_line(summary_line(state.completed, info.tracks.len()));
        let finished = ImportProgressView::ImportFinished { artist: info.artist, title: info.title };
        lemma_count_push(said, summary, kind);
        lemma_count_push(said.push(summary), finished, kind);
    }
}

/// Turning to a cover art source reports untagged lines only.
proof fn lemma_count_start_art(
    state: ImportStateView,
    info: CdInfoView,
    source: ArtSource,
    said: Seq<ImportProgressView>,
    kind: Kind,
)
    ensures
        count(start_art(state, info, source, said).messages, kind) == count(said, kind),
{
    let first = source_step(info, source, ArtEvent::Begin);
    lemma_count_info_lines(first.messages, kind);
    lemma_count_add(said, info_lines(first.messages), kind);
}

/// The messages of a step on the table of contents.
proof fn lemma_count_after_toc(state: ImportStateView, disc_id: String, toc: Vec<DiscTrack>, kind: Kind)
    ensures
        count(after_toc(state, disc_id@, toc@).messages, kind) == one_if(
            kind is Total && disc_record(disc_id@, toc@) is Ok,
        ),
        disc_record(disc_id@, toc@) matches Ok(info) ==> totals_name(
            after_toc(state, disc_id@, toc@).messages,
            info.tracks.len(),
        ),
{
    let step = after_toc(state, disc_id@, toc@);
    match disc_record(disc_id@, toc@) {
        Err(error) => {
            lemma_count_untagged(step.messages, kind);
        },
        Ok(info) => {
            assert(toc@.len() == toc.len());
            toc@.lemma_filter_len(|t: DiscTrack| is_rippable(t));
            let first = lookup_step(info, LookupEvent::Begin);
            let a = info_line("Calculated Disc ID: "@ + disc_id@);
            let b = ImportProgressView::TotalTracks { count: info.tracks.len() as usize };
            let c = info_line("Found CD: "@ + info.artist + " - "@ + info.title);
            let head = seq![a, b, c];
            assert(head =~= Seq::<ImportProgressView>::empty().push(a).push(b).push(c));
            lemma_count_push(Seq::<ImportProgressView>::empty(), a, kind);
            lemma_count_push(Seq::<ImportProgressView>::empty().push(a), b, kind);
            lemma_count_push(Seq::<ImportProgressView>::empty().push(a).push(b), c, kind);
            lemma_count_info_lines(first.messages, kind);
            lemma_count_add(head, info_lines(first.messages), kind);
            lemma_info_lines_name_no_total(first.messages, info.tracks.len());
            assert(totals_name(head, info.tracks.len()));
            lemma_totals_add(head, info_lines(first.messages), info.tracks.len());
        },
    }
}

/// The messages of a step of release resolution are untagged lines.
proof fn lemma_count_after_lookup(
    state: ImportStateView,
    info: CdInfoView,
    reply: LookupEvent,
    kind: Kind,
)
    ensures
        count(after_lookup(state, info, reply).messages, kind) == 0,
{
    let step = lookup_step(info, reply);
    lemma_count_info_lines(step.messages, kind);
    match step.action {
        LookupActionView::Finish { info: resolved } => {
            lemma_count_start_art(
                ImportStateView { info: Some(resolved), ..state },
                resolved,
                first_source(resolved),
                info_lines(step.messages),
                kind,
            );
        },
        _ => {},
    }
}

/// The messages of a step of cover art resolution are untagged lines.
proof fn lemma_count_after_art(
    state: ImportStateView,
    info: CdInfoView,
    source: ArtSource,
    reply: ArtEvent,
    kind: Kind,
)
    ensures
        count(after_art(state, info, source, reply).messages, kind) == 0,
{
    let step = source_step(info, source, reply);
    lemma_count_info_lines(step.messages, kind);
    match step.action {
        ArtActionView::Done { image: Some(image) } => {
            lemma_count_push(
                info_lines(step.messages),
                info_line("Cover art fetched successfully"@),
                kind,
            );
        },
        ArtActionView::Done { image: None } => match source {
            ArtSource::Archive => {
                lemma_count_start_art(
                    state,
                    info,
                    ArtSource::AudioDb,
                    info_lines(step.messages),
                    kind,
                );
            },
            ArtSource::AudioDb => {
                lemma_count_push(
                    info_lines(step.messages),
                    info_line("No cover art found - files will be created without artwork"@),
                    kind,
                );
            },
        },
        _ => {},
    }
}

/// The messages of a step on a piece of work on a track: one of completion
/// where the track is imported, one of failure where it is given up, then
/// the start of the next track or the end of the import.
proof fn lemma_count_after_track(
    state: ImportStateView,
    info: CdInfoView,
    index: int,
    done: TrackEvent,
    made: Result<Seq<u8>, Seq<char>>,
    kind: Kind,
)
    requires
        0 <= index < info.tracks.len(),
    ensures
        ({
            let action = track_step(
                info,
                info.tracks[index],
                album_directory(state.music_dir, info),
                state.cover_art,
                done,
                made,
            ).action;
            let ends = action is Completed || action is Failed;
            count(after_track(state, info, index, done, made).messages, kind) == one_if(
                action is Completed && kind is Completed,
            ) + one_if(action is Failed && kind is Failed) + one_if(
                ends && if index + 1 < info.tracks.len() {
                    kind is Started
                } else {
                    kind is Finished
                },
            )
        }),
{
    let track = info.tracks[index];
    let step = track_step(
        info,
        track,
        album_directory(state.music_dir, info),
        state.cover_art,
        done,
        made,
    );
    lemma_count_track_step(
        info,
        index,
        album_directory(state.music_dir, info),
        state.cover_art,
        done,
        made,
        kind,
    );
    match step.action {
        TrackActionView::Completed => {
            let completed = ImportProgressView::TrackCompleted {
                number: track.number,
                title: track.title,
            };
            lemma_count_push(step.messages, completed, kind);
            lemma_count_start_track(
                ImportStateView { completed: one_more(state.completed), ..state },
                info,
                index + 1,
                step.messages.push(completed),
                kind,
            );
        },
        TrackActionView::Failed { reason } => {
            let failed = ImportProgressView::TrackError {
                number: track.number,
                title: track.title,
                reason,
            };
            lemma_count_push(step.messages, failed, kind);
            lemma_count_start_track(state, info, index + 1, step.messages.push(failed), kind);
        },
        _ => {},
    }
}

/// The messages of a step on a track that ran out of time: one of failure,
/// then the start of the next track or the end of the import.
proof fn lemma_count_after_timeout(state: ImportStateView, info: CdInfoView, index: int, kind: Kind)
    requires
        0 <= index < info.tracks.len(),
    ensures
        count(after_timeout(state, info, index).messages, kind) == one_if(kind is Failed) + one_if(
            if index + 1 < info.tracks.len() {
                kind is Started
            } else {
                kind is Finished
            },
        ),
{
    let track = info.tracks[index];
    let failed = ImportProgressView::TrackError {
        number: track.number,
        title: track.title,
        reason: "timeout"@,
    };
    assert(seq![failed] =~= Seq::<ImportProgressView>::empty().push(failed));
    lemma_count_push(Seq::<ImportProgressView>::empty(), failed, kind);
    lemma_count_start_track(state, info, index + 1, seq![failed], kind);
}

/// How a step moves the counts: by what the stage after it has more than the
/// stage before.
pub open spec fn step_tells(
    state: ImportStateView,
    event: ImportEvent,
    made: Result<Seq<u8>, Seq<char>>,
) -> bool {
    let step = import_step(state, event, made);
    &&& count(step.messages, Kind::Total) == one_if(step.state.info is Some) - one_if(
        state.info is Some,
    )
    &&& step.state.info matches Some(info) ==> totals_name(step.messages, info.tracks.len())
    &&& state.info matches Some(before) ==> step.state.info matches Some(after)
        && after.tracks.len() == before.tracks.len()
    &&& count(step.messages, Kind::Started) == tracks_begun(step.state) - tracks_begun(state)
    &&& count(step.messages, Kind::Completed) + count(step.messages, Kind::Failed) == tracks_ended(
        step.state,
    ) - tracks_ended(state)
    &&& count(step.messages, Kind::Completed) == step.state.completed - state.completed
    &&& count(step.messages, Kind::Finished) == one_if(step.state.stage == ImportStage::Finished)
        - one_if(state.stage == ImportStage::Finished)
}

proof fn lemma_counts_of_nothing()
    ensures
        forall|kind: Kind| count(Seq::<ImportProgressView>::empty(), kind) == 0,
{
}

proof fn lemma_counts_of_one_line(text: Seq<char>)
    ensures
        forall|kind: Kind| count(seq![info_line(text)], kind) == 0,
{
    assert forall|kind: Kind| count(seq![info_line(text)], kind) == 0 by {
        lemma_count_untagged(seq![info_line(text)], kind);
    }
}

proof fn lemma_step_on_toc(
    state: ImportStateView,
    disc_id: String,
    toc: Vec<DiscTrack>,
    made: Result<Seq<u8>, Seq<char>>,
)
    requires
        state.well_formed(),
        state.stage == ImportStage::ReadingToc,
    ensures
        step_tells(state, ImportEvent::Toc { disc_id, toc }, made),
{
    lemma_count_after_toc(state, disc_id, toc, Kind::Total);
    lemma_count_after_toc(state, disc_id, toc, Kind::Started);
    lemma_count_after_toc(state, disc_id, toc, Kind::Completed);
    lemma_count_after_toc(state, disc_id, toc, Kind::Failed);
    lemma_count_after_toc(state, disc_id, toc, Kind::Finished);
}

proof fn lemma_step_on_lookup(
    state: ImportStateView,
    info: CdInfoView,
    reply: LookupEvent,
    made: Result<Seq<u8>, Seq<char>>,
)
    requires
        state.well_formed(),
        state.stage == ImportStage::ResolvingRelease,
        state.info == Some(info),
    ensures
        step_tells(state, ImportEvent::Lookup(reply), made),
{
    lemma_count_after_lookup(state, info, reply, Kind::Total);
    lemma_count_after_lookup(state, info, reply, Kind::Started);
    lemma_count_after_lookup(state, info, reply, Kind::Completed);
    lemma_count_after_lookup(state, info, reply, Kind::Failed);
    lemma_count_after_lookup(state, info, reply, Kind::Finished);
    law_resolution_keeps_disc(info, reply);
    let step = after_lookup(state, info, reply);
    lemma_uncounted_name_no_total(step.messages, step.state.info->Some_0.tracks.len());
}

proof fn lemma_step_on_art(
    state: ImportStateView,
    info: CdInfoView,
    source: ArtSource,
    reply: ArtEvent,
    made: Result<Seq<u8>, Seq<char>>,
)
    requires
        state.well_formed(),
        state.stage == (ImportStage::ResolvingCoverArt { source }),
        state.info == Some(info),
    ensures
        step_tells(state, ImportEvent::Art(reply), made),
{
    lemma_count_after_art(state, info, source, reply, Kind::Total);
    lemma_count_after_art(state, info, source, reply, Kind::Started);
    lemma_count_after_art(state, info, source, reply, Kind::Completed);
    lemma_count_after_art(state, info, source, reply, Kind::Failed);
    lemma_count_after_art(state, info, source, reply, Kind::Finished);
    let step = after_art(state, info, source, reply);
    lemma_uncounted_name_no_total(step.messages, info.tracks.len());
}

proof fn lemma_step_on_directory(
    state: ImportStateView,
    info: CdInfoView,
    made: Result<Seq<u8>, Seq<char>>,
)
    requires
        state.well_formed(),
        state.stage == ImportStage::CreatingDirectory,
        state.info == Some(info),
    ensures
        step_tells(state, ImportEvent::DirectoryCreated, made),
{
    let said = seq![info_line("Created directory: "@ + album_directory(state.music_dir, info))];
    lemma_counts_of_one_line("Created directory: "@ + album_directory(state.music_dir, info));
    lemma_count_start_track(state, info, 0, said, Kind::Total);
    lemma_count_start_track(state, info, 0, said, Kind::Started);
    lemma_count_start_track(state, info, 0, said, Kind::Completed);
    lemma_count_start_track(state, info, 0, said, Kind::Failed);
    lemma_count_start_track(state, info, 0, said, Kind::Finished);
    let step = start_track(state, info, 0, said);
    lemma_uncounted_name_no_total(step.messages, info.tracks.len());
}

proof fn lemma_step_on_track(
    state: ImportStateView,
    info: CdInfoView,
    index: usize,
    done: TrackEvent,
    made: Result<Seq<u8>, Seq<char>>,
)
    requires
        state.well_formed(),
        state.stage == (ImportStage::Importing { index }),
        state.info == Some(info),
    ensures
        step_tells(state, ImportEvent::Track(done), made),
{
    lemma_count_after_track(state, info, index as int, done, made, Kind::Total);
    lemma_count_after_track(state, info, index as int, done, made, Kind::Started);
    lemma_count_after_track(state, info, index as int, done, made, Kind::Completed);
    lemma_count_after_track(state, info, index as int, done, made, Kind::Failed);
    lemma_count_after_track(state, info, index as int, done, made, Kind::Finished);
    let step = after_track(state, info, index as int, done, made);
    lemma_uncounted_name_no_total(step.messages, info.tracks.len());
}

proof fn lemma_step_on_timeout(
    state: ImportStateView,
    info: CdInfoView,
    index: usize,
    made: Result<Seq<u8>, Seq<char>>,
)
    requires
        state.well_formed(),
        state.stage == (ImportStage::Importing { index }),
        state.info == Some(info),
    ensures
        step_tells(state, ImportEvent::TrackTimedOut, made),
{
    lemma_count_after_timeout(state, info, index as int, Kind::Total);
    lemma_count_after_timeout(state, info, index as int, Kind::Started);
    lemma_count_after_timeout(state, info, index as int, Kind::Completed);
    lemma_count_after_timeout(state, info, index as int, Kind::Failed);
    lemma_count_after_timeout(state, info, index as int, Kind::Finished);
    let step = after_timeout(state, info, index as int);
    lemma_uncounted_name_no_total(step.messages, info.tracks.len());
}

/// Every step of a well-formed import moves the counts by what the stage
/// after it has more than the stage before.
pub proof fn law_step_tells(
    state: ImportStateView,
    event: ImportEvent,
    made: Result<Seq<u8>, Seq<char>>,
)
    requires
        state.well_formed(),
    ensures
        step_tells(state, event, made),
{
    lemma_counts_of_nothing();
    match (state.stage, event, state.info) {
        (ImportStage::Start, ImportEvent::Begin, _) => {
            lemma_counts_of_one_line("Reading CD from device: "@ + state.device);
        },
        (ImportStage::ReadingToc, ImportEvent::Toc { disc_id, toc }, _) => {
            lemma_step_on_toc(state, disc_id, toc, made);
        },
        (ImportStage::ReadingToc, ImportEvent::TocFailed { reason }, _) => {
            lemma_counts_of_one_line("ERROR: "@ + reason@);
        },
        (ImportStage::ResolvingRelease, ImportEvent::Lookup(reply), Some(info)) => {
            lemma_step_on_lookup(state, info, reply, made);
        },
        (ImportStage::ResolvingCoverArt { source }, ImportEvent::Art(reply), Some(info)) => {
            lemma_step_on_art(state, info, source, reply, made);
        },
        (ImportStage::CreatingDirectory, ImportEvent::DirectoryCreated, Some(info)) => {
            lemma_step_on_directory(state, info, made);
        },
        (ImportStage::CreatingDirectory, ImportEvent::DirectoryFailed { reason }, Some(info)) => {
            lemma_counts_of_one_line("ERROR: "@ + ("Failed to create album directory: "@ + reason@));
            let step = import_step(state, event, made);
            lemma_uncounted_name_no_total(step.messages, info.tracks.len());
        },
        (ImportStage::Importing { index }, ImportEvent::Track(done), Some(info)) => {
            lemma_step_on_track(state, info, index, done, made);
        },
        (ImportStage::Importing { index }, ImportEvent::TrackTimedOut, Some(info)) => {
            lemma_step_on_timeout(state, info, index, made);
        },
        _ => {
            let step = import_step(state, event, made);
            if let Some(info) = state.info {
                lemma_uncounted_name_no_total(step.messages, info.tracks.len());
            }
        },
    }
}

/// Whatever happens to an import that begins afresh, and whatever the
/// encoder makes of each track's audio, its state stays
/// well-formed and its messages tell of the state it has come to. So the
/// number of tracks is announced at most once and is the number of tracks
/// that survived the reading of the table of contents; no track is started
/// twice or left out; every track that was begun and is not the current one
/// got exactly one message, of completion or of failure; and an import that
/// has gone through its tracks has announced its end once, with as many
/// tracks started as announced.
pub proof fn law_messages_tell_the_state(
    start: ImportStateView,
    events: Seq<ImportEvent>,
    made: spec_fn(int) -> Result<Seq<u8>, Seq<char>>,
)
    requires
        start.stage == ImportStage::Start,
        start.well_formed(),
    ensures
        run(start, events, made).state.well_formed(),
        tells(run(start, events, made).messages, run(start, events, made).state),
    decreases events.len(),
{
    lemma_counts_of_nothing();
    if events.len() > 0 {
        let before = run(start, events.drop_last(), made);
        let encoding = made(events.len() - 1);
        law_messages_tell_the_state(start, events.drop_last(), made);
        let step = import_step(before.state, events.last(), encoding);
        law_import_stays_well_formed(before.state, events.last(), encoding);
        law_step_tells(before.state, events.last(), encoding);
        lemma_count_add(before.messages, step.messages, Kind::Total);
        lemma_count_add(before.messages, step.messages, Kind::Started);
        lemma_count_add(before.messages, step.messages, Kind::Completed);
        lemma_count_add(before.messages, step.messages, Kind::Failed);
        lemma_count_add(before.messages, step.messages, Kind::Finished);
        if let Some(info) = step.state.info {
            if before.state.info is None {
                lemma_uncounted_name_no_total(before.messages, info.tracks.len());
            }
            lemma_totals_add(before.messages, step.messages, info.tracks.len());
        }
    }
}

} // verus!
