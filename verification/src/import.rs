//! The import of a disc from beginning to end: table of contents, release,
//! cover art, directory, then track after track. The work itself (drive,
//! network, files) is the caller's; the order of it, what is reported, and
//! what a failure means are decided here.

use vstd::prelude::*;
use vstd::string::*;
use crate::cd::{
    is_rippable, read_cd_from_device, surviving_entries, surviving_tracks, total_seconds,
    unknown_album, unknown_artist, CdError, CdInfo, CdInfoView, DiscTrack,
};
use crate::cover_art::{
    archive_step, audiodb_step, bytes_view, fetch_audiodb_cover_art, fetch_musicbrainz_cover_art,
    ArtAction, ArtActionView, ArtEvent, ArtSource, ArtStep, ArtStepView,
};
use crate::encode::track_files;
use crate::progress::{
    lemma_messages_view_push, messages_view, ImportProgressMessage, ImportProgressView,
};
use crate::release::{
    law_resolution_keeps_disc, lookup_cd_info, lookup_step, LookupAction, LookupActionView,
    LookupEvent,
};
use crate::text::{decimal, lines_view, push_decimal};
use crate::encode::is_encoding;
use crate::track::{
    brings_audio, lemma_no_encoding, no_encoding, step_with_encoding, track_step, TrackAction,
    TrackActionView, TrackEvent,
};
use crate::utils::{sanitize_filename, sanitized};

verus! {

/// Seconds a track may take from its first read to its tags.
pub const TRACK_TIMEOUT_SECONDS: u64 = 300;

/// Where an import stands.
#[derive(Clone, Copy, Debug, PartialEq, Eq, Structural)]
pub enum ImportStage {
    Start,
    ReadingToc,
    ResolvingRelease,
    ResolvingCoverArt { source: ArtSource },
    CreatingDirectory,
    /// The track at this position of the disc record is being imported.
    Importing { index: usize },
    Finished,
    /// The import was given up before any track.
    Aborted,
}

/// An import: where it stands and what it has gathered.
#[derive(Debug)]
pub struct ImportState {
    stage: ImportStage,
    device: String,
    music_dir: String,
    info: Option<CdInfo>,
    cover_art: Option<Vec<u8>>,
    completed: usize,
}

/// What a `ImportState` holds, as mathematical values.
pub struct ImportStateView {
    pub stage: ImportStage,
    pub device: Seq<char>,
    pub music_dir: Seq<char>,
    pub info: Option<CdInfoView>,
    pub cover_art: Option<Seq<u8>>,
    pub completed: usize,
}

impl View for ImportState {
    type V = ImportStateView;

    closed spec fn view(&self) -> ImportStateView {
        ImportStateView {
            stage: self.stage,
            device: self.device@,
            music_dir: self.music_dir@,
            info: match self.info {
                Some(info) => Some(info@),
                None => None,
            },
            cover_art: bytes_view(self.cover_art),
            completed: self.completed,
        }
    }
}

/// What an import is told: that it begins, or what a piece of work came to.
#[derive(Debug)]
pub enum ImportEvent {
    Begin,
    /// The drive was identified and its table of contents read.
    Toc { disc_id: String, toc: Vec<DiscTrack> },
    /// The drive could not be identified or read.
    TocFailed { reason: String },
    /// A request of release resolution came back.
    Lookup(LookupEvent),
    /// A request of a cover art source came back.
    Art(ArtEvent),
    /// The album directory was created.
    DirectoryCreated,
    /// The album directory could not be created.
    DirectoryFailed { reason: String },
    /// A piece of work on the current track came to an end.
    Track(TrackEvent),
    /// The current track ran out of time; whatever it was doing was
    /// cancelled.
    TrackTimedOut,
}

/// What an import asks for next.
#[derive(Clone, Debug)]
pub enum ImportAction {
    /// Identify the drive, read its table of contents and report back with
    /// `ImportEvent::Toc` or `ImportEvent::TocFailed`.
    ReadToc { device: String },
    /// Carry out a request of release resolution and report back with
    /// `ImportEvent::Lookup`.
    Lookup(LookupAction),
    /// Carry out a request of a cover art source and report back with
    /// `ImportEvent::Art`.
    Art(ArtAction),
    /// Create the directory with all its parents and report back with
    /// `ImportEvent::DirectoryCreated` or `ImportEvent::DirectoryFailed`.
    CreateDirectory { path: String },
    /// Carry out a piece of work on the track at `index` and report back with
    /// `ImportEvent::Track`, or with `ImportEvent::TrackTimedOut` once the
    /// track as a whole has taken `timeout_seconds`.
    Track { index: usize, timeout_seconds: u64, action: TrackAction },
    /// The import is over; leave with this code.
    Exit { code: u8 },
    /// The event does not belong to the stage; nothing has changed.
    Ignore,
}

/// What a `ImportAction` holds, as mathematical values.
pub enum ImportActionView {
    ReadToc { device: Seq<char> },
    Lookup(LookupActionView),
    Art(ArtActionView),
    CreateDirectory { path: Seq<char> },
    Track { index: usize, timeout_seconds: u64, action: TrackActionView },
    Exit { code: u8 },
    Ignore,
}

impl View for ImportAction {
    type V = ImportActionView;

    open spec fn view(&self) -> ImportActionView {
        match self {
            ImportAction::ReadToc { device } => ImportActionView::ReadToc { device: device@ },
            ImportAction::Lookup(action) => ImportActionView::Lookup(action@),
            ImportAction::Art(action) => ImportActionView::Art(action@),
            ImportAction::CreateDirectory { path } => ImportActionView::CreateDirectory {
                path: path@,
            },
            ImportAction::Track { index, timeout_seconds, action } => ImportActionView::Track {
                index: *index,
                timeout_seconds: *timeout_seconds,
                action: action@,
            },
            ImportAction::Exit { code } => ImportActionView::Exit { code: *code },
            ImportAction::Ignore => ImportActionView::Ignore,
        }
    }
}

/// One step of an import: the import after it, what to report, and what to
/// do next.
#[derive(Debug)]
pub struct ImportStep {
    pub state: ImportState,
    pub messages: Vec<ImportProgressMessage>,
    pub action: ImportAction,
}

/// What a `ImportStep` holds, as mathematical values.
pub struct ImportStepView {
    pub state: ImportStateView,
    pub messages: Seq<ImportProgressView>,
    pub action: ImportActionView,
}

impl View for ImportStep {
    type V = ImportStepView;

    open spec fn view(&self) -> ImportStepView {
        ImportStepView {
            state: self.state@,
            messages: messages_view(self.messages@),
            action: self.action@,
        }
    }
}

/// An untagged line.
pub open spec fn info_line(text: Seq<char>) -> ImportProgressView {
    ImportProgressView::Info { text }
}

/// Lines as untagged messages, in order.
pub open spec fn info_lines(lines: Seq<Seq<char>>) -> Seq<ImportProgressView> {
    lines.map_values(|text: Seq<char>| info_line(text))
}

/// The directory of an album below the music directory:
/// `Artists/<artist>/<album>`, both names made safe for the file system.
pub open spec fn album_directory(music_dir: Seq<char>, info: CdInfoView) -> Seq<char> {
    music_dir + "/Artists/"@ + sanitized(info.artist) + "/"@ + sanitized(info.title)
}

/// The line that closes an import.
pub open spec fn summary_line(completed: usize, total: nat) -> Seq<char> {
    "Imported "@ + decimal(completed as nat) + " of "@ + decimal(total) + " tracks"@
}

impl ImportStateView {
    /// The same import at another stage.
    pub open spec fn at(self, stage: ImportStage) -> ImportStateView {
        ImportStateView { stage, ..self }
    }

    /// The disc record is there from the moment the table of contents was
    /// read, it is consistent and has a track; while tracks are imported, the
    /// current one is one of them, and no more are counted as done than were
    /// gone through.
    pub open spec fn well_formed(self) -> bool {
        match self.stage {
            ImportStage::Start | ImportStage::ReadingToc => self.info is None && self.completed
                == 0,
            ImportStage::Aborted => self.completed == 0,
            ImportStage::ResolvingRelease | ImportStage::ResolvingCoverArt { .. }
            | ImportStage::CreatingDirectory => self.completed == 0 && self.has_disc(),
            ImportStage::Importing { index } => self.has_disc() && index
                < self.info->Some_0.tracks.len() && self.completed <= index,
            ImportStage::Finished => self.has_disc() && self.completed
                <= self.info->Some_0.tracks.len(),
        }
    }

    /// There is a disc record, it is consistent, its file names are derived
    /// from number and title, and it has at least one track and no more
    /// than can be counted.
    pub open spec fn has_disc(self) -> bool {
        self.info matches Some(info) && info.is_consistent() && info.has_derived_names() && 0
            < info.tracks.len() <= usize::MAX
    }
}

/// The step in which nothing happens.
pub open spec fn ignored(state: ImportStateView) -> ImportStepView {
    ImportStepView { state, messages: Seq::empty(), action: ImportActionView::Ignore }
}

/// The step that gives the import up before any track.
pub open spec fn aborted(state: ImportStateView, reason: Seq<char>) -> ImportStepView {
    ImportStepView {
        state: state.at(ImportStage::Aborted),
        messages: seq![info_line("ERROR: "@ + reason)],
        action: ImportActionView::Exit { code: 1 },
    }
}

/// The first step of a cover art source.
pub open spec fn source_step(info: CdInfoView, source: ArtSource, event: ArtEvent) -> ArtStepView {
    match source {
        ArtSource::Archive => archive_step(
            match info.release_id {
                Some(id) => id,
                None => Seq::empty(),
            },
            event,
        ),
        ArtSource::AudioDb => audiodb_step(info.artist, info.title, event),
    }
}

/// The source that cover art resolution begins with: the archive where the
/// disc was matched to a release, else the album database.
pub open spec fn first_source(info: CdInfoView) -> ArtSource {
    if info.release_id is Some {
        ArtSource::Archive
    } else {
        ArtSource::AudioDb
    }
}

/// Turning to a cover art source.
pub open spec fn start_art(
    state: ImportStateView,
    info: CdInfoView,
    source: ArtSource,
    said: Seq<ImportProgressView>,
) -> ImportStepView {
    let first = source_step(info, source, ArtEvent::Begin);
    ImportStepView {
        state: state.at(ImportStage::ResolvingCoverArt { source }),
        messages: said + info_lines(first.messages),
        action: ImportActionView::Art(first.action),
    }
}

/// Turning to the album directory.
pub open spec fn start_directory(
    state: ImportStateView,
    info: CdInfoView,
    said: Seq<ImportProgressView>,
) -> ImportStepView {
    ImportStepView {
        state: state.at(ImportStage::CreatingDirectory),
        messages: said,
        action: ImportActionView::CreateDirectory {
            path: album_directory(state.music_dir, info),
        },
    }
}

/// The end of the import.
pub open spec fn finish(
    state: ImportStateView,
    info: CdInfoView,
    said: Seq<ImportProgressView>,
) -> ImportStepView {
    ImportStepView {
        state: state.at(ImportStage::Finished),
        messages: said.push(info_line(summary_line(state.completed, info.tracks.len()))).push(
            ImportProgressView::ImportFinished { artist: info.artist, title: info.title },
        ),
        action: ImportActionView::Exit { code: 0 },
    }
}

/// Turning to the track at `index`, or to the end where there is none.
pub open spec fn start_track(
    state: ImportStateView,
    info: CdInfoView,
    index: int,
    said: Seq<ImportProgressView>,
) -> ImportStepView {
    if 0 <= index < info.tracks.len() {
        let track = info.tracks[index];
        let first = track_step(
            info,
            track,
            album_directory(state.music_dir, info),
            state.cover_art,
            TrackEvent::Begin,
            no_encoding(),
        );
        ImportStepView {
            state: state.at(ImportStage::Importing { index: index as usize }),
            messages: said.push(
                ImportProgressView::TrackStarted { number: track.number, title: track.title },
            ) + first.messages,
            action: ImportActionView::Track {
                index: index as usize,
                timeout_seconds: 300,
                action: first.action,
            },
        }
    } else {
        finish(state, info, said)
    }
}

/// The disc record that a table of contents gives, where it gives one.
pub open spec fn disc_record(disc_id: Seq<char>, toc: Seq<DiscTrack>) -> Result<CdInfoView, CdError> {
    if surviving_tracks(toc).len() == 0 {
        Err(CdError::NoAudioTracks)
    } else {
        Ok(
            CdInfoView {
                disc_id,
                title: unknown_album(),
                artist: unknown_artist(),
                tracks: surviving_tracks(toc),
                total_duration: total_seconds(surviving_tracks(toc)),
                release_id: None,
            },
        )
    }
}

/// After the table of contents: the disc record, the number of tracks, and
/// the first request of release resolution.
pub open spec fn after_toc(
    state: ImportStateView,
    disc_id: Seq<char>,
    toc: Seq<DiscTrack>,
) -> ImportStepView {
    match disc_record(disc_id, toc) {
        Err(error) => aborted(state, error.text()),
        Ok(info) => {
            let first = lookup_step(info, LookupEvent::Begin);
            ImportStepView {
                state: ImportStateView {
                    stage: ImportStage::ResolvingRelease,
                    info: Some(info),
                    ..state
                },
                messages: seq![
                    info_line("Calculated Disc ID: "@ + disc_id),
                    ImportProgressView::TotalTracks { count: info.tracks.len() as usize },
                    info_line("Found CD: "@ + info.artist + " - "@ + info.title),
                ] + info_lines(first.messages),
                action: ImportActionView::Lookup(first.action),
            }
        },
    }
}

/// After a reply to release resolution: the next request, or, with the disc
/// record settled, the first request for cover art.
pub open spec fn after_lookup(
    state: ImportStateView,
    info: CdInfoView,
    event: LookupEvent,
) -> ImportStepView {
    let step = lookup_step(info, event);
    match step.action {
        LookupActionView::Finish { info: resolved } => start_art(
            ImportStateView { info: Some(resolved), ..state },
            resolved,
            first_source(resolved),
            info_lines(step.messages),
        ),
        _ => ImportStepView {
            state,
            messages: info_lines(step.messages),
            action: ImportActionView::Lookup(step.action),
        },
    }
}

/// After a reply to a cover art source: the next request; with an image,
/// the album directory; without one, the next source, or the album directory
/// where there is no further source.
pub open spec fn after_art(
    state: ImportStateView,
    info: CdInfoView,
    source: ArtSource,
    event: ArtEvent,
) -> ImportStepView {
    let step = source_step(info, source, event);
    match step.action {
        ArtActionView::Done { image: Some(image) } => start_directory(
            ImportStateView { cover_art: Some(image), ..state },
            info,
            info_lines(step.messages).push(info_line("Cover art fetched successfully"@)),
        ),
        ArtActionView::Done { image: None } => match source {
            ArtSource::Archive => start_art(
                state,
                info,
                ArtSource::AudioDb,
                info_lines(step.messages),
            ),
            ArtSource::AudioDb => start_directory(
                ImportStateView { cover_art: None, ..state },
                info,
                info_lines(step.messages).push(
                    info_line("No cover art found - files will be created without artwork"@),
                ),
            ),
        },
        _ => ImportStepView {
            state,
            messages: info_lines(step.messages),
            action: ImportActionView::Art(step.action),
        },
    }
}

/// One more track done, as far as it can be counted.
pub open spec fn one_more(completed: usize) -> usize {
    if completed < usize::MAX {
        (completed + 1) as usize
    } else {
        completed
    }
}

/// After a piece of work on the current track: the next piece; or, with the
/// track imported or given up, the next track. Encoding audio that was read
/// comes to `made`.
pub open spec fn after_track(
    state: ImportStateView,
    info: CdInfoView,
    index: int,
    event: TrackEvent,
    made: Result<Seq<u8>, Seq<char>>,
) -> ImportStepView {
    let track = info.tracks[index];
    let step = track_step(
        info,
        track,
        album_directory(state.music_dir, info),
        state.cover_art,
        event,
        made,
    );
    match step.action {
        TrackActionView::Completed => start_track(
            ImportStateView { completed: one_more(state.completed), ..state },
            info,
            index + 1,
            step.messages.push(
                ImportProgressView::TrackCompleted { number: track.number, title: track.title },
            ),
        ),
        TrackActionView::Failed { reason } => start_track(
            state,
            info,
            index + 1,
            step.messages.push(
                ImportProgressView::TrackError {
                    number: track.number,
                    title: track.title,
                    reason,
                },
            ),
        ),
        _ => ImportStepView {
            state,
            messages: step.messages,
            action: ImportActionView::Track {
                index: index as usize,
                timeout_seconds: 300,
                action: step.action,
            },
        },
    }
}

/// After the current track ran out of time: one error for it, then the
/// next track.
pub open spec fn after_timeout(state: ImportStateView, info: CdInfoView, index: int) -> ImportStepView {
    let track = info.tracks[index];
    start_track(
        state,
        info,
        index + 1,
        seq![
            ImportProgressView::TrackError {
                number: track.number,
                title: track.title,
                reason: "timeout"@,
            },
        ],
    )
}

/// The step that an import takes on an event, where encoding audio that
/// was read comes to `made`.
///
/// `Start → ReadingToc → ResolvingRelease → ResolvingCoverArt →
/// CreatingDirectory → Importing (track by track) → Finished`. A table of
/// contents that cannot be read, or that leaves no track, and a directory
/// that cannot be created, give the import up. Nothing else does: a release
/// that is not found leaves the placeholder names, cover art that is not
/// found leaves the files without image, and a track that fails or runs out
/// of time is reported and followed by the next. An event that does not
/// belong to the stage changes nothing. Only the step on a track's audio
/// depends on `made`.
pub open spec fn import_step(
    state: ImportStateView,
    event: ImportEvent,
    made: Result<Seq<u8>, Seq<char>>,
) -> ImportStepView {
    match (state.stage, event, state.info) {
        (ImportStage::Start, ImportEvent::Begin, _) => ImportStepView {
            state: state.at(ImportStage::ReadingToc),
            messages: seq![info_line("Reading CD from device: "@ + state.device)],
            action: ImportActionView::ReadToc { device: state.device },
        },
        (ImportStage::ReadingToc, ImportEvent::Toc { disc_id, toc }, _) => after_toc(
            state,
            disc_id@,
            toc@,
        ),
        (ImportStage::ReadingToc, ImportEvent::TocFailed { reason }, _) => aborted(state, reason@),
        (ImportStage::ResolvingRelease, ImportEvent::Lookup(event), Some(info)) => after_lookup(
            state,
            info,
            event,
        ),
        (ImportStage::ResolvingCoverArt { source }, ImportEvent::Art(event), Some(info)) =>
            after_art(state, info, source, event),
        (ImportStage::CreatingDirectory, ImportEvent::DirectoryCreated, Some(info)) => start_track(
            state,
            info,
            0,
            seq![info_line("Created directory: "@ + album_directory(state.music_dir, info))],
        ),
        (ImportStage::CreatingDirectory, ImportEvent::DirectoryFailed { reason }, Some(info)) =>
            aborted(state, "Failed to create album directory: "@ + reason@),
        (ImportStage::Importing { index }, ImportEvent::Track(event), Some(info)) => if index
            < info.tracks.len() {
            after_track(state, info, index as int, event, made)
        } else {
            ignored(state)
        },
        (ImportStage::Importing { index }, ImportEvent::TrackTimedOut, Some(info)) => if index
            < info.tracks.len() {
            after_timeout(state, info, index as int)
        } else {
            ignored(state)
        },
        _ => ignored(state),
    }
}

/// Concatenating lists of messages concatenates their views.
pub proof fn lemma_messages_view_add(a: Seq<ImportProgressMessage>, b: Seq<ImportProgressMessage>)
    ensures
        messages_view(a + b) == messages_view(a) + messages_view(b),
{
    assert(messages_view(a + b) =~= messages_view(a) + messages_view(b));
}

fn no_messages() -> (r: Vec<ImportProgressMessage>)
    ensures
        messages_view(r@) == Seq::<ImportProgressView>::empty(),
{
    let messages: Vec<ImportProgressMessage> = Vec::new();
    assert(messages_view(messages@) =~= Seq::<ImportProgressView>::empty());
    messages
}

fn one_message(m: ImportProgressMessage) -> (r: Vec<ImportProgressMessage>)
    ensures
        messages_view(r@) == seq![m@],
{
    let mut messages: Vec<ImportProgressMessage> = Vec::new();
    messages.push(m);
    assert(messages_view(messages@) =~= seq![m@]);
    messages
}

fn with_message(said: Vec<ImportProgressMessage>, m: ImportProgressMessage) -> (r: Vec<
    ImportProgressMessage,
>)
    ensures
        messages_view(r@) == messages_view(said@).push(m@),
{
    let mut messages = said;
    proof {
        lemma_messages_view_push(messages@, m);
    }
    messages.push(m);
    messages
}

fn with_messages(said: Vec<ImportProgressMessage>, more: Vec<ImportProgressMessage>) -> (r: Vec<
    ImportProgressMessage,
>)
    ensures
        messages_view(r@) == messages_view(said@) + messages_view(more@),
{
    let mut messages = said;
    let mut more = more;
    proof {
        lemma_messages_view_add(messages@, more@);
    }
    messages.append(&mut more);
    messages
}

fn as_info(lines: &Vec<String>) -> (r: Vec<ImportProgressMessage>)
    ensures
        messages_view(r@) == info_lines(lines_view(lines@)),
{
    let mut messages: Vec<ImportProgressMessage> = Vec::new();
    let mut i: usize = 0;
    while i < lines.len()
        invariant
            i <= lines.len(),
            messages@.len() == i,
            forall|k: int| 0 <= k < i ==> (#[trigger] messages@[k])@ == info_line(lines@[k]@),
        decreases lines.len() - i,
    {
        messages.push(ImportProgressMessage::Info { text: lines[i].clone() });
        i += 1;
    }
    assert(messages_view(messages@) =~= info_lines(lines_view(lines@)));
    messages
}

fn info_message(prefix: &str, text: &str) -> (m: ImportProgressMessage)
    ensures
        m@ == info_line(prefix@ + text@),
{
    let mut line = String::from_str(prefix);
    line.append(text);
    ImportProgressMessage::Info { text: line }
}

fn album_dir(music_dir: &str, info: &CdInfo) -> (path: String)
    ensures
        path@ == album_directory(music_dir@, info@),
{
    let mut path = String::from_str(music_dir);
    path.append("/Artists/");
    let artist = sanitize_filename(info.artist.as_str());
    path.append(artist.as_str());
    path.append("/");
    let album = sanitize_filename(info.title.as_str());
    path.append(album.as_str());
    path
}

fn source_begin(info: &CdInfo, source: ArtSource, event: ArtEvent) -> (step: ArtStep)
    ensures
        step@ == source_step(info@, source, event),
{
    match source {
        ArtSource::Archive => match &info.release_id {
            Some(id) => fetch_musicbrainz_cover_art(id.as_str(), event),
            None => {
                let none = String::new();
                fetch_musicbrainz_cover_art(none.as_str(), event)
            },
        },
        ArtSource::AudioDb => fetch_audiodb_cover_art(
            info.artist.as_str(),
            info.title.as_str(),
            event,
        ),
    }
}

impl ImportState {
    /// An import that has not begun.
    pub fn new(device: &str, music_dir: &str) -> (state: ImportState)
        ensures
            state@ == (ImportStateView {
                stage: ImportStage::Start,
                device: device@,
                music_dir: music_dir@,
                info: None,
                cover_art: None,
                completed: 0,
            }),
            state@.well_formed(),
    {
        ImportState {
            stage: ImportStage::Start,
            device: String::from_str(device),
            music_dir: String::from_str(music_dir),
            info: None,
            cover_art: None,
            completed: 0,
        }
    }

    /// Where the import stands.
    pub fn stage(&self) -> (stage: ImportStage)
        ensures
            stage == self@.stage,
    {
        self.stage
    }

    /// The disc record, once the table of contents was read.
    pub fn info(&self) -> (info: Option<&CdInfo>)
        ensures
            match info {
                Some(info) => self@.info == Some(info@),
                None => self@.info is None,
            },
    {
        self.info.as_ref()
    }

    /// The cover art, once it was found.
    pub fn cover_art(&self) -> (image: Option<&Vec<u8>>)
        ensures
            match image {
                Some(image) => self@.cover_art == Some(image@),
                None => self@.cover_art is None,
            },
    {
        self.cover_art.as_ref()
    }

    /// Tracks imported so far.
    pub fn completed(&self) -> (count: usize)
        ensures
            count == self@.completed,
    {
        self.completed
    }

    fn staged(self, stage: ImportStage) -> (state: ImportState)
        ensures
            state@ == self@.at(stage),
    {
        ImportState {
            stage,
            device: self.device,
            music_dir: self.music_dir,
            info: self.info,
            cover_art: self.cover_art,
            completed: self.completed,
        }
    }

    fn ignore(self) -> (step: ImportStep)
        ensures
            step@ == ignored(self@),
    {
        ImportStep { state: self, messages: no_messages(), action: ImportAction::Ignore }
    }

    fn abort(self, prefix: &str, reason: &str) -> (step: ImportStep)
        ensures
            step@ == aborted(self@, prefix@ + reason@),
    {
        let mut line = String::from_str("ERROR: ");
        line.append(prefix);
        line.append(reason);
        assert(line@ =~= "ERROR: "@ + (prefix@ + reason@));
        ImportStep {
            state: self.staged(ImportStage::Aborted),
            messages: one_message(ImportProgressMessage::Info { text: line }),
            action: ImportAction::Exit { code: 1 },
        }
    }

    fn begin_art(self, source: ArtSource, said: Vec<ImportProgressMessage>) -> (step: ImportStep)
        requires
            self@.info is Some,
        ensures
            step@ == start_art(self@, self@.info->Some_0, source, messages_view(said@)),
    {
        match &self.info {
            Some(info) => {
                let first = source_begin(info, source, ArtEvent::Begin);
                let messages = with_messages(said, as_info(&first.messages));
                ImportStep {
                    state: self.staged(ImportStage::ResolvingCoverArt { source }),
                    messages,
                    action: ImportAction::Art(first.action),
                }
            },
            None => self.ignore(),
        }
    }

    fn begin_directory(self, said: Vec<ImportProgressMessage>) -> (step: ImportStep)
        requires
            self@.info is Some,
        ensures
            step@ == start_directory(self@, self@.info->Some_0, messages_view(said@)),
    {
        match &self.info {
            Some(info) => {
                let path = album_dir(self.music_dir.as_str(), info);
                ImportStep {
                    state: self.staged(ImportStage::CreatingDirectory),
                    messages: said,
                    action: ImportAction::CreateDirectory { path },
                }
            },
            None => self.ignore(),
        }
    }

    fn end(self, said: Vec<ImportProgressMessage>) -> (step: ImportStep)
        requires
            self@.info is Some,
        ensures
            step@ == finish(self@, self@.info->Some_0, messages_view(said@)),
    {
        match &self.info {
            Some(info) => {
                let mut line = String::from_str("Imported ");
                push_decimal(&mut line, self.completed as u64);
                line.append(" of ");
                push_decimal(&mut line, info.tracks.len() as u64);
                line.append(" tracks");
                assert(info@.tracks.len() == info.tracks@.len());
                let messages = with_message(said, ImportProgressMessage::Info { text: line });
                let messages = with_message(
                    messages,
                    ImportProgressMessage::ImportFinished {
                        artist: info.artist.clone(),
                        title: info.title.clone(),
                    },
                );
                ImportStep {
                    state: self.staged(ImportStage::Finished),
                    messages,
                    action: ImportAction::Exit { code: 0 },
                }
            },
            None => self.ignore(),
        }
    }

    fn begin_track(self, index: usize, said: Vec<ImportProgressMessage>) -> (step: ImportStep)
        requires
            self@.info is Some,
        ensures
            step@ == start_track(self@, self@.info->Some_0, index as int, messages_view(said@)),
    {
        match &self.info {
            Some(info) => {
                assert(info@.tracks.len() == info.tracks@.len());
                if index < info.tracks.len() {
                    let track = &info.tracks[index];
                    assert(info@.tracks[index as int] == track@);
                    let dir = album_dir(self.music_dir.as_str(), info);
                    let (first, _) = step_with_encoding(
                        info,
                        track,
                        dir.as_str(),
                        self.cover_art.as_ref(),
                        TrackEvent::Begin,
                    );
                    let started = ImportProgressMessage::TrackStarted {
                        number: track.number,
                        title: track.title.clone(),
                    };
                    let messages = with_messages(with_message(said, started), first.messages);
                    ImportStep {
                        state: self.staged(ImportStage::Importing { index }),
                        messages,
                        action: ImportAction::Track {
                            index,
                            timeout_seconds: TRACK_TIMEOUT_SECONDS,
                            action: first.action,
                        },
                    }
                } else {
                    self.end(said)
                }
            },
            None => self.ignore(),
        }
    }

    fn on_toc(self, disc_id: &str, toc: &Vec<DiscTrack>) -> (step: ImportStep)
        ensures
            step@ == after_toc(self@, disc_id@, toc@),
    {
        match read_cd_from_device(disc_id, toc) {
            Err(error) => {
                let reason = error.message();
                let none = String::new();
                let step = self.abort(none.as_str(), reason.as_str());
                assert(none@ + reason@ =~= error.text());
                step
            },
            Ok(info) => {
                let first = lookup_cd_info(&info, &LookupEvent::Begin);
                let mut found = String::from_str("Found CD: ");
                found.append(info.artist.as_str());
                found.append(" - ");
                found.append(info.title.as_str());
                assert(info@.tracks.len() == info.tracks@.len());
                let messages = one_message(info_message("Calculated Disc ID: ", disc_id));
                let messages = with_message(
                    messages,
                    ImportProgressMessage::TotalTracks { count: info.tracks.len() },
                );
                let messages = with_message(messages, ImportProgressMessage::Info { text: found });
                let messages = with_messages(messages, as_info(&first.messages));
                proof {
                    let i = info@;
                    assert(messages_view(messages@) =~= seq![
                        info_line("Calculated Disc ID: "@ + disc_id@),
                        ImportProgressView::TotalTracks { count: i.tracks.len() as usize },
                        info_line("Found CD: "@ + i.artist + " - "@ + i.title),
                    ] + info_lines(lookup_step(i, LookupEvent::Begin).messages));
                }
                ImportStep {
                    state: ImportState {
                        stage: ImportStage::ResolvingRelease,
                        device: self.device,
                        music_dir: self.music_dir,
                        info: Some(info),
                        cover_art: self.cover_art,
                        completed: self.completed,
                    },
                    messages,
                    action: ImportAction::Lookup(first.action),
                }
            },
        }
    }

    fn on_lookup(self, event: &LookupEvent) -> (step: ImportStep)
        requires
            self@.info is Some,
        ensures
            step@ == after_lookup(self@, self@.info->Some_0, *event),
    {
        match &self.info {
            Some(info) => {
                let look = lookup_cd_info(info, event);
                let messages = as_info(&look.messages);
                match look.action {
                    LookupAction::Finish { info: resolved } => {
                        let source = if resolved.release_id.is_some() {
                            ArtSource::Archive
                        } else {
                            ArtSource::AudioDb
                        };
                        let next = ImportState {
                            stage: self.stage,
                            device: self.device,
                            music_dir: self.music_dir,
                            info: Some(resolved),
                            cover_art: self.cover_art,
                            completed: self.completed,
                        };
                        next.begin_art(source, messages)
                    },
                    other => ImportStep {
                        state: self,
                        messages,
                        action: ImportAction::Lookup(other),
                    },
                }
            },
            None => self.ignore(),
        }
    }

    fn on_art(self, source: ArtSource, event: ArtEvent) -> (step: ImportStep)
        requires
            self@.info is Some,
        ensures
            step@ == after_art(self@, self@.info->Some_0, source, event),
    {
        match &self.info {
            Some(info) => {
                let art = source_begin(info, source, event);
                let messages = as_info(&art.messages);
                match art.action {
                    ArtAction::Done { image: Some(image) } => {
                        let next = ImportState {
                            stage: self.stage,
                            device: self.device,
                            music_dir: self.music_dir,
                            info: self.info,
                            cover_art: Some(image),
                            completed: self.completed,
                        };
                        next.begin_directory(
                            with_message(
                                messages,
                                ImportProgressMessage::info("Cover art fetched successfully"),
                            ),
                        )
                    },
                    ArtAction::Done { image: None } => match source {
                        ArtSource::Archive => self.begin_art(ArtSource::AudioDb, messages),
                        ArtSource::AudioDb => {
                            let next = ImportState {
                                stage: self.stage,
                                device: self.device,
                                music_dir: self.music_dir,
                                info: self.info,
                                cover_art: None,
                                completed: self.completed,
                            };
                            next.begin_directory(
                                with_message(
                                    messages,
                                    ImportProgressMessage::info(
                                        "No cover art found - files will be created without artwork",
                                    ),
                                ),
                            )
                        },
                    },
                    other => ImportStep { state: self, messages, action: ImportAction::Art(other) },
                }
            },
            None => self.ignore(),
        }
    }

    fn on_track(self, index: usize, event: TrackEvent) -> (r: (
        ImportStep,
        Ghost<Result<Seq<u8>, Seq<char>>>,
    ))
        requires
            self@.info is Some,
            index < self@.info->Some_0.tracks.len(),
        ensures
            is_encoding(r.1@),
            !brings_audio(event) ==> r.1@ == no_encoding(),
            r.0@ == after_track(self@, self@.info->Some_0, index as int, event, r.1@),
    {
        proof {
            lemma_no_encoding();
        }
        let ghost mut made = no_encoding();
        let step = match &self.info {
            Some(info) => {
                assert(info@.tracks.len() == info.tracks@.len());
                let count = info.tracks.len();
                assert(index < count);
                let track = &info.tracks[index];
                assert(info@.tracks[index as int] == track@);
                let dir = album_dir(self.music_dir.as_str(), info);
                let (done, encoding) = step_with_encoding(
                    info,
                    track,
                    dir.as_str(),
                    self.cover_art.as_ref(),
                    event,
                );
                proof {
                    made = encoding@;
                }
                match done.action {
                    TrackAction::Completed => {
                        let completed = ImportProgressMessage::TrackCompleted {
                            number: track.number,
                            title: track.title.clone(),
                        };
                        let messages = with_message(done.messages, completed);
                        let next = ImportState {
                            stage: self.stage,
                            device: self.device,
                            music_dir: self.music_dir,
                            info: self.info,
                            cover_art: self.cover_art,
                            completed: if self.completed < usize::MAX {
                                self.completed + 1
                            } else {
                                self.completed
                            },
                        };
                        next.begin_track(index + 1, messages)
                    },
                    TrackAction::Failed { reason } => {
                        let failed = ImportProgressMessage::TrackError {
                            number: track.number,
                            title: track.title.clone(),
                            reason,
                        };
                        let messages = with_message(done.messages, failed);
                        self.begin_track(index + 1, messages)
                    },
                    other => ImportStep {
                        state: self,
                        messages: done.messages,
                        action: ImportAction::Track {
                            index,
                            timeout_seconds: TRACK_TIMEOUT_SECONDS,
                            action: other,
                        },
                    },
                }
            },
            None => self.ignore(),
        };
        (step, Ghost(made))
    }

    fn on_timeout(self, index: usize) -> (step: ImportStep)
        requires
            self@.info is Some,
            index < self@.info->Some_0.tracks.len(),
        ensures
            step@ == after_timeout(self@, self@.info->Some_0, index as int),
    {
        match &self.info {
            Some(info) => {
                assert(info@.tracks.len() == info.tracks@.len());
                let count = info.tracks.len();
                assert(index < count);
                let track = &info.tracks[index];
                assert(info@.tracks[index as int] == track@);
                let failed = ImportProgressMessage::TrackError {
                    number: track.number,
                    title: track.title.clone(),
                    reason: String::from_str("timeout"),
                };
                self.begin_track(index + 1, one_message(failed))
            },
            None => self.ignore(),
        }
    }
}

/// The step on an event, with what the encoding came to where the encoder
/// ran, and the shortest stream where it did not.
fn step_with_encoding_of(state: ImportState, event: ImportEvent) -> (r: (
    ImportStep,
    Ghost<Result<Seq<u8>, Seq<char>>>,
))
    ensures
        is_encoding(r.1@),
        !(event matches ImportEvent::Track(work) && brings_audio(work)) ==> r.1@ == no_encoding(),
        r.0@ == import_step(state@, event, r.1@),
        state@.well_formed() ==> r.0.state@.well_formed(),
{
    proof {
        lemma_no_encoding();
        if state@.well_formed() {
            assert forall|made: Result<Seq<u8>, Seq<char>>|
                (#[trigger] import_step(state@, event, made)).state.well_formed() by {
                law_import_stays_well_formed(state@, event, made);
            }
        }
    }
    let ghost mut made = no_encoding();
    let has_disc = state.info.is_some();
    let tracks = match &state.info {
        Some(info) => info.tracks.len(),
        None => 0,
    };
    proof {
        if state.info is Some {
            assert(state.info->Some_0@.tracks.len() == state.info->Some_0.tracks@.len());
        }
    }
    let step = match (state.stage, event) {
        (ImportStage::Start, ImportEvent::Begin) => {
            let message = info_message("Reading CD from device: ", state.device.as_str());
            let device = state.device.clone();
            ImportStep {
                state: state.staged(ImportStage::ReadingToc),
                messages: one_message(message),
                action: ImportAction::ReadToc { device },
            }
        },
        (ImportStage::ReadingToc, ImportEvent::Toc { disc_id, toc }) => state.on_toc(
            disc_id.as_str(),
            &toc,
        ),
        (ImportStage::ReadingToc, ImportEvent::TocFailed { reason }) => {
            let none = String::new();
            let step = state.abort(none.as_str(), reason.as_str());
            assert(none@ + reason@ =~= reason@);
            step
        },
        (ImportStage::ResolvingRelease, ImportEvent::Lookup(event)) => {
            if has_disc {
                state.on_lookup(&event)
            } else {
                state.ignore()
            }
        },
        (ImportStage::ResolvingCoverArt { source }, ImportEvent::Art(event)) => {
            if has_disc {
                state.on_art(source, event)
            } else {
                state.ignore()
            }
        },
        (ImportStage::CreatingDirectory, ImportEvent::DirectoryCreated) => {
            match &state.info {
                Some(info) => {
                    let dir = album_dir(state.music_dir.as_str(), info);
                    let message = info_message("Created directory: ", dir.as_str());
                    state.begin_track(0, one_message(message))
                },
                None => state.ignore(),
            }
        },
        (ImportStage::CreatingDirectory, ImportEvent::DirectoryFailed { reason }) => {
            if has_disc {
                state.abort("Failed to create album directory: ", reason.as_str())
            } else {
                state.ignore()
            }
        },
        (ImportStage::Importing { index }, ImportEvent::Track(event)) => {
            if has_disc && index < tracks {
                let (step, encoding) = state.on_track(index, event);
                proof {
                    made = encoding@;
                }
                step
            } else {
                state.ignore()
            }
        },
        (ImportStage::Importing { index }, ImportEvent::TrackTimedOut) => {
            if has_disc && index < tracks {
                state.on_timeout(index)
            } else {
                state.ignore()
            }
        },
        _ => state.ignore(),
    };
    (step, Ghost(made))
}

/// Imports a disc, one step at a time: call it with a fresh `ImportState`
/// and `ImportEvent::Begin`, carry out the action it returns, and call it
/// again with the import it returned and what came of the action, until the
/// action is `Exit`.
///
/// On a track's audio it runs the encoder. Which stream the encoder makes
/// is not fixed here: the step is the one that `import_step` gives for
/// whatever the encoding came to. On every other event the step is fixed.
pub fn import_cd(state: ImportState, event: ImportEvent) -> (step: ImportStep)
    ensures
        exists|made: Result<Seq<u8>, Seq<char>>|
            #[trigger] is_encoding(made) && step@ == import_step(state@, event, made),
        !(event matches ImportEvent::Track(work) && brings_audio(work)) ==> step@ == import_step(
            state@,
            event,
            no_encoding(),
        ),
        state@.well_formed() ==> step.state@.well_formed(),
{
    let (step, _) = step_with_encoding_of(state, event);
    step
}

/// Turning to a track, or to the end, keeps a well-formed import well-formed.
proof fn lemma_start_track_well_formed(
    state: ImportStateView,
    info: CdInfoView,
    index: int,
    said: Seq<ImportProgressView>,
)
    requires
        state.info == Some(info),
        state.has_disc(),
        0 <= index <= info.tracks.len(),
        state.completed <= index,
    ensures
        start_track(state, info, index, said).state.well_formed(),
{
}

proof fn lemma_after_toc_well_formed(state: ImportStateView, disc_id: String, toc: Vec<DiscTrack>)
    requires
        state.well_formed(),
        state.stage == ImportStage::ReadingToc,
    ensures
        after_toc(state, disc_id@, toc@).state.well_formed(),
{
    assert(toc@.len() == toc.len());
    toc@.lemma_filter_len(|t: DiscTrack| is_rippable(t));
}

proof fn lemma_after_lookup_well_formed(state: ImportStateView, info: CdInfoView, reply: LookupEvent)
    requires
        state.well_formed(),
        state.stage == ImportStage::ResolvingRelease,
        state.info == Some(info),
    ensures
        after_lookup(state, info, reply).state.well_formed(),
{
    law_resolution_keeps_disc(info, reply);
}

proof fn lemma_after_art_well_formed(
    state: ImportStateView,
    info: CdInfoView,
    source: ArtSource,
    reply: ArtEvent,
)
    requires
        state.well_formed(),
        state.stage == (ImportStage::ResolvingCoverArt { source }),
        state.info == Some(info),
    ensures
        after_art(state, info, source, reply).state.well_formed(),
{
}

proof fn lemma_after_track_well_formed(
    state: ImportStateView,
    info: CdInfoView,
    index: usize,
    done: TrackEvent,
    made: Result<Seq<u8>, Seq<char>>,
)
    requires
        state.well_formed(),
        state.stage == (ImportStage::Importing { index }),
        state.info == Some(info),
    ensures
        after_track(state, info, index as int, done, made).state.well_formed(),
{
    let track = info.tracks[index as int];
    let step = track_step(
        info,
        track,
        album_directory(state.music_dir, info),
        state.cover_art,
        done,
        made,
    );
    match step.action {
        TrackActionView::Completed => {
            lemma_start_track_well_formed(
                ImportStateView { completed: one_more(state.completed), ..state },
                info,
                index + 1,
                step.messages.push(
                    ImportProgressView::TrackCompleted { number: track.number, title: track.title },
                ),
            );
        },
        TrackActionView::Failed { reason } => {
            lemma_start_track_well_formed(
                state,
                info,
                index + 1,
                step.messages.push(
                    ImportProgressView::TrackError {
                        number: track.number,
                        title: track.title,
                        reason,
                    },
                ),
            );
        },
        _ => {},
    }
}

/// Every step keeps a well-formed import well-formed. In particular the disc
/// record, once there, has at least one track, and its total playing time is
/// the sum of its tracks' playing times, whatever release resolution did to
/// it.
pub proof fn law_import_stays_well_formed(
    state: ImportStateView,
    event: ImportEvent,
    made: Result<Seq<u8>, Seq<char>>,
)
    requires
        state.well_formed(),
    ensures
        import_step(state, event, made).state.well_formed(),
{
    match (state.stage, event, state.info) {
        (ImportStage::ReadingToc, ImportEvent::Toc { disc_id, toc }, _) => {
            lemma_after_toc_well_formed(state, disc_id, toc);
        },
        (ImportStage::ResolvingRelease, ImportEvent::Lookup(reply), Some(info)) => {
            lemma_after_lookup_well_formed(state, info, reply);
        },
        (ImportStage::ResolvingCoverArt { source }, ImportEvent::Art(reply), Some(info)) => {
            lemma_after_art_well_formed(state, info, source, reply);
        },
        (ImportStage::CreatingDirectory, ImportEvent::DirectoryCreated, Some(info)) => {
            lemma_start_track_well_formed(
                state,
                info,
                0,
                seq![info_line("Created directory: "@ + album_directory(state.music_dir, info))],
            );
        },
        (ImportStage::Importing { index }, ImportEvent::Track(done), Some(info)) => {
            lemma_after_track_well_formed(state, info, index, done, made);
        },
        (ImportStage::Importing { index }, ImportEvent::TrackTimedOut, Some(info)) => {
            let track = info.tracks[index as int];
            lemma_start_track_well_formed(
                state,
                info,
                index + 1,
                seq![
                    ImportProgressView::TrackError {
                        number: track.number,
                        title: track.title,
                        reason: "timeout"@,
                    },
                ],
            );
        },
        _ => {},
    }
}

/// A track that runs out of time gets exactly one error message, under its
/// own number and with the reason "timeout". The import is not given up: the
/// next message is the start of the track at the next position of the disc
/// record, and that track is the one worked on from then; after the last
/// track the import ends with exit code 0.
pub proof fn law_timeout_skips_one_track(
    state: ImportStateView,
    info: CdInfoView,
    index: usize,
    made: Result<Seq<u8>, Seq<char>>,
)
    requires
        state.stage == (ImportStage::Importing { index }),
        state.info == Some(info),
        index < info.tracks.len() <= usize::MAX,
    ensures
        ({
            let step = import_step(state, ImportEvent::TrackTimedOut, made);
            let track = info.tracks[index as int];
            &&& step.messages.len() >= 2
            &&& step.messages[0] == (ImportProgressView::TrackError {
                number: track.number,
                title: track.title,
                reason: "timeout"@,
            })
            &&& forall|k: int| 1 <= k < step.messages.len() ==> !(step.messages[k] is TrackError)
            &&& step.state.info == state.info
            &&& step.state.completed == state.completed
            &&& index + 1 < info.tracks.len() ==> {
                &&& step.state.stage == (ImportStage::Importing { index: (index + 1) as usize })
                &&& step.messages.len() == 2
                &&& step.messages[1] == (ImportProgressView::TrackStarted {
                    number: info.tracks[index + 1].number,
                    title: info.tracks[index + 1].title,
                })
                &&& step.action matches ImportActionView::Track { index: next, .. } && next == index
                    + 1
            }
            &&& index + 1 == info.tracks.len() ==> {
                &&& step.state.stage == ImportStage::Finished
                &&& step.messages.last() is ImportFinished
                &&& step.action == (ImportActionView::Exit { code: 0 })
            }
        }),
{
    let step = import_step(state, ImportEvent::TrackTimedOut, made);
    let track = info.tracks[index as int];
    let error = ImportProgressView::TrackError {
        number: track.number,
        title: track.title,
        reason: "timeout"@,
    };
    assert(step == start_track(state, info, index + 1, seq![error]));
    if index + 1 < info.tracks.len() {
        let next = info.tracks[index + 1];
        let started = ImportProgressView::TrackStarted { number: next.number, title: next.title };
        assert(step.messages =~= seq![error, started]);
    } else {
        assert(step.messages =~= seq![
            error,
            info_line(summary_line(state.completed, info.tracks.len())),
            ImportProgressView::ImportFinished { artist: info.artist, title: info.title },
        ]);
    }
}

/// The number of tracks is announced when the table of contents has been
/// read, once, and it is the number of entries that survive: those that are
/// audio and whose sector range is not reversed. It is the number of tracks
/// of the disc record, and never more than the table of contents has
/// entries.
pub proof fn law_total_tracks_counts_survivors(
    state: ImportStateView,
    disc_id: String,
    toc: Vec<DiscTrack>,
    made: Result<Seq<u8>, Seq<char>>,
)
    requires
        state.stage == ImportStage::ReadingToc,
        surviving_entries(toc@).len() >= 1,
    ensures
        ({
            let step = import_step(state, ImportEvent::Toc { disc_id, toc }, made);
            let survivors = surviving_entries(toc@);
            &&& survivors.len() <= toc@.len() <= usize::MAX
            &&& step.messages.len() >= 3
            &&& step.messages[1] == (ImportProgressView::TotalTracks {
                count: survivors.len() as usize,
            })
            &&& forall|k: int|
                0 <= k < step.messages.len() && k != 1 ==> !(step.messages[k] is TotalTracks)
            &&& step.state.info matches Some(info) && info.tracks.len() == survivors.len()
        }),
{
    let step = import_step(state, ImportEvent::Toc { disc_id, toc }, made);
    assert(toc@.len() == toc.len());
    toc@.lemma_filter_len(|t: DiscTrack| is_rippable(t));
    let info = disc_record(disc_id@, toc@)->Ok_0;
    let first = lookup_step(info, LookupEvent::Begin);
    assert(step == after_toc(state, disc_id@, toc@));
    let head = seq![
        info_line("Calculated Disc ID: "@ + disc_id@),
        ImportProgressView::TotalTracks { count: info.tracks.len() as usize },
        info_line("Found CD: "@ + info.artist + " - "@ + info.title),
    ];
    assert(step.messages == head + info_lines(first.messages));
    assert forall|k: int| 0 <= k < step.messages.len() && k != 1 implies !(step.messages[k]
        is TotalTracks) by {
        if k >= 3 {
            assert(step.messages[k] == info_lines(first.messages)[k - 3]);
        } else {
            assert(step.messages[k] == head[k]);
        }
    }
    assert(step.messages[1] == head[1]);
}

/// Whatever the table of contents and whatever the state, a number of
/// tracks that a step on it announces is the number of entries that
/// survive, and no step announces two. While the table is awaited, a table
/// with a surviving entry gets its number announced.
pub proof fn law_announced_total_is_the_survivors(
    state: ImportStateView,
    disc_id: String,
    toc: Vec<DiscTrack>,
    made: Result<Seq<u8>, Seq<char>>,
)
    ensures
        ({
            let step = import_step(state, ImportEvent::Toc { disc_id, toc }, made);
            let survivors = surviving_entries(toc@);
            &&& forall|k: int|
                0 <= k < step.messages.len() ==> (#[trigger] step.messages[k]
                    matches ImportProgressView::TotalTracks { count } ==> count == survivors.len())
            &&& forall|k: int, l: int|
                0 <= k < step.messages.len() && 0 <= l < step.messages.len() && step.messages[k]
                    is TotalTracks && step.messages[l] is TotalTracks ==> k == l
            &&& state.stage == ImportStage::ReadingToc && survivors.len() >= 1
                ==> step.messages.len() >= 2 && step.messages[1] == (
            ImportProgressView::TotalTracks { count: survivors.len() as usize })
        }),
{
    let step = import_step(state, ImportEvent::Toc { disc_id, toc }, made);
    assert(surviving_tracks(toc@).len() == surviving_entries(toc@).len());
    if state.stage == ImportStage::ReadingToc {
        assert(step == after_toc(state, disc_id@, toc@));
        if disc_record(disc_id@, toc@) is Ok {
            law_total_tracks_counts_survivors(state, disc_id, toc, made);
        } else {
            assert(step.messages.len() == 1);
            assert(step.messages[0] is Info);
        }
    } else {
        assert(step.messages.len() == 0);
    }
}

/// Cover art that no source has is no error. When the archive ends without
/// an image the album database is asked; when the album database ends
/// without one the import goes on to the album directory, without cover art
/// and without leaving. The files of a track are then the audio file alone.
pub proof fn law_missing_cover_art_is_no_error(
    state: ImportStateView,
    info: CdInfoView,
    source: ArtSource,
    reply: ArtEvent,
    made: Result<Seq<u8>, Seq<char>>,
)
    requires
        state.stage == (ImportStage::ResolvingCoverArt { source }),
        state.info == Some(info),
        source_step(info, source, reply).action == (ArtActionView::Done { image: None }),
    ensures
        ({
            let step = import_step(state, ImportEvent::Art(reply), made);
            &&& !(step.action is Exit)
            &&& step.state.info == state.info
            &&& source == ArtSource::Archive ==> step.state.stage == (
            ImportStage::ResolvingCoverArt { source: ArtSource::AudioDb })
            &&& source == ArtSource::AudioDb ==> {
                &&& step.state.stage == ImportStage::CreatingDirectory
                &&& step.state.cover_art is None
                &&& step.action is CreateDirectory
            }
        }),
        forall|album_dir: Seq<char>, filename: Seq<char>, stream: Seq<u8>|
            (#[trigger] track_files(album_dir, filename, stream, None)).len() == 1,
{
}

/// Only the step on a track's audio depends on what encoding comes to: on
/// every other event the step is the same under any two encodings.
pub proof fn law_encoding_matters_for_audio_only(
    state: ImportStateView,
    event: ImportEvent,
    one: Result<Seq<u8>, Seq<char>>,
    other: Result<Seq<u8>, Seq<char>>,
)
    requires
        !(event matches ImportEvent::Track(work) && brings_audio(work)),
    ensures
        import_step(state, event, one) == import_step(state, event, other),
{
}

/// Work on a track is always handed out with the same limit of 300
/// seconds, and always for the track the import stands at.
pub proof fn law_track_work_is_timed(
    state: ImportStateView,
    event: ImportEvent,
    made: Result<Seq<u8>, Seq<char>>,
)
    ensures
        import_step(state, event, made).action matches ImportActionView::Track {
            index,
            timeout_seconds,
            ..
        } ==> timeout_seconds == 300 && import_step(state, event, made).state.stage == (
        ImportStage::Importing { index }),
{
}

/// An import leaves with code 0 exactly when it has gone through its
/// tracks, however many of them failed, and with code 1 exactly when it was
/// given up before the first: because the table of contents could not be
/// read or left no track, or because the album directory could not be made.
pub proof fn law_exit_code(
    state: ImportStateView,
    event: ImportEvent,
    made: Result<Seq<u8>, Seq<char>>,
)
    ensures
        ({
            let step = import_step(state, event, made);
            step.action matches ImportActionView::Exit { code } ==> {
                &&& code == 0 || code == 1
                &&& code == 0 <==> step.state.stage == ImportStage::Finished
                &&& code == 1 <==> step.state.stage == ImportStage::Aborted
                &&& code == 1 ==> state.stage == ImportStage::ReadingToc || state.stage
                    == ImportStage::CreatingDirectory
                &&& code == 0 ==> state.stage == ImportStage::CreatingDirectory
                    || state.stage is Importing
            }
        }),
{
}

} // verus!
