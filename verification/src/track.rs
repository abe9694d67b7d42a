//! The import of one track: reading, encoding, writing, tagging.

use vstd::prelude::*;
use vstd::string::*;
use crate::cd::{CdInfo, CdInfoView, CdTrack, CdTrackView};
use crate::encode::{
    encoded, files_view, is_encoding, is_outcome, stream_marker, write_flac_file, written_track,
    written_view, FileWrite, FileWriteView, FlacOutcome,
};
use crate::metadata::{
    field, fields_view, lemma_fields_view_push, make_field, TagField, TagFieldView, TagKey,
};
use crate::paths::{join_path, joined_path};
use crate::progress::{messages_view, ImportProgressMessage, ImportProgressView};
use crate::text::{decimal, push_decimal};

verus! {

/// The fields of a track of a disc: title, track artist, album title, album
/// artist and track number, and the release identifier where the disc was
/// matched to a release.
pub open spec fn track_fields(
    track: CdTrackView,
    album_title: Seq<char>,
    album_artist: Seq<char>,
    release_id: Option<Seq<char>>,
) -> Seq<TagFieldView> {
    let fixed = seq![
        field(TagKey::TrackTitle, track.title),
        field(TagKey::TrackArtist, track.artist),
        field(TagKey::AlbumTitle, album_title),
        field(TagKey::AlbumArtist, album_artist),
        field(TagKey::TrackNumber, decimal(track.number as nat)),
    ];
    match release_id {
        Some(id) => fixed.push(field(TagKey::MusicBrainzReleaseId, id)),
        None => fixed,
    }
}

/// The tag fields to write into the encoded file of a track.
pub fn set_audio_metadata(
    track: &CdTrack,
    album_title: &str,
    album_artist: &str,
    release_id: Option<&str>,
) -> (fields: Vec<TagField>)
    ensures
        fields_view(fields@) == track_fields(
            track@,
            album_title@,
            album_artist@,
            match release_id {
                Some(id) => Some(id@),
                None => None,
            },
        ),
{
    let mut fields: Vec<TagField> = Vec::new();
    fields.push(make_field(TagKey::TrackTitle, track.title.as_str()));
    fields.push(make_field(TagKey::TrackArtist, track.artist.as_str()));
    fields.push(make_field(TagKey::AlbumTitle, album_title));
    fields.push(make_field(TagKey::AlbumArtist, album_artist));
    let mut number = String::new();
    push_decimal(&mut number, track.number as u64);
    assert(number@ =~= decimal(track.number as nat));
    fields.push(TagField { key: TagKey::TrackNumber, value: number });
    assert(fields_view(fields@) =~= track_fields(track@, album_title@, album_artist@, None));
    match release_id {
        Some(id) => {
            let last = make_field(TagKey::MusicBrainzReleaseId, id);
            proof {
                lemma_fields_view_push(fields@, last);
            }
            fields.push(last);
        },
        None => {},
    }
    fields
}

/// What the import of a track is told: that it begins, or what a piece of
/// work came to.
#[derive(Debug)]
pub enum TrackEvent {
    Begin,
    /// The reading: the track's bytes, or the reason there are none.
    Read(Result<Vec<u8>, String>),
    /// The writing of the files: done, or the reason the audio file could not
    /// be written.
    Written(Result<(), String>),
    /// The tagging: whether the tags were saved.
    Tagged { saved: bool },
}

/// What the import of a track asks for next.
#[derive(Clone, Debug)]
pub enum TrackAction {
    /// Read the track off the disc and report back with `TrackEvent::Read`.
    ReadAudio { track: u32 },
    /// Write these files and report back with `TrackEvent::Written`.
    WriteFiles { files: Vec<FileWrite> },
    /// Write these fields into the file and report back with
    /// `TrackEvent::Tagged`.
    WriteTags { path: String, fields: Vec<TagField> },
    /// The track is imported.
    Completed,
    /// The track is given up.
    Failed { reason: String },
}

/// What a `TrackAction` holds, as mathematical values.
pub enum TrackActionView {
    ReadAudio { track: u32 },
    WriteFiles { files: Seq<FileWriteView> },
    WriteTags { path: Seq<char>, fields: Seq<TagFieldView> },
    Completed,
    Failed { reason: Seq<char> },
}

impl View for TrackAction {
    type V = TrackActionView;

    open spec fn view(&self) -> TrackActionView {
        match self {
            TrackAction::ReadAudio { track } => TrackActionView::ReadAudio { track: *track },
            TrackAction::WriteFiles { files } => TrackActionView::WriteFiles {
                files: files_view(files@),
            },
            TrackAction::WriteTags { path, fields } => TrackActionView::WriteTags {
                path: path@,
                fields: fields_view(fields@),
            },
            TrackAction::Completed => TrackActionView::Completed,
            TrackAction::Failed { reason } => TrackActionView::Failed { reason: reason@ },
        }
    }
}

/// One step of a track's import: what to report and what to do next.
#[derive(Clone, Debug)]
pub struct TrackStep {
    pub messages: Vec<ImportProgressMessage>,
    pub action: TrackAction,
}

/// What a `TrackStep` holds, as mathematical values.
pub struct TrackStepView {
    pub messages: Seq<ImportProgressView>,
    pub action: TrackActionView,
}

impl View for TrackStep {
    type V = TrackStepView;

    open spec fn view(&self) -> TrackStepView {
        TrackStepView { messages: messages_view(self.messages@), action: self.action@ }
    }
}

/// A step that reports nothing.
pub open spec fn quietly(action: TrackActionView) -> TrackStepView {
    TrackStepView { messages: Seq::empty(), action }
}

/// A step that reports one untagged line.
pub open spec fn saying(text: Seq<char>, action: TrackActionView) -> TrackStepView {
    TrackStepView { messages: seq![ImportProgressView::Info { text }], action }
}

/// The line that tells how much audio was read.
pub open spec fn read_line(count: nat, title: Seq<char>) -> Seq<char> {
    "Read "@ + decimal(count) + " bytes of audio data for track "@ + title
}

/// The step that the import of a track takes on an event, where encoding
/// the audio that was read comes to `made`.
///
/// The track is read, its audio is encoded, the files are written and the
/// audio file is tagged. A track of which nothing could be read, whose audio
/// could not be encoded, or whose audio file could not be written, is given
/// up with the reason. Tags that could not be saved are reported and change
/// nothing else. Only the step on audio that was read depends on `made`.
pub open spec fn track_step(
    info: CdInfoView,
    track: CdTrackView,
    album_dir: Seq<char>,
    cover_art: Option<Seq<u8>>,
    event: TrackEvent,
    made: Result<Seq<u8>, Seq<char>>,
) -> TrackStepView {
    match event {
        TrackEvent::Begin => quietly(TrackActionView::ReadAudio { track: track.number }),
        TrackEvent::Read(Ok(audio)) => saying(
            read_line(audio@.len(), track.title),
            match written_track(album_dir, track.filename, made, cover_art) {
                Ok(files) => TrackActionView::WriteFiles { files },
                Err(reason) => TrackActionView::Failed { reason },
            },
        ),
        TrackEvent::Read(Err(reason)) => quietly(TrackActionView::Failed { reason: reason@ }),
        TrackEvent::Written(Ok(_)) => saying(
            "Encoded FLAC file: "@ + joined_path(album_dir, track.filename),
            TrackActionView::WriteTags {
                path: joined_path(album_dir, track.filename),
                fields: track_fields(track, info.title, info.artist, info.release_id),
            },
        ),
        TrackEvent::Written(Err(reason)) => quietly(TrackActionView::Failed { reason: reason@ }),
        TrackEvent::Tagged { saved } => if saved {
            quietly(TrackActionView::Completed)
        } else {
            saying(
                "Could not save tags for: "@ + joined_path(album_dir, track.filename),
                TrackActionView::Completed,
            )
        },
    }
}

fn quiet(action: TrackAction) -> (step: TrackStep)
    ensures
        step@ == quietly(action@),
{
    let messages: Vec<ImportProgressMessage> = Vec::new();
    assert(messages_view(messages@) =~= Seq::<ImportProgressView>::empty());
    TrackStep { messages, action }
}

fn say(text: String, action: TrackAction) -> (step: TrackStep)
    ensures
        step@ == saying(text@, action@),
{
    let mut messages: Vec<ImportProgressMessage> = Vec::new();
    messages.push(ImportProgressMessage::Info { text });
    assert(messages_view(messages@) =~= seq![ImportProgressView::Info { text: text@ }]);
    TrackStep { messages, action }
}

/// Whether an event brings audio that is to be encoded.
pub open spec fn brings_audio(event: TrackEvent) -> bool {
    event matches TrackEvent::Read(Ok(_))
}

/// Only the step on audio that was read depends on what encoding comes to:
/// on every other event the step is the same under any two encodings.
pub proof fn law_encoding_matters_for_audio_only(
    info: CdInfoView,
    track: CdTrackView,
    album_dir: Seq<char>,
    cover_art: Option<Seq<u8>>,
    event: TrackEvent,
    one: Result<Seq<u8>, Seq<char>>,
    other: Result<Seq<u8>, Seq<char>>,
)
    requires
        !brings_audio(event),
    ensures
        track_step(info, track, album_dir, cover_art, event, one) == track_step(
            info,
            track,
            album_dir,
            cover_art,
            event,
            other,
        ),
{
}

/// On audio that was read, the step tells how much was read and then
/// either asks for the files of the stream to be written, the audio file
/// first and required, or gives the track up for the encoder's reason.
pub proof fn law_audio_is_encoded_or_given_up(
    info: CdInfoView,
    track: CdTrackView,
    album_dir: Seq<char>,
    cover_art: Option<Seq<u8>>,
    audio: Vec<u8>,
    made: Result<Seq<u8>, Seq<char>>,
)
    ensures
        ({
            let step = track_step(info, track, album_dir, cover_art, TrackEvent::Read(Ok(audio)), made);
            &&& step.messages == seq![
                ImportProgressView::Info { text: read_line(audio@.len(), track.title) },
            ]
            &&& match made {
                Ok(stream) => step.action matches TrackActionView::WriteFiles { files }
                    && files.len() >= 1 && files[0] == (FileWriteView {
                    path: joined_path(album_dir, track.filename),
                    bytes: stream,
                    required: true,
                }) && (cover_art is None ==> files.len() == 1),
                Err(reason) => step.action == (TrackActionView::Failed { reason }),
            }
        }),
{
}

/// An encoding that stands where no audio is encoded: the shortest stream.
pub open spec fn no_encoding() -> Result<Seq<u8>, Seq<char>> {
    Ok(stream_marker())
}

/// The shortest stream is one that encoding can come to.
pub proof fn lemma_no_encoding()
    ensures
        is_encoding(no_encoding()),
{
    let outcome = FlacOutcome::Stream(stream_marker());
    assert(is_outcome(outcome) && no_encoding() == encoded(outcome));
}

/// The step on an event, with what the encoding came to where the encoder
/// ran, and the shortest stream where it did not.
pub(crate) fn step_with_encoding(
    cd_info: &CdInfo,
    track: &CdTrack,
    album_dir: &str,
    cover_art: Option<&Vec<u8>>,
    event: TrackEvent,
) -> (r: (TrackStep, Ghost<Result<Seq<u8>, Seq<char>>>))
    ensures
        is_encoding(r.1@),
        !brings_audio(event) ==> r.1@ == no_encoding(),
        r.0@ == track_step(
            cd_info@,
            track@,
            album_dir@,
            match cover_art {
                Some(image) => Some(image@),
                None => None,
            },
            event,
            r.1@,
        ),
{
    let ghost mut made = no_encoding();
    proof {
        lemma_no_encoding();
    }
    let step = match event {
        TrackEvent::Begin => quiet(TrackAction::ReadAudio { track: track.number }),
        TrackEvent::Read(Ok(audio)) => {
            let mut line = String::from_str("Read ");
            push_decimal(&mut line, audio.len() as u64);
            line.append(" bytes of audio data for track ");
            line.append(track.title.as_str());
            let written = write_flac_file(
                album_dir,
                track.filename.as_str(),
                audio.as_slice(),
                cover_art,
            );
            proof {
                made = choose|made: Result<Seq<u8>, Seq<char>>|
                    #[trigger] is_encoding(made) && written_view(written) == written_track(
                        album_dir@,
                        track.filename@,
                        made,
                        match cover_art {
                            Some(image) => Some(image@),
                            None => None,
                        },
                    );
            }
            match written {
                Ok(files) => say(line, TrackAction::WriteFiles { files }),
                Err(reason) => say(line, TrackAction::Failed { reason }),
            }
        },
        TrackEvent::Read(Err(reason)) => quiet(TrackAction::Failed { reason }),
        TrackEvent::Written(Ok(_)) => {
            let path = join_path(album_dir, track.filename.as_str());
            let mut line = String::from_str("Encoded FLAC file: ");
            line.append(path.as_str());
            let release_id = match &cd_info.release_id {
                Some(id) => Some(id.as_str()),
                None => None,
            };
            let fields = set_audio_metadata(
                track,
                cd_info.title.as_str(),
                cd_info.artist.as_str(),
                release_id,
            );
            say(line, TrackAction::WriteTags { path, fields })
        },
        TrackEvent::Written(Err(reason)) => quiet(TrackAction::Failed { reason }),
        TrackEvent::Tagged { saved } => {
            if saved {
                quiet(TrackAction::Completed)
            } else {
                let mut line = String::from_str("Could not save tags for: ");
                let path = join_path(album_dir, track.filename.as_str());
                line.append(path.as_str());
                say(line, TrackAction::Completed)
            }
        },
    };
    (step, Ghost(made))
}

/// Imports one track, one step at a time: call it with `TrackEvent::Begin`,
/// carry out the action it returns, and call it again with what came of it,
/// until the action is `Completed` or `Failed`.
///
/// On audio that was read it runs the encoder. Which stream the encoder
/// makes is not fixed here: the step is the one that `track_step` gives for
/// whatever the encoding came to. On every other event the step is fixed.
pub fn import_cd_track(
    cd_info: &CdInfo,
    track: &CdTrack,
    album_dir: &str,
    cover_art: Option<&Vec<u8>>,
    event: TrackEvent,
) -> (step: TrackStep)
    ensures
        exists|made: Result<Seq<u8>, Seq<char>>|
            #[trigger] is_encoding(made) && step@ == track_step(
                cd_info@,
                track@,
                album_dir@,
                match cover_art {
                    Some(image) => Some(image@),
                    None => None,
                },
                event,
                made,
            ),
        !brings_audio(event) ==> step@ == track_step(
            cd_info@,
            track@,
            album_dir@,
            match cover_art {
                Some(image) => Some(image@),
                None => None,
            },
            event,
            no_encoding(),
        ),
{
    let (step, _) = step_with_encoding(cd_info, track, album_dir, cover_art, event);
    step
}

} // verus!
