//! Progress lines for the presentation layer. A line is plain text; a tag
//! at its front (`TOTAL_FILES:`, `COMPLETED:`, `ERROR:`, `PROGRESS:`) tells
//! the reader how to count it.

use std::sync::mpsc::Sender;
use vstd::prelude::*;
use vstd::string::*;
use crate::text::{decimal, push_decimal};

verus! {

/// Progress of a tag synchronisation.
#[derive(Clone, Debug)]
pub enum ProgressMessage {
    /// File scanning completion
    ScanComplete { files_scanned: usize, audio_files_found: usize, files_skipped: usize },
    /// Total file count update
    TotalFiles { count: usize },
    /// File grouping completion
    GroupingComplete { audio_files_count: usize, album_groups_count: usize },
    /// MusicBrainz search completion
    MusicBrainzSearchComplete { artist: String, album: String, success: bool },
    /// Album processing start
    ProcessingGroup { artist: String, album: String },
    /// Album processing completion
    AlbumProcessingComplete { artist: String, album: String, files_processed: usize },
    /// Album skipped due to no MusicBrainz match
    AlbumSkipped { artist: String, album: String },
    /// Final completion message
    FinalComplete { folder_name: String },
    /// Custom message
    Custom { message: String },
}

/// What a `ProgressMessage` holds, as mathematical values.
pub enum ProgressMessageView {
    ScanComplete { files_scanned: usize, audio_files_found: usize, files_skipped: usize },
    TotalFiles { count: usize },
    GroupingComplete { audio_files_count: usize, album_groups_count: usize },
    MusicBrainzSearchComplete { artist: Seq<char>, album: Seq<char>, success: bool },
    ProcessingGroup { artist: Seq<char>, album: Seq<char> },
    AlbumProcessingComplete { artist: Seq<char>, album: Seq<char>, files_processed: usize },
    AlbumSkipped { artist: Seq<char>, album: Seq<char> },
    FinalComplete { folder_name: Seq<char> },
    Custom { message: Seq<char> },
}

impl View for ProgressMessage {
    type V = ProgressMessageView;

    open spec fn view(&self) -> ProgressMessageView {
        match self {
            ProgressMessage::ScanComplete { files_scanned, audio_files_found, files_skipped } =>
                ProgressMessageView::ScanComplete {
                    files_scanned: *files_scanned,
                    audio_files_found: *audio_files_found,
                    files_skipped: *files_skipped,
                },
            ProgressMessage::TotalFiles { count } => ProgressMessageView::TotalFiles {
                count: *count,
            },
            ProgressMessage::GroupingComplete { audio_files_count, album_groups_count } =>
                ProgressMessageView::GroupingComplete {
                    audio_files_count: *audio_files_count,
                    album_groups_count: *album_groups_count,
                },
            ProgressMessage::MusicBrainzSearchComplete { artist, album, success } =>
                ProgressMessageView::MusicBrainzSearchComplete {
                    artist: artist@,
                    album: album@,
                    success: *success,
                },
            ProgressMessage::ProcessingGroup { artist, album } =>
                ProgressMessageView::ProcessingGroup { artist: artist@, album: album@ },
            ProgressMessage::AlbumProcessingComplete { artist, album, files_processed } =>
                ProgressMessageView::AlbumProcessingComplete {
                    artist: artist@,
                    album: album@,
                    files_processed: *files_processed,
                },
            ProgressMessage::AlbumSkipped { artist, album } => ProgressMessageView::AlbumSkipped {
                artist: artist@,
                album: album@,
            },
            ProgressMessage::FinalComplete { folder_name } => ProgressMessageView::FinalComplete {
                folder_name: folder_name@,
            },
            ProgressMessage::Custom { message } => ProgressMessageView::Custom {
                message: message@,
            },
        }
    }
}

impl ProgressMessageView {
    /// The line that stands for the message.
    pub open spec fn line(self) -> Seq<char> {
        match self {
            ProgressMessageView::ScanComplete { files_scanned, audio_files_found, files_skipped } =>
                "COMPLETED: Scanned "@ + decimal(files_scanned as nat) + " files ("@ + decimal(
                    audio_files_found as nat,
                ) + " audio files found, "@ + decimal(files_skipped as nat) + " skipped)"@,
            ProgressMessageView::TotalFiles { count } => "TOTAL_FILES:"@ + decimal(count as nat),
            ProgressMessageView::GroupingComplete { audio_files_count, album_groups_count } =>
                "COMPLETED: Grouped "@ + decimal(audio_files_count as nat)
                    + " audio files into "@ + decimal(album_groups_count as nat)
                    + " album groups"@,
            ProgressMessageView::MusicBrainzSearchComplete { artist, album, success } =>
                if success {
                    "COMPLETED: MusicBrainz search for "@ + artist + " - "@ + album
                } else {
                    "COMPLETED: MusicBrainz search for "@ + artist + " - "@ + album
                        + " (failed)"@
                },
            ProgressMessageView::ProcessingGroup { artist, album } => "Processing group: "@
                + artist + " - "@ + album,
            ProgressMessageView::AlbumProcessingComplete { artist, album, files_processed } =>
                "COMPLETED: Finished processing "@ + artist + " - "@ + album + " ("@ + decimal(
                    files_processed as nat,
                ) + " files processed)"@,
            ProgressMessageView::AlbumSkipped { artist, album } => "COMPLETED: Skipped "@ + artist
                + " - "@ + album + " (no MusicBrainz match found)"@,
            ProgressMessageView::FinalComplete { folder_name } =>
                "Successfully synchronized all files in "@ + folder_name,
            ProgressMessageView::Custom { message } => message,
        }
    }
}

impl ProgressMessage {
    /// The line that stands for the message.
    pub open spec fn line(self) -> Seq<char> {
        self@.line()
    }

    /// Format the message for display.
    pub fn format(&self) -> (s: String)
        ensures
            s@ == self.line(),
    {
        match self {
            ProgressMessage::ScanComplete { files_scanned, audio_files_found, files_skipped } => {
                let mut s = String::from_str("COMPLETED: Scanned ");
                push_decimal(&mut s, *files_scanned as u64);
                s.append(" files (");
                push_decimal(&mut s, *audio_files_found as u64);
                s.append(" audio files found, ");
                push_decimal(&mut s, *files_skipped as u64);
                s.append(" skipped)");
                s
            },
            ProgressMessage::TotalFiles { count } => {
                let mut s = String::from_str("TOTAL_FILES:");
                push_decimal(&mut s, *count as u64);
                s
            },
            ProgressMessage::GroupingComplete { audio_files_count, album_groups_count } => {
                let mut s = String::from_str("COMPLETED: Grouped ");
                push_decimal(&mut s, *audio_files_count as u64);
                s.append(" audio files into ");
                push_decimal(&mut s, *album_groups_count as u64);
                s.append(" album groups");
                s
            },
            ProgressMessage::MusicBrainzSearchComplete { artist, album, success } => {
                let mut s = String::from_str("COMPLETED: MusicBrainz search for ");
                s.append(artist.as_str());
                s.append(" - ");
                s.append(album.as_str());
                if !*success {
                    s.append(" (failed)");
                }
                s
            },
            ProgressMessage::ProcessingGroup { artist, album } => {
                let mut s = String::from_str("Processing group: ");
                s.append(artist.as_str());
                s.append(" - ");
                s.append(album.as_str());
                s
            },
            ProgressMessage::AlbumProcessingComplete { artist, album, files_processed } => {
                let mut s = String::from_str("COMPLETED: Finished processing ");
                s.append(artist.as_str());
                s.append(" - ");
                s.append(album.as_str());
                s.append(" (");
                push_decimal(&mut s, *files_processed as u64);
                s.append(" files processed)");
                s
            },
            ProgressMessage::AlbumSkipped { artist, album } => {
                let mut s = String::from_str("COMPLETED: Skipped ");
                s.append(artist.as_str());
                s.append(" - ");
                s.append(album.as_str());
                s.append(" (no MusicBrainz match found)");
                s
            },
            ProgressMessage::FinalComplete { folder_name } => {
                let mut s = String::from_str("Successfully synchronized all files in ");
                s.append(folder_name.as_str());
                s
            },
            ProgressMessage::Custom { message } => message.clone(),
        }
    }
}

/// The sending half of a channel of the standard library. The library
/// hands lines to it and looks at nothing inside it.
#[verifier::external_type_specification]
#[verifier::external_body]
#[verifier::reject_recursive_types(T)]
pub struct ExSender<T>(Sender<T>);

/// `Sender::send`: hands a line to the channel. Whether the channel takes
/// it depends on the receiving end, so success is not promised. A failure
/// carries the text of the channel's error and, as the payload of the
/// channel's `SendError`, the line that was handed in.
#[verifier::external_body]
fn channel_send(tx: &Sender<String>, line: String) -> (r: Result<(), (String, String)>)
    ensures
        r is Err ==> r->Err_0.1@ == line@,
{
    match tx.send(line) {
        Ok(()) => Ok(()),
        Err(e) => Err((format!("{}", e), e.0)),
    }
}

/// A line did not reach the presentation layer.
#[derive(Clone, Debug)]
pub struct ProgressError {
    pub message: String,
    /// The line that was not delivered.
    pub undelivered: String,
}

/// The text of a delivery failure: a fixed opening, the context where one
/// was given, and the channel's own words.
pub open spec fn delivery_failure(context: Option<Seq<char>>, cause: Seq<char>) -> Seq<char> {
    match context {
        Some(context) => "Failed to send progress message: "@ + context + " - "@ + cause,
        None => "Failed to send progress message: "@ + cause,
    }
}

/// What a send amounts to: success as it is; failure with the text of
/// `delivery_failure` and the line that came back from the channel. A
/// failure is given as the channel's words and that line.
pub fn delivery_result(sent: Result<(), (String, String)>, context: Option<&str>) -> (r: Result<
    (),
    ProgressError,
>)
    ensures
        sent is Ok ==> r is Ok,
        sent is Err ==> r is Err && r->Err_0.undelivered@ == sent->Err_0.1@
            && r->Err_0.message@ == delivery_failure(
            match context {
                Some(c) => Some(c@),
                None => None,
            },
            sent->Err_0.0@,
        ),
{
    match sent {
        Ok(()) => Ok(()),
        Err((cause, undelivered)) => {
            let mut message = String::from_str("Failed to send progress message: ");
            match context {
                Some(context) => {
                    message.append(context);
                    message.append(" - ");
                },
                None => {},
            }
            message.append(cause.as_str());
            Err(ProgressError { message, undelivered })
        },
    }
}

/// Whether `r` is what handing `line` to a channel may come to: success, or
/// a failure that carries this line as undelivered and the text of a delivery
/// failure with `context`.
pub open spec fn is_delivery_of(
    r: Result<(), ProgressError>,
    line: Seq<char>,
    context: Option<Seq<char>>,
) -> bool {
    r matches Err(e) ==> e.undelivered@ == line && exists|cause: Seq<char>|
        e.message@ == delivery_failure(context, cause)
}

/// Send a progress message to the channel.
pub fn send_progress_message(tx: &Sender<String>, message: ProgressMessage) -> (r: Result<
    (),
    ProgressError,
>)
    ensures
        is_delivery_of(r, message@.line(), None),
{
    let sent = channel_send(tx, message.format());
    let r = delivery_result(sent, None);
    proof {
        if r is Err {
            assert(r->Err_0.message@ == delivery_failure(None, sent->Err_0.0@));
        }
    }
    r
}

/// Send a progress message to the channel; a failure names `context`.
pub fn send_progress_message_with_context(
    tx: &Sender<String>,
    message: ProgressMessage,
    context: &str,
) -> (r: Result<(), ProgressError>)
    ensures
        is_delivery_of(r, message@.line(), Some(context@)),
{
    let sent = channel_send(tx, message.format());
    let r = delivery_result(sent, Some(context));
    proof {
        if r is Err {
            assert(r->Err_0.message@ == delivery_failure(Some(context@), sent->Err_0.0@));
        }
    }
    r
}

/// Reports the end of a scan.
pub fn send_scan_complete(
    tx: &Sender<String>,
    files_scanned: usize,
    audio_files_found: usize,
    files_skipped: usize,
) -> (r: Result<(), ProgressError>)
    ensures
        is_delivery_of(
            r,
            (ProgressMessageView::ScanComplete {
                files_scanned,
                audio_files_found,
                files_skipped,
            }).line(),
            None,
        ),
{
    send_progress_message(
        tx,
        ProgressMessage::ScanComplete { files_scanned, audio_files_found, files_skipped },
    )
}

/// Reports how many files there are to go through.
pub fn send_total_files(tx: &Sender<String>, count: usize) -> (r: Result<(), ProgressError>)
    ensures
        is_delivery_of(
            r,
            (ProgressMessageView::TotalFiles { count }).line(),
            None,
        ),
{
    send_progress_message(tx, ProgressMessage::TotalFiles { count })
}

/// Reports into how many albums the files fell.
pub fn send_grouping_complete(
    tx: &Sender<String>,
    audio_files_count: usize,
    album_groups_count: usize,
) -> (r: Result<(), ProgressError>)
    ensures
        is_delivery_of(
            r,
            (ProgressMessageView::GroupingComplete {
                audio_files_count,
                album_groups_count,
            }).line(),
            None,
        ),
{
    send_progress_message(
        tx,
        ProgressMessage::GroupingComplete { audio_files_count, album_groups_count },
    )
}

/// Reports the end of a release search.
pub fn send_musicbrainz_search_complete(
    tx: &Sender<String>,
    artist: &str,
    album: &str,
    success: bool,
) -> (r: Result<(), ProgressError>)
    ensures
        is_delivery_of(
            r,
            (ProgressMessageView::MusicBrainzSearchComplete {
                artist: artist@,
                album: album@,
                success,
            }).line(),
            None,
        ),
{
    send_progress_message(
        tx,
        ProgressMessage::MusicBrainzSearchComplete {
            artist: String::from_str(artist),
            album: String::from_str(album),
            success,
        },
    )
}

/// Reports that an album is being gone through.
pub fn send_processing_group(tx: &Sender<String>, artist: &str, album: &str) -> (r: Result<
    (),
    ProgressError,
>)
    ensures
        is_delivery_of(
            r,
            (ProgressMessageView::ProcessingGroup { artist: artist@, album: album@ }).line(),
            None,
        ),
{
    send_progress_message(
        tx,
        ProgressMessage::ProcessingGroup {
            artist: String::from_str(artist),
            album: String::from_str(album),
        },
    )
}

/// Reports that an album was gone through.
pub fn send_album_processing_complete(
    tx: &Sender<String>,
    artist: &str,
    album: &str,
    files_processed: usize,
) -> (r: Result<(), ProgressError>)
    ensures
        is_delivery_of(
            r,
            (ProgressMessageView::AlbumProcessingComplete {
                artist: artist@,
                album: album@,
                files_processed,
            }).line(),
            None,
        ),
{
    send_progress_message(
        tx,
        ProgressMessage::AlbumProcessingComplete {
            artist: String::from_str(artist),
            album: String::from_str(album),
            files_processed,
        },
    )
}

/// Reports that an album was skipped for want of a release.
pub fn send_album_skipped(tx: &Sender<String>, artist: &str, album: &str) -> (r: Result<
    (),
    ProgressError,
>)
    ensures
        is_delivery_of(
            r,
            (ProgressMessageView::AlbumSkipped { artist: artist@, album: album@ }).line(),
            None,
        ),
{
    send_progress_message(
        tx,
        ProgressMessage::AlbumSkipped {
            artist: String::from_str(artist),
            album: String::from_str(album),
        },
    )
}

/// Reports that a folder was synchronised.
pub fn send_final_complete(tx: &Sender<String>, folder_name: &str) -> (r: Result<
    (),
    ProgressError,
>)
    ensures
        is_delivery_of(
            r,
            (ProgressMessageView::FinalComplete { folder_name: folder_name@ }).line(),
            None,
        ),
{
    send_progress_message(
        tx,
        ProgressMessage::FinalComplete { folder_name: String::from_str(folder_name) },
    )
}

/// Sends a line as it is.
pub fn send_custom_message(tx: &Sender<String>, message: &str) -> (r: Result<(), ProgressError>)
    ensures
        is_delivery_of(
            r,
            (ProgressMessageView::Custom { message: message@ }).line(),
            None,
        ),
{
    send_progress_message(tx, ProgressMessage::Custom { message: String::from_str(message) })
}

/// Progress of a disc import.
#[derive(Clone, Debug)]
pub enum ImportProgressMessage {
    /// Something worth telling that counts for nothing.
    Info { text: String },
    /// How many tracks the import will go through.
    TotalTracks { count: usize },
    TrackStarted { number: u32, title: String },
    /// How far the reading of a track has come.
    SectorProgress { track: u32, percent: u64, sectors_read: u64 },
    TrackCompleted { number: u32, title: String },
    TrackError { number: u32, title: String, reason: String },
    ImportFinished { artist: String, title: String },
}

/// What a `ImportProgressMessage` holds, as mathematical values.
pub enum ImportProgressView {
    Info { text: Seq<char> },
    TotalTracks { count: usize },
    TrackStarted { number: u32, title: Seq<char> },
    SectorProgress { track: u32, percent: u64, sectors_read: u64 },
    TrackCompleted { number: u32, title: Seq<char> },
    TrackError { number: u32, title: Seq<char>, reason: Seq<char> },
    ImportFinished { artist: Seq<char>, title: Seq<char> },
}

impl View for ImportProgressMessage {
    type V = ImportProgressView;

    open spec fn view(&self) -> ImportProgressView {
        match self {
            ImportProgressMessage::Info { text } => ImportProgressView::Info { text: text@ },
            ImportProgressMessage::TotalTracks { count } => ImportProgressView::TotalTracks {
                count: *count,
            },
            ImportProgressMessage::TrackStarted { number, title } =>
                ImportProgressView::TrackStarted { number: *number, title: title@ },
            ImportProgressMessage::SectorProgress { track, percent, sectors_read } =>
                ImportProgressView::SectorProgress {
                    track: *track,
                    percent: *percent,
                    sectors_read: *sectors_read,
                },
            ImportProgressMessage::TrackCompleted { number, title } =>
                ImportProgressView::TrackCompleted { number: *number, title: title@ },
            ImportProgressMessage::TrackError { number, title, reason } =>
                ImportProgressView::TrackError {
                    number: *number,
                    title: title@,
                    reason: reason@,
                },
            ImportProgressMessage::ImportFinished { artist, title } =>
                ImportProgressView::ImportFinished { artist: artist@, title: title@ },
        }
    }
}

/// The views of a sequence of messages, in order.
pub open spec fn messages_view(messages: Seq<ImportProgressMessage>) -> Seq<ImportProgressView> {
    messages.map_values(|m: ImportProgressMessage| m@)
}

/// Adding a message adds its view.
pub proof fn lemma_messages_view_push(messages: Seq<ImportProgressMessage>, m: ImportProgressMessage)
    ensures
        messages_view(messages.push(m)) == messages_view(messages).push(m@),
{
    assert(messages_view(messages.push(m)) =~= messages_view(messages).push(m@));
}

impl ImportProgressView {
    /// The line that stands for the message.
    pub open spec fn line(self) -> Seq<char> {
        match self {
            ImportProgressView::Info { text } => text,
            ImportProgressView::TotalTracks { count } => "TOTAL_FILES:"@ + decimal(count as nat),
            ImportProgressView::TrackStarted { number, title } => "Importing track: "@ + title,
            ImportProgressView::SectorProgress { track, percent, sectors_read } =>
                "PROGRESS: Reading track "@ + decimal(track as nat) + ": "@ + decimal(
                    percent as nat,
                ) + "% complete ("@ + decimal(sectors_read as nat) + " sectors)"@,
            ImportProgressView::TrackCompleted { number, title } => "COMPLETED: Imported track "@
                + decimal(number as nat) + ": "@ + title,
            ImportProgressView::TrackError { number, title, reason } =>
                "ERROR: Failed to import track "@ + title + ": "@ + reason,
            ImportProgressView::ImportFinished { artist, title } => "Successfully imported CD: "@
                + artist + " - "@ + title,
        }
    }
}

impl ImportProgressMessage {
    /// Format the message for display.
    pub fn format(&self) -> (s: String)
        ensures
            s@ == self@.line(),
    {
        match self {
            ImportProgressMessage::Info { text } => text.clone(),
            ImportProgressMessage::TotalTracks { count } => {
                let mut s = String::from_str("TOTAL_FILES:");
                push_decimal(&mut s, *count as u64);
                s
            },
            ImportProgressMessage::TrackStarted { number, title } => {
                let mut s = String::from_str("Importing track: ");
                s.append(title.as_str());
                s
            },
            ImportProgressMessage::SectorProgress { track, percent, sectors_read } => {
                let mut s = String::from_str("PROGRESS: Reading track ");
                push_decimal(&mut s, *track as u64);
                s.append(": ");
                push_decimal(&mut s, *percent);
                s.append("% complete (");
                push_decimal(&mut s, *sectors_read);
                s.append(" sectors)");
                s
            },
            ImportProgressMessage::TrackCompleted { number, title } => {
                let mut s = String::from_str("COMPLETED: Imported track ");
                push_decimal(&mut s, *number as u64);
                s.append(": ");
                s.append(title.as_str());
                s
            },
            ImportProgressMessage::TrackError { number, title, reason } => {
                let mut s = String::from_str("ERROR: Failed to import track ");
                s.append(title.as_str());
                s.append(": ");
                s.append(reason.as_str());
                s
            },
            ImportProgressMessage::ImportFinished { artist, title } => {
                let mut s = String::from_str("Successfully imported CD: ");
                s.append(artist.as_str());
                s.append(" - ");
                s.append(title.as_str());
                s
            },
        }
    }

    /// An untagged line.
    pub fn info(text: &str) -> (m: ImportProgressMessage)
        ensures
            m@ == (ImportProgressView::Info { text: text@ }),
    {
        ImportProgressMessage::Info { text: String::from_str(text) }
    }
}

} // verus!
