//! Reporting on files whose tags were tied to a release, and the choice
//! between what a file says of itself and what its folder says.

use std::sync::mpsc::Sender;
use vstd::prelude::*;
use vstd::string::*;
use crate::metadata::{
    extract_artist_album_from_file, file_metadata, FileTags, MetadataErrorView,
};
use crate::progress::{
    is_delivery_of, send_progress_message, ProgressError, ProgressMessage,
};

verus! {

/// The line that reports on a file after its release identifier was
/// written: that it was updated, or why it could not be saved.
pub open spec fn release_id_line(path: Seq<char>, saved: Result<(), String>) -> Seq<char> {
    match saved {
        Ok(_) => "COMPLETED: "@ + path + " - MusicBrainz ID updated"@,
        Err(why) => "COMPLETED: "@ + path + " - Failed to save MusicBrainz ID: "@ + why@,
    }
}

/// The line that reports on a file after its release identifier was written.
pub fn release_id_report(file_path: &str, saved: &Result<(), String>) -> (line: String)
    ensures
        line@ == release_id_line(file_path@, *saved),
{
    let mut line = String::from_str("COMPLETED: ");
    line.append(file_path);
    match saved {
        Ok(_) => {
            line.append(" - MusicBrainz ID updated");
        },
        Err(why) => {
            line.append(" - Failed to save MusicBrainz ID: ");
            line.append(why.as_str());
        },
    }
    line
}

/// Reports on a file whose release identifier was written, or could not be.
/// Either way the file counts as gone through; only a line that cannot be
/// delivered is an error.
pub fn update_musicbrainz_release_id(
    file_path: &str,
    saved: &Result<(), String>,
    tx: &Sender<String>,
) -> (r: Result<(), ProgressError>)
    ensures
        is_delivery_of(r, release_id_line(file_path@, *saved), None),
{
    send_progress_message(
        tx,
        ProgressMessage::Custom { message: release_id_report(file_path, saved) },
    )
}

/// Artist and album of a file where they can be had from the file, else
/// those of the folder.
pub open spec fn metadata_or_folder(
    found: Result<(Seq<char>, Seq<char>), MetadataErrorView>,
    folder_artist: Seq<char>,
    folder_album: Seq<char>,
) -> (Seq<char>, Seq<char>) {
    match found {
        Ok(pair) => pair,
        Err(_) => (folder_artist, folder_album),
    }
}

/// Extract artist and album from a file with fallback to folder names.
pub fn extract_artist_album_from_path_with_fallback(
    file_path: &str,
    tags: Option<&FileTags>,
    folder_artist: &str,
    folder_album: &str,
) -> (r: (String, String))
    ensures
        (r.0@, r.1@) == metadata_or_folder(
            file_metadata(
                file_path@,
                match tags {
                    Some(tag) => Some(*tag),
                    None => None,
                },
            ),
            folder_artist@,
            folder_album@,
        ),
{
    match extract_artist_album_from_file(file_path, tags) {
        Ok((artist, album)) => (artist, album),
        Err(_) => (String::from_str(folder_artist), String::from_str(folder_album)),
    }
}

/// Reports on a music file that was tied to a release.
pub fn process_music_file_with_musicbrainz(
    file_path: &str,
    saved: &Result<(), String>,
    tx: &Sender<String>,
) -> (r: Result<(), ProgressError>)
    ensures
        is_delivery_of(r, release_id_line(file_path@, *saved), None),
{
    update_musicbrainz_release_id(file_path, saved, tx)
}

} // verus!
