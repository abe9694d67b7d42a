//! Tag synchronisation of one album folder: what the folder is called, how
//! its files fall into albums, and how much there is to do.

use vstd::prelude::*;
use vstd::string::*;
use crate::directory::{entries_view, AlbumGroup, FileEntry, FileEntryView};
use crate::metadata::{file_metadata, FileTags};
use crate::organize::{album_map, index_files, lists_contents};
use crate::paths::{file_name, parent, path_file_name, path_parent};
use crate::tagging::{extract_artist_album_from_path_with_fallback, metadata_or_folder};

verus! {

/// An audio file of the folder with what its first tag says, where it was
/// read and has one.
#[derive(Clone, Debug)]
pub struct TaggedFile {
    pub path: String,
    pub tags: Option<FileTags>,
}

/// Why a folder cannot be synchronised.
#[derive(Clone, Copy, Debug, PartialEq, Eq, Structural)]
pub enum SyncError {
    /// The album folder has no folder above it.
    NoParent,
    /// The album folder or the folder above it has no name.
    NoName,
}

impl SyncError {
    /// The text of the error.
    pub open spec fn text(self) -> Seq<char> {
        match self {
            SyncError::NoParent => "Album path has no parent"@,
            SyncError::NoName => "Album path has no artist or album name"@,
        }
    }

    /// The text shown to the user.
    pub fn message(&self) -> (s: String)
        ensures
            s@ == self.text(),
    {
        match self {
            SyncError::NoParent => String::from_str("Album path has no parent"),
            SyncError::NoName => String::from_str("Album path has no artist or album name"),
        }
    }
}

/// Artist and album that an album folder stands for: the name of the folder
/// above it and its own.
pub open spec fn folder_names(album_path: Seq<char>) -> Result<(Seq<char>, Seq<char>), SyncError> {
    match path_parent(album_path) {
        None => Err(SyncError::NoParent),
        Some(artist_path) => match (path_file_name(artist_path), path_file_name(album_path)) {
            (Some(artist), Some(album)) => Ok((artist, album)),
            _ => Err(SyncError::NoName),
        },
    }
}

/// Artist and album that an album folder stands for.
pub fn folder_artist_and_album(album_path: &str) -> (r: Result<(String, String), SyncError>)
    ensures
        match r {
            Ok((artist, album)) => folder_names(album_path@) == Ok::<
                (Seq<char>, Seq<char>),
                SyncError,
            >((artist@, album@)),
            Err(e) => folder_names(album_path@) == Err::<(Seq<char>, Seq<char>), SyncError>(e),
        },
{
    match parent(album_path) {
        None => Err(SyncError::NoParent),
        Some(artist_path) => match (file_name(artist_path.as_str()), file_name(album_path)) {
            (Some(artist), Some(album)) => Ok((artist, album)),
            _ => Err(SyncError::NoName),
        },
    }
}

/// A file of the folder under the artist and album it is synchronised as:
/// those its tag or path tell, else those of the folder.
pub open spec fn synced_entry(file: TaggedFile, folder_artist: Seq<char>, folder_album: Seq<char>) -> FileEntryView {
    let names = metadata_or_folder(file_metadata(file.path@, file.tags), folder_artist, folder_album);
    FileEntryView { path: file.path@, artist: names.0, album: names.1 }
}

/// What a synchronisation of an album folder has to do.
#[derive(Clone, Debug)]
pub struct SyncPlan {
    pub folder_artist: String,
    pub folder_album: String,
    /// The files of the folder, sorted into albums.
    pub groups: Vec<AlbumGroup>,
    /// Files to tag plus albums to look up, as far as it can be counted.
    pub total_tasks: usize,
}

/// The number of tasks: one for each file and one for each album, held at
/// the largest number where the sum is beyond it.
pub open spec fn task_count(files: nat, albums: nat) -> usize {
    if files + albums <= usize::MAX {
        (files + albums) as usize
    } else {
        usize::MAX
    }
}

/// Plans the synchronisation of an album folder from its audio files.
pub fn process_single_album_sync_tags(album_path: &str, files: &Vec<TaggedFile>) -> (r: Result<
    SyncPlan,
    SyncError,
>)
    ensures
        match r {
            Ok(plan) => {
                &&& folder_names(album_path@) == Ok::<(Seq<char>, Seq<char>), SyncError>(
                    (plan.folder_artist@, plan.folder_album@),
                )
                &&& lists_contents(
                    plan.groups@,
                    album_map(
                        files@.map_values(
                            |f: TaggedFile| synced_entry(f, plan.folder_artist@, plan.folder_album@),
                        ),
                    ),
                )
                &&& plan.total_tasks == task_count(files@.len(), plan.groups@.len())
            },
            Err(e) => folder_names(album_path@) == Err::<(Seq<char>, Seq<char>), SyncError>(e),
        },
{
    match folder_artist_and_album(album_path) {
        Err(e) => Err(e),
        Ok((folder_artist, folder_album)) => {
            let mut entries: Vec<FileEntry> = Vec::new();
            let mut i: usize = 0;
            while i < files.len()
                invariant
                    i <= files.len(),
                    entries@.len() == i,
                    forall|k: int|
                        0 <= k < i ==> (#[trigger] entries@[k])@ == synced_entry(
                            files@[k],
                            folder_artist@,
                            folder_album@,
                        ),
                decreases files.len() - i,
            {
                let file = &files[i];
                let (artist, album) = extract_artist_album_from_path_with_fallback(
                    file.path.as_str(),
                    file.tags.as_ref(),
                    folder_artist.as_str(),
                    folder_album.as_str(),
                );
                entries.push(FileEntry { path: file.path.clone(), artist, album });
                i += 1;
            }
            assert(entries_view(entries@) =~= files@.map_values(
                |f: TaggedFile| synced_entry(f, folder_artist@, folder_album@),
            ));
            let groups = index_files(&entries);
            let total_tasks = match files.len().checked_add(groups.len()) {
                Some(sum) => sum,
                None => usize::MAX,
            };
            Ok(SyncPlan { folder_artist, folder_album, groups, total_tasks })
        },
    }
}

} // verus!
