//! The flat views of the library: a link for each album under `Albums`, a
//! link for each track under `Tracks`. What the links are called, and what
//! becomes of a link that is already there.

use vstd::prelude::*;
use vstd::string::*;
use crate::paths::{
    file_name, join_path, joined_path, parent, path_file_name, path_parent, path_starts_with,
    starts_with,
};

verus! {

/// Why a path gets no link.
#[derive(Clone, Copy, Debug, PartialEq, Eq, Structural)]
pub enum LinkError {
    /// The album does not lie below the directory of all artists.
    OutsideArtists,
    /// The album has no directory above it.
    NoParent,
    /// The album does not lie in an artist's directory directly below the
    /// directory of all artists.
    WrongDepth,
    /// A directory that the link is named after has no name.
    NoName,
}

/// A link that is to be there.
#[derive(Clone, Debug)]
pub struct LinkPlan {
    /// The directory that holds the links.
    pub directory: String,
    /// The link.
    pub link: String,
    /// What the link points to.
    pub target: String,
}

/// What a `LinkPlan` holds, as mathematical values.
pub struct LinkPlanView {
    pub directory: Seq<char>,
    pub link: Seq<char>,
    pub target: Seq<char>,
}

impl View for LinkPlan {
    type V = LinkPlanView;

    open spec fn view(&self) -> LinkPlanView {
        LinkPlanView { directory: self.directory@, link: self.link@, target: self.target@ }
    }
}

/// The link of an album: `Albums/<artist> - <album>` in the music
/// directory, for an album that lies at `Artists/<artist>/<album>`.
pub open spec fn album_link(album_path: Seq<char>, music_dir: Seq<char>) -> Result<
    LinkPlanView,
    LinkError,
> {
    let artists_path = joined_path(music_dir, "Artists"@);
    if !path_starts_with(album_path, artists_path) {
        Err(LinkError::OutsideArtists)
    } else {
        match path_parent(album_path) {
            None => Err(LinkError::NoParent),
            Some(artist_path) => if path_parent(artist_path) != Some(artists_path) {
                Err(LinkError::WrongDepth)
            } else {
                match (path_file_name(artist_path), path_file_name(album_path)) {
                    (Some(artist), Some(album)) => Ok(
                        LinkPlanView {
                            directory: joined_path(music_dir, "Albums"@),
                            link: joined_path(
                                joined_path(music_dir, "Albums"@),
                                artist + " - "@ + album,
                            ),
                            target: album_path,
                        },
                    ),
                    _ => Err(LinkError::NoName),
                }
            },
        }
    }
}

/// The view of a link or of the reason there is none.
pub open spec fn link_view(r: Result<LinkPlan, LinkError>) -> Result<LinkPlanView, LinkError> {
    match r {
        Ok(plan) => Ok(plan@),
        Err(e) => Err(e),
    }
}

/// The link that is to be there for an album.
pub fn process_single_album_symlink(album_path: &str, music_dir: &str) -> (r: Result<
    LinkPlan,
    LinkError,
>)
    ensures
        link_view(r) == album_link(album_path@, music_dir@),
{
    let artists_path = join_path(music_dir, "Artists");
    if !starts_with(album_path, artists_path.as_str()) {
        return Err(LinkError::OutsideArtists);
    }
    match parent(album_path) {
        None => Err(LinkError::NoParent),
        Some(artist_path) => {
            let above = parent(artist_path.as_str());
            let directly_below = match &above {
                Some(dir) => dir.as_str().eq(artists_path.as_str()),
                None => false,
            };
            if !directly_below {
                return Err(LinkError::WrongDepth);
            }
            match (file_name(artist_path.as_str()), file_name(album_path)) {
                (Some(artist), Some(album)) => {
                    let directory = join_path(music_dir, "Albums");
                    let mut name = artist;
                    name.append(" - ");
                    name.append(album.as_str());
                    let link = join_path(directory.as_str(), name.as_str());
                    Ok(LinkPlan { directory, link, target: String::from_str(album_path) })
                },
                _ => Err(LinkError::NoName),
            }
        },
    }
}

/// The link of a track: its file name under `Tracks` in the music
/// directory.
pub open spec fn track_link(track_path: Seq<char>, music_dir: Seq<char>) -> Result<
    LinkPlanView,
    LinkError,
> {
    match path_file_name(track_path) {
        Some(name) => Ok(
            LinkPlanView {
                directory: joined_path(music_dir, "Tracks"@),
                link: joined_path(joined_path(music_dir, "Tracks"@), name),
                target: track_path,
            },
        ),
        None => Err(LinkError::NoName),
    }
}

/// The link that is to be there for a track.
pub fn process_single_track_symlink(track_path: &str, music_dir: &str) -> (r: Result<
    LinkPlan,
    LinkError,
>)
    ensures
        link_view(r) == track_link(track_path@, music_dir@),
{
    match file_name(track_path) {
        Some(name) => {
            let directory = join_path(music_dir, "Tracks");
            let link = join_path(directory.as_str(), name.as_str());
            Ok(LinkPlan { directory, link, target: String::from_str(track_path) })
        },
        None => Err(LinkError::NoName),
    }
}

/// What becomes of the place where a link is to be.
#[derive(Clone, Copy, Debug, PartialEq, Eq, Structural)]
pub enum LinkAction {
    /// The link is there and points where it should.
    Keep,
    /// Something else is there: remove it, then make the link.
    Replace,
    /// Nothing is there: make the link.
    Create,
}

/// What becomes of the place where a link is to be: a link to the right
/// target is kept, anything else that is there is replaced.
pub open spec fn link_action(exists: bool, is_symlink: bool, points_to_target: bool) -> LinkAction {
    if !exists {
        LinkAction::Create
    } else if is_symlink && points_to_target {
        LinkAction::Keep
    } else {
        LinkAction::Replace
    }
}

/// What becomes of the place where a link is to be.
pub fn existing_link_action(exists: bool, is_symlink: bool, points_to_target: bool) -> (action:
    LinkAction)
    ensures
        action == link_action(exists, is_symlink, points_to_target),
{
    if !exists {
        LinkAction::Create
    } else if is_symlink && points_to_target {
        LinkAction::Keep
    } else {
        LinkAction::Replace
    }
}

} // verus!
