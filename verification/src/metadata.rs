//! Metadata of music files: the tag fields the library writes, and what it
//! reads off a file's tags and its place in the directory tree.

use vstd::prelude::*;
use vstd::string::*;
use crate::paths::{
    file_name, file_stem, parent, path_file_name, path_parent, path_stem,
};
use crate::text::{
    before_first, chars_of, join, joined, lemma_lines_view_push, lines_view, split_words,
    string_of, take_before, trim, trimmed, unicode_lowercase, words,
};

verus! {

/// The tag fields the library writes.
#[derive(Clone, Copy, Debug, PartialEq, Eq, Structural)]
pub enum TagKey {
    TrackTitle,
    TrackArtist,
    AlbumTitle,
    AlbumArtist,
    TrackNumber,
    MusicBrainzReleaseId,
}

/// A tag field and the text to put in it.
#[derive(Clone, Debug)]
pub struct TagField {
    pub key: TagKey,
    pub value: String,
}

/// What a `TagField` holds, as mathematical values.
pub struct TagFieldView {
    pub key: TagKey,
    pub value: Seq<char>,
}

impl View for TagField {
    type V = TagFieldView;

    open spec fn view(&self) -> TagFieldView {
        TagFieldView { key: self.key, value: self.value@ }
    }
}

/// The views of a sequence of tag fields, in order.
pub open spec fn fields_view(fields: Seq<TagField>) -> Seq<TagFieldView> {
    fields.map_values(|f: TagField| f@)
}

/// Adding a field adds its view.
pub proof fn lemma_fields_view_push(fields: Seq<TagField>, f: TagField)
    ensures
        fields_view(fields.push(f)) == fields_view(fields).push(f@),
{
    assert(fields_view(fields.push(f)) =~= fields_view(fields).push(f@));
}

/// A field with its text.
pub open spec fn field(key: TagKey, value: Seq<char>) -> TagFieldView {
    TagFieldView { key, value }
}

/// The fields that tie a file to a release: track artist, album artist and
/// album title, then the release identifier.
pub open spec fn enhanced_fields(artist: Seq<char>, album: Seq<char>, release_id: Seq<char>) -> Seq<
    TagFieldView,
> {
    seq![
        field(TagKey::TrackArtist, artist),
        field(TagKey::AlbumArtist, artist),
        field(TagKey::AlbumTitle, album),
        field(TagKey::MusicBrainzReleaseId, release_id),
    ]
}

pub(crate) fn make_field(key: TagKey, value: &str) -> (f: TagField)
    ensures
        f@ == field(key, value@),
{
    TagField { key, value: String::from_str(value) }
}

/// The fields to write into a file that was matched to a release.
pub fn set_enhanced_metadata(artist: &str, album: &str, release_id: &str) -> (fields: Vec<TagField>)
    ensures
        fields_view(fields@) == enhanced_fields(artist@, album@, release_id@),
{
    let mut fields: Vec<TagField> = Vec::new();
    fields.push(make_field(TagKey::TrackArtist, artist));
    fields.push(make_field(TagKey::AlbumArtist, artist));
    fields.push(make_field(TagKey::AlbumTitle, album));
    fields.push(make_field(TagKey::MusicBrainzReleaseId, release_id));
    assert(fields_view(fields@) =~= enhanced_fields(artist@, album@, release_id@));
    fields
}

/// What a directory name stands for.
#[derive(Clone, Copy, Debug, PartialEq, Eq, Structural)]
pub enum NameKind {
    Album,
    Artist,
}

/// Words that say what a directory is rather than what it is called, in
/// lower case: for albums `album`, `music`, `songs`, `tracks` and
/// `collection`; for artists `artist`, `band`, `group`, `music` and
/// `collection`.
pub open spec fn is_filler(kind: NameKind, word: Seq<char>) -> bool {
    match kind {
        NameKind::Album => word == "album"@ || word == "music"@ || word == "songs"@ || word
            == "tracks"@ || word == "collection"@,
        NameKind::Artist => word == "artist"@ || word == "band"@ || word == "group"@ || word
            == "music"@ || word == "collection"@,
    }
}

/// The name used where a directory name leaves nothing.
pub open spec fn default_name(kind: NameKind) -> Seq<char> {
    match kind {
        NameKind::Album => "Unknown Album"@,
        NameKind::Artist => "Various Artists"@,
    }
}

/// A name with `_` and `-` read as spaces.
pub open spec fn spaced(name: Seq<char>) -> Seq<char> {
    name.map_values(
        |c: char|
            if c == '_' || c == '-' {
                ' '
            } else {
                c
            },
    )
}

/// The words that are kept: those that are no filler, whatever their case.
pub open spec fn kept_words(all: Seq<Seq<char>>, kind: NameKind) -> Seq<Seq<char>> {
    all.filter(|w: Seq<char>| !is_filler(kind, unicode_lowercase(w)))
}

/// The name that a directory name stands for: its words without the
/// fillers, with single spaces between them; the default name where no word
/// is left.
pub open spec fn cleaned_name(name: Seq<char>, kind: NameKind) -> Seq<char> {
    let cleaned = trimmed(joined(kept_words(words(spaced(name)), kind), " "@));
    if cleaned.len() == 0 {
        default_name(kind)
    } else {
        cleaned
    }
}

/// The name that a directory stands for: that of its last component; the
/// default name where it has none.
pub open spec fn directory_name(dir: Seq<char>, kind: NameKind) -> Seq<char> {
    match path_file_name(dir) {
        Some(name) => cleaned_name(name, kind),
        None => default_name(kind),
    }
}

/// Why a path tells no artist and album.
#[derive(Clone, Debug)]
pub enum MetadataError {
    /// The file has no directory above it.
    NoParent { path: String },
    /// The album directory has no directory above it.
    NoAlbumParent { path: String },
}

/// What a `MetadataError` holds, as mathematical values.
pub enum MetadataErrorView {
    NoParent { path: Seq<char> },
    NoAlbumParent { path: Seq<char> },
}

impl View for MetadataError {
    type V = MetadataErrorView;

    open spec fn view(&self) -> MetadataErrorView {
        match self {
            MetadataError::NoParent { path } => MetadataErrorView::NoParent { path: path@ },
            MetadataError::NoAlbumParent { path } => MetadataErrorView::NoAlbumParent {
                path: path@,
            },
        }
    }
}

impl MetadataErrorView {
    /// The text of the error.
    pub open spec fn text(self) -> Seq<char> {
        match self {
            MetadataErrorView::NoParent { path } => "File '"@ + path + "' has no parent directory"@,
            MetadataErrorView::NoAlbumParent { path } => "Album directory '"@ + path
                + "' has no parent"@,
        }
    }
}

impl MetadataError {
    /// The text shown to the user.
    pub fn message(&self) -> (s: String)
        ensures
            s@ == self@.text(),
    {
        match self {
            MetadataError::NoParent { path } => {
                let mut s = String::from_str("File '");
                s.append(path.as_str());
                s.append("' has no parent directory");
                s
            },
            MetadataError::NoAlbumParent { path } => {
                let mut s = String::from_str("Album directory '");
                s.append(path.as_str());
                s.append("' has no parent");
                s
            },
        }
    }
}

/// Artist and album as the place of a file in the directory tree tells
/// them: the album from the directory the file lies in, the artist from the
/// directory above that.
pub open spec fn path_metadata(path: Seq<char>) -> Result<(Seq<char>, Seq<char>), MetadataErrorView> {
    match path_parent(path) {
        None => Err(MetadataErrorView::NoParent { path }),
        Some(album_dir) => match path_parent(album_dir) {
            None => Err(MetadataErrorView::NoAlbumParent { path: album_dir }),
            Some(artist_dir) => Ok(
                (
                    directory_name(artist_dir, NameKind::Artist),
                    directory_name(album_dir, NameKind::Album),
                ),
            ),
        },
    }
}

/// The view of artist and album, or of the reason there are none.
pub open spec fn metadata_view(r: Result<(String, String), MetadataError>) -> Result<
    (Seq<char>, Seq<char>),
    MetadataErrorView,
> {
    match r {
        Ok((artist, album)) => Ok((artist@, album@)),
        Err(e) => Err(e@),
    }
}

/// Whether a word, in lower case, is one that stands for no name of the
/// kind.
pub fn filler(kind: NameKind, word: &str) -> (r: bool)
    ensures
        r == is_filler(kind, word@),
{
    match kind {
        NameKind::Album => word.eq("album") || word.eq("music") || word.eq("songs") || word.eq(
            "tracks",
        ) || word.eq("collection"),
        NameKind::Artist => word.eq("artist") || word.eq("band") || word.eq("group") || word.eq(
            "music",
        ) || word.eq("collection"),
    }
}

/// The name that a directory name stands for.
pub fn clean_name(name: &str, kind: NameKind) -> (r: String)
    ensures
        r@ == cleaned_name(name@, kind),
{
    let chars = chars_of(name);
    let mut with_spaces: Vec<char> = Vec::new();
    let mut i: usize = 0;
    while i < chars.len()
        invariant
            i <= chars.len(),
            chars@ == name@,
            with_spaces@ == spaced(name@.take(i as int)),
        decreases chars.len() - i,
    {
        let c = chars[i];
        with_spaces.push(
            if c == '_' || c == '-' {
                ' '
            } else {
                c
            },
        );
        assert(spaced(name@.take(i + 1)) =~= spaced(name@.take(i as int)).push(
            spaced(name@)[i as int],
        ));
        i += 1;
    }
    assert(name@.take(name@.len() as int) == name@);
    let all = split_words(&with_spaces);
    let ghost all_words = all@.map_values(|w: Vec<char>| w@);
    let ghost keep = |w: Seq<char>| !is_filler(kind, unicode_lowercase(w));
    let mut kept: Vec<String> = Vec::new();
    let mut k: usize = 0;
    proof {
        reveal(Seq::filter);
        assert(all_words.take(0).filter(keep) =~= Seq::<Seq<char>>::empty());
        assert(lines_view(kept@) =~= Seq::<Seq<char>>::empty());
    }
    while k < all.len()
        invariant
            k <= all.len(),
            all_words == all@.map_values(|w: Vec<char>| w@),
            keep == (|w: Seq<char>| !is_filler(kind, unicode_lowercase(w))),
            lines_view(kept@) == all_words.take(k as int).filter(keep),
        decreases all.len() - k,
    {
        let word = string_of(&all[k]);
        proof {
            assert(all_words.take(k + 1) =~= all_words.take(k as int).push(word@));
            all_words.take(k as int).lemma_filter_push(word@, keep);
        }
        let lower = word.as_str().to_lowercase();
        if !filler(kind, lower.as_str()) {
            proof {
                lemma_lines_view_push(kept@, word);
            }
            kept.push(word);
        }
        k += 1;
    }
    assert(all_words.take(all_words.len() as int) == all_words);
    let cleaned = trim(&chars_of(join(&kept, " ").as_str()));
    if cleaned.len() == 0 {
        match kind {
            NameKind::Album => String::from_str("Unknown Album"),
            NameKind::Artist => String::from_str("Various Artists"),
        }
    } else {
        string_of(&cleaned)
    }
}

fn name_of_directory(dir: &str, kind: NameKind) -> (r: String)
    ensures
        r@ == directory_name(dir@, kind),
{
    match file_name(dir) {
        Some(name) => clean_name(name.as_str(), kind),
        None => match kind {
            NameKind::Album => String::from_str("Unknown Album"),
            NameKind::Artist => String::from_str("Various Artists"),
        },
    }
}

/// Extract artist and album from file path when tags are not available.
pub fn extract_from_path(file_path: &str) -> (r: Result<(String, String), MetadataError>)
    ensures
        metadata_view(r) == path_metadata(file_path@),
{
    match parent(file_path) {
        None => Err(MetadataError::NoParent { path: String::from_str(file_path) }),
        Some(album_dir) => match parent(album_dir.as_str()) {
            None => Err(MetadataError::NoAlbumParent { path: album_dir }),
            Some(artist_dir) => Ok(
                (
                    name_of_directory(artist_dir.as_str(), NameKind::Artist),
                    name_of_directory(album_dir.as_str(), NameKind::Album),
                ),
            ),
        },
    }
}

/// What a file's first tag says of artist and album.
#[derive(Clone, Debug)]
pub struct FileTags {
    pub album_artist: Option<String>,
    pub track_artist: Option<String>,
    pub album_title: Option<String>,
}

/// The artist that a file name tells: what stands before the first " - "
/// in its stem; "Unknown Artist" where the path has no file name.
pub open spec fn artist_from_file_name(path: Seq<char>) -> Seq<char> {
    match path_stem(path) {
        Some(stem) => before_first(stem, " - "@),
        None => before_first("Unknown Artist"@, " - "@),
    }
}

/// The album that the place of a file tells without more ado: the name of
/// the directory it lies in; "Unknown Album" where there is none.
pub open spec fn album_from_directory(path: Seq<char>) -> Seq<char> {
    match path_parent(path) {
        Some(dir) => match path_file_name(dir) {
            Some(name) => name,
            None => "Unknown Album"@,
        },
        None => "Unknown Album"@,
    }
}

/// Artist and album of a file. With a tag: the album artist, else the
/// track artist, else what the file name tells; and the album title, else the
/// name of the directory. Without a tag: what the path tells.
pub open spec fn file_metadata(path: Seq<char>, tags: Option<FileTags>) -> Result<
    (Seq<char>, Seq<char>),
    MetadataErrorView,
> {
    match tags {
        Some(tag) => Ok(
            (
                match tag.album_artist {
                    Some(artist) => artist@,
                    None => match tag.track_artist {
                        Some(artist) => artist@,
                        None => artist_from_file_name(path),
                    },
                },
                match tag.album_title {
                    Some(album) => album@,
                    None => album_from_directory(path),
                },
            ),
        ),
        None => path_metadata(path),
    }
}

fn file_name_artist(file_path: &str) -> (r: String)
    ensures
        r@ == artist_from_file_name(file_path@),
{
    let stem = match file_stem(file_path) {
        Some(stem) => stem,
        None => String::from_str("Unknown Artist"),
    };
    let head = take_before(&chars_of(stem.as_str()), &chars_of(" - "));
    string_of(&head)
}

fn directory_album(file_path: &str) -> (r: String)
    ensures
        r@ == album_from_directory(file_path@),
{
    match parent(file_path) {
        Some(dir) => match file_name(dir.as_str()) {
            Some(name) => name,
            None => String::from_str("Unknown Album"),
        },
        None => String::from_str("Unknown Album"),
    }
}

/// Extract artist and album information from a music file: from its first
/// tag where it was read and has one, else from its path.
pub fn extract_artist_album_from_file(file_path: &str, tags: Option<&FileTags>) -> (r: Result<
    (String, String),
    MetadataError,
>)
    ensures
        metadata_view(r) == file_metadata(
            file_path@,
            match tags {
                Some(tag) => Some(*tag),
                None => None,
            },
        ),
{
    match tags {
        Some(tag) => {
            let artist = match &tag.album_artist {
                Some(artist) => artist.clone(),
                None => match &tag.track_artist {
                    Some(artist) => artist.clone(),
                    None => file_name_artist(file_path),
                },
            };
            let album = match &tag.album_title {
                Some(album) => album.clone(),
                None => directory_album(file_path),
            };
            Ok((artist, album))
        },
        None => extract_from_path(file_path),
    }
}

} // verus!
