//! Decisions of the commands that sort files into the library: which files
//! are music, which of them say enough of themselves to be sorted, and under
//! what names their directories go.

use vstd::prelude::*;
use vstd::string::*;
use crate::directory::{
    album_files, entries_view, is_plan_of_groups, plan_groups, AlbumGroup, AlbumPlan, FileEntry,
    FileEntryView, TransferKind,
};
use crate::paths::{extension, path_extension};
use crate::tally::{
    all_operations, law_group_plans_hold_every_file, law_groups_hold_every_file,
};
use crate::utils::sanitized;
use crate::text::{
    chars_of, lines_view, string_of, trim, trimmed, unicode_control, unicode_lowercase,
};

verus! {

/// Characters that the sorting commands take out of a directory name. The
/// apostrophe is not among them.
pub open spec fn forbidden_in_directory(c: char) -> bool {
    c == '/' || c == '\\' || c == ':' || c == '*' || c == '?' || c == '"' || c == '<' || c == '>'
        || c == '|' || unicode_control(c)
}

/// A forbidden character becomes an underscore, any other stays.
pub open spec fn directory_char(c: char) -> char {
    if forbidden_in_directory(c) {
        '_'
    } else {
        c
    }
}

/// The name with every forbidden character replaced and the surrounding
/// white space removed.
pub open spec fn directory_name_of(name: Seq<char>) -> Seq<char> {
    trimmed(name.map_values(|c: char| directory_char(c)))
}

fn replace_forbidden(c: char) -> (r: char)
    ensures
        r == directory_char(c),
{
    if c == '/' || c == '\\' || c == ':' || c == '*' || c == '?' || c == '"' || c == '<' || c == '>'
        || c == '|' || c.is_control() {
        '_'
    } else {
        c
    }
}

/// Makes a name safe for use as a directory of the library.
pub fn sanitize_filename(name: &str) -> (r: String)
    ensures
        r@ == directory_name_of(name@),
{
    let chars = chars_of(name);
    let mut mapped: Vec<char> = Vec::new();
    let mut i: usize = 0;
    while i < chars.len()
        invariant
            i <= chars.len(),
            chars@ == name@,
            mapped@ == name@.take(i as int).map_values(|c: char| directory_char(c)),
        decreases chars.len() - i,
    {
        mapped.push(replace_forbidden(chars[i]));
        assert(name@.take(i + 1).map_values(|c: char| directory_char(c)) =~= name@.take(
            i as int,
        ).map_values(|c: char| directory_char(c)).push(directory_char(name@[i as int])));
        i += 1;
    }
    assert(name@.take(name@.len() as int) == name@);
    let kept = trim(&mapped);
    string_of(&kept)
}

/// The extensions, in lower case, that the sorting commands take for music.
pub open spec fn is_music_extension(ext: Seq<char>) -> bool {
    ext == "mp3"@ || ext == "flac"@ || ext == "m4a"@ || ext == "ogg"@ || ext == "aac"@ || ext
        == "wma"@ || ext == "wav"@ || ext == "aiff"@
}

/// Whether the sorting commands take a path for music: by its extension,
/// whatever its case.
pub open spec fn is_music_path(path: Seq<char>) -> bool {
    is_music_extension(
        match path_extension(path) {
            Some(ext) => unicode_lowercase(ext),
            None => Seq::empty(),
        },
    )
}

/// Whether an extension in lower case is one of music.
pub fn is_music_extension_name(ext: &str) -> (r: bool)
    ensures
        r == is_music_extension(ext@),
{
    ext.eq("mp3") || ext.eq("flac") || ext.eq("m4a") || ext.eq("ogg") || ext.eq("aac") || ext.eq(
        "wma",
    ) || ext.eq("wav") || ext.eq("aiff")
}

/// Whether the sorting commands take a path for music.
pub fn is_music_file(path: &str) -> (r: bool)
    ensures
        r == is_music_path(path@),
{
    let lower = match extension(path) {
        Some(ext) => ext.as_str().to_lowercase(),
        None => String::new(),
    };
    is_music_extension_name(lower.as_str())
}

/// Whether artist and album say enough for a file to be imported: neither
/// is empty, the artist is not "Unknown Artist" and the album is not
/// "Unknown Album".
pub open spec fn is_proper_metadata(artist: Seq<char>, album: Seq<char>) -> bool {
    artist.len() > 0 && album.len() > 0 && artist != "Unknown Artist"@ && album
        != "Unknown Album"@
}

/// Whether artist and album say enough for a file to be imported.
pub fn has_proper_metadata(artist: &str, album: &str) -> (r: bool)
    ensures
        r == is_proper_metadata(artist@, album@),
{
    !artist.is_empty() && !album.is_empty() && !artist.eq("Unknown Artist") && !album.eq(
        "Unknown Album",
    )
}

/// The hasher factory of `rustc_hash`. The library builds maps with it and
/// looks at nothing inside it.
#[verifier::external_type_specification]
#[verifier::external_body]
pub struct ExFxBuildHasher(rustc_hash::FxBuildHasher);

/// What an `FxHashMap` from pairs of artist and album to lists of paths
/// holds: for each pair that has an entry, the paths of its list in the order
/// in which they were added.
pub uninterp spec fn album_index_contents(
    index: rustc_hash::FxHashMap<(String, String), Vec<String>>,
) -> Map<(Seq<char>, Seq<char>), Seq<Seq<char>>>;

/// An index without albums.
pub open spec fn no_albums() -> Map<(Seq<char>, Seq<char>), Seq<Seq<char>>> {
    Map::empty()
}

/// The contents after one more file: the files of its album grow by its
/// path; an album that had none begins with it.
pub open spec fn with_file(
    contents: Map<(Seq<char>, Seq<char>), Seq<Seq<char>>>,
    artist: Seq<char>,
    album: Seq<char>,
    path: Seq<char>,
) -> Map<(Seq<char>, Seq<char>), Seq<Seq<char>>> {
    contents.insert(
        (artist, album),
        if contents.dom().contains((artist, album)) {
            contents[(artist, album)].push(path)
        } else {
            seq![path]
        },
    )
}

/// Whether the groups list what an index holds: every album that has files
/// is listed once, with its files, and nothing else is listed.
pub open spec fn lists_contents(
    groups: Seq<AlbumGroup>,
    contents: Map<(Seq<char>, Seq<char>), Seq<Seq<char>>>,
) -> bool {
    &&& forall|i: int|
        0 <= i < groups.len() ==> contents.dom().contains((#[trigger] groups[i]).key())
            && lines_view(groups[i].files@) == contents[groups[i].key()]
    &&& forall|i: int, j: int|
        0 <= i < j < groups.len() ==> (#[trigger] groups[i]).key() != (#[trigger] groups[j]).key()
    &&& forall|key: (Seq<char>, Seq<char>)|
        contents.dom().contains(key) ==> exists|i: int|
            0 <= i < groups.len() && (#[trigger] groups[i]).key() == key
}

/// `FxHashMap::default`: a map without entries.
#[verifier::external_body]
fn new_index() -> (index: rustc_hash::FxHashMap<(String, String), Vec<String>>)
    ensures
        album_index_contents(index) == no_albums(),
{
    rustc_hash::FxHashMap::default()
}

/// `HashMap::entry(..).or_default()` followed by a push: the entry of the
/// pair is made if there is none, and the path is put at the end of its
/// list. No other entry changes.
#[verifier::external_body]
fn add_to_index(
    index: &mut rustc_hash::FxHashMap<(String, String), Vec<String>>,
    artist: &str,
    album: &str,
    path: &str,
)
    ensures
        album_index_contents(*final(index)) == with_file(
            album_index_contents(*old(index)),
            artist@,
            album@,
            path@,
        ),
{
    index.entry((artist.to_string(), album.to_string())).or_default().push(path.to_string());
}

/// `HashMap::into_iter`: hands out every entry once, in an order of the
/// map's own.
#[verifier::external_body]
fn index_into_groups(index: rustc_hash::FxHashMap<(String, String), Vec<String>>) -> (groups: Vec<
    AlbumGroup,
>)
    ensures
        lists_contents(groups@, album_index_contents(index)),
{
    index.into_iter().map(|((artist, album), files)| AlbumGroup { artist, album, files }).collect()
}

/// What an index holds after files were added one after the other.
pub open spec fn album_map(files: Seq<FileEntryView>) -> Map<(Seq<char>, Seq<char>), Seq<Seq<char>>>
    decreases files.len(),
{
    if files.len() == 0 {
        no_albums()
    } else {
        let f = files.last();
        with_file(album_map(files.drop_last()), f.artist, f.album, f.path)
    }
}

/// A filter that no element passes leaves nothing.
proof fn lemma_filter_none<A>(s: Seq<A>, pred: spec_fn(A) -> bool)
    requires
        forall|i: int| 0 <= i < s.len() ==> !pred(#[trigger] s[i]),
    ensures
        s.filter(pred).len() == 0,
    decreases s.len(),
{
    reveal(Seq::filter);
    if s.len() > 0 {
        assert forall|i: int| 0 <= i < s.drop_last().len() implies !pred(
            #[trigger] s.drop_last()[i],
        ) by {
            assert(s.drop_last()[i] == s[i]);
        }
        lemma_filter_none(s.drop_last(), pred);
        assert(!pred(s[s.len() - 1]));
    }
}

/// A pair of artist and album is an album of the index exactly when a file
/// goes under it, and the album then holds the paths of those files, in
/// their order.
pub proof fn law_index_holds_every_file(files: Seq<FileEntryView>, key: (Seq<char>, Seq<char>))
    ensures
        album_map(files).dom().contains(key) <==> exists|i: int|
            0 <= i < files.len() && (#[trigger] files[i]).key() == key,
        album_map(files).dom().contains(key) ==> album_map(files)[key] == album_files(files, key),
    decreases files.len(),
{
    reveal(Seq::filter);
    let under = |f: FileEntryView| f.key() == key;
    if files.len() > 0 {
        let before = files.drop_last();
        let last = files.last();
        law_index_holds_every_file(before, key);
        if last.key() == key {
            assert(files[files.len() - 1].key() == key);
            if album_map(before).dom().contains(key) {
                assert(files.filter(under).map_values(|f: FileEntryView| f.path) =~= before.filter(
                    under,
                ).map_values(|f: FileEntryView| f.path).push(last.path));
            } else {
                assert forall|i: int| 0 <= i < before.len() implies !under(#[trigger] before[i]) by {
                    assert(before[i] == files[i]);
                    if under(before[i]) {
                        assert(before[i].key() == key);
                    }
                }
                lemma_filter_none(before, under);
                assert(files.filter(under).map_values(|f: FileEntryView| f.path) =~= seq![
                    last.path,
                ]);
            }
        } else {
            if album_map(files).dom().contains(key) {
                let i = choose|i: int| 0 <= i < before.len() && (#[trigger] before[i]).key() == key;
                assert(files[i].key() == key);
            }
            if exists|i: int| 0 <= i < files.len() && (#[trigger] files[i]).key() == key {
                let i = choose|i: int| 0 <= i < files.len() && (#[trigger] files[i]).key() == key;
                assert(i < before.len());
                assert(before[i].key() == key);
            }
        }
    }
}

/// Sorts files into albums by artist and album as they stand. The albums
/// come in no particular order.
pub fn index_files(files: &Vec<FileEntry>) -> (groups: Vec<AlbumGroup>)
    ensures
        lists_contents(groups@, album_map(entries_view(files@))),
{
    let mut index = new_index();
    let ghost all = entries_view(files@);
    let mut i: usize = 0;
    assert(all.take(0) =~= Seq::<FileEntryView>::empty());
    while i < files.len()
        invariant
            i <= files.len(),
            all == entries_view(files@),
            album_index_contents(index) == album_map(all.take(i as int)),
        decreases files.len() - i,
    {
        let file = &files[i];
        proof {
            assert(all.take(i + 1).drop_last() =~= all.take(i as int));
            assert(all.take(i + 1).last() == file@);
        }
        add_to_index(&mut index, file.artist.as_str(), file.album.as_str(), file.path.as_str());
        i += 1;
    }
    assert(all.take(all.len() as int) == all);
    index_into_groups(index)
}

/// A file under the directory names of its artist and album.
pub open spec fn filed(f: FileEntryView) -> FileEntryView {
    FileEntryView {
        path: f.path,
        artist: directory_name_of(f.artist),
        album: directory_name_of(f.album),
    }
}

/// What an index holds after files were added one after the other, each
/// under the directory names of its artist and album.
pub open spec fn indexed(files: Seq<FileEntryView>) -> Map<(Seq<char>, Seq<char>), Seq<Seq<char>>> {
    album_map(files.map_values(|f: FileEntryView| filed(f)))
}

/// Sorts files into albums, each under the directory names of its artist
/// and album. The albums come in no particular order.
pub fn group_files(files: &Vec<FileEntry>) -> (groups: Vec<AlbumGroup>)
    ensures
        lists_contents(groups@, indexed(entries_view(files@))),
{
    let mut named: Vec<FileEntry> = Vec::new();
    let mut i: usize = 0;
    while i < files.len()
        invariant
            i <= files.len(),
            named@.len() == i,
            forall|k: int| 0 <= k < i ==> (#[trigger] named@[k])@ == filed(files@[k]@),
        decreases files.len() - i,
    {
        let file = &files[i];
        named.push(
            FileEntry {
                path: file.path.clone(),
                artist: sanitize_filename(file.artist.as_str()),
                album: sanitize_filename(file.album.as_str()),
            },
        );
        i += 1;
    }
    assert(entries_view(named@) =~= entries_view(files@).map_values(|f: FileEntryView| filed(f)));
    index_files(&named)
}

/// Plans the move of the library's music files into the directories of
/// their albums, with one operation for each file.
pub fn organize_music_library(files: &Vec<FileEntry>, music_dir: &str, dry_run: bool) -> (r: (
    Vec<AlbumGroup>,
    Vec<AlbumPlan>,
))
    ensures
        lists_contents(r.0@, indexed(entries_view(files@))),
        is_plan_of_groups(r.1@, r.0@, music_dir@, dry_run, TransferKind::Move, false),
        all_operations(r.1@).len() == files@.len(),
{
    let groups = group_files(files);
    let plans = plan_groups(&groups, music_dir, dry_run, TransferKind::Move, false);
    proof {
        law_groups_hold_every_file(
            groups@,
            entries_view(files@).map_values(|f: FileEntryView| filed(f)),
        );
        law_group_plans_hold_every_file(
            plans@,
            groups@,
            music_dir@,
            dry_run,
            TransferKind::Move,
            false,
        );
    }
    (groups, plans)
}

/// Plans the move of misplaced music files into the directories of their
/// albums.
pub fn reorganize_misplaced_files(files: &Vec<FileEntry>, music_dir: &str, dry_run: bool) -> (r: (
    Vec<AlbumGroup>,
    Vec<AlbumPlan>,
))
    ensures
        lists_contents(r.0@, indexed(entries_view(files@))),
        is_plan_of_groups(r.1@, r.0@, music_dir@, dry_run, TransferKind::Move, false),
        all_operations(r.1@).len() == files@.len(),
{
    organize_music_library(files, music_dir, dry_run)
}

/// A file under the safe names of its artist and album, as an import names
/// directories: there the apostrophe is replaced as well.
pub open spec fn filed_for_import(f: FileEntryView) -> FileEntryView {
    FileEntryView { path: f.path, artist: sanitized(f.artist), album: sanitized(f.album) }
}

/// What an index holds after files were added one after the other, each
/// under the safe names of its artist and album.
pub open spec fn indexed_for_import(files: Seq<FileEntryView>) -> Map<
    (Seq<char>, Seq<char>),
    Seq<Seq<char>>,
> {
    album_map(files.map_values(|f: FileEntryView| filed_for_import(f)))
}

/// Sorts files that are imported into albums, each under the safe names of
/// its artist and album. The albums come in no particular order.
pub fn group_imported_files(files: &Vec<FileEntry>) -> (groups: Vec<AlbumGroup>)
    ensures
        lists_contents(groups@, indexed_for_import(entries_view(files@))),
{
    let mut named: Vec<FileEntry> = Vec::new();
    let mut i: usize = 0;
    while i < files.len()
        invariant
            i <= files.len(),
            named@.len() == i,
            forall|k: int| 0 <= k < i ==> (#[trigger] named@[k])@ == filed_for_import(files@[k]@),
        decreases files.len() - i,
    {
        let file = &files[i];
        named.push(
            FileEntry {
                path: file.path.clone(),
                artist: crate::utils::sanitize_filename(file.artist.as_str()),
                album: crate::utils::sanitize_filename(file.album.as_str()),
            },
        );
        i += 1;
    }
    assert(entries_view(named@) =~= entries_view(files@).map_values(
        |f: FileEntryView| filed_for_import(f),
    ));
    index_files(&named)
}

/// The files that say enough of themselves to be imported, in order.
pub open spec fn importable(files: Seq<FileEntryView>) -> Seq<FileEntryView> {
    files.filter(|f: FileEntryView| is_proper_metadata(f.artist, f.album))
}

/// What an import of files is to do.
pub struct ImportPlan {
    /// The files that are imported.
    pub files: Vec<FileEntry>,
    /// How many files are left out for want of metadata.
    pub excluded: usize,
    pub groups: Vec<AlbumGroup>,
    pub plans: Vec<AlbumPlan>,
}

/// Plans the import of music files from elsewhere: those that say enough of
/// themselves are copied into the directories of their albums, which go by
/// the safe names of artist and album; the others are counted and left where
/// they are.
pub fn import_and_organize_files(candidates: &Vec<FileEntry>, music_dir: &str, dry_run: bool) -> (plan:
    ImportPlan)
    ensures
        entries_view(plan.files@) == importable(entries_view(candidates@)),
        plan.excluded == candidates@.len() - plan.files@.len(),
        lists_contents(plan.groups@, indexed_for_import(entries_view(plan.files@))),
        is_plan_of_groups(plan.plans@, plan.groups@, music_dir@, dry_run, TransferKind::Copy, false),
        all_operations(plan.plans@).len() == plan.files@.len(),
{
    let mut files: Vec<FileEntry> = Vec::new();
    let ghost all = entries_view(candidates@);
    let ghost proper = |f: FileEntryView| is_proper_metadata(f.artist, f.album);
    let mut i: usize = 0;
    proof {
        reveal(Seq::filter);
        assert(all.take(0).filter(proper) =~= Seq::<FileEntryView>::empty());
        assert(entries_view(files@) =~= Seq::<FileEntryView>::empty());
    }
    while i < candidates.len()
        invariant
            i <= candidates.len(),
            all == entries_view(candidates@),
            proper == (|f: FileEntryView| is_proper_metadata(f.artist, f.album)),
            entries_view(files@) == all.take(i as int).filter(proper),
            files@.len() <= i,
        decreases candidates.len() - i,
    {
        let file = &candidates[i];
        proof {
            assert(all.take(i + 1) =~= all.take(i as int).push(file@));
            all.take(i as int).lemma_filter_push(file@, proper);
        }
        if has_proper_metadata(file.artist.as_str(), file.album.as_str()) {
            let kept = FileEntry {
                path: file.path.clone(),
                artist: file.artist.clone(),
                album: file.album.clone(),
            };
            assert(entries_view(files@.push(kept)) =~= entries_view(files@).push(kept@));
            files.push(kept);
        }
        i += 1;
    }
    assert(all.take(all.len() as int) == all);
    let excluded = candidates.len() - files.len();
    let groups = group_imported_files(&files);
    let plans = plan_groups(&groups, music_dir, dry_run, TransferKind::Copy, false);
    proof {
        law_groups_hold_every_file(
            groups@,
            entries_view(files@).map_values(|f: FileEntryView| filed_for_import(f)),
        );
        law_group_plans_hold_every_file(
            plans@,
            groups@,
            music_dir@,
            dry_run,
            TransferKind::Copy,
            false,
        );
    }
    ImportPlan { files, excluded, groups, plans }
}

} // verus!
