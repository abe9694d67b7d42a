//! File-name hygiene and scan statistics.

use vstd::prelude::*;
use vstd::string::*;
use crate::audio::{is_audio_file, is_audio_path};
use crate::text::{
    chars_of, law_trimmed_is_a_stretch, leading_white_space, lemma_lines_view_push, lines_view,
    string_of, trailing_white_space, trim, trimmed, unicode_control,
};

verus! {

/// Characters that may not appear in a file or directory name of the library.
pub open spec fn forbidden_in_filename(c: char) -> bool {
    c == '/' || c == '\\' || c == ':' || c == '*' || c == '?' || c == '"' || c == '<' || c == '>'
        || c == '|' || c == '\'' || unicode_control(c)
}

/// A forbidden character becomes an underscore, any other stays.
pub open spec fn safe_char(c: char) -> char {
    if forbidden_in_filename(c) {
        '_'
    } else {
        c
    }
}

/// The name with every forbidden character replaced and the surrounding
/// white space removed.
pub open spec fn sanitized(name: Seq<char>) -> Seq<char> {
    trimmed(name.map_values(|c: char| safe_char(c)))
}

/// A sanitized name holds none of the characters that separate or
/// disturb path components: no slash, no backslash, no colon, no asterisk,
/// no question mark, no quotation mark, no angle bracket, no bar, no
/// apostrophe.
pub proof fn law_sanitized_is_one_component(name: Seq<char>)
    ensures
        forall|i: int|
            0 <= i < sanitized(name).len() ==> {
                let c = #[trigger] sanitized(name)[i];
                c != '/' && c != '\\' && c != ':' && c != '*' && c != '?' && c != '"' && c != '<'
                    && c != '>' && c != '|' && c != '\''
            },
{
    let mapped = name.map_values(|c: char| safe_char(c));
    law_trimmed_is_a_stretch(mapped);
    let (from, to) = choose|from: int, to: int|
        0 <= from <= to <= mapped.len() && trimmed(mapped) == #[trigger] mapped.subrange(from, to);
    assert forall|i: int| 0 <= i < sanitized(name).len() implies {
        let c = #[trigger] sanitized(name)[i];
        c != '/' && c != '\\' && c != ':' && c != '*' && c != '?' && c != '"' && c != '<' && c != '>'
            && c != '|' && c != '\''
    } by {
        assert(sanitized(name)[i] == mapped[from + i]);
        assert(mapped[from + i] == safe_char(name[from + i]));
    }
}

/// Sanitizing a sanitized name changes nothing.
pub proof fn law_sanitizing_twice_is_sanitizing_once(name: Seq<char>)
    ensures
        sanitized(sanitized(name)) == sanitized(name),
{
    let once = sanitized(name);
    let mapped = name.map_values(|c: char| safe_char(c));
    law_trimmed_is_a_stretch(mapped);
    let (from, to) = choose|from: int, to: int|
        0 <= from <= to <= mapped.len() && trimmed(mapped) == #[trigger] mapped.subrange(from, to);
    let again = once.map_values(|c: char| safe_char(c));
    assert forall|i: int| 0 <= i < once.len() implies again[i] == once[i] by {
        assert(once[i] == mapped[from + i]);
        assert(mapped[from + i] == safe_char(name[from + i]));
    }
    assert(again =~= once);
    if once.len() > 0 {
        assert(leading_white_space(once) == 0);
        assert(once.skip(0) =~= once);
        assert(trailing_white_space(once) == 0);
        assert(once.take(once.len() as int) =~= once);
    } else {
        assert(once.skip(0) =~= once);
        assert(once.take(0) =~= once);
    }
}

fn replace_forbidden(c: char) -> (r: char)
    ensures
        r == safe_char(c),
{
    if c == '/' || c == '\\' || c == ':' || c == '*' || c == '?' || c == '"' || c == '<' || c == '>'
        || c == '|' || c == '\'' || c.is_control() {
        '_'
    } else {
        c
    }
}

/// Makes a name safe for the file system.
pub fn sanitize_filename(name: &str) -> (r: String)
    ensures
        r@ == sanitized(name@),
{
    let chars = chars_of(name);
    let mut mapped: Vec<char> = Vec::new();
    let mut i: usize = 0;
    while i < chars.len()
        invariant
            i <= chars.len(),
            chars@ == name@,
            mapped@ == name@.take(i as int).map_values(|c: char| safe_char(c)),
        decreases chars.len() - i,
    {
        mapped.push(replace_forbidden(chars[i]));
        assert(name@.take(i + 1).map_values(|c: char| safe_char(c)) =~= name@.take(
            i as int,
        ).map_values(|c: char| safe_char(c)).push(safe_char(name@[i as int])));
        i += 1;
    }
    assert(name@.take(name@.len() as int) == name@);
    let kept = trim(&mapped);
    string_of(&kept)
}

/// What a scan of a directory found.
#[derive(Clone, Debug)]
pub struct FileScanResult {
    pub audio_files: Vec<String>,
    pub files_scanned: usize,
    pub files_skipped: usize,
}

/// The paths that have a supported audio extension, in order.
pub open spec fn audio_paths(files: Seq<Seq<char>>) -> Seq<Seq<char>> {
    files.filter(|path: Seq<char>| is_audio_path(path))
}

/// The paths that have a supported audio extension.
pub fn get_all_track_paths(files: &Vec<String>) -> (tracks: Vec<String>)
    ensures
        lines_view(tracks@) == audio_paths(lines_view(files@)),
        tracks@.len() <= files@.len(),
{
    let mut tracks: Vec<String> = Vec::new();
    let ghost all = lines_view(files@);
    let ghost audio = |path: Seq<char>| is_audio_path(path);
    let mut i: usize = 0;
    proof {
        reveal(Seq::filter);
        assert(all.take(0).filter(audio) =~= Seq::<Seq<char>>::empty());
        assert(lines_view(tracks@) =~= Seq::<Seq<char>>::empty());
    }
    while i < files.len()
        invariant
            i <= files.len(),
            all == lines_view(files@),
            audio == (|path: Seq<char>| is_audio_path(path)),
            lines_view(tracks@) == all.take(i as int).filter(audio),
            tracks@.len() <= i,
        decreases files.len() - i,
    {
        proof {
            assert(all.take(i + 1) =~= all.take(i as int).push(files@[i as int]@));
            all.take(i as int).lemma_filter_push(files@[i as int]@, audio);
        }
        if is_audio_file(files[i].as_str()) {
            let path = files[i].clone();
            proof {
                lemma_lines_view_push(tracks@, path);
            }
            tracks.push(path);
        }
        i += 1;
    }
    assert(all.take(all.len() as int) == all);
    tracks
}

/// Counts the regular files that a walk of a directory came by: how many
/// there are, which of them are audio, and how many are not.
pub fn scan_directory_for_audio_files(files: &Vec<String>) -> (r: FileScanResult)
    ensures
        lines_view(r.audio_files@) == audio_paths(lines_view(files@)),
        r.files_scanned == files@.len(),
        r.files_skipped == files@.len() - r.audio_files@.len(),
{
    let audio_files = get_all_track_paths(files);
    let files_scanned = files.len();
    let files_skipped = files_scanned - audio_files.len();
    FileScanResult { audio_files, files_scanned, files_skipped }
}

/// The folders to go through: the album directories, as they were found.
pub fn get_all_folder_paths(album_paths: &Vec<String>) -> (folders: Vec<String>)
    ensures
        lines_view(folders@) == lines_view(album_paths@),
{
    let mut folders: Vec<String> = Vec::new();
    let mut i: usize = 0;
    while i < album_paths.len()
        invariant
            i <= album_paths.len(),
            folders@.len() == i,
            forall|k: int| 0 <= k < i ==> (#[trigger] folders@[k])@ == album_paths@[k]@,
        decreases album_paths.len() - i,
    {
        folders.push(album_paths[i].clone());
        i += 1;
    }
    assert(lines_view(folders@) =~= lines_view(album_paths@));
    folders
}

} // verus!
