//! The audio formats the library knows, by file extension.

use vstd::prelude::*;
use vstd::string::*;
use crate::paths::{extension, path_extension};
use crate::text::unicode_lowercase;

verus! {

/// The tag family of an extension, written in lower case: `id3` for MP3 and
/// AAC, `mp4` for the MP4 family, `vorbis` for FLAC and the Ogg family,
/// `ape`, `aiff` and `wav`. `None` for any other text.
pub open spec fn category(ext: Seq<char>) -> Option<Seq<char>> {
    if ext == "mp3"@ || ext == "aac"@ {
        Some("id3"@)
    } else if ext == "m4a"@ || ext == "m4b"@ || ext == "m4p"@ || ext == "alac"@ || ext == "mp4"@ {
        Some("mp4"@)
    } else if ext == "flac"@ || ext == "ogg"@ || ext == "oga"@ || ext == "opus"@ || ext == "spx"@ {
        Some("vorbis"@)
    } else if ext == "ape"@ || ext == "mpc"@ || ext == "wv"@ {
        Some("ape"@)
    } else if ext == "aiff"@ || ext == "aif"@ {
        Some("aiff"@)
    } else if ext == "wav"@ {
        Some("wav"@)
    } else {
        None
    }
}

/// Every supported extension, family by family.
pub open spec fn audio_extensions() -> Seq<Seq<char>> {
    seq![
        "mp3"@,
        "aac"@,
        "m4a"@,
        "m4b"@,
        "m4p"@,
        "alac"@,
        "mp4"@,
        "flac"@,
        "ogg"@,
        "oga"@,
        "opus"@,
        "spx"@,
        "ape"@,
        "mpc"@,
        "wv"@,
        "aiff"@,
        "aif"@,
        "wav"@,
    ]
}

/// The supported extensions are exactly the texts that have a family.
pub proof fn law_extensions_have_category(ext: Seq<char>)
    ensures
        audio_extensions().contains(ext) <==> category(ext) is Some,
{
    let all = audio_extensions();
    if category(ext) is Some {
        if ext == "mp3"@ {
            assert(all[0] == ext);
        } else if ext == "aac"@ {
            assert(all[1] == ext);
        } else if ext == "m4a"@ {
            assert(all[2] == ext);
        } else if ext == "m4b"@ {
            assert(all[3] == ext);
        } else if ext == "m4p"@ {
            assert(all[4] == ext);
        } else if ext == "alac"@ {
            assert(all[5] == ext);
        } else if ext == "mp4"@ {
            assert(all[6] == ext);
        } else if ext == "flac"@ {
            assert(all[7] == ext);
        } else if ext == "ogg"@ {
            assert(all[8] == ext);
        } else if ext == "oga"@ {
            assert(all[9] == ext);
        } else if ext == "opus"@ {
            assert(all[10] == ext);
        } else if ext == "spx"@ {
            assert(all[11] == ext);
        } else if ext == "ape"@ {
            assert(all[12] == ext);
        } else if ext == "mpc"@ {
            assert(all[13] == ext);
        } else if ext == "wv"@ {
            assert(all[14] == ext);
        } else if ext == "aiff"@ {
            assert(all[15] == ext);
        } else if ext == "aif"@ {
            assert(all[16] == ext);
        } else {
            assert(all[17] == ext);
        }
    }
}

/// Get all supported audio file extensions as a combined vector.
pub fn get_all_audio_extensions() -> (all: Vec<&'static str>)
    ensures
        all@.map_values(|s: &'static str| s@) == audio_extensions(),
{
    let mut all: Vec<&'static str> = Vec::new();
    all.push("mp3");
    all.push("aac");
    all.push("m4a");
    all.push("m4b");
    all.push("m4p");
    all.push("alac");
    all.push("mp4");
    all.push("flac");
    all.push("ogg");
    all.push("oga");
    all.push("opus");
    all.push("spx");
    all.push("ape");
    all.push("mpc");
    all.push("wv");
    all.push("aiff");
    all.push("aif");
    all.push("wav");
    assert(all@.map_values(|s: &'static str| s@) =~= audio_extensions());
    all
}

/// The family of an extension that is already in lower case.
pub fn category_of(ext: &str) -> (r: Option<&'static str>)
    ensures
        match r {
            Some(name) => category(ext@) == Some(name@),
            None => category(ext@) is None,
        },
{
    if ext.eq("mp3") || ext.eq("aac") {
        Some("id3")
    } else if ext.eq("m4a") || ext.eq("m4b") || ext.eq("m4p") || ext.eq("alac") || ext.eq("mp4") {
        Some("mp4")
    } else if ext.eq("flac") || ext.eq("ogg") || ext.eq("oga") || ext.eq("opus") || ext.eq("spx") {
        Some("vorbis")
    } else if ext.eq("ape") || ext.eq("mpc") || ext.eq("wv") {
        Some("ape")
    } else if ext.eq("aiff") || ext.eq("aif") {
        Some("aiff")
    } else if ext.eq("wav") {
        Some("wav")
    } else {
        None
    }
}

/// Get audio extension categories for a given file extension, whatever its
/// case.
pub fn get_extension_category(ext: &str) -> (r: Option<&'static str>)
    ensures
        match r {
            Some(name) => category(unicode_lowercase(ext@)) == Some(name@),
            None => category(unicode_lowercase(ext@)) is None,
        },
{
    let lower = ext.to_lowercase();
    category_of(lower.as_str())
}

/// The extension a path is judged by: its own, in lower case, or the empty
/// text where it has none.
pub open spec fn judged_extension(path: Seq<char>) -> Seq<char> {
    match path_extension(path) {
        Some(ext) => unicode_lowercase(ext),
        None => Seq::empty(),
    }
}

/// Whether a path has a supported audio extension.
pub open spec fn is_audio_path(path: Seq<char>) -> bool {
    audio_extensions().contains(judged_extension(path))
}

/// Check if a file path has a supported audio extension.
pub fn is_audio_file(path: &str) -> (r: bool)
    ensures
        r == is_audio_path(path@),
{
    let lower = match extension(path) {
        Some(ext) => ext.as_str().to_lowercase(),
        None => String::new(),
    };
    proof {
        law_extensions_have_category(lower@);
    }
    category_of(lower.as_str()).is_some()
}

} // verus!
