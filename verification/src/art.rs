//! Artist images, placeholders and folder icons: the addresses that are
//! asked, what is read out of the answers, and the geometry of a square crop.

use vstd::prelude::*;
use vstd::string::*;
use crate::cover_art::{url_encode, url_encoded};
use crate::json::Json;
use crate::metadata::FileTags;
use crate::release::member_text;

verus! {

/// Address of the artist search of the album database.
pub open spec fn artist_search_address(key: Seq<char>, artist: Seq<char>) -> Seq<char> {
    "https://www.theaudiodb.com/api/v1/json/"@ + key + "/search.php?s="@ + url_encoded(artist)
}

/// Address of the artist search of the album database.
pub fn artist_search_url(key: &str, artist: &str) -> (url: String)
    ensures
        url@ == artist_search_address(key@, artist@),
{
    let mut url = String::from_str("https://www.theaudiodb.com/api/v1/json/");
    url.append(key);
    url.append("/search.php?s=");
    let encoded = url_encode(artist);
    url.append(encoded.as_str());
    url
}

/// The artist image that a search answer names: member `strArtistThumb` of
/// the first entry of `artists`, where that is a string.
pub open spec fn artist_thumbnail_of(document: Json) -> Option<Seq<char>> {
    match document.member("artists"@) {
        Some(artists) => match artists.first_element() {
            Some(artist) => member_text(artist, "strArtistThumb"@),
            None => None,
        },
        None => None,
    }
}

/// Reads the address of the artist image out of a search answer.
pub fn artist_thumbnail(document: &Json) -> (r: Option<String>)
    ensures
        match r {
            Some(url) => artist_thumbnail_of(*document) == Some(url@),
            None => artist_thumbnail_of(*document) is None,
        },
{
    match document.get("artists") {
        Some(artists) => match artists.first() {
            Some(artist) => match artist.get("strArtistThumb") {
                Some(thumb) => match thumb.as_str() {
                    Some(url) => Some(String::from_str(url)),
                    None => None,
                },
                None => None,
            },
            None => None,
        },
        None => None,
    }
}

/// Address of the photo search for a placeholder.
pub open spec fn placeholder_search_address(category: Seq<char>, name: Seq<char>) -> Seq<char> {
    "https://api.pexels.com/v1/search?query="@ + url_encoded(category + " "@ + name)
        + "&per_page=1"@
}

/// Address of the photo search for a placeholder.
pub fn placeholder_search_url(category: &str, name: &str) -> (url: String)
    ensures
        url@ == placeholder_search_address(category@, name@),
{
    let mut query = String::from_str(category);
    query.append(" ");
    query.append(name);
    let mut url = String::from_str("https://api.pexels.com/v1/search?query=");
    let encoded = url_encode(query.as_str());
    url.append(encoded.as_str());
    url.append("&per_page=1");
    url
}

/// The photo that a search answer names: `src.large` of the first entry of
/// `photos`, where that is a string.
pub open spec fn first_photo_of(document: Json) -> Option<Seq<char>> {
    match document.member("photos"@) {
        Some(photos) => match photos.first_element() {
            Some(photo) => match photo.member("src"@) {
                Some(src) => member_text(src, "large"@),
                None => None,
            },
            None => None,
        },
        None => None,
    }
}

/// Reads the address of the first photo out of a search answer.
pub fn first_photo_url(document: &Json) -> (r: Option<String>)
    ensures
        match r {
            Some(url) => first_photo_of(*document) == Some(url@),
            None => first_photo_of(*document) is None,
        },
{
    match document.get("photos") {
        Some(photos) => match photos.first() {
            Some(photo) => match photo.get("src") {
                Some(src) => match src.get("large") {
                    Some(large) => match large.as_str() {
                        Some(url) => Some(String::from_str(url)),
                        None => None,
                    },
                    None => None,
                },
                None => None,
            },
            None => None,
        },
        None => None,
    }
}

/// The artist that a tag names for the whole album: the album artist, else
/// the track artist.
pub open spec fn tagged_album_artist(tags: FileTags) -> Option<Seq<char>> {
    match tags.album_artist {
        Some(artist) => Some(artist@),
        None => match tags.track_artist {
            Some(artist) => Some(artist@),
            None => None,
        },
    }
}

/// The artist that the first music file of a directory names for the whole
/// album.
pub fn extract_album_artist_from_directory(tags: &FileTags) -> (r: Option<String>)
    ensures
        match r {
            Some(artist) => tagged_album_artist(*tags) == Some(artist@),
            None => tagged_album_artist(*tags) is None,
        },
{
    match &tags.album_artist {
        Some(artist) => Some(artist.clone()),
        None => match &tags.track_artist {
            Some(artist) => Some(artist.clone()),
            None => None,
        },
    }
}

/// The name a placeholder is searched under: the album artist where the
/// directory's music names one, else the directory's own name.
pub fn placeholder_search_name(album_artist: Option<&str>, name: &str) -> (r: String)
    ensures
        r@ == match album_artist {
            Some(artist) => artist@,
            None => name@,
        },
{
    match album_artist {
        Some(artist) => String::from_str(artist),
        None => String::from_str(name),
    }
}

/// The largest square in the middle of an image.
#[derive(Clone, Copy, Debug, PartialEq, Eq, Structural)]
pub struct SquareCrop {
    pub size: usize,
    pub x: usize,
    pub y: usize,
}

/// The largest centred square of an image: its side is the shorter side of
/// the image, and what is cut off is cut in equal parts from both ends of
/// the longer side, the odd pixel from the far end.
pub open spec fn centred_square(width: usize, height: usize) -> SquareCrop {
    let size = if width <= height {
        width
    } else {
        height
    };
    SquareCrop { size, x: ((width - size) / 2) as usize, y: ((height - size) / 2) as usize }
}

/// Where to crop an image to make it square.
pub fn crop_image_to_square(width: usize, height: usize) -> (crop: SquareCrop)
    ensures
        crop == centred_square(width, height),
        crop.x + crop.size <= width,
        crop.y + crop.size <= height,
        crop.x == 0 || crop.y == 0,
{
    let size = if width <= height {
        width
    } else {
        height
    };
    SquareCrop { size, x: (width - size) / 2, y: (height - size) / 2 }
}

/// The address a folder's icon is registered under.
pub fn folder_icon_uri(icon_path: &str) -> (uri: String)
    ensures
        uri@ == "file://"@ + icon_path@,
{
    let mut uri = String::from_str("file://");
    uri.append(icon_path);
    uri
}

/// Whether a file of an album may carry its cover: by its extension, as it
/// is written, one of `mp3`, `flac` and `m4a`.
pub fn may_carry_cover(extension: Option<&str>) -> (r: bool)
    ensures
        r == match extension {
            Some(ext) => ext@ == "mp3"@ || ext@ == "flac"@ || ext@ == "m4a"@,
            None => false,
        },
{
    match extension {
        Some(ext) => ext.eq("mp3") || ext.eq("flac") || ext.eq("m4a"),
        None => false,
    }
}

} // verus!
