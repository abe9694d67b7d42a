//! Cover art: where it is asked for and what is made of the answers. The
//! archive is asked by release identifier; the album database is searched by
//! artist and album, and the thumbnail it names is fetched.

use vstd::prelude::*;
use vstd::string::*;
use vstd::utf8::encode_utf8;
use crate::json::Json;
use crate::paths::{join_path, joined_path};
use crate::text::{lines_view, no_lines, one_line};

verus! {

/// Bytes that stand for themselves in an encoded address part: letters,
/// digits, `-`, `.`, `_` and `~`.
pub open spec fn is_unreserved(b: u8) -> bool {
    (0x30 <= b && b <= 0x39) || (0x41 <= b && b <= 0x5a) || (0x61 <= b && b <= 0x7a) || b == 0x2d
        || b == 0x2e || b == 0x5f || b == 0x7e
}

/// The upper-case hexadecimal digit for a value below 16.
pub open spec fn hex_digit(n: int) -> char {
    if n < 10 {
        ((48 + n) as u8) as char
    } else {
        ((55 + n) as u8) as char
    }
}

/// One byte, percent-encoded.
pub open spec fn percent_encoded_byte(b: u8) -> Seq<char> {
    if is_unreserved(b) {
        seq![b as char]
    } else {
        seq!['%', hex_digit(b as int / 16), hex_digit(b as int % 16)]
    }
}

/// A byte string, percent-encoded byte by byte.
pub open spec fn percent_encoded(bytes: Seq<u8>) -> Seq<char>
    decreases bytes.len(),
{
    if bytes.len() == 0 {
        Seq::empty()
    } else {
        percent_encoded(bytes.drop_last()) + percent_encoded_byte(bytes.last())
    }
}

/// `urlencoding::encode`: walks the UTF-8 bytes of the text, keeps
/// letters, digits, `-`, `.`, `_` and `~`, and writes every other byte as `%`
/// and two upper-case hexadecimal digits.
#[verifier::external_body]
pub(crate) fn url_encode(text: &str) -> (r: String)
    ensures
        r@ == url_encoded(text@),
{
    urlencoding::encode(text).into_owned()
}

/// The sources of cover art, in the order they are tried.
#[derive(Clone, Copy, Debug, PartialEq, Eq, Structural)]
pub enum ArtSource {
    /// The cover art archive, asked by release identifier.
    Archive,
    /// The album database, searched by artist and album.
    AudioDb,
}

/// What a request for an image came back with.
#[derive(Clone, Debug)]
pub enum ImageReply {
    /// No answer; the text says why.
    Failed(String),
    /// An answer that is no success; the text is its status.
    Status(String),
    /// A success whose body could not be read; the text says why.
    Unreadable(String),
    /// The image.
    Bytes(Vec<u8>),
}

/// What a search of the album database came back with.
#[derive(Debug)]
pub enum SearchReply {
    /// No answer; the text says why.
    Failed(String),
    /// An answer that is no success; the text is its status.
    Status(String),
    /// A success whose body is no JSON document; the text says why.
    Unparsable(String),
    /// The answer.
    Document(Json),
}

/// What a source is told: that it is to begin, or what a request came back
/// with.
#[derive(Debug)]
pub enum ArtEvent {
    Begin,
    Image(ImageReply),
    Search(SearchReply),
}

/// What a source asks for next.
#[derive(Clone, Debug)]
pub enum ArtAction {
    /// Fetch the image at this address and report back with
    /// `ArtEvent::Image`.
    FetchImage { url: String },
    /// Fetch the document at this address and report back with
    /// `ArtEvent::Search`.
    FetchSearch { url: String },
    /// The source is done: with an image, or without.
    Done { image: Option<Vec<u8>> },
}

/// What a `ArtAction` holds, as mathematical values.
pub enum ArtActionView {
    FetchImage { url: Seq<char> },
    FetchSearch { url: Seq<char> },
    Done { image: Option<Seq<u8>> },
}

/// The view of optional bytes.
pub open spec fn bytes_view(bytes: Option<Vec<u8>>) -> Option<Seq<u8>> {
    match bytes {
        Some(b) => Some(b@),
        None => None,
    }
}

impl View for ArtAction {
    type V = ArtActionView;

    open spec fn view(&self) -> ArtActionView {
        match self {
            ArtAction::FetchImage { url } => ArtActionView::FetchImage { url: url@ },
            ArtAction::FetchSearch { url } => ArtActionView::FetchSearch { url: url@ },
            ArtAction::Done { image } => ArtActionView::Done { image: bytes_view(*image) },
        }
    }
}

/// One step of a source: the lines to report, in order, and what to do next.
#[derive(Clone, Debug)]
pub struct ArtStep {
    pub messages: Vec<String>,
    pub action: ArtAction,
}

/// What a `ArtStep` holds, as mathematical values.
pub struct ArtStepView {
    pub messages: Seq<Seq<char>>,
    pub action: ArtActionView,
}

impl View for ArtStep {
    type V = ArtStepView;

    open spec fn view(&self) -> ArtStepView {
        ArtStepView { messages: lines_view(self.messages@), action: self.action@ }
    }
}

/// A step that reports one line and ends the source without an image.
pub open spec fn gives_up(line: Seq<char>) -> ArtStepView {
    ArtStepView { messages: seq![line], action: ArtActionView::Done { image: None } }
}

/// Address of a release's front cover in the archive.
pub open spec fn archive_url(release_id: Seq<char>) -> Seq<char> {
    "https://coverartarchive.org/release/"@ + release_id + "/front"@
}

/// The step that the archive takes on an event.
pub open spec fn archive_step(release_id: Seq<char>, event: ArtEvent) -> ArtStepView {
    match event {
        ArtEvent::Begin => ArtStepView {
            messages: seq!["Fetching cover art from MusicBrainz for release: "@ + release_id],
            action: ArtActionView::FetchImage { url: archive_url(release_id) },
        },
        ArtEvent::Image(ImageReply::Bytes(bytes)) => ArtStepView {
            messages: seq!["Successfully fetched cover art from MusicBrainz"@],
            action: ArtActionView::Done { image: Some(bytes@) },
        },
        ArtEvent::Image(ImageReply::Unreadable(why)) => gives_up(
            "Failed to read cover art data: "@ + why@,
        ),
        ArtEvent::Image(ImageReply::Status(status)) => gives_up(
            "Cover art not available from MusicBrainz (status: "@ + status@ + ")"@,
        ),
        ArtEvent::Image(ImageReply::Failed(why)) => gives_up(
            "Failed to fetch cover art from MusicBrainz: "@ + why@,
        ),
        ArtEvent::Search(_) => ArtStepView {
            messages: Seq::empty(),
            action: ArtActionView::Done { image: None },
        },
    }
}

/// A text as it stands in an address: its UTF-8 bytes, percent-encoded.
pub open spec fn url_encoded(text: Seq<char>) -> Seq<char> {
    percent_encoded(encode_utf8(text))
}

/// Address of the album search.
pub open spec fn audiodb_url(artist: Seq<char>, album: Seq<char>) -> Seq<char> {
    "https://www.theaudiodb.com/api/v1/json/2/searchalbum.php?s="@ + url_encoded(artist) + "&a="@
        + url_encoded(album)
}

/// Why a search answer names no thumbnail.
#[derive(Clone, Copy, Debug, PartialEq, Eq, Structural)]
pub enum ThumbnailMiss {
    /// The document has no member `album`.
    NoAlbumData,
    /// Member `album` is no list.
    InvalidFormat,
    /// The list is empty.
    NoAlbums,
    /// The first album has no member `strAlbumThumb`.
    NoCoverArt,
    /// The member is no string, is empty, or is the word `null`.
    NoUrl,
}

impl ThumbnailMiss {
    /// The line that reports the miss.
    pub open spec fn text(self) -> Seq<char> {
        match self {
            ThumbnailMiss::NoAlbumData => "No album data in AudioDB response"@,
            ThumbnailMiss::InvalidFormat => "Invalid AudioDB response format"@,
            ThumbnailMiss::NoAlbums => "No albums found in AudioDB response"@,
            ThumbnailMiss::NoCoverArt => "No cover art found in AudioDB response"@,
            ThumbnailMiss::NoUrl => "No cover art URL found in AudioDB response"@,
        }
    }

    /// The line that reports the miss.
    pub fn message(&self) -> (s: String)
        ensures
            s@ == self.text(),
    {
        match self {
            ThumbnailMiss::NoAlbumData => String::from_str("No album data in AudioDB response"),
            ThumbnailMiss::InvalidFormat => String::from_str("Invalid AudioDB response format"),
            ThumbnailMiss::NoAlbums => String::from_str("No albums found in AudioDB response"),
            ThumbnailMiss::NoCoverArt => String::from_str("No cover art found in AudioDB response"),
            ThumbnailMiss::NoUrl => String::from_str("No cover art URL found in AudioDB response"),
        }
    }
}

/// The thumbnail address that a search answer names: member
/// `strAlbumThumb` of the first entry of `album`, where that is a string
/// other than the empty one and the word `null`.
pub open spec fn thumbnail_of(document: Json) -> Result<Seq<char>, ThumbnailMiss> {
    match document.member("album"@) {
        None => Err(ThumbnailMiss::NoAlbumData),
        Some(albums) => match albums.elements() {
            None => Err(ThumbnailMiss::InvalidFormat),
            Some(items) => if items.len() == 0 {
                Err(ThumbnailMiss::NoAlbums)
            } else {
                match items[0].member("strAlbumThumb"@) {
                    None => Err(ThumbnailMiss::NoCoverArt),
                    Some(thumb) => match thumb.text() {
                        None => Err(ThumbnailMiss::NoUrl),
                        Some(url) => if url.len() == 0 || url == "null"@ {
                            Err(ThumbnailMiss::NoUrl)
                        } else {
                            Ok(url)
                        },
                    },
                }
            },
        },
    }
}

/// Reads the thumbnail address out of a search answer.
pub fn thumbnail_url(document: &Json) -> (r: Result<String, ThumbnailMiss>)
    ensures
        match r {
            Ok(url) => thumbnail_of(*document) == Ok::<Seq<char>, ThumbnailMiss>(url@),
            Err(miss) => thumbnail_of(*document) == Err::<Seq<char>, ThumbnailMiss>(miss),
        },
{
    match document.get("album") {
        None => Err(ThumbnailMiss::NoAlbumData),
        Some(albums) => match albums.as_array() {
            None => Err(ThumbnailMiss::InvalidFormat),
            Some(items) => if items.len() == 0 {
                Err(ThumbnailMiss::NoAlbums)
            } else {
                match items[0].get("strAlbumThumb") {
                    None => Err(ThumbnailMiss::NoCoverArt),
                    Some(thumb) => match thumb.as_str() {
                        None => Err(ThumbnailMiss::NoUrl),
                        Some(url) => if url.is_empty() || url.eq("null") {
                            Err(ThumbnailMiss::NoUrl)
                        } else {
                            Ok(String::from_str(url))
                        },
                    },
                }
            },
        },
    }
}

/// The step that the album database takes on an event.
pub open spec fn audiodb_step(artist: Seq<char>, album: Seq<char>, event: ArtEvent) -> ArtStepView {
    match event {
        ArtEvent::Begin => ArtStepView {
            messages: seq!["Trying AudioDB for cover art: "@ + artist + " - "@ + album],
            action: ArtActionView::FetchSearch { url: audiodb_url(artist, album) },
        },
        ArtEvent::Search(SearchReply::Document(document)) => match thumbnail_of(document) {
            Ok(url) => ArtStepView {
                messages: Seq::empty(),
                action: ArtActionView::FetchImage { url },
            },
            Err(miss) => gives_up(miss.text()),
        },
        ArtEvent::Search(SearchReply::Unparsable(why)) => gives_up(
            "Failed to parse AudioDB response: "@ + why@,
        ),
        ArtEvent::Search(SearchReply::Status(status)) => gives_up(
            "AudioDB request failed (status: "@ + status@ + ")"@,
        ),
        ArtEvent::Search(SearchReply::Failed(why)) => gives_up(
            "Failed to fetch from AudioDB: "@ + why@,
        ),
        ArtEvent::Image(ImageReply::Bytes(bytes)) => ArtStepView {
            messages: seq!["Successfully fetched cover art from AudioDB"@],
            action: ArtActionView::Done { image: Some(bytes@) },
        },
        ArtEvent::Image(ImageReply::Unreadable(why)) => gives_up(
            "Failed to download AudioDB cover art: "@ + why@,
        ),
        ArtEvent::Image(ImageReply::Status(_)) => gives_up("AudioDB cover art download failed"@),
        ArtEvent::Image(ImageReply::Failed(why)) => gives_up(
            "Failed to fetch from AudioDB URL: "@ + why@,
        ),
    }
}

fn give_up(line: String) -> (step: ArtStep)
    ensures
        step@ == gives_up(line@),
{
    ArtStep { messages: one_line(line), action: ArtAction::Done { image: None } }
}

fn with_reason(prefix: &str, why: &String) -> (line: String)
    ensures
        line@ == prefix@ + why@,
{
    let mut line = String::from_str(prefix);
    line.append(why.as_str());
    line
}

/// Asks the cover art archive for a release's front cover, one step at a
/// time: call it with `ArtEvent::Begin`, carry out the action it returns, and
/// call it again with what came back, until the action is `Done`.
pub fn fetch_musicbrainz_cover_art(release_id: &str, event: ArtEvent) -> (step: ArtStep)
    ensures
        step@ == archive_step(release_id@, event),
{
    match event {
        ArtEvent::Begin => {
            let mut line = String::from_str("Fetching cover art from MusicBrainz for release: ");
            line.append(release_id);
            let mut url = String::from_str("https://coverartarchive.org/release/");
            url.append(release_id);
            url.append("/front");
            ArtStep { messages: one_line(line), action: ArtAction::FetchImage { url } }
        },
        ArtEvent::Image(ImageReply::Bytes(bytes)) => ArtStep {
            messages: one_line(String::from_str("Successfully fetched cover art from MusicBrainz")),
            action: ArtAction::Done { image: Some(bytes) },
        },
        ArtEvent::Image(ImageReply::Unreadable(why)) => give_up(
            with_reason("Failed to read cover art data: ", &why),
        ),
        ArtEvent::Image(ImageReply::Status(status)) => {
            let mut line = with_reason("Cover art not available from MusicBrainz (status: ", &status);
            line.append(")");
            give_up(line)
        },
        ArtEvent::Image(ImageReply::Failed(why)) => give_up(
            with_reason("Failed to fetch cover art from MusicBrainz: ", &why),
        ),
        ArtEvent::Search(_) => ArtStep {
            messages: no_lines(),
            action: ArtAction::Done { image: None },
        },
    }
}

/// Asks the album database for an album's thumbnail, one step at a time, in
/// the same way.
pub fn fetch_audiodb_cover_art(artist: &str, album: &str, event: ArtEvent) -> (step: ArtStep)
    ensures
        step@ == audiodb_step(artist@, album@, event),
{
    match event {
        ArtEvent::Begin => {
            let mut line = String::from_str("Trying AudioDB for cover art: ");
            line.append(artist);
            line.append(" - ");
            line.append(album);
            let mut url = String::from_str(
                "https://www.theaudiodb.com/api/v1/json/2/searchalbum.php?s=",
            );
            let encoded_artist = url_encode(artist);
            url.append(encoded_artist.as_str());
            url.append("&a=");
            let encoded_album = url_encode(album);
            url.append(encoded_album.as_str());
            ArtStep { messages: one_line(line), action: ArtAction::FetchSearch { url } }
        },
        ArtEvent::Search(SearchReply::Document(document)) => match thumbnail_url(&document) {
            Ok(url) => ArtStep { messages: no_lines(), action: ArtAction::FetchImage { url } },
            Err(miss) => give_up(miss.message()),
        },
        ArtEvent::Search(SearchReply::Unparsable(why)) => give_up(
            with_reason("Failed to parse AudioDB response: ", &why),
        ),
        ArtEvent::Search(SearchReply::Status(status)) => {
            let mut line = with_reason("AudioDB request failed (status: ", &status);
            line.append(")");
            give_up(line)
        },
        ArtEvent::Search(SearchReply::Failed(why)) => give_up(
            with_reason("Failed to fetch from AudioDB: ", &why),
        ),
        ArtEvent::Image(ImageReply::Bytes(bytes)) => ArtStep {
            messages: one_line(String::from_str("Successfully fetched cover art from AudioDB")),
            action: ArtAction::Done { image: Some(bytes) },
        },
        ArtEvent::Image(ImageReply::Unreadable(why)) => give_up(
            with_reason("Failed to download AudioDB cover art: ", &why),
        ),
        ArtEvent::Image(ImageReply::Status(_)) => give_up(
            String::from_str("AudioDB cover art download failed"),
        ),
        ArtEvent::Image(ImageReply::Failed(why)) => give_up(
            with_reason("Failed to fetch from AudioDB URL: ", &why),
        ),
    }
}

/// Where the saving of an album's cover stands: at the archive, or at the
/// album database, which is turned to when the archive has no image or its
/// image could not be written.
#[derive(Clone, Copy, Debug, PartialEq, Eq, Structural)]
pub enum SaveArtStage {
    Archive,
    AudioDb { after_failed_write: bool },
}

/// What the saving is told: that it begins, what a source came to, or
/// whether the image was written.
#[derive(Clone, Debug)]
pub enum SaveArtEvent {
    Begin,
    Fetched { image: Option<Vec<u8>> },
    Written { ok: bool },
}

/// What the saving asks for next.
#[derive(Clone, Debug)]
pub enum SaveArtAction {
    /// Ask this source and report back with `SaveArtEvent::Fetched`.
    Fetch { source: ArtSource },
    /// Write the image and report back with `SaveArtEvent::Written`.
    Write { path: String, image: Vec<u8> },
    Done,
}

/// What a `SaveArtAction` holds, as mathematical values.
pub enum SaveArtActionView {
    Fetch { source: ArtSource },
    Write { path: Seq<char>, image: Seq<u8> },
    Done,
}

impl View for SaveArtAction {
    type V = SaveArtActionView;

    open spec fn view(&self) -> SaveArtActionView {
        match self {
            SaveArtAction::Fetch { source } => SaveArtActionView::Fetch { source: *source },
            SaveArtAction::Write { path, image } => SaveArtActionView::Write {
                path: path@,
                image: image@,
            },
            SaveArtAction::Done => SaveArtActionView::Done,
        }
    }
}

/// One step of the saving: where it stands after it, the lines to report,
/// and what to do next.
#[derive(Clone, Debug)]
pub struct SaveArtStep {
    pub stage: SaveArtStage,
    pub messages: Vec<String>,
    pub action: SaveArtAction,
}

/// What a `SaveArtStep` holds, as mathematical values.
pub struct SaveArtStepView {
    pub stage: SaveArtStage,
    pub messages: Seq<Seq<char>>,
    pub action: SaveArtActionView,
}

impl View for SaveArtStep {
    type V = SaveArtStepView;

    open spec fn view(&self) -> SaveArtStepView {
        SaveArtStepView {
            stage: self.stage,
            messages: lines_view(self.messages@),
            action: self.action@,
        }
    }
}

/// The file an album's cover is saved to.
pub open spec fn cover_path(album_path: Seq<char>) -> Seq<char> {
    joined_path(album_path, "cover.jpg"@)
}

/// The step that the saving of an album's cover takes on an event. The
/// archive comes first. The album database is asked where the archive has no
/// image, and where its image could not be written. An image of the album
/// database that cannot be written is let go.
pub open spec fn save_art_step(album_path: Seq<char>, stage: SaveArtStage, event: SaveArtEvent) -> SaveArtStepView {
    match (stage, event) {
        (_, SaveArtEvent::Begin) => SaveArtStepView {
            stage: SaveArtStage::Archive,
            messages: Seq::empty(),
            action: SaveArtActionView::Fetch { source: ArtSource::Archive },
        },
        (_, SaveArtEvent::Fetched { image: Some(image) }) => SaveArtStepView {
            stage,
            messages: Seq::empty(),
            action: SaveArtActionView::Write { path: cover_path(album_path), image: image@ },
        },
        (SaveArtStage::Archive, SaveArtEvent::Fetched { image: None }) => SaveArtStepView {
            stage: SaveArtStage::AudioDb { after_failed_write: false },
            messages: Seq::empty(),
            action: SaveArtActionView::Fetch { source: ArtSource::AudioDb },
        },
        (SaveArtStage::AudioDb { after_failed_write }, SaveArtEvent::Fetched { image: None }) =>
            SaveArtStepView {
                stage,
                messages: if after_failed_write {
                    Seq::empty()
                } else {
                    seq!["No cover art found from any source"@]
                },
                action: SaveArtActionView::Done,
            },
        (SaveArtStage::Archive, SaveArtEvent::Written { ok }) => if ok {
            SaveArtStepView {
                stage,
                messages: seq!["Saved MusicBrainz cover art to: "@ + cover_path(album_path)],
                action: SaveArtActionView::Done,
            }
        } else {
            SaveArtStepView {
                stage: SaveArtStage::AudioDb { after_failed_write: true },
                messages: Seq::empty(),
                action: SaveArtActionView::Fetch { source: ArtSource::AudioDb },
            }
        },
        (SaveArtStage::AudioDb { .. }, SaveArtEvent::Written { ok }) => SaveArtStepView {
            stage,
            messages: if ok {
                seq!["Saved AudioDB cover art to: "@ + cover_path(album_path)]
            } else {
                Seq::empty()
            },
            action: SaveArtActionView::Done,
        },
    }
}

/// Saves an album's cover, one step at a time: call it with
/// `SaveArtStage::Archive` and `SaveArtEvent::Begin`, carry out the action it
/// returns, and call it again with the stage it returned and what came of
/// the action, until the action is `Done`.
pub fn save_cover_art_to_album(album_path: &str, stage: SaveArtStage, event: SaveArtEvent) -> (step:
    SaveArtStep)
    ensures
        step@ == save_art_step(album_path@, stage, event),
{
    match event {
        SaveArtEvent::Begin => SaveArtStep {
            stage: SaveArtStage::Archive,
            messages: no_lines(),
            action: SaveArtAction::Fetch { source: ArtSource::Archive },
        },
        SaveArtEvent::Fetched { image: Some(image) } => SaveArtStep {
            stage,
            messages: no_lines(),
            action: SaveArtAction::Write { path: join_path(album_path, "cover.jpg"), image },
        },
        SaveArtEvent::Fetched { image: None } => match stage {
            SaveArtStage::Archive => SaveArtStep {
                stage: SaveArtStage::AudioDb { after_failed_write: false },
                messages: no_lines(),
                action: SaveArtAction::Fetch { source: ArtSource::AudioDb },
            },
            SaveArtStage::AudioDb { after_failed_write } => SaveArtStep {
                stage,
                messages: if after_failed_write {
                    no_lines()
                } else {
                    one_line(String::from_str("No cover art found from any source"))
                },
                action: SaveArtAction::Done,
            },
        },
        SaveArtEvent::Written { ok } => match stage {
            SaveArtStage::Archive => {
                if ok {
                    let mut line = String::from_str("Saved MusicBrainz cover art to: ");
                    let path = join_path(album_path, "cover.jpg");
                    line.append(path.as_str());
                    SaveArtStep { stage, messages: one_line(line), action: SaveArtAction::Done }
                } else {
                    SaveArtStep {
                        stage: SaveArtStage::AudioDb { after_failed_write: true },
                        messages: no_lines(),
                        action: SaveArtAction::Fetch { source: ArtSource::AudioDb },
                    }
                }
            },
            SaveArtStage::AudioDb { .. } => {
                if ok {
                    let mut line = String::from_str("Saved AudioDB cover art to: ");
                    let path = join_path(album_path, "cover.jpg");
                    line.append(path.as_str());
                    SaveArtStep { stage, messages: one_line(line), action: SaveArtAction::Done }
                } else {
                    SaveArtStep { stage, messages: no_lines(), action: SaveArtAction::Done }
                }
            },
        },
    }
}

} // verus!
