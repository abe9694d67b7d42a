//! Release metadata: reading a release out of a metadata service's reply and
//! laying it over the disc record.

use vstd::prelude::*;
use vstd::string::*;
use crate::cd::{
    default_title, output_filename, placeholder_title, total_duration_of, total_seconds,
    track_filename, tracks_view, unknown_album, unknown_artist, CdInfo, CdInfoView, CdTrack,
    CdTrackView,
};
use crate::json::Json;
use crate::musicbrainz::{
    release_search_query, release_search_text, ReleaseSummary, SearchOutcome,
};
use crate::text::{lines_view, one_line, parse_u32, parsed_u32};

verus! {

/// One track entry of a release.
#[derive(Clone, Debug)]
pub struct ReleaseTrack {
    pub number: u32,
    pub title: String,
    /// Playing time in seconds, where the release gives one.
    pub duration: Option<u64>,
}

/// What a `ReleaseTrack` holds, as mathematical values.
pub struct ReleaseTrackView {
    pub number: u32,
    pub title: Seq<char>,
    pub duration: Option<u64>,
}

impl View for ReleaseTrack {
    type V = ReleaseTrackView;

    open spec fn view(&self) -> ReleaseTrackView {
        ReleaseTrackView { number: self.number, title: self.title@, duration: self.duration }
    }
}

/// A release as the metadata service describes it.
#[derive(Clone, Debug)]
pub struct Release {
    pub id: String,
    pub title: String,
    pub artist: String,
    pub tracks: Vec<ReleaseTrack>,
}

/// What a `Release` holds, as mathematical values.
pub struct ReleaseView {
    pub id: Seq<char>,
    pub title: Seq<char>,
    pub artist: Seq<char>,
    pub tracks: Seq<ReleaseTrackView>,
}

impl View for Release {
    type V = ReleaseView;

    open spec fn view(&self) -> ReleaseView {
        ReleaseView {
            id: self.id@,
            title: self.title@,
            artist: self.artist@,
            tracks: self.tracks@.map_values(|t: ReleaseTrack| t@),
        }
    }
}

/// The string value of member `key`, where `data` is an object that has such
/// a member and the member is a string.
pub open spec fn member_text(data: Json, key: Seq<char>) -> Option<Seq<char>> {
    match data.member(key) {
        Some(value) => value.text(),
        None => None,
    }
}

/// `text`, or `default` where there is none.
pub open spec fn text_or(text: Option<Seq<char>>, default: Seq<char>) -> Seq<char> {
    match text {
        Some(s) => s,
        None => default,
    }
}

/// The release identifier: member `id`, or the empty text.
pub open spec fn release_id_of(data: Json) -> Seq<char> {
    text_or(member_text(data, "id"@), Seq::empty())
}

/// The release title: member `title`, or "Unknown Album".
pub open spec fn release_title_of(data: Json) -> Seq<char> {
    text_or(member_text(data, "title"@), unknown_album())
}

/// The release artist: the `name` of the first entry of `artist-credit`, or
/// "Unknown Artist".
pub open spec fn release_artist_of(data: Json) -> Seq<char> {
    match data.member("artist-credit"@) {
        Some(credits) => match credits.first_element() {
            Some(credit) => text_or(member_text(credit, "name"@), unknown_artist()),
            None => unknown_artist(),
        },
        None => unknown_artist(),
    }
}

/// The track entries of the release's first medium; none where the document
/// has no such list.
pub open spec fn release_track_entries(data: Json) -> Seq<Json> {
    match data.member("media"@) {
        Some(media) => match media.first_element() {
            Some(medium) => match medium.member("tracks"@) {
                Some(tracks) => match tracks.elements() {
                    Some(entries) => entries,
                    None => Seq::empty(),
                },
                None => Seq::empty(),
            },
            None => Seq::empty(),
        },
        None => Seq::empty(),
    }
}

/// The track number that a position in the list stands for: position plus
/// one, held at the largest `u32`.
pub open spec fn position_number(position: int) -> u32 {
    if position + 1 <= u32::MAX {
        (position + 1) as u32
    } else {
        u32::MAX
    }
}

/// The number of a track entry: its `number` member where that is a string
/// that writes a number, else the one its position stands for.
pub open spec fn entry_number(entry: Json, position: int) -> u32 {
    match member_text(entry, "number"@) {
        Some(text) => match parsed_u32(text) {
            Some(n) => n,
            None => position_number(position),
        },
        None => position_number(position),
    }
}

/// The playing time of a track entry: its `length` member, given in
/// milliseconds, as whole seconds; none where the entry has no such member
/// or the member is no such number.
pub open spec fn entry_seconds(entry: Json) -> Option<u64> {
    match entry.member("length"@) {
        Some(length) => match length.unsigned() {
            Some(ms) => Some(ms / 1000),
            None => None,
        },
        None => None,
    }
}

/// What a track entry at a position of the list says.
pub open spec fn release_track_of(entry: Json, position: int) -> ReleaseTrackView {
    ReleaseTrackView {
        number: entry_number(entry, position),
        title: text_or(
            member_text(entry, "title"@),
            placeholder_title(entry_number(entry, position)),
        ),
        duration: entry_seconds(entry),
    }
}

/// The release that a release document describes.
pub open spec fn release_of(data: Json) -> ReleaseView {
    ReleaseView {
        id: release_id_of(data),
        title: release_title_of(data),
        artist: release_artist_of(data),
        tracks: Seq::new(
            release_track_entries(data).len(),
            |i: int| release_track_of(release_track_entries(data)[i], i),
        ),
    }
}

fn string_member<'a>(data: &'a Json, key: &str) -> (r: Option<&'a str>)
    ensures
        match r {
            Some(s) => member_text(*data, key@) == Some(s@),
            None => member_text(*data, key@) is None,
        },
{
    match data.get(key) {
        Some(value) => value.as_str(),
        None => None,
    }
}

fn owned_or(text: Option<&str>, default: &str) -> (r: String)
    ensures
        r@ == match text {
            Some(s) => s@,
            None => default@,
        },
{
    match text {
        Some(s) => String::from_str(s),
        None => String::from_str(default),
    }
}

fn parse_artist(data: &Json) -> (r: String)
    ensures
        r@ == release_artist_of(*data),
{
    match data.get("artist-credit") {
        Some(credits) => match credits.first() {
            Some(credit) => owned_or(string_member(credit, "name"), "Unknown Artist"),
            None => String::from_str("Unknown Artist"),
        },
        None => String::from_str("Unknown Artist"),
    }
}

fn parse_track(entry: &Json, position: usize) -> (r: ReleaseTrack)
    ensures
        r@ == release_track_of(*entry, position as int),
{
    let by_position: u32 = if position < u32::MAX as usize {
        (position + 1) as u32
    } else {
        u32::MAX
    };
    let number = match string_member(entry, "number") {
        Some(text) => match parse_u32(text) {
            Some(n) => n,
            None => by_position,
        },
        None => by_position,
    };
    let title = match string_member(entry, "title") {
        Some(s) => String::from_str(s),
        None => default_title(number),
    };
    let duration = match entry.get("length") {
        Some(length) => match length.as_u64() {
            Some(ms) => Some(ms / 1000),
            None => None,
        },
        None => None,
    };
    ReleaseTrack { number, title, duration }
}

fn parse_tracks(data: &Json) -> (r: Vec<ReleaseTrack>)
    ensures
        r@.map_values(|t: ReleaseTrack| t@) == release_of(*data).tracks,
{
    let mut tracks: Vec<ReleaseTrack> = Vec::new();
    let entries = match data.get("media") {
        Some(media) => match media.first() {
            Some(medium) => match medium.get("tracks") {
                Some(list) => list.as_array(),
                None => None,
            },
            None => None,
        },
        None => None,
    };
    match entries {
        Some(entries) => {
            assert(entries@ == release_track_entries(*data));
            let mut i: usize = 0;
            while i < entries.len()
                invariant
                    i <= entries.len(),
                    tracks@.len() == i,
                    forall|k: int|
                        0 <= k < i ==> (#[trigger] tracks@[k])@ == release_track_of(entries@[k], k),
                decreases entries.len() - i,
            {
                let track = parse_track(&entries[i], i);
                tracks.push(track);
                i += 1;
            }
            assert(tracks@.map_values(|t: ReleaseTrack| t@) =~= release_of(*data).tracks);
        },
        None => {
            assert(release_track_entries(*data) =~= Seq::<Json>::empty());
            assert(tracks@.map_values(|t: ReleaseTrack| t@) =~= release_of(*data).tracks);
        },
    }
    tracks
}

/// Reads a release out of a release document.
pub fn parse_release(data: &Json) -> (r: Release)
    ensures
        r@ == release_of(*data),
{
    Release {
        id: match string_member(data, "id") {
            Some(s) => String::from_str(s),
            None => String::new(),
        },
        title: owned_or(string_member(data, "title"), "Unknown Album"),
        artist: parse_artist(data),
        tracks: parse_tracks(data),
    }
}

/// The first entry of a release that carries `number`, if any does.
pub open spec fn entry_for(entries: Seq<ReleaseTrackView>, number: u32) -> Option<ReleaseTrackView>
    decreases entries.len(),
{
    if entries.len() == 0 {
        None
    } else if entries[0].number == number {
        Some(entries[0])
    } else {
        entry_for(entries.drop_first(), number)
    }
}

/// The playing time of a track under a release entry: the entry's where it
/// gives one, else the disc's own.
pub open spec fn merged_seconds(own: u64, entry: ReleaseTrackView) -> u64 {
    match entry.duration {
        Some(seconds) => seconds,
        None => own,
    }
}

/// A disc track under a release: the release's artist, and the title, file
/// name and playing time of the release entry with the track's number. A
/// track that the release has no entry for keeps its title, file name and
/// playing time; so does the playing time of a track whose entry gives none.
/// The number is the disc's own.
pub open spec fn merged_track(t: CdTrackView, release: ReleaseView) -> CdTrackView {
    match entry_for(release.tracks, t.number) {
        Some(entry) => CdTrackView {
            number: t.number,
            title: entry.title,
            artist: release.artist,
            duration: merged_seconds(t.duration, entry),
            filename: track_filename(t.number, entry.title),
        },
        None => CdTrackView {
            number: t.number,
            title: t.title,
            artist: release.artist,
            duration: t.duration,
            filename: t.filename,
        },
    }
}

/// The tracks of a disc under a release, one for one.
pub open spec fn merged_tracks(tracks: Seq<CdTrackView>, release: ReleaseView) -> Seq<CdTrackView> {
    Seq::new(tracks.len(), |i: int| merged_track(tracks[i], release))
}

/// The disc record under a release: the release's title, artist and
/// identifier, the disc's own tracks merged by number, and the sum of their
/// playing times.
pub open spec fn merged_info(info: CdInfoView, release: ReleaseView) -> CdInfoView {
    CdInfoView {
        disc_id: info.disc_id,
        title: release.title,
        artist: release.artist,
        tracks: merged_tracks(info.tracks, release),
        total_duration: total_seconds(merged_tracks(info.tracks, release)),
        release_id: Some(release.id),
    }
}

/// A record under a release is consistent, whatever the record was, and has
/// the tracks of the record in number and numbering.
pub proof fn law_merged_record_is_consistent(info: CdInfoView, release: ReleaseView)
    ensures
        ({
            let merged = merged_info(info, release);
            &&& merged.is_consistent()
            &&& merged.disc_id == info.disc_id
            &&& merged.tracks.len() == info.tracks.len()
            &&& forall|i: int|
                0 <= i < info.tracks.len() ==> (#[trigger] merged.tracks[i]).number
                    == info.tracks[i].number
        }),
{
}

fn find_entry(release: &Release, number: u32) -> (r: Option<usize>)
    ensures
        match r {
            Some(i) => i < release.tracks.len() && entry_for(release@.tracks, number) == Some(
                release.tracks[i as int]@,
            ),
            None => entry_for(release@.tracks, number) is None,
        },
{
    let mut i: usize = 0;
    assert(release@.tracks.skip(0) =~= release@.tracks);
    while i < release.tracks.len()
        invariant
            i <= release.tracks.len(),
            release@.tracks.len() == release.tracks.len(),
            entry_for(release@.tracks, number) == entry_for(release@.tracks.skip(i as int), number),
        decreases release.tracks.len() - i,
    {
        proof {
            assert(release@.tracks.skip(i as int)[0] == release.tracks[i as int]@);
            assert(release@.tracks.skip(i as int).drop_first() =~= release@.tracks.skip(i + 1));
        }
        if release.tracks[i].number == number {
            return Some(i);
        }
        i += 1;
    }
    None
}

fn merge_track(t: &CdTrack, release: &Release) -> (r: CdTrack)
    ensures
        r@ == merged_track(t@, release@),
{
    match find_entry(release, t.number) {
        Some(i) => {
            let entry = &release.tracks[i];
            CdTrack {
                number: t.number,
                title: entry.title.clone(),
                artist: release.artist.clone(),
                duration: match entry.duration {
                    Some(seconds) => seconds,
                    None => t.duration,
                },
                filename: output_filename(t.number, entry.title.as_str()),
            }
        },
        None => CdTrack {
            number: t.number,
            title: t.title.clone(),
            artist: release.artist.clone(),
            duration: t.duration,
            filename: t.filename.clone(),
        },
    }
}

/// Lays a release over the disc record.
pub fn apply_release(cd_info: &CdInfo, release: &Release) -> (merged: CdInfo)
    ensures
        merged@ == merged_info(cd_info@, release@),
        merged.is_consistent(),
{
    let mut tracks: Vec<CdTrack> = Vec::new();
    let mut i: usize = 0;
    while i < cd_info.tracks.len()
        invariant
            i <= cd_info.tracks.len(),
            tracks@.len() == i,
            forall|k: int|
                0 <= k < i ==> (#[trigger] tracks@[k])@ == merged_track(
                    cd_info.tracks@[k]@,
                    release@,
                ),
        decreases cd_info.tracks.len() - i,
    {
        tracks.push(merge_track(&cd_info.tracks[i], release));
        i += 1;
    }
    proof {
        assert(tracks_view(tracks@) =~= merged_tracks(cd_info@.tracks, release@));
    }
    let total_duration = total_duration_of(&tracks);
    CdInfo {
        disc_id: cd_info.disc_id.clone(),
        title: release.title.clone(),
        artist: release.artist.clone(),
        tracks,
        total_duration,
        release_id: Some(release.id.clone()),
    }
}

/// The disc record under the release that a release document describes.
pub fn cd_info_from_discid_response(release_data: &Json, cd_info: &CdInfo) -> (merged: CdInfo)
    ensures
        merged@ == merged_info(cd_info@, release_of(*release_data)),
        merged.is_consistent(),
{
    let release = parse_release(release_data);
    apply_release(cd_info, &release)
}

/// What resolution is told: that it begins, or what a request came back
/// with.
#[derive(Debug)]
pub enum LookupEvent {
    Begin,
    /// The lookup by disc identifier: the reply document, or `None` where the
    /// request failed.
    DiscLookup(Option<Json>),
    /// The free-text search.
    Search(SearchOutcome),
}

/// What resolution asks for next.
#[derive(Clone, Debug)]
pub enum LookupAction {
    /// Fetch this address and report back with `LookupEvent::DiscLookup`.
    QueryDiscId { url: String },
    /// Search releases with this query and report back with
    /// `LookupEvent::Search`.
    QuerySearch { query: String },
    /// Resolution is over; this is the disc record to go on with.
    Finish { info: CdInfo },
}

/// What a `LookupAction` holds, as mathematical values.
pub enum LookupActionView {
    QueryDiscId { url: Seq<char> },
    QuerySearch { query: Seq<char> },
    Finish { info: CdInfoView },
}

impl View for LookupAction {
    type V = LookupActionView;

    open spec fn view(&self) -> LookupActionView {
        match self {
            LookupAction::QueryDiscId { url } => LookupActionView::QueryDiscId { url: url@ },
            LookupAction::QuerySearch { query } => LookupActionView::QuerySearch { query: query@ },
            LookupAction::Finish { info } => LookupActionView::Finish { info: info@ },
        }
    }
}

/// One step of resolution: the lines to report, in order, and what to do
/// next.
#[derive(Clone, Debug)]
pub struct LookupStep {
    pub messages: Vec<String>,
    pub action: LookupAction,
}

/// What a `LookupStep` holds, as mathematical values.
pub struct LookupStepView {
    pub messages: Seq<Seq<char>>,
    pub action: LookupActionView,
}

impl View for LookupStep {
    type V = LookupStepView;

    open spec fn view(&self) -> LookupStepView {
        LookupStepView { messages: lines_view(self.messages@), action: self.action@ }
    }
}

/// Address of the lookup by disc identifier.
pub open spec fn discid_url(disc_id: Seq<char>) -> Seq<char> {
    "https://musicbrainz.org/ws/2/discid/"@ + disc_id
        + "?fmt=json&inc=artists+release-groups+recordings"@
}

/// The release that a lookup reply names: the first entry of `releases`,
/// where that entry carries a string `id`.
pub open spec fn named_release(reply: Option<Json>) -> Option<Json> {
    match reply {
        Some(document) => match document.member("releases"@) {
            Some(releases) => match releases.first_element() {
                Some(release) => if member_text(release, "id"@) is Some {
                    Some(release)
                } else {
                    None
                },
                None => None,
            },
            None => None,
        },
        None => None,
    }
}

/// The line that says why a lookup reply names no release.
pub open spec fn no_release_line(reply: Option<Json>) -> Seq<char> {
    match reply {
        Some(document) => match document.member("releases"@) {
            Some(releases) => match releases.first_element() {
                Some(release) =>
                    "No release ID found in discid response, trying search by artist/album..."@,
                None => "No releases found for this discid, trying search by artist/album..."@,
            },
            None => "Invalid discid response format, trying search by artist/album..."@,
        },
        None => "DiscID lookup failed, trying search by artist/album..."@,
    }
}

/// The line that announces a matched release.
pub open spec fn found_line(artist: Seq<char>, title: Seq<char>, id: Seq<char>) -> Seq<char> {
    "Found release: "@ + artist + " - "@ + title + " ("@ + id + ")"@
}

/// Merging keeps a record's file names derived and its numbers distinct: a
/// track that takes a title from the release takes the file name of that
/// title, a track that takes none keeps both, and every track keeps its
/// number.
pub proof fn law_merged_record_is_named(info: CdInfoView, release: ReleaseView)
    ensures
        info.has_derived_names() ==> merged_info(info, release).has_derived_names(),
        info.has_distinct_numbers() ==> merged_info(info, release).has_distinct_numbers(),
{
    let merged = merged_tracks(info.tracks, release);
    if info.has_derived_names() {
        assert forall|i: int| 0 <= i < merged.len() implies (#[trigger] merged[i]).filename
            == track_filename(merged[i].number, merged[i].title) by {
            assert(merged[i] == merged_track(info.tracks[i], release));
        }
    }
    if info.has_distinct_numbers() {
        assert forall|i: int, j: int| 0 <= i < j < merged.len() implies (#[trigger] merged[i]).number
            != (#[trigger] merged[j]).number by {
            assert(merged[i].number == info.tracks[i].number);
            assert(merged[j].number == info.tracks[j].number);
        }
    }
}

/// The disc record under a search result: the result's title, credited
/// artist and identifier; the tracks stay as they are.
pub open spec fn matched_info(info: CdInfoView, found: ReleaseSummary) -> CdInfoView {
    CdInfoView {
        disc_id: info.disc_id,
        title: found.title@,
        artist: found.credited(unknown_artist()),
        tracks: info.tracks,
        total_duration: info.total_duration,
        release_id: Some(found.id@),
    }
}

/// The step that resolution takes on an event.
///
/// It begins with the lookup by disc identifier. A reply that names a
/// release ends it with the record under that release. Any other reply, or
/// none, leads to the free-text search for the record's title and artist. A
/// search result ends it with the record under that result; a search without
/// result, or a failed one, ends it with the record as it came.
pub open spec fn lookup_step(info: CdInfoView, event: LookupEvent) -> LookupStepView {
    match event {
        LookupEvent::Begin => LookupStepView {
            messages: seq![
                "Looking up CD information from MusicBrainz..."@,
                "Attempting lookup by DiscID: "@ + info.disc_id,
            ],
            action: LookupActionView::QueryDiscId { url: discid_url(info.disc_id) },
        },
        LookupEvent::DiscLookup(reply) => match named_release(reply) {
            Some(release) => LookupStepView {
                messages: seq![
                    found_line(
                        release_artist_of(release),
                        release_title_of(release),
                        release_id_of(release),
                    ),
                ],
                action: LookupActionView::Finish { info: merged_info(info, release_of(release)) },
            },
            None => LookupStepView {
                messages: seq![no_release_line(reply)],
                action: LookupActionView::QuerySearch {
                    query: release_search_text(info.title, info.artist),
                },
            },
        },
        LookupEvent::Search(outcome) => match outcome {
            SearchOutcome::Found(found) => LookupStepView {
                messages: seq![
                    found_line(found.credited(unknown_artist()), found.title@, found.id@),
                ],
                action: LookupActionView::Finish { info: matched_info(info, found) },
            },
            SearchOutcome::NoMatch => LookupStepView {
                messages: seq!["No exact match found, using provided information..."@],
                action: LookupActionView::Finish { info },
            },
            SearchOutcome::Failed(_) => LookupStepView {
                messages: seq!["MusicBrainz lookup failed, using provided information..."@],
                action: LookupActionView::Finish { info },
            },
        },
    }
}

/// A copy of a track.
pub fn copy_track(t: &CdTrack) -> (r: CdTrack)
    ensures
        r@ == t@,
{
    CdTrack {
        number: t.number,
        title: t.title.clone(),
        artist: t.artist.clone(),
        duration: t.duration,
        filename: t.filename.clone(),
    }
}

/// A copy of a list of tracks.
pub fn copy_tracks(tracks: &Vec<CdTrack>) -> (r: Vec<CdTrack>)
    ensures
        tracks_view(r@) == tracks_view(tracks@),
{
    let mut out: Vec<CdTrack> = Vec::new();
    let mut i: usize = 0;
    while i < tracks.len()
        invariant
            i <= tracks.len(),
            out@.len() == i,
            forall|k: int| 0 <= k < i ==> (#[trigger] out@[k])@ == tracks@[k]@,
        decreases tracks.len() - i,
    {
        out.push(copy_track(&tracks[i]));
        i += 1;
    }
    assert(tracks_view(out@) =~= tracks_view(tracks@));
    out
}

/// A copy of a disc record.
pub fn copy_info(info: &CdInfo) -> (r: CdInfo)
    ensures
        r@ == info@,
{
    CdInfo {
        disc_id: info.disc_id.clone(),
        title: info.title.clone(),
        artist: info.artist.clone(),
        tracks: copy_tracks(&info.tracks),
        total_duration: info.total_duration,
        release_id: match &info.release_id {
            Some(id) => Some(id.clone()),
            None => None,
        },
    }
}

fn found_message(artist: &str, title: &str, id: &str) -> (r: String)
    ensures
        r@ == found_line(artist@, title@, id@),
{
    let mut line = String::from_str("Found release: ");
    line.append(artist);
    line.append(" - ");
    line.append(title);
    line.append(" (");
    line.append(id);
    line.append(")");
    line
}

fn after_disc_lookup(cd_info: &CdInfo, reply: &Option<Json>) -> (step: LookupStep)
    ensures
        step@ == lookup_step(cd_info@, LookupEvent::DiscLookup(*reply)),
{
    let search = LookupAction::QuerySearch {
        query: release_search_query(cd_info.title.as_str(), cd_info.artist.as_str()),
    };
    match reply {
        Some(document) => match document.get("releases") {
            Some(releases) => match releases.first() {
                Some(release_data) => match string_member(release_data, "id") {
                    Some(id) => {
                        let release = parse_release(release_data);
                        let merged = apply_release(cd_info, &release);
                        let line = found_message(
                            release.artist.as_str(),
                            release.title.as_str(),
                            release.id.as_str(),
                        );
                        LookupStep {
                            messages: one_line(line),
                            action: LookupAction::Finish { info: merged },
                        }
                    },
                    None => LookupStep {
                        messages: one_line(
                            String::from_str(
                                "No release ID found in discid response, trying search by artist/album...",
                            ),
                        ),
                        action: search,
                    },
                },
                None => LookupStep {
                    messages: one_line(
                        String::from_str(
                            "No releases found for this discid, trying search by artist/album...",
                        ),
                    ),
                    action: search,
                },
            },
            None => LookupStep {
                messages: one_line(
                    String::from_str(
                        "Invalid discid response format, trying search by artist/album...",
                    ),
                ),
                action: search,
            },
        },
        None => LookupStep {
            messages: one_line(
                String::from_str("DiscID lookup failed, trying search by artist/album..."),
            ),
            action: search,
        },
    }
}

fn after_search(cd_info: &CdInfo, outcome: &SearchOutcome) -> (step: LookupStep)
    ensures
        step@ == lookup_step(cd_info@, LookupEvent::Search(*outcome)),
{
    match outcome {
        SearchOutcome::Found(found) => {
            let artist = found.credited_artist("Unknown Artist");
            let line = found_message(artist.as_str(), found.title.as_str(), found.id.as_str());
            LookupStep {
                messages: one_line(line),
                action: LookupAction::Finish {
                    info: CdInfo {
                        disc_id: cd_info.disc_id.clone(),
                        title: found.title.clone(),
                        artist,
                        tracks: copy_tracks(&cd_info.tracks),
                        total_duration: cd_info.total_duration,
                        release_id: Some(found.id.clone()),
                    },
                },
            }
        },
        SearchOutcome::NoMatch => LookupStep {
            messages: one_line(
                String::from_str("No exact match found, using provided information..."),
            ),
            action: LookupAction::Finish { info: copy_info(cd_info) },
        },
        SearchOutcome::Failed(_) => LookupStep {
            messages: one_line(
                String::from_str("MusicBrainz lookup failed, using provided information..."),
            ),
            action: LookupAction::Finish { info: copy_info(cd_info) },
        },
    }
}

/// Resolves the release of a disc, one step at a time: call it with
/// `LookupEvent::Begin`, carry out the action it returns, and call it again
/// with what came back, until the action is `Finish`.
pub fn lookup_cd_info(cd_info: &CdInfo, event: &LookupEvent) -> (step: LookupStep)
    ensures
        step@ == lookup_step(cd_info@, *event),
        cd_info.is_consistent() ==> (step.action matches LookupAction::Finish { info }
            ==> info.is_consistent()),
{
    proof {
        if cd_info.is_consistent() {
            law_resolution_keeps_disc(cd_info@, *event);
        }
    }
    match event {
        LookupEvent::Begin => {
            let mut messages: Vec<String> = Vec::new();
            messages.push(String::from_str("Looking up CD information from MusicBrainz..."));
            let mut attempt = String::from_str("Attempting lookup by DiscID: ");
            attempt.append(cd_info.disc_id.as_str());
            messages.push(attempt);
            let mut url = String::from_str("https://musicbrainz.org/ws/2/discid/");
            url.append(cd_info.disc_id.as_str());
            url.append("?fmt=json&inc=artists+release-groups+recordings");
            proof {
                assert(lines_view(messages@) =~= lookup_step(cd_info@, *event).messages);
            }
            LookupStep { messages, action: LookupAction::QueryDiscId { url } }
        },
        LookupEvent::DiscLookup(reply) => after_disc_lookup(cd_info, reply),
        LookupEvent::Search(outcome) => after_search(cd_info, outcome),
    }
}

/// If the lookup by disc identifier names no release and the search finds
/// none, the disc record comes out as it went in: same title, same artist,
/// same release identifier.
pub proof fn law_unresolved_release_keeps_record(
    info: CdInfoView,
    reply: Option<Json>,
    outcome: SearchOutcome,
)
    requires
        named_release(reply) is None,
        !(outcome is Found),
    ensures
        lookup_step(info, LookupEvent::DiscLookup(reply)).action is QuerySearch,
        lookup_step(info, LookupEvent::Search(outcome)).action == (LookupActionView::Finish {
            info,
        }),
{
}

/// Resolution never changes the disc identifier, the number of tracks or
/// their numbers, the total stays the sum of the playing times, file names
/// stay derived from number and title, and numbers that were distinct stay
/// so.
pub proof fn law_resolution_keeps_disc(info: CdInfoView, event: LookupEvent)
    requires
        info.is_consistent(),
    ensures
        lookup_step(info, event).action matches LookupActionView::Finish { info: resolved } ==> {
            &&& resolved.disc_id == info.disc_id
            &&& resolved.tracks.len() == info.tracks.len()
            &&& resolved.is_consistent()
            &&& info.has_derived_names() ==> resolved.has_derived_names()
            &&& info.has_distinct_numbers() ==> resolved.has_distinct_numbers()
            &&& forall|i: int|
                0 <= i < info.tracks.len() ==> (#[trigger] resolved.tracks[i]).number
                    == info.tracks[i].number
        },
{
    match event {
        LookupEvent::DiscLookup(reply) => {
            if let Some(release) = named_release(reply) {
                law_merged_record_is_consistent(info, release_of(release));
                law_merged_record_is_named(info, release_of(release));
            }
        },
        _ => {},
    }
}

} // verus!
