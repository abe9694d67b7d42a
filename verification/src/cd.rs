//! The disc as the drive reports it and as the importer works with it:
//! table of contents, tracks, and the disc record built from them.

use vstd::prelude::*;
use vstd::string::*;
use crate::text::{decimal_two, lemma_decimal_is_digits, push_decimal_two};
use crate::utils::{law_sanitized_is_one_component, sanitize_filename, sanitized};

verus! {

/// Sectors that hold one second of audio.
pub const SECTORS_PER_SECOND: u64 = 75;

/// One entry of the table of contents.
#[derive(Clone, Copy, Debug, PartialEq, Eq, Structural)]
pub struct DiscTrack {
    /// Position on the disc, counted from 1.
    pub number: u32,
    pub first_sector: u64,
    /// The last sector of the track, inclusive.
    pub last_sector: u64,
    pub is_audio: bool,
}

/// A track of the disc with the metadata known for it.
#[derive(Clone, Debug)]
pub struct CdTrack {
    pub number: u32,
    pub title: String,
    pub artist: String,
    /// Playing time in seconds.
    pub duration: u64,
    pub filename: String,
}

/// What a `CdTrack` holds, as mathematical values.
pub struct CdTrackView {
    pub number: u32,
    pub title: Seq<char>,
    pub artist: Seq<char>,
    pub duration: u64,
    pub filename: Seq<char>,
}

impl View for CdTrack {
    type V = CdTrackView;

    open spec fn view(&self) -> CdTrackView {
        CdTrackView {
            number: self.number,
            title: self.title@,
            artist: self.artist@,
            duration: self.duration,
            filename: self.filename@,
        }
    }
}

/// A disc: its identifier, the metadata known for it, and its tracks.
#[derive(Clone, Debug)]
pub struct CdInfo {
    pub disc_id: String,
    pub title: String,
    pub artist: String,
    pub tracks: Vec<CdTrack>,
    /// Playing time of the whole disc in seconds. It holds the sum of the
    /// tracks' playing times however many and however long they are.
    pub total_duration: u128,
    pub release_id: Option<String>,
}

/// What a `CdInfo` holds, as mathematical values.
pub struct CdInfoView {
    pub disc_id: Seq<char>,
    pub title: Seq<char>,
    pub artist: Seq<char>,
    pub tracks: Seq<CdTrackView>,
    pub total_duration: int,
    pub release_id: Option<Seq<char>>,
}

/// The views of a sequence of tracks, in order.
pub open spec fn tracks_view(tracks: Seq<CdTrack>) -> Seq<CdTrackView> {
    tracks.map_values(|t: CdTrack| t@)
}

/// The view of an optional string.
pub open spec fn text_view(s: Option<String>) -> Option<Seq<char>> {
    match s {
        Some(t) => Some(t@),
        None => None,
    }
}

impl View for CdInfo {
    type V = CdInfoView;

    open spec fn view(&self) -> CdInfoView {
        CdInfoView {
            disc_id: self.disc_id@,
            title: self.title@,
            artist: self.artist@,
            tracks: tracks_view(self.tracks@),
            total_duration: self.total_duration as int,
            release_id: text_view(self.release_id),
        }
    }
}

/// Sum of the playing times of `tracks`.
pub open spec fn total_seconds(tracks: Seq<CdTrackView>) -> int
    decreases tracks.len(),
{
    if tracks.len() == 0 {
        0
    } else {
        total_seconds(tracks.drop_last()) + tracks.last().duration
    }
}

/// Every track's file name is the one derived from its number and title.
pub open spec fn names_derived(tracks: Seq<CdTrackView>) -> bool {
    forall|i: int|
        0 <= i < tracks.len() ==> (#[trigger] tracks[i]).filename == track_filename(
            tracks[i].number,
            tracks[i].title,
        )
}

/// No two tracks have the same number.
pub open spec fn numbers_distinct(tracks: Seq<CdTrackView>) -> bool {
    forall|i: int, j: int|
        0 <= i < j < tracks.len() ==> (#[trigger] tracks[i]).number != (#[trigger] tracks[j]).number
}

impl CdInfoView {
    /// The recorded total is the sum of the tracks' playing times.
    pub open spec fn is_consistent(self) -> bool {
        self.total_duration == total_seconds(self.tracks)
    }

    /// Every track's file name is the one derived from its number and
    /// title.
    pub open spec fn has_derived_names(self) -> bool {
        names_derived(self.tracks)
    }

    /// No two tracks have the same number, so that no two have the same
    /// file name.
    pub open spec fn has_distinct_numbers(self) -> bool {
        numbers_distinct(self.tracks)
    }
}

impl CdInfo {
    /// The recorded total is the sum of the tracks' playing times.
    pub open spec fn is_consistent(&self) -> bool {
        self@.is_consistent()
    }
}

/// Album title of a disc that no release was matched to.
pub open spec fn unknown_album() -> Seq<char> {
    "Unknown Album"@
}

/// Artist of a disc or track that no release was matched to.
pub open spec fn unknown_artist() -> Seq<char> {
    "Unknown Artist"@
}

/// Title of a track that no release names: `Track NN`.
pub open spec fn placeholder_title(number: u32) -> Seq<char> {
    "Track "@ + decimal_two(number as nat)
}

/// Name of the file a track is encoded into: `NN <sanitized title>.flac`.
pub open spec fn track_filename(number: u32, title: Seq<char>) -> Seq<char> {
    decimal_two(number as nat) + " "@ + sanitized(title) + ".flac"@
}

/// The file name of a track is one path component: it holds no slash. It
/// begins with at least two digits and ends in `.flac`.
pub proof fn law_track_filename_is_one_component(number: u32, title: Seq<char>)
    ensures
        forall|i: int|
            0 <= i < track_filename(number, title).len() ==> #[trigger] track_filename(
                number,
                title,
            )[i] != '/',
        track_filename(number, title).len() >= 8,
        '0' <= track_filename(number, title)[0] <= '9',
        '0' <= track_filename(number, title)[1] <= '9',
        track_filename(number, title).skip(track_filename(number, title).len() - 5) == ".flac"@,
{
    reveal_strlit(" ");
    reveal_strlit(".flac");
    lemma_decimal_is_digits(number as nat);
    law_sanitized_is_one_component(title);
    let digits = decimal_two(number as nat);
    let name = track_filename(number, title);
    assert(digits.len() >= 2);
    assert(name.len() == digits.len() + 1 + sanitized(title).len() + 5);
    assert forall|i: int| 0 <= i < name.len() implies #[trigger] name[i] != '/' by {
        if i < digits.len() {
            assert(name[i] == digits[i]);
        } else if i < digits.len() + 1 {
            assert(name[i] == ' ');
        } else if i < digits.len() + 1 + sanitized(title).len() {
            assert(name[i] == sanitized(title)[i - digits.len() - 1]);
        } else {
            assert(name[i] == ".flac"@[i - digits.len() - 1 - sanitized(title).len()]);
        }
    }
    assert(name[0] == digits[0]);
    assert(name[1] == digits[1]);
    assert(name.skip(name.len() - 5) =~= ".flac"@);
}

/// Whole seconds of audio in the sectors from `first_sector` to
/// `last_sector`, both included.
pub open spec fn span_seconds(first_sector: u64, last_sector: u64) -> int {
    (last_sector - first_sector + 1) / 75
}

/// A TOC entry survives when it is audio and its sector range is not
/// reversed.
pub open spec fn is_rippable(t: DiscTrack) -> bool {
    t.is_audio && t.last_sector >= t.first_sector
}

/// The track that a surviving TOC entry becomes before any release is known.
pub open spec fn placeholder_track(t: DiscTrack) -> CdTrackView {
    CdTrackView {
        number: t.number,
        title: placeholder_title(t.number),
        artist: unknown_artist(),
        duration: span_seconds(t.first_sector, t.last_sector) as u64,
        filename: track_filename(t.number, placeholder_title(t.number)),
    }
}

/// The tracks of a disc as read from its table of contents: the surviving
/// entries, in TOC order.
pub open spec fn surviving_tracks(toc: Seq<DiscTrack>) -> Seq<CdTrackView> {
    toc.filter(|t: DiscTrack| is_rippable(t)).map_values(|t: DiscTrack| placeholder_track(t))
}

/// No two entries of a table of contents have the same number.
pub open spec fn toc_numbers_distinct(toc: Seq<DiscTrack>) -> bool {
    forall|i: int, j: int|
        0 <= i < j < toc.len() ==> (#[trigger] toc[i]).number != (#[trigger] toc[j]).number
}

/// Whether a table of contents has an entry with the number.
pub open spec fn toc_has_number(toc: Seq<DiscTrack>, number: u32) -> bool {
    exists|j: int| 0 <= j < toc.len() && (#[trigger] toc[j]).number == number
}

/// The tracks read from a table of contents carry numbers of its entries,
/// and their file names are derived from number and title. Where no two
/// entries have the same number, no two tracks have.
pub proof fn law_surviving_tracks_are_named(toc: Seq<DiscTrack>)
    ensures
        names_derived(surviving_tracks(toc)),
        forall|k: int|
            0 <= k < surviving_tracks(toc).len() ==> toc_has_number(
                toc,
                (#[trigger] surviving_tracks(toc)[k]).number,
            ),
        toc_numbers_distinct(toc) ==> numbers_distinct(surviving_tracks(toc)),
    decreases toc.len(),
{
    let pred = |t: DiscTrack| is_rippable(t);
    let place = |t: DiscTrack| placeholder_track(t);
    if toc.len() == 0 {
        reveal(Seq::filter);
        assert(toc.filter(pred) =~= Seq::<DiscTrack>::empty());
    } else {
        let front = toc.drop_last();
        let last = toc.last();
        law_surviving_tracks_are_named(front);
        assert(toc =~= front.push(last));
        front.lemma_filter_push(last, pred);
        let before = surviving_tracks(front);
        let all = surviving_tracks(toc);
        if is_rippable(last) {
            assert(all =~= before.push(placeholder_track(last)));
        } else {
            assert(all =~= before);
        }
        assert forall|k: int| 0 <= k < all.len() implies toc_has_number(
            toc,
            (#[trigger] all[k]).number,
        ) by {
            if k < before.len() {
                assert(toc_has_number(front, before[k].number));
                let j = choose|j: int|
                    0 <= j < front.len() && (#[trigger] front[j]).number == before[k].number;
                assert(toc[j].number == all[k].number);
            } else {
                assert(toc[toc.len() - 1].number == all[k].number);
            }
        }
        if toc_numbers_distinct(toc) {
            assert(toc_numbers_distinct(front)) by {
                assert forall|i: int, j: int| 0 <= i < j < front.len() implies (#[trigger] front[i]).number
                    != (#[trigger] front[j]).number by {
                    assert(front[i] == toc[i] && front[j] == toc[j]);
                }
            }
            assert forall|i: int, j: int| 0 <= i < j < all.len() implies (#[trigger] all[i]).number
                != (#[trigger] all[j]).number by {
                if j == before.len() {
                    assert(toc_has_number(front, before[i].number));
                    let at = choose|at: int|
                        0 <= at < front.len() && (#[trigger] front[at]).number == before[i].number;
                    assert(toc[at].number != toc[toc.len() - 1].number);
                } else {
                    assert(before[i].number != before[j].number);
                }
            }
        }
    }
}

/// The entries of a table of contents that survive, in its order.
pub open spec fn surviving_entries(toc: Seq<DiscTrack>) -> Seq<DiscTrack> {
    toc.filter(|t: DiscTrack| is_rippable(t))
}

/// Whether one entry stands before another in a table of contents.
pub open spec fn stands_before(toc: Seq<DiscTrack>, first: DiscTrack, second: DiscTrack) -> bool {
    exists|i: int, j: int|
        0 <= i < j < toc.len() && #[trigger] toc[i] == first && #[trigger] toc[j] == second
}

/// The tracks read from a table of contents are its surviving entries: as
/// many, never more than there are entries, each under its entry's number,
/// and in the order of the table. No track stands for an entry that is not
/// audio or whose sector range is reversed, and every other entry has its
/// track.
pub proof fn law_tracks_are_the_surviving_entries(toc: Seq<DiscTrack>)
    ensures
        surviving_tracks(toc).len() == surviving_entries(toc).len() <= toc.len(),
        forall|k: int|
            0 <= k < surviving_tracks(toc).len() ==> {
                let entry = surviving_entries(toc)[k];
                &&& #[trigger] surviving_tracks(toc)[k] == placeholder_track(entry)
                &&& surviving_tracks(toc)[k].number == entry.number
                &&& is_rippable(entry)
                &&& toc.contains(entry)
            },
        forall|i: int|
            0 <= i < toc.len() && is_rippable(toc[i]) ==> surviving_entries(toc).contains(
                #[trigger] toc[i],
            ),
        forall|k: int, l: int|
            0 <= k < l < surviving_entries(toc).len() ==> stands_before(
                toc,
                #[trigger] surviving_entries(toc)[k],
                #[trigger] surviving_entries(toc)[l],
            ),
    decreases toc.len(),
{
    let pred = |t: DiscTrack| is_rippable(t);
    let kept = toc.filter(pred);
    toc.lemma_filter_len(pred);
    assert forall|k: int| 0 <= k < kept.len() implies is_rippable(#[trigger] kept[k])
        && toc.contains(kept[k]) by {
        toc.lemma_filter_pred(pred, k);
        assert(kept.contains(kept[k]));
        toc.lemma_filter_contains_rev(pred, kept[k]);
    }
    assert forall|i: int| 0 <= i < toc.len() && is_rippable(toc[i]) implies kept.contains(
        #[trigger] toc[i],
    ) by {
        toc.lemma_filter_contains(pred, i);
    }
    if toc.len() > 0 {
        let front = toc.drop_last();
        let last = toc.last();
        let before = front.filter(pred);
        law_tracks_are_the_surviving_entries(front);
        assert(toc =~= front.push(last));
        front.lemma_filter_push(last, pred);
        assert forall|k: int, l: int| 0 <= k < l < kept.len() implies stands_before(
            toc,
            #[trigger] kept[k],
            #[trigger] kept[l],
        ) by {
            if l < before.len() {
                assert(stands_before(front, before[k], before[l]));
                let (i, j) = choose|i: int, j: int|
                    0 <= i < j < front.len() && #[trigger] front[i] == before[k]
                        && #[trigger] front[j] == before[l];
                assert(toc[i] == kept[k] && toc[j] == kept[l]);
            } else {
                assert(before.contains(before[k]));
                front.lemma_filter_contains_rev(pred, before[k]);
                let i = choose|i: int| 0 <= i < front.len() && front[i] == before[k];
                assert(toc[i] == kept[k] && toc[toc.len() - 1] == kept[l]);
            }
        }
    }
}

/// Why a table of contents gives no disc record.
#[derive(Clone, Copy, Debug, PartialEq, Eq, Structural)]
pub enum CdError {
    /// No entry of the TOC survived.
    NoAudioTracks,
}

impl CdError {
    /// The text of the error.
    pub open spec fn text(self) -> Seq<char> {
        match self {
            CdError::NoAudioTracks =>
                "No valid audio tracks found on the disc. This may indicate the CD is damaged or not readable."@,
        }
    }

    /// The text shown to the user.
    pub fn message(&self) -> (s: String)
        ensures
            s@ == self.text(),
    {
        match self {
            CdError::NoAudioTracks => String::from_str(
                "No valid audio tracks found on the disc. This may indicate the CD is damaged or not readable.",
            ),
        }
    }
}

/// Title for a track without a name.
pub fn default_title(number: u32) -> (s: String)
    ensures
        s@ == placeholder_title(number),
{
    let mut s = String::from_str("Track ");
    push_decimal_two(&mut s, number as u64);
    s
}

/// File name for a track.
pub fn output_filename(number: u32, title: &str) -> (s: String)
    ensures
        s@ == track_filename(number, title@),
{
    let mut s = String::new();
    push_decimal_two(&mut s, number as u64);
    s.append(" ");
    let clean = sanitize_filename(title);
    s.append(clean.as_str());
    s.append(".flac");
    assert(s@ =~= track_filename(number, title@));
    s
}

/// Playing time of an inclusive sector range, in whole seconds.
pub fn sector_span_seconds(first_sector: u64, last_sector: u64) -> (seconds: u64)
    requires
        first_sector <= last_sector,
    ensures
        seconds == span_seconds(first_sector, last_sector),
{
    let span = last_sector - first_sector;
    if span % SECTORS_PER_SECOND == SECTORS_PER_SECOND - 1 {
        span / SECTORS_PER_SECOND + 1
    } else {
        span / SECTORS_PER_SECOND
    }
}

fn track_from_toc_entry(t: &DiscTrack) -> (track: CdTrack)
    requires
        is_rippable(*t),
    ensures
        track@ == placeholder_track(*t),
{
    let title = default_title(t.number);
    let filename = output_filename(t.number, title.as_str());
    CdTrack {
        number: t.number,
        title,
        artist: String::from_str("Unknown Artist"),
        duration: sector_span_seconds(t.first_sector, t.last_sector),
        filename,
    }
}

/// Adding a track adds its view.
pub proof fn lemma_tracks_view_push(tracks: Seq<CdTrack>, t: CdTrack)
    ensures
        tracks_view(tracks.push(t)) == tracks_view(tracks).push(t@),
{
    assert(tracks_view(tracks.push(t)) =~= tracks_view(tracks).push(t@));
}

/// Adding a track adds its playing time.
pub proof fn lemma_total_seconds_push(tracks: Seq<CdTrackView>, t: CdTrackView)
    ensures
        total_seconds(tracks.push(t)) == total_seconds(tracks) + t.duration,
{
    assert(tracks.push(t).drop_last() =~= tracks);
}

/// The playing times of as many tracks as can be counted add up to less
/// than 128 bits hold.
pub proof fn lemma_total_seconds_bounded(tracks: Seq<CdTrackView>)
    ensures
        0 <= total_seconds(tracks) <= tracks.len() * u64::MAX,
        tracks.len() <= usize::MAX ==> total_seconds(tracks) <= u128::MAX,
    decreases tracks.len(),
{
    let most = u64::MAX as int;
    if tracks.len() > 0 {
        let front = tracks.drop_last();
        lemma_total_seconds_bounded(front);
        assert(tracks.len() * most == front.len() * most + most) by (nonlinear_arith)
            requires
                tracks.len() == front.len() + 1,
        ;
    }
    if tracks.len() <= usize::MAX {
        assert(tracks.len() * most <= most * most) by (nonlinear_arith)
            requires
                0 <= tracks.len() <= most,
        ;
        assert(most * most <= u128::MAX) by (nonlinear_arith)
            requires
                most == 0xffff_ffff_ffff_ffff,
        ;
    }
}

/// The playing time of all tracks together.
pub fn total_duration_of(tracks: &Vec<CdTrack>) -> (total: u128)
    ensures
        total == total_seconds(tracks_view(tracks@)),
{
    let mut total: u128 = 0;
    let mut i: usize = 0;
    let ghost all = tracks_view(tracks@);
    proof {
        assert(all.take(0) =~= Seq::<CdTrackView>::empty());
    }
    while i < tracks.len()
        invariant
            i <= tracks.len(),
            all == tracks_view(tracks@),
            total == total_seconds(all.take(i as int)),
        decreases tracks.len() - i,
    {
        proof {
            assert(all.take(i + 1) =~= all.take(i as int).push(tracks@[i as int]@));
            lemma_total_seconds_push(all.take(i as int), tracks@[i as int]@);
            lemma_total_seconds_bounded(all.take(i + 1));
        }
        total = total + tracks[i].duration as u128;
        i += 1;
    }
    assert(all.take(all.len() as int) == all);
    total
}

/// Builds the disc record from what the drive reports: the disc identifier
/// and the table of contents. Entries that are not audio, or whose sector
/// range is reversed, are left out; the rest keep their numbers and get
/// placeholder names. There is a record whenever an entry is left.
pub fn read_cd_from_device(disc_id: &str, toc: &Vec<DiscTrack>) -> (r: Result<CdInfo, CdError>)
    ensures
        surviving_tracks(toc@).len() == 0 ==> r == Err::<CdInfo, CdError>(CdError::NoAudioTracks),
        surviving_tracks(toc@).len() > 0 ==> r is Ok && r->Ok_0@ == (CdInfoView {
            disc_id: disc_id@,
            title: unknown_album(),
            artist: unknown_artist(),
            tracks: surviving_tracks(toc@),
            total_duration: total_seconds(surviving_tracks(toc@)),
            release_id: None,
        }),
        r is Ok ==> r->Ok_0.is_consistent(),
        r is Ok ==> r->Ok_0@.has_derived_names(),
        r is Ok && toc_numbers_distinct(toc@) ==> r->Ok_0@.has_distinct_numbers(),
{
    proof {
        law_surviving_tracks_are_named(toc@);
    }
    let mut tracks: Vec<CdTrack> = Vec::new();
    let mut i: usize = 0;
    proof {
        reveal(Seq::filter);
        assert(toc@.take(0).filter(|t: DiscTrack| is_rippable(t)) =~= Seq::<DiscTrack>::empty());
        assert(surviving_tracks(toc@.take(0)) =~= Seq::<CdTrackView>::empty());
    }
    while i < toc.len()
        invariant
            i <= toc.len(),
            tracks_view(tracks@) == surviving_tracks(toc@.take(i as int)),
        decreases toc.len() - i,
    {
        let entry = toc[i];
        proof {
            let pred = |t: DiscTrack| is_rippable(t);
            assert(toc@.take(i + 1) =~= toc@.take(i as int).push(entry));
            toc@.take(i as int).lemma_filter_push(entry, pred);
        }
        if entry.is_audio && entry.last_sector >= entry.first_sector {
            let track = track_from_toc_entry(&entry);
            proof {
                lemma_tracks_view_push(tracks@, track);
                let kept = toc@.take(i as int).filter(|t: DiscTrack| is_rippable(t));
                assert(kept.push(entry).map_values(|t: DiscTrack| placeholder_track(t))
                    =~= kept.map_values(|t: DiscTrack| placeholder_track(t)).push(
                    placeholder_track(entry),
                ));
            }
            tracks.push(track);
        }
        i += 1;
    }
    assert(toc@.take(toc@.len() as int) == toc@);
    if tracks.len() == 0 {
        Err(CdError::NoAudioTracks)
    } else {
        let total_duration = total_duration_of(&tracks);
        Ok(
            CdInfo {
                disc_id: String::from_str(disc_id),
                title: String::from_str("Unknown Album"),
                artist: String::from_str("Unknown Artist"),
                tracks,
                total_duration,
                release_id: None,
            },
        )
    }
}

} // verus!
