//! Reading one track off the disc, sector by sector. The drive is worked by
//! the caller; what is decided here is where to seek, when to read on, when
//! to report, and what the track's audio is in the end.

use vstd::prelude::*;
use vstd::string::*;
use crate::pcm::{pcm_bytes, samples_to_bytes};
use crate::progress::{
    lemma_messages_view_push, messages_view, ImportProgressMessage, ImportProgressView,
};
use crate::text::{decimal, push_decimal};

verus! {

/// After how many sectors progress is reported.
pub const PROGRESS_CADENCE: u64 = 100;

/// The reading of one track: which sectors, how many were read so far, and
/// the samples they held.
#[derive(Debug)]
pub struct TrackRead {
    track: u32,
    first_sector: u64,
    last_sector: u64,
    sectors_read: u64,
    samples: Vec<i16>,
}

/// What a `TrackRead` holds, as mathematical values.
pub struct TrackReadView {
    pub track: u32,
    pub first_sector: u64,
    pub last_sector: u64,
    pub sectors_read: u64,
    pub samples: Seq<i16>,
}

impl View for TrackRead {
    type V = TrackReadView;

    closed spec fn view(&self) -> TrackReadView {
        TrackReadView {
            track: self.track,
            first_sector: self.first_sector,
            last_sector: self.last_sector,
            sectors_read: self.sectors_read,
            samples: self.samples@,
        }
    }
}

impl TrackReadView {
    /// Sectors of the track, the last one included.
    pub open spec fn total_sectors(self) -> int {
        self.last_sector - self.first_sector + 1
    }

    /// The range is not reversed, its length fits in 64 bits, and no more
    /// sectors were read than it has.
    pub open spec fn well_formed(self) -> bool {
        &&& self.first_sector <= self.last_sector
        &&& self.total_sectors() <= u64::MAX
        &&& self.sectors_read <= self.total_sectors()
    }

    /// Share of the track that was read, in whole per cent.
    pub open spec fn percent(self) -> int {
        self.sectors_read * 100 / self.total_sectors()
    }

    /// The reading after one more sector.
    pub open spec fn with_sector(self, sector: Seq<i16>) -> TrackReadView {
        TrackReadView {
            track: self.track,
            first_sector: self.first_sector,
            last_sector: self.last_sector,
            sectors_read: (self.sectors_read + 1) as u64,
            samples: self.samples + sector,
        }
    }
}

/// What the reading is told: that it begins, or what the drive did.
#[derive(Clone, Debug)]
pub enum ReadEvent {
    Begin,
    /// The seek came back: with success or without.
    Positioned { ok: bool },
    /// The read came back: with the samples of one sector, or with nothing.
    Sector { samples: Option<Vec<i16>> },
}

/// What the reading asks for next.
#[derive(Clone, Debug)]
pub enum ReadAction {
    /// Move the read head to this sector and report back with
    /// `ReadEvent::Positioned`.
    Seek { sector: u64 },
    /// Read the next sector and report back with `ReadEvent::Sector`.
    ReadSector,
    /// The track was read; these are its bytes.
    Finished { audio: Vec<u8> },
    /// The track could not be read.
    Failed { reason: String },
}

/// What a `ReadAction` holds, as mathematical values.
pub enum ReadActionView {
    Seek { sector: u64 },
    ReadSector,
    Finished { audio: Seq<u8> },
    Failed { reason: Seq<char> },
}

impl View for ReadAction {
    type V = ReadActionView;

    open spec fn view(&self) -> ReadActionView {
        match self {
            ReadAction::Seek { sector } => ReadActionView::Seek { sector: *sector },
            ReadAction::ReadSector => ReadActionView::ReadSector,
            ReadAction::Finished { audio } => ReadActionView::Finished { audio: audio@ },
            ReadAction::Failed { reason } => ReadActionView::Failed { reason: reason@ },
        }
    }
}

/// One step of the reading: the reading after it, what to report, and what
/// to do next.
#[derive(Debug)]
pub struct ReadStep {
    pub state: TrackRead,
    pub messages: Vec<ImportProgressMessage>,
    pub action: ReadAction,
}

/// What a `ReadStep` holds, as mathematical values.
pub struct ReadStepView {
    pub state: TrackReadView,
    pub messages: Seq<ImportProgressView>,
    pub action: ReadActionView,
}

impl View for ReadStep {
    type V = ReadStepView;

    open spec fn view(&self) -> ReadStepView {
        ReadStepView {
            state: self.state@,
            messages: messages_view(self.messages@),
            action: self.action@,
        }
    }
}

/// Why a track of which no sector could be read fails.
pub open spec fn no_data_reason(track: u32) -> Seq<char> {
    "Failed to read any audio data from track "@ + decimal(track as nat)
}

/// Why a track that the read head could not be moved to fails.
pub open spec fn seek_failed_reason(track: u32) -> Seq<char> {
    "Failed to seek to track "@ + decimal(track as nat)
}

/// The line that closes a reading.
pub open spec fn read_summary(state: TrackReadView) -> Seq<char> {
    "Successfully read "@ + decimal(state.sectors_read as nat) + " sectors for track "@ + decimal(
        state.track as nat,
    )
}

/// What is reported after a sector: progress at every hundredth, else
/// nothing.
pub open spec fn sector_report(state: TrackReadView) -> Seq<ImportProgressView> {
    if state.sectors_read % 100 == 0 {
        seq![
            ImportProgressView::SectorProgress {
                track: state.track,
                percent: state.percent() as u64,
                sectors_read: state.sectors_read,
            },
        ]
    } else {
        Seq::empty()
    }
}

/// The end of a reading: failure where no sector was read, else the bytes of
/// the samples with a closing line.
pub open spec fn end_of_reading(
    state: TrackReadView,
    report: Seq<ImportProgressView>,
) -> ReadStepView {
    if state.sectors_read == 0 {
        ReadStepView {
            state,
            messages: report,
            action: ReadActionView::Failed { reason: no_data_reason(state.track) },
        }
    } else {
        ReadStepView {
            state,
            messages: report.push(ImportProgressView::Info { text: read_summary(state) }),
            action: ReadActionView::Finished { audio: pcm_bytes(state.samples) },
        }
    }
}

/// The step that a reading takes on an event.
///
/// It seeks to the first sector and then reads on. Every sector adds its
/// samples; every hundredth is reported. It ends after the last sector, or
/// at the first read that comes back with nothing.
pub open spec fn read_step(state: TrackReadView, event: ReadEvent) -> ReadStepView {
    match event {
        ReadEvent::Begin => ReadStepView {
            state,
            messages: Seq::empty(),
            action: ReadActionView::Seek { sector: state.first_sector },
        },
        ReadEvent::Positioned { ok } => if ok {
            if state.sectors_read < state.total_sectors() {
                ReadStepView { state, messages: Seq::empty(), action: ReadActionView::ReadSector }
            } else {
                end_of_reading(state, Seq::empty())
            }
        } else {
            ReadStepView {
                state,
                messages: Seq::empty(),
                action: ReadActionView::Failed { reason: seek_failed_reason(state.track) },
            }
        },
        ReadEvent::Sector { samples: Some(sector) } => if state.sectors_read
            < state.total_sectors() {
            let next = state.with_sector(sector@);
            if next.sectors_read < next.total_sectors() {
                ReadStepView {
                    state: next,
                    messages: sector_report(next),
                    action: ReadActionView::ReadSector,
                }
            } else {
                end_of_reading(next, sector_report(next))
            }
        } else {
            end_of_reading(state, Seq::empty())
        },
        ReadEvent::Sector { samples: None } => end_of_reading(state, Seq::empty()),
    }
}

impl TrackRead {
    /// A reading of the sectors `first_sector..=last_sector` that has not
    /// begun; `None` where the range is reversed or too long to count.
    pub fn new(track: u32, first_sector: u64, last_sector: u64) -> (r: Option<TrackRead>)
        ensures
            match r {
                Some(state) => first_sector <= last_sector && last_sector - first_sector < u64::MAX
                    && state@ == (TrackReadView {
                    track,
                    first_sector,
                    last_sector,
                    sectors_read: 0,
                    samples: Seq::empty(),
                }) && state@.well_formed(),
                None => first_sector > last_sector || last_sector - first_sector == u64::MAX,
            },
    {
        if first_sector <= last_sector && last_sector - first_sector < u64::MAX {
            Some(TrackRead { track, first_sector, last_sector, sectors_read: 0, samples: Vec::new() })
        } else {
            None
        }
    }

    /// The number of the track.
    pub fn track(&self) -> (r: u32)
        ensures
            r == self@.track,
    {
        self.track
    }

    /// Sectors read so far.
    pub fn sectors_read(&self) -> (r: u64)
        ensures
            r == self@.sectors_read,
    {
        self.sectors_read
    }

    /// Sectors of the track, the last one included.
    pub fn total_sectors(&self) -> (r: u64)
        requires
            self@.well_formed(),
        ensures
            r == self@.total_sectors(),
    {
        self.last_sector - self.first_sector + 1
    }

    fn report(&self) -> (r: Vec<ImportProgressMessage>)
        requires
            self@.well_formed(),
        ensures
            messages_view(r@) == sector_report(self@),
    {
        let mut messages: Vec<ImportProgressMessage> = Vec::new();
        if self.sectors_read % PROGRESS_CADENCE == 0 {
            let total = self.total_sectors();
            let percent = (self.sectors_read as u128 * 100 / total as u128) as u64;
            messages.push(
                ImportProgressMessage::SectorProgress {
                    track: self.track,
                    percent,
                    sectors_read: self.sectors_read,
                },
            );
        }
        assert(messages_view(messages@) =~= sector_report(self@));
        messages
    }

    fn end(self, report: Vec<ImportProgressMessage>) -> (step: ReadStep)
        ensures
            step@ == end_of_reading(self@, messages_view(report@)),
    {
        let mut messages = report;
        if self.sectors_read == 0 {
            let mut reason = String::from_str("Failed to read any audio data from track ");
            push_decimal(&mut reason, self.track as u64);
            ReadStep { state: self, messages, action: ReadAction::Failed { reason } }
        } else {
            let mut text = String::from_str("Successfully read ");
            push_decimal(&mut text, self.sectors_read);
            text.append(" sectors for track ");
            push_decimal(&mut text, self.track as u64);
            let line = ImportProgressMessage::Info { text };
            proof {
                lemma_messages_view_push(messages@, line);
            }
            messages.push(line);
            let audio = samples_to_bytes(&self.samples);
            ReadStep { state: self, messages, action: ReadAction::Finished { audio } }
        }
    }
}

fn nothing_to_report() -> (r: Vec<ImportProgressMessage>)
    ensures
        messages_view(r@) == Seq::<ImportProgressView>::empty(),
{
    let messages: Vec<ImportProgressMessage> = Vec::new();
    assert(messages_view(messages@) =~= Seq::<ImportProgressView>::empty());
    messages
}

/// Reads a track, one step at a time: call it with `ReadEvent::Begin`, carry
/// out the action it returns, and call it again with the reading it returned
/// and what the drive did, until the action is `Finished` or `Failed`.
pub fn read_cd_data(state: TrackRead, event: ReadEvent) -> (step: ReadStep)
    requires
        state@.well_formed(),
    ensures
        step@ == read_step(state@, event),
        step.state@.well_formed(),
{
    match event {
        ReadEvent::Begin => {
            let sector = state.first_sector;
            ReadStep { state, messages: nothing_to_report(), action: ReadAction::Seek { sector } }
        },
        ReadEvent::Positioned { ok } => {
            if ok {
                if state.sectors_read < state.total_sectors() {
                    ReadStep {
                        state,
                        messages: nothing_to_report(),
                        action: ReadAction::ReadSector,
                    }
                } else {
                    state.end(nothing_to_report())
                }
            } else {
                let mut reason = String::from_str("Failed to seek to track ");
                push_decimal(&mut reason, state.track as u64);
                ReadStep {
                    state,
                    messages: nothing_to_report(),
                    action: ReadAction::Failed { reason },
                }
            }
        },
        ReadEvent::Sector { samples: Some(sector) } => {
            if state.sectors_read < state.total_sectors() {
                let mut next = state;
                let ghost before = next.samples@;
                next.samples.extend_from_slice(sector.as_slice());
                assert(next.samples@ =~= before + sector@);
                next.sectors_read = next.sectors_read + 1;
                let report = next.report();
                if next.sectors_read < next.total_sectors() {
                    ReadStep { state: next, messages: report, action: ReadAction::ReadSector }
                } else {
                    next.end(report)
                }
            } else {
                state.end(nothing_to_report())
            }
        },
        ReadEvent::Sector { samples: None } => state.end(nothing_to_report()),
    }
}

/// A reading reports progress exactly at every hundredth sector, and the
/// share it reports is never above a hundred per cent.
pub proof fn law_progress_cadence(state: TrackReadView, sector: Seq<i16>)
    requires
        state.well_formed(),
        state.sectors_read < state.total_sectors(),
    ensures
        sector_report(state.with_sector(sector)).len() == (if (state.sectors_read + 1) % 100 == 0 {
            1nat
        } else {
            0nat
        }),
        0 <= state.with_sector(sector).percent() <= 100,
{
    let next = state.with_sector(sector);
    assert(next.sectors_read * 100 <= next.total_sectors() * 100);
    assert(next.percent() <= 100) by (nonlinear_arith)
        requires
            next.percent() == next.sectors_read * 100 / next.total_sectors(),
            0 <= next.sectors_read * 100 <= next.total_sectors() * 100,
            next.total_sectors() > 0,
    ;
    assert(next.percent() >= 0) by (nonlinear_arith)
        requires
            next.percent() == next.sectors_read * 100 / next.total_sectors(),
            0 <= next.sectors_read * 100,
            next.total_sectors() > 0,
    ;
}

} // verus!
