//! Lossless encoding of a track: from the bytes read off the disc to the
//! files that are to be written.

use flacenc::component::BitRepr;
use flacenc::error::Verify;
use vstd::prelude::*;
use vstd::string::*;
use crate::paths::{join_path, joined_path, sibling, sibling_name};
use crate::pcm::bytes_to_samples;

verus! {

/// Channels of disc audio.
pub const CHANNELS: usize = 2;

/// Bits per sample of disc audio.
pub const BITS_PER_SAMPLE: usize = 16;

/// Samples per second and channel of disc audio.
pub const SAMPLE_RATE: usize = 44100;

/// Where the encoder gave up, with the encoder's own words.
#[derive(Clone, Debug)]
pub enum FlacFailure {
    /// The encoder's default configuration did not pass its own check.
    Config(String),
    /// The samples could not be encoded.
    Encode(String),
    /// The encoded stream could not be written out as bytes.
    Write(String),
}

/// What encoding comes to, as mathematical values.
pub enum FlacOutcome {
    Stream(Seq<u8>),
    ConfigRejected(Seq<char>),
    EncodeFailed(Seq<char>),
    WriteFailed(Seq<char>),
}

/// The view of an encoder result.
pub open spec fn outcome_view(r: Result<Vec<u8>, FlacFailure>) -> FlacOutcome {
    match r {
        Ok(bytes) => FlacOutcome::Stream(bytes@),
        Err(FlacFailure::Config(why)) => FlacOutcome::ConfigRejected(why@),
        Err(FlacFailure::Encode(why)) => FlacOutcome::EncodeFailed(why@),
        Err(FlacFailure::Write(why)) => FlacOutcome::WriteFailed(why@),
    }
}

/// The four bytes that every lossless stream opens with: `fLaC`.
pub open spec fn stream_marker() -> Seq<u8> {
    seq![0x66u8, 0x4cu8, 0x61u8, 0x43u8]
}

/// Whether bytes open as a lossless stream does.
pub open spec fn opens_stream(bytes: Seq<u8>) -> bool {
    stream_marker().is_prefix_of(bytes)
}

/// Encodes with `flacenc`: `config::Encoder::default()` with `multithread`
/// switched off, `into_verified()`, `source::MemSource::from_samples`,
/// `encode_with_fixed_block_size` with the configuration's block size, and
/// `Stream::write` into a `ByteSink`. The samples must be whole frames of
/// sixteen-bit values.
///
/// The encoder chooses its predictors with floating-point arithmetic, so
/// which bytes come out for given samples is not claimed here, nor that any
/// do. Claimed is only that a stream which was written opens with the four
/// marker bytes, which `Stream::write` puts out before anything else.
#[verifier::external_body]
fn flac_encode(samples: &Vec<i32>, channels: usize, bits_per_sample: usize, sample_rate: usize) -> (r:
    Result<Vec<u8>, FlacFailure>)
    requires
        channels == 2,
        bits_per_sample == 16,
        samples@.len() % 2 == 0,
        forall|i: int| 0 <= i < samples@.len() ==> -32768 <= #[trigger] samples@[i] <= 32767,
    ensures
        r is Ok ==> opens_stream(r->Ok_0@),
{
    let mut plain = flacenc::config::Encoder::default();
    plain.multithread = false;
    let config = match plain.into_verified() {
        Ok(config) => config,
        Err(e) => return Err(FlacFailure::Config(format!("{:?}", e))),
    };
    let source = flacenc::source::MemSource::from_samples(samples, channels, bits_per_sample, sample_rate);
    let mut sink = flacenc::bitsink::ByteSink::new();
    match flacenc::encode_with_fixed_block_size(&config, source, config.block_size) {
        Ok(stream) => match stream.write(&mut sink) {
            Ok(()) => Ok(sink.as_slice().to_vec()),
            Err(e) => Err(FlacFailure::Write(format!("{:?}", e))),
        },
        Err(e) => Err(FlacFailure::Encode(format!("{:?}", e))),
    }
}

/// What an encoder outcome means for the track: the stream, or the reason
/// the track fails for.
pub open spec fn encoded(outcome: FlacOutcome) -> Result<Seq<u8>, Seq<char>> {
    match outcome {
        FlacOutcome::Stream(bytes) => Ok(bytes),
        FlacOutcome::ConfigRejected(why) => Err("Config verification failed: "@ + why),
        FlacOutcome::EncodeFailed(why) => Err("FLAC encoding failed: "@ + why),
        FlacOutcome::WriteFailed(why) => Err("Failed to write FLAC stream to sink: "@ + why),
    }
}

/// The view of a stream or a reason.
pub open spec fn encoded_view(r: Result<Vec<u8>, String>) -> Result<Seq<u8>, Seq<char>> {
    match r {
        Ok(bytes) => Ok(bytes@),
        Err(why) => Err(why@),
    }
}

/// Turns what the encoder returned into the stream or the reason the track
/// fails for.
pub fn encode_result(outcome: Result<Vec<u8>, FlacFailure>) -> (r: Result<Vec<u8>, String>)
    ensures
        encoded_view(r) == encoded(outcome_view(outcome)),
{
    match outcome {
        Ok(bytes) => Ok(bytes),
        Err(FlacFailure::Config(why)) => {
            let mut reason = String::from_str("Config verification failed: ");
            reason.append(why.as_str());
            Err(reason)
        },
        Err(FlacFailure::Encode(why)) => {
            let mut reason = String::from_str("FLAC encoding failed: ");
            reason.append(why.as_str());
            Err(reason)
        },
        Err(FlacFailure::Write(why)) => {
            let mut reason = String::from_str("Failed to write FLAC stream to sink: ");
            reason.append(why.as_str());
            Err(reason)
        },
    }
}

/// Whether an outcome is one that the encoder can come to: a stream that
/// opens as one, or any of its failures.
pub open spec fn is_outcome(outcome: FlacOutcome) -> bool {
    outcome is Stream ==> opens_stream(outcome->Stream_0)
}

/// Whether a stream or reason is one that encoding can come to: the meaning
/// of some outcome of the encoder.
pub open spec fn is_encoding(made: Result<Seq<u8>, Seq<char>>) -> bool {
    exists|outcome: FlacOutcome| is_outcome(outcome) && made == #[trigger] encoded(outcome)
}

/// Encodes the bytes read off the disc: their whole stereo frames, as
/// sixteen-bit samples at 44.1 kHz, through the encoder. Which stream comes
/// out lies with the encoder; whatever it returns, the result is the meaning
/// of that outcome.
pub fn encode_pcm(audio_data: &[u8]) -> (r: Result<Vec<u8>, String>)
    ensures
        is_encoding(encoded_view(r)),
        r matches Ok(stream) ==> opens_stream(stream@),
{
    let samples = bytes_to_samples(audio_data);
    let outcome = flac_encode(&samples, CHANNELS, BITS_PER_SAMPLE, SAMPLE_RATE);
    let ghost seen = outcome_view(outcome);
    let r = encode_result(outcome);
    assert(is_outcome(seen) && encoded_view(r) == encoded(seen));
    r
}

/// A file that is to be written.
#[derive(Clone, Debug)]
pub struct FileWrite {
    pub path: String,
    pub bytes: Vec<u8>,
    /// Whether the track fails if the file cannot be written.
    pub required: bool,
}

/// What a `FileWrite` holds, as mathematical values.
pub struct FileWriteView {
    pub path: Seq<char>,
    pub bytes: Seq<u8>,
    pub required: bool,
}

impl View for FileWrite {
    type V = FileWriteView;

    open spec fn view(&self) -> FileWriteView {
        FileWriteView { path: self.path@, bytes: self.bytes@, required: self.required }
    }
}

/// The views of a sequence of files, in order.
pub open spec fn files_view(files: Seq<FileWrite>) -> Seq<FileWriteView> {
    files.map_values(|f: FileWrite| f@)
}

/// Name of the image that goes beside an encoded file: the file's name with
/// the extension of its last component replaced by `jpg`, so that the image
/// lies in the directory the file lies in.
pub open spec fn art_name(filename: Seq<char>) -> Seq<char> {
    sibling_name(filename, "jpg"@)
}

/// The files of a track: the encoded audio under the track's file name,
/// and, where there is cover art, the image beside it. The image is not part
/// of the audio file, and the track does not depend on it.
pub open spec fn track_files(
    album_dir: Seq<char>,
    filename: Seq<char>,
    stream: Seq<u8>,
    cover_art: Option<Seq<u8>>,
) -> Seq<FileWriteView> {
    let audio = FileWriteView {
        path: joined_path(album_dir, filename),
        bytes: stream,
        required: true,
    };
    match cover_art {
        Some(image) => seq![
            audio,
            FileWriteView {
                path: joined_path(album_dir, art_name(filename)),
                bytes: image,
                required: false,
            },
        ],
        None => seq![audio],
    }
}

/// What writing a track comes to: its files, or the reason it fails for.
pub open spec fn written_track(
    album_dir: Seq<char>,
    filename: Seq<char>,
    encoded: Result<Seq<u8>, Seq<char>>,
    cover_art: Option<Seq<u8>>,
) -> Result<Seq<FileWriteView>, Seq<char>> {
    match encoded {
        Ok(stream) => Ok(track_files(album_dir, filename, stream, cover_art)),
        Err(why) => Err(why),
    }
}

/// The view of a list of files or a reason.
pub open spec fn written_view(r: Result<Vec<FileWrite>, String>) -> Result<
    Seq<FileWriteView>,
    Seq<char>,
> {
    match r {
        Ok(files) => Ok(files_view(files@)),
        Err(why) => Err(why@),
    }
}

fn copy_bytes(bytes: &Vec<u8>) -> (r: Vec<u8>)
    ensures
        r@ == bytes@,
{
    let mut out: Vec<u8> = Vec::new();
    let mut i: usize = 0;
    while i < bytes.len()
        invariant
            i <= bytes.len(),
            out@ == bytes@.take(i as int),
        decreases bytes.len() - i,
    {
        out.push(bytes[i]);
        assert(bytes@.take(i + 1) == bytes@.take(i as int).push(bytes@[i as int]));
        i += 1;
    }
    assert(bytes@.take(bytes@.len() as int) == bytes@);
    out
}

/// Lays out the files of a track whose audio went through the encoder.
pub fn plan_track_files(
    album_dir: &str,
    filename: &str,
    stream: Result<Vec<u8>, String>,
    cover_art: Option<&Vec<u8>>,
) -> (r: Result<Vec<FileWrite>, String>)
    ensures
        written_view(r) == written_track(
            album_dir@,
            filename@,
            encoded_view(stream),
            match cover_art {
                Some(image) => Some(image@),
                None => None,
            },
        ),
{
    match stream {
        Ok(bytes) => {
            let mut files: Vec<FileWrite> = Vec::new();
            files.push(FileWrite { path: join_path(album_dir, filename), bytes, required: true });
            match cover_art {
                Some(image) => {
                    let name = sibling(filename, "jpg");
                    files.push(
                        FileWrite {
                            path: join_path(album_dir, name.as_str()),
                            bytes: copy_bytes(image),
                            required: false,
                        },
                    );
                },
                None => {},
            }
            assert(files_view(files@) =~= track_files(
                album_dir@,
                filename@,
                bytes@,
                match cover_art {
                    Some(image) => Some(image@),
                    None => None,
                },
            ));
            Ok(files)
        },
        Err(why) => Err(why),
    }
}

/// Encodes a track's audio and lays out the files to write for it. Whatever
/// the encoder made of the audio, the files are those of that stream, or the
/// track fails for that reason.
pub fn write_flac_file(
    album_dir: &str,
    filename: &str,
    audio_data: &[u8],
    cover_art: Option<&Vec<u8>>,
) -> (r: Result<Vec<FileWrite>, String>)
    ensures
        exists|made: Result<Seq<u8>, Seq<char>>|
            #[trigger] is_encoding(made) && written_view(r) == written_track(
                album_dir@,
                filename@,
                made,
                match cover_art {
                    Some(image) => Some(image@),
                    None => None,
                },
            ),
        r matches Ok(files) ==> files@.len() >= 1 && opens_stream(files@[0]@.bytes) && files_view(
            files@,
        ) == track_files(
            album_dir@,
            filename@,
            files@[0]@.bytes,
            match cover_art {
                Some(image) => Some(image@),
                None => None,
            },
        ),
{
    let stream = encode_pcm(audio_data);
    let ghost made = encoded_view(stream);
    let r = plan_track_files(album_dir, filename, stream, cover_art);
    proof {
        if r is Ok {
            let cover = match cover_art {
                Some(image) => Some(image@),
                None => None,
            };
            let files = r->Ok_0@;
            assert(files_view(files) == track_files(album_dir@, filename@, made->Ok_0, cover));
            assert(files_view(files)[0] == files[0]@);
        }
    }
    assert(is_encoding(made) && written_view(r) == written_track(
        album_dir@,
        filename@,
        made,
        match cover_art {
            Some(image) => Some(image@),
            None => None,
        },
    ));
    r
}

} // verus!
