use mfutil::cd::{
    default_title, output_filename, read_cd_from_device, sector_span_seconds, total_duration_of,
    CdError, CdTrack, DiscTrack,
};

fn audio(number: u32, first_sector: u64, last_sector: u64) -> DiscTrack {
    DiscTrack { number, first_sector, last_sector, is_audio: true }
}

#[test]
fn span_counts_both_ends() {
    assert_eq!(sector_span_seconds(0, 149), 2);
    assert_eq!(sector_span_seconds(150, 299), 2);
    assert_eq!(sector_span_seconds(0, 148), 1);
    assert_eq!(sector_span_seconds(0, 74), 1);
    assert_eq!(sector_span_seconds(0, 73), 0);
    assert_eq!(sector_span_seconds(7, 7), 0);
    assert_eq!(sector_span_seconds(1000, 1000 + 75 * 180 - 1), 180);
}

#[test]
fn span_of_the_longest_range_does_not_overflow() {
    // 2^64 sectors are 245_956_587_649_460_688 seconds and 16 sectors.
    assert_eq!(sector_span_seconds(0, u64::MAX), 245_956_587_649_460_688);
    assert_eq!(sector_span_seconds(0, u64::MAX - 16), 245_956_587_649_460_688);
    assert_eq!(sector_span_seconds(0, u64::MAX - 17), 245_956_587_649_460_687);
}

#[test]
fn placeholder_names_have_two_digits() {
    assert_eq!(default_title(1), "Track 01");
    assert_eq!(default_title(9), "Track 09");
    assert_eq!(default_title(10), "Track 10");
    assert_eq!(default_title(99), "Track 99");
    assert_eq!(default_title(100), "Track 100");
    assert_eq!(default_title(0), "Track 00");
    assert_eq!(default_title(u32::MAX), "Track 4294967295");
}

#[test]
fn file_names_are_number_title_extension() {
    assert_eq!(output_filename(1, "Intro"), "01 Intro.flac");
    assert_eq!(output_filename(12, "A/B: C?"), "12 A_B_ C_.flac");
    assert_eq!(output_filename(3, "  spaced  "), "03 spaced.flac");
    assert_eq!(output_filename(3, ""), "03 .flac");
    assert_eq!(output_filename(7, "Don't"), "07 Don_t.flac");
}

#[test]
fn disc_record_from_two_tracks() {
    let info = read_cd_from_device("D1", &vec![audio(1, 0, 149), audio(2, 150, 299)]).unwrap();
    assert_eq!(info.disc_id, "D1");
    assert_eq!(info.title, "Unknown Album");
    assert_eq!(info.artist, "Unknown Artist");
    assert_eq!(info.release_id, None);
    assert_eq!(info.tracks.len(), 2);
    assert_eq!(info.tracks[0].number, 1);
    assert_eq!(info.tracks[0].title, "Track 01");
    assert_eq!(info.tracks[0].artist, "Unknown Artist");
    assert_eq!(info.tracks[0].duration, 2);
    assert_eq!(info.tracks[0].filename, "01 Track 01.flac");
    assert_eq!(info.tracks[1].number, 2);
    assert_eq!(info.tracks[1].filename, "02 Track 02.flac");
    assert_eq!(info.total_duration, 4);
}

#[test]
fn entries_that_do_not_survive_keep_no_place() {
    let toc = vec![
        DiscTrack { number: 1, first_sector: 0, last_sector: 7499, is_audio: false },
        audio(2, 7500, 14999),
        audio(3, 20000, 15000),
        audio(4, 20000, 20000),
        audio(5, 20001, 27500),
    ];
    let info = read_cd_from_device("x", &toc).unwrap();
    let numbers: Vec<u32> = info.tracks.iter().map(|t| t.number).collect();
    assert_eq!(numbers, vec![2, 4, 5]);
    let durations: Vec<u64> = info.tracks.iter().map(|t| t.duration).collect();
    assert_eq!(durations, vec![100, 0, 100]);
    assert_eq!(info.total_duration, 200);
    assert_eq!(info.tracks[2].title, "Track 05");
}

#[test]
fn total_is_the_sum_of_the_tracks() {
    for count in 1..40u32 {
        let toc: Vec<DiscTrack> = (1..=count)
            .map(|n| audio(n, 1000 * n as u64, 1000 * n as u64 + 75 * n as u64 + 10))
            .collect();
        let info = read_cd_from_device("id", &toc).unwrap();
        assert_eq!(info.tracks.len(), count as usize);
        assert_eq!(
            info.total_duration,
            info.tracks.iter().map(|t| t.duration as u128).sum::<u128>()
        );
    }
}

#[test]
fn no_surviving_entry_is_an_error() {
    assert_eq!(read_cd_from_device("D1", &vec![]).unwrap_err(), CdError::NoAudioTracks);
    let toc = vec![
        DiscTrack { number: 1, first_sector: 0, last_sector: 10, is_audio: false },
        audio(2, 11, 10),
    ];
    let error = read_cd_from_device("D1", &toc).unwrap_err();
    assert_eq!(error, CdError::NoAudioTracks);
    assert_eq!(
        error.message(),
        "No valid audio tracks found on the disc. This may indicate the CD is damaged or not readable."
    );
}

#[test]
fn the_longest_playing_times_still_add_up() {
    let each: u128 = 245_956_587_649_460_688;
    assert_eq!(sector_span_seconds(0, u64::MAX) as u128, each);
    for count in [75u32, 76, 1000] {
        let toc: Vec<DiscTrack> = (1..=count).map(|n| audio(n, 0, u64::MAX)).collect();
        let info = read_cd_from_device("D1", &toc).unwrap();
        assert_eq!(info.tracks.len(), count as usize);
        assert_eq!(info.total_duration, count as u128 * each);
    }
    assert!(76 * each > u64::MAX as u128);
}

#[test]
fn playing_times_are_added_up() {
    let track = |duration: u64| CdTrack {
        number: 1,
        title: "t".to_string(),
        artist: "a".to_string(),
        duration,
        filename: "01 t.flac".to_string(),
    };
    assert_eq!(total_duration_of(&vec![]), 0);
    assert_eq!(total_duration_of(&vec![track(7)]), 7);
    assert_eq!(total_duration_of(&vec![track(2), track(0), track(185)]), 187);
    assert_eq!(
        total_duration_of(&vec![track(u64::MAX), track(u64::MAX), track(1)]),
        36_893_488_147_419_103_231
    );
}

#[test]
fn tracks_keep_the_order_and_the_numbers_of_their_entries() {
    let toc = vec![
        audio(7, 0, 74),
        DiscTrack { number: 3, first_sector: 75, last_sector: 200, is_audio: false },
        audio(5, 300, 299),
        audio(2, 400, 474),
        audio(9, 500, 500),
    ];
    let info = read_cd_from_device("D", &toc).unwrap();
    let numbers: Vec<u32> = info.tracks.iter().map(|t| t.number).collect();
    assert_eq!(numbers, vec![7, 2, 9]);
    let seconds: Vec<u64> = info.tracks.iter().map(|t| t.duration).collect();
    assert_eq!(seconds, vec![1, 1, 0]);
    assert_eq!(info.total_duration, 2);
}
