use mfutil::cd::{read_cd_from_device, CdInfo, DiscTrack};
use mfutil::json::Json;
use mfutil::musicbrainz::{ReleaseSummary, SearchOutcome};
use mfutil::release::{
    apply_release, cd_info_from_discid_response, copy_info, lookup_cd_info, parse_release,
    LookupAction, LookupEvent, Release, ReleaseTrack,
};

fn text(s: &str) -> Json {
    Json::Text(s.to_string())
}

fn object(members: Vec<(&str, Json)>) -> Json {
    Json::Object(members.into_iter().map(|(k, v)| (k.to_string(), v)).collect())
}

fn disc() -> CdInfo {
    read_cd_from_device(
        "D1",
        &vec![
            DiscTrack { number: 1, first_sector: 0, last_sector: 149, is_audio: true },
            DiscTrack { number: 2, first_sector: 150, last_sector: 299, is_audio: true },
            DiscTrack { number: 3, first_sector: 300, last_sector: 524, is_audio: true },
        ],
    )
    .unwrap()
}

fn release_document() -> Json {
    object(vec![
        ("id", text("rel-42")),
        ("title", text("Test Album")),
        (
            "artist-credit",
            Json::Array(vec![
                object(vec![("name", text("Test Artist"))]),
                object(vec![("name", text("Guest"))]),
            ]),
        ),
        (
            "media",
            Json::Array(vec![
                object(vec![(
                    "tracks",
                    Json::Array(vec![
                        object(vec![
                            ("number", text("1")),
                            ("title", text("Intro")),
                            ("length", Json::Number(Some(185_999))),
                        ]),
                        object(vec![("title", text("Second"))]),
                        object(vec![("number", text("A3")), ("length", Json::Number(None))]),
                        object(vec![("number", text("+7")), ("title", Json::Null)]),
                    ]),
                )]),
                object(vec![(
                    "tracks",
                    Json::Array(vec![object(vec![("title", text("Other medium"))])]),
                )]),
            ]),
        ),
    ])
}

#[test]
fn release_is_read_out_of_the_document() {
    let release = parse_release(&release_document());
    assert_eq!(release.id, "rel-42");
    assert_eq!(release.title, "Test Album");
    assert_eq!(release.artist, "Test Artist");
    let tracks: Vec<(u32, &str, Option<u64>)> =
        release.tracks.iter().map(|t| (t.number, t.title.as_str(), t.duration)).collect();
    assert_eq!(
        tracks,
        vec![(1, "Intro", Some(185)), (2, "Second", None), (3, "Track 03", None), (7, "Track 07", None)]
    );
}

#[test]
fn release_without_members_gets_defaults() {
    let release = parse_release(&object(vec![]));
    assert_eq!(release.id, "");
    assert_eq!(release.title, "Unknown Album");
    assert_eq!(release.artist, "Unknown Artist");
    assert!(release.tracks.is_empty());
    let release = parse_release(&Json::Null);
    assert_eq!(release.title, "Unknown Album");
    let release = parse_release(&object(vec![
        ("id", Json::Number(Some(5))),
        ("artist-credit", Json::Array(vec![])),
        ("media", Json::Array(vec![object(vec![("tracks", text("none"))])])),
    ]));
    assert_eq!(release.id, "");
    assert_eq!(release.artist, "Unknown Artist");
    assert!(release.tracks.is_empty());
}

#[test]
fn first_member_of_a_name_is_the_one_that_counts() {
    let release =
        parse_release(&object(vec![("title", text("First")), ("title", text("Second"))]));
    assert_eq!(release.title, "First");
}

#[test]
fn titles_are_merged_by_track_number() {
    let info = cd_info_from_discid_response(&release_document(), &disc());
    assert_eq!(info.disc_id, "D1");
    assert_eq!(info.title, "Test Album");
    assert_eq!(info.artist, "Test Artist");
    assert_eq!(info.release_id.as_deref(), Some("rel-42"));
    let tracks: Vec<(u32, &str, &str, u64, &str)> = info
        .tracks
        .iter()
        .map(|t| (t.number, t.title.as_str(), t.artist.as_str(), t.duration, t.filename.as_str()))
        .collect();
    assert_eq!(
        tracks,
        vec![
            (1, "Intro", "Test Artist", 185, "01 Intro.flac"),
            (2, "Second", "Test Artist", 2, "02 Second.flac"),
            (3, "Track 03", "Test Artist", 3, "03 Track 03.flac"),
        ]
    );
    assert_eq!(info.total_duration, 190);
}

#[test]
fn tracks_without_an_entry_keep_their_placeholder() {
    let release = Release {
        id: "r".to_string(),
        title: "T".to_string(),
        artist: "A".to_string(),
        tracks: vec![
            ReleaseTrack { number: 3, title: "Third".to_string(), duration: Some(9) },
            ReleaseTrack { number: 3, title: "Shadowed".to_string(), duration: Some(90) },
            ReleaseTrack { number: 9, title: "Beyond".to_string(), duration: Some(900) },
        ],
    };
    let info = apply_release(&disc(), &release);
    let titles: Vec<&str> = info.tracks.iter().map(|t| t.title.as_str()).collect();
    assert_eq!(titles, vec!["Track 01", "Track 02", "Third"]);
    let files: Vec<&str> = info.tracks.iter().map(|t| t.filename.as_str()).collect();
    assert_eq!(files, vec!["01 Track 01.flac", "02 Track 02.flac", "03 Third.flac"]);
    assert_eq!(info.tracks.len(), 3);
    let durations: Vec<u64> = info.tracks.iter().map(|t| t.duration).collect();
    assert_eq!(durations, vec![2, 2, 9]);
    assert_eq!(info.total_duration, 13);
    assert_eq!(
        info.total_duration,
        info.tracks.iter().map(|t| t.duration as u128).sum::<u128>()
    );
}

#[test]
fn resolution_begins_with_the_disc_identifier() {
    let step = lookup_cd_info(&disc(), &LookupEvent::Begin);
    assert_eq!(
        step.messages,
        vec![
            "Looking up CD information from MusicBrainz...".to_string(),
            "Attempting lookup by DiscID: D1".to_string(),
        ]
    );
    match step.action {
        LookupAction::QueryDiscId { url } => assert_eq!(
            url,
            "https://musicbrainz.org/ws/2/discid/D1?fmt=json&inc=artists+release-groups+recordings"
        ),
        other => panic!("{:?}", other),
    }
}

#[test]
fn named_release_ends_resolution() {
    let reply = object(vec![("releases", Json::Array(vec![release_document()]))]);
    let step = lookup_cd_info(&disc(), &LookupEvent::DiscLookup(Some(reply)));
    assert_eq!(
        step.messages,
        vec!["Found release: Test Artist - Test Album (rel-42)".to_string()]
    );
    match step.action {
        LookupAction::Finish { info } => {
            assert_eq!(info.title, "Test Album");
            assert_eq!(info.tracks[0].title, "Intro");
            assert_eq!(info.release_id.as_deref(), Some("rel-42"));
        }
        other => panic!("{:?}", other),
    }
}

fn search_step(reply: Option<Json>) -> (Vec<String>, String) {
    let step = lookup_cd_info(&disc(), &LookupEvent::DiscLookup(reply));
    match step.action {
        LookupAction::QuerySearch { query } => (step.messages, query),
        other => panic!("{:?}", other),
    }
}

#[test]
fn reply_without_release_leads_to_the_search() {
    let query = "release:\"Unknown Album\" AND artist:\"Unknown Artist\"";
    assert_eq!(
        search_step(None),
        (
            vec!["DiscID lookup failed, trying search by artist/album...".to_string()],
            query.to_string()
        )
    );
    assert_eq!(
        search_step(Some(object(vec![("error", text("Not Found"))]))),
        (
            vec!["Invalid discid response format, trying search by artist/album...".to_string()],
            query.to_string()
        )
    );
    assert_eq!(
        search_step(Some(object(vec![("releases", Json::Array(vec![]))]))),
        (
            vec!["No releases found for this discid, trying search by artist/album...".to_string()],
            query.to_string()
        )
    );
    assert_eq!(
        search_step(Some(object(vec![(
            "releases",
            Json::Array(vec![object(vec![("title", text("No id"))])])
        )]))),
        (
            vec![
                "No release ID found in discid response, trying search by artist/album..."
                    .to_string()
            ],
            query.to_string()
        )
    );
}

#[test]
fn search_result_names_the_disc_and_keeps_the_tracks() {
    let found = ReleaseSummary {
        id: "rel-7".to_string(),
        title: "Found Album".to_string(),
        artist_credit: Some(vec!["One".to_string(), "Two".to_string(), "Three".to_string()]),
    };
    let step = lookup_cd_info(&disc(), &LookupEvent::Search(SearchOutcome::Found(found)));
    assert_eq!(
        step.messages,
        vec!["Found release: One & Two & Three - Found Album (rel-7)".to_string()]
    );
    match step.action {
        LookupAction::Finish { info } => {
            assert_eq!(info.title, "Found Album");
            assert_eq!(info.artist, "One & Two & Three");
            assert_eq!(info.release_id.as_deref(), Some("rel-7"));
            assert_eq!(info.tracks[1].title, "Track 02");
            assert_eq!(info.tracks[1].artist, "Unknown Artist");
            assert_eq!(info.total_duration, 7);
        }
        other => panic!("{:?}", other),
    }
    let uncredited =
        ReleaseSummary { id: "i".to_string(), title: "t".to_string(), artist_credit: None };
    let step = lookup_cd_info(&disc(), &LookupEvent::Search(SearchOutcome::Found(uncredited)));
    match step.action {
        LookupAction::Finish { info } => assert_eq!(info.artist, "Unknown Artist"),
        other => panic!("{:?}", other),
    }
    let nobody =
        ReleaseSummary { id: "i".to_string(), title: "t".to_string(), artist_credit: Some(vec![]) };
    assert_eq!(nobody.credited_artist("x"), "");
}

fn same(a: &CdInfo, b: &CdInfo) -> bool {
    a.disc_id == b.disc_id
        && a.title == b.title
        && a.artist == b.artist
        && a.total_duration == b.total_duration
        && a.release_id == b.release_id
        && a.tracks.len() == b.tracks.len()
        && a.tracks.iter().zip(b.tracks.iter()).all(|(x, y)| {
            x.number == y.number
                && x.title == y.title
                && x.artist == y.artist
                && x.duration == y.duration
                && x.filename == y.filename
        })
}

#[test]
fn failing_at_every_step_leaves_the_record_as_it_came() {
    let before = disc();
    for outcome in [SearchOutcome::NoMatch, SearchOutcome::Failed("timeout".to_string())] {
        let first = lookup_cd_info(&before, &LookupEvent::DiscLookup(None));
        assert!(matches!(first.action, LookupAction::QuerySearch { .. }));
        let second = lookup_cd_info(&before, &LookupEvent::Search(outcome));
        match second.action {
            LookupAction::Finish { info } => {
                assert!(same(&info, &before));
                assert_eq!(info.title, "Unknown Album");
                assert_eq!(info.artist, "Unknown Artist");
                assert_eq!(info.release_id, None);
            }
            other => panic!("{:?}", other),
        }
    }
    assert!(same(&copy_info(&before), &before));
}

#[test]
fn failed_search_and_empty_search_say_so() {
    let step = lookup_cd_info(&disc(), &LookupEvent::Search(SearchOutcome::NoMatch));
    assert_eq!(
        step.messages,
        vec!["No exact match found, using provided information...".to_string()]
    );
    let step =
        lookup_cd_info(&disc(), &LookupEvent::Search(SearchOutcome::Failed("x".to_string())));
    assert_eq!(
        step.messages,
        vec!["MusicBrainz lookup failed, using provided information...".to_string()]
    );
}

#[test]
fn a_length_in_milliseconds_gives_the_seconds_of_the_track() {
    let one_track = read_cd_from_device(
        "D1",
        &vec![DiscTrack { number: 1, first_sector: 0, last_sector: 149, is_audio: true }],
    )
    .unwrap();
    assert_eq!(one_track.tracks[0].duration, 2);
    let release = object(vec![
        ("id", text("R1")),
        ("title", text("T")),
        ("artist-credit", Json::Array(vec![object(vec![("name", text("A"))])])),
        (
            "media",
            Json::Array(vec![object(vec![(
                "tracks",
                Json::Array(vec![object(vec![
                    ("number", text("1")),
                    ("title", text("One")),
                    ("length", Json::Number(Some(185_999))),
                ])]),
            )])]),
        ),
    ]);
    let info = cd_info_from_discid_response(&release, &one_track);
    assert_eq!(info.tracks.len(), 1);
    assert_eq!(info.tracks[0].duration, 185);
    assert_eq!(info.total_duration, 185);
    assert_eq!(info.tracks[0].title, "One");
}

#[test]
fn a_length_of_nothing_is_zero_seconds_and_no_length_keeps_the_disc_s() {
    let release = Release {
        id: "r".to_string(),
        title: "T".to_string(),
        artist: "A".to_string(),
        tracks: vec![
            ReleaseTrack { number: 1, title: "Zero".to_string(), duration: Some(0) },
            ReleaseTrack { number: 2, title: "Kept".to_string(), duration: None },
        ],
    };
    let info = apply_release(&disc(), &release);
    let durations: Vec<u64> = info.tracks.iter().map(|t| t.duration).collect();
    assert_eq!(durations, vec![0, 2, 3]);
    assert_eq!(info.total_duration, 5);
}

#[test]
fn the_total_is_made_anew_whatever_the_record_said() {
    let mut wrong = disc();
    wrong.total_duration = 1000;
    let release = Release {
        id: "r".to_string(),
        title: "T".to_string(),
        artist: "A".to_string(),
        tracks: vec![],
    };
    let info = apply_release(&wrong, &release);
    assert_eq!(info.total_duration, 7);
}

#[test]
fn the_longest_playing_times_of_a_release_still_add_up() {
    let release = Release {
        id: "r".to_string(),
        title: "T".to_string(),
        artist: "A".to_string(),
        tracks: vec![
            ReleaseTrack { number: 1, title: "a".to_string(), duration: Some(u64::MAX) },
            ReleaseTrack { number: 2, title: "b".to_string(), duration: Some(u64::MAX) },
        ],
    };
    // The third track keeps its own three seconds.
    let merged = apply_release(&disc(), &release);
    assert_eq!(merged.total_duration, 2 * (u64::MAX as u128) + 3);
    let huge = u64::MAX - 999;
    let entry = |number: &str| {
        object(vec![("number", text(number)), ("length", Json::Number(Some(huge)))])
    };
    let reply = object(vec![(
        "releases",
        Json::Array(vec![object(vec![
            ("id", text("r")),
            (
                "media",
                Json::Array(vec![object(vec![(
                    "tracks",
                    Json::Array((1..=1001).map(|n| entry(&n.to_string())).collect()),
                )])]),
            ),
        ])]),
    )]);
    let many = read_cd_from_device(
        "D",
        &(1..=1001u32)
            .map(|number| DiscTrack { number, first_sector: 0, last_sector: 74, is_audio: true })
            .collect(),
    )
    .unwrap();
    let step = lookup_cd_info(&many, &LookupEvent::DiscLookup(Some(reply)));
    match step.action {
        LookupAction::Finish { info } => {
            assert_eq!(info.release_id.as_deref(), Some("r"));
            assert_eq!(info.tracks.len(), 1001);
            assert_eq!(info.total_duration, 1001 * ((huge / 1000) as u128));
        }
        other => panic!("unexpected action {:?}", other),
    }
}
