use mfutil::cd::DiscTrack;
use mfutil::cover_art::{ArtAction, ArtEvent, ImageReply, SearchReply};
use mfutil::encode::FileWrite;
use mfutil::import::{import_cd, ImportAction, ImportEvent, ImportStage, ImportState};
use mfutil::json::Json;
use mfutil::metadata::{TagField, TagKey};
use mfutil::musicbrainz::SearchOutcome;
use mfutil::progress::ImportProgressMessage;
use mfutil::release::{LookupAction, LookupEvent};
use mfutil::track::{TrackAction, TrackEvent};

fn text(s: &str) -> Json {
    Json::Text(s.to_string())
}

fn object(members: Vec<(&str, Json)>) -> Json {
    Json::Object(members.into_iter().map(|(k, v)| (k.to_string(), v)).collect())
}

fn two_track_toc() -> Vec<DiscTrack> {
    vec![
        DiscTrack { number: 1, first_sector: 0, last_sector: 149, is_audio: true },
        DiscTrack { number: 2, first_sector: 150, last_sector: 299, is_audio: true },
    ]
}

fn test_release_reply() -> Json {
    object(vec![(
        "releases",
        Json::Array(vec![object(vec![
            ("id", text("release-1")),
            ("title", text("Test Album")),
            ("artist-credit", Json::Array(vec![object(vec![("name", text("Test Artist"))])])),
            (
                "media",
                Json::Array(vec![object(vec![(
                    "tracks",
                    Json::Array(vec![
                        object(vec![
                            ("number", text("1")),
                            ("title", text("Intro")),
                            ("length", Json::Number(Some(2000))),
                        ]),
                        object(vec![
                            ("number", text("2")),
                            ("title", text("Outro")),
                            ("length", Json::Number(Some(2000))),
                        ]),
                    ]),
                )])]),
            ),
        ])]),
    )])
}

/// What the world does to an import.
struct World {
    toc: Result<(String, Vec<DiscTrack>), String>,
    disc_lookup: Option<Json>,
    search: fn() -> SearchOutcome,
    archive_image: Option<Vec<u8>>,
    audiodb_image: Option<Vec<u8>>,
    directory_ok: bool,
    /// Track numbers whose reading runs out of time.
    timeouts: Vec<u32>,
    /// Track numbers of which no sector can be read.
    unreadable: Vec<u32>,
    /// Positions of the tracks whose audio file cannot be written.
    unwritable: Vec<usize>,
    /// Positions of the tracks whose tags cannot be saved.
    untaggable: Vec<usize>,
}

/// What an import did.
struct Outcome {
    messages: Vec<ImportProgressMessage>,
    files: Vec<FileWrite>,
    tags: Vec<(String, Vec<TagField>)>,
    directories: Vec<String>,
    exit_code: u8,
    state: ImportState,
}

fn no_match() -> SearchOutcome {
    SearchOutcome::NoMatch
}

fn search_failed() -> SearchOutcome {
    SearchOutcome::Failed("connection refused".to_string())
}

fn plain_world() -> World {
    World {
        toc: Ok(("D1".to_string(), two_track_toc())),
        disc_lookup: Some(test_release_reply()),
        search: no_match,
        archive_image: None,
        audiodb_image: None,
        directory_ok: true,
        timeouts: vec![],
        unreadable: vec![],
        unwritable: vec![],
        untaggable: vec![],
    }
}

fn silence() -> Vec<u8> {
    vec![0u8; 4 * 588]
}

fn run(world: World) -> Outcome {
    let mut disc_lookup = world.disc_lookup;
    let mut outcome = Outcome {
        messages: vec![],
        files: vec![],
        tags: vec![],
        directories: vec![],
        exit_code: 255,
        state: ImportState::new("/dev/cdrom", "/music"),
    };
    let mut state = ImportState::new("/dev/cdrom", "/music");
    let mut event = ImportEvent::Begin;
    for _ in 0..1000 {
        let step = import_cd(state, event);
        outcome.messages.extend(step.messages);
        state = step.state;
        event = match step.action {
            ImportAction::ReadToc { device } => {
                assert_eq!(device, "/dev/cdrom");
                match &world.toc {
                    Ok((disc_id, toc)) => {
                        ImportEvent::Toc { disc_id: disc_id.clone(), toc: toc.clone() }
                    }
                    Err(reason) => ImportEvent::TocFailed { reason: reason.clone() },
                }
            }
            ImportAction::Lookup(LookupAction::QueryDiscId { .. }) => {
                ImportEvent::Lookup(LookupEvent::DiscLookup(disc_lookup.take()))
            }
            ImportAction::Lookup(LookupAction::QuerySearch { .. }) => {
                ImportEvent::Lookup(LookupEvent::Search((world.search)()))
            }
            ImportAction::Lookup(LookupAction::Finish { .. }) => {
                panic!("the import keeps the end of resolution to itself")
            }
            ImportAction::Art(ArtAction::FetchImage { url }) => {
                let image = if url.starts_with("https://coverartarchive.org/") {
                    world.archive_image.clone()
                } else {
                    world.audiodb_image.clone()
                };
                ImportEvent::Art(ArtEvent::Image(match image {
                    Some(bytes) => ImageReply::Bytes(bytes),
                    None => ImageReply::Status("404 Not Found".to_string()),
                }))
            }
            ImportAction::Art(ArtAction::FetchSearch { .. }) => {
                ImportEvent::Art(ArtEvent::Search(match &world.audiodb_image {
                    Some(_) => SearchReply::Document(object(vec![(
                        "album",
                        Json::Array(vec![object(vec![(
                            "strAlbumThumb",
                            text("https://img.example/thumb.jpg"),
                        )])]),
                    )])),
                    None => SearchReply::Document(object(vec![("album", Json::Null)])),
                }))
            }
            ImportAction::Art(ArtAction::Done { .. }) => {
                panic!("the import keeps the end of a source to itself")
            }
            ImportAction::CreateDirectory { path } => {
                if world.directory_ok {
                    outcome.directories.push(path);
                    ImportEvent::DirectoryCreated
                } else {
                    ImportEvent::DirectoryFailed { reason: "permission denied".to_string() }
                }
            }
            ImportAction::Track { index, timeout_seconds, action } => {
                assert_eq!(timeout_seconds, 300);
                assert_eq!(state.stage(), ImportStage::Importing { index });
                match action {
                    TrackAction::ReadAudio { track } => {
                        if world.timeouts.contains(&track) {
                            ImportEvent::TrackTimedOut
                        } else if world.unreadable.contains(&track) {
                            ImportEvent::Track(TrackEvent::Read(Err(format!(
                                "Failed to read any audio data from track {}",
                                track
                            ))))
                        } else {
                            ImportEvent::Track(TrackEvent::Read(Ok(silence())))
                        }
                    }
                    TrackAction::WriteFiles { files } => {
                        if world.unwritable.contains(&index) {
                            ImportEvent::Track(TrackEvent::Written(Err("disk full".to_string())))
                        } else {
                            outcome.files.extend(files);
                            ImportEvent::Track(TrackEvent::Written(Ok(())))
                        }
                    }
                    TrackAction::WriteTags { path, fields } => {
                        if world.untaggable.contains(&index) {
                            ImportEvent::Track(TrackEvent::Tagged { saved: false })
                        } else {
                            outcome.tags.push((path, fields));
                            ImportEvent::Track(TrackEvent::Tagged { saved: true })
                        }
                    }
                    TrackAction::Completed | TrackAction::Failed { .. } => {
                        panic!("the import keeps the end of a track to itself")
                    }
                }
            }
            ImportAction::Exit { code } => {
                outcome.exit_code = code;
                outcome.state = state;
                return outcome;
            }
            ImportAction::Ignore => panic!("an expected event was ignored"),
        };
    }
    panic!("the import does not end");
}

fn count(outcome: &Outcome, pick: fn(&ImportProgressMessage) -> bool) -> usize {
    outcome.messages.iter().filter(|m| pick(m)).count()
}

fn is_total(m: &ImportProgressMessage) -> bool {
    matches!(m, ImportProgressMessage::TotalTracks { .. })
}

fn is_started(m: &ImportProgressMessage) -> bool {
    matches!(m, ImportProgressMessage::TrackStarted { .. })
}

fn is_completed(m: &ImportProgressMessage) -> bool {
    matches!(m, ImportProgressMessage::TrackCompleted { .. })
}

fn is_error(m: &ImportProgressMessage) -> bool {
    matches!(m, ImportProgressMessage::TrackError { .. })
}

fn is_finished(m: &ImportProgressMessage) -> bool {
    matches!(m, ImportProgressMessage::ImportFinished { .. })
}

fn audio_paths(outcome: &Outcome) -> Vec<String> {
    outcome.files.iter().filter(|f| f.required).map(|f| f.path.clone()).collect()
}

#[test]
fn matched_disc_is_imported_under_the_release_names() {
    let outcome = run(plain_world());
    assert_eq!(outcome.exit_code, 0);
    assert_eq!(outcome.directories, vec!["/music/Artists/Test Artist/Test Album".to_string()]);
    assert_eq!(
        audio_paths(&outcome),
        vec![
            "/music/Artists/Test Artist/Test Album/01 Intro.flac".to_string(),
            "/music/Artists/Test Artist/Test Album/02 Outro.flac".to_string(),
        ]
    );
    assert_eq!(count(&outcome, is_total), 1);
    assert!(outcome
        .messages
        .iter()
        .any(|m| matches!(m, ImportProgressMessage::TotalTracks { count: 2 })));
    assert_eq!(count(&outcome, is_started), 2);
    assert_eq!(count(&outcome, is_completed), 2);
    assert_eq!(count(&outcome, is_error), 0);
    assert_eq!(count(&outcome, is_finished), 1);
    assert!(matches!(
        outcome.messages.last(),
        Some(ImportProgressMessage::ImportFinished { artist, title })
            if artist == "Test Artist" && title == "Test Album"
    ));
    assert_eq!(outcome.state.stage(), ImportStage::Finished);
    assert_eq!(outcome.state.completed(), 2);
    let info = outcome.state.info().unwrap();
    assert_eq!(info.disc_id, "D1");
    assert_eq!(info.release_id.as_deref(), Some("release-1"));
    assert_eq!(info.tracks.len(), 2);
    assert_eq!(info.tracks[0].duration, 2);
    assert_eq!(info.tracks[1].duration, 2);
    assert_eq!(info.total_duration, 4);
}

#[test]
fn encoded_files_are_flac_streams() {
    let outcome = run(plain_world());
    assert_eq!(outcome.files.len(), 2);
    for file in &outcome.files {
        assert!(file.required);
        assert_eq!(&file.bytes[..4], b"fLaC");
        assert_ne!(file.bytes, silence());
    }
}

#[test]
fn tags_carry_release_and_track() {
    let outcome = run(plain_world());
    assert_eq!(outcome.tags.len(), 2);
    let (path, fields) = &outcome.tags[1];
    assert_eq!(path, "/music/Artists/Test Artist/Test Album/02 Outro.flac");
    let pairs: Vec<(TagKey, &str)> = fields.iter().map(|f| (f.key, f.value.as_str())).collect();
    assert_eq!(
        pairs,
        vec![
            (TagKey::TrackTitle, "Outro"),
            (TagKey::TrackArtist, "Test Artist"),
            (TagKey::AlbumTitle, "Test Album"),
            (TagKey::AlbumArtist, "Test Artist"),
            (TagKey::TrackNumber, "2"),
            (TagKey::MusicBrainzReleaseId, "release-1"),
        ]
    );
}

#[test]
fn unresolved_disc_is_imported_under_placeholders() {
    let mut world = plain_world();
    world.disc_lookup = None;
    world.search = search_failed;
    let outcome = run(world);
    assert_eq!(outcome.exit_code, 0);
    assert_eq!(
        audio_paths(&outcome),
        vec![
            "/music/Artists/Unknown Artist/Unknown Album/01 Track 01.flac".to_string(),
            "/music/Artists/Unknown Artist/Unknown Album/02 Track 02.flac".to_string(),
        ]
    );
    let info = outcome.state.info().unwrap();
    assert_eq!(info.title, "Unknown Album");
    assert_eq!(info.artist, "Unknown Artist");
    assert_eq!(info.release_id, None);
    assert_eq!(count(&outcome, is_completed), 2);
    assert_eq!(count(&outcome, is_finished), 1);
    // Without a release the tags carry no release identifier.
    assert_eq!(outcome.tags[0].1.len(), 5);
}

#[test]
fn empty_release_list_falls_back_to_search_and_keeps_placeholders() {
    let mut world = plain_world();
    world.disc_lookup = Some(object(vec![("releases", Json::Array(vec![]))]));
    world.search = no_match;
    let outcome = run(world);
    assert_eq!(outcome.exit_code, 0);
    let info = outcome.state.info().unwrap();
    assert_eq!(info.title, "Unknown Album");
    assert_eq!(info.release_id, None);
    assert!(outcome.messages.iter().any(|m| matches!(
        m,
        ImportProgressMessage::Info { text } if text == "No exact match found, using provided information..."
    )));
}

#[test]
fn timed_out_track_is_skipped_and_the_import_goes_on() {
    let mut world = plain_world();
    world.timeouts = vec![2];
    let outcome = run(world);
    assert_eq!(outcome.exit_code, 0);
    assert_eq!(count(&outcome, is_completed), 1);
    assert_eq!(count(&outcome, is_error), 1);
    assert_eq!(count(&outcome, is_finished), 1);
    assert!(outcome.messages.iter().any(|m| matches!(
        m,
        ImportProgressMessage::TrackCompleted { number: 1, title } if title == "Intro"
    )));
    assert!(outcome.messages.iter().any(|m| matches!(
        m,
        ImportProgressMessage::TrackError { number: 2, title, reason }
            if title == "Outro" && reason == "timeout"
    )));
    assert_eq!(
        audio_paths(&outcome),
        vec!["/music/Artists/Test Artist/Test Album/01 Intro.flac".to_string()]
    );
    assert_eq!(outcome.state.completed(), 1);
    assert!(outcome.messages.iter().any(|m| matches!(
        m,
        ImportProgressMessage::Info { text } if text == "Imported 1 of 2 tracks"
    )));
}

#[test]
fn timeout_of_the_first_track_is_followed_by_the_start_of_the_second() {
    let mut world = plain_world();
    world.timeouts = vec![1];
    let outcome = run(world);
    let at = outcome.messages.iter().position(is_error).unwrap();
    assert!(matches!(
        &outcome.messages[at],
        ImportProgressMessage::TrackError { number: 1, reason, .. } if reason == "timeout"
    ));
    assert!(matches!(
        &outcome.messages[at + 1],
        ImportProgressMessage::TrackStarted { number: 2, title } if title == "Outro"
    ));
    assert_eq!(count(&outcome, is_error), 1);
    assert_eq!(count(&outcome, is_started), 2);
    assert_eq!(count(&outcome, is_completed), 1);
    assert_eq!(outcome.exit_code, 0);
}

#[test]
fn unreadable_track_is_reported_with_its_reason() {
    let mut world = plain_world();
    world.unreadable = vec![1];
    let outcome = run(world);
    assert_eq!(outcome.exit_code, 0);
    assert!(outcome.messages.iter().any(|m| matches!(
        m,
        ImportProgressMessage::TrackError { number: 1, reason, .. }
            if reason == "Failed to read any audio data from track 1"
    )));
    assert_eq!(count(&outcome, is_completed), 1);
}

#[test]
fn every_track_failing_still_ends_with_code_zero() {
    let mut world = plain_world();
    world.timeouts = vec![1, 2];
    let outcome = run(world);
    assert_eq!(outcome.exit_code, 0);
    assert_eq!(count(&outcome, is_error), 2);
    assert_eq!(count(&outcome, is_completed), 0);
    assert_eq!(count(&outcome, is_finished), 1);
    assert!(outcome.files.is_empty());
}

#[test]
fn unreadable_drive_gives_the_import_up() {
    let mut world = plain_world();
    world.toc = Err("Failed to identify CD-ROM drive".to_string());
    let outcome = run(world);
    assert_eq!(outcome.exit_code, 1);
    assert!(outcome.directories.is_empty());
    assert!(outcome.files.is_empty());
    let lines: Vec<String> = outcome.messages.iter().map(|m| m.format()).collect();
    assert_eq!(
        lines,
        vec![
            "Reading CD from device: /dev/cdrom".to_string(),
            "ERROR: Failed to identify CD-ROM drive".to_string(),
        ]
    );
    assert_eq!(outcome.state.stage(), ImportStage::Aborted);
    assert!(outcome.state.info().is_none());
}

#[test]
fn disc_without_audio_gives_the_import_up() {
    let mut world = plain_world();
    world.toc = Ok((
        "D1".to_string(),
        vec![
            DiscTrack { number: 1, first_sector: 0, last_sector: 149, is_audio: false },
            DiscTrack { number: 2, first_sector: 300, last_sector: 150, is_audio: true },
        ],
    ));
    let outcome = run(world);
    assert_eq!(outcome.exit_code, 1);
    assert_eq!(count(&outcome, is_total), 0);
    assert!(outcome.directories.is_empty());
    assert_eq!(
        outcome.messages.last().unwrap().format(),
        "ERROR: No valid audio tracks found on the disc. This may indicate the CD is damaged or not readable."
    );
}

#[test]
fn total_tracks_counts_the_surviving_entries() {
    let mut world = plain_world();
    world.disc_lookup = None;
    world.toc = Ok((
        "D2".to_string(),
        vec![
            DiscTrack { number: 1, first_sector: 0, last_sector: 149, is_audio: true },
            DiscTrack { number: 2, first_sector: 150, last_sector: 299, is_audio: false },
            DiscTrack { number: 3, first_sector: 500, last_sector: 300, is_audio: true },
            DiscTrack { number: 4, first_sector: 600, last_sector: 900, is_audio: true },
        ],
    ));
    let outcome = run(world);
    assert_eq!(count(&outcome, is_total), 1);
    assert!(outcome
        .messages
        .iter()
        .any(|m| matches!(m, ImportProgressMessage::TotalTracks { count: 2 })));
    assert_eq!(count(&outcome, is_started), 2);
    assert_eq!(
        audio_paths(&outcome),
        vec![
            "/music/Artists/Unknown Artist/Unknown Album/01 Track 01.flac".to_string(),
            "/music/Artists/Unknown Artist/Unknown Album/04 Track 04.flac".to_string(),
        ]
    );
}

#[test]
fn missing_cover_art_is_no_error() {
    let outcome = run(plain_world());
    assert_eq!(outcome.exit_code, 0);
    assert!(outcome.state.cover_art().is_none());
    assert!(outcome.files.iter().all(|f| f.path.ends_with(".flac")));
    assert!(outcome.messages.iter().any(|m| matches!(
        m,
        ImportProgressMessage::Info { text } if text == "No cover art found - files will be created without artwork"
    )));
    assert_eq!(count(&outcome, is_error), 0);
}

#[test]
fn archive_cover_is_written_beside_each_track() {
    let mut world = plain_world();
    world.archive_image = Some(vec![0xff, 0xd8, 0xff]);
    let outcome = run(world);
    let paths: Vec<&str> = outcome.files.iter().map(|f| f.path.as_str()).collect();
    assert_eq!(
        paths,
        vec![
            "/music/Artists/Test Artist/Test Album/01 Intro.flac",
            "/music/Artists/Test Artist/Test Album/01 Intro.jpg",
            "/music/Artists/Test Artist/Test Album/02 Outro.flac",
            "/music/Artists/Test Artist/Test Album/02 Outro.jpg",
        ]
    );
    assert_eq!(outcome.files[1].bytes, vec![0xff, 0xd8, 0xff]);
    assert!(!outcome.files[1].required);
    assert_eq!(outcome.state.cover_art(), Some(&vec![0xff, 0xd8, 0xff]));
}

#[test]
fn album_database_is_asked_when_the_archive_has_nothing() {
    let mut world = plain_world();
    world.audiodb_image = Some(vec![1, 2, 3]);
    let outcome = run(world);
    assert_eq!(outcome.state.cover_art(), Some(&vec![1, 2, 3]));
    let lines: Vec<String> = outcome.messages.iter().map(|m| m.format()).collect();
    let archive = lines
        .iter()
        .position(|l| l == "Fetching cover art from MusicBrainz for release: release-1")
        .unwrap();
    let database = lines
        .iter()
        .position(|l| l == "Trying AudioDB for cover art: Test Artist - Test Album")
        .unwrap();
    assert!(archive < database);
}

#[test]
fn directory_that_cannot_be_made_gives_the_import_up() {
    let mut world = plain_world();
    world.directory_ok = false;
    let outcome = run(world);
    assert_eq!(outcome.exit_code, 1);
    assert_eq!(count(&outcome, is_started), 0);
    assert_eq!(
        outcome.messages.last().unwrap().format(),
        "ERROR: Failed to create album directory: permission denied"
    );
}

#[test]
fn events_out_of_place_change_nothing() {
    let state = ImportState::new("/dev/sr0", "/m");
    let step = import_cd(state, ImportEvent::TrackTimedOut);
    assert!(matches!(step.action, ImportAction::Ignore));
    assert!(step.messages.is_empty());
    assert_eq!(step.state.stage(), ImportStage::Start);
    let step = import_cd(step.state, ImportEvent::DirectoryCreated);
    assert!(matches!(step.action, ImportAction::Ignore));
    let step = import_cd(step.state, ImportEvent::Begin);
    assert!(matches!(step.action, ImportAction::ReadToc { .. }));
    assert_eq!(step.state.stage(), ImportStage::ReadingToc);
    let step = import_cd(step.state, ImportEvent::Begin);
    assert!(matches!(step.action, ImportAction::Ignore));
    assert_eq!(step.state.stage(), ImportStage::ReadingToc);
}

#[test]
fn names_are_made_safe_for_the_directory() {
    let mut world = plain_world();
    world.disc_lookup = Some(object(vec![(
        "releases",
        Json::Array(vec![object(vec![
            ("id", text("r")),
            ("title", text("What?")),
            ("artist-credit", Json::Array(vec![object(vec![("name", text("AC/DC"))])])),
        ])]),
    )]));
    let outcome = run(world);
    assert_eq!(outcome.directories, vec!["/music/Artists/AC_DC/What_".to_string()]);
    let info = outcome.state.info().unwrap();
    assert_eq!(info.artist, "AC/DC");
    assert_eq!(info.title, "What?");
    // The release names no tracks, so the placeholders stay.
    assert_eq!(info.tracks[0].title, "Track 01");
    assert_eq!(info.tracks[0].artist, "AC/DC");
    assert_eq!(
        audio_paths(&outcome)[0],
        "/music/Artists/AC_DC/What_/01 Track 01.flac"
    );
}

#[test]
fn tags_that_cannot_be_saved_leave_the_track_imported() {
    let mut world = plain_world();
    world.untaggable = vec![0];
    let outcome = run(world);
    assert_eq!(outcome.exit_code, 0);
    assert_eq!(count(&outcome, is_completed), 2);
    assert_eq!(count(&outcome, is_error), 0);
    assert_eq!(outcome.state.completed(), 2);
    assert_eq!(outcome.tags.len(), 1);
    assert!(outcome.messages.iter().any(|m| matches!(
        m,
        ImportProgressMessage::Info { text }
            if text == "Could not save tags for: /music/Artists/Test Artist/Test Album/01 Intro.flac"
    )));
}

#[test]
fn an_audio_file_that_cannot_be_written_fails_its_track_only() {
    let mut world = plain_world();
    world.unwritable = vec![0];
    let outcome = run(world);
    assert_eq!(outcome.exit_code, 0);
    assert_eq!(count(&outcome, is_completed), 1);
    assert!(outcome.messages.iter().any(|m| matches!(
        m,
        ImportProgressMessage::TrackError { number: 1, title, reason }
            if title == "Intro" && reason == "disk full"
    )));
    assert_eq!(
        audio_paths(&outcome),
        vec!["/music/Artists/Test Artist/Test Album/02 Outro.flac".to_string()]
    );
}

#[test]
fn every_track_gets_one_start_and_one_end() {
    for (timeouts, unreadable) in
        [(vec![], vec![]), (vec![1], vec![]), (vec![], vec![2]), (vec![2], vec![1]), (vec![1, 2], vec![])]
    {
        let mut world = plain_world();
        world.timeouts = timeouts;
        world.unreadable = unreadable;
        let outcome = run(world);
        assert_eq!(count(&outcome, is_total), 1);
        assert_eq!(count(&outcome, is_started), 2);
        assert_eq!(count(&outcome, is_completed) + count(&outcome, is_error), 2);
        assert_eq!(count(&outcome, is_completed), outcome.state.completed());
        assert_eq!(count(&outcome, is_finished), 1);
        let mut open: Option<u32> = None;
        for m in &outcome.messages {
            match m {
                ImportProgressMessage::TrackStarted { number, .. } => {
                    assert_eq!(open, None);
                    open = Some(*number);
                }
                ImportProgressMessage::TrackCompleted { number, .. }
                | ImportProgressMessage::TrackError { number, .. } => {
                    assert_eq!(open, Some(*number));
                    open = None;
                }
                _ => {}
            }
        }
        assert_eq!(open, None);
    }
}
