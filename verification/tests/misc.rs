use mfutil::art::{
    artist_search_url, artist_thumbnail, crop_image_to_square, extract_album_artist_from_directory,
    first_photo_url, folder_icon_uri, may_carry_cover, placeholder_search_name,
    placeholder_search_url, SquareCrop,
};
use mfutil::cli::{steps_to_run, Step};
use mfutil::json::Json;
use mfutil::metadata::FileTags;
use mfutil::musicbrainz::{
    extract_and_enhance_metadata, lookup_musicbrainz_release, user_agent, wants_enhancement,
    ReleaseLookupAction, ReleaseLookupEvent, ReleaseMatch, ReleaseSummary, SearchOutcome,
};
use mfutil::paths::{extension, extension_of_name, file_stem, join_path, stem};
use mfutil::symlinks::{
    existing_link_action, process_single_album_symlink, process_single_track_symlink, LinkAction,
    LinkError,
};
use mfutil::tagging::{process_music_file_with_musicbrainz, update_musicbrainz_release_id};
use mfutil::text::{
    chars_of, join, parse_number, parse_u32, parse_usize, split_words, string_of, take_before,
    trim,
};
use mfutil::tui::TuiState;
use mfutil::utils::{get_all_folder_paths, get_all_track_paths, scan_directory_for_audio_files};
use std::sync::mpsc;

fn text(s: &str) -> Json {
    Json::Text(s.to_string())
}

fn object(members: Vec<(&str, Json)>) -> Json {
    Json::Object(members.into_iter().map(|(k, v)| (k.to_string(), v)).collect())
}

fn strings(items: &[&str]) -> Vec<String> {
    items.iter().map(|s| s.to_string()).collect()
}

#[test]
fn numbers_are_read_as_the_standard_library_reads_them() {
    for s in [
        "0", "7", "007", "+7", "+", "", "-1", "-0", " 1", "1 ", "1_0", "12a", "4294967295",
        "4294967296", "99999999999999999999", "+4294967295", "++1", "1+", "\u{661}",
    ] {
        assert_eq!(parse_u32(s), s.parse::<u32>().ok(), "{:?}", s);
        assert_eq!(parse_usize(s), s.parse::<usize>().ok(), "{:?}", s);
    }
    assert_eq!(parse_usize("18446744073709551615"), Some(usize::MAX));
    assert_eq!(parse_usize("18446744073709551616"), None);
    assert_eq!(parse_number("100", 100), Some(100));
    assert_eq!(parse_number("101", 100), None);
    assert_eq!(parse_number("5", 3), None);
    assert_eq!(parse_number("0", 0), Some(0));
}

#[test]
fn text_helpers() {
    assert_eq!(string_of(&chars_of("h\u{e9}llo")), "h\u{e9}llo");
    assert_eq!(chars_of("ab").len(), 2);
    assert_eq!(string_of(&trim(&chars_of(" \t a b \n"))), "a b");
    assert_eq!(string_of(&trim(&chars_of("   "))), "");
    assert_eq!(string_of(&trim(&chars_of("x"))), "x");
    assert_eq!(join(&strings(&[]), ", "), "");
    assert_eq!(join(&strings(&["a"]), ", "), "a");
    assert_eq!(join(&strings(&["a", "", "c"]), ", "), "a, , c");
    let words: Vec<String> =
        split_words(&chars_of("  one two\t\tthree\nfour ")).iter().map(string_of).collect();
    assert_eq!(words, strings(&["one", "two", "three", "four"]));
    assert!(split_words(&chars_of(" \t ")).is_empty());
    assert!(split_words(&chars_of("")).is_empty());
    for s in ["a b", " a", "a ", "", "abc", "a  b   c", "\u{2003}x\u{a0}y"] {
        let expected: Vec<String> = s.split_whitespace().map(|w| w.to_string()).collect();
        let got: Vec<String> = split_words(&chars_of(s)).iter().map(string_of).collect();
        assert_eq!(got, expected, "{:?}", s);
    }
    for (s, needle) in [("a - b - c", " - "), ("abc", " - "), (" - x", " - "), ("", "x"), ("aaa", "aa"), ("xay", "")] {
        let expected = s.split(needle).next().unwrap().to_string();
        assert_eq!(string_of(&take_before(&chars_of(s), &chars_of(needle))), expected, "{:?}", s);
    }
}

#[test]
fn last_component_of_a_path() {
    assert_eq!(extension("a/b/c.tar.gz"), Some("gz".to_string()));
    assert_eq!(extension("a/b.d/c"), None);
    assert_eq!(extension(".hidden"), None);
    assert_eq!(extension(".hidden.txt"), Some("txt".to_string()));
    assert_eq!(extension("dot."), Some("".to_string()));
    assert_eq!(extension("a/b.mp3/"), Some("mp3".to_string()));
    assert_eq!(extension(""), None);
    assert_eq!(extension(".."), None);
    assert_eq!(file_stem("a/b/c.tar.gz"), Some("c.tar".to_string()));
    assert_eq!(file_stem(".hidden"), Some(".hidden".to_string()));
    assert_eq!(file_stem("plain"), Some("plain".to_string()));
    assert_eq!(file_stem("/"), None);
    for p in ["a/b/c.tar.gz", "x", ".x", "x.", "a.b/c", "..", "", "/", "a/..", "a/.", "./a.b"] {
        let path = std::path::Path::new(p);
        assert_eq!(extension(p), path.extension().map(|e| e.to_str().unwrap().to_string()), "{:?}", p);
        assert_eq!(file_stem(p), path.file_stem().map(|e| e.to_str().unwrap().to_string()), "{:?}", p);
    }
    assert_eq!(extension_of_name("01 Mr. X.flac"), Some("flac".to_string()));
    assert_eq!(extension_of_name(".profile"), None);
    assert_eq!(extension_of_name("a..b"), Some("b".to_string()));
    assert_eq!(stem("01 Mr. X.flac"), "01 Mr. X");
    assert_eq!(stem("none"), "none");
    assert_eq!(join_path("/a", "b"), "/a/b");
}

#[test]
fn files_of_a_scan() {
    let files = strings(&["/m/a.mp3", "/m/b.txt", "/m/c.FLAC", "/m/d", "/m/e.jpg", "/m/f.opus"]);
    let tracks = get_all_track_paths(&files);
    assert_eq!(tracks, strings(&["/m/a.mp3", "/m/c.FLAC", "/m/f.opus"]));
    let scan = scan_directory_for_audio_files(&files);
    assert_eq!(scan.audio_files, tracks);
    assert_eq!(scan.files_scanned, 6);
    assert_eq!(scan.files_skipped, 3);
    let none = scan_directory_for_audio_files(&vec![]);
    assert_eq!((none.audio_files.len(), none.files_scanned, none.files_skipped), (0, 0, 0));
    assert_eq!(get_all_folder_paths(&files), files);
}

#[test]
fn the_search_query_names_release_and_artist() {
    let step = lookup_musicbrainz_release("Artist", "Album", &ReleaseLookupEvent::Begin);
    assert_eq!(step.messages, strings(&["Looking up MusicBrainz release: Artist - Album"]));
    match step.action {
        ReleaseLookupAction::Search { query } => assert_eq!(query, "release:Album AND artist:Artist"),
        other => panic!("{:?}", other),
    }
    let step = lookup_musicbrainz_release("Two Words", "A B C", &ReleaseLookupEvent::Begin);
    match step.action {
        ReleaseLookupAction::Search { query } => {
            assert_eq!(query, "release:\"A B C\" AND artist:\"Two Words\"")
        }
        other => panic!("{:?}", other),
    }
    let step = lookup_musicbrainz_release("", "tab\there", &ReleaseLookupEvent::Begin);
    match step.action {
        ReleaseLookupAction::Search { query } => assert_eq!(query, "release:tab\there AND artist:"),
        other => panic!("{:?}", other),
    }
}

#[test]
fn what_a_search_comes_to() {
    let found = ReleaseSummary {
        id: "id-1".to_string(),
        title: "Real Album".to_string(),
        artist_credit: Some(strings(&["X", "Y"])),
    };
    let step = lookup_musicbrainz_release(
        "a",
        "b",
        &ReleaseLookupEvent::Searched(SearchOutcome::Found(found)),
    );
    assert_eq!(step.messages, strings(&["Found MusicBrainz release: X & Y - Real Album (id-1)"]));
    match step.action {
        ReleaseLookupAction::Finish(ReleaseMatch::Found { artist, title, id }) => {
            assert_eq!((artist.as_str(), title.as_str(), id.as_str()), ("X & Y", "Real Album", "id-1"))
        }
        other => panic!("{:?}", other),
    }
    let uncredited =
        ReleaseSummary { id: "i".to_string(), title: "t".to_string(), artist_credit: None };
    let step = lookup_musicbrainz_release(
        "asked",
        "b",
        &ReleaseLookupEvent::Searched(SearchOutcome::Found(uncredited)),
    );
    assert!(matches!(
        step.action,
        ReleaseLookupAction::Finish(ReleaseMatch::Found { ref artist, .. }) if artist == "asked"
    ));
    let step =
        lookup_musicbrainz_release("a", "b", &ReleaseLookupEvent::Searched(SearchOutcome::NoMatch));
    assert_eq!(step.messages, strings(&["No MusicBrainz release found for a - b"]));
    assert!(matches!(step.action, ReleaseLookupAction::Finish(ReleaseMatch::NotFound)));
    let step = lookup_musicbrainz_release(
        "a",
        "b",
        &ReleaseLookupEvent::Searched(SearchOutcome::Failed("503".to_string())),
    );
    assert!(step.messages.is_empty());
    assert!(matches!(
        step.action,
        ReleaseLookupAction::Finish(ReleaseMatch::Failed { ref reason })
            if reason == "MusicBrainz search failed: 503"
    ));
}

#[test]
fn metadata_after_a_lookup() {
    assert!(wants_enhancement("A", "B"));
    assert!(!wants_enhancement("Unknown Artist", "B"));
    assert!(!wants_enhancement("A", "Unknown Album"));
    assert!(wants_enhancement("", ""));
    let found = ReleaseMatch::Found {
        artist: "Better".to_string(),
        title: "Record".to_string(),
        id: "mbid".to_string(),
    };
    let r = extract_and_enhance_metadata("/f.mp3", "A", "B", Some(&found));
    assert_eq!((r.artist.as_str(), r.album.as_str()), ("Better", "Record"));
    assert_eq!(r.release_id.as_deref(), Some("mbid"));
    assert_eq!(
        r.messages,
        strings(&["Enhanced metadata for /f.mp3: 'A' -> 'Better' / 'B' -> 'Record'"])
    );
    let r = extract_and_enhance_metadata("/f.mp3", "A", "B", Some(&ReleaseMatch::NotFound));
    assert_eq!((r.artist.as_str(), r.album.as_str(), r.release_id), ("A", "B", None));
    assert_eq!(
        r.messages,
        strings(&["No MusicBrainz match found for A - B (using original metadata)"])
    );
    let failed = ReleaseMatch::Failed { reason: "x".to_string() };
    let r = extract_and_enhance_metadata("/f.mp3", "A", "B", Some(&failed));
    assert_eq!((r.artist.as_str(), r.album.as_str(), r.release_id), ("A", "B", None));
    assert!(r.messages.is_empty());
    let r = extract_and_enhance_metadata("/f.mp3", "A", "B", None);
    assert!(r.messages.is_empty() && r.release_id.is_none());
    assert_eq!(user_agent(), "mfutil/0.1.1 (https://github.com/anoraktrend/music-folder-utils)");
}

#[test]
fn reports_on_tagged_files_are_sent() {
    let (tx, rx) = mpsc::channel::<String>();
    update_musicbrainz_release_id("/m/a.mp3", &Ok(()), &tx).unwrap();
    process_music_file_with_musicbrainz("/m/b.mp3", &Err("locked".to_string()), &tx).unwrap();
    drop(tx);
    let lines: Vec<String> = rx.iter().collect();
    assert_eq!(
        lines,
        strings(&[
            "COMPLETED: /m/a.mp3 - MusicBrainz ID updated",
            "COMPLETED: /m/b.mp3 - Failed to save MusicBrainz ID: locked",
        ])
    );
    let (tx, rx) = mpsc::channel::<String>();
    drop(rx);
    let lost = update_musicbrainz_release_id("/m/a.mp3", &Ok(()), &tx).unwrap_err();
    assert_eq!(lost.undelivered, "COMPLETED: /m/a.mp3 - MusicBrainz ID updated");
    assert!(lost.message.starts_with("Failed to send progress message: "));
    let lost = process_music_file_with_musicbrainz("/m/b.mp3", &Err("locked".to_string()), &tx)
        .unwrap_err();
    assert_eq!(lost.undelivered, "COMPLETED: /m/b.mp3 - Failed to save MusicBrainz ID: locked");
}

#[test]
fn addresses_and_answers_of_the_image_services() {
    assert_eq!(
        artist_search_url("KEY", "Sigur R\u{f3}s"),
        "https://www.theaudiodb.com/api/v1/json/KEY/search.php?s=Sigur%20R%C3%B3s"
    );
    assert_eq!(
        placeholder_search_url("Music Artists", "Artists"),
        "https://api.pexels.com/v1/search?query=Music%20Artists%20Artists&per_page=1"
    );
    let answer = object(vec![(
        "artists",
        Json::Array(vec![object(vec![("strArtistThumb", text("https://a/b.jpg"))])]),
    )]);
    assert_eq!(artist_thumbnail(&answer), Some("https://a/b.jpg".to_string()));
    assert_eq!(artist_thumbnail(&object(vec![("artists", Json::Null)])), None);
    assert_eq!(artist_thumbnail(&object(vec![("artists", Json::Array(vec![]))])), None);
    assert_eq!(
        artist_thumbnail(&object(vec![(
            "artists",
            Json::Array(vec![object(vec![("strArtistThumb", Json::Null)])])
        )])),
        None
    );
    let photos = object(vec![(
        "photos",
        Json::Array(vec![
            object(vec![("src", object(vec![("large", text("https://p/1.jpg"))]))]),
            object(vec![("src", object(vec![("large", text("https://p/2.jpg"))]))]),
        ]),
    )]);
    assert_eq!(first_photo_url(&photos), Some("https://p/1.jpg".to_string()));
    assert_eq!(first_photo_url(&object(vec![("photos", Json::Array(vec![]))])), None);
    assert_eq!(first_photo_url(&Json::Bool(true)), None);
    assert_eq!(folder_icon_uri("/m/a/.folder.jpg"), "file:///m/a/.folder.jpg");
    assert_eq!(placeholder_search_name(Some("Tagged"), "Dir"), "Tagged");
    assert_eq!(placeholder_search_name(None, "Dir"), "Dir");
    assert!(may_carry_cover(Some("mp3")) && may_carry_cover(Some("flac")) && may_carry_cover(Some("m4a")));
    assert!(!may_carry_cover(Some("MP3")) && !may_carry_cover(Some("ogg")) && !may_carry_cover(None));
}

#[test]
fn test_extract_album_artist_from_directory_empty_dir() {
    // A directory whose music names nobody gives no album artist.
    let nothing = FileTags { album_artist: None, track_artist: None, album_title: None };
    let result = extract_album_artist_from_directory(&nothing);
    assert_eq!(result, None);
}

#[test]
fn album_artist_comes_before_track_artist() {
    let both = FileTags {
        album_artist: Some("AA".to_string()),
        track_artist: Some("TA".to_string()),
        album_title: None,
    };
    assert_eq!(extract_album_artist_from_directory(&both), Some("AA".to_string()));
    let track = FileTags { album_artist: None, track_artist: Some("TA".to_string()), album_title: None };
    assert_eq!(extract_album_artist_from_directory(&track), Some("TA".to_string()));
}

#[test]
fn the_square_is_cut_from_the_middle() {
    assert_eq!(crop_image_to_square(100, 100), SquareCrop { size: 100, x: 0, y: 0 });
    assert_eq!(crop_image_to_square(300, 100), SquareCrop { size: 100, x: 100, y: 0 });
    assert_eq!(crop_image_to_square(100, 301), SquareCrop { size: 100, x: 0, y: 100 });
    assert_eq!(crop_image_to_square(0, 7), SquareCrop { size: 0, x: 0, y: 3 });
    assert_eq!(crop_image_to_square(usize::MAX, 1), SquareCrop { size: 1, x: (usize::MAX - 1) / 2, y: 0 });
}

#[test]
fn links_of_albums_and_tracks() {
    let plan = process_single_album_symlink("/m/Artists/TestArtist/TestAlbum", "/m").unwrap();
    assert_eq!(plan.directory, "/m/Albums");
    assert_eq!(plan.link, "/m/Albums/TestArtist - TestAlbum");
    assert_eq!(plan.target, "/m/Artists/TestArtist/TestAlbum");
    assert_eq!(
        process_single_album_symlink("/elsewhere/A/B", "/m").unwrap_err(),
        LinkError::OutsideArtists
    );
    assert_eq!(
        process_single_album_symlink("/m/Artists/A", "/m").unwrap_err(),
        LinkError::WrongDepth
    );
    assert_eq!(
        process_single_album_symlink("/m/Artists/A/B/C", "/m").unwrap_err(),
        LinkError::WrongDepth
    );
    assert_eq!(
        process_single_album_symlink("/m/Artists", "/m").unwrap_err(),
        LinkError::WrongDepth
    );
    assert_eq!(
        process_single_album_symlink("/m/ArtistsX/A/B", "/m").unwrap_err(),
        LinkError::OutsideArtists
    );
    let plan = process_single_track_symlink("/m/Artists/A/B/01 song.mp3", "/m").unwrap();
    assert_eq!(plan.directory, "/m/Tracks");
    assert_eq!(plan.link, "/m/Tracks/01 song.mp3");
    assert_eq!(plan.target, "/m/Artists/A/B/01 song.mp3");
    assert_eq!(process_single_track_symlink("/", "/m").unwrap_err(), LinkError::NoName);
    assert_eq!(existing_link_action(false, false, false), LinkAction::Create);
    assert_eq!(existing_link_action(false, true, true), LinkAction::Create);
    assert_eq!(existing_link_action(true, true, true), LinkAction::Keep);
    assert_eq!(existing_link_action(true, true, false), LinkAction::Replace);
    assert_eq!(existing_link_action(true, false, true), LinkAction::Replace);
}

#[test]
fn the_display_counts_what_it_is_sent() {
    let mut state = TuiState::new();
    state.receive("Syncing".to_string());
    assert_eq!((state.total_files, state.completed_files, state.last_message.as_str()), (0, 0, "Syncing"));
    state.receive("TOTAL_FILES:12".to_string());
    assert_eq!((state.total_files, state.completed_files, state.last_message.as_str()), (12, 0, "Syncing"));
    state.receive("COMPLETED: one".to_string());
    state.receive("COMPLETED:two".to_string());
    assert_eq!((state.total_files, state.completed_files, state.last_message.as_str()), (12, 2, "COMPLETED:two"));
    state.receive("TOTAL_FILES:x".to_string());
    assert_eq!((state.total_files, state.last_message.as_str()), (12, "COMPLETED:two"));
    state.receive("TOTAL_FILES: 5".to_string());
    assert_eq!(state.total_files, 12);
    state.receive("ERROR: bad".to_string());
    state.receive(" COMPLETED: no".to_string());
    state.receive("TOTAL_FILES".to_string());
    assert_eq!((state.total_files, state.completed_files, state.last_message.as_str()), (12, 2, "TOTAL_FILES"));
    state.receive("TOTAL_FILES:0".to_string());
    assert_eq!(state.total_files, 0);
}

#[test]
fn steps_of_a_full_run() {
    let all = vec![
        Step::SyncTags,
        Step::ArtistArt,
        Step::FolderIcons,
        Step::AlbumArt,
        Step::AlbumSymlinks,
        Step::TrackSymlinks,
        Step::Organize,
    ];
    assert_eq!(steps_to_run(&vec![]), all);
    assert_eq!(steps_to_run(&strings(&["nothing", ""])), all);
    assert_eq!(
        steps_to_run(&strings(&["ART"])),
        vec![Step::SyncTags, Step::AlbumSymlinks, Step::TrackSymlinks, Step::Organize]
    );
    assert_eq!(
        steps_to_run(&strings(&["icons", "Sync"])),
        vec![Step::ArtistArt, Step::AlbumArt, Step::AlbumSymlinks, Step::TrackSymlinks, Step::Organize]
    );
    assert_eq!(
        steps_to_run(&strings(&["albums", "tracks", "organize", "sync", "art", "icons"])),
        vec![]
    );
    assert_eq!(steps_to_run(&strings(&["reorganize", "import"])), all);
}
