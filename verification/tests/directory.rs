use mfutil::directory::{
    begin_tally, copy_file_to_album, copy_files_by_metadata, create_album_directory,
    create_album_directory_with_dry_run, group_by_album, move_file_to_album,
    organize_files_by_metadata, FileEntry, FileOperation, FileOrganizationResult, TransferKind,
    TransferOutcome,
};

fn entry(path: &str, artist: &str, album: &str) -> FileEntry {
    FileEntry { path: path.to_string(), artist: artist.to_string(), album: album.to_string() }
}

#[test]
fn test_create_album_directory() {
    let artists_path = "/tmp/t/Artists";
    let artist = "Test Artist";
    let album = "Test Album";
    let album_path = create_album_directory(artists_path, artist, album);
    assert_eq!(
        std::path::Path::new(&album_path),
        std::path::Path::new(artists_path).join(artist).join(album)
    );
    assert_eq!(album_path, "/tmp/t/Artists/Test Artist/Test Album");
}

#[test]
fn test_create_album_directory_with_dry_run() {
    let artists_path = "/tmp/t/Artists";
    let artist = "Test Artist";
    let album = "Test Album";
    // Test dry run - should not create directories
    let plan = create_album_directory_with_dry_run(artists_path, artist, album, true);
    assert!(!plan.create);
    assert_eq!(plan.path, "/tmp/t/Artists/Test Artist/Test Album");
    // Test actual creation
    let plan = create_album_directory_with_dry_run(artists_path, artist, album, false);
    assert!(plan.create);
    assert_eq!(plan.path, "/tmp/t/Artists/Test Artist/Test Album");
}

#[test]
fn test_move_file_to_album_dry_run() {
    // Test dry run - should not move file
    match move_file_to_album("/tmp/t/source.mp3", "/tmp/t/album", true) {
        FileOperation::Announce { kind: TransferKind::Move, source, album_path } => {
            assert_eq!(source, "/tmp/t/source.mp3");
            assert_eq!(album_path, "/tmp/t/album");
        }
        other => panic!("{:?}", other),
    }
}

#[test]
fn test_copy_file_to_album_dry_run() {
    // Test dry run - should not copy file
    match copy_file_to_album("/tmp/t/source.mp3", "/tmp/t/album", true) {
        FileOperation::Announce { kind: TransferKind::Copy, source, album_path } => {
            assert_eq!(source, "/tmp/t/source.mp3");
            assert_eq!(album_path, "/tmp/t/album");
        }
        other => panic!("{:?}", other),
    }
}

#[test]
fn a_file_keeps_its_name_in_the_album() {
    match move_file_to_album("/in/a b.mp3", "/m/Artists/X/Y", false) {
        FileOperation::Transfer { kind: TransferKind::Move, source, destination } => {
            assert_eq!(source, "/in/a b.mp3");
            assert_eq!(destination, "/m/Artists/X/Y/a b.mp3");
        }
        other => panic!("{:?}", other),
    }
    match copy_file_to_album("rel/song.flac", "album", false) {
        FileOperation::Transfer { kind: TransferKind::Copy, destination, .. } => {
            assert_eq!(destination, "album/song.flac")
        }
        other => panic!("{:?}", other),
    }
}

#[test]
fn a_file_in_its_place_is_left_alone() {
    assert!(matches!(
        move_file_to_album("/m/Artists/X/Y/s.mp3", "/m/Artists/X/Y", false),
        FileOperation::InPlace
    ));
    assert!(matches!(
        move_file_to_album("/m/Artists/X/Y/s.mp3", "/m/Artists/X/Y", true),
        FileOperation::InPlace
    ));
}

#[test]
fn a_path_without_file_name_cannot_be_placed() {
    match move_file_to_album("/", "/album", false) {
        FileOperation::NoFileName { source } => assert_eq!(source, "/"),
        other => panic!("{:?}", other),
    }
    assert!(matches!(copy_file_to_album("a/..", "/album", true), FileOperation::NoFileName { .. }));
    assert!(matches!(copy_file_to_album("", "/album", true), FileOperation::NoFileName { .. }));
}

#[test]
fn files_are_grouped_in_order_of_first_occurrence() {
    let files = vec![
        entry("1", "A", "X"),
        entry("2", "B", "X"),
        entry("3", "A", "X"),
        entry("4", "A", "Y"),
        entry("5", "B", "X"),
        entry("6", "A", "X"),
    ];
    let groups = group_by_album(&files);
    let listed: Vec<(&str, &str, Vec<&str>)> = groups
        .iter()
        .map(|g| {
            (g.artist.as_str(), g.album.as_str(), g.files.iter().map(|f| f.as_str()).collect())
        })
        .collect();
    assert_eq!(
        listed,
        vec![
            ("A", "X", vec!["1", "3", "6"]),
            ("B", "X", vec!["2", "5"]),
            ("A", "Y", vec!["4"]),
        ]
    );
    assert!(group_by_album(&vec![]).is_empty());
}

#[test]
fn every_file_is_in_exactly_one_group() {
    let mut files = vec![];
    for i in 0..60 {
        files.push(entry(&format!("f{}", i), &format!("a{}", i % 4), &format!("b{}", i % 3)));
    }
    let groups = group_by_album(&files);
    assert_eq!(groups.len(), 12);
    assert_eq!(groups.iter().map(|g| g.files.len()).sum::<usize>(), 60);
    for g in &groups {
        for f in &g.files {
            let i: usize = f[1..].parse().unwrap();
            assert_eq!(g.artist, format!("a{}", i % 4));
            assert_eq!(g.album, format!("b{}", i % 3));
        }
    }
}

#[test]
fn plan_of_a_move() {
    let files = vec![
        entry("/in/one.mp3", "A", "X"),
        entry("/m/Artists/A/X/two.mp3", "A", "X"),
        entry("/in/three.mp3", "B", "Y"),
    ];
    let plans = organize_files_by_metadata(&files, "/m", false);
    assert_eq!(plans.len(), 2);
    assert_eq!(plans[0].directory.path, "/m/Artists/A/X");
    assert!(plans[0].directory.create);
    assert!(!plans[0].counted);
    assert_eq!(plans[0].operations.len(), 2);
    assert!(matches!(
        &plans[0].operations[0],
        FileOperation::Transfer { kind: TransferKind::Move, source, destination }
            if source == "/in/one.mp3" && destination == "/m/Artists/A/X/one.mp3"
    ));
    assert!(matches!(&plans[0].operations[1], FileOperation::InPlace));
    assert_eq!(plans[1].directory.path, "/m/Artists/B/Y");
    let tally = begin_tally(&plans);
    assert_eq!(
        tally,
        FileOrganizationResult { files_processed: 0, directories_created: 0, files_skipped: 0 }
    );
}

#[test]
fn plan_of_a_copy_in_a_dry_run_counts_its_directories() {
    let files = vec![entry("/in/one.mp3", "A", "X"), entry("/in/three.mp3", "B", "Y")];
    let plans = copy_files_by_metadata(&files, "/m", true);
    assert_eq!(plans.len(), 2);
    assert!(!plans[0].directory.create);
    assert!(plans[0].counted);
    assert!(matches!(
        &plans[0].operations[0],
        FileOperation::Announce { kind: TransferKind::Copy, .. }
    ));
    assert_eq!(begin_tally(&plans).directories_created, 2);
    let plans = copy_files_by_metadata(&files, "/m", false);
    assert!(plans[1].directory.create);
    for plan in &plans {
        for operation in &plan.operations {
            assert!(matches!(operation, FileOperation::Transfer { kind: TransferKind::Copy, .. }));
        }
    }
    assert_eq!(begin_tally(&plans).directories_created, 0);
    let plans = organize_files_by_metadata(&files, "/m", true);
    assert_eq!(begin_tally(&plans).directories_created, 0);
}

#[test]
fn the_tally_counts_what_went_through_and_what_did_not() {
    let mut tally =
        FileOrganizationResult { files_processed: 0, directories_created: 3, files_skipped: 0 };
    tally.record(true);
    tally.record(false);
    tally.record(true);
    assert_eq!(
        tally,
        FileOrganizationResult { files_processed: 2, directories_created: 3, files_skipped: 1 }
    );
    let mut full = FileOrganizationResult {
        files_processed: usize::MAX,
        directories_created: 0,
        files_skipped: usize::MAX,
    };
    full.record(true);
    full.record(false);
    assert_eq!(full.files_processed, usize::MAX);
    assert_eq!(full.files_skipped, usize::MAX);
}

#[test]
fn what_counts_as_processed() {
    let zero =
        FileOrganizationResult { files_processed: 0, directories_created: 0, files_skipped: 0 };
    let counted = |operation: &FileOperation, outcome: TransferOutcome| {
        let mut tally = zero;
        tally.record_operation(operation, outcome);
        (tally.files_processed, tally.files_skipped)
    };
    let nameless = move_file_to_album("/", "/album", false);
    let in_place = move_file_to_album("/album/a.mp3", "/album", false);
    let announced = copy_file_to_album("/in/a.mp3", "/album", true);
    let transfer = copy_file_to_album("/in/a.mp3", "/album", false);
    for outcome in [TransferOutcome::Done, TransferOutcome::DestinationExists, TransferOutcome::Failed] {
        assert_eq!(counted(&nameless, outcome), (0, 1));
        assert_eq!(counted(&in_place, outcome), (1, 0));
        assert_eq!(counted(&announced, outcome), (1, 0));
    }
    assert_eq!(counted(&transfer, TransferOutcome::Done), (1, 0));
    assert_eq!(counted(&transfer, TransferOutcome::DestinationExists), (1, 0));
    assert_eq!(counted(&transfer, TransferOutcome::Failed), (0, 1));
}
