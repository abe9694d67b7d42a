use mfutil::progress::{
    delivery_result, send_custom_message, send_progress_message,
    send_progress_message_with_context, send_scan_complete, send_total_files,
    ImportProgressMessage, ProgressMessage,
};
use std::sync::mpsc;

#[test]
fn test_progress_message_formatting() {
    let scan_msg = ProgressMessage::ScanComplete {
        files_scanned: 100,
        audio_files_found: 80,
        files_skipped: 20,
    };
    assert_eq!(
        scan_msg.format(),
        "COMPLETED: Scanned 100 files (80 audio files found, 20 skipped)"
    );

    let total_msg = ProgressMessage::TotalFiles { count: 50 };
    assert_eq!(total_msg.format(), "TOTAL_FILES:50");

    let grouping_msg = ProgressMessage::GroupingComplete {
        audio_files_count: 80,
        album_groups_count: 5,
    };
    assert_eq!(
        grouping_msg.format(),
        "COMPLETED: Grouped 80 audio files into 5 album groups"
    );

    let musicbrainz_msg = ProgressMessage::MusicBrainzSearchComplete {
        artist: "Test Artist".to_string(),
        album: "Test Album".to_string(),
        success: true,
    };
    assert_eq!(
        musicbrainz_msg.format(),
        "COMPLETED: MusicBrainz search for Test Artist - Test Album"
    );

    let processing_msg = ProgressMessage::ProcessingGroup {
        artist: "Test Artist".to_string(),
        album: "Test Album".to_string(),
    };
    assert_eq!(
        processing_msg.format(),
        "Processing group: Test Artist - Test Album"
    );

    let completion_msg = ProgressMessage::AlbumProcessingComplete {
        artist: "Test Artist".to_string(),
        album: "Test Album".to_string(),
        files_processed: 10,
    };
    assert_eq!(
        completion_msg.format(),
        "COMPLETED: Finished processing Test Artist - Test Album (10 files processed)"
    );

    let skipped_msg = ProgressMessage::AlbumSkipped {
        artist: "Test Artist".to_string(),
        album: "Test Album".to_string(),
    };
    assert_eq!(
        skipped_msg.format(),
        "COMPLETED: Skipped Test Artist - Test Album (no MusicBrainz match found)"
    );

    let final_msg = ProgressMessage::FinalComplete {
        folder_name: "Test Album".to_string(),
    };
    assert_eq!(
        final_msg.format(),
        "Successfully synchronized all files in Test Album"
    );

    let custom_msg = ProgressMessage::Custom {
        message: "Custom message".to_string(),
    };
    assert_eq!(custom_msg.format(), "Custom message");
}

#[test]
fn failed_search_is_marked() {
    let msg = ProgressMessage::MusicBrainzSearchComplete {
        artist: "A".to_string(),
        album: "B".to_string(),
        success: false,
    };
    assert_eq!(msg.format(), "COMPLETED: MusicBrainz search for A - B (failed)");
}

#[test]
fn numbers_are_written_in_decimal() {
    assert_eq!(ProgressMessage::TotalFiles { count: 0 }.format(), "TOTAL_FILES:0");
    assert_eq!(ProgressMessage::TotalFiles { count: 9 }.format(), "TOTAL_FILES:9");
    assert_eq!(ProgressMessage::TotalFiles { count: 10 }.format(), "TOTAL_FILES:10");
    assert_eq!(
        ProgressMessage::TotalFiles { count: 1234567890 }.format(),
        "TOTAL_FILES:1234567890"
    );
    assert_eq!(
        ProgressMessage::TotalFiles { count: usize::MAX }.format(),
        format!("TOTAL_FILES:{}", usize::MAX)
    );
}

#[test]
fn sent_lines_arrive_in_order() {
    let (tx, rx) = mpsc::channel::<String>();
    send_total_files(&tx, 3).unwrap();
    send_scan_complete(&tx, 5, 3, 2).unwrap();
    send_custom_message(&tx, "hello").unwrap();
    send_progress_message(&tx, ProgressMessage::FinalComplete { folder_name: "X".to_string() })
        .unwrap();
    drop(tx);
    let lines: Vec<String> = rx.iter().collect();
    assert_eq!(
        lines,
        vec![
            "TOTAL_FILES:3".to_string(),
            "COMPLETED: Scanned 5 files (3 audio files found, 2 skipped)".to_string(),
            "hello".to_string(),
            "Successfully synchronized all files in X".to_string(),
        ]
    );
}

#[test]
fn a_closed_channel_is_a_delivery_failure() {
    let (tx, rx) = mpsc::channel::<String>();
    drop(rx);
    let plain = send_total_files(&tx, 1).unwrap_err();
    assert!(plain.message.starts_with("Failed to send progress message: "));
    assert_eq!(plain.undelivered, "TOTAL_FILES:1");
    let with_context = send_progress_message_with_context(
        &tx,
        ProgressMessage::TotalFiles { count: 1 },
        "while scanning",
    )
    .unwrap_err();
    assert!(with_context
        .message
        .starts_with("Failed to send progress message: while scanning - "));
    assert_eq!(with_context.undelivered, "TOTAL_FILES:1");
}

#[test]
fn delivery_result_names_context_and_cause() {
    assert!(delivery_result(Ok(()), None).is_ok());
    assert!(delivery_result(Ok(()), Some("ctx")).is_ok());
    let failed = delivery_result(Err(("gone".to_string(), "the line".to_string())), None)
        .unwrap_err();
    assert_eq!(failed.message, "Failed to send progress message: gone");
    assert_eq!(failed.undelivered, "the line");
    let failed = delivery_result(Err(("gone".to_string(), "the line".to_string())), Some("ctx"))
        .unwrap_err();
    assert_eq!(failed.message, "Failed to send progress message: ctx - gone");
    assert_eq!(failed.undelivered, "the line");
}

#[test]
fn import_messages_carry_their_tags() {
    assert_eq!(ImportProgressMessage::info("plain").format(), "plain");
    assert_eq!(ImportProgressMessage::TotalTracks { count: 2 }.format(), "TOTAL_FILES:2");
    assert_eq!(
        ImportProgressMessage::TrackStarted { number: 1, title: "Intro".to_string() }.format(),
        "Importing track: Intro"
    );
    assert_eq!(
        ImportProgressMessage::SectorProgress { track: 3, percent: 50, sectors_read: 200 }.format(),
        "PROGRESS: Reading track 3: 50% complete (200 sectors)"
    );
    assert_eq!(
        ImportProgressMessage::TrackCompleted { number: 2, title: "Outro".to_string() }.format(),
        "COMPLETED: Imported track 2: Outro"
    );
    assert_eq!(
        ImportProgressMessage::TrackError {
            number: 2,
            title: "Outro".to_string(),
            reason: "timeout".to_string()
        }
        .format(),
        "ERROR: Failed to import track Outro: timeout"
    );
    assert_eq!(
        ImportProgressMessage::ImportFinished {
            artist: "Test Artist".to_string(),
            title: "Test Album".to_string()
        }
        .format(),
        "Successfully imported CD: Test Artist - Test Album"
    );
}

#[test]
fn an_undelivered_line_is_the_line_of_the_message() {
    let (tx, rx) = mpsc::channel::<String>();
    drop(rx);
    let lost = |r: Result<(), mfutil::progress::ProgressError>| r.unwrap_err().undelivered;
    assert_eq!(
        lost(send_scan_complete(&tx, 5, 3, 2)),
        "COMPLETED: Scanned 5 files (3 audio files found, 2 skipped)"
    );
    assert_eq!(lost(send_total_files(&tx, 42)), "TOTAL_FILES:42");
    assert_eq!(
        lost(mfutil::progress::send_grouping_complete(&tx, 8, 2)),
        "COMPLETED: Grouped 8 audio files into 2 album groups"
    );
    assert_eq!(
        lost(mfutil::progress::send_musicbrainz_search_complete(&tx, "A", "B", true)),
        "COMPLETED: MusicBrainz search for A - B"
    );
    assert_eq!(
        lost(mfutil::progress::send_musicbrainz_search_complete(&tx, "A", "B", false)),
        "COMPLETED: MusicBrainz search for A - B (failed)"
    );
    assert_eq!(
        lost(mfutil::progress::send_processing_group(&tx, "A", "B")),
        "Processing group: A - B"
    );
    assert_eq!(
        lost(mfutil::progress::send_album_processing_complete(&tx, "A", "B", 7)),
        "COMPLETED: Finished processing A - B (7 files processed)"
    );
    assert_eq!(
        lost(mfutil::progress::send_album_skipped(&tx, "A", "B")),
        "COMPLETED: Skipped A - B (no MusicBrainz match found)"
    );
    assert_eq!(
        lost(mfutil::progress::send_final_complete(&tx, "Folder")),
        "Successfully synchronized all files in Folder"
    );
    assert_eq!(lost(send_custom_message(&tx, "as it is")), "as it is");
    assert_eq!(
        lost(send_progress_message(&tx, ProgressMessage::TotalFiles { count: 0 })),
        "TOTAL_FILES:0"
    );
}
