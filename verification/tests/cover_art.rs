use mfutil::cover_art::{
    fetch_audiodb_cover_art, fetch_musicbrainz_cover_art, save_cover_art_to_album, thumbnail_url,
    ArtAction, ArtEvent, ArtSource, ImageReply, SaveArtAction, SaveArtEvent, SaveArtStage,
    SearchReply, ThumbnailMiss,
};
use mfutil::json::Json;

fn text(s: &str) -> Json {
    Json::Text(s.to_string())
}

fn object(members: Vec<(&str, Json)>) -> Json {
    Json::Object(members.into_iter().map(|(k, v)| (k.to_string(), v)).collect())
}

fn albums(first: Json) -> Json {
    object(vec![("album", Json::Array(vec![first]))])
}

#[test]
fn test_fetch_cover_art_integration() {
    // Both sources can be begun with the names of a release and of an album, and
    // ask for the address that belongs to them.
    let result1 = fetch_musicbrainz_cover_art("test_release_id", ArtEvent::Begin);
    let result2 = fetch_audiodb_cover_art("Test Artist", "Test Album", ArtEvent::Begin);
    match result1.action {
        ArtAction::FetchImage { url } => {
            assert_eq!(url, "https://coverartarchive.org/release/test_release_id/front")
        }
        other => panic!("{:?}", other),
    }
    match result2.action {
        ArtAction::FetchSearch { url } => assert_eq!(
            url,
            "https://www.theaudiodb.com/api/v1/json/2/searchalbum.php?s=Test%20Artist&a=Test%20Album"
        ),
        other => panic!("{:?}", other),
    }
    assert_eq!(
        result1.messages,
        vec!["Fetching cover art from MusicBrainz for release: test_release_id".to_string()]
    );
    assert_eq!(
        result2.messages,
        vec!["Trying AudioDB for cover art: Test Artist - Test Album".to_string()]
    );
}

fn search_url(artist: &str, album: &str) -> String {
    match fetch_audiodb_cover_art(artist, album, ArtEvent::Begin).action {
        ArtAction::FetchSearch { url } => url,
        other => panic!("{:?}", other),
    }
}

#[test]
fn names_are_percent_encoded_byte_by_byte() {
    let base = "https://www.theaudiodb.com/api/v1/json/2/searchalbum.php?s=";
    assert_eq!(search_url("abcXYZ019-._~", ""), format!("{}abcXYZ019-._~&a=", base));
    assert_eq!(search_url("AC/DC", "Back in Black"), format!("{}AC%2FDC&a=Back%20in%20Black", base));
    assert_eq!(search_url("Bj\u{f6}rk", "a+b&c=d"), format!("{}Bj%C3%B6rk&a=a%2Bb%26c%3Dd", base));
    assert_eq!(search_url("\u{65e5}", "%"), format!("{}%E6%97%A5&a=%25", base));
    assert_eq!(search_url("\u{0}\u{7f}", " "), format!("{}%00%7F&a=%20", base));
}

#[test]
fn archive_answers() {
    let step =
        fetch_musicbrainz_cover_art("r", ArtEvent::Image(ImageReply::Bytes(vec![1, 2, 3])));
    assert_eq!(step.messages, vec!["Successfully fetched cover art from MusicBrainz".to_string()]);
    assert!(matches!(step.action, ArtAction::Done { image: Some(ref b) } if b == &vec![1, 2, 3]));

    let step = fetch_musicbrainz_cover_art(
        "r",
        ArtEvent::Image(ImageReply::Status("404 Not Found".to_string())),
    );
    assert_eq!(
        step.messages,
        vec!["Cover art not available from MusicBrainz (status: 404 Not Found)".to_string()]
    );
    assert!(matches!(step.action, ArtAction::Done { image: None }));

    let step = fetch_musicbrainz_cover_art(
        "r",
        ArtEvent::Image(ImageReply::Unreadable("reset".to_string())),
    );
    assert_eq!(step.messages, vec!["Failed to read cover art data: reset".to_string()]);
    assert!(matches!(step.action, ArtAction::Done { image: None }));

    let step =
        fetch_musicbrainz_cover_art("r", ArtEvent::Image(ImageReply::Failed("dns".to_string())));
    assert_eq!(step.messages, vec!["Failed to fetch cover art from MusicBrainz: dns".to_string()]);
    assert!(matches!(step.action, ArtAction::Done { image: None }));

    let step = fetch_musicbrainz_cover_art(
        "r",
        ArtEvent::Search(SearchReply::Failed("not asked".to_string())),
    );
    assert!(step.messages.is_empty());
    assert!(matches!(step.action, ArtAction::Done { image: None }));
}

#[test]
fn thumbnail_is_read_out_of_the_answer() {
    let url = thumbnail_url(&albums(object(vec![("strAlbumThumb", text("https://x/y.jpg"))])));
    assert_eq!(url, Ok("https://x/y.jpg".to_string()));
}

#[test]
fn every_way_to_miss_the_thumbnail() {
    assert_eq!(thumbnail_url(&object(vec![])), Err(ThumbnailMiss::NoAlbumData));
    assert_eq!(thumbnail_url(&Json::Array(vec![])), Err(ThumbnailMiss::NoAlbumData));
    assert_eq!(
        thumbnail_url(&object(vec![("album", Json::Null)])),
        Err(ThumbnailMiss::InvalidFormat)
    );
    assert_eq!(
        thumbnail_url(&object(vec![("album", Json::Array(vec![]))])),
        Err(ThumbnailMiss::NoAlbums)
    );
    assert_eq!(thumbnail_url(&albums(object(vec![]))), Err(ThumbnailMiss::NoCoverArt));
    assert_eq!(
        thumbnail_url(&albums(object(vec![("strAlbumThumb", Json::Null)]))),
        Err(ThumbnailMiss::NoUrl)
    );
    assert_eq!(
        thumbnail_url(&albums(object(vec![("strAlbumThumb", text(""))]))),
        Err(ThumbnailMiss::NoUrl)
    );
    assert_eq!(
        thumbnail_url(&albums(object(vec![("strAlbumThumb", text("null"))]))),
        Err(ThumbnailMiss::NoUrl)
    );
    assert_eq!(ThumbnailMiss::NoAlbumData.message(), "No album data in AudioDB response");
    assert_eq!(ThumbnailMiss::InvalidFormat.message(), "Invalid AudioDB response format");
    assert_eq!(ThumbnailMiss::NoAlbums.message(), "No albums found in AudioDB response");
    assert_eq!(ThumbnailMiss::NoCoverArt.message(), "No cover art found in AudioDB response");
    assert_eq!(ThumbnailMiss::NoUrl.message(), "No cover art URL found in AudioDB response");
}

#[test]
fn album_database_answers() {
    let found = albums(object(vec![("strAlbumThumb", text("https://x/y.jpg"))]));
    let step =
        fetch_audiodb_cover_art("a", "b", ArtEvent::Search(SearchReply::Document(found)));
    assert!(step.messages.is_empty());
    assert!(matches!(step.action, ArtAction::FetchImage { ref url } if url == "https://x/y.jpg"));

    let step = fetch_audiodb_cover_art(
        "a",
        "b",
        ArtEvent::Search(SearchReply::Document(object(vec![]))),
    );
    assert_eq!(step.messages, vec!["No album data in AudioDB response".to_string()]);
    assert!(matches!(step.action, ArtAction::Done { image: None }));

    let step = fetch_audiodb_cover_art(
        "a",
        "b",
        ArtEvent::Search(SearchReply::Unparsable("eof".to_string())),
    );
    assert_eq!(step.messages, vec!["Failed to parse AudioDB response: eof".to_string()]);

    let step = fetch_audiodb_cover_art(
        "a",
        "b",
        ArtEvent::Search(SearchReply::Status("500".to_string())),
    );
    assert_eq!(step.messages, vec!["AudioDB request failed (status: 500)".to_string()]);

    let step = fetch_audiodb_cover_art(
        "a",
        "b",
        ArtEvent::Search(SearchReply::Failed("dns".to_string())),
    );
    assert_eq!(step.messages, vec!["Failed to fetch from AudioDB: dns".to_string()]);

    let step = fetch_audiodb_cover_art("a", "b", ArtEvent::Image(ImageReply::Bytes(vec![9])));
    assert_eq!(step.messages, vec!["Successfully fetched cover art from AudioDB".to_string()]);
    assert!(matches!(step.action, ArtAction::Done { image: Some(ref b) } if b == &vec![9]));

    let step = fetch_audiodb_cover_art(
        "a",
        "b",
        ArtEvent::Image(ImageReply::Unreadable("cut".to_string())),
    );
    assert_eq!(step.messages, vec!["Failed to download AudioDB cover art: cut".to_string()]);

    let step = fetch_audiodb_cover_art(
        "a",
        "b",
        ArtEvent::Image(ImageReply::Status("403".to_string())),
    );
    assert_eq!(step.messages, vec!["AudioDB cover art download failed".to_string()]);

    let step =
        fetch_audiodb_cover_art("a", "b", ArtEvent::Image(ImageReply::Failed("tls".to_string())));
    assert_eq!(step.messages, vec!["Failed to fetch from AudioDB URL: tls".to_string()]);
    assert!(matches!(step.action, ArtAction::Done { image: None }));
}

#[test]
fn cover_is_saved_from_the_archive_first() {
    let step = save_cover_art_to_album("/m/a/b", SaveArtStage::Archive, SaveArtEvent::Begin);
    assert!(matches!(step.action, SaveArtAction::Fetch { source: ArtSource::Archive }));
    let step = save_cover_art_to_album(
        "/m/a/b",
        step.stage,
        SaveArtEvent::Fetched { image: Some(vec![1]) },
    );
    match &step.action {
        SaveArtAction::Write { path, image } => {
            assert_eq!(path, "/m/a/b/cover.jpg");
            assert_eq!(image, &vec![1]);
        }
        other => panic!("{:?}", other),
    }
    let step = save_cover_art_to_album("/m/a/b", step.stage, SaveArtEvent::Written { ok: true });
    assert!(matches!(step.action, SaveArtAction::Done));
    assert_eq!(
        step.messages,
        vec!["Saved MusicBrainz cover art to: /m/a/b/cover.jpg".to_string()]
    );
}

#[test]
fn album_database_is_the_fallback_for_saving() {
    let step = save_cover_art_to_album(
        "/d",
        SaveArtStage::Archive,
        SaveArtEvent::Fetched { image: None },
    );
    assert!(matches!(step.action, SaveArtAction::Fetch { source: ArtSource::AudioDb }));
    assert_eq!(step.stage, SaveArtStage::AudioDb { after_failed_write: false });
    let missing =
        save_cover_art_to_album("/d", step.stage, SaveArtEvent::Fetched { image: None });
    assert!(matches!(missing.action, SaveArtAction::Done));
    assert_eq!(missing.messages, vec!["No cover art found from any source".to_string()]);
    let found =
        save_cover_art_to_album("/d", step.stage, SaveArtEvent::Fetched { image: Some(vec![2]) });
    assert!(matches!(found.action, SaveArtAction::Write { .. }));
    let written = save_cover_art_to_album("/d", found.stage, SaveArtEvent::Written { ok: true });
    assert_eq!(written.messages, vec!["Saved AudioDB cover art to: /d/cover.jpg".to_string()]);
    let lost = save_cover_art_to_album("/d", found.stage, SaveArtEvent::Written { ok: false });
    assert!(lost.messages.is_empty());
    assert!(matches!(lost.action, SaveArtAction::Done));
}

#[test]
fn image_that_cannot_be_written_sends_to_the_album_database() {
    let step =
        save_cover_art_to_album("/d", SaveArtStage::Archive, SaveArtEvent::Written { ok: false });
    assert!(matches!(step.action, SaveArtAction::Fetch { source: ArtSource::AudioDb }));
    assert_eq!(step.stage, SaveArtStage::AudioDb { after_failed_write: true });
    let step = save_cover_art_to_album("/d", step.stage, SaveArtEvent::Fetched { image: None });
    assert!(step.messages.is_empty());
    assert!(matches!(step.action, SaveArtAction::Done));
}
