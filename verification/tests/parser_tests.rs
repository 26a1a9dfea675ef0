use multiyt_dlp::json::Json;
use multiyt_dlp::json::JsonNumber;
use multiyt_dlp::json::whole_part;
use multiyt_dlp::parser::classify;
use multiyt_dlp::parser::classify_marker;
use multiyt_dlp::parser::frame_of_json;
use multiyt_dlp::parser::percent_of_text;
use multiyt_dlp::parser::target_of_path;
use multiyt_dlp::parser::FileTarget;
use multiyt_dlp::parser::FileUpdate;
use multiyt_dlp::parser::LineKind;
use multiyt_dlp::parser::ParserState;
use multiyt_dlp::progress::file_name_of;
use multiyt_dlp::progress::format_eta;
use multiyt_dlp::progress::format_speed;
use multiyt_dlp::progress::percent_of;
use multiyt_dlp::progress::Phase;

fn target(file_name: &str, clean_title: &str) -> FileTarget {
    FileTarget { file_name: file_name.to_string(), clean_title: clean_title.to_string() }
}

#[test]
fn json_frame_gives_percentage_speed_eta_and_title() {
    let mut state = ParserState::new();
    let line = r#"{"downloaded_bytes": 500, "total_bytes": 1000, "speed": 5242880, "eta": 125, "filename": "Foo [abcdefghijk].f137.mp4"}"#;
    let update = state.feed_line(line, false).expect("a frame is reported");
    assert_eq!(update.percentage, 5_000);
    assert_eq!(update.speed, "5.00 MiB/s");
    assert_eq!(update.eta, "02:05");
    assert_eq!(update.filename.as_deref(), Some("Foo"));
    assert_eq!(update.phase, Phase::Downloading);
    assert_eq!(state.clean_title.as_deref(), Some("Foo"));
    assert_eq!(state.final_filename.as_deref(), Some("Foo [abcdefghijk].f137.mp4"));
    assert_eq!(state.percentage, 5_000);
}

#[test]
fn json_frame_with_a_dot_before_the_id_keeps_the_dot() {
    let mut state = ParserState::new();
    let line = r#"{"downloaded_bytes": 500, "total_bytes": 1000, "speed": 5242880, "eta": 125, "filename": "Foo. [abcdefghijk].f137.mp4"}"#;
    let update = state.feed_line(line, false).expect("a frame is reported");
    assert_eq!(update.percentage, 5_000);
    assert_eq!(update.speed, "5.00 MiB/s");
    assert_eq!(update.eta, "02:05");
    assert_eq!(update.filename.as_deref(), Some("Foo."));
}

#[test]
fn json_frame_with_a_real_speed_is_read_in_whole_bytes() {
    let mut state = ParserState::new();
    let line = r#"{"downloaded_bytes": 1, "total_bytes_estimate": 3, "speed": 1536.75}"#;
    let update = state.feed_line(line, false).expect("a frame is reported");
    assert_eq!(update.percentage, 3_333);
    assert_eq!(update.speed, "1.50 KiB/s");
    assert_eq!(update.eta, "N/A");
    assert_eq!(update.filename, None);
}

#[test]
fn json_frame_with_an_ill_typed_member_is_no_frame() {
    assert_eq!(classify(r#"{"downloaded_bytes": "many"}"#, false), LineKind::Other);
    assert_eq!(classify(r#"{"downloaded_bytes": 1.5}"#, false), LineKind::Other);
    assert_eq!(classify(r#"{"eta": -3}"#, false), LineKind::Other);
    assert_eq!(classify(r#"{"filename": 7}"#, false), LineKind::Other);
    assert_eq!(classify(r#"[1, 2, 3]"#, false), LineKind::Other);
    assert_eq!(classify("17", false), LineKind::Other);
}

#[test]
fn json_frame_without_members_is_a_frame() {
    assert_eq!(
        classify("{}", false),
        LineKind::Frame {
            downloaded: None,
            total: None,
            speed: None,
            eta: None,
            file: FileUpdate::Keep
        }
    );
    assert_eq!(
        classify(r#"{"total_bytes": null, "total_bytes_estimate": 9, "other": [1]}"#, false),
        LineKind::Frame {
            downloaded: None,
            total: Some(9),
            speed: None,
            eta: None,
            file: FileUpdate::Keep
        }
    );
}

#[test]
fn frame_of_json_reads_a_document_built_by_hand() {
    let document = Json::Object(vec![
        ("downloaded_bytes".to_string(), Json::Number(JsonNumber::Unsigned(10))),
        ("total_bytes".to_string(), Json::Number(JsonNumber::Unsigned(40))),
        ("speed".to_string(), Json::Number(JsonNumber::Signed(-4))),
        ("filename".to_string(), Json::Text("/tmp/a/b.mp4".to_string())),
    ]);
    assert_eq!(
        frame_of_json(&document, false),
        Some(LineKind::Frame {
            downloaded: Some(10),
            total: Some(40),
            speed: Some(0),
            eta: None,
            file: FileUpdate::Name(target("b.mp4", "b.mp4")),
        })
    );
    assert_eq!(frame_of_json(&Json::Array(vec![]), false), None);
    assert_eq!(frame_of_json(&Json::Null, false), None);
}

#[test]
fn frame_with_total_zero_leaves_the_percentage() {
    let mut state = ParserState::new();
    state.percentage = 1_234;
    let update = state
        .apply(LineKind::Frame {
            downloaded: Some(5),
            total: Some(0),
            speed: None,
            eta: None,
            file: FileUpdate::Keep,
        })
        .expect("a frame is reported");
    assert_eq!(update.percentage, 1_234);
    assert_eq!(update.speed, "N/A");
    assert_eq!(update.eta, "N/A");
}

#[test]
fn frame_above_the_total_counts_as_full() {
    let mut state = ParserState::new();
    let update = state
        .apply(LineKind::Frame {
            downloaded: Some(50),
            total: Some(10),
            speed: None,
            eta: None,
            file: FileUpdate::Keep,
        })
        .expect("a frame is reported");
    assert_eq!(update.percentage, 10_000);
    assert!(state.network_done);
}

#[test]
fn merger_line_latches_merging_at_full() {
    let mut state = ParserState::new();
    let update = state
        .feed_line(r#"[Merger] Merging formats into "Foo.mkv""#, false)
        .expect("a phase line is reported");
    assert_eq!(update.phase, Phase::MergingFormats);
    assert_eq!(update.phase.label(), "Merging Formats");
    assert_eq!(update.percentage, 10_000);
    assert_eq!(update.eta, "Done");
    assert_eq!(state.final_filename.as_deref(), Some("Foo.mkv"));
    assert_eq!(state.clean_title.as_deref(), Some("Foo.mkv"));
    assert!(state.network_done);
}

#[test]
fn metadata_line_latches_the_phase_against_frames() {
    let mut state = ParserState::new();
    let update = state
        .feed_line("[Metadata] Adding metadata to: /tmp/Foo.mkv", false)
        .expect("a phase line is reported");
    assert_eq!(update.phase, Phase::WritingMetadata);
    assert_eq!(update.phase.label(), "Writing Metadata");
    assert_eq!(update.percentage, 9_900);
    assert_eq!(state.final_filename.as_deref(), Some("Foo.mkv"));
    let later = state
        .feed_line(r#"{"downloaded_bytes": 10, "total_bytes": 100}"#, false)
        .expect("a frame is reported");
    assert_eq!(later.phase, Phase::WritingMetadata);
    assert_eq!(state.phase, Phase::WritingMetadata);
    assert_eq!(later.percentage, 9_900);
    assert_eq!(state.percentage, 9_900);
}

#[test]
fn every_post_processing_phase_latches() {
    for line in [
        "[Thumbnails] Converting thumbnail",
        "[EmbedThumbnail] ffmpeg: Adding thumbnail",
        r#"[Merger] Merging formats into "a.mkv""#,
        "[ExtractAudio] Destination: a.mp3",
        "[FixupM3u8] Fixing container of a.mp4",
        "[Metadata] Adding metadata to: a.mp4",
    ] {
        let mut state = ParserState::new();
        let update = state.feed_line(line, false).expect("a phase line is reported");
        assert!(update.phase != Phase::Downloading, "{}", line);
        let phase = state.phase;
        state.feed_line("{}", false).expect("a frame is reported");
        assert_eq!(state.phase, phase, "{}", line);
    }
}

#[test]
fn finished_does_not_latch() {
    let mut state = ParserState::new();
    let update = state
        .feed_line("[download] Clip.mp4 has already been downloaded", false)
        .expect("a phase line is reported");
    assert_eq!(update.phase, Phase::Finished);
    assert_eq!(update.percentage, 10_000);
    assert_eq!(update.eta, "Done");
    assert_eq!(state.final_filename.as_deref(), Some("Clip.mp4"));
    state.feed_line("{}", false).expect("a frame is reported");
    assert_eq!(state.phase, Phase::Downloading);
}

#[test]
fn phase_lines_are_classified_in_order() {
    assert_eq!(
        classify_marker("[Metadata] Adding metadata to: /tmp/Foo.mkv", false),
        LineKind::Metadata { file: FileUpdate::Name(target("Foo.mkv", "Foo.mkv")) }
    );
    assert_eq!(classify_marker("[Thumbnails] x", false), LineKind::Thumbnail);
    assert_eq!(classify_marker("[EmbedThumbnail] x", false), LineKind::Thumbnail);
    assert_eq!(
        classify_marker("[ExtractAudio] Destination: Song [abcdefghijk].mp3", false),
        LineKind::ExtractAudio {
            file: FileUpdate::Name(target("Song [abcdefghijk].mp3", "Song"))
        }
    );
    assert_eq!(classify_marker("[FixupM4a] Correcting container", false), LineKind::Fixup);
    assert_eq!(classify_marker("[Fixup] x", false), LineKind::Other);
    assert_eq!(
        classify_marker("[download] Destination: dir/Clip [abcdefghijk].f137.mp4", false),
        LineKind::Destination {
            file: FileUpdate::Name(target("Clip [abcdefghijk].f137.mp4", "Clip"))
        }
    );
    assert_eq!(
        classify_marker("[download] Clip.mp4 has already been downloaded", false),
        LineKind::AlreadyDownloaded { file: FileUpdate::Name(target("Clip.mp4", "Clip.mp4")) }
    );
    assert_eq!(classify_marker("[youtube] abc: Downloading webpage", false), LineKind::Other);
    assert_eq!(classify_marker("", false), LineKind::Other);
}

#[test]
fn phase_line_with_a_path_without_a_name_clears_the_file() {
    assert_eq!(
        classify_marker(r#"[Merger] Merging formats into "..""#, false),
        LineKind::Merger { file: FileUpdate::Clear }
    );
    let mut state = ParserState::new();
    state.final_filename = Some("old.mp4".to_string());
    state.apply(LineKind::Merger { file: FileUpdate::Clear });
    assert_eq!(state.final_filename, None);
}

#[test]
fn destination_line_sets_the_file_and_downloads() {
    let mut state = ParserState::new();
    let update = state
        .feed_line("[download] Destination: Clip [abcdefghijk].mp4", false)
        .expect("a destination is reported");
    assert_eq!(update.phase, Phase::Downloading);
    assert_eq!(update.percentage, 0);
    assert_eq!(update.filename.as_deref(), Some("Clip"));
    assert_eq!(state.final_filename.as_deref(), Some("Clip [abcdefghijk].mp4"));
    assert!(!state.network_done);
}

#[test]
fn legacy_progress_line_keeps_the_last_known_figures() {
    let mut state = ParserState::new();
    let first = state
        .feed_line("[download]  45.3% of 10.00MiB at 1.20MiB/s ETA 00:05", false)
        .expect("progress is reported");
    assert_eq!(first.percentage, 4_530);
    assert_eq!(first.speed, "1.20MiB/s");
    assert_eq!(first.eta, "00:05");
    assert_eq!(first.phase, Phase::Downloading);
    let second = state
        .feed_line("[download]  46% of ~ 10.00MiB at Unknown B/s ETA Unknown", false)
        .expect("progress is reported");
    assert_eq!(second.percentage, 4_600);
    assert_eq!(second.speed, "1.20MiB/s");
    assert_eq!(second.eta, "00:05");
    let third = state
        .feed_line("[download] 100.0% of 10.00MiB at N/A ETA 00:00", false)
        .expect("progress is reported");
    assert_eq!(third.percentage, 10_000);
    assert_eq!(third.speed, "1.20MiB/s");
    assert_eq!(third.eta, "00:00");
    assert!(state.network_done);
}

#[test]
fn legacy_progress_is_classified_with_its_figures() {
    assert_eq!(
        classify("[download]   7.25% of 3.00GiB at 512.00KiB/s ETA 01:02:03", false),
        LineKind::LegacyProgress {
            percentage: 725,
            speed_figure: Some("512.00KiB/s".to_string()),
            eta_figure: Some("01:02:03".to_string()),
        }
    );
}

#[test]
fn written_percent_reads_two_decimals_and_stops_at_full() {
    assert_eq!(percent_of_text("0", ""), 0);
    assert_eq!(percent_of_text("45", "3"), 4_530);
    assert_eq!(percent_of_text("45", "349"), 4_534);
    assert_eq!(percent_of_text("99", "99"), 9_999);
    assert_eq!(percent_of_text("100", "0"), 10_000);
    assert_eq!(percent_of_text("100", "5"), 10_000);
    assert_eq!(percent_of_text("101", ""), 10_000);
    assert_eq!(percent_of_text("99999999999999999999999", "1"), 10_000);
    assert_eq!(percent_of_text("", "5"), 50);
    assert_eq!(percent_of_text("1x", "y"), 1_000);
}

#[test]
fn title_cleaner_strips_the_suffix_of_an_eleven_character_id() {
    assert_eq!(target_of_path("Foo [abcdefghijk].mp4", false), Some(target("Foo [abcdefghijk].mp4", "Foo")));
    assert_eq!(
        target_of_path("Foo [abcdefghijk].f137.mp4", false),
        Some(target("Foo [abcdefghijk].f137.mp4", "Foo"))
    );
    assert_eq!(target_of_path("Foo [xyz].mp4", false), Some(target("Foo [xyz].mp4", "Foo [xyz].mp4")));
    assert_eq!(
        target_of_path("Foo [abcdefghijkl].mp4", false),
        Some(target("Foo [abcdefghijkl].mp4", "Foo [abcdefghijkl].mp4"))
    );
    assert_eq!(
        target_of_path("/tmp/stage/A-b_c [a_c-e0g9i2k].webm", false),
        Some(target("A-b_c [a_c-e0g9i2k].webm", "A-b_c"))
    );
    assert_eq!(target_of_path("dir/", false), Some(target("dir", "dir")));
    assert_eq!(target_of_path("", false), None);
}

#[test]
fn title_cleaner_leaves_an_id_that_is_not_eleven_characters_long() {
    assert_eq!(target_of_path("Foo [xyz].mp4", false), Some(target("Foo [xyz].mp4", "Foo [xyz].mp4")));
    let mut state = ParserState::new();
    state.feed_line("[download] Destination: Foo [xyz].mp4", false);
    assert_eq!(state.clean_title.as_deref(), Some("Foo [xyz].mp4"));
}

#[test]
fn title_is_set_once_in_an_attempt() {
    let mut state = ParserState::new();
    state.feed_line("[download] Destination: First [abcdefghijk].f137.mp4", false);
    assert_eq!(state.clean_title.as_deref(), Some("First"));
    state.feed_line(r#"{"filename": "Second [abcdefghijk].f140.m4a"}"#, false);
    assert_eq!(state.clean_title.as_deref(), Some("First"));
    assert_eq!(state.final_filename.as_deref(), Some("Second [abcdefghijk].f140.m4a"));
    let update = state
        .feed_line(r#"[Merger] Merging formats into "Third [abcdefghijk].mkv""#, false)
        .expect("a phase line is reported");
    assert_eq!(update.filename.as_deref(), Some("First"));
    assert_eq!(state.clean_title.as_deref(), Some("First"));
    assert_eq!(state.final_filename.as_deref(), Some("Third [abcdefghijk].mkv"));
}

#[test]
fn progress_falls_only_on_a_phase_line_that_sets_it() {
    let mut state = ParserState::new();
    state.feed_line(r#"{"downloaded_bytes": 60, "total_bytes": 100}"#, false);
    assert_eq!(state.percentage, 6_000);
    let lower = state
        .feed_line(r#"{"downloaded_bytes": 10, "total_bytes": 100}"#, false)
        .expect("a frame is reported");
    assert_eq!(lower.percentage, 6_000);
    assert_eq!(state.percentage, 6_000);
    let in_words = state
        .feed_line("[download]  12.5% of 10.00MiB at 1.20MiB/s ETA 00:05", false)
        .expect("progress is reported");
    assert_eq!(in_words.percentage, 6_000);
    state.feed_line(r#"{"downloaded_bytes": 61, "total_bytes": 100}"#, false);
    assert_eq!(state.percentage, 6_100);
    state.feed_line("[download] Destination: a.mp4", false);
    assert_eq!(state.percentage, 6_100);
    state.feed_line("[youtube] something else", false);
    assert_eq!(state.percentage, 6_100);
    state.feed_line("[FixupM3u8] Fixing", false);
    assert_eq!(state.percentage, 6_100);
    state.feed_line("[Thumbnails] x", false);
    assert_eq!(state.percentage, 9_900);
    state.feed_line(r#"[Merger] Merging formats into "a.mkv""#, false);
    assert_eq!(state.percentage, 10_000);
    state.feed_line("[Metadata] Adding metadata to: a.mkv", false);
    assert_eq!(state.percentage, 9_900);
    let after = state
        .feed_line(r#"{"downloaded_bytes": 500, "total_bytes": 1000}"#, false)
        .expect("a frame is reported");
    assert_eq!(after.percentage, 9_900);
    assert_eq!(state.percentage, 9_900);
}

#[test]
fn apply_never_lowers_the_percentage_on_a_progress_report() {
    let mut state = ParserState::new();
    state.percentage = 7_000;
    let frame = |downloaded: u64| LineKind::Frame {
        downloaded: Some(downloaded),
        total: Some(100),
        speed: None,
        eta: None,
        file: FileUpdate::Keep,
    };
    assert_eq!(state.apply(frame(69)).map(|u| u.percentage), Some(7_000));
    assert_eq!(state.apply(frame(70)).map(|u| u.percentage), Some(7_000));
    assert_eq!(state.apply(frame(71)).map(|u| u.percentage), Some(7_100));
    let words = |percentage: u32| LineKind::LegacyProgress { percentage, speed_figure: None, eta_figure: None };
    assert_eq!(state.apply(words(100)).map(|u| u.percentage), Some(7_100));
    assert_eq!(state.apply(words(7_200)).map(|u| u.percentage), Some(7_200));
    assert_eq!(state.apply(words(20_000)).map(|u| u.percentage), Some(10_000));
    assert!(state.network_done);
}

#[test]
fn other_lines_change_nothing() {
    let mut state = ParserState::new();
    state.feed_line(r#"{"downloaded_bytes": 60, "total_bytes": 100, "speed": 10, "eta": 1}"#, false);
    let before = format!("{:?}", state);
    assert!(state.feed_line("[info] Writing video subtitles", false).is_none());
    assert!(state.feed_line("not json {", false).is_none());
    assert_eq!(format!("{:?}", state), before);
}

#[test]
fn new_parser_state_is_initial() {
    let state = ParserState::new();
    assert_eq!(state.clean_title, None);
    assert_eq!(state.final_filename, None);
    assert_eq!(state.percentage, 0);
    assert_eq!(state.phase, Phase::Initializing);
    assert_eq!(state.phase.label(), "Initializing");
    assert_eq!(state.speed_text, "N/A");
    assert_eq!(state.eta_text, "N/A");
    assert!(!state.network_done);
}

#[test]
fn phase_labels() {
    assert_eq!(Phase::Downloading.label(), "Downloading");
    assert_eq!(Phase::EmbeddingThumbnail.label(), "Embedding Thumbnail");
    assert_eq!(Phase::ExtractingAudio.label(), "Extracting Audio");
    assert_eq!(Phase::FixingContainer.label(), "Fixing Container");
    assert_eq!(Phase::Finished.label(), "Finished");
    assert!(Phase::FixingContainer.post_processing());
    assert!(!Phase::Finished.post_processing());
    assert!(!Phase::Downloading.post_processing());
    assert!(!Phase::Initializing.post_processing());
}

#[test]
fn eta_is_written_with_two_digits_at_least() {
    assert_eq!(format_eta(0), "00:00");
    assert_eq!(format_eta(59), "00:59");
    assert_eq!(format_eta(125), "02:05");
    assert_eq!(format_eta(3_599), "59:59");
    assert_eq!(format_eta(3_600), "01:00:00");
    assert_eq!(format_eta(3_725), "01:02:05");
    assert_eq!(format_eta(360_000), "100:00:00");
    assert_eq!(format_eta(u64::MAX), "5124095576030431:00:15");
}

#[test]
fn speed_is_written_in_the_largest_unit_reached() {
    assert_eq!(format_speed(0), "0 B/s");
    assert_eq!(format_speed(1_023), "1023 B/s");
    assert_eq!(format_speed(1_024), "1.00 KiB/s");
    assert_eq!(format_speed(1_536), "1.50 KiB/s");
    assert_eq!(format_speed(1_048_575), "1024.00 KiB/s");
    assert_eq!(format_speed(1_048_576), "1.00 MiB/s");
    assert_eq!(format_speed(5_242_880), "5.00 MiB/s");
    assert_eq!(format_speed(1_073_741_824), "1.00 GiB/s");
    assert_eq!(format_speed(1_610_612_736), "1.50 GiB/s");
    assert_eq!(format_speed(u64::MAX), "17179869184.00 GiB/s");
}

#[test]
fn speed_rounds_a_tie_to_the_even_hundredth() {
    // 1.005 KiB/s and 1.015 KiB/s are no binary fractions; 1029.12 and 1039.36
    // bytes are not whole. The ties that whole bytes can make are at unit / 200.
    // 1 MiB / 200 is no whole number either, so a tie needs a unit of 2 KiB steps:
    // 1024 * 1.125 = 1152 gives 112.5 hundredths, a tie, and rounds to 112.
    assert_eq!(format_speed(1_152), "1.12 KiB/s");
    // 1024 * 1.375 = 1408 gives 137.5 hundredths, a tie, and rounds to 138.
    assert_eq!(format_speed(1_408), "1.38 KiB/s");
    assert_eq!(format_speed(1_153), "1.13 KiB/s");
    assert_eq!(format_speed(1_151), "1.12 KiB/s");
}

#[test]
fn percentage_is_the_share_in_hundredths() {
    assert_eq!(percent_of(0, 1), 0);
    assert_eq!(percent_of(500, 1_000), 5_000);
    assert_eq!(percent_of(1, 3), 3_333);
    assert_eq!(percent_of(2, 3), 6_666);
    assert_eq!(percent_of(1_000, 1_000), 10_000);
    assert_eq!(percent_of(1_001, 1_000), 10_000);
    assert_eq!(percent_of(u64::MAX, 1), 10_000);
    assert_eq!(percent_of(u64::MAX, u64::MAX), 10_000);
    assert_eq!(percent_of(u64::MAX - 1, u64::MAX), 9_999);
}

#[test]
fn file_name_is_the_final_component() {
    for windows in [false, true] {
        let name = |path: &str| file_name_of(path, windows);
        assert_eq!(name("a.mp4").as_deref(), Some("a.mp4"));
        assert_eq!(name("/tmp/Foo.mkv").as_deref(), Some("Foo.mkv"));
        assert_eq!(name("a/b/").as_deref(), Some("b"));
        assert_eq!(name("a/b///").as_deref(), Some("b"));
        assert_eq!(name("a/b/.").as_deref(), Some("b"));
        assert_eq!(name("a/./").as_deref(), Some("a"));
        assert_eq!(name("a/././/.").as_deref(), Some("a"));
        assert_eq!(name("./a").as_deref(), Some("a"));
        assert_eq!(name("...").as_deref(), Some("..."));
        assert_eq!(name(".hidden").as_deref(), Some(".hidden"));
        assert_eq!(name("a/.b").as_deref(), Some(".b"));
        assert_eq!(name(""), None);
        assert_eq!(name("/"), None);
        assert_eq!(name("//"), None);
        assert_eq!(name("."), None);
        assert_eq!(name("./"), None);
        assert_eq!(name("./."), None);
        assert_eq!(name(".."), None);
        assert_eq!(name("a/.."), None);
        assert_eq!(name("a/../."), None);
        assert_eq!(name("a/..//"), None);
    }
}

#[test]
fn file_name_agrees_with_the_path_of_this_system() {
    for path in [
        "", "/", ".", "..", "a", "a/", "a/.", "a/..", "a/./b", "a//b//", "./a", "../a", "/a/b.c", "a\\b", "C:\\x\\y.mp4",
        "C:y.mp4", "a/.../b", "a/..b", "a/b./", "x/./.", " ", "a/ /", "\\", "a\\..", "a\\.",
    ] {
        let expected = std::path::Path::new(path).file_name().map(|n| n.to_string_lossy().to_string());
        assert_eq!(file_name_of(path, false), expected, "{:?}", path);
    }
}

#[test]
fn file_name_on_windows_takes_the_backslash_and_the_drive() {
    assert_eq!(file_name_of("C:\\Users\\x\\Foo.mkv", true).as_deref(), Some("Foo.mkv"));
    assert_eq!(file_name_of("C:\\Users\\x\\Foo.mkv", false).as_deref(), Some("C:\\Users\\x\\Foo.mkv"));
    assert_eq!(file_name_of("a\\b/c\\d.mp4", true).as_deref(), Some("d.mp4"));
    assert_eq!(file_name_of("a\\b\\", true).as_deref(), Some("b"));
    assert_eq!(file_name_of("a\\.", true).as_deref(), Some("a"));
    assert_eq!(file_name_of("a\\..", true), None);
    assert_eq!(file_name_of("C:Foo.mkv", true).as_deref(), Some("Foo.mkv"));
    assert_eq!(file_name_of("C:Foo.mkv", false).as_deref(), Some("C:Foo.mkv"));
    assert_eq!(file_name_of("x/C:Foo.mkv", true).as_deref(), Some("C:Foo.mkv"));
    assert_eq!(file_name_of("C:", true), None);
    assert_eq!(file_name_of("C:\\", true), None);
    assert_eq!(file_name_of("c:..", true), None);
    assert_eq!(file_name_of("1:x", true).as_deref(), Some("1:x"));
}

#[test]
fn whole_part_of_a_double() {
    assert_eq!(whole_part(0f64.to_bits()), 0);
    assert_eq!(whole_part(0.99f64.to_bits()), 0);
    assert_eq!(whole_part(1f64.to_bits()), 1);
    assert_eq!(whole_part(1.5f64.to_bits()), 1);
    assert_eq!(whole_part(1536.75f64.to_bits()), 1536);
    assert_eq!(whole_part(5_242_880.999f64.to_bits()), 5_242_880);
    assert_eq!(whole_part(9_007_199_254_740_992f64.to_bits()), 9_007_199_254_740_992);
    assert_eq!(whole_part(18_446_744_073_709_549_568f64.to_bits()), 18_446_744_073_709_549_568);
    assert_eq!(whole_part(18_446_744_073_709_551_616f64.to_bits()), u64::MAX);
    assert_eq!(whole_part(1e300f64.to_bits()), u64::MAX);
    assert_eq!(whole_part((-1.5f64).to_bits()), 0);
    assert_eq!(whole_part(f64::NAN.to_bits()), 0);
    assert_eq!(whole_part(f64::INFINITY.to_bits()), 0);
    assert_eq!(whole_part(f64::MIN_POSITIVE.to_bits()), 0);
    assert_eq!(whole_part(5e-324f64.to_bits()), 0);
}
