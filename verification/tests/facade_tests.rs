use multiyt_dlp::commands::created_ids;
use multiyt_dlp::commands::job_for_entry;
use multiyt_dlp::commands::start_download;
use multiyt_dlp::commands::validate_request;
use multiyt_dlp::commands::validate_resolution;
use multiyt_dlp::commands::validate_template;
use multiyt_dlp::commands::validate_url;
use multiyt_dlp::commands::DownloadRequest;
use multiyt_dlp::commands::DEFAULT_TEMPLATE;
use multiyt_dlp::error::AppError;
use multiyt_dlp::json::Json;
use multiyt_dlp::json::JsonNumber;
use multiyt_dlp::manager::Caps;
use multiyt_dlp::manager::Effect;
use multiyt_dlp::manager::JobManager;
use multiyt_dlp::models::DownloadFormatPreset;
use multiyt_dlp::models::JobMessage;
use multiyt_dlp::models::PlaylistEntry;
use multiyt_dlp::models::PlaylistResult;
use multiyt_dlp::models::QueuedJob;
use multiyt_dlp::playlist::entries_from_json;
use multiyt_dlp::playlist::expand_playlist;
use multiyt_dlp::playlist::parse_probe_output;
use multiyt_dlp::playlist::probe_arguments;
use multiyt_dlp::playlist::probe_url;
use multiyt_dlp::playlist::ProbeOutcome;

fn request(url: &str, template: &str, resolution: &str) -> DownloadRequest {
    DownloadRequest {
        url: url.to_string(),
        download_path: Some("/out".to_string()),
        format_preset: DownloadFormatPreset::BestMp4,
        video_resolution: resolution.to_string(),
        embed_metadata: false,
        embed_thumbnail: true,
        filename_template: template.to_string(),
        restrict_filenames: None,
    }
}

fn refused(reason: &str) -> AppError {
    AppError::ValidationFailed(reason.to_string())
}

fn entry(id: Option<&str>, url: &str, title: &str) -> PlaylistEntry {
    PlaylistEntry { id: id.map(|s| s.to_string()), url: url.to_string(), title: title.to_string() }
}

fn text(value: &str) -> Json {
    Json::Text(value.to_string())
}

fn object(members: Vec<(&str, Json)>) -> Json {
    Json::Object(members.into_iter().map(|(k, v)| (k.to_string(), v)).collect())
}

fn ended_well(stdout: &str) -> ProbeOutcome {
    ProbeOutcome::Exited { success: true, code: Some(0), stdout: stdout.to_string(), stderr: String::new() }
}

#[test]
fn url_must_begin_with_a_web_scheme() {
    assert_eq!(validate_url("http://host/v"), Ok(()));
    assert_eq!(validate_url("https://host/v"), Ok(()));
    assert_eq!(validate_url("https://"), Ok(()));
    for bad in ["", "ftp://host/v", "host/v", "HTTP://host", " https://host", "http:/host", "https:/"] {
        assert_eq!(validate_url(bad), Err(refused("Invalid URL provided.")), "{}", bad);
    }
}

#[test]
fn template_is_defaulted_or_refused() {
    assert_eq!(validate_template(String::new()), Ok(DEFAULT_TEMPLATE.to_string()));
    assert_eq!(validate_template("  \t ".to_string()), Ok("%(title)s.%(ext)s".to_string()));
    assert_eq!(validate_template("%(id)s.%(ext)s".to_string()), Ok("%(id)s.%(ext)s".to_string()));
    assert_eq!(validate_template("a/b.%(ext)s".to_string()), Ok("a/b.%(ext)s".to_string()));
    assert_eq!(validate_template(" /a".to_string()), Ok(" /a".to_string()));
    for bad in ["../x", "a/../b", "a..b", "/abs", "\\abs", "..", "/"] {
        assert_eq!(
            validate_template(bad.to_string()),
            Err(refused("Invalid characters in filename template.")),
            "{}",
            bad
        );
    }
}

#[test]
fn resolution_is_best_or_holds_a_number() {
    for good in ["best", "1080", "1080p", "p720", "4k"] {
        assert_eq!(validate_resolution(good), Ok(()), "{}", good);
    }
    for bad in ["", "high", "Best", "best "] {
        assert_eq!(validate_resolution(bad), Err(refused("Invalid video resolution.")), "{}", bad);
    }
}

#[test]
fn request_is_checked_url_first() {
    assert_eq!(
        validate_request(&request("https://host/v", "", "1080")),
        Ok("%(title)s.%(ext)s".to_string())
    );
    assert_eq!(
        validate_request(&request("https://host/v", "%(id)s", "best")),
        Ok("%(id)s".to_string())
    );
    assert_eq!(
        validate_request(&request("host/v", "../x", "high")),
        Err(refused("Invalid URL provided."))
    );
    assert_eq!(
        validate_request(&request("https://host/v", "../x", "high")),
        Err(refused("Invalid characters in filename template."))
    );
    assert_eq!(
        validate_request(&request("https://host/v", "x", "high")),
        Err(refused("Invalid video resolution."))
    );
}

#[test]
fn job_for_entry_takes_the_rest_from_the_request() {
    let wanted = request("https://host/list", "", "1080");
    let template = "%(title)s.%(ext)s".to_string();
    assert_eq!(
        job_for_entry(5, &entry(Some("a"), "https://host/a", "A"), &wanted, &template),
        QueuedJob {
            id: 5,
            url: "https://host/a".to_string(),
            download_path: Some("/out".to_string()),
            format_preset: DownloadFormatPreset::BestMp4,
            video_resolution: "1080".to_string(),
            embed_metadata: false,
            embed_thumbnail: true,
            filename_template: template.clone(),
            restrict_filenames: false,
        }
    );
    let mut restricted = request("https://host/list", "", "1080");
    restricted.restrict_filenames = Some(true);
    assert!(job_for_entry(5, &entry(None, "u", "t"), &restricted, &template).restrict_filenames);
}

#[test]
fn start_download_makes_a_job_for_each_entry_under_an_id_of_its_own() {
    let wanted = request("https://host/list", "", "best");
    let template = validate_request(&wanted).expect("the request is fine");
    assert_eq!(template, "%(title)s.%(ext)s");
    let entries = vec![
        entry(Some("a"), "https://host/a", "A"),
        entry(None, "https://host/b", "B"),
        entry(Some("c"), "https://host/c", "C"),
    ];
    let jobs = start_download(&wanted, &entries).expect("the request is fine");
    assert_eq!(jobs.len(), 3);
    for (job, from) in jobs.iter().zip(entries.iter()) {
        assert_eq!(job, &job_for_entry(job.id, from, &wanted, &template));
    }
    let ids = created_ids(&jobs);
    assert_eq!(ids, jobs.iter().map(|j| j.id).collect::<Vec<u128>>());
    assert!(ids[0] != ids[1] && ids[1] != ids[2] && ids[0] != ids[2]);
    for id in &ids {
        // A version-4 UUID: the version nibble is 4, the variant bits are 10.
        assert_eq!((id >> 76) & 0xf, 4);
        assert_eq!((id >> 62) & 0x3, 2);
    }
    assert_eq!(start_download(&wanted, &vec![]), Ok(vec![]));
}

#[test]
fn single_download_is_added_and_completed() {
    let wanted = request("https://host/v", "%(title)s.%(ext)s", "1080");
    let template = validate_request(&wanted).expect("the request is fine");
    let entries = probe_url(ended_well(r#"{"id": "v", "title": "Clip", "webpage_url": "https://host/v"}"#), "https://host/v")
        .expect("the probe is fine");
    assert_eq!(entries, vec![entry(Some("v"), "https://host/v", "Clip")]);
    let jobs = start_download(&wanted, &entries).expect("the request is fine");
    assert_eq!(jobs.len(), 1);
    assert_eq!(jobs[0].filename_template, template);
    let id = jobs[0].id;
    let limits = Caps { max_concurrent_downloads: 4, max_total_instances: 10 };
    let mut manager = JobManager::new();
    let effects = manager.handle_message(JobMessage::AddJob { job: jobs[0].clone() }, limits);
    assert_eq!(effects.last(), Some(&Effect::AddJobReply(Ok(()))));
    assert!(effects.contains(&Effect::SpawnSupervisor(jobs[0].clone())));
    let done = manager
        .handle_message(JobMessage::JobCompleted { id, output_path: "/out/Clip.mp4".to_string() }, limits);
    assert_eq!(
        done,
        vec![
            Effect::Persist(vec![]),
            Effect::EmitComplete { job_id: id, output_path: "/out/Clip.mp4".to_string() }
        ]
    );
}

#[test]
fn probe_arguments_ask_for_a_flat_playlist() {
    assert_eq!(
        probe_arguments("https://host/list"),
        vec!["--flat-playlist", "--dump-single-json", "--no-warnings", "https://host/list"]
    );
}

#[test]
fn playlist_with_three_entries_fans_out() {
    let output = r#"{
        "id": "list", "title": "The list",
        "entries": [
            {"id": "a", "url": "https://host/a", "title": "A"},
            {"id": 7, "url": "https://host/b"},
            {"title": "no url"},
            {"url": 5},
            {"id": null, "url": "https://host/c", "title": "C", "more": {"x": [1, 2.5, -3, true, null]}}
        ]
    }"#;
    assert_eq!(
        parse_probe_output(output, "https://host/list"),
        Ok(vec![
            entry(Some("a"), "https://host/a", "A"),
            entry(None, "https://host/b", "Unknown"),
            entry(None, "https://host/c", "C"),
        ])
    );
}

#[test]
fn document_without_entries_is_a_single_entry() {
    assert_eq!(
        parse_probe_output(r#"{"id": "v", "title": "Clip", "webpage_url": "https://host/watch?v"}"#, "https://host/v"),
        Ok(vec![entry(Some("v"), "https://host/watch?v", "Clip")])
    );
    assert_eq!(parse_probe_output("{}", "https://host/v"), Ok(vec![entry(None, "https://host/v", "Unknown")]));
    assert_eq!(
        parse_probe_output(r#"{"entries": "none", "title": 3}"#, "https://host/v"),
        Ok(vec![entry(None, "https://host/v", "Unknown")])
    );
    assert_eq!(parse_probe_output("[]", "https://host/v"), Ok(vec![entry(None, "https://host/v", "Unknown")]));
    assert_eq!(parse_probe_output(r#"{"entries": []}"#, "https://host/v"), Ok(vec![]));
}

#[test]
fn entries_from_json_reads_a_document_built_by_hand() {
    let list = object(vec![(
        "entries",
        Json::Array(vec![
            object(vec![("url", text("u1")), ("title", text("t1")), ("id", text("i1"))]),
            object(vec![("title", text("t2"))]),
            text("not an object"),
            object(vec![("url", text("u3")), ("id", Json::Number(JsonNumber::Unsigned(3)))]),
        ]),
    )]);
    assert_eq!(
        entries_from_json(&list, "asked"),
        vec![entry(Some("i1"), "u1", "t1"), entry(None, "u3", "Unknown")]
    );
    let single = object(vec![("title", text("t")), ("webpage_url", Json::Null)]);
    assert_eq!(entries_from_json(&single, "asked"), vec![entry(None, "asked", "t")]);
    assert_eq!(entries_from_json(&Json::Bool(true), "asked"), vec![entry(None, "asked", "Unknown")]);
}

#[test]
fn output_that_is_no_json_is_a_failed_validation() {
    match parse_probe_output("not json", "https://host/v") {
        Err(AppError::ValidationFailed(reason)) => {
            assert!(reason.starts_with("Failed to parse JSON: "), "{}", reason);
            assert!(reason.len() > "Failed to parse JSON: ".len());
        }
        other => panic!("{:?}", other),
    }
    assert!(matches!(parse_probe_output("", "u"), Err(AppError::ValidationFailed(_))));
    assert!(matches!(parse_probe_output("{} {}", "u"), Err(AppError::ValidationFailed(_))));
}

#[test]
fn probe_that_fails_is_reported_with_its_code() {
    assert_eq!(
        probe_url(ProbeOutcome::NotRun { reason: "No such file".to_string() }, "u"),
        Err(AppError::IoError("No such file".to_string()))
    );
    assert_eq!(
        probe_url(
            ProbeOutcome::Exited {
                success: false,
                code: Some(1),
                stdout: "{}".to_string(),
                stderr: "ERROR: unsupported".to_string()
            },
            "u"
        ),
        Err(AppError::ProcessFailed { exit_code: 1, stderr: "ERROR: unsupported".to_string() })
    );
    assert_eq!(
        probe_url(
            ProbeOutcome::Exited { success: false, code: None, stdout: String::new(), stderr: String::new() },
            "u"
        ),
        Err(AppError::ProcessFailed { exit_code: -1, stderr: String::new() })
    );
    assert_eq!(
        expand_playlist(ended_well(r#"{"entries": [{"url": "a"}]}"#), "u"),
        Ok(PlaylistResult { entries: vec![entry(None, "a", "Unknown")] })
    );
    assert_eq!(
        expand_playlist(ProbeOutcome::NotRun { reason: "x".to_string() }, "u"),
        Err(AppError::IoError("x".to_string()))
    );
}

#[test]
fn error_messages() {
    assert_eq!(AppError::IoError("disk".to_string()).message(), "I/O Error: disk");
    assert_eq!(
        AppError::ProcessFailed { exit_code: -1, stderr: "bad".to_string() }.message(),
        "yt-dlp process failed with exit code -1: bad"
    );
    assert_eq!(
        AppError::ProcessFailed { exit_code: i32::MIN, stderr: String::new() }.message(),
        "yt-dlp process failed with exit code -2147483648: "
    );
    assert_eq!(
        AppError::ProcessFailed { exit_code: 127, stderr: "x".to_string() }.message(),
        "yt-dlp process failed with exit code 127: x"
    );
    assert_eq!(refused("Invalid URL provided.").message(), "Validation failed: Invalid URL provided.");
    assert_eq!(AppError::JobAlreadyExists.message(), "A download for this URL is already in progress.");
    assert_eq!(AppError::JobNotFound.message(), "Job with the specified ID was not found.");
    assert_eq!(AppError::ProcessKillFailed("gone".to_string()).message(), "Failed to kill process: gone");
}

#[test]
fn start_download_refuses_a_request_that_does_not_pass_its_checks() {
    let entries = vec![entry(Some("a"), "https://host/a", "A")];
    assert_eq!(
        start_download(&request("ftp://host/v", "", "best"), &entries),
        Err(refused("Invalid URL provided."))
    );
    assert_eq!(
        start_download(&request("https://host/v", "../x.%(ext)s", "best"), &entries),
        Err(refused("Invalid characters in filename template."))
    );
    assert_eq!(
        start_download(&request("https://host/v", "/x", "best"), &entries),
        Err(refused("Invalid characters in filename template."))
    );
    assert_eq!(
        start_download(&request("https://host/v", "\\x", "best"), &entries),
        Err(refused("Invalid characters in filename template."))
    );
    assert_eq!(
        start_download(&request("https://host/v", "", "abc"), &entries),
        Err(refused("Invalid video resolution."))
    );
    assert_eq!(
        start_download(&request("host/v", "..", "abc"), &vec![]),
        Err(refused("Invalid URL provided."))
    );
}

#[test]
fn start_download_puts_the_default_template_for_a_blank_one() {
    let entries = vec![entry(None, "https://host/a", "A"), entry(None, "https://host/b", "B")];
    for blank in ["", "   ", "\t"] {
        let jobs = start_download(&request("https://host/list", blank, "1080p"), &entries).expect("fine");
        assert_eq!(jobs.len(), 2);
        for job in &jobs {
            assert_eq!(job.filename_template, "%(title)s.%(ext)s");
        }
    }
    let jobs = start_download(&request("http://host/list", "%(id)s.%(ext)s", "best"), &entries).expect("fine");
    assert_eq!(jobs[0].filename_template, "%(id)s.%(ext)s");
    assert_eq!(jobs[1].url, "https://host/b");
}
