use instadl::config::Config;
use instadl::state::{App, DownloadStatus};
use instadl::supervisor::{InstagramDownloader, RunOutput};

fn fresh_app() -> App {
    App::new(InstagramDownloader::new(Config::new("downloads".to_string())))
}

fn lines(texts: &[&str]) -> Vec<String> {
    texts.iter().map(|t| t.to_string()).collect()
}

fn type_url(app: &mut App, url: &str) {
    app.enter_edit_mode();
    for c in url.chars() {
        app.push_char(c);
    }
}

#[test]
fn a_clean_run_lands_in_the_history() {
    let mut app = fresh_app();
    type_url(&mut app, "https://example.com/p/ABC");

    let url = app.submit_begin().expect("non-empty input must begin");
    assert_eq!(url, "https://example.com/p/ABC");
    assert!(matches!(app.download_status, DownloadStatus::InProgress));

    app.submit_progress_line("download:[1048576/2097152][512.0KiB/s]ETA:[00:10] 50.0%");
    match &app.download_status {
        DownloadStatus::Downloading(snap) => {
            // The fraction is exactly one half.
            assert_eq!(snap.fraction.num * 2, snap.fraction.den);
            assert_eq!(snap.speed, "512.0KiB/s");
            assert_eq!(snap.eta, "00:10");
            assert_eq!(snap.size, "0B/0B");
        },
        other => panic!("expected a running status, got {:?}", other),
    }

    // A non-sentinel line changes nothing.
    app.submit_progress_line("[generic] merging formats");
    assert!(matches!(app.download_status, DownloadStatus::Downloading(_)));

    app.submit_finish(&lines(&[]), true);
    assert!(matches!(app.download_status, DownloadStatus::Complete));
    assert_eq!(app.downloads.len(), 1);
    assert_eq!(app.downloads[0].url, "https://example.com/p/ABC");
    assert_eq!(
        app.downloads[0].filename,
        "downloads/%(title)s_%(upload_date)s_%(id)s.%(ext)s"
    );
    assert_eq!(app.downloads[0].status, "Completed");
    assert_eq!(app.input, "");
    assert!(app.pending_run.is_none());
}

#[test]
fn a_warning_on_stderr_fails_the_run_and_writes_no_history() {
    let mut app = fresh_app();
    type_url(&mut app, "https://example.com/p/ABC");

    let run = RunOutput {
        stdout_lines: lines(&["download: 50.0%"]),
        stderr_lines: lines(&["WARNING: some warning"]),
        exit_ok: true,
    };
    app.submit_url(&run);

    match &app.download_status {
        DownloadStatus::Error(message) => assert_eq!(message, "WARNING: some warning"),
        other => panic!("expected an error status, got {:?}", other),
    }
    assert_eq!(app.downloads.len(), 0);
    // The buffer keeps the URL, so the user can edit and resubmit.
    assert_eq!(app.input, "https://example.com/p/ABC");
    assert!(app.pending_run.is_none());
}

#[test]
fn a_failure_does_not_block_the_next_submission() {
    let mut app = fresh_app();
    type_url(&mut app, "https://example.com/p/ONE");
    let failing = RunOutput {
        stdout_lines: lines(&[]),
        stderr_lines: lines(&["ERROR: no media found"]),
        exit_ok: false,
    };
    app.submit_url(&failing);
    assert!(matches!(app.download_status, DownloadStatus::Error(_)));
    assert_eq!(app.downloads.len(), 0);

    // Clear the buffer and submit a second URL that succeeds.
    while !app.input.is_empty() {
        app.pop_char();
    }
    type_url(&mut app, "https://example.com/p/TWO");
    let clean = RunOutput {
        stdout_lines: lines(&["download: 100.0%"]),
        stderr_lines: lines(&[]),
        exit_ok: true,
    };
    app.submit_url(&clean);
    assert!(matches!(app.download_status, DownloadStatus::Complete));
    assert_eq!(app.downloads.len(), 1);
    assert_eq!(app.downloads[0].url, "https://example.com/p/TWO");
}

#[test]
fn records_keep_completion_order() {
    let mut app = fresh_app();
    for url in ["https://example.com/p/1", "https://example.com/p/2", "https://example.com/p/3"] {
        type_url(&mut app, url);
        let run = RunOutput {
            stdout_lines: lines(&[]),
            stderr_lines: lines(&[]),
            exit_ok: true,
        };
        app.submit_url(&run);
    }
    assert_eq!(app.downloads.len(), 3);
    assert_eq!(app.downloads[0].url, "https://example.com/p/1");
    assert_eq!(app.downloads[1].url, "https://example.com/p/2");
    assert_eq!(app.downloads[2].url, "https://example.com/p/3");
}
