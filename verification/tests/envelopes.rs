//! Tests of the response envelopes: clearing judgments, service
//! management, listing parsers, and file previews.

use scanclean::cleaner::{
    CacheClearOutcome, CleanerController, CleanerService, DeletionAttempt, TrashClearOutcome,
};
use scanclean::command::CommandOutcome;
use scanclean::dashboard::DashboardService;
use scanclean::envelope::{DataValue, ResponseModel, ResponseStatus};
use scanclean::preview::{preview_file, PreviewInput};
use scanclean::system::{SystemController, SystemService};

fn ok(path: &str) -> DeletionAttempt {
    DeletionAttempt { path: path.to_string(), error: None }
}

fn failed(path: &str, reason: &str) -> DeletionAttempt {
    DeletionAttempt { path: path.to_string(), error: Some(reason.to_string()) }
}

fn finished(success: bool, stdout: &[u8], stderr: &[u8]) -> CommandOutcome {
    CommandOutcome::Finished {
        success,
        stdout: stdout.to_vec(),
        stderr: stderr.to_vec(),
    }
}

#[test]
fn clear_selected_all_ok() {
    let svc = CleanerService;
    let res = svc.clearSelectedCacheFiles(&vec![ok("/a"), ok("/b")]);
    let m = res.expect("all deletions succeeded");
    assert!(matches!(m.status, ResponseStatus::Success));
    assert_eq!(m.message, "Successfully cleared 2 cache files");
}

#[test]
fn clear_selected_partial_failure() {
    // Three target paths where the second fails: the message counts
    // the two successes and carries the second path's reason.
    let svc = CleanerService;
    let atts = vec![ok("/t/x1"), failed("/t/x2", "permission denied"), ok("/t/x3")];
    let res = svc.clearSelectedTrashFiles(&atts);
    let m = res.expect_err("one deletion failed");
    assert!(matches!(m.status, ResponseStatus::Error));
    assert_eq!(m.message, "Cleared 2 files, failed on: /t/x2: permission denied");
}

#[test]
fn clearing_partial_failure_leaves_other_files_deleted() {
    // The judged batch reflects real deletions: the first and third
    // files are gone from disk even though the whole operation is an
    // error.
    let dir = tempfile::tempdir().expect("tempdir");
    let f1 = tempfile::NamedTempFile::new_in(dir.path()).expect("f1");
    let f2 = tempfile::NamedTempFile::new_in(dir.path()).expect("f2");
    let f3 = tempfile::NamedTempFile::new_in(dir.path()).expect("f3");
    let p1 = f1.path().to_str().unwrap().to_string();
    let p2 = f2.path().to_str().unwrap().to_string();
    let p3 = f3.path().to_str().unwrap().to_string();

    // The host deletes the first and third and reports a failure on
    // the second.
    f1.close().expect("delete first");
    f3.close().expect("delete third");
    let atts = vec![
        ok(&p1),
        failed(&p2, "operation not permitted"),
        ok(&p3),
    ];
    let svc = CleanerService;
    let m = svc.clearSelectedTrashFiles(&atts).expect_err("partial failure");
    assert!(m.message.starts_with("Cleared 2"));
    assert!(m.message.contains(&p2));
    assert!(m.message.contains("operation not permitted"));
    assert!(!std::path::Path::new(&p1).exists());
    assert!(std::path::Path::new(&p2).exists());
    assert!(!std::path::Path::new(&p3).exists());
    drop(f2);
}

#[test]
fn clear_selected_log_files_variants() {
    let svc = CleanerService;
    let none: Vec<String> = Vec::new();
    let res = svc.clearSelectedLogFiles(&none, &finished(true, b"", b""));
    assert_eq!(res.expect("empty selection").message, "No log files selected");

    let paths = vec!["/var/log/a.log".to_string(), "/var/log/b.log".to_string()];
    let res = svc.clearSelectedLogFiles(&paths, &finished(true, b"", b""));
    assert_eq!(res.expect("batch ok").message, "Successfully cleared 2 log files");

    let res = svc.clearSelectedLogFiles(&paths, &finished(false, b"", b" denied \n"));
    assert_eq!(
        res.expect_err("batch failed").message,
        "Failed to clear log files: denied"
    );

    let res = svc.clearSelectedLogFiles(
        &paths,
        &CommandOutcome::LaunchFailed("no pkexec".to_string()),
    );
    assert_eq!(res.expect_err("launch failed").message, "Failed to run pkexec: no pkexec");
}

#[test]
fn clear_trash_and_cache_judgments() {
    let svc = CleanerService;
    let m = svc
        .clearTrash(&TrashClearOutcome::Attempted(vec![ok("/t/a"), ok("/t/b")]))
        .expect("cleared");
    assert_eq!(m.message, "Trash cleared successfully");

    let m = svc
        .clearTrash(&TrashClearOutcome::ReadFailed("no trash".to_string()))
        .expect_err("read failed");
    assert_eq!(m.message, "Failed to read trash: no trash");

    // A failed file does not cut the pass short: the other files'
    // successes are counted and the failure is reported with its path.
    let m = svc
        .clearTrash(&TrashClearOutcome::Attempted(vec![
            ok("/t/a"),
            failed("/t/f", "busy"),
            ok("/t/b"),
        ]))
        .expect_err("remove failed");
    assert_eq!(m.message, "Cleared 2 files, failed on: /t/f: busy");

    let m = svc.clearCache(&CacheClearOutcome::Missing).expect("missing cache");
    assert!(matches!(m.status, ResponseStatus::Info));
    assert_eq!(m.message, "No cache to clear");

    let m = svc.clearCache(&CacheClearOutcome::Removed).expect("removed");
    assert_eq!(m.message, "Cache directory cleared successfully");

    let m = svc
        .clearCache(&CacheClearOutcome::RemoveFailed("disk error".to_string()))
        .expect_err("remove failed");
    assert_eq!(m.message, "Failed to clear cache directory: disk error");

    let m = svc.clearCache(&CacheClearOutcome::NoCacheDir).expect_err("unresolved");
    assert_eq!(m.message, "Cache directory not found");
}

#[test]
fn clear_all_logs_judgments() {
    let svc = CleanerService;
    let files = Vec::new();
    let m = svc.clearAllLogs(&files, &finished(true, b"", b"")).expect("nothing found");
    assert_eq!(m.message, "No log files found to clear");

    let files = vec![scanclean::model::FileEntry {
        path: "/var/log/a.log".to_string(),
        name: "a.log".to_string(),
        size: 3,
        modified: 0,
        depth: 1,
    }];
    let m = svc.clearAllLogs(&files, &finished(true, b"", b"")).expect("cleared");
    assert_eq!(m.message, "Cleared 1 log files");
    match m.data {
        DataValue::Text(t) => assert_eq!(t, "1"),
        _ => panic!("expected text payload"),
    }

    let m = svc
        .clearAllLogs(&files, &finished(false, b"", b"oops\n"))
        .expect_err("command failed");
    assert_eq!(m.message, "Failed to clear logs: oops");
}

#[test]
fn clear_all_large_files_counts_successes() {
    let svc = CleanerService;
    let atts = vec![ok("/a"), ok("/c")];
    let m = svc.clearAllLargeFiles(&atts).expect("all deletions succeeded");
    assert_eq!(m.message, "Cleared 2 large files");
    match m.data {
        DataValue::Text(t) => assert_eq!(t, "2"),
        _ => panic!("expected text payload"),
    }
}

#[test]
fn clear_all_large_files_partial_failure_is_error() {
    let svc = CleanerService;
    let atts = vec![ok("/a"), failed("/b", "busy"), ok("/c")];
    let m = svc.clearAllLargeFiles(&atts).expect_err("one deletion failed");
    assert!(matches!(m.status, ResponseStatus::Error));
    assert_eq!(m.message, "Cleared 2 files, failed on: /b: busy");
    match m.data {
        DataValue::Text(t) => assert_eq!(t, "2"),
        _ => panic!("expected text payload"),
    }
}

#[test]
fn single_service_judgments() {
    let svc = SystemService;
    let m = svc.stopService("nginx", &finished(true, b"", b"")).expect("stopped");
    assert_eq!(m.message, "Service nginx stopped");
    match m.data {
        DataValue::Text(t) => assert_eq!(t, "nginx"),
        _ => panic!("expected text payload"),
    }

    let m = svc
        .stopService("nginx", &finished(false, b"", b"unit not loaded"))
        .expect_err("stop failed");
    assert_eq!(m.message, "unit not loaded");

    let m = svc
        .startService("cups", &CommandOutcome::LaunchFailed("denied".to_string()))
        .expect_err("launch failed");
    assert_eq!(m.message, "Failed to run command: denied");

    let m = svc.enableService("sshd", &finished(true, b"", b"")).expect("enabled");
    assert_eq!(m.message, "Service sshd enabled");

    let ctl = SystemController::new();
    let m = ctl.startService("cron", &finished(true, b"", b"")).expect("started");
    assert_eq!(m.message, "Service cron started");
}

#[test]
fn batch_service_judgments() {
    let svc = SystemService;
    let none: Vec<String> = Vec::new();
    let m = svc.stopSelectedServices(&none, &finished(true, b"", b"")).expect("empty");
    assert_eq!(m.message, "No services selected");

    let units = vec!["a.service".to_string(), "b.service".to_string()];
    let m = svc.stopSelectedServices(&units, &finished(true, b"", b"")).expect("stopped");
    assert_eq!(m.message, "Stopped 2 services successfully");
    match m.data {
        DataValue::Names(n) => assert_eq!(n, units),
        _ => panic!("expected names payload"),
    }

    let m = svc
        .enableSelectedServices(&units, &finished(false, b"", b" nope \n"))
        .expect_err("enable failed");
    assert_eq!(m.message, "Failed to enable services: nope");
}

#[test]
fn running_services_parse() {
    let svc = DashboardService;
    let stdout = b"UNIT LOAD ACTIVE SUB DESCRIPTION\n\
cron.service loaded active running Regular background program processing daemon\n\
short line\n\
ssh.service loaded active running OpenBSD Secure Shell server\n";
    let m = svc.getRunningServices(&finished(true, stdout, b"")).expect("parsed");
    assert_eq!(m.message, "Running services retrieved successfully");
    match m.data {
        DataValue::Services(svcs) => {
            assert_eq!(svcs.len(), 2);
            assert_eq!(svcs[0].name, "cron.service");
            assert_eq!(svcs[0].status, "running");
            assert!(svcs[0].is_running);
            assert_eq!(
                svcs[0].description.as_deref(),
                Some("Regular background program processing daemon")
            );
            assert_eq!(svcs[1].name, "ssh.service");
        },
        _ => panic!("expected services payload"),
    }

    let m = svc
        .getRunningServices(&CommandOutcome::LaunchFailed("gone".to_string()))
        .expect_err("launch failed");
    assert_eq!(m.message, "Failed to run systemctl: gone");

    let m = svc
        .getRunningServices(&finished(false, b"", b"broken bus"))
        .expect_err("listing failed");
    assert_eq!(m.message, "broken bus");
}

#[test]
fn all_services_parse() {
    let svc = SystemService;
    let stdout = b"cron.service loaded active running\n\
not-a-service loaded active running\n\
getty.service loaded inactive dead extra words here\n";
    let m = svc.getAllServices(&finished(true, stdout, b"")).expect("parsed");
    assert_eq!(m.message, "Found 2 services");
    match m.data {
        DataValue::Services(svcs) => {
            assert_eq!(svcs.len(), 2);
            assert_eq!(svcs[0].name, "cron.service");
            assert_eq!(svcs[0].load.as_deref(), Some("loaded"));
            assert_eq!(svcs[0].active.as_deref(), Some("active"));
            assert_eq!(svcs[0].status, "running");
            assert!(svcs[0].is_running);
            assert_eq!(svcs[1].name, "getty.service");
            assert!(!svcs[1].is_running);
        },
        _ => panic!("expected services payload"),
    }
}

#[test]
fn enabled_services_parse() {
    let svc = SystemService;
    let stdout = b"ssh.service enabled\nfoo.timer enabled\ncups.service disabled\n";
    let m = svc.getDisabledServices(&finished(true, stdout, b"")).expect("parsed");
    assert_eq!(m.message, "Found 2 enabled services");
    match m.data {
        DataValue::Services(svcs) => {
            assert_eq!(svcs.len(), 2);
            assert_eq!(svcs[0].name, "ssh.service");
            assert_eq!(svcs[0].status, "enabled");
            assert_eq!(svcs[1].name, "cups.service");
        },
        _ => panic!("expected services payload"),
    }
}

#[test]
fn open_file_judgments() {
    let svc = SystemService;
    let m = svc.openFile("/tmp/x.txt", &None).expect("spawned");
    assert_eq!(m.message, "Started editor for file: /tmp/x.txt");
    let m = svc
        .openFile("/tmp/x.txt", &Some("no such editor".to_string()))
        .expect_err("spawn failed");
    assert_eq!(m.message, "Failed to start editor: no such editor");
}

#[test]
fn preview_missing_file() {
    let input = PreviewInput { exists: false, size: None, bytes: None, read_error: None };
    let m = preview_file(&"/no/such/file".to_string(), &input).expect_err("missing");
    assert_eq!(m.message, "File not found");
}

#[test]
fn preview_text_file() {
    let input = PreviewInput {
        exists: true,
        size: Some(11),
        bytes: Some(b"hello\nworld".to_vec()),
        read_error: None,
    };
    let m = preview_file(&"/docs/readme.txt".to_string(), &input).expect("text preview");
    assert_eq!(m.message, "File preview retrieved");
    match m.data {
        DataValue::Preview(p) => {
            assert_eq!(p.name, "readme.txt");
            assert_eq!(p.path, "/docs/readme.txt");
            assert_eq!(p.kind, "text");
            assert_eq!(p.content.as_deref(), Some("hello\nworld"));
            assert!(p.image_url.is_none());
        },
        _ => panic!("expected preview payload"),
    }
}

#[test]
fn preview_binary_content_under_text_extension() {
    let input = PreviewInput {
        exists: true,
        size: Some(4),
        bytes: Some(vec![0, 159, 146, 150]),
        read_error: None,
    };
    let m = preview_file(&"/tmp/data.log".to_string(), &input).expect("classified");
    match m.data {
        DataValue::Preview(p) => assert_eq!(p.kind, "binary"),
        _ => panic!("expected preview payload"),
    }
}

#[test]
fn preview_utf8_validity_decides_text_extension() {
    // Invalid UTF-8 without any NUL byte: only the UTF-8 check can
    // reject it.
    let input = PreviewInput {
        exists: true,
        size: Some(3),
        bytes: Some(vec![159, 146, 150]),
        read_error: None,
    };
    let m = preview_file(&"/tmp/notes.md".to_string(), &input).expect("classified");
    match m.data {
        DataValue::Preview(p) => assert_eq!(p.kind, "binary"),
        _ => panic!("expected preview payload"),
    }

    let input = PreviewInput {
        exists: true,
        size: Some(4),
        bytes: Some("héllo".as_bytes()[..4].to_vec()),
        read_error: None,
    };
    let m = preview_file(&"/tmp/notes.md".to_string(), &input).expect("classified");
    match m.data {
        DataValue::Preview(p) => assert_eq!(p.kind, "text"),
        _ => panic!("expected preview payload"),
    }
}

#[test]
fn preview_image_data_url() {
    let input = PreviewInput {
        exists: true,
        size: Some(3),
        bytes: Some(b"Man".to_vec()),
        read_error: None,
    };
    let m = preview_file(&"/pics/photo.PNG".to_string(), &input).expect("image preview");
    match m.data {
        DataValue::Preview(p) => {
            assert_eq!(p.kind, "image");
            assert_eq!(p.image_url.as_deref(), Some("data:image/png;base64,TWFu"));
            assert!(p.content.is_none());
        },
        _ => panic!("expected preview payload"),
    }
}

#[test]
fn preview_image_read_failure() {
    let input = PreviewInput {
        exists: true,
        size: Some(3),
        bytes: None,
        read_error: Some("io error".to_string()),
    };
    let m = preview_file(&"/pics/photo.jpg".to_string(), &input).expect_err("unreadable image");
    assert_eq!(m.message, "Failed to read file: io error");
}

#[test]
fn preview_unknown_when_unreadable_metadata() {
    let input = PreviewInput { exists: true, size: None, bytes: None, read_error: None };
    let m = preview_file(&"/dev/weird".to_string(), &input).expect("unknown kind");
    match m.data {
        DataValue::Preview(p) => assert_eq!(p.kind, "unknown"),
        _ => panic!("expected preview payload"),
    }
}

#[test]
fn preview_truncates_on_character_boundary() {
    // 49999 ASCII bytes then a two-byte character straddling the cap:
    // the cut backs off to the boundary and the notice is appended.
    let mut bytes = vec![b'a'; 49999];
    bytes.extend_from_slice("é".as_bytes());
    bytes.extend(vec![b'b'; 10]);
    let input = PreviewInput {
        exists: true,
        size: Some(bytes.len() as u64),
        bytes: Some(bytes),
        read_error: None,
    };
    let m = preview_file(&"/big/notes.txt".to_string(), &input).expect("truncated text");
    match m.data {
        DataValue::Preview(p) => {
            let content = p.content.expect("content");
            assert!(content.starts_with(&"a".repeat(49999)));
            assert!(content.ends_with("...\n\n[Content truncated - file too large]"));
            // The multi-byte character was dropped whole, never split.
            assert!(!content.contains('\u{FFFD}'));
        },
        _ => panic!("expected preview payload"),
    }
}

#[test]
fn controller_delegates_clearing() {
    let ctl = CleanerController::new();
    let res = ctl.clearSelectedLargeFiles(&vec![ok("/big")]);
    assert_eq!(res.expect("cleared").message, "Successfully cleared 1 large files");
    let m: Result<ResponseModel, ResponseModel> =
        ctl.clearTrash(&TrashClearOutcome::Attempted(Vec::new()));
    assert!(m.is_ok());
}
