use pake_shell::download::{handle_download_started, plan_download};
use pake_shell::events::UserEvent;
use pake_shell::strutil::{base_name, join_path};

#[test]
fn destination_is_rewritten_under_download_dir_with_base_name() {
    let dir = Some(String::from("/home/user/Downloads"));
    let plan = plan_download("attachments/2024/report.pdf", &dir, "/tmp");
    assert_eq!(plan.destination, "/home/user/Downloads/report.pdf");
    assert!(plan.accept);
    assert!(!plan.used_fallback);
}

#[test]
fn missing_download_dir_falls_back_to_temp_dir() {
    let plan = plan_download("report.pdf", &None, "/tmp");
    assert_eq!(plan.destination, "/tmp/report.pdf");
    assert!(plan.accept);
    assert!(plan.used_fallback);
}

#[test]
fn base_name_handles_both_separators() {
    assert_eq!(base_name("a/b/c.txt"), "c.txt");
    assert_eq!(base_name("a\\b\\c.txt"), "c.txt");
    assert_eq!(base_name("mixed/dir\\file.bin"), "file.bin");
    assert_eq!(base_name("plain.bin"), "plain.bin");
    assert_eq!(base_name("trailing/"), "");
    assert_eq!(base_name(""), "");
}

#[test]
fn join_path_inserts_single_separator() {
    assert_eq!(join_path("/tmp", "report.pdf"), "/tmp/report.pdf");
    assert_eq!(join_path("", "x"), "/x");
}

#[test]
fn started_download_is_accepted_and_announced() {
    let started = handle_download_started("https://a.test/report.pdf", "report.pdf", "/tmp");
    assert!(started.plan.accept, "a started download is always accepted");
    assert!(
        started.plan.destination.ends_with("/report.pdf"),
        "destination {:?} must end with the suggested base name",
        started.plan.destination
    );
    assert_eq!(
        started.plan.used_fallback,
        started.resolved_dir.is_none(),
        "the fallback is taken exactly when no download directory came back"
    );
    match &started.resolved_dir {
        Some(dir) => assert_eq!(started.plan.destination, format!("{}/report.pdf", dir)),
        None => assert_eq!(started.plan.destination, "/tmp/report.pdf"),
    }
    match started.event {
        UserEvent::DownloadStarted(uri, dest) => {
            assert_eq!(uri, "https://a.test/report.pdf");
            assert_eq!(dest, started.plan.destination);
        }
        other => panic!("expected a DownloadStarted event, got {:?}", other),
    }
}
