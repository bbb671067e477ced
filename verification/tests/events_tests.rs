use pake_shell::events::{loop_step, toast_script, Effect, LoopEvent, LoopPhase, UserEvent};

const CLOSE_ID: u32 = 42;

#[test]
fn successful_download_completion_evaluates_toast_once() {
    let event = LoopEvent::User(UserEvent::DownloadComplete(
        Some(String::from("/tmp/report.pdf")),
        true,
    ));
    let (phase, effect) = loop_step(LoopPhase::Running, &event, CLOSE_ID);
    assert_eq!(phase, LoopPhase::Running);
    match effect {
        Some(Effect::EvalScript(script)) => {
            assert_eq!(script, "window.pakeToast('Save in downloads folder')");
            assert_eq!(script, toast_script());
        }
        other => panic!("expected exactly one script evaluation, got {:?}", other),
    }
}

#[test]
fn failed_download_completion_evaluates_nothing() {
    let event = LoopEvent::User(UserEvent::DownloadComplete(None, false));
    let (phase, effect) = loop_step(LoopPhase::Running, &event, CLOSE_ID);
    assert_eq!(phase, LoopPhase::Running);
    assert!(effect.is_none(), "failure must trigger no toast, got {:?}", effect);
}

#[test]
fn close_request_ends_the_loop() {
    let (phase, effect) = loop_step(LoopPhase::Running, &LoopEvent::CloseRequested, CLOSE_ID);
    assert_eq!(phase, LoopPhase::Exiting);
    assert!(effect.is_none());
}

#[test]
fn close_menu_item_minimizes_instead_of_closing() {
    let (phase, effect) = loop_step(LoopPhase::Running, &LoopEvent::MenuSelected(CLOSE_ID), CLOSE_ID);
    assert_eq!(phase, LoopPhase::Running, "the loop keeps running");
    match effect {
        Some(Effect::MinimizeWindow) => {}
        other => panic!("expected MinimizeWindow, got {:?}", other),
    }
}

#[test]
fn other_menu_items_do_nothing() {
    let (phase, effect) = loop_step(LoopPhase::Running, &LoopEvent::MenuSelected(7), CLOSE_ID);
    assert_eq!(phase, LoopPhase::Running);
    assert!(effect.is_none());
}

#[test]
fn download_start_and_idle_events_do_nothing() {
    let started = LoopEvent::User(UserEvent::DownloadStarted(
        String::from("https://a.test/f"),
        String::from("/tmp/f"),
    ));
    let (phase, effect) = loop_step(LoopPhase::Running, &started, CLOSE_ID);
    assert_eq!(phase, LoopPhase::Running);
    assert!(effect.is_none());

    let (phase, effect) = loop_step(LoopPhase::Running, &LoopEvent::Other, CLOSE_ID);
    assert_eq!(phase, LoopPhase::Running);
    assert!(effect.is_none());
}

#[test]
fn exiting_phase_is_terminal() {
    let (phase, _) = loop_step(LoopPhase::Exiting, &LoopEvent::Other, CLOSE_ID);
    assert_eq!(phase, LoopPhase::Exiting);
    let (phase, _) = loop_step(LoopPhase::Exiting, &LoopEvent::MenuSelected(7), CLOSE_ID);
    assert_eq!(phase, LoopPhase::Exiting);
}
