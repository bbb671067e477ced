//! The event-loop state machine. The loop owns the window and the webview;
//! each event maps to the next loop phase and at most one native effect, and
//! a successful download completion evaluates the in-page toast script
//! exactly once.

use vstd::prelude::*;
use vstd::string::StringExecFns;

verus! {

/// A download lifecycle notification crossing from the webview's execution
/// context into the event loop.
#[derive(Debug, Clone)]
pub enum UserEvent {
    /// A download began: the source URI and the resolved destination path.
    DownloadStarted(String, String),
    /// A download finished: the path it ended at, if any, and whether it
    /// succeeded.
    DownloadComplete(Option<String>, bool),
}

/// The mathematical value of a `UserEvent`.
pub enum UserEventView {
    DownloadStarted(Seq<char>, Seq<char>),
    DownloadComplete(Option<Seq<char>>, bool),
}

impl View for UserEvent {
    type V = UserEventView;

    open spec fn view(&self) -> UserEventView {
        match self {
            UserEvent::DownloadStarted(uri, dest) => UserEventView::DownloadStarted(uri@, dest@),
            UserEvent::DownloadComplete(path, success) => UserEventView::DownloadComplete(
                match path {
                    Option::Some(p) => Option::Some(p@),
                    Option::None => Option::None,
                },
                *success,
            ),
        }
    }
}

/// An event the loop dispatches on.
#[derive(Debug, Clone)]
pub enum LoopEvent {
    /// The user asked to close the window.
    CloseRequested,
    /// A native menu item was selected, carrying its identifier.
    MenuSelected(u32),
    /// A download notification arrived over the proxy channel.
    User(UserEvent),
    /// Anything else the loop does not act on.
    Other,
}

/// The mathematical value of a `LoopEvent`.
pub enum LoopEventView {
    CloseRequested,
    MenuSelected(u32),
    User(UserEventView),
    Other,
}

impl View for LoopEvent {
    type V = LoopEventView;

    open spec fn view(&self) -> LoopEventView {
        match self {
            LoopEvent::CloseRequested => LoopEventView::CloseRequested,
            LoopEvent::MenuSelected(id) => LoopEventView::MenuSelected(*id),
            LoopEvent::User(u) => LoopEventView::User(u@),
            LoopEvent::Other => LoopEventView::Other,
        }
    }
}

/// The loop's phase: dispatching, or done for good.
#[derive(Debug, Clone, Copy, PartialEq, Eq, Structural)]
pub enum LoopPhase {
    Running,
    Exiting,
}

/// A native effect the loop asks for in response to one event.
#[derive(Debug, Clone)]
pub enum Effect {
    /// Minimize the window (the close menu item minimizes instead of
    /// closing).
    MinimizeWindow,
    /// Evaluate the carried script against the page.
    EvalScript(String),
}

/// The mathematical value of an `Effect`.
pub enum EffectView {
    MinimizeWindow,
    EvalScript(Seq<char>),
}

impl View for Effect {
    type V = EffectView;

    open spec fn view(&self) -> EffectView {
        match self {
            Effect::MinimizeWindow => EffectView::MinimizeWindow,
            Effect::EvalScript(s) => EffectView::EvalScript(s@),
        }
    }
}

/// The mathematical value of an optional effect.
pub open spec fn opt_effect_view(e: Option<Effect>) -> Option<EffectView> {
    match e {
        Option::Some(x) => Option::Some(x@),
        Option::None => Option::None,
    }
}

/// The fixed script evaluated against the page when a download succeeds.
pub open spec fn toast_script_view() -> Seq<char> {
    "window.pakeToast('Save in downloads folder')"@
}

/// Returns the toast script.
pub fn toast_script() -> (r: &'static str)
    ensures
        r@ == toast_script_view(),
{
    "window.pakeToast('Save in downloads folder')"
}

/// One transition of the loop: a close request ends dispatching; selecting
/// the close menu item minimizes the window instead; a successful download
/// completion evaluates the toast script exactly once; every other event
/// changes nothing and asks for nothing.
pub open spec fn step_view(phase: LoopPhase, event: LoopEventView, close_menu_id: u32) -> (
    LoopPhase,
    Option<EffectView>,
) {
    match event {
        LoopEventView::CloseRequested => (LoopPhase::Exiting, Option::None),
        LoopEventView::MenuSelected(id) => (
            phase,
            if id == close_menu_id {
                Option::Some(EffectView::MinimizeWindow)
            } else {
                Option::None
            },
        ),
        LoopEventView::User(UserEventView::DownloadStarted(_uri, _dest)) => (phase, Option::None),
        LoopEventView::User(UserEventView::DownloadComplete(_path, success)) => (
            phase,
            if success {
                Option::Some(EffectView::EvalScript(toast_script_view()))
            } else {
                Option::None
            },
        ),
        LoopEventView::Other => (phase, Option::None),
    }
}

/// Dispatches one event, exactly as `step_view` describes.
pub fn loop_step(phase: LoopPhase, event: &LoopEvent, close_menu_id: u32) -> (r: (
    LoopPhase,
    Option<Effect>,
))
    ensures
        (r.0, opt_effect_view(r.1)) == step_view(phase, event@, close_menu_id),
{
    match event {
        LoopEvent::CloseRequested => (LoopPhase::Exiting, None),
        LoopEvent::MenuSelected(id) => {
            if *id == close_menu_id {
                (phase, Some(Effect::MinimizeWindow))
            } else {
                (phase, None)
            }
        },
        LoopEvent::User(UserEvent::DownloadStarted(_uri, _dest)) => (phase, None),
        LoopEvent::User(UserEvent::DownloadComplete(_path, success)) => {
            if *success {
                (phase, Some(Effect::EvalScript(String::from_str(toast_script()))))
            } else {
                (phase, None)
            }
        },
        LoopEvent::Other => (phase, None),
    }
}

/// Law: a download completion evaluates the toast script exactly when it
/// succeeded — one evaluation on success, none on failure — and never moves
/// the loop out of its phase.
pub proof fn lemma_toast_exactly_on_success(
    phase: LoopPhase,
    path: Option<Seq<char>>,
    success: bool,
    close_menu_id: u32,
)
    ensures
        step_view(
            phase,
            LoopEventView::User(UserEventView::DownloadComplete(path, success)),
            close_menu_id,
        ).1 == (if success {
            Option::Some(EffectView::EvalScript(toast_script_view()))
        } else {
            Option::None::<EffectView>
        }),
        step_view(
            phase,
            LoopEventView::User(UserEventView::DownloadComplete(path, success)),
            close_menu_id,
        ).0 == phase,
{
}

} // verus!
