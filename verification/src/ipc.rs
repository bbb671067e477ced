//! The bridge from page messages to native window actions. A message is one
//! of three recognized forms — `drag_window`, `fullscreen`, or
//! `open_browser:{url}` — and every other message is ignored.

use vstd::prelude::*;
use crate::strutil::{str_eq_str, str_starts_with, strip_prefix_exact};

verus! {

/// The native action a page message asks for.
#[derive(Debug, Clone)]
pub enum IpcAction {
    /// Begin a native window drag.
    DragWindow,
    /// Toggle the window's maximized state.
    ToggleMaximize,
    /// Open the carried URL in the system's default browser.
    OpenBrowser(String),
    /// No action: the message is not recognized.
    Ignore,
}

/// The mathematical value of an `IpcAction`.
pub enum IpcCommand {
    DragWindow,
    ToggleMaximize,
    OpenBrowser(Seq<char>),
    Ignore,
}

impl View for IpcAction {
    type V = IpcCommand;

    open spec fn view(&self) -> IpcCommand {
        match self {
            IpcAction::DragWindow => IpcCommand::DragWindow,
            IpcAction::ToggleMaximize => IpcCommand::ToggleMaximize,
            IpcAction::OpenBrowser(url) => IpcCommand::OpenBrowser(url@),
            IpcAction::Ignore => IpcCommand::Ignore,
        }
    }
}

/// How a message maps to an action: the two fixed messages, the
/// `open_browser:` prefix with the rest of the message as the URL, and
/// everything else ignored.
pub open spec fn ipc_command_of(msg: Seq<char>) -> IpcCommand {
    if msg == "drag_window"@ {
        IpcCommand::DragWindow
    } else if msg == "fullscreen"@ {
        IpcCommand::ToggleMaximize
    } else if "open_browser:"@.is_prefix_of(msg) {
        IpcCommand::OpenBrowser(msg.skip("open_browser:"@.len() as int))
    } else {
        IpcCommand::Ignore
    }
}

/// Maps one page message to its native action, exactly as `ipc_command_of`
/// describes.
pub fn classify_ipc(msg: &str) -> (a: IpcAction)
    ensures
        a@ == ipc_command_of(msg@),
{
    if str_eq_str(msg, "drag_window") {
        IpcAction::DragWindow
    } else if str_eq_str(msg, "fullscreen") {
        IpcAction::ToggleMaximize
    } else if str_starts_with(msg, "open_browser:") {
        let target = strip_prefix_exact(msg, "open_browser:");
        IpcAction::OpenBrowser(target)
    } else {
        IpcAction::Ignore
    }
}

/// The window's maximized state after one message: only `fullscreen` toggles
/// it, every other message leaves it alone.
pub open spec fn ipc_next_state(maximized: bool, msg: Seq<char>) -> bool {
    if ipc_command_of(msg) is ToggleMaximize {
        !maximized
    } else {
        maximized
    }
}

/// One step of the bridge against the window's maximized state: returns the
/// state after the message and the action to perform. Only `fullscreen`
/// changes the state; an unrecognized message changes nothing and asks for
/// nothing.
pub fn ipc_step(maximized: bool, msg: &str) -> (r: (bool, IpcAction))
    ensures
        r.1@ == ipc_command_of(msg@),
        r.0 == ipc_next_state(maximized, msg@),
{
    let action = classify_ipc(msg);
    let next = match action {
        IpcAction::ToggleMaximize => !maximized,
        _ => maximized,
    };
    (next, action)
}

/// Law: a message that is none of the three recognized forms is ignored and
/// leaves the window state as it was.
pub proof fn lemma_unrecognized_message_is_inert(maximized: bool, msg: Seq<char>)
    requires
        msg != "drag_window"@,
        msg != "fullscreen"@,
        !"open_browser:"@.is_prefix_of(msg),
    ensures
        ipc_command_of(msg) is Ignore,
        ipc_next_state(maximized, msg) == maximized,
{
}

/// Law: the URL opened for an `open_browser:` message is the message with
/// that prefix stripped and nothing else changed.
pub proof fn lemma_open_browser_target_exact(msg: Seq<char>)
    requires
        "open_browser:"@.is_prefix_of(msg),
    ensures
        ipc_command_of(msg) == IpcCommand::OpenBrowser(
            msg.skip("open_browser:"@.len() as int),
        ),
        "open_browser:"@ + (ipc_command_of(msg)->OpenBrowser_0) == msg,
{
    reveal_strlit("open_browser:");
    reveal_strlit("drag_window");
    reveal_strlit("fullscreen");
    assert(msg != "drag_window"@ && msg != "fullscreen"@) by {
        assert("open_browser:"@.len() == 13);
        assert("drag_window"@.len() == 11);
        assert("fullscreen"@.len() == 10);
    }
    assert("open_browser:"@ + msg.skip("open_browser:"@.len() as int) =~= msg);
}

/// Law: sending `fullscreen` twice toggles the window's maximized state and
/// then returns it to the state it began with.
pub proof fn lemma_fullscreen_twice_restores(maximized: bool)
    ensures
        ipc_next_state(maximized, "fullscreen"@) == !maximized,
        ipc_next_state(ipc_next_state(maximized, "fullscreen"@), "fullscreen"@) == maximized,
{
    reveal_strlit("fullscreen");
    reveal_strlit("drag_window");
    assert("fullscreen"@.len() != "drag_window"@.len());
}

} // verus!
