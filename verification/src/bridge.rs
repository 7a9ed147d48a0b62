//! The command bridge between page script and the native window.
//!
//! Page script sends plain-text messages. The vocabulary is closed: two exact
//! words and one prefixed form. Everything else is ignored. Nothing is sent
//! back to the page.

use vstd::prelude::*;
use vstd::string::*;

verus! {

/// A message of the bridge's vocabulary.
#[derive(Clone, Debug, PartialEq, Eq)]
pub enum Command {
    /// Begin an interactive drag of the window.
    DragWindow,
    /// Leave fullscreen if the window is in it, enter it otherwise.
    ToggleFullscreen,
    /// Open the address in the user's default browser.
    OpenBrowser(String),
}

/// What a `Command` is to a contract.
pub enum CommandView {
    DragWindow,
    ToggleFullscreen,
    OpenBrowser(Seq<char>),
}

impl View for Command {
    type V = CommandView;

    open spec fn view(&self) -> CommandView {
        match self {
            Command::DragWindow => CommandView::DragWindow,
            Command::ToggleFullscreen => CommandView::ToggleFullscreen,
            Command::OpenBrowser(href) => CommandView::OpenBrowser(href@),
        }
    }
}

/// What the native side is asked to do for one message.
#[derive(Clone, Debug, PartialEq, Eq)]
pub enum BridgeAction {
    /// Start the interactive drag; a failure to start it is dropped.
    StartDrag,
    /// Put the window into borderless fullscreen (`true`) or take it out (`false`).
    SetFullscreen(bool),
    /// Launch the default browser on exactly this address.
    OpenBrowser(String),
    /// Do nothing.
    Ignore,
}

/// What a `BridgeAction` is to a contract.
pub enum BridgeActionView {
    StartDrag,
    SetFullscreen(bool),
    OpenBrowser(Seq<char>),
    Ignore,
}

impl View for BridgeAction {
    type V = BridgeActionView;

    open spec fn view(&self) -> BridgeActionView {
        match self {
            BridgeAction::StartDrag => BridgeActionView::StartDrag,
            BridgeAction::SetFullscreen(on) => BridgeActionView::SetFullscreen(*on),
            BridgeAction::OpenBrowser(href) => BridgeActionView::OpenBrowser(href@),
            BridgeAction::Ignore => BridgeActionView::Ignore,
        }
    }
}

/// The word that starts a drag.
pub open spec fn drag_word() -> Seq<char> {
    "drag_window"@
}

/// The word that toggles fullscreen.
pub open spec fn fullscreen_word() -> Seq<char> {
    "fullscreen"@
}

/// The prefix in front of an address to open.
pub open spec fn browser_prefix() -> Seq<char> {
    "open_browser:"@
}

/// The command that a message stands for, if any. Matching is exact: case
/// counts and nothing is trimmed. Of a browser message only the prefix is
/// taken off; the rest is the address, character for character.
pub open spec fn command_of(msg: Seq<char>) -> Option<CommandView> {
    if msg == drag_word() {
        Some(CommandView::DragWindow)
    } else if msg == fullscreen_word() {
        Some(CommandView::ToggleFullscreen)
    } else if browser_prefix().is_prefix_of(msg) {
        Some(CommandView::OpenBrowser(msg.subrange(browser_prefix().len() as int, msg.len() as int)))
    } else {
        None
    }
}

/// The action for a command on a window whose fullscreen state is `fullscreen_now`.
pub open spec fn action_for(fullscreen_now: bool, command: Option<CommandView>) -> BridgeActionView {
    match command {
        Some(CommandView::DragWindow) => BridgeActionView::StartDrag,
        Some(CommandView::ToggleFullscreen) => BridgeActionView::SetFullscreen(!fullscreen_now),
        Some(CommandView::OpenBrowser(href)) => BridgeActionView::OpenBrowser(href),
        None => BridgeActionView::Ignore,
    }
}

/// Whether `text` begins with `prefix`, compared character by character.
pub fn starts_with(text: &str, prefix: &str) -> (b: bool)
    ensures
        b == prefix@.is_prefix_of(text@),
{
    let n: usize = prefix.unicode_len();
    if text.unicode_len() < n {
        return false;
    }
    let mut i: usize = 0;
    while i < n
        invariant
            n == prefix@.len(),
            n <= text@.len(),
            i <= n,
            forall|k: int| 0 <= k < i ==> text@[k] == prefix@[k],
        decreases n - i,
    {
        if text.get_char(i) != prefix.get_char(i) {
            assert(text@.subrange(0, n as int)[i as int] != prefix@[i as int]);
            return false;
        }
        i += 1;
    }
    assert(prefix@ =~= text@.subrange(0, n as int));
    true
}

/// Whether the two texts are the same characters.
pub fn same_text(a: &str, b: &str) -> (same: bool)
    ensures
        same == (a@ == b@),
{
    if a.unicode_len() != b.unicode_len() {
        return false;
    }
    let same = starts_with(a, b);
    proof {
        if same {
            assert(a@ =~= b@);
        }
    }
    same
}

/// Reads one message of page script.
pub fn parse_command(msg: &str) -> (r: Option<Command>)
    ensures
        match r {
            Some(c) => command_of(msg@) == Some(c@),
            None => command_of(msg@).is_none(),
        },
{
    if same_text(msg, "drag_window") {
        Some(Command::DragWindow)
    } else if same_text(msg, "fullscreen") {
        Some(Command::ToggleFullscreen)
    } else if starts_with(msg, "open_browser:") {
        let from: usize = "open_browser:".unicode_len();
        let href = msg.substring_char(from, msg.unicode_len());
        Some(Command::OpenBrowser(href.to_owned()))
    } else {
        None
    }
}

/// The action that a command asks for.
pub fn respond(fullscreen_now: bool, command: Option<Command>) -> (r: BridgeAction)
    ensures
        r@ == action_for(
            fullscreen_now,
            match command {
                Some(c) => Some(c@),
                None => None,
            },
        ),
{
    match command {
        Some(Command::DragWindow) => BridgeAction::StartDrag,
        Some(Command::ToggleFullscreen) => BridgeAction::SetFullscreen(!fullscreen_now),
        Some(Command::OpenBrowser(href)) => BridgeAction::OpenBrowser(href),
        None => BridgeAction::Ignore,
    }
}

/// Handles one message from page script for a window whose fullscreen state
/// is `fullscreen_now`.
pub fn handle_message(fullscreen_now: bool, msg: &str) -> (r: BridgeAction)
    ensures
        r@ == action_for(fullscreen_now, command_of(msg@)),
        msg@ != drag_word() && msg@ != fullscreen_word() && !browser_prefix().is_prefix_of(msg@)
            ==> r@ == BridgeActionView::Ignore,
{
    respond(fullscreen_now, parse_command(msg))
}

} // verus!
