//! The window: what is asked of the native toolkit when the one window is
//! built, for each platform, and the state that the built window reports.

use vstd::prelude::*;
use crate::bridge::{
    BridgeAction, BridgeActionView, action_for, browser_prefix, command_of, drag_word,
    fullscreen_word,
};
use crate::config::{WindowEntryView, WindowSpec};
use crate::icon::{IconImage, IconView};
use crate::menu::{MenuModel, SubmenuView, app_menu, build_menu};

verus! {

/// The platform families that the shell knows.
#[derive(Clone, Copy, Debug, PartialEq, Eq, Structural)]
pub enum Platform {
    Windows,
    MacOs,
    Linux,
}

/// The platform that a window is built for, with what only that platform
/// brings to the build.
#[derive(Clone, Debug, PartialEq, Eq)]
pub enum Target {
    /// Windows, where the window carries an icon.
    Windows { icon: IconImage },
    /// macOS, where the window carries the application menu.
    MacOs,
    /// Linux, with neither.
    Linux,
}

/// What a `Target` is to a contract.
pub enum TargetView {
    Windows { icon: IconView },
    MacOs,
    Linux,
}

impl TargetView {
    /// The platform family of the target.
    pub open spec fn platform(self) -> Platform {
        match self {
            TargetView::Windows { .. } => Platform::Windows,
            TargetView::MacOs => Platform::MacOs,
            TargetView::Linux => Platform::Linux,
        }
    }
}

impl View for Target {
    type V = TargetView;

    open spec fn view(&self) -> TargetView {
        match self {
            Target::Windows { icon } => TargetView::Windows { icon: icon@ },
            Target::MacOs => TargetView::MacOs,
            Target::Linux => TargetView::Linux,
        }
    }
}

impl Target {
    /// The platform family of the target.
    pub fn platform(&self) -> (r: Platform)
        ensures
            r == self@.platform(),
    {
        match self {
            Target::Windows { .. } => Platform::Windows,
            Target::MacOs => Platform::MacOs,
            Target::Linux => Platform::Linux,
        }
    }
}

/// What the native toolkit is asked for when the window is built.
#[derive(Clone, Debug, PartialEq, Eq)]
pub struct WindowAttributes {
    /// The inner width in logical pixels, as the bits of a binary64 number.
    pub width_bits: u64,
    /// The inner height in logical pixels, as the bits of a binary64 number.
    pub height_bits: u64,
    /// Whether the user may resize the window.
    pub resizable: bool,
    /// Whether the window starts in borderless fullscreen on its current
    /// monitor. Exclusive fullscreen is never asked for.
    pub fullscreen: bool,
    /// Whether the platform's frame is drawn around the content.
    pub decorations: bool,
    /// The title to set; `None` leaves the toolkit's own.
    pub title: Option<String>,
    /// The icon to attach, if any.
    pub icon: Option<IconImage>,
    /// The menu bar to attach, if any.
    pub menu: Option<MenuModel>,
    /// Whether the content reaches under the title bar.
    pub fullsize_content_view: bool,
    /// Whether the title bar is drawn transparent.
    pub titlebar_transparent: bool,
    /// Whether the title text is hidden.
    pub title_hidden: bool,
    /// Whether the buttons of the title bar are hidden.
    pub titlebar_buttons_hidden: bool,
}

/// What `WindowAttributes` are to a contract.
pub struct WindowAttributesView {
    pub width_bits: u64,
    pub height_bits: u64,
    pub resizable: bool,
    pub fullscreen: bool,
    pub decorations: bool,
    pub title: Option<Seq<char>>,
    pub icon: Option<IconView>,
    pub menu: Option<Seq<SubmenuView>>,
    pub fullsize_content_view: bool,
    pub titlebar_transparent: bool,
    pub title_hidden: bool,
    pub titlebar_buttons_hidden: bool,
}

impl View for WindowAttributes {
    type V = WindowAttributesView;

    open spec fn view(&self) -> WindowAttributesView {
        WindowAttributesView {
            width_bits: self.width_bits,
            height_bits: self.height_bits,
            resizable: self.resizable,
            fullscreen: self.fullscreen,
            decorations: self.decorations,
            title: match self.title {
                Some(t) => Some(t@),
                None => None,
            },
            icon: match self.icon {
                Some(i) => Some(i@),
                None => None,
            },
            menu: match self.menu {
                Some(m) => Some(m@),
                None => None,
            },
            fullsize_content_view: self.fullsize_content_view,
            titlebar_transparent: self.titlebar_transparent,
            title_hidden: self.title_hidden,
            titlebar_buttons_hidden: self.titlebar_buttons_hidden,
        }
    }
}

/// The attributes of the window for a configuration on a target.
///
/// Size, resizability and fullscreen come from the configuration on every
/// platform, and the frame is always drawn. Windows and Linux set an empty
/// title, since the page draws its own; Windows attaches the icon. macOS
/// lets the content reach under a transparent title bar, hides the title
/// text and attaches the application menu. The buttons of the title bar stay
/// visible everywhere.
pub open spec fn attributes_for(spec: WindowEntryView, target: TargetView) -> WindowAttributesView {
    WindowAttributesView {
        width_bits: spec.width_bits,
        height_bits: spec.height_bits,
        resizable: spec.resizable,
        fullscreen: spec.fullscreen,
        decorations: true,
        title: match target {
            TargetView::MacOs => None,
            _ => Some(Seq::<char>::empty()),
        },
        icon: match target {
            TargetView::Windows { icon } => Some(icon),
            _ => None,
        },
        menu: match target {
            TargetView::MacOs => Some(app_menu()),
            _ => None,
        },
        fullsize_content_view: target.platform() == Platform::MacOs,
        titlebar_transparent: target.platform() == Platform::MacOs,
        title_hidden: target.platform() == Platform::MacOs,
        titlebar_buttons_hidden: false,
    }
}

/// Works out what to ask of the toolkit for the window of a configuration.
pub fn build_window(spec: &WindowSpec, target: Target) -> (r: WindowAttributes)
    ensures
        r@ == attributes_for(spec@, target@),
        r.width_bits == spec@.width_bits,
        r.height_bits == spec@.height_bits,
        r.resizable == spec@.resizable,
        r.fullscreen == spec@.fullscreen,
{
    let mac = match target {
        Target::MacOs => true,
        _ => false,
    };
    let (title, icon, menu) = match target {
        Target::Windows { icon } => (Some(String::new()), Some(icon), None),
        Target::MacOs => (None, None, Some(build_menu())),
        Target::Linux => (Some(String::new()), None, None),
    };
    WindowAttributes {
        width_bits: spec.width_bits(),
        height_bits: spec.height_bits(),
        resizable: spec.resizable(),
        fullscreen: spec.fullscreen(),
        decorations: true,
        title,
        icon,
        menu,
        fullsize_content_view: mac,
        titlebar_transparent: mac,
        title_hidden: mac,
        titlebar_buttons_hidden: false,
    }
}

/// What the built window reports of itself.
#[derive(Clone, Copy, Debug, PartialEq, Eq, Structural)]
pub struct WindowState {
    /// The inner width in logical pixels, as the bits of a binary64 number.
    pub width_bits: u64,
    /// The inner height in logical pixels, as the bits of a binary64 number.
    pub height_bits: u64,
    /// Whether the user may resize the window.
    pub resizable: bool,
    /// Whether the window is in borderless fullscreen.
    pub fullscreen: bool,
    /// Whether the window is minimized.
    pub minimized: bool,
}

impl WindowState {
    /// The state of a window that was just built with the attributes.
    pub open spec fn built_with(attrs: WindowAttributesView) -> WindowState {
        WindowState {
            width_bits: attrs.width_bits,
            height_bits: attrs.height_bits,
            resizable: attrs.resizable,
            fullscreen: attrs.fullscreen,
            minimized: false,
        }
    }

    /// The state once an action of the bridge is done. A drag moves the
    /// window and a browser opens elsewhere: neither shows in the state.
    pub open spec fn after(self, action: BridgeActionView) -> WindowState {
        match action {
            BridgeActionView::SetFullscreen(on) => WindowState { fullscreen: on, ..self },
            _ => self,
        }
    }

    /// The state once a message of page script is handled and its action done.
    pub open spec fn after_message(self, msg: Seq<char>) -> WindowState {
        self.after(action_for(self.fullscreen, command_of(msg)))
    }

    /// The state once the window is minimized.
    pub open spec fn minimized_now(self) -> WindowState {
        WindowState { minimized: true, ..self }
    }

    /// The state of a window that was just built with the attributes.
    pub fn built(attrs: &WindowAttributes) -> (r: WindowState)
        ensures
            r == WindowState::built_with(attrs@),
    {
        WindowState {
            width_bits: attrs.width_bits,
            height_bits: attrs.height_bits,
            resizable: attrs.resizable,
            fullscreen: attrs.fullscreen,
            minimized: false,
        }
    }

    /// Records that an action of the bridge was done on the window.
    pub fn perform(&mut self, action: &BridgeAction)
        ensures
            *final(self) == old(self).after(action@),
    {
        match action {
            BridgeAction::SetFullscreen(on) => {
                self.fullscreen = *on;
            },
            _ => {},
        }
    }

    /// Records that the window was minimized.
    pub fn minimize(&mut self)
        ensures
            *final(self) == old(self).minimized_now(),
    {
        self.minimized = true;
    }
}

/// A window built for a configuration reports the configuration's width,
/// height and resizability, on every target.
pub proof fn lemma_built_window_reports_spec(spec: WindowEntryView, target: TargetView)
    ensures
        WindowState::built_with(attributes_for(spec, target)).width_bits == spec.width_bits,
        WindowState::built_with(attributes_for(spec, target)).height_bits == spec.height_bits,
        WindowState::built_with(attributes_for(spec, target)).resizable == spec.resizable,
{
}

/// A window built for a configuration is in fullscreen from the start exactly
/// when the configuration says so: no message has to follow.
pub proof fn lemma_built_window_starts_as_configured(spec: WindowEntryView, target: TargetView)
    ensures
        WindowState::built_with(attributes_for(spec, target)).fullscreen == spec.fullscreen,
        spec.fullscreen ==> attributes_for(spec, target).fullscreen,
{
}

/// The fullscreen message sent twice leaves the window in the state it was
/// in, and sent once changes its fullscreen state and nothing else.
pub proof fn lemma_fullscreen_round_trip(state: WindowState)
    ensures
        state.after_message(fullscreen_word()).after_message(fullscreen_word()) == state,
        state.after_message(fullscreen_word()) == (WindowState {
            fullscreen: !state.fullscreen,
            ..state
        }),
{
    reveal_strlit("fullscreen");
    reveal_strlit("drag_window");
    assert(fullscreen_word().len() != drag_word().len());
}

/// A message that is neither of the two words nor begins with the browser
/// prefix asks for nothing and changes nothing.
pub proof fn lemma_unknown_message_is_inert(state: WindowState, msg: Seq<char>)
    requires
        msg != drag_word(),
        msg != fullscreen_word(),
        !browser_prefix().is_prefix_of(msg),
    ensures
        action_for(state.fullscreen, command_of(msg)) == BridgeActionView::Ignore,
        state.after_message(msg) == state,
{
}

} // verus!
