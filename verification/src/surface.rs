//! The content surface: the options with which the page renderer is bound to
//! the window.

use vstd::prelude::*;
use crate::config::{WindowEntryView, WindowSpec};
use crate::window::Platform;

verus! {

/// The script that is injected into every page before the page's own.
#[derive(Clone, Copy, Debug, PartialEq, Eq, Structural)]
pub enum BootstrapScript {
    /// The script for platforms that draw a title bar.
    Default,
    /// The script for the platform whose title bar is hidden.
    HiddenTitlebar,
}

/// The options of the content surface.
#[derive(Clone, Debug, PartialEq, Eq)]
pub struct SurfaceOptions {
    /// The address to navigate to.
    pub url: String,
    /// Whether the developer tools are enabled; if so, their panel is opened
    /// as soon as the surface is built.
    pub devtools: bool,
    /// The script to inject.
    pub script: BootstrapScript,
}

/// What `SurfaceOptions` are to a contract.
pub struct SurfaceOptionsView {
    pub url: Seq<char>,
    pub devtools: bool,
    pub script: BootstrapScript,
}

impl View for SurfaceOptions {
    type V = SurfaceOptionsView;

    open spec fn view(&self) -> SurfaceOptionsView {
        SurfaceOptionsView { url: self.url@, devtools: self.devtools, script: self.script }
    }
}

/// The script of a platform: a fixed choice, not a setting.
pub open spec fn script_for(platform: Platform) -> BootstrapScript {
    match platform {
        Platform::MacOs => BootstrapScript::HiddenTitlebar,
        _ => BootstrapScript::Default,
    }
}

/// The options of the surface for a configuration on a platform.
pub open spec fn surface_for(
    spec: WindowEntryView,
    platform: Platform,
    devtools: bool,
) -> SurfaceOptionsView {
    SurfaceOptionsView { url: spec.url, devtools, script: script_for(platform) }
}

/// Works out the options of the content surface.
pub fn attach_surface(spec: &WindowSpec, platform: Platform, devtools: bool) -> (r: SurfaceOptions)
    ensures
        r@ == surface_for(spec@, platform, devtools),
{
    let script = match platform {
        Platform::MacOs => BootstrapScript::HiddenTitlebar,
        _ => BootstrapScript::Default,
    };
    SurfaceOptions { url: spec.url().clone(), devtools, script }
}

} // verus!
