//! Startup: from the configuration document to what is asked of the toolkit.

use vstd::prelude::*;
use crate::config::{
    ConfigError, WindowEntry, WindowEntryView, WindowSpec, entry_views, read_windows, resolved,
    window_from,
};
use crate::surface::{SurfaceOptions, SurfaceOptionsView, attach_surface, surface_for};
use crate::window::{
    Target, TargetView, WindowAttributes, WindowAttributesView, attributes_for, build_window,
};

verus! {

/// All that startup asks of the toolkit: the window, then the surface bound
/// to it.
#[derive(Clone, Debug, PartialEq, Eq)]
pub struct StartupPlan {
    pub window: WindowAttributes,
    pub surface: SurfaceOptions,
}

/// What a `StartupPlan` is to a contract.
pub struct StartupPlanView {
    pub window: WindowAttributesView,
    pub surface: SurfaceOptionsView,
}

impl View for StartupPlan {
    type V = StartupPlanView;

    open spec fn view(&self) -> StartupPlanView {
        StartupPlanView { window: self.window@, surface: self.surface@ }
    }
}

/// The plan for a configuration on a target.
pub open spec fn plan_of(spec: WindowEntryView, target: TargetView, devtools: bool) -> StartupPlanView {
    StartupPlanView {
        window: attributes_for(spec, target),
        surface: surface_for(spec, target.platform(), devtools),
    }
}

/// What startup comes to, given what the configuration resolved to: without
/// a configuration there is no plan, and so no window.
pub open spec fn startup_of(
    spec: Result<WindowEntryView, ConfigError>,
    target: TargetView,
    devtools: bool,
) -> Result<StartupPlanView, ConfigError> {
    match spec {
        Ok(spec) => Ok(plan_of(spec, target, devtools)),
        Err(e) => Err(e),
    }
}

/// What the result of planning is to a contract.
pub open spec fn plan_outcome(r: Result<StartupPlan, ConfigError>) -> Result<
    StartupPlanView,
    ConfigError,
> {
    match r {
        Ok(plan) => Ok(plan@),
        Err(e) => Err(e),
    }
}

/// Plans the window and its surface for a configuration.
pub fn plan_for(spec: &WindowSpec, target: Target, devtools: bool) -> (r: StartupPlan)
    ensures
        r@ == plan_of(spec@, target@, devtools),
{
    let platform = target.platform();
    let window = build_window(spec, target);
    let surface = attach_surface(spec, platform, devtools);
    StartupPlan { window, surface }
}

/// Plans startup from what was read of the configuration (`None`: it could
/// not be read). Without a configuration, or with a window that has no
/// positive size, there is the error and no plan.
pub fn plan_from(parsed: Option<Vec<WindowEntry>>, target: Target, devtools: bool) -> (r: Result<
    StartupPlan,
    ConfigError,
>)
    ensures
        plan_outcome(r) == startup_of(
            resolved(
                match parsed {
                    Some(entries) => Some(entry_views(entries@)),
                    None => None,
                },
            ),
            target@,
            devtools,
        ),
        parsed.is_none() ==> r == Err::<StartupPlan, ConfigError>(ConfigError::Malformed),
{
    match window_from(parsed) {
        Ok(spec) => Ok(plan_for(&spec, target, devtools)),
        Err(e) => Err(e),
    }
}

/// Plans startup from the configuration document. What is read of the
/// document is the reader's to say; whatever it is, the result is what
/// `plan_from` makes of it.
pub fn plan_startup(config: &str, target: Target, devtools: bool) -> (r: Result<
    StartupPlan,
    ConfigError,
>)
    ensures
        exists|parsed: Option<Seq<WindowEntryView>>|
            plan_outcome(r) == startup_of(#[trigger] resolved(parsed), target@, devtools),
{
    match read_windows(config) {
        Ok(entries) => {
            let r = plan_from(Some(entries), target, devtools);
            assert(plan_outcome(r) == startup_of(
                resolved(Some(entry_views(entries@))),
                target@,
                devtools,
            ));
            r
        },
        Err(_) => {
            let r = plan_from(None, target, devtools);
            assert(plan_outcome(r) == startup_of(
                resolved(None::<Seq<WindowEntryView>>),
                target@,
                devtools,
            ));
            r
        },
    }
}

/// A configuration that cannot be read, or whose window has no positive
/// size, leaves startup without a plan on every target: no window is asked
/// for.
pub proof fn lemma_no_plan_without_configuration(
    parsed: Option<Seq<WindowEntryView>>,
    target: TargetView,
    devtools: bool,
)
    ensures
        parsed.is_none() ==> startup_of(resolved(parsed), target, devtools) == Err::<
            StartupPlanView,
            ConfigError,
        >(ConfigError::Malformed),
        resolved(parsed).is_err() ==> startup_of(resolved(parsed), target, devtools).is_err(),
{
}

} // verus!
