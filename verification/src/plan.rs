//! The startup plan: the fixed list of plugins the shell registers, the
//! ordered sequence of startup steps, and the ordering facts that hold
//! of every plan.

use vstd::prelude::*;
use crate::platform::Platform;
use crate::platform::platform_needs_dmabuf_workaround;
use crate::platform::needs_dmabuf_workaround;

verus! {

/// The capability plugins the shell registers with the application
/// builder, one variant per plugin.
#[derive(Clone, Copy, Debug, PartialEq, Eq, Structural)]
pub enum Plugin {
    /// Opens paths and URLs with the system's default handlers.
    Opener,
    /// Persists and restores window geometry.
    WindowState,
    /// Key-value store.
    Store,
    /// Process lifecycle control.
    Process,
    /// SQL database access.
    Sql,
    /// Filesystem access.
    Fs,
    /// Native dialogs.
    Dialog,
    /// Desktop notifications.
    Notification,
    /// HTTP client.
    Http,
}

/// The fixed order in which the plugins are registered.
pub open spec fn plugin_order_spec() -> Seq<Plugin> {
    seq![
        Plugin::Opener,
        Plugin::WindowState,
        Plugin::Store,
        Plugin::Process,
        Plugin::Sql,
        Plugin::Fs,
        Plugin::Dialog,
        Plugin::Notification,
        Plugin::Http,
    ]
}

/// Returns the plugins in registration order.
pub fn plugin_order() -> (r: Vec<Plugin>)
    ensures
        r@ == plugin_order_spec(),
{
    let mut v: Vec<Plugin> = Vec::new();
    v.push(Plugin::Opener);
    v.push(Plugin::WindowState);
    v.push(Plugin::Store);
    v.push(Plugin::Process);
    v.push(Plugin::Sql);
    v.push(Plugin::Fs);
    v.push(Plugin::Dialog);
    v.push(Plugin::Notification);
    v.push(Plugin::Http);
    proof {
        assert(v@ =~= plugin_order_spec());
    }
    v
}

/// One step of the startup sequence.
#[derive(Clone, Copy, Debug, PartialEq, Eq, Structural)]
pub enum Step {
    /// Set the rendering-backend workaround variable in the process
    /// environment.
    SetRenderingEnvVar,
    /// Register the given plugin with the application builder.
    RegisterPlugin(Plugin),
    /// Hand control to the framework's event loop.
    StartEventLoop,
}

/// The plugin registrations as startup steps, in registration order.
pub open spec fn registration_steps() -> Seq<Step> {
    plugin_order_spec().map(|i: int, q: Plugin| Step::RegisterPlugin(q))
}

/// Index of the first plugin registration in the startup plan: the
/// environment step, where it applies, comes before every registration.
pub open spec fn registration_offset(p: Platform) -> int {
    if platform_needs_dmabuf_workaround(p) {
        1
    } else {
        0
    }
}

/// The whole startup sequence for platform `p`: the environment
/// workaround where it applies, then every plugin registration in the
/// fixed order, then the event loop.
pub open spec fn startup_steps_spec(p: Platform) -> Seq<Step> {
    (if platform_needs_dmabuf_workaround(p) {
        seq![Step::SetRenderingEnvVar]
    } else {
        Seq::<Step>::empty()
    }) + registration_steps() + seq![Step::StartEventLoop]
}

/// Builds the startup plan for platform `p`.
pub fn startup_plan(p: Platform) -> (r: Vec<Step>)
    ensures
        r@ == startup_steps_spec(p),
{
    let mut v: Vec<Step> = Vec::new();
    if needs_dmabuf_workaround(p) {
        v.push(Step::SetRenderingEnvVar);
    }
    v.push(Step::RegisterPlugin(Plugin::Opener));
    v.push(Step::RegisterPlugin(Plugin::WindowState));
    v.push(Step::RegisterPlugin(Plugin::Store));
    v.push(Step::RegisterPlugin(Plugin::Process));
    v.push(Step::RegisterPlugin(Plugin::Sql));
    v.push(Step::RegisterPlugin(Plugin::Fs));
    v.push(Step::RegisterPlugin(Plugin::Dialog));
    v.push(Step::RegisterPlugin(Plugin::Notification));
    v.push(Step::RegisterPlugin(Plugin::Http));
    v.push(Step::StartEventLoop);
    proof {
        assert(v@ =~= startup_steps_spec(p));
    }
    v
}

/// The shape every startup plan has: its length, the place of each
/// plugin registration, the environment step where it applies, and the
/// event loop at the end.
proof fn lemma_plan_shape(p: Platform)
    ensures
        startup_steps_spec(p).len() == registration_offset(p) + plugin_order_spec().len() + 1,
        forall|j: int|
            0 <= j < plugin_order_spec().len() ==> startup_steps_spec(p)[registration_offset(p)
                + j] == Step::RegisterPlugin(plugin_order_spec()[j]),
        platform_needs_dmabuf_workaround(p) ==> startup_steps_spec(p)[0]
            == Step::SetRenderingEnvVar,
        startup_steps_spec(p).last() == Step::StartEventLoop,
{
    assert forall|j: int| 0 <= j < plugin_order_spec().len() implies startup_steps_spec(
        p,
    )[registration_offset(p) + j] == Step::RegisterPlugin(plugin_order_spec()[j]) by {
        assert(registration_steps()[j] == Step::RegisterPlugin(plugin_order_spec()[j]));
    }
}

/// On the platform that needs the rendering workaround, the environment
/// step stands first in the startup plan, before every plugin
/// registration and before the event loop, and no later step touches
/// the environment.
pub proof fn lemma_workaround_set_before_builder()
    ensures
        startup_steps_spec(Platform::Linux).len() > 0,
        startup_steps_spec(Platform::Linux)[0] == Step::SetRenderingEnvVar,
        forall|i: int|
            0 < i < startup_steps_spec(Platform::Linux).len() ==> startup_steps_spec(
                Platform::Linux,
            )[i] != Step::SetRenderingEnvVar,
{
    lemma_plan_shape(Platform::Linux);
    let s = startup_steps_spec(Platform::Linux);
    assert forall|i: int| 0 < i < s.len() implies s[i] != Step::SetRenderingEnvVar by {
        if i < s.len() - 1 {
            assert(s[i] == Step::RegisterPlugin(plugin_order_spec()[i - 1]));
        } else {
            assert(s[i] == Step::StartEventLoop);
        }
    }
}

/// On every platform but the one that needs the rendering workaround,
/// no startup step touches the environment.
pub proof fn lemma_no_workaround_elsewhere(p: Platform)
    requires
        p != Platform::Linux,
    ensures
        forall|i: int|
            0 <= i < startup_steps_spec(p).len() ==> startup_steps_spec(p)[i]
                != Step::SetRenderingEnvVar,
{
    lemma_plan_shape(p);
    let s = startup_steps_spec(p);
    assert forall|i: int| 0 <= i < s.len() implies s[i] != Step::SetRenderingEnvVar by {
        if i < s.len() - 1 {
            assert(s[i] == Step::RegisterPlugin(plugin_order_spec()[i]));
        } else {
            assert(s[i] == Step::StartEventLoop);
        }
    }
}

/// Whether plan `s` registers plugin `q` at some step before its last
/// one (the last step of a startup plan is the event loop).
pub open spec fn registered_before_last(s: Seq<Step>, q: Plugin) -> bool {
    exists|i: int| #![trigger s[i]] 0 <= i < s.len() - 1 && s[i] == Step::RegisterPlugin(q)
}

/// On every platform the plan ends with the event loop and with nothing
/// after it, no earlier step starts the loop, and every plugin of the
/// fixed list is registered, at its place in the fixed order, before
/// the loop starts.
pub proof fn lemma_plugins_registered_before_event_loop(p: Platform)
    ensures
        startup_steps_spec(p).len() > 0,
        startup_steps_spec(p).last() == Step::StartEventLoop,
        forall|i: int|
            0 <= i < startup_steps_spec(p).len() - 1 ==> startup_steps_spec(p)[i]
                != Step::StartEventLoop,
        forall|j: int|
            0 <= j < plugin_order_spec().len() ==> startup_steps_spec(p)[registration_offset(p)
                + j] == Step::RegisterPlugin(plugin_order_spec()[j]),
        forall|q: Plugin| registered_before_last(startup_steps_spec(p), q),
{
    lemma_plan_shape(p);
    let s = startup_steps_spec(p);
    let off = registration_offset(p);
    assert forall|i: int| 0 <= i < s.len() - 1 implies s[i] != Step::StartEventLoop by {
        if i < off {
            assert(s[i] == Step::SetRenderingEnvVar);
        } else {
            assert(s[i] == Step::RegisterPlugin(plugin_order_spec()[i - off]));
        }
    }
    assert forall|q: Plugin| registered_before_last(s, q) by {
        match q {
            Plugin::Opener => {
                assert(s[off + 0] == Step::RegisterPlugin(Plugin::Opener));
            },
            Plugin::WindowState => {
                assert(s[off + 1] == Step::RegisterPlugin(Plugin::WindowState));
            },
            Plugin::Store => {
                assert(s[off + 2] == Step::RegisterPlugin(Plugin::Store));
            },
            Plugin::Process => {
                assert(s[off + 3] == Step::RegisterPlugin(Plugin::Process));
            },
            Plugin::Sql => {
                assert(s[off + 4] == Step::RegisterPlugin(Plugin::Sql));
            },
            Plugin::Fs => {
                assert(s[off + 5] == Step::RegisterPlugin(Plugin::Fs));
            },
            Plugin::Dialog => {
                assert(s[off + 6] == Step::RegisterPlugin(Plugin::Dialog));
            },
            Plugin::Notification => {
                assert(s[off + 7] == Step::RegisterPlugin(Plugin::Notification));
            },
            Plugin::Http => {
                assert(s[off + 8] == Step::RegisterPlugin(Plugin::Http));
            },
        }
    }
}

} // verus!

