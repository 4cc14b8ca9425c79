use vstd::prelude::*;

use crate::error::{FatalCause, StartupError};
use crate::platform::{flags_for, spawn_flags, PlatformPolicy, SpawnFlags, TargetOs};
use crate::registry::HandleSlot;

verus! {

/// Name under which the server runtime is bundled as a sidecar.
pub const SIDECAR_PROGRAM: &'static str = "droneviz-node";

/// Server entry point, relative to the bundled resource root.
pub const SERVER_ENTRY: &'static str = "_up_/.output/server/index.mjs";

/// Port on which the local web server of the window listens.
pub const LOCAL_PORT: u16 = 3000;

/// Everything needed to spawn the sidecar: program, arguments and flags.
#[derive(Debug)]
pub struct LaunchRequest {
    pub program: String,
    pub args: Vec<String>,
    pub flags: SpawnFlags,
}

/// Turns the resolved server entry point and the platform into the spawn
/// request for the sidecar: the bundled program, run on the entry point, with
/// the platform's flags.
///
/// An unresolved entry point is `StartupFatal(ResourceUnresolved)`; a
/// platform that the policy refuses is `UnsupportedPlatform`.
pub fn plan_launch(os: TargetOs, policy: PlatformPolicy, resolved_entry: Option<String>) -> (r: Result<
    LaunchRequest,
    StartupError,
>)
    ensures
        resolved_entry is None ==> r == Err::<LaunchRequest, StartupError>(
            StartupError::StartupFatal(FatalCause::ResourceUnresolved),
        ),
        resolved_entry is Some && flags_for(os, policy) is Err ==> r
            == Err::<LaunchRequest, StartupError>(StartupError::UnsupportedPlatform),
        r is Ok <==> (resolved_entry is Some && flags_for(os, policy) is Ok),
        r is Ok ==> ({
            let req = r->Ok_0;
            &&& req.program@ == SIDECAR_PROGRAM@
            &&& req.args@.len() == 1
            &&& req.args@[0]@ == resolved_entry->Some_0@
            &&& flags_for(os, policy) == Ok::<SpawnFlags, StartupError>(req.flags)
        }),
{
    let entry = match resolved_entry {
        Some(e) => e,
        None => {
            return Err(StartupError::StartupFatal(FatalCause::ResourceUnresolved));
        },
    };
    let flags = match spawn_flags(os, policy) {
        Ok(f) => f,
        Err(e) => {
            return Err(e);
        },
    };
    let mut args: Vec<String> = Vec::new();
    args.push(entry);
    Ok(LaunchRequest { program: SIDECAR_PROGRAM.to_owned(), args, flags })
}

/// Takes the outcome of spawning the sidecar. A live process is put into a
/// fresh slot, which the shutdown listeners will share; a failed spawn is
/// `StartupFatal(SpawnFailed)`, with no retry.
pub fn complete_launch<T, E>(spawned: Result<T, E>) -> (r: Result<HandleSlot<T>, StartupError>)
    ensures
        spawned is Ok <==> r is Ok,
        spawned is Ok ==> r->Ok_0@ == Some(spawned->Ok_0),
        spawned is Err ==> r == Err::<HandleSlot<T>, StartupError>(
            StartupError::StartupFatal(FatalCause::SpawnFailed),
        ),
{
    match spawned {
        Ok(child) => Ok(HandleSlot::holding(child)),
        Err(_) => Err(StartupError::StartupFatal(FatalCause::SpawnFailed)),
    }
}

/// What application setup does once the launch has an outcome.
#[derive(Debug, Clone, Copy, PartialEq, Eq, Structural)]
pub enum SetupStep {
    /// Build and show the main window.
    ShowWindow,
    /// Attach the shutdown listener to the window's close request.
    WatchWindowClose,
    /// Attach the shutdown listener to the application's exit request.
    WatchAppExit,
}

/// The steps of setup after launching, in order.
pub open spec fn setup_plan<T>(launch: Result<HandleSlot<T>, StartupError>) -> Seq<SetupStep> {
    if launch is Ok {
        seq![SetupStep::ShowWindow, SetupStep::WatchWindowClose, SetupStep::WatchAppExit]
    } else {
        Seq::empty()
    }
}

/// After a successful launch: show the window, then attach the shutdown
/// listener to both lifecycle notifications. After a failed one: nothing, so
/// no window appears and no listener is ever registered.
pub fn setup_steps<T>(launch: &Result<HandleSlot<T>, StartupError>) -> (r: Vec<SetupStep>)
    ensures
        r@ == setup_plan(*launch),
        launch is Err ==> r@.len() == 0,
{
    let mut steps: Vec<SetupStep> = Vec::new();
    if launch.is_ok() {
        steps.push(SetupStep::ShowWindow);
        steps.push(SetupStep::WatchWindowClose);
        steps.push(SetupStep::WatchAppExit);
    }
    proof {
        assert(steps@ =~= setup_plan(*launch));
    }
    steps
}

/// A spawn that fails yields `StartupFatal(SpawnFailed)`, and from that
/// outcome setup shows no window and registers no lifecycle listener.
pub proof fn failed_spawn_sets_up_nothing<T>(launch: Result<HandleSlot<T>, StartupError>)
    requires
        launch == Err::<HandleSlot<T>, StartupError>(StartupError::StartupFatal(FatalCause::SpawnFailed)),
    ensures
        setup_plan(launch).len() == 0,
        !setup_plan(launch).contains(SetupStep::ShowWindow),
        !setup_plan(launch).contains(SetupStep::WatchWindowClose),
        !setup_plan(launch).contains(SetupStep::WatchAppExit),
{
}

} // verus!
