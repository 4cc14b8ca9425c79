use std::sync::{Arc, Mutex};

use droneviz::coordinator::{
    on_lifecycle_event, LifecycleEvent, ShutdownSequence, ShutdownStep, EXIT_STATUS,
    SHUTDOWN_NOTICE,
};
use droneviz::error::{FatalCause, ShutdownError, StartupError};
use droneviz::launcher::{
    complete_launch, plan_launch, setup_steps, SetupStep, SIDECAR_PROGRAM,
};
use droneviz::platform::{spawn_flags, PlatformPolicy, SpawnFlags, TargetOs, CREATE_NO_WINDOW};
use droneviz::registry::HandleSlot;

/// Drives one shutdown sequence with the given step outcomes and returns the
/// steps performed and the errors reported.
fn run_sequence(
    mut seq: ShutdownSequence,
    notice_ok: bool,
    kill_ok: bool,
) -> (Vec<ShutdownStep>, Vec<ShutdownError>) {
    let mut steps = Vec::new();
    let mut errors = Vec::new();
    loop {
        let step = seq.current();
        steps.push(step);
        let ok = match step {
            ShutdownStep::WriteNotice => notice_ok,
            ShutdownStep::Kill => kill_ok,
            ShutdownStep::Exit(_) => break,
        };
        if let Some(e) = seq.record(ok) {
            errors.push(e);
        }
    }
    (steps, errors)
}

#[test]
fn take_gives_the_handle_once() {
    let mut slot = HandleSlot::holding(7u32);
    assert!(slot.is_occupied());
    assert_eq!(slot.take(), Some(7));
    assert!(!slot.is_occupied());
    assert_eq!(slot.take(), None);
    assert_eq!(slot.take(), None);
}

#[test]
fn vacant_slot_gives_nothing_on_take() {
    let mut slot: HandleSlot<u32> = HandleSlot::vacant();
    assert!(!slot.is_occupied());
    assert_eq!(slot.take(), None);
}

#[test]
fn concurrent_takes_have_one_winner() {
    for n in [1usize, 2, 8, 32] {
        let slot = Arc::new(Mutex::new(HandleSlot::holding(42u64)));
        let callers: Vec<Arc<Mutex<HandleSlot<u64>>>> = (0..n).map(|_| Arc::clone(&slot)).collect();
        let results: Vec<Option<u64>> =
            callers.iter().rev().map(|shared| shared.lock().unwrap().take()).collect();
        assert_eq!(results.iter().filter(|r| r.is_some()).count(), 1);
        assert_eq!(results.iter().filter(|r| r.is_none()).count(), n - 1);
        assert!(results.contains(&Some(42)));
    }
}

#[test]
fn scenario_window_close_once_then_again() {
    let mut slot = complete_launch::<u32, ()>(Ok(5)).unwrap();
    let (child, seq) = on_lifecycle_event(&mut slot, LifecycleEvent::WindowCloseRequested)
        .expect("first close request starts the shutdown");
    assert_eq!(child, 5);
    let (steps, errors) = run_sequence(seq, true, true);
    assert_eq!(
        steps,
        vec![ShutdownStep::WriteNotice, ShutdownStep::Kill, ShutdownStep::Exit(0)]
    );
    assert!(errors.is_empty());
    assert!(on_lifecycle_event(&mut slot, LifecycleEvent::WindowCloseRequested).is_none());
}

#[test]
fn scenario_close_and_exit_concurrently() {
    let orders = [
        [LifecycleEvent::WindowCloseRequested, LifecycleEvent::ApplicationExitRequested],
        [LifecycleEvent::ApplicationExitRequested, LifecycleEvent::WindowCloseRequested],
    ];
    for order in orders {
        let slot = Arc::new(Mutex::new(complete_launch::<u32, ()>(Ok(9)).unwrap()));
        let listeners = [Arc::clone(&slot), Arc::clone(&slot)];
        let runs: Vec<(u32, Vec<ShutdownStep>)> = order
            .iter()
            .zip(listeners.iter())
            .filter_map(|(event, shared)| {
                let taken = on_lifecycle_event(&mut shared.lock().unwrap(), *event);
                taken.map(|(child, seq)| (child, run_sequence(seq, true, true).0))
            })
            .collect();
        assert_eq!(runs.len(), 1);
        assert_eq!(runs[0].0, 9);
        assert_eq!(
            runs[0].1,
            vec![ShutdownStep::WriteNotice, ShutdownStep::Kill, ShutdownStep::Exit(0)]
        );
    }
}

#[test]
fn scenario_spawn_fails() {
    let launch = complete_launch::<u32, &str>(Err("no such file"));
    assert_eq!(
        launch.as_ref().err(),
        Some(&StartupError::StartupFatal(FatalCause::SpawnFailed))
    );
    assert!(setup_steps(&launch).is_empty());
}

#[test]
fn successful_launch_shows_window_and_listens() {
    let launch = complete_launch::<u32, ()>(Ok(1));
    assert_eq!(
        setup_steps(&launch),
        vec![SetupStep::ShowWindow, SetupStep::WatchWindowClose, SetupStep::WatchAppExit]
    );
}

#[test]
fn any_event_mix_shuts_down_once() {
    let w = LifecycleEvent::WindowCloseRequested;
    let a = LifecycleEvent::ApplicationExitRequested;
    let mixes = [vec![w], vec![a], vec![a, w], vec![w, w, a, a, w], vec![a, a, a]];
    for events in mixes {
        let mut slot = HandleSlot::holding(3u8);
        let started: Vec<bool> = events
            .iter()
            .map(|e| on_lifecycle_event(&mut slot, *e).is_some())
            .collect();
        assert!(started[0]);
        assert_eq!(started.iter().filter(|s| **s).count(), 1);
    }
}

#[test]
fn notice_failure_still_kills_and_exits() {
    let (steps, errors) = run_sequence(ShutdownSequence::begin(), false, true);
    assert_eq!(
        steps,
        vec![ShutdownStep::WriteNotice, ShutdownStep::Kill, ShutdownStep::Exit(0)]
    );
    assert_eq!(errors, vec![ShutdownError::ShutdownNoticeFailed]);
}

#[test]
fn kill_failure_still_exits() {
    let (steps, errors) = run_sequence(ShutdownSequence::begin(), true, false);
    assert_eq!(steps.last(), Some(&ShutdownStep::Exit(0)));
    assert_eq!(steps.len(), 3);
    assert_eq!(errors, vec![ShutdownError::ShutdownKillFailed]);
}

#[test]
fn both_failures_still_exit_zero() {
    let (steps, errors) = run_sequence(ShutdownSequence::begin(), false, false);
    assert_eq!(
        steps,
        vec![ShutdownStep::WriteNotice, ShutdownStep::Kill, ShutdownStep::Exit(EXIT_STATUS)]
    );
    assert_eq!(
        errors,
        vec![ShutdownError::ShutdownNoticeFailed, ShutdownError::ShutdownKillFailed]
    );
    assert_eq!(EXIT_STATUS, 0);
}

#[test]
fn notice_is_one_line() {
    assert!(SHUTDOWN_NOTICE.ends_with('\n'));
    assert_eq!(SHUTDOWN_NOTICE.matches('\n').count(), 1);
}

#[test]
fn windows_hides_the_console() {
    for policy in [PlatformPolicy::Degrade, PlatformPolicy::RequireHiding] {
        assert_eq!(
            spawn_flags(TargetOs::Windows, policy),
            Ok(SpawnFlags { hide_console: true, creation_flags: 0x0800_0000 })
        );
    }
    assert_eq!(CREATE_NO_WINDOW, 0x0800_0000);
}

#[test]
fn other_systems_degrade_or_refuse() {
    for os in [TargetOs::Linux, TargetOs::MacOs, TargetOs::Other] {
        assert_eq!(
            spawn_flags(os, PlatformPolicy::Degrade),
            Ok(SpawnFlags { hide_console: false, creation_flags: 0 })
        );
        assert_eq!(
            spawn_flags(os, PlatformPolicy::RequireHiding),
            Err(StartupError::UnsupportedPlatform)
        );
    }
}

#[test]
fn launch_plan_runs_sidecar_on_entry() {
    let entry = "/opt/app/resources/_up_/.output/server/index.mjs".to_string();
    let req = plan_launch(TargetOs::Windows, PlatformPolicy::Degrade, Some(entry.clone())).unwrap();
    assert_eq!(req.program, "droneviz-node");
    assert_eq!(req.program, SIDECAR_PROGRAM);
    assert_eq!(req.args, vec![entry]);
    assert_eq!(req.flags.creation_flags, CREATE_NO_WINDOW);
    assert!(req.flags.hide_console);
}

#[test]
fn launch_plan_errors() {
    assert_eq!(
        plan_launch(TargetOs::Linux, PlatformPolicy::Degrade, None).err(),
        Some(StartupError::StartupFatal(FatalCause::ResourceUnresolved))
    );
    assert_eq!(
        plan_launch(TargetOs::Linux, PlatformPolicy::RequireHiding, None).err(),
        Some(StartupError::StartupFatal(FatalCause::ResourceUnresolved))
    );
    assert_eq!(
        plan_launch(TargetOs::Linux, PlatformPolicy::RequireHiding, Some("x".to_string())).err(),
        Some(StartupError::UnsupportedPlatform)
    );
    let req = plan_launch(TargetOs::MacOs, PlatformPolicy::Degrade, Some("x".to_string())).unwrap();
    assert!(!req.flags.hide_console);
    assert_eq!(req.flags.creation_flags, 0);
}
