use vicoo_desktop::{
    drive, Action, HookError, HookEvent, HookPhase, Host, Lifecycle, PlatformAdapter, SetupHook,
    Window,
};

fn all_phases() -> Vec<HookPhase> {
    vec![
        HookPhase::NotStarted,
        HookPhase::Announcing,
        HookPhase::Resolving,
        HookPhase::Adjusting,
        HookPhase::ReadingTitle,
        HookPhase::Reporting,
        HookPhase::Completed,
        HookPhase::Aborted,
    ]
}

fn all_events() -> Vec<HookEvent> {
    vec![
        HookEvent::Invoked,
        HookEvent::Done,
        HookEvent::WindowResolved,
        HookEvent::WindowMissing,
        HookEvent::Title(None),
        HookEvent::Title(Some("Vicoo".to_string())),
    ]
}

#[test]
fn fresh_hook_has_not_started() {
    let hook = SetupHook::new(PlatformAdapter::Shadow);
    assert_eq!(hook.phase, HookPhase::NotStarted);
    assert_eq!(hook.adapter, PlatformAdapter::Shadow);
    assert_eq!(hook.invocations(), 0);
    assert_eq!(hook.phase.lifecycle(), Lifecycle::NotStarted);
}

#[test]
fn steps_of_a_hook_with_the_shadow_adapter() {
    let mut hook = SetupHook::new(PlatformAdapter::Shadow);
    assert_eq!(
        hook.step(HookEvent::Invoked),
        Ok(Action::Log("Vicoo Desktop setup complete".to_string()))
    );
    assert_eq!(hook.phase, HookPhase::Announcing);
    assert_eq!(hook.step(HookEvent::Done), Ok(Action::ResolveWindow("main".to_string())));
    assert_eq!(hook.phase, HookPhase::Resolving);
    assert_eq!(hook.step(HookEvent::WindowResolved), Ok(Action::ApplyShadow("main".to_string())));
    assert_eq!(hook.phase, HookPhase::Adjusting);
    assert_eq!(hook.step(HookEvent::Done), Ok(Action::ReadTitle("main".to_string())));
    assert_eq!(hook.phase, HookPhase::ReadingTitle);
    assert_eq!(
        hook.step(HookEvent::Title(Some("Vicoo".to_string()))),
        Ok(Action::Log("Window initialized: Vicoo".to_string()))
    );
    assert_eq!(hook.phase, HookPhase::Reporting);
    assert_eq!(hook.step(HookEvent::Done), Ok(Action::CompleteSetup));
    assert_eq!(hook.phase, HookPhase::Completed);
    assert_eq!(hook.phase.lifecycle(), Lifecycle::Completed);
    assert_eq!(hook.invocations(), 1);
}

#[test]
fn steps_of_a_hook_with_the_null_adapter() {
    let mut hook = SetupHook::new(PlatformAdapter::Null);
    assert!(hook.step(HookEvent::Invoked).is_ok());
    assert!(hook.step(HookEvent::Done).is_ok());
    assert_eq!(hook.step(HookEvent::WindowResolved), Ok(Action::ReadTitle("main".to_string())));
    assert_eq!(hook.phase, HookPhase::ReadingTitle);
}

#[test]
fn missing_window_aborts_the_hook() {
    let mut hook = SetupHook::new(PlatformAdapter::Shadow);
    assert!(hook.step(HookEvent::Invoked).is_ok());
    assert!(hook.step(HookEvent::Done).is_ok());
    assert_eq!(
        hook.step(HookEvent::WindowMissing),
        Ok(Action::Abort("primary window not found: main".to_string()))
    );
    assert_eq!(hook.phase, HookPhase::Aborted);
    assert_eq!(hook.phase.lifecycle(), Lifecycle::Running);
    assert!(hook.phase.is_terminal());
    for event in all_events() {
        let refused = hook.step(event);
        assert!(refused.is_err());
        assert_eq!(hook.phase, HookPhase::Aborted);
    }
}

#[test]
fn failed_title_lookup_gives_an_empty_title() {
    let mut hook = SetupHook { phase: HookPhase::ReadingTitle, adapter: PlatformAdapter::Null };
    assert_eq!(
        hook.step(HookEvent::Title(None)),
        Ok(Action::Log("Window initialized: ".to_string()))
    );
    assert_eq!(hook.step(HookEvent::Done), Ok(Action::CompleteSetup));
    assert_eq!(hook.phase, HookPhase::Completed);
}

#[test]
fn second_entry_is_refused_in_every_phase() {
    for phase in all_phases() {
        if phase == HookPhase::NotStarted {
            continue;
        }
        for adapter in [PlatformAdapter::Null, PlatformAdapter::Shadow] {
            let mut hook = SetupHook { phase, adapter };
            assert_eq!(hook.step(HookEvent::Invoked), Err(HookError::AlreadyInvoked));
            assert_eq!(hook, SetupHook { phase, adapter });
        }
    }
}

#[test]
fn events_out_of_order_are_refused() {
    let mut hook = SetupHook::new(PlatformAdapter::Shadow);
    assert_eq!(hook.step(HookEvent::Done), Err(HookError::OutOfOrder));
    assert_eq!(hook.step(HookEvent::WindowResolved), Err(HookError::OutOfOrder));
    assert_eq!(hook.step(HookEvent::WindowMissing), Err(HookError::OutOfOrder));
    assert_eq!(hook.step(HookEvent::Title(None)), Err(HookError::OutOfOrder));
    assert_eq!(hook.phase, HookPhase::NotStarted);
    assert_eq!(hook.invocations(), 0);
    assert!(hook.step(HookEvent::Invoked).is_ok());
    assert_eq!(hook.step(HookEvent::WindowResolved), Err(HookError::OutOfOrder));
    assert_eq!(hook.step(HookEvent::Title(Some("x".to_string()))), Err(HookError::OutOfOrder));
    assert_eq!(hook.phase, HookPhase::Announcing);
}

#[test]
fn completed_hook_refuses_everything() {
    let mut hook = SetupHook { phase: HookPhase::Completed, adapter: PlatformAdapter::Shadow };
    assert!(hook.phase.is_terminal());
    assert_eq!(hook.step(HookEvent::Invoked), Err(HookError::AlreadyInvoked));
    assert_eq!(hook.step(HookEvent::Done), Err(HookError::OutOfOrder));
    assert_eq!(hook.step(HookEvent::WindowResolved), Err(HookError::OutOfOrder));
    assert_eq!(hook.step(HookEvent::WindowMissing), Err(HookError::OutOfOrder));
    assert_eq!(hook.step(HookEvent::Title(None)), Err(HookError::OutOfOrder));
    assert_eq!(hook.phase, HookPhase::Completed);
}

#[test]
fn every_accepted_step_moves_forward() {
    fn rank(l: Lifecycle) -> u8 {
        match l {
            Lifecycle::NotStarted => 0,
            Lifecycle::Running => 1,
            Lifecycle::Completed => 2,
        }
    }
    for phase in all_phases() {
        for adapter in [PlatformAdapter::Null, PlatformAdapter::Shadow] {
            for event in all_events() {
                let before = SetupHook { phase, adapter };
                let mut hook = before;
                let result = hook.step(event);
                assert_eq!(hook.adapter, adapter);
                assert!(rank(hook.phase.lifecycle()) >= rank(before.phase.lifecycle()));
                if result.is_err() {
                    assert_eq!(hook, before);
                } else {
                    assert_ne!(hook.phase, before.phase);
                }
            }
        }
    }
}

#[test]
fn null_adapter_never_asks_for_an_adjustment() {
    for phase in all_phases() {
        for event in all_events() {
            let mut hook = SetupHook { phase, adapter: PlatformAdapter::Null };
            if let Ok(action) = hook.step(event) {
                assert!(!action.is_adjustment());
            }
        }
    }
}

#[test]
fn adjustment_only_after_the_window_was_resolved() {
    for phase in all_phases() {
        for event in all_events() {
            let mut hook = SetupHook { phase, adapter: PlatformAdapter::Shadow };
            let asked = event.clone();
            if let Ok(action) = hook.step(event) {
                if action.is_adjustment() {
                    assert_eq!(phase, HookPhase::Resolving);
                    assert_eq!(asked, HookEvent::WindowResolved);
                }
            }
        }
    }
}

#[test]
fn hook_is_entered_once_whatever_arrives() {
    let events = vec![
        HookEvent::Done,
        HookEvent::Invoked,
        HookEvent::Invoked,
        HookEvent::Done,
        HookEvent::Invoked,
        HookEvent::WindowResolved,
        HookEvent::Done,
        HookEvent::Title(None),
        HookEvent::Invoked,
        HookEvent::Done,
        HookEvent::Invoked,
        HookEvent::Done,
    ];
    let mut hook = SetupHook::new(PlatformAdapter::Shadow);
    let mut entries: usize = 0;
    for event in events {
        let is_entry = event == HookEvent::Invoked;
        if hook.step(event).is_ok() && is_entry {
            entries += 1;
        }
    }
    assert_eq!(entries, 1);
    assert_eq!(hook.invocations(), 1);
    assert_eq!(hook.phase, HookPhase::Completed);
}

#[test]
fn lifecycle_of_each_phase() {
    assert_eq!(HookPhase::NotStarted.lifecycle(), Lifecycle::NotStarted);
    assert_eq!(HookPhase::Announcing.lifecycle(), Lifecycle::Running);
    assert_eq!(HookPhase::Resolving.lifecycle(), Lifecycle::Running);
    assert_eq!(HookPhase::Adjusting.lifecycle(), Lifecycle::Running);
    assert_eq!(HookPhase::ReadingTitle.lifecycle(), Lifecycle::Running);
    assert_eq!(HookPhase::Reporting.lifecycle(), Lifecycle::Running);
    assert_eq!(HookPhase::Completed.lifecycle(), Lifecycle::Completed);
    assert_eq!(HookPhase::Aborted.lifecycle(), Lifecycle::Running);
    assert!(!HookPhase::Reporting.is_terminal());
    assert!(!HookPhase::NotStarted.is_terminal());
}

#[test]
fn drive_runs_the_hook_to_its_end() {
    let host = Host::with_windows(vec![Window {
        label: "main".to_string(),
        title: Some("Vicoo".to_string()),
    }]);
    let done = drive(SetupHook::new(PlatformAdapter::Shadow), &host);
    assert_eq!(
        done.actions,
        vec![
            Action::Log("Vicoo Desktop setup complete".to_string()),
            Action::ResolveWindow("main".to_string()),
            Action::ApplyShadow("main".to_string()),
            Action::ReadTitle("main".to_string()),
            Action::Log("Window initialized: Vicoo".to_string()),
            Action::CompleteSetup,
        ]
    );
    assert_eq!(done.hook.phase, HookPhase::Completed);
}

#[test]
fn drive_of_a_hook_that_has_run_does_nothing() {
    let host = Host::with_windows(vec![]);
    for phase in all_phases() {
        if phase == HookPhase::NotStarted {
            continue;
        }
        let hook = SetupHook { phase, adapter: PlatformAdapter::Shadow };
        let done = drive(hook, &host);
        assert!(done.actions.is_empty());
        assert_eq!(done.hook, hook);
    }
}

#[test]
fn host_answers_each_hook_action() {
    let host = Host::with_windows(vec![Window { label: "main".to_string(), title: None }]);
    assert_eq!(host.answer(&Action::Log("x".to_string())), Some(HookEvent::Done));
    assert_eq!(host.answer(&Action::ApplyShadow("main".to_string())), Some(HookEvent::Done));
    assert_eq!(host.answer(&Action::ApplyShadow("gone".to_string())), Some(HookEvent::Done));
    assert_eq!(
        host.answer(&Action::ResolveWindow("main".to_string())),
        Some(HookEvent::WindowResolved)
    );
    assert_eq!(
        host.answer(&Action::ResolveWindow("gone".to_string())),
        Some(HookEvent::WindowMissing)
    );
    assert_eq!(host.answer(&Action::ReadTitle("main".to_string())), Some(HookEvent::Title(None)));
    assert_eq!(host.answer(&Action::ReadTitle("gone".to_string())), Some(HookEvent::Title(None)));
    assert_eq!(host.answer(&Action::CompleteSetup), None);
    assert_eq!(host.answer(&Action::Abort("x".to_string())), None);
    assert_eq!(host.answer(&Action::Launch), None);
    assert_eq!(host.answer(&Action::InitLogging), None);
}
