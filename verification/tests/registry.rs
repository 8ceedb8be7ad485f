use vicoo_desktop::capability::{all, REGISTRY_LEN};
use vicoo_desktop::message;
use vicoo_desktop::{
    configuration, register_all, Action, Builder, Capability, PlatformAdapter, SetupHook, TargetOs,
};

fn in_order() -> Vec<Capability> {
    vec![
        Capability::Shell,
        Capability::Dialog,
        Capability::Fs,
        Capability::Notification,
        Capability::Os,
        Capability::Process,
        Capability::GlobalShortcut,
    ]
}

#[test]
fn registry_lists_seven_modules_in_order() {
    assert_eq!(REGISTRY_LEN, 7);
    assert_eq!(all(), in_order());
}

#[test]
fn declared_names() {
    let names: Vec<&str> = all().iter().map(|c| c.name()).collect();
    assert_eq!(
        names,
        vec!["shell", "dialog", "fs", "notification", "os", "process", "global-shortcut"]
    );
}

#[test]
fn declared_names_are_distinct() {
    let modules = all();
    for a in modules.iter() {
        for b in modules.iter() {
            assert_eq!(a.name() == b.name(), a == b);
        }
    }
}

#[test]
fn fresh_builder_is_empty() {
    let configuration = Builder::new().build();
    assert!(configuration.capabilities().is_empty());
    assert_eq!(configuration.setup_hook(), None);
}

#[test]
fn register_all_registers_the_registry() {
    let configuration = register_all(Builder::new()).build();
    assert_eq!(configuration.capabilities(), &in_order());
    assert_eq!(configuration.setup_hook(), None);
}

#[test]
fn registering_twice_changes_nothing() {
    let once = register_all(Builder::new()).build();
    let twice = register_all(register_all(Builder::new())).build();
    assert_eq!(once.capabilities(), twice.capabilities());
    assert_eq!(twice.capabilities().len(), 7);
}

#[test]
fn registration_keeps_the_hook_and_the_hook_keeps_the_registration() {
    let hook_first = register_all(Builder::new().with_setup_hook(PlatformAdapter::Shadow)).build();
    let hook_last = register_all(Builder::new()).with_setup_hook(PlatformAdapter::Shadow).build();
    assert_eq!(hook_first.capabilities(), hook_last.capabilities());
    assert_eq!(hook_first.setup_hook(), Some(SetupHook::new(PlatformAdapter::Shadow)));
    assert_eq!(hook_last.setup_hook(), Some(SetupHook::new(PlatformAdapter::Shadow)));
}

#[test]
fn later_hook_replaces_the_earlier_one() {
    let configuration = Builder::new()
        .with_setup_hook(PlatformAdapter::Shadow)
        .with_setup_hook(PlatformAdapter::Null)
        .build();
    assert_eq!(configuration.setup_hook(), Some(SetupHook::new(PlatformAdapter::Null)));
}

#[test]
fn standard_configuration_of_each_target() {
    for target in [
        TargetOs::Windows,
        TargetOs::MacOs,
        TargetOs::Linux,
        TargetOs::Ios,
        TargetOs::Android,
    ] {
        let configuration = configuration(target);
        assert_eq!(configuration.capabilities(), &in_order());
        let adapter = if target == TargetOs::Windows {
            PlatformAdapter::Shadow
        } else {
            PlatformAdapter::Null
        };
        assert_eq!(configuration.setup_hook(), Some(SetupHook::new(adapter)));
    }
}

#[test]
fn adapter_of_each_target() {
    assert_eq!(PlatformAdapter::for_target(TargetOs::Windows), PlatformAdapter::Shadow);
    assert_eq!(PlatformAdapter::for_target(TargetOs::MacOs), PlatformAdapter::Null);
    assert_eq!(PlatformAdapter::for_target(TargetOs::Linux), PlatformAdapter::Null);
    assert_eq!(PlatformAdapter::for_target(TargetOs::Ios), PlatformAdapter::Null);
    assert_eq!(PlatformAdapter::for_target(TargetOs::Android), PlatformAdapter::Null);
    assert!(PlatformAdapter::Shadow.adjusts());
    assert!(!PlatformAdapter::Null.adjusts());
}

#[test]
fn adapters_apply_the_shadow_or_nothing() {
    assert_eq!(
        PlatformAdapter::Shadow.apply_shadow("main".to_string()),
        Some(Action::ApplyShadow("main".to_string()))
    );
    assert_eq!(PlatformAdapter::Null.apply_shadow("main".to_string()), None);
}

#[test]
fn diagnostic_texts() {
    assert_eq!(message::primary_label(), "main");
    assert_eq!(message::starting(), "Starting Vicoo Desktop...");
    assert_eq!(message::setup_complete(), "Vicoo Desktop setup complete");
    assert_eq!(
        message::window_initialized(Some("Vicoo".to_string())),
        "Window initialized: Vicoo"
    );
    assert_eq!(message::window_initialized(Some(String::new())), "Window initialized: ");
    assert_eq!(message::window_initialized(None), "Window initialized: ");
    assert_eq!(message::missing_window("main"), "primary window not found: main");
    assert_eq!(message::missing_window(""), "primary window not found: ");
    assert_eq!(
        message::launch_failed("no display"),
        "error while running tauri application: no display"
    );
}

#[test]
fn action_kinds() {
    assert!(Action::ApplyShadow("main".to_string()).is_adjustment());
    assert!(!Action::ReadTitle("main".to_string()).is_adjustment());
    assert!(!Action::Abort("x".to_string()).is_adjustment());
    assert!(!Action::Log("shadow".to_string()).is_adjustment());
}
