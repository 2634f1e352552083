use shell_core::config::{BuilderSettings, EmbeddingContext};
use shell_core::event::{Disposition, EventHandler, PlatformEvent};
use shell_core::run;
use shell_core::shell::{Phase, Shell, StartupFailure};

fn sample_context(bundle_root_exists: bool, entry_document_resolvable: bool) -> EmbeddingContext {
    EmbeddingContext {
        identifier: String::from("com.example.shell"),
        window_title: String::from("demo"),
        window_width: 800,
        window_height: 600,
        icon_ids: vec![32, 64, 128],
        bundle_root_exists,
        entry_document_resolvable,
    }
}

#[test]
fn successful_launch_creates_one_running_window() {
    let ctx = sample_context(true, true);
    let shell = Shell::launch(ctx).expect("launchable context must launch");
    assert_eq!(shell.phase, Phase::Running);
    assert_eq!(shell.open_windows, 1);
    assert_eq!(shell.window_title, "demo");
    assert_eq!(shell.icon_ids, vec![32, 64, 128]);
    assert_eq!(shell.handler, EventHandler::NoOp);
    assert_eq!(shell.exit_code, None);
}

#[test]
fn missing_bundle_root_is_fatal() {
    let ctx = sample_context(false, true);
    let r = Shell::launch(ctx);
    assert_eq!(r, Err(StartupFailure::MissingBundleRoot));
    assert_eq!(
        StartupFailure::MissingBundleRoot.message(),
        "error while building the application: bundled asset root not found"
    );
}

#[test]
fn unresolvable_entry_document_is_fatal() {
    let ctx = sample_context(true, false);
    let r = Shell::launch(ctx);
    assert_eq!(r, Err(StartupFailure::UnresolvableEntryDocument));
    assert_eq!(
        StartupFailure::UnresolvableEntryDocument.message(),
        "error while building the application: entry document not resolvable"
    );
}

#[test]
fn launch_is_deterministic() {
    let first = Shell::launch(sample_context(true, true));
    let second = Shell::launch(sample_context(true, true));
    assert_eq!(first, second);
}

#[test]
fn close_last_window_exits_zero() {
    let ctx = sample_context(true, true);
    let mut shell = Shell::launch(ctx).expect("launchable context must launch");
    assert_eq!(shell.handler.dispatch(&PlatformEvent::CloseRequested), Disposition::PassThrough);
    shell.step(&PlatformEvent::CloseRequested);
    assert_eq!(shell.phase, Phase::Terminated);
    assert_eq!(shell.open_windows, 0);
    assert_eq!(shell.exit_code, Some(0));
}

#[test]
fn exit_request_terminates_with_zero() {
    let ctx = sample_context(true, true);
    let mut shell = Shell::launch(ctx).expect("launchable context must launch");
    shell.step(&PlatformEvent::ExitRequested);
    assert_eq!(shell.phase, Phase::Terminated);
    assert_eq!(shell.exit_code, Some(0));
}

#[test]
fn arguments_are_ignored() {
    let events = vec![PlatformEvent::Input, PlatformEvent::CloseRequested];
    let no_args: Vec<String> = Vec::new();
    let some_args = vec![String::from("--verbose"), String::from("ignored"), String::from("-x")];
    let r1 = run(sample_context(true, true), &no_args, &events);
    let r2 = run(sample_context(true, true), &some_args, &events);
    assert_eq!(r1, r2);
    let f1 = run(sample_context(false, false), &no_args, &events);
    let f2 = run(sample_context(false, false), &some_args, &events);
    assert_eq!(f1, f2);
}

#[test]
fn default_settings_register_nothing() {
    let settings = BuilderSettings::default();
    assert_eq!(settings.custom_commands, 0);
    assert_eq!(settings.custom_plugins, 0);
    assert!(!settings.custom_menu);
}

#[test]
fn benign_events_leave_shell_running() {
    let ctx = sample_context(true, true);
    let mut shell = Shell::launch(ctx).expect("launchable context must launch");
    let before = shell.clone();
    shell.drive(&vec![PlatformEvent::Input, PlatformEvent::Focus, PlatformEvent::Resized]);
    assert_eq!(shell, before);
    assert_eq!(shell.phase, Phase::Running);
    assert_eq!(shell.open_windows, 1);
}

#[test]
fn run_replays_whole_trace() {
    let events = vec![
        PlatformEvent::Focus,
        PlatformEvent::Resized,
        PlatformEvent::Input,
        PlatformEvent::CloseRequested,
    ];
    let args: Vec<String> = Vec::new();
    let shell = run(sample_context(true, true), &args, &events).expect("launchable context must launch");
    assert_eq!(shell.phase, Phase::Terminated);
    assert_eq!(shell.open_windows, 0);
    assert_eq!(shell.exit_code, Some(0));
}

#[test]
fn terminated_shell_ignores_events() {
    let ctx = sample_context(true, true);
    let mut shell = Shell::launch(ctx).expect("launchable context must launch");
    shell.step(&PlatformEvent::CloseRequested);
    let terminated = shell.clone();
    shell.drive(&vec![
        PlatformEvent::Input,
        PlatformEvent::CloseRequested,
        PlatformEvent::ExitRequested,
        PlatformEvent::Focus,
    ]);
    assert_eq!(shell, terminated);
}

#[test]
fn launchable_reflects_bundle_state() {
    assert!(sample_context(true, true).launchable());
    assert!(!sample_context(false, true).launchable());
    assert!(!sample_context(true, false).launchable());
    assert!(!sample_context(false, false).launchable());
}

#[test]
fn handler_passes_every_event_through() {
    let handler = EventHandler::NoOp;
    let events = [
        PlatformEvent::CloseRequested,
        PlatformEvent::Input,
        PlatformEvent::Focus,
        PlatformEvent::Resized,
        PlatformEvent::ExitRequested,
    ];
    for event in &events {
        assert_eq!(handler.dispatch(event), Disposition::PassThrough);
    }
}
