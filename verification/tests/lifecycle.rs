use window_shell::gpu::WGpuState;
use window_shell::shell::Phase;
use window_shell::shell::Shell;
use window_shell::shell::ShellAction;
use window_shell::shell::WindowConfig;
use window_shell::shell::WindowEventKind;
use window_shell::shell::WindowHandle;

fn plain_config() -> WindowConfig {
    WindowConfig {
        title: String::from("Step 1: plain window"),
        width: 640,
        height: 360,
        visible: true,
    }
}

#[test]
fn resume_creates_exactly_one_window() {
    let mut shell = Shell::new(plain_config());
    assert_eq!(shell.windows_created(), 0);
    assert!(shell.window().is_none());
    assert!(shell.backend().is_none());

    let action = shell.on_resumed();
    assert_eq!(action, ShellAction::CreateWindow);
    assert_eq!(shell.windows_created(), 1);
    assert_eq!(shell.window(), Some(WindowHandle { id: 0 }));
    assert_eq!(shell.phase(), Phase::Running);
}

#[test]
fn repeated_resume_replaces_the_window() {
    let mut shell = Shell::new(plain_config());
    assert_eq!(shell.on_resumed(), ShellAction::CreateWindow);
    assert_eq!(shell.on_resumed(), ShellAction::CreateWindow);
    assert_eq!(shell.windows_created(), 2);
    assert_eq!(shell.window(), Some(WindowHandle { id: 1 }));
}

#[test]
fn resume_constructs_backend_for_the_new_window() {
    let mut shell = Shell::new(plain_config());
    shell.on_resumed();
    match shell.backend() {
        Some(backend) => {
            assert_eq!(backend.window(), WindowHandle { id: 0 });
            assert_eq!(backend.redraw_requests(), 0);
        }
        None => panic!("no backend after resume"),
    }
}

#[test]
fn close_requested_signals_exit_exactly_once() {
    let mut shell = Shell::new(plain_config());
    shell.on_resumed();
    assert_eq!(
        shell.on_window_event(WindowEventKind::CloseRequested),
        ShellAction::ExitLoop
    );
    assert_eq!(shell.phase(), Phase::Exited);
    assert_eq!(
        shell.on_window_event(WindowEventKind::CloseRequested),
        ShellAction::Ignore
    );
    assert_eq!(shell.phase(), Phase::Exited);
}

#[test]
fn close_before_resume_still_exits() {
    let mut shell = Shell::new(plain_config());
    assert_eq!(
        shell.on_window_event(WindowEventKind::CloseRequested),
        ShellAction::ExitLoop
    );
    assert_eq!(shell.phase(), Phase::Exited);
    assert_eq!(shell.windows_created(), 0);
}

#[test]
fn other_window_events_are_ignored() {
    let mut shell = Shell::new(plain_config());
    shell.on_resumed();
    assert_eq!(
        shell.on_window_event(WindowEventKind::Other),
        ShellAction::Ignore
    );
    assert_eq!(shell.phase(), Phase::Running);
    assert_eq!(shell.windows_created(), 1);
}

#[test]
fn config_is_kept_as_given() {
    let shell = Shell::new(plain_config());
    let config = shell.config();
    assert_eq!(config.title, "Step 1: plain window");
    assert_eq!(config.width, 640);
    assert_eq!(config.height, 360);
    assert!(config.visible);
}

#[test]
fn full_lifecycle_scenario() {
    let mut shell = Shell::new(plain_config());
    assert_eq!(shell.on_resumed(), ShellAction::CreateWindow);
    assert_eq!(
        shell.on_window_event(WindowEventKind::CloseRequested),
        ShellAction::ExitLoop
    );
    assert_eq!(shell.phase(), Phase::Exited);

    let window_before = shell.window();
    assert_eq!(shell.on_resumed(), ShellAction::Ignore);
    assert_eq!(
        shell.on_window_event(WindowEventKind::Other),
        ShellAction::Ignore
    );
    assert_eq!(
        shell.on_window_event(WindowEventKind::CloseRequested),
        ShellAction::Ignore
    );
    assert_eq!(shell.windows_created(), 1);
    assert_eq!(shell.window(), window_before);
}

#[test]
fn resize_accepts_any_dimensions_and_changes_nothing() {
    let mut backend = WGpuState::new(WindowHandle { id: 3 });
    backend.render();
    backend.resize(0, 0);
    backend.resize(u32::MAX, u32::MAX);
    backend.resize(640, 0);
    backend.resize(0, 360);
    assert_eq!(backend.window(), WindowHandle { id: 3 });
    assert_eq!(backend.redraw_requests(), 1);
}

#[test]
fn render_requests_exactly_one_redraw_per_call() {
    let mut backend = WGpuState::new(WindowHandle { id: 0 });
    assert_eq!(backend.redraw_requests(), 0);
    backend.render();
    assert_eq!(backend.redraw_requests(), 1);
    backend.render();
    backend.render();
    assert_eq!(backend.redraw_requests(), 3);
}
