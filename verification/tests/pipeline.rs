use matiane::events::Event;
use matiane::pipeline::PipelineAction;
use matiane::pipeline::PipelineInput;
use matiane::pipeline::normalize_window;
use matiane::pipeline::pipeline_step;
use matiane::reply::Container;
use matiane::reply::Rect;
use matiane::reply::WindowChange;
use matiane::reply::WindowEvent;
use matiane::reply::WindowProperties;

fn container() -> Container {
    Container {
        id: 10,
        name: Some("Alacritty - dev-1 // 2 - zsh // 1 - sway-matiane/src".to_string()),
        app_id: Some("Alacritty".to_string()),
        pid: Some(1775),
        window_properties: None,
        rect: Rect { x: 0, y: 2185, width: 2880, height: 1775 },
    }
}

fn event_with(container: Container) -> WindowEvent {
    WindowEvent { change: WindowChange::FullscreenMode, container }
}

#[test]
fn normalize_app_id_and_name() {
    let focused = normalize_window(event_with(container()));
    assert_eq!(focused.title, "Alacritty - dev-1 // 2 - zsh // 1 - sway-matiane/src");
    assert_eq!(focused.id, "Alacritty");
    assert_eq!(focused.pid, 1775);
}

#[test]
fn normalize_instance_fallback() {
    let mut c = container();
    c.app_id = None;
    c.window_properties = Some(WindowProperties {
        class: Some("TheClass".to_string()),
        instance: Some("TheInstance".to_string()),
    });
    let focused = normalize_window(event_with(c));
    assert_eq!(focused.id, "TheInstance");
}

#[test]
fn normalize_class_fallback() {
    let mut c = container();
    c.app_id = None;
    c.window_properties =
        Some(WindowProperties { class: Some("TheClass".to_string()), instance: None });
    let focused = normalize_window(event_with(c));
    assert_eq!(focused.id, "TheClass");
}

#[test]
fn normalize_nothing_found() {
    let mut c = container();
    c.app_id = None;
    c.name = None;
    c.pid = None;
    c.window_properties = None;
    let focused = normalize_window(event_with(c));
    assert_eq!(focused.id, "app-id-not-found");
    assert_eq!(focused.title, "title-not-found");
    assert_eq!(focused.pid, 0);
}

#[test]
fn normalize_title_falls_back_to_id() {
    let mut c = container();
    c.name = None;
    let focused = normalize_window(event_with(c));
    assert_eq!(focused.title, "Alacritty");
    assert_eq!(focused.id, "Alacritty");
}

#[test]
fn pipeline_window_writes_focused() {
    let action = pipeline_step(PipelineInput::Window(Box::new(event_with(container()))));
    match action {
        PipelineAction::Write(Event::Focused(f)) => {
            assert_eq!(f.id, "Alacritty");
            assert_eq!(f.pid, 1775);
        }
        _ => panic!("expected a focused write"),
    }
}

#[test]
fn pipeline_source_mapping() {
    assert!(matches!(
        pipeline_step(PipelineInput::AliveTick),
        PipelineAction::Write(Event::Alive)
    ));
    assert!(matches!(
        pipeline_step(PipelineInput::LockSignal),
        PipelineAction::Write(Event::Lock)
    ));
    assert!(matches!(
        pipeline_step(PipelineInput::UnlockSignal),
        PipelineAction::Write(Event::Unlock)
    ));
    assert!(matches!(
        pipeline_step(PipelineInput::IdleSignal),
        PipelineAction::Write(Event::Idle)
    ));
    assert!(matches!(
        pipeline_step(PipelineInput::ActiveSignal),
        PipelineAction::Write(Event::Active)
    ));
    assert!(matches!(pipeline_step(PipelineInput::StreamError), PipelineAction::Shutdown));
    assert!(matches!(pipeline_step(PipelineInput::StreamClosed), PipelineAction::Shutdown));
    assert!(matches!(pipeline_step(PipelineInput::Interrupt), PipelineAction::Shutdown));
}
