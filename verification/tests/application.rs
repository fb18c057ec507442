use scene_viewer::application::{Application, Lifecycle, LifecycleAction, PlatformEvent};
use scene_viewer::geometry::PhysicalSize;

fn active() -> Application {
    let mut application = Application::new();
    application.handle_event(PlatformEvent::Resumed);
    application
}

#[test]
fn nothing_exists_before_the_first_resume() {
    let mut application = Application::new();
    assert_eq!(application.state(), Lifecycle::Uninitialized);
    for event in [
        PlatformEvent::Resized { size: PhysicalSize::new(800, 600) },
        PlatformEvent::ScaleFactorChanged { inner_size: PhysicalSize::new(800, 600) },
        PlatformEvent::RedrawRequested,
        PlatformEvent::Other,
    ] {
        assert_eq!(application.handle_event(event), vec![]);
        assert_eq!(application.state(), Lifecycle::Uninitialized);
    }
    assert_eq!(application.finish_shutdown(), vec![]);
    assert_eq!(application.state(), Lifecycle::Uninitialized);
}

#[test]
fn the_first_resume_creates_window_renderer_client_in_that_order() {
    let mut application = Application::new();
    assert_eq!(
        application.handle_event(PlatformEvent::Resumed),
        vec![
            LifecycleAction::CreateWindow,
            LifecycleAction::CreateRenderer,
            LifecycleAction::CreateClient,
        ]
    );
    assert_eq!(application.state(), Lifecycle::Active);
}

#[test]
fn a_second_resume_creates_nothing() {
    let mut application = active();
    assert_eq!(application.handle_event(PlatformEvent::Resumed), vec![]);
    assert_eq!(application.handle_event(PlatformEvent::Resumed), vec![]);
    assert_eq!(application.state(), Lifecycle::Active);
}

#[test]
fn a_new_size_resizes_the_window_and_leaves_the_frame_to_the_next_redraw() {
    let mut application = active();
    let size = PhysicalSize::new(1024, 768);
    assert_eq!(
        application.handle_event(PlatformEvent::Resized { size }),
        vec![LifecycleAction::ResizeWindow { size }, LifecycleAction::ForwardToClient]
    );
    let inner_size = PhysicalSize::new(2048, 1536);
    assert_eq!(
        application.handle_event(PlatformEvent::ScaleFactorChanged { inner_size }),
        vec![LifecycleAction::ResizeWindow { size: inner_size }, LifecycleAction::ForwardToClient]
    );
    assert_eq!(application.state(), Lifecycle::Active);
}

#[test]
fn a_redraw_fits_the_target_then_draws_composites_and_presents() {
    let mut application = active();
    assert_eq!(
        application.handle_event(PlatformEvent::RedrawRequested),
        vec![
            LifecycleAction::ForwardToClient,
            LifecycleAction::LayOutUi,
            LifecycleAction::FitTarget,
            LifecycleAction::DrawScene,
            LifecycleAction::CompositeUi,
            LifecycleAction::Present,
        ]
    );
    assert_eq!(
        application.handle_event(PlatformEvent::Other),
        vec![LifecycleAction::ForwardToClient]
    );
}

#[test]
fn shutdown_runs_the_client_hook_before_the_window_goes() {
    let mut application = active();
    assert_eq!(
        application.handle_event(PlatformEvent::CloseRequested),
        vec![LifecycleAction::ShutdownClient]
    );
    assert_eq!(application.state(), Lifecycle::ShuttingDown);

    assert_eq!(application.handle_event(PlatformEvent::RedrawRequested), vec![]);
    assert_eq!(application.handle_event(PlatformEvent::Resumed), vec![]);
    assert_eq!(application.handle_event(PlatformEvent::CloseRequested), vec![]);
    assert_eq!(application.state(), Lifecycle::ShuttingDown);

    assert_eq!(
        application.finish_shutdown(),
        vec![
            LifecycleAction::DestroyRenderer,
            LifecycleAction::DestroyWindow,
            LifecycleAction::Exit,
        ]
    );
    assert_eq!(application.state(), Lifecycle::Terminated);
}

#[test]
fn a_close_before_the_first_resume_just_exits() {
    let mut application = Application::new();
    assert_eq!(
        application.handle_event(PlatformEvent::CloseRequested),
        vec![LifecycleAction::Exit]
    );
    assert_eq!(application.state(), Lifecycle::Terminated);
}

#[test]
fn nothing_happens_after_termination() {
    let mut application = active();
    application.handle_event(PlatformEvent::CloseRequested);
    application.finish_shutdown();
    for event in [
        PlatformEvent::Resumed,
        PlatformEvent::CloseRequested,
        PlatformEvent::Resized { size: PhysicalSize::new(1, 1) },
        PlatformEvent::RedrawRequested,
        PlatformEvent::Other,
    ] {
        assert_eq!(application.handle_event(event), vec![]);
        assert_eq!(application.state(), Lifecycle::Terminated);
    }
    assert_eq!(application.finish_shutdown(), vec![]);
    assert_eq!(application.state(), Lifecycle::Terminated);
}

#[test]
fn over_a_whole_run_each_object_is_created_once_and_torn_down_in_order() {
    let mut application = Application::new();
    let mut actions = Vec::new();
    for event in [
        PlatformEvent::RedrawRequested,
        PlatformEvent::Resumed,
        PlatformEvent::Resized { size: PhysicalSize::new(800, 600) },
        PlatformEvent::RedrawRequested,
        PlatformEvent::Resumed,
        PlatformEvent::RedrawRequested,
        PlatformEvent::CloseRequested,
        PlatformEvent::Resumed,
    ] {
        actions.extend(application.handle_event(event));
    }
    actions.extend(application.finish_shutdown());
    actions.extend(application.handle_event(PlatformEvent::Resumed));

    let count = |wanted: LifecycleAction| actions.iter().filter(|a| **a == wanted).count();
    let place = |wanted: LifecycleAction| actions.iter().position(|a| *a == wanted).unwrap();
    assert_eq!(count(LifecycleAction::CreateWindow), 1);
    assert_eq!(count(LifecycleAction::CreateRenderer), 1);
    assert_eq!(count(LifecycleAction::CreateClient), 1);
    assert_eq!(count(LifecycleAction::FitTarget), 2);
    assert_eq!(count(LifecycleAction::DrawScene), 2);
    assert_eq!(count(LifecycleAction::Present), 2);
    assert_eq!(count(LifecycleAction::DestroyWindow), 1);
    assert!(place(LifecycleAction::CreateWindow) < place(LifecycleAction::CreateRenderer));
    assert!(place(LifecycleAction::CreateRenderer) < place(LifecycleAction::CreateClient));
    assert!(place(LifecycleAction::ShutdownClient) < place(LifecycleAction::DestroyRenderer));
    assert!(place(LifecycleAction::DestroyRenderer) < place(LifecycleAction::DestroyWindow));
    assert_eq!(application.state(), Lifecycle::Terminated);
}
