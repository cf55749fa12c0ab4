use learning_wpu::events::{Action, Event, Title};
use learning_wpu::lifecycle::{App, Phase, WindowModel};
use learning_wpu::surface::State;

fn active(id: u64, title: Title, cursor_visible: bool) -> App {
    App {
        phase: Phase::Active {
            window: WindowModel { id, title, cursor_visible },
            state: State { window: id },
        },
    }
}

#[test]
fn first_resume_installs_window_and_holder() {
    let mut app = App::default();
    assert!(app.needs_window());
    let actions = app.resumed(7);
    assert_eq!(actions, vec![Action::SetTitle { title: Title::AppLabel }]);
    assert_eq!(app, active(7, Title::AppLabel, true));
    assert!(!app.needs_window());
}

#[test]
fn second_resume_changes_nothing() {
    let mut app = App::default();
    app.resumed(7);
    let actions = app.resumed(9);
    assert_eq!(actions, vec![]);
    assert_eq!(app, active(7, Title::AppLabel, true));
}

#[test]
fn foreign_window_event_is_ignored() {
    let mut app = App::default();
    app.resumed(7);
    let before = app;
    let actions = app.window_event(9, &Event::Resized { width: 800, height: 600 });
    assert_eq!(actions, vec![]);
    assert_eq!(app, before);
    let actions = app.window_event(9, &Event::CloseRequested);
    assert_eq!(actions, vec![]);
    assert_eq!(app, before);
}

#[test]
fn event_before_first_resume_is_ignored() {
    let mut app = App::default();
    let actions = app.window_event(1, &Event::CloseRequested);
    assert_eq!(actions, vec![]);
    assert_eq!(app.phase, Phase::Uninitialized);
}

#[test]
fn resized_forwards_to_holder() {
    let mut app = App::default();
    app.resumed(7);
    let actions = app.window_event(7, &Event::Resized { width: 800, height: 600 });
    assert_eq!(actions, vec![Action::Resize { width: 800, height: 600 }]);
    assert_eq!(app, active(7, Title::AppLabel, true));
}

#[test]
fn redraw_forwards_to_holder() {
    let mut app = App::default();
    app.resumed(7);
    let actions = app.window_event(7, &Event::RedrawRequested);
    assert_eq!(actions, vec![Action::Draw]);
    assert_eq!(app, active(7, Title::AppLabel, true));
}

#[test]
fn key_m_hides_cursor_and_sets_hidden_title() {
    let mut app = App::default();
    app.resumed(7);
    let actions = app.window_event(7, &Event::Keyboard { text: "m".to_string() });
    assert_eq!(
        actions,
        vec![
            Action::SetCursorVisible { visible: false },
            Action::SetTitle { title: Title::HiddenLabel },
        ]
    );
    assert_eq!(app, active(7, Title::HiddenLabel, false));
}

#[test]
fn key_shift_m_shows_cursor_and_keeps_title() {
    let mut app = App::default();
    app.resumed(7);
    app.window_event(7, &Event::Keyboard { text: "m".to_string() });
    let actions = app.window_event(7, &Event::Keyboard { text: "M".to_string() });
    assert_eq!(actions, vec![Action::SetCursorVisible { visible: true }]);
    assert_eq!(app, active(7, Title::HiddenLabel, true));
}

#[test]
fn other_keyboard_text_changes_nothing() {
    let mut app = App::default();
    app.resumed(7);
    let before = app;
    for text in ["x", "", "q ", "mm", "Q"] {
        let actions = app.window_event(7, &Event::Keyboard { text: text.to_string() });
        assert_eq!(actions, vec![]);
        assert_eq!(app, before);
    }
}

#[test]
fn close_requested_exits_exactly_once() {
    let mut app = App::default();
    app.resumed(7);
    let before = app;
    let actions = app.window_event(7, &Event::CloseRequested);
    assert_eq!(actions, vec![Action::Exit]);
    assert_eq!(app, before);
}

#[test]
fn key_q_exits_exactly_once() {
    let mut app = App::default();
    app.resumed(7);
    let before = app;
    let actions = app.window_event(7, &Event::Keyboard { text: "q".to_string() });
    assert_eq!(actions, vec![Action::Exit]);
    assert_eq!(app, before);
}

#[test]
fn cursor_left_and_other_events_change_nothing() {
    let mut app = App::default();
    app.resumed(7);
    let before = app;
    let actions = app.window_event(7, &Event::CursorLeft);
    assert_eq!(actions, vec![]);
    assert_eq!(app, before);
    let actions = app.window_event(7, &Event::Other);
    assert_eq!(actions, vec![]);
    assert_eq!(app, before);
}

#[test]
fn suspend_and_exit_keep_the_state() {
    let mut app = App::default();
    app.resumed(7);
    let before = app;
    app.suspended();
    assert_eq!(app, before);
    app.exiting();
    assert_eq!(app, before);
}

#[test]
fn window_and_holder_are_present_together() {
    let mut app = App::default();
    assert!(matches!(app.phase, Phase::Uninitialized));
    app.resumed(3);
    match app.phase {
        Phase::Active { window, state } => {
            assert_eq!(state.window, window.id);
            assert_eq!(window.id, 3);
        }
        Phase::Uninitialized => panic!("resume must install window and holder"),
    }
}

#[test]
fn title_labels() {
    assert_eq!(Title::AppLabel.text(), "Learning WPU");
    assert_eq!(Title::HiddenLabel.text(), "Mouse hidden");
}

#[test]
fn holder_reports_resize_and_draw() {
    let mut holder = State::new(3);
    assert_eq!(holder.window, 3);
    let report = holder.resize(10, 20);
    assert_eq!(report, Action::Resize { width: 10, height: 20 });
    assert_eq!(holder, State { window: 3 });
    assert_eq!(holder.draw(), Action::Draw);
}

#[test]
fn scenario_resume_resize_hide_quit() {
    let mut app = App::default();

    let actions = app.resumed(1);
    assert_eq!(actions, vec![Action::SetTitle { title: Title::AppLabel }]);
    match app.phase {
        Phase::Active { window, state } => {
            assert_eq!(window.title.text(), "Learning WPU");
            assert_eq!(state.window, window.id);
        }
        Phase::Uninitialized => panic!("resume must activate the application"),
    }

    let actions = app.window_event(1, &Event::Resized { width: 800, height: 600 });
    assert_eq!(actions, vec![Action::Resize { width: 800, height: 600 }]);

    let actions = app.window_event(1, &Event::Keyboard { text: "m".to_string() });
    assert_eq!(
        actions,
        vec![
            Action::SetCursorVisible { visible: false },
            Action::SetTitle { title: Title::HiddenLabel },
        ]
    );
    match app.phase {
        Phase::Active { window, .. } => {
            assert!(!window.cursor_visible);
            assert_eq!(window.title.text(), "Mouse hidden");
        }
        Phase::Uninitialized => panic!("the application must stay active"),
    }

    let actions = app.window_event(1, &Event::Keyboard { text: "q".to_string() });
    assert_eq!(actions, vec![Action::Exit]);
}
