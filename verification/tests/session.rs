use ratbagtui::action::{ButtonAction, Payload};
use ratbagtui::app::{App, Command, Intent, KeyInput, Mode, Panel};
use ratbagtui::device::{MouseButton, MouseDevice, RemoteCall, RemotePath};

fn path(text: &str) -> RemotePath {
    RemotePath::new(text.to_string())
}

fn device_with(dpi: u32, valid_dpis: Vec<u32>, actions: Vec<ButtonAction>) -> MouseDevice {
    let mut buttons = Vec::new();
    for (position, action) in actions.into_iter().enumerate() {
        buttons.push(MouseButton {
            index: position as u32 + 10,
            action,
            path: path(&format!("/button/{}", position)),
        });
    }
    MouseDevice {
        name: "Test Mouse".to_string(),
        dpi,
        valid_dpis,
        buttons,
        device_path: path("/device"),
        resolution_path: path("/resolution"),
    }
}

fn sample() -> MouseDevice {
    device_with(
        800,
        vec![400, 800, 1600],
        vec![ButtonAction::Button(1), ButtonAction::Button(3), ButtonAction::Unknown],
    )
}

fn status_of(app: &App) -> Option<String> {
    app.status().cloned()
}

#[test]
fn a_session_starts_on_the_resolution_in_use() {
    let app = App::new(sample());
    assert_eq!(app.panel(), Panel::Dpi);
    assert_eq!(app.mode(), Mode::Normal);
    assert_eq!(app.dpi_cursor().index(), 1);
    assert_eq!(app.dpi_cursor().len(), 3);
    assert_eq!(app.button_cursor().index(), 0);
    assert_eq!(app.button_cursor().len(), 3);
    assert_eq!(status_of(&app), None);
    assert!(!app.is_busy());
    assert_eq!(app.device(), &sample());
    assert_eq!(app.selected_dpi(), 800);
}

#[test]
fn a_session_starts_on_the_first_entry_when_the_resolution_is_not_listed() {
    let app = App::new(device_with(1000, vec![400, 800, 1600], vec![]));
    assert_eq!(app.dpi_cursor().index(), 0);
    let app = App::new(device_with(0, vec![], vec![]));
    assert_eq!(app.dpi_cursor().index(), 0);
    assert_eq!(app.selected_dpi(), 0);
}

#[test]
fn a_session_starts_on_the_first_of_equal_resolutions() {
    let app = App::new(device_with(800, vec![400, 800, 800, 1600], vec![]));
    assert_eq!(app.dpi_cursor().index(), 1);
}

#[test]
fn a_session_is_bound_to_the_first_snapshot() {
    let other = device_with(400, vec![400], vec![]);
    let app = App::start(vec![sample(), other]).unwrap();
    assert_eq!(app.device(), &sample());
    assert_eq!(app.dpi_cursor().index(), 1);
    assert_eq!(app.panel(), Panel::Dpi);
    assert_eq!(app.mode(), Mode::Normal);
}

#[test]
fn without_a_snapshot_there_is_no_session() {
    assert!(App::start(vec![]).is_none());
}

#[test]
fn keys_are_bound_by_mode() {
    assert_eq!(KeyInput::Char('q').intent(Mode::Normal), Intent::Quit);
    assert_eq!(KeyInput::Char('q').intent(Mode::EditingButton), Intent::Nothing);
    assert_eq!(KeyInput::Tab.intent(Mode::Normal), Intent::SwitchPanel);
    assert_eq!(KeyInput::Tab.intent(Mode::EditingButton), Intent::Nothing);
    assert_eq!(KeyInput::Esc.intent(Mode::Normal), Intent::Nothing);
    assert_eq!(KeyInput::Esc.intent(Mode::EditingButton), Intent::Cancel);
    for mode in [Mode::Normal, Mode::EditingButton] {
        assert_eq!(KeyInput::Down.intent(mode), Intent::MoveDown);
        assert_eq!(KeyInput::Char('j').intent(mode), Intent::MoveDown);
        assert_eq!(KeyInput::Up.intent(mode), Intent::MoveUp);
        assert_eq!(KeyInput::Char('k').intent(mode), Intent::MoveUp);
        assert_eq!(KeyInput::Enter.intent(mode), Intent::Confirm);
        assert_eq!(KeyInput::Other.intent(mode), Intent::Nothing);
        assert_eq!(KeyInput::Char('x').intent(mode), Intent::Nothing);
    }
}

#[test]
fn changing_the_resolution_end_to_end() {
    let mut app = App::new(sample());
    assert_eq!(app.dpi_cursor().index(), 1);

    assert_eq!(app.handle_key(KeyInput::Down), Command::WaitForKey);
    assert_eq!(app.dpi_cursor().index(), 2);
    assert_eq!(app.selected_dpi(), 1600);

    let command = app.handle_key(KeyInput::Enter);
    assert_eq!(
        command,
        Command::Perform(RemoteCall::WriteResolution {
            path: path("/resolution"),
            value: Payload::Wrapped(Box::new(Payload::U32(1600))),
        })
    );
    assert!(app.is_busy());
    assert_eq!(app.device().dpi, 800);

    let command = app.remote_finished(Ok(()));
    assert_eq!(command, Command::Perform(RemoteCall::Commit { path: path("/device") }));
    assert!(app.is_busy());
    assert_eq!(app.device().dpi, 800);

    let command = app.remote_finished(Ok(()));
    assert_eq!(command, Command::WaitForKey);
    assert!(!app.is_busy());
    assert_eq!(app.device().dpi, 1600);
    assert_eq!(status_of(&app), Some("DPI set to 1600".to_string()));
    assert!(status_of(&app).unwrap().contains("1600"));
    assert_eq!(app.mode(), Mode::Normal);
    assert_eq!(app.panel(), Panel::Dpi);
    assert_eq!(app.dpi_cursor().index(), 2);

    let mut expected = sample();
    expected.dpi = 1600;
    assert_eq!(app.device(), &expected);
}

#[test]
fn confirming_the_resolution_in_use_does_nothing() {
    let mut app = App::new(sample());
    assert_eq!(app.handle_key(KeyInput::Enter), Command::WaitForKey);
    assert!(!app.is_busy());
    assert_eq!(status_of(&app), None);
    assert_eq!(app.device(), &sample());
}

#[test]
fn confirming_on_an_empty_list_of_resolutions_does_nothing() {
    let mut app = App::new(device_with(800, vec![], vec![]));
    assert_eq!(app.handle_key(KeyInput::Enter), Command::WaitForKey);
    assert!(!app.is_busy());
    assert_eq!(status_of(&app), None);
}

#[test]
fn a_failed_write_of_the_resolution_shows_the_error() {
    let mut app = App::new(sample());
    app.handle_key(KeyInput::Up);
    assert_eq!(app.selected_dpi(), 400);
    let command = app.handle_key(KeyInput::Enter);
    assert_eq!(
        command,
        Command::Perform(RemoteCall::WriteResolution {
            path: path("/resolution"),
            value: Payload::Wrapped(Box::new(Payload::U32(400))),
        })
    );
    let command = app.remote_finished(Err("permission denied".to_string()));
    assert_eq!(command, Command::WaitForKey);
    assert!(!app.is_busy());
    assert_eq!(app.device(), &sample());
    assert_eq!(status_of(&app), Some("Error: permission denied".to_string()));
    assert_eq!(app.mode(), Mode::Normal);
}

#[test]
fn a_failed_commit_of_the_resolution_shows_the_error() {
    let mut app = App::new(sample());
    app.handle_key(KeyInput::Char('j'));
    app.handle_key(KeyInput::Enter);
    assert_eq!(
        app.remote_finished(Ok(())),
        Command::Perform(RemoteCall::Commit { path: path("/device") })
    );
    assert_eq!(app.remote_finished(Err("device gone".to_string())), Command::WaitForKey);
    assert_eq!(app.device(), &sample());
    assert_eq!(status_of(&app), Some("Error: device gone".to_string()));
}

#[test]
fn the_panel_key_toggles_the_focus_and_clears_the_message() {
    let mut app = App::new(sample());
    app.handle_key(KeyInput::Down);
    app.handle_key(KeyInput::Enter);
    app.remote_finished(Ok(()));
    app.remote_finished(Ok(()));
    assert_eq!(status_of(&app), Some("DPI set to 1600".to_string()));

    app.handle_key(KeyInput::Up);
    assert_eq!(status_of(&app), Some("DPI set to 1600".to_string()));
    app.handle_key(KeyInput::Down);
    assert_eq!(status_of(&app), Some("DPI set to 1600".to_string()));

    assert_eq!(app.handle_key(KeyInput::Tab), Command::WaitForKey);
    assert_eq!(app.panel(), Panel::Buttons);
    assert_eq!(status_of(&app), None);
    assert_eq!(app.handle_key(KeyInput::Tab), Command::WaitForKey);
    assert_eq!(app.panel(), Panel::Dpi);
}

#[test]
fn arrows_move_the_cursor_of_the_focused_list_only() {
    let mut app = App::new(sample());
    app.handle_key(KeyInput::Tab);
    app.handle_key(KeyInput::Down);
    assert_eq!(app.button_cursor().index(), 1);
    assert_eq!(app.dpi_cursor().index(), 1);
    app.handle_key(KeyInput::Down);
    app.handle_key(KeyInput::Down);
    app.handle_key(KeyInput::Down);
    assert_eq!(app.button_cursor().index(), 2);
    app.handle_key(KeyInput::Char('k'));
    app.handle_key(KeyInput::Up);
    app.handle_key(KeyInput::Up);
    assert_eq!(app.button_cursor().index(), 0);
    assert_eq!(app.dpi_cursor().index(), 1);
    app.handle_key(KeyInput::Tab);
    app.handle_key(KeyInput::Up);
    app.handle_key(KeyInput::Up);
    assert_eq!(app.dpi_cursor().index(), 0);
    assert_eq!(app.button_cursor().index(), 0);
}

#[test]
fn the_named_moves_clamp_at_both_ends() {
    let mut app = App::new(sample());
    app.prev_dpi();
    app.prev_dpi();
    assert_eq!(app.dpi_cursor().index(), 0);
    app.next_dpi();
    app.next_dpi();
    app.next_dpi();
    assert_eq!(app.dpi_cursor().index(), 2);
    app.prev_button();
    assert_eq!(app.button_cursor().index(), 0);
    app.next_button();
    app.next_button();
    app.next_button();
    assert_eq!(app.button_cursor().index(), 2);
    app.next_popup();
    assert_eq!(app.popup_cursor().index(), 0);
    app.prev_popup();
    assert_eq!(app.popup_cursor().index(), 0);
}

#[test]
fn the_quit_key_ends_the_session() {
    let mut app = App::new(sample());
    assert_eq!(app.handle_key(KeyInput::Char('q')), Command::Quit);
    assert_eq!(app.device(), &sample());
}

#[test]
fn keys_without_a_meaning_change_nothing() {
    let mut app = App::new(sample());
    assert_eq!(app.handle_key(KeyInput::Esc), Command::WaitForKey);
    assert_eq!(app.handle_key(KeyInput::Other), Command::WaitForKey);
    assert_eq!(app.handle_key(KeyInput::Char('x')), Command::WaitForKey);
    assert_eq!(app.panel(), Panel::Dpi);
    assert_eq!(app.mode(), Mode::Normal);
    assert_eq!(app.dpi_cursor().index(), 1);
}

#[test]
fn the_editor_opens_on_the_option_of_the_current_action() {
    let mut app = App::new(sample());
    app.handle_key(KeyInput::Tab);
    app.handle_key(KeyInput::Down);
    assert_eq!(app.device().buttons[1].action, ButtonAction::Button(3));
    assert_eq!(app.handle_key(KeyInput::Enter), Command::WaitForKey);
    assert_eq!(app.mode(), Mode::EditingButton);
    assert_eq!(app.popup_cursor().index(), 3);
    assert_eq!(app.popup_cursor().len(), 9);
    assert_eq!(app.popup_options()[app.popup_cursor().index()], ButtonAction::Button(3));
    assert_ne!(app.popup_options()[app.popup_cursor().index()], ButtonAction::NoAction);
}

#[test]
fn the_editor_offers_no_action_and_buttons_one_to_eight() {
    let mut app = App::new(sample());
    app.handle_key(KeyInput::Tab);
    app.handle_key(KeyInput::Enter);
    assert_eq!(
        app.popup_options(),
        &vec![
            ButtonAction::NoAction,
            ButtonAction::Button(1),
            ButtonAction::Button(2),
            ButtonAction::Button(3),
            ButtonAction::Button(4),
            ButtonAction::Button(5),
            ButtonAction::Button(6),
            ButtonAction::Button(7),
            ButtonAction::Button(8),
        ]
    );
    assert_eq!(app.popup_cursor().index(), 1);
}

#[test]
fn the_editor_opens_on_the_first_option_without_a_match() {
    let device = device_with(
        800,
        vec![800],
        vec![
            ButtonAction::Unknown,
            ButtonAction::Key(30),
            ButtonAction::Button(9),
            ButtonAction::NoAction,
            ButtonAction::Special(1),
        ],
    );
    for position in 0..5 {
        let mut app = App::new(device.clone());
        app.handle_key(KeyInput::Tab);
        for _ in 0..position {
            app.handle_key(KeyInput::Down);
        }
        app.open_button_editor();
        assert_eq!(app.mode(), Mode::EditingButton);
        assert_eq!(app.popup_cursor().index(), 0);
    }
}

#[test]
fn the_editor_does_not_open_without_a_button() {
    let mut app = App::new(device_with(800, vec![800], vec![]));
    app.handle_key(KeyInput::Tab);
    assert_eq!(app.handle_key(KeyInput::Enter), Command::WaitForKey);
    assert_eq!(app.mode(), Mode::Normal);
    app.open_button_editor();
    assert_eq!(app.mode(), Mode::Normal);
}

#[test]
fn cancelling_the_editor_makes_no_call() {
    let mut app = App::new(sample());
    app.handle_key(KeyInput::Tab);
    app.handle_key(KeyInput::Enter);
    app.handle_key(KeyInput::Down);
    assert_eq!(app.handle_key(KeyInput::Esc), Command::WaitForKey);
    assert_eq!(app.mode(), Mode::Normal);
    assert!(!app.is_busy());
    assert_eq!(app.device(), &sample());
    assert_eq!(status_of(&app), None);
}

#[test]
fn the_editor_takes_the_arrows() {
    let mut app = App::new(sample());
    app.handle_key(KeyInput::Tab);
    app.handle_key(KeyInput::Enter);
    assert_eq!(app.popup_cursor().index(), 1);
    app.handle_key(KeyInput::Up);
    app.handle_key(KeyInput::Up);
    assert_eq!(app.popup_cursor().index(), 0);
    for _ in 0..20 {
        app.handle_key(KeyInput::Char('j'));
    }
    assert_eq!(app.popup_cursor().index(), 8);
    assert_eq!(app.button_cursor().index(), 0);
    assert_eq!(app.dpi_cursor().index(), 1);
    assert_eq!(app.handle_key(KeyInput::Tab), Command::WaitForKey);
    assert_eq!(app.handle_key(KeyInput::Char('q')), Command::WaitForKey);
    assert_eq!(app.panel(), Panel::Buttons);
    assert_eq!(app.mode(), Mode::EditingButton);
}

#[test]
fn changing_a_button_end_to_end() {
    let mut app = App::new(sample());
    app.handle_key(KeyInput::Tab);
    app.handle_key(KeyInput::Down);
    app.handle_key(KeyInput::Enter);
    assert_eq!(app.popup_cursor().index(), 3);
    app.handle_key(KeyInput::Down);
    app.handle_key(KeyInput::Down);

    let command = app.handle_key(KeyInput::Enter);
    assert_eq!(
        command,
        Command::Perform(RemoteCall::WriteMapping {
            path: path("/button/1"),
            type_code: 1,
            value: Payload::U32(5),
        })
    );
    assert!(app.is_busy());
    assert_eq!(app.mode(), Mode::EditingButton);

    assert_eq!(
        app.remote_finished(Ok(())),
        Command::Perform(RemoteCall::Commit { path: path("/device") })
    );
    assert_eq!(app.remote_finished(Ok(())), Command::WaitForKey);
    assert!(!app.is_busy());
    assert_eq!(app.mode(), Mode::Normal);
    assert_eq!(status_of(&app), Some("Button 1 set to Forward".to_string()));

    let mut expected = sample();
    expected.buttons[1].action = ButtonAction::Button(5);
    assert_eq!(app.device(), &expected);
}

#[test]
fn setting_a_button_to_no_action() {
    let mut app = App::new(sample());
    app.handle_key(KeyInput::Tab);
    app.handle_key(KeyInput::Enter);
    app.handle_key(KeyInput::Up);
    let command = app.handle_key(KeyInput::Enter);
    assert_eq!(
        command,
        Command::Perform(RemoteCall::WriteMapping {
            path: path("/button/0"),
            type_code: 0,
            value: Payload::U32(0),
        })
    );
    app.remote_finished(Ok(()));
    app.remote_finished(Ok(()));
    assert_eq!(status_of(&app), Some("Button 0 set to None".to_string()));
    assert_eq!(app.device().buttons[0].action, ButtonAction::NoAction);
}

#[test]
fn a_failed_change_of_a_button_closes_the_editor_and_shows_the_error() {
    let mut app = App::new(sample());
    app.handle_key(KeyInput::Tab);
    app.handle_key(KeyInput::Enter);
    app.handle_key(KeyInput::Down);
    app.handle_key(KeyInput::Enter);
    assert_eq!(app.remote_finished(Err("rejected".to_string())), Command::WaitForKey);
    assert_eq!(app.mode(), Mode::Normal);
    assert_eq!(status_of(&app), Some("Error: rejected".to_string()));
    assert_eq!(app.device(), &sample());

    app.handle_key(KeyInput::Enter);
    app.handle_key(KeyInput::Down);
    app.handle_key(KeyInput::Enter);
    app.remote_finished(Ok(()));
    assert_eq!(app.remote_finished(Err("commit failed".to_string())), Command::WaitForKey);
    assert_eq!(app.mode(), Mode::Normal);
    assert_eq!(status_of(&app), Some("Error: commit failed".to_string()));
    assert_eq!(app.device(), &sample());
}

#[test]
fn an_undecodable_button_is_shown_and_left_alone() {
    let action = ButtonAction::from_mapping(99, &Payload::U32(5));
    assert_eq!(action, ButtonAction::Unknown);
    assert_eq!(action.label(), "Unknown");

    let mut app = App::new(device_with(800, vec![800], vec![action]));
    app.handle_key(KeyInput::Tab);
    app.handle_key(KeyInput::Enter);
    assert_eq!(app.mode(), Mode::EditingButton);
    assert_eq!(app.popup_cursor().index(), 0);
    for option in app.popup_options() {
        assert_ne!(*option, ButtonAction::Unknown);
    }
    assert_eq!(app.handle_key(KeyInput::Esc), Command::WaitForKey);
    assert_eq!(app.device().buttons[0].action, ButtonAction::Unknown);

    let mut device = device_with(800, vec![800], vec![action]);
    let step = device.set_button(0, ButtonAction::Unknown, ratbagtui::device::Stage::Start);
    assert_eq!(step, ratbagtui::device::Step::Done(Ok(())));
    assert_eq!(device, device_with(800, vec![800], vec![action]));
}

#[test]
fn keys_are_not_looked_at_while_a_call_is_owed() {
    let mut app = App::new(sample());
    app.handle_key(KeyInput::Down);
    let owed = app.handle_key(KeyInput::Enter);
    assert_eq!(
        owed,
        Command::Perform(RemoteCall::WriteResolution {
            path: path("/resolution"),
            value: Payload::Wrapped(Box::new(Payload::U32(1600))),
        })
    );
    assert_eq!(app.handle_key(KeyInput::Tab), owed);
    assert_eq!(app.handle_key(KeyInput::Char('q')), owed);
    assert_eq!(app.panel(), Panel::Dpi);
    assert_eq!(app.dpi_cursor().index(), 2);
    let commit = app.remote_finished(Ok(()));
    assert_eq!(commit, Command::Perform(RemoteCall::Commit { path: path("/device") }));
    assert_eq!(app.handle_key(KeyInput::Up), commit);
    assert_eq!(app.remote_finished(Ok(())), Command::WaitForKey);
    assert_eq!(app.device().dpi, 1600);
}

#[test]
fn an_owed_write_of_a_button_is_named_again() {
    let mut app = App::new(sample());
    app.handle_key(KeyInput::Tab);
    app.handle_key(KeyInput::Enter);
    app.handle_key(KeyInput::Down);
    let owed = app.handle_key(KeyInput::Enter);
    assert_eq!(
        owed,
        Command::Perform(RemoteCall::WriteMapping {
            path: path("/button/0"),
            type_code: 1,
            value: Payload::U32(2),
        })
    );
    assert_eq!(app.handle_key(KeyInput::Esc), owed);
    assert_eq!(app.mode(), Mode::EditingButton);
}

#[test]
fn an_outcome_that_nothing_waits_for_is_not_looked_at() {
    let mut app = App::new(sample());
    assert_eq!(app.remote_finished(Ok(())), Command::WaitForKey);
    assert_eq!(app.remote_finished(Err("late".to_string())), Command::WaitForKey);
    assert_eq!(app.device(), &sample());
    assert_eq!(status_of(&app), None);
}
