use awsome::app::{App, Command, Effect, Key, ListRequest, LoadingState, Mode, Request, RowStyle};
use awsome::app::keys::command_for;
use awsome::aws::S3Item;

fn s(text: &str) -> String {
    text.to_string()
}

fn session() -> App {
    let mut app = App::new(s("default"));
    app.client_connected();
    app
}

#[test]
fn test_mode_precedence() {
    let mut app = session();
    assert_eq!(app.mode(), Mode::Normal);
    app.show_service_popup = true;
    app.popup_selected_index = 3;
    assert_eq!(app.mode(), Mode::ServicePicker(3));
    app.show_detail_popup = true;
    assert_eq!(app.mode(), Mode::DetailView);
    app.show_quit_confirm = true;
    assert_eq!(app.mode(), Mode::QuitConfirm);
    app.show_detail_popup = false;
    app.show_service_popup = false;
    assert_eq!(app.mode(), Mode::QuitConfirm);
}

#[test]
fn test_quit_denied_from_detail_view_keeps_details() {
    let mut app = session();
    app.show_detail_popup = true;
    app.detail_content = vec![(s("Name"), s("alpha")), (s("Region"), s("eu-west-1"))];
    app.detail_scroll = 1;
    assert!(matches!(app.handle_key(Key::Char('q')), Effect::Continue));
    assert_eq!(app.mode(), Mode::QuitConfirm);
    assert!(matches!(app.handle_key(Key::Char('n')), Effect::Continue));
    assert_eq!(app.mode(), Mode::DetailView);
    assert_eq!(app.detail_content, vec![(s("Name"), s("alpha")), (s("Region"), s("eu-west-1"))]);
    assert_eq!(app.detail_scroll, 1);
    assert!(app.show_detail_popup);
}

#[test]
fn test_quit_denied_returns_to_each_mode() {
    let mut app = session();
    app.handle_key(Key::Char('Q'));
    assert_eq!(app.mode(), Mode::QuitConfirm);
    app.handle_key(Key::Esc);
    assert_eq!(app.mode(), Mode::Normal);
    app.handle_key(Key::Char(' '));
    assert_eq!(app.mode(), Mode::ServicePicker(0));
    app.handle_key(Key::Char('q'));
    assert_eq!(app.mode(), Mode::QuitConfirm);
    app.handle_key(Key::Char('N'));
    assert_eq!(app.mode(), Mode::ServicePicker(0));
}

#[test]
fn test_quit_confirmed() {
    let mut app = session();
    app.handle_key(Key::Char('q'));
    assert!(matches!(app.handle_key(Key::Char('y')), Effect::Quit));
    let mut app = session();
    app.handle_key(Key::Char('q'));
    assert!(matches!(app.handle_key(Key::Char('Y')), Effect::Quit));
    // yes means nothing without the confirmation
    let mut app = session();
    assert!(matches!(app.handle_key(Key::Char('y')), Effect::Continue));
    assert_eq!(app.mode(), Mode::Normal);
}

#[test]
fn test_quit_confirmation_takes_no_other_key() {
    let mut app = session();
    app.items = vec![s("a"), s("b")];
    app.handle_key(Key::Char('q'));
    for key in [Key::Down, Key::Up, Key::Enter, Key::Char('r'), Key::Char(' '), Key::Char('i'), Key::Other] {
        assert!(matches!(app.handle_key(key), Effect::Continue));
        assert_eq!(app.mode(), Mode::QuitConfirm);
        assert_eq!(app.selected_index, 0);
        assert_eq!(app.loading_state, LoadingState::Loaded);
        assert!(!app.show_service_popup);
    }
}

#[test]
fn test_toggle_favorite_flips_exactly_one() {
    let mut app = session();
    app.toggle_service_popup();
    app.popup_next();
    app.popup_next();
    assert_eq!(app.mode(), Mode::ServicePicker(2));
    let before: Vec<bool> = app.services.iter().map(|s| s.favorite).collect();
    app.toggle_favorite();
    let after: Vec<bool> = app.services.iter().map(|s| s.favorite).collect();
    assert_eq!(before, vec![true, true, false, false, false]);
    assert_eq!(after, vec![true, true, true, false, false]);
    assert_eq!(app.mode(), Mode::ServicePicker(2));
    assert_eq!(app.status_message, "Added to favorites");
    app.toggle_favorite();
    let again: Vec<bool> = app.services.iter().map(|s| s.favorite).collect();
    assert_eq!(again, before);
    assert_eq!(app.status_message, "Removed from favorites");
    assert_eq!(app.mode(), Mode::ServicePicker(2));
    assert!(app.services[2].service_type == awsome::app::ServiceType::IAM);
}

#[test]
fn test_toggle_favorite_needs_open_picker() {
    let mut app = session();
    let status = app.status_message.clone();
    app.toggle_favorite();
    assert!(app.services[0].favorite);
    assert_eq!(app.status_message, status);
    app.show_service_popup = true;
    app.popup_selected_index = 9;
    app.toggle_favorite();
    let flags: Vec<bool> = app.services.iter().map(|s| s.favorite).collect();
    assert_eq!(flags, vec![true, true, false, false, false]);
}

#[test]
fn test_favorite_services() {
    let mut app = session();
    let favorites: Vec<usize> = app.get_favorite_services().iter().map(|(i, _)| *i).collect();
    assert_eq!(favorites, vec![0, 1]);
    app.services[0].favorite = false;
    app.services[4].favorite = true;
    let favorites = app.get_favorite_services();
    assert_eq!(favorites.len(), 2);
    assert_eq!(favorites[0].0, 1);
    assert_eq!(favorites[0].1.short_name(), "S3");
    assert_eq!(favorites[1].0, 4);
    assert_eq!(favorites[1].1.short_name(), "DynamoDB");
    for service in app.services.iter_mut() {
        service.favorite = false;
    }
    assert!(app.get_favorite_services().is_empty());
}

#[test]
fn test_picker_cursor_wraps() {
    let mut app = session();
    app.toggle_service_popup();
    assert_eq!(app.popup_selected_index, 0);
    app.popup_previous();
    assert_eq!(app.popup_selected_index, 4);
    app.popup_next();
    assert_eq!(app.popup_selected_index, 0);
    app.popup_next();
    assert_eq!(app.popup_selected_index, 1);
    app.popup_previous();
    assert_eq!(app.popup_selected_index, 0);
}

#[test]
fn test_picker_opens_on_active_service() {
    let mut app = session();
    app.active_service = 3;
    app.popup_selected_index = 1;
    app.toggle_service_popup();
    assert!(app.show_service_popup);
    assert_eq!(app.popup_selected_index, 3);
    app.popup_next();
    app.toggle_service_popup();
    assert!(!app.show_service_popup);
    assert_eq!(app.popup_selected_index, 4);
    assert_eq!(app.active_service, 3);
}

#[test]
fn test_select_popup_service() {
    let mut app = session();
    app.active_service = 1;
    app.current_path = Some(s("bucket/sub/"));
    app.items = vec![s("h"), s("-"), s(".."), s("x")];
    app.s3_items = vec![S3Item::Header, S3Item::Separator, S3Item::ParentDir, S3Item::Object(s("x"))];
    app.selected_index = 3;
    app.loading_state = LoadingState::Error;
    app.error_message = Some(s("boom"));
    app.toggle_service_popup();
    app.popup_next();
    app.select_popup_service();
    assert_eq!(app.active_service, 2);
    assert!(!app.show_service_popup);
    assert_eq!(app.selected_index, 0);
    assert_eq!(app.loading_state, LoadingState::Idle);
    assert_eq!(app.items, vec![s("Press 'r' to load IAM Users resources")]);
    assert_eq!(app.status_message, "Switched to IAM Users. Press r to refresh.");
    assert_eq!(app.current_path, None);
    assert!(app.s3_items.is_empty());
    assert!(app.iam_items.is_empty());
    assert!(app.dynamodb_items.is_empty());
    assert!(app.is_valid());
    assert!(app.is_selectable(0));
}

#[test]
fn test_picker_keys() {
    let mut app = session();
    assert!(matches!(app.handle_key(Key::Char(' ')), Effect::Continue));
    assert_eq!(app.mode(), Mode::ServicePicker(0));
    app.handle_key(Key::Down);
    app.handle_key(Key::Char('j'));
    assert_eq!(app.mode(), Mode::ServicePicker(2));
    app.handle_key(Key::Up);
    app.handle_key(Key::Char('k'));
    app.handle_key(Key::Char('k'));
    assert_eq!(app.mode(), Mode::ServicePicker(4));
    app.handle_key(Key::Char('f'));
    assert!(app.services[4].favorite);
    app.handle_key(Key::Char('F'));
    assert!(!app.services[4].favorite);
    // the main view below sees nothing of the keys
    assert_eq!(app.selected_index, 0);
    assert_eq!(app.active_service, 0);
    app.handle_key(Key::Enter);
    assert_eq!(app.mode(), Mode::Normal);
    assert_eq!(app.active_service, 4);
    app.handle_key(Key::Char(' '));
    app.handle_key(Key::Esc);
    assert_eq!(app.mode(), Mode::Normal);
    app.handle_key(Key::Char(' '));
    app.handle_key(Key::Char(' '));
    assert_eq!(app.mode(), Mode::Normal);
}

#[test]
fn test_detail_keys() {
    let mut app = session();
    app.items = vec![s("i-1"), s("i-2")];
    assert!(matches!(app.handle_key(Key::Char('i')), Effect::Continue));
    assert_eq!(app.mode(), Mode::DetailView);
    app.detail_content = vec![(s("a"), s("1")), (s("b"), s("2")), (s("c"), s("3"))];
    app.handle_key(Key::Down);
    assert_eq!(app.detail_scroll, 1);
    app.handle_key(Key::Char('j'));
    assert_eq!(app.detail_scroll, 2);
    app.handle_key(Key::Down);
    assert_eq!(app.detail_scroll, 2);
    app.handle_key(Key::Up);
    app.handle_key(Key::Char('k'));
    app.handle_key(Key::Up);
    assert_eq!(app.detail_scroll, 0);
    // the rows below do not move
    assert_eq!(app.selected_index, 0);
    app.handle_key(Key::Enter);
    app.handle_key(Key::Char('r'));
    assert_eq!(app.loading_state, LoadingState::Loaded);
    app.handle_key(Key::Down);
    app.handle_key(Key::Char('I'));
    assert_eq!(app.mode(), Mode::Normal);
    assert!(app.detail_content.is_empty());
    assert_eq!(app.detail_scroll, 0);
}

#[test]
fn test_close_detail_popup_clears_the_pane() {
    let mut app = session();
    app.show_detail_popup = true;
    app.detail_content = vec![(s("a"), s("1"))];
    app.detail_scroll = 4;
    app.handle_key(Key::Esc);
    assert!(!app.show_detail_popup);
    assert!(app.detail_content.is_empty());
    assert_eq!(app.detail_scroll, 0);
}

#[test]
fn test_detail_scroll_bounds() {
    let mut app = session();
    app.detail_scroll_down();
    assert_eq!(app.detail_scroll, 0);
    app.detail_scroll_up();
    assert_eq!(app.detail_scroll, 0);
    app.detail_content = vec![(s("only"), s("one"))];
    app.detail_scroll_down();
    assert_eq!(app.detail_scroll, 0);
}

#[test]
fn test_main_view_keys() {
    let mut app = session();
    app.items = vec![s("a"), s("b"), s("c")];
    app.handle_key(Key::Down);
    assert_eq!(app.selected_index, 1);
    app.handle_key(Key::Char('j'));
    assert_eq!(app.selected_index, 2);
    app.handle_key(Key::Up);
    app.handle_key(Key::Char('k'));
    assert_eq!(app.selected_index, 0);
    assert!(matches!(app.handle_key(Key::Enter), Effect::Continue));
    assert_eq!(app.status_message, "Selected: a");
    assert!(matches!(app.handle_key(Key::Other), Effect::Continue));
    assert!(matches!(app.handle_key(Key::Char('x')), Effect::Continue));
    assert!(matches!(app.handle_key(Key::Esc), Effect::Continue));
    assert_eq!(app.mode(), Mode::Normal);
    let effect = app.handle_key(Key::Char('R'));
    assert!(matches!(effect, Effect::Fetch(Request::List(ListRequest::Instances))));
    assert_eq!(app.loading_state, LoadingState::Loading);
}

#[test]
fn test_command_table() {
    assert_eq!(command_for(Mode::Normal, Key::Char('q')), Command::AskQuit);
    assert_eq!(command_for(Mode::Normal, Key::Char('r')), Command::Refresh);
    assert_eq!(command_for(Mode::Normal, Key::Char('i')), Command::ShowDetails);
    assert_eq!(command_for(Mode::Normal, Key::Enter), Command::Activate);
    assert_eq!(command_for(Mode::Normal, Key::Esc), Command::Nothing);
    assert_eq!(command_for(Mode::Normal, Key::Char('f')), Command::Nothing);
    assert_eq!(command_for(Mode::ServicePicker(1), Key::Enter), Command::PickerCommit);
    assert_eq!(command_for(Mode::ServicePicker(1), Key::Char('r')), Command::Nothing);
    assert_eq!(command_for(Mode::ServicePicker(1), Key::Char('i')), Command::Nothing);
    assert_eq!(command_for(Mode::DetailView, Key::Char('i')), Command::CloseDetail);
    assert_eq!(command_for(Mode::DetailView, Key::Char(' ')), Command::Nothing);
    assert_eq!(command_for(Mode::DetailView, Key::Enter), Command::Nothing);
    assert_eq!(command_for(Mode::QuitConfirm, Key::Char('q')), Command::Nothing);
    assert_eq!(command_for(Mode::QuitConfirm, Key::Esc), Command::DenyQuit);
    assert_eq!(command_for(Mode::QuitConfirm, Key::Char('y')), Command::Quit);
}

#[test]
fn test_animation() {
    let mut app = session();
    assert_eq!(app.get_loading_spinner(), "⠋");
    app.animate();
    assert_eq!(app.animation_frame, 0);
    app.detail_loading = true;
    assert!(app.is_loading());
    let frames = ["⠙", "⠹", "⠸", "⠼", "⠴", "⠦", "⠧", "⠇", "⠏", "⠋", "⠙"];
    for (step, frame) in frames.iter().enumerate() {
        app.animate();
        assert_eq!(app.animation_frame, (step + 1) % 10);
        assert_eq!(app.get_loading_spinner(), *frame);
    }
    app.detail_loading = false;
    app.loading_state = LoadingState::Loading;
    assert!(app.is_loading());
    app.tick_animation();
    assert_eq!(app.animation_frame, 2);
}

#[test]
fn test_view_helpers() {
    let mut app = session();
    assert_eq!(app.main_title(), "EC2 Instances [READY]");
    app.loading_state = LoadingState::Loading;
    assert_eq!(app.main_title(), "EC2 Instances [LOADING...]");
    app.loading_state = LoadingState::Error;
    assert_eq!(app.main_title(), "EC2 Instances [ERROR]");
    app.loading_state = LoadingState::Idle;
    app.active_service = 4;
    assert_eq!(app.main_title(), "DynamoDB Tables");
    assert_eq!(app.picker_line(0), "★ EC2 Instances");
    assert_eq!(app.picker_line(2), "  IAM Users");
    assert_eq!(app.detail_title(), "Resource Details");
    app.selected_index = 5;
    assert_eq!(app.detail_title(), "Details");
    app.detail_loading = true;
    assert_eq!(app.detail_title(), "Loading Details...");

    app.active_service = 1;
    app.selected_index = 2;
    app.items = vec![s("h"), s("-"), s("b1"), s("b2")];
    app.s3_items = vec![S3Item::Header, S3Item::Separator, S3Item::Bucket(s("b1")), S3Item::Bucket(s("b2"))];
    assert_eq!(app.row_style(0), RowStyle::Decoration);
    assert_eq!(app.row_style(1), RowStyle::Decoration);
    assert_eq!(app.row_style(2), RowStyle::Cursor);
    assert_eq!(app.row_style(3), RowStyle::Plain);
    app.selected_index = 0;
    assert_eq!(app.row_style(0), RowStyle::Decoration);
}

#[test]
fn test_centered_shares() {
    assert_eq!(awsome::app::centered_shares(60), (20, 60, 20));
    assert_eq!(awsome::app::centered_shares(70), (15, 70, 15));
    assert_eq!(awsome::app::centered_shares(40), (30, 40, 30));
    assert_eq!(awsome::app::centered_shares(20), (40, 20, 40));
    assert_eq!(awsome::app::centered_shares(100), (0, 100, 0));
    assert_eq!(awsome::app::centered_shares(0), (50, 0, 50));
    assert_eq!(awsome::app::centered_shares(35), (32, 35, 32));
}
