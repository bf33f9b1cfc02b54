use nexustui::hub::{nick_command, HubState, Key, UiAction};
use nexustui::picker::FilePickerState;

fn hub() -> HubState {
    HubState::new("alice", "📱 Xiaomi Redmi (192.168.1.50)".to_string())
}

fn type_line(h: &mut HubState, s: &str) {
    for c in s.chars() {
        assert!(matches!(h.handle_key(Key::Char(c)), UiAction::Nothing));
    }
}

#[test]
fn hub_starts_with_both_devices_and_phone_selected() {
    let h = hub();
    assert_eq!(h.devices(), &vec!["💻 alice (127.0.0.1)".to_string(), "📱 Xiaomi Redmi (192.168.1.50)".to_string()]);
    assert_eq!(h.selected_device(), 1);
    assert_eq!(h.scroll(), 0);
    assert_eq!(h.log().len(), 1);
    assert!(h.log()[0].starts_with("ℹ️  System ready."));
    assert!(matches!(h.picker(), FilePickerState::Closed));
    assert_eq!(nick_command("alice"), "/nick alice");
}

#[test]
fn selection_stays_on_a_device() {
    let mut h = hub();
    h.handle_key(Key::Down);
    assert_eq!(h.selected_device(), 1);
    h.handle_key(Key::Up);
    h.handle_key(Key::Up);
    assert_eq!(h.selected_device(), 0);
    h.handle_key(Key::Down);
    assert_eq!(h.selected_device(), 1);
}

#[test]
fn scrolling_stays_on_a_message() {
    let mut h = hub();
    h.handle_key(Key::PageDown);
    assert_eq!(h.scroll(), 0);
    for m in ["a", "b", "c"] {
        h.receive_line(m.to_string());
    }
    for _ in 0..5 {
        h.handle_key(Key::PageDown);
    }
    assert_eq!(h.scroll(), 2);
    h.handle_key(Key::PageUp);
    assert_eq!(h.scroll(), 1);
}

#[test]
fn typing_and_backspace_edit_the_line() {
    let mut h = hub();
    type_line(&mut h, "hey");
    h.handle_key(Key::Backspace);
    assert_eq!(h.input(), "he");
    h.handle_key(Key::Backspace);
    h.handle_key(Key::Backspace);
    h.handle_key(Key::Backspace);
    assert_eq!(h.input(), "");
}

#[test]
fn entered_chat_line_is_sent_trimmed_and_cleared() {
    let mut h = hub();
    type_line(&mut h, "  hello there  ");
    match h.handle_key(Key::Enter) {
        UiAction::SendMessage(m) => assert_eq!(m, "hello there"),
        _ => panic!("expected a chat line"),
    }
    assert_eq!(h.input(), "");
}

#[test]
fn blank_line_is_kept_and_ignored() {
    let mut h = hub();
    type_line(&mut h, "   ");
    assert!(matches!(h.handle_key(Key::Enter), UiAction::Nothing));
    assert_eq!(h.input(), "   ");
}

#[test]
fn slash_commands_are_recognised() {
    let mut h = hub();
    type_line(&mut h, "/pull  photo.jpg ");
    match h.handle_key(Key::Enter) {
        UiAction::PullFile(f) => assert_eq!(f, "photo.jpg"),
        _ => panic!(),
    }
    type_line(&mut h, "/file /tmp/a b.txt");
    match h.handle_key(Key::Enter) {
        UiAction::SendFile(f) => assert_eq!(f, "/tmp/a b.txt"),
        _ => panic!(),
    }
    type_line(&mut h, "/send /send x");
    match h.handle_key(Key::Enter) {
        UiAction::SendFile(f) => assert_eq!(f, "x"),
        _ => panic!(),
    }
    type_line(&mut h, "/mirror");
    match h.handle_key(Key::Enter) {
        UiAction::Mirror(d) => assert_eq!(d, "📱 Xiaomi Redmi (192.168.1.50)"),
        _ => panic!(),
    }
    type_line(&mut h, "/pullx");
    assert!(matches!(h.handle_key(Key::Enter), UiAction::SendMessage(_)));
}

#[test]
fn function_keys_and_escape() {
    let mut h = hub();
    match h.handle_key(Key::F(2)) {
        UiAction::Mirror(d) => assert_eq!(d, "📱 Xiaomi Redmi (192.168.1.50)"),
        _ => panic!(),
    }
    assert!(matches!(h.handle_key(Key::F(4)), UiAction::ListPhoneFiles));
    assert!(matches!(h.handle_key(Key::F(5)), UiAction::Nothing));
    assert!(matches!(h.handle_key(Key::Esc), UiAction::Quit));
}

#[test]
fn folder_menu_flow_sends_the_picked_file() {
    let mut h = hub();
    h.handle_key(Key::F(3));
    assert!(matches!(h.picker(), FilePickerState::FolderMenu));
    assert!(matches!(h.handle_key(Key::Char('7')), UiAction::Nothing));
    match h.handle_key(Key::Char('2')) {
        UiAction::ListFolder { folder_name, path } => {
            assert_eq!(folder_name, "Pictures");
            assert_eq!(path, "/home/senatorherscher/Pictures");
        }
        _ => panic!(),
    }
    h.open_file_menu(
        "Pictures".to_string(),
        vec![("a.png (3 KB)".to_string(), "/p/a.png".to_string()), ("b.png".to_string(), "/p/b.png".to_string())],
    );
    assert!(matches!(h.handle_key(Key::Char('3')), UiAction::Nothing));
    assert!(matches!(h.handle_key(Key::Char('0')), UiAction::Nothing));
    h.handle_key(Key::Esc);
    assert!(matches!(h.picker(), FilePickerState::FolderMenu));
    h.handle_key(Key::Esc);
    assert!(matches!(h.picker(), FilePickerState::Closed));
    h.open_file_menu("Pictures".to_string(), vec![("b.png".to_string(), "/p/b.png".to_string())]);
    match h.handle_key(Key::Char('1')) {
        UiAction::SendFile(p) => assert_eq!(p, "/p/b.png"),
        _ => panic!(),
    }
    assert!(matches!(h.picker(), FilePickerState::Closed));
    assert_eq!(h.input(), "");
}

#[test]
fn receive_menu_flow_fetches_the_picked_file() {
    let mut h = hub();
    h.open_receive_menu(vec!["x.jpg".to_string(), "y.pdf".to_string()]);
    match h.handle_key(Key::Char('2')) {
        UiAction::PullFile(f) => assert_eq!(f, "y.pdf"),
        _ => panic!(),
    }
    h.open_receive_menu(vec![]);
    assert!(matches!(h.handle_key(Key::Char('1')), UiAction::Nothing));
    assert!(matches!(h.handle_key(Key::Esc), UiAction::Nothing));
    assert!(matches!(h.picker(), FilePickerState::Closed));
}

#[test]
fn announcing_lines_add_a_device_once() {
    let mut h = hub();
    h.receive_line("[SISTEM] 192.168.1.7 joined".to_string());
    h.receive_line("[SISTEM] 192.168.1.7 joined".to_string());
    h.receive_line("Client added: 10.0.0.1".to_string());
    h.receive_line("hello 192.168.1.9".to_string());
    assert_eq!(h.devices().len(), 3);
    assert_eq!(h.devices()[2], "New Device ([SISTEM] 192.168.1.7 joined)");
    assert_eq!(h.messages().len(), 4);
    h.push_log("✅ done".to_string());
    assert_eq!(h.log().len(), 2);
}
