use antarctica_cli::components::dialog::{ConfirmDialog, ErrorDialog, LoadingDialog, QuitConfirmDialog, SuccessDialog, WelcomeDialog};
use antarctica_cli::events::{is_help_close, tick_due, translate_input, Event, InputOutcome, KeyCode, KeyEvent, TerminalInput};
use antarctica_cli::text::{
    blank, byte_len_above, byte_len_below, char_count, char_display_width, chars_of, chars_within_bytes, decimal_string,
    has_char, insert_char, lines_of, remove_char, string_of, text_display_width,
};
use antarctica_cli::ui::{hints_of, FooterBar, HelpPanel, InputField, TitleBar};
use antarctica_cli::utils::{AppError, ErrorCode};

// ---- dialogs ----

#[test]
fn confirm_dialog_options_wrap() {
    let mut d = ConfirmDialog::new("t", "m");
    assert_eq!(d.selected(), 1);
    assert!(d.is_confirmed());
    d.next_option();
    assert_eq!(d.selected(), 0);
    assert!(!d.is_confirmed());
    d.prev_option();
    assert_eq!(d.selected(), 1);
    d.prev_option();
    assert_eq!(d.selected(), 0);
    d.prev_option();
    assert_eq!(d.selected(), 1);
    assert_eq!(d.options(), &vec!["否".to_string(), "是".to_string()]);
    assert_eq!(d.title(), "t");
    assert_eq!(d.message(), "m");
}

#[test]
fn quit_dialog_asks_to_quit() {
    let mut q = QuitConfirmDialog::new();
    assert!(q.is_confirmed());
    assert_eq!(q.confirm_dialog().title(), " 确认退出 ");
    assert_eq!(q.confirm_dialog().message(), "确定要退出 Antarctica 吗？");
    q.next_option();
    assert!(!q.is_confirmed());
    q.prev_option();
    assert!(q.is_confirmed());
}

#[test]
fn welcome_dialog_edits_address() {
    let mut w = WelcomeDialog::new("http://a");
    w.handle_input('b');
    assert_eq!(w.server_url(), "http://ab");
    w.handle_backspace();
    assert_eq!(w.server_url(), "http://a");
    w.clear();
    assert_eq!(w.server_url(), "");
    w.handle_backspace();
    assert_eq!(w.server_url(), "");
}

#[test]
fn error_dialog_detail_lines_are_cut() {
    let long = "x".repeat(60);
    let detail = format!("a\r\nb\n{}\nc\nd\ne\nf", long);
    let d = ErrorDialog::new(3000, "m").with_detail(&detail);
    let lines = d.detail_lines(20).expect("detail");
    assert_eq!(lines.len(), 5);
    assert_eq!(lines[0], "a");
    assert_eq!(lines[1], "b");
    assert_eq!(lines[2], format!("{}...", "x".repeat(47)));
    assert_eq!(lines[4], "d");
    let wide = d.detail_lines(100).expect("detail");
    assert_eq!(wide[2], long);
    assert!(ErrorDialog::new(1, "m").detail_lines(80).is_none());
}

#[test]
fn error_dialog_cuts_at_character_bytes() {
    let detail = format!("ab{}", "中".repeat(20));
    let d = ErrorDialog::new(1, "m").with_detail(&detail);
    let lines = d.detail_lines(0).expect("detail");
    assert_eq!(lines[0], format!("ab{}...", "中".repeat(15)));
}

#[test]
fn error_dialog_for_error() {
    let e = AppError::new(ErrorCode::NotFound, "gone").with_detail("why");
    let d = ErrorDialog::for_error(&e);
    assert_eq!(d.error_code(), 3004);
    assert_eq!(d.message(), "gone");
    assert_eq!(d.detail(), Some("why"));
}

#[test]
fn success_and_loading_dialogs() {
    let s = SuccessDialog::new("ok");
    assert_eq!(s.title(), " 成功 ");
    let s = s.with_title("T");
    assert_eq!(s.title(), "T");
    assert_eq!(s.message(), "ok");
    assert_eq!(LoadingDialog::new("wait").message(), "wait");
}

// ---- ui ----

#[test]
fn footer_texts() {
    let f = FooterBar::new();
    assert_eq!(f.left_text(), "暂无信息");
    assert_eq!(f.hint_texts(), vec!["按 ? 查看帮助".to_string()]);
    let f = f
        .with_left_info(vec!["a".to_string(), "b".to_string()])
        .with_right_hints(hints_of(&[("k", "up"), ("j", "down")]));
    assert_eq!(f.left_text(), "a | b");
    assert_eq!(f.hint_texts(), vec!["k: up".to_string(), "j: down".to_string()]);
}

#[test]
fn help_panel_pads_keys() {
    let p = HelpPanel::new("帮助").add_item("?", "help").add_item("Ctrl+Shift+Tab", "long");
    assert_eq!(p.title(), "帮助");
    let rows = p.rows();
    assert_eq!(rows[0], ("?           ".to_string(), "help".to_string()));
    assert_eq!(rows[1].0, "Ctrl+Shift+Tab");
}

#[test]
fn input_field_masks_passwords_by_byte() {
    let f = InputField::new("密码").with_value("ab中").password().focused(true);
    assert_eq!(f.display_value(), "*****");
    assert!(f.is_focused());
    assert_eq!(f.label(), "密码");
    let g = InputField::new("名").with_value("ab中");
    assert_eq!(g.display_value(), "ab中");
    assert!(!g.is_focused());
}

#[test]
fn title_bar_keeps_title() {
    assert_eq!(TitleBar::new("Antarctica-Home").title(), "Antarctica-Home");
}

// ---- events ----

#[test]
fn terminal_input_translation() {
    let k = KeyEvent::plain(KeyCode::Char('a'));
    assert_eq!(translate_input(TerminalInput::Key { key: k, is_press: true }), InputOutcome::Send(Event::Key(k)));
    assert_eq!(translate_input(TerminalInput::Key { key: k, is_press: false }), InputOutcome::Ignore);
    let c = KeyEvent { code: KeyCode::Char('c'), control: true };
    assert_eq!(translate_input(TerminalInput::Key { key: c, is_press: true }), InputOutcome::SendAndStop(Event::Quit));
    let q = KeyEvent { code: KeyCode::Char('q'), control: true };
    assert_eq!(translate_input(TerminalInput::Key { key: q, is_press: true }), InputOutcome::SendAndStop(Event::Quit));
    let plain_q = KeyEvent::plain(KeyCode::Char('q'));
    assert_eq!(translate_input(TerminalInput::Key { key: plain_q, is_press: true }), InputOutcome::Send(Event::Key(plain_q)));
    assert_eq!(translate_input(TerminalInput::Resize(3, 4)), InputOutcome::Send(Event::Resize(3, 4)));
    assert_eq!(translate_input(TerminalInput::Mouse), InputOutcome::Send(Event::Mouse));
    assert_eq!(translate_input(TerminalInput::Other), InputOutcome::Ignore);
}

#[test]
fn ticks_every_second() {
    assert!(!tick_due(999));
    assert!(tick_due(1000));
    assert!(tick_due(5000));
}

#[test]
fn help_closes_on_question_mark_or_escape() {
    assert!(is_help_close(&Event::Key(KeyEvent::plain(KeyCode::Char('?')))));
    assert!(is_help_close(&Event::Key(KeyEvent::plain(KeyCode::Esc))));
    assert!(!is_help_close(&Event::Key(KeyEvent::plain(KeyCode::Enter))));
    assert!(!is_help_close(&Event::Tick));
}

// ---- text ----

#[test]
fn text_helpers() {
    assert_eq!(chars_of("a中"), vec!['a', '中']);
    assert_eq!(string_of(&vec!['x', '语']), "x语");
    assert_eq!(char_count("a中b"), 3);
    assert_eq!(decimal_string(0), "0");
    assert_eq!(decimal_string(1234567890), "1234567890");
    assert!(blank(" \t\n"));
    assert!(!blank(" a "));
    assert_eq!(insert_char("ac", 1, 'b'), "abc");
    assert_eq!(remove_char("a中c", 1), "ac");
    assert!(has_char("a@b", '@'));
    assert!(!has_char("ab", '@'));
    assert_eq!(char_display_width('a'), 1);
    assert_eq!(char_display_width('中'), 2);
    assert_eq!(text_display_width(&vec!['a', '中']), 3);
}

#[test]
fn lines_like_str_lines() {
    let ls = lines_of("a\r\nb\n\nc\n");
    let strs: Vec<String> = ls.iter().map(|l| l.iter().collect()).collect();
    assert_eq!(strs, "a\r\nb\n\nc\n".lines().map(|s| s.to_string()).collect::<Vec<_>>());
    assert!(lines_of("").is_empty());
}

#[test]
fn byte_lengths() {
    let v = chars_of("a中b");
    assert!(byte_len_above(&v, 4));
    assert!(!byte_len_above(&v, 5));
    assert!(byte_len_below("a中b", 6));
    assert!(!byte_len_below("a中b", 5));
    assert_eq!(chars_within_bytes(&v, 4), 2);
    assert_eq!(chars_within_bytes(&v, 1), 1);
    assert_eq!(chars_within_bytes(&v, 0), 0);
}
