use antarctica_cli::api::{AuthorInfo, Blog, BlogStatus, Visibility};
use antarctica_cli::config::UserInfo;
use antarctica_cli::events::{Event, KeyCode, KeyEvent};
use antarctica_cli::pages::blog_edit::{BlogEditAction, BlogEditPage, EditMode, FieldTone, FocusArea};
use antarctica_cli::pages::blog_view::{BlogViewAction, BlogViewPage, ViewMode};
use antarctica_cli::pages::home::{entry_lines, HomeAction, HomePage};
use antarctica_cli::pages::login::{LoginAction, LoginPage};
use antarctica_cli::pages::profile::{ProfileAction, ProfilePage};
use antarctica_cli::pages::register::{RegisterAction, RegisterPage};
use antarctica_cli::utils::{AppError, ErrorCode};

fn key(code: KeyCode) -> Event {
    Event::Key(KeyEvent::plain(code))
}

fn ch(c: char) -> Event {
    key(KeyCode::Char(c))
}

fn ctrl(c: char) -> Event {
    Event::Key(KeyEvent { code: KeyCode::Char(c), control: true })
}

fn blog(id: &str, title: &str, author: &str, content: &str, visibility: Visibility) -> Blog {
    Blog {
        id: id.to_string(),
        title: title.to_string(),
        content: content.to_string(),
        html_content: String::new(),
        author: AuthorInfo { id: "a".to_string(), username: author.to_string() },
        created_at: "2024-01-01".to_string(),
        updated_at: "2024-01-02".to_string(),
        status: BlogStatus::Published,
        visibility,
    }
}

fn user(name: &str) -> UserInfo {
    UserInfo {
        id: "1".to_string(),
        username: name.to_string(),
        nickname: "Nick".to_string(),
        email: "n@example.com".to_string(),
        bio: None,
    }
}

fn type_text(page: &mut BlogEditPage, text: &str) {
    for c in text.chars() {
        assert!(page.fits_limits());
        page.handle_event(ch(c));
    }
}

// ---- editor ----

#[test]
fn editor_types_title_and_content() {
    let mut p = BlogEditPage::new();
    assert_eq!(p.mode(), EditMode::Normal);
    p.handle_event(ch('i'));
    assert_eq!(p.mode(), EditMode::Insert);
    type_text(&mut p, "Hi");
    assert_eq!(p.title_display(), "Hi");
    assert_eq!(p.title_cursor(), Some(2));
    p.handle_event(key(KeyCode::Esc));
    assert_eq!(p.mode(), EditMode::Normal);
    p.handle_event(key(KeyCode::Tab));
    p.handle_event(ch('i'));
    type_text(&mut p, "ab");
    p.handle_event(key(KeyCode::Enter));
    type_text(&mut p, "中c");
    assert_eq!(p.content(), "ab\n中c");
    assert_eq!(p.content_cursor(0, 80, 20), Some((3, 1)));
    assert!(p.has_unsaved_changes());
}

#[test]
fn editor_type_then_backspace_restores_text() {
    let mut p = BlogEditPage::new();
    p.handle_event(key(KeyCode::Tab));
    p.handle_event(ch('i'));
    type_text(&mut p, "xy");
    p.handle_event(key(KeyCode::Left));
    p.handle_event(ch('Z'));
    assert_eq!(p.content(), "xZy");
    p.handle_event(key(KeyCode::Backspace));
    assert_eq!(p.content(), "xy");
}

#[test]
fn editor_save_with_blank_title_is_refused() {
    let mut p = BlogEditPage::new();
    let a = p.handle_event(ctrl('s'));
    assert!(matches!(a, BlogEditAction::Nothing));
}

#[test]
fn editor_save_hands_over_texts() {
    let mut p = BlogEditPage::new();
    p.handle_event(ch('i'));
    type_text(&mut p, "T");
    p.handle_event(key(KeyCode::Esc));
    p.handle_event(ch('p'));
    match p.handle_event(ctrl('s')) {
        BlogEditAction::Save { blog_id, title, content, is_public, is_new } => {
            assert!(blog_id.is_none());
            assert_eq!(title, "T");
            assert_eq!(content, "");
            assert!(is_public);
            assert!(is_new);
        }
        other => panic!("unexpected {:?}", other),
    }
}

#[test]
fn editor_for_existing_blog_is_saved_until_changed() {
    let b = blog("b1", "Title", "alice", "body", Visibility::Private);
    let mut p = BlogEditPage::new_for_edit(b);
    assert!(!p.has_unsaved_changes());
    assert!(matches!(p.handle_event(key(KeyCode::Esc)), BlogEditAction::Back));
    p.handle_event(ch('p'));
    assert!(p.has_unsaved_changes());
    assert!(matches!(p.handle_event(key(KeyCode::Esc)), BlogEditAction::Nothing));
    let d = p.confirm_exit_dialog().expect("confirmation shown");
    assert!(d.is_confirmed());
    assert!(matches!(p.handle_event(key(KeyCode::Enter)), BlogEditAction::Back));
}

#[test]
fn editor_preview_upload_needs_a_saved_blog() {
    let mut p = BlogEditPage::new();
    p.handle_event(ch('t'));
    assert_eq!(p.mode(), EditMode::Preview);
    assert_eq!(p.preview_title(), "渲染预览");
    p.handle_event(ch('t'));
    assert_eq!(p.preview_title(), "源码预览");
    assert!(matches!(p.handle_event(key(KeyCode::F(10))), BlogEditAction::Nothing));
    let mut q = BlogEditPage::new_for_edit(blog("b9", "T", "a", "c", Visibility::Public));
    q.handle_event(ch('t'));
    match q.handle_event(key(KeyCode::F(10))) {
        BlogEditAction::Upload(id) => assert_eq!(id, "b9"),
        other => panic!("unexpected {:?}", other),
    }
}

#[test]
fn editor_success_goes_back_on_key() {
    let mut p = BlogEditPage::new();
    p.set_saving(true);
    assert!(p.loading_dialog().is_some());
    p.set_success("ok".to_string());
    assert!(p.loading_dialog().is_none());
    assert_eq!(p.success_dialog().map(|d| d.message().to_string()), Some("ok".to_string()));
    assert!(matches!(p.handle_event(ch('x')), BlogEditAction::SaveSuccess));
}

#[test]
fn editor_error_dialog_reports_code_zero() {
    let mut p = BlogEditPage::new();
    p.set_error("bad".to_string());
    let d = p.error_dialog().expect("error shown");
    assert_eq!(d.error_code(), 0);
    assert_eq!(d.message(), "bad");
    assert!(d.detail().is_none());
}

#[test]
fn editor_view_texts() {
    let mut p = BlogEditPage::new();
    assert_eq!(p.title_display(), "按 i 开始编辑");
    assert_eq!(p.content_display(), "按 Tab 切换到内容");
    assert_eq!(p.field_tone(FocusArea::Title), FieldTone::Focused);
    assert_eq!(p.field_tone(FocusArea::Content), FieldTone::Idle);
    assert_eq!(p.title_frame(), "标题");
    assert_eq!(p.content_frame(), "内容 - 🔒 私有");
    p.handle_event(ch('i'));
    assert_eq!(p.title_display(), "");
    assert_eq!(p.field_tone(FocusArea::Title), FieldTone::Editing);
    assert_eq!(p.title_frame(), "标题 [编辑模式]");
    let f = p.footer();
    assert_eq!(f.left_text(), "模式: 编辑 | 焦点: 标题 | 新建");
    let hints = f.hint_texts();
    assert_eq!(hints.len(), 7);
    assert_eq!(hints[3], "p: 私有");
    assert_eq!(hints[6], "?: 帮助");
}

#[test]
fn editor_line_numbers_and_scroll() {
    let b = blog("b", "T", "a", "one\ntwo\nthree\nfour\nfive", Visibility::Public);
    let p = BlogEditPage::new_for_edit(b);
    let n = p.line_numbers();
    assert_eq!(n, vec!["   1", "   2", "   3", "   4", "   5"]);
    assert_eq!(p.content_scroll(3), 0);
    let empty = BlogEditPage::new();
    assert_eq!(empty.line_numbers(), vec!["   1"]);
}

#[test]
fn editor_content_scroll_is_held_at_the_last_screen() {
    let b = blog("b", "T", "a", "1\n2\n3\n4\n5", Visibility::Public);
    let mut p = BlogEditPage::new_for_edit(b);
    p.handle_event(key(KeyCode::Tab));
    for _ in 0..10 {
        p.handle_event(ch('j'));
    }
    assert_eq!(p.scroll_offset(), 10);
    assert_eq!(p.content_scroll(3), 2);
    assert_eq!(p.content_scroll(10), 0);
}

#[test]
fn editor_cursor_is_kept_inside_the_frame() {
    let b = blog("b", "T", "a", "abcdef\n\n\nx", Visibility::Public);
    let mut p = BlogEditPage::new_for_edit(b);
    p.handle_event(key(KeyCode::Tab));
    p.handle_event(ch('i'));
    for _ in 0..6 {
        p.handle_event(key(KeyCode::Right));
    }
    assert_eq!(p.content_cursor(0, 4, 2), Some((3, 0)));
    for _ in 0..4 {
        p.handle_event(key(KeyCode::Right));
    }
    assert_eq!(p.content_cursor(0, 80, 2), Some((1, 1)));
    assert_eq!(p.content_cursor(1, 80, 10), Some((1, 2)));
    assert_eq!(p.content_cursor(5, 80, 10), Some((1, 0)));
    assert_eq!(p.title_cursor(), None);
}

// ---- viewer ----

#[test]
fn viewer_owner_may_edit_and_upload() {
    let mut v = BlogViewPage::new();
    v.set_blog(blog("b1", "T", "alice", "text", Visibility::Public));
    assert!(!v.is_blog_owner());
    assert!(matches!(v.handle_event(ch('e')), BlogViewAction::Nothing));
    v.set_current_username("alice".to_string());
    assert!(v.is_blog_owner());
    match v.handle_event(ch('e')) {
        BlogViewAction::EditBlog(id) => assert_eq!(id, "b1"),
        other => panic!("unexpected {:?}", other),
    }
    match v.handle_event(key(KeyCode::F(10))) {
        BlogViewAction::UploadBlog(id) => assert_eq!(id, "b1"),
        other => panic!("unexpected {:?}", other),
    }
    assert_eq!(v.footer().hint_texts().len(), 7);
    assert_eq!(v.footer().left_text(), "作者: alice | 可见: 公开");
    assert_eq!(v.title_text(), "Antarctica-Blog: T");
}

#[test]
fn viewer_scrolls_within_limit() {
    let mut v = BlogViewPage::new();
    v.set_blog(blog("b", "T", "a", "1\n2\n3\n4\n5\n6", Visibility::Private));
    v.handle_event(ch('t'));
    assert_eq!(v.view_mode(), ViewMode::Source);
    assert_eq!(v.mode_title(), "源码模式");
    v.fit_source(10, 4);
    for _ in 0..5 {
        v.handle_event(key(KeyCode::Down));
    }
    assert_eq!(v.scroll_offset(), 2);
    v.handle_event(ch('k'));
    assert_eq!(v.scroll_offset(), 1);
    assert!(matches!(v.handle_event(ch('q')), BlogViewAction::Back));
}

#[test]
fn viewer_wrapped_lines() {
    let v = BlogViewPage::new();
    assert_eq!(v.calculate_wrapped_lines("abcdef\n\n中文", 4), 4);
    assert_eq!(v.calculate_wrapped_lines("a\nb", 0), 2);
    assert_eq!(v.calculate_wrapped_lines("", 5), 1);
    assert_eq!(v.calculate_wrapped_lines("", 0), 0);
}

#[test]
fn viewer_rendered_window() {
    let mut v = BlogViewPage::new();
    v.set_blog(blog("b", "T", "a", "one\n\ntwo\n\nthree\n\nfour", Visibility::Private));
    let shown = v.fit_rendered(3);
    assert_eq!(shown.len(), 3);
    for _ in 0..10 {
        v.handle_event(ch('j'));
    }
    let all = v.fit_rendered(100);
    assert_eq!(v.scroll_offset(), 0);
    assert!(all.len() >= 7);
}

#[test]
fn viewer_upload_result_dialogs() {
    let mut v = BlogViewPage::new();
    v.set_uploading(true);
    assert_eq!(v.loading_dialog().map(|d| d.message().to_string()), Some("正在上传...".to_string()));
    v.set_upload_error("nope".to_string());
    assert!(v.loading_dialog().is_none());
    assert_eq!(v.error_dialog().map(|d| d.message().to_string()), Some("nope".to_string()));
    v.handle_event(ch('x'));
    assert!(v.error_dialog().is_none());
    v.set_success("done".to_string());
    assert_eq!(v.success_dialog().map(|d| d.title().to_string()), Some(" 成功 ".to_string()));
}

// ---- home ----

#[test]
fn home_selection_wraps_and_opens_blog() {
    let mut h = HomePage::new();
    h.set_blogs(vec![
        blog("a", "A", "x", "", Visibility::Public),
        blog("b", "B", "y", "", Visibility::Public),
    ]);
    assert_eq!(h.selected_index(), 0);
    h.handle_event(ch('k'));
    assert_eq!(h.selected_index(), 1);
    h.handle_event(key(KeyCode::Down));
    assert_eq!(h.selected_index(), 0);
    h.handle_event(ch('j'));
    match h.handle_event(key(KeyCode::Enter)) {
        HomeAction::ViewBlog(id) => assert_eq!(id, "b"),
        other => panic!("unexpected {:?}", other),
    }
    assert_eq!(h.list_title(), "最新文章 (2)");
}

#[test]
fn home_profile_needs_login() {
    let mut h = HomePage::new();
    assert!(matches!(h.handle_event(ch('o')), HomeAction::Nothing));
    h.set_authenticated(true);
    assert!(matches!(h.handle_event(ch('o')), HomeAction::GotoProfile));
    assert!(matches!(h.handle_event(ch('l')), HomeAction::GotoLogin));
    assert_eq!(h.footer().left_text(), "已登录");
}

#[test]
fn home_quit_is_confirmed() {
    let mut h = HomePage::new();
    assert!(matches!(h.handle_event(ch('q')), HomeAction::Nothing));
    assert!(h.quit_dialog().is_some());
    h.handle_event(key(KeyCode::Left));
    assert!(matches!(h.handle_event(key(KeyCode::Enter)), HomeAction::Nothing));
    assert!(h.quit_dialog().is_none());
    h.handle_event(ch('q'));
    assert!(matches!(h.handle_event(key(KeyCode::Enter)), HomeAction::Nothing));
    h.handle_event(ch('q'));
    h.handle_event(key(KeyCode::Right));
    assert!(matches!(h.handle_event(key(KeyCode::Enter)), HomeAction::Quit));
}

#[test]
fn home_first_run_asks_for_server() {
    let mut h = HomePage::new_with_first_run(true, "/home/u/.config/antarctica-cli/config.json".to_string());
    assert_eq!(h.welcome_dialog().map(|d| d.server_url().to_string()), Some("http://localhost:8080".to_string()));
    h.handle_event(key(KeyCode::Backspace));
    h.handle_event(ch('1'));
    match h.handle_event(key(KeyCode::Enter)) {
        HomeAction::SetServerUrl(url) => assert_eq!(url, "http://localhost:8081"),
        other => panic!("unexpected {:?}", other),
    }
    assert!(h.welcome_dialog().is_none());
    let mut h2 = HomePage::new_with_first_run(true, String::new());
    match h2.handle_event(key(KeyCode::Esc)) {
        HomeAction::SetServerUrl(url) => assert_eq!(url, "http://localhost:8080"),
        other => panic!("unexpected {:?}", other),
    }
}

#[test]
fn home_error_dialog_is_hidden_by_welcome() {
    let mut h = HomePage::new_with_first_run(true, String::new());
    h.set_error(AppError::new(ErrorCode::HttpError, "m").with_detail("d"));
    assert!(h.error_dialog().is_none());
    let mut g = HomePage::new();
    g.set_error(AppError::new(ErrorCode::HttpError, "m"));
    let d = g.error_dialog().expect("shown");
    assert_eq!(d.error_code(), 3000);
    assert_eq!(d.detail(), Some(""));
}

#[test]
fn home_entry_lines() {
    let b = blog("a", "Title", "bob", "", Visibility::Public);
    let (t, meta) = entry_lines(&b);
    assert_eq!(t, "Title");
    assert_eq!(meta, "  作者: bob | 时间: 2024-01-01");
}

// ---- login ----

#[test]
fn login_needs_both_fields() {
    let mut l = LoginPage::new();
    assert!(matches!(l.handle_event(key(KeyCode::Enter)), LoginAction::Nothing));
    l.handle_event(ch('u'));
    l.handle_event(key(KeyCode::Tab));
    l.handle_event(ch('p'));
    assert_eq!(l.footer().left_text(), "用户名: 已输入 | 密码: 已输入");
    assert_eq!(l.password_field().display_value(), "*");
    match l.handle_event(key(KeyCode::Enter)) {
        LoginAction::Login { username, password } => {
            assert_eq!(username, "u");
            assert_eq!(password, "p");
        }
        other => panic!("unexpected {:?}", other),
    }
}

#[test]
fn login_focus_cycles_and_register_from_button() {
    let mut l = LoginPage::new();
    assert_eq!(l.focus_index(), 0);
    l.handle_event(key(KeyCode::BackTab));
    assert_eq!(l.focus_index(), 2);
    assert!(l.button_focused());
    assert!(matches!(l.handle_event(ch('r')), LoginAction::GotoRegister));
    l.handle_event(key(KeyCode::Tab));
    assert_eq!(l.focus_index(), 0);
    assert!(matches!(l.handle_event(key(KeyCode::Esc)), LoginAction::Back));
}

#[test]
fn login_error_dialog_replaces_form() {
    let mut l = LoginPage::new();
    l.set_loading(true);
    assert_eq!(l.button_text(), "登录中...");
    l.set_error(&AppError::new(ErrorCode::InvalidCredentials, "用户名或密码错误"));
    assert_eq!(l.button_text(), "[ 登录 ]");
    assert!(l.show_error());
    assert_eq!(l.error_dialog().map(|d| d.error_code()), Some(5001));
}

// ---- register ----

fn fill_register(r: &mut RegisterPage, fields: [&str; 5]) {
    for (i, f) in fields.iter().enumerate() {
        for c in f.chars() {
            r.handle_event(ch(c));
        }
        if i < 4 {
            r.handle_event(key(KeyCode::Tab));
        }
    }
}

#[test]
fn register_validation_messages() {
    let mut r = RegisterPage::new();
    assert_eq!(r.validate(), Err("用户名至少需要3个字符".to_string()));
    fill_register(&mut r, ["bob", "", "x", "", ""]);
    assert_eq!(r.validate(), Err("昵称不能为空".to_string()));
    let mut r = RegisterPage::new();
    fill_register(&mut r, ["bob", "B", "x", "", ""]);
    assert_eq!(r.validate(), Err("请输入有效的邮箱地址".to_string()));
    let mut r = RegisterPage::new();
    fill_register(&mut r, ["bob", "B", "b@x", "short", "short"]);
    assert_eq!(r.validate(), Err("密码至少需要8个字符".to_string()));
    let mut r = RegisterPage::new();
    fill_register(&mut r, ["bob", "B", "b@x", "longpass1", "longpass2"]);
    assert_eq!(r.validate(), Err("两次输入的密码不一致".to_string()));
    let d = {
        r.handle_event(key(KeyCode::Enter));
        r.error_dialog().expect("shown")
    };
    assert_eq!(d.error_code(), 4002);
    assert_eq!(d.message(), "两次输入的密码不一致");
}

#[test]
fn register_valid_form_is_sent() {
    let mut r = RegisterPage::new();
    fill_register(&mut r, ["bob", "B", "b@x", "longpass1", "longpass1"]);
    assert_eq!(r.validate(), Ok(()));
    match r.handle_event(key(KeyCode::Enter)) {
        RegisterAction::Register { username, nickname, password, email } => {
            assert_eq!(username, "bob");
            assert_eq!(nickname, "B");
            assert_eq!(password, "longpass1");
            assert_eq!(email, "b@x");
        }
        other => panic!("unexpected {:?}", other),
    }
    assert_eq!(r.footer().left_text(), "步骤: 5/5 | 用户名长度: 3");
}

#[test]
fn register_success_goes_back() {
    let mut r = RegisterPage::new();
    r.set_success("注册成功！请登录。".to_string());
    assert!(r.success_dialog().is_some());
    assert!(matches!(r.handle_event(ch('x')), RegisterAction::Back));
}

#[test]
fn register_username_length_counts_bytes() {
    let mut r = RegisterPage::new();
    r.handle_event(ch('中'));
    assert_eq!(r.footer().left_text(), "步骤: 1/5 | 用户名长度: 3");
    assert_eq!(r.validate(), Err("昵称不能为空".to_string()));
}

// ---- profile ----

#[test]
fn profile_entries_and_actions() {
    let mut p = ProfilePage::new();
    p.set_user_info(user("alice"));
    p.set_blogs(vec![blog("b1", "One", "alice", "", Visibility::Public), blog("b2", "Two", "alice", "", Visibility::Private)]);
    assert!(matches!(p.handle_event(key(KeyCode::Enter)), ProfileAction::NewBlog));
    p.handle_event(ch('j'));
    match p.handle_event(key(KeyCode::Enter)) {
        ProfileAction::ViewBlog(id) => assert_eq!(id, "b1"),
        other => panic!("unexpected {:?}", other),
    }
    p.handle_event(ch('j'));
    p.handle_event(ch('j'));
    assert_eq!(p.selected_index(), 3);
    assert!(matches!(p.handle_event(key(KeyCode::Enter)), ProfileAction::Logout));
    p.handle_event(ch('j'));
    assert_eq!(p.selected_index(), 0);
    p.handle_event(ch('k'));
    assert_eq!(p.selected_index(), 3);
    let entries = p.blog_entries();
    assert_eq!(entries[0].1, "  👁 | 作者: alice | 2024-01-01");
    assert_eq!(entries[1].1, "  🔒 | 作者: alice | 2024-01-01");
    assert_eq!(p.list_title(), "我的文章 (2)");
    assert_eq!(p.footer().left_text(), "用户: alice");
    let lines = p.user_lines().expect("user known");
    assert_eq!(lines[3], ("简介: ".to_string(), "暂无简介".to_string()));
    assert!(matches!(p.handle_event(ch('q')), ProfileAction::BackToHome));
}

// ---- keys shared by the pages ----

#[test]
fn question_mark_toggles_help_everywhere() {
    let mut h = HomePage::new();
    h.handle_event(ch('?'));
    assert!(h.show_help());
    h.handle_event(ch('?'));
    assert!(!h.show_help());
    let mut l = LoginPage::new();
    l.handle_event(ch('?'));
    assert!(l.show_help());
    l.handle_event(key(KeyCode::Esc));
    assert!(!l.show_help());
    let mut r = RegisterPage::new();
    r.handle_event(ch('?'));
    assert!(r.show_help());
    let mut p = ProfilePage::new();
    p.handle_event(ch('?'));
    assert!(p.show_help());
    let mut v = BlogViewPage::new();
    v.handle_event(ch('?'));
    assert!(v.show_help());
    let mut e = BlogEditPage::new();
    e.handle_event(ch('?'));
    assert!(e.show_help());
    e.handle_event(ch('x'));
    assert!(e.show_help());
    e.handle_event(ch('?'));
    assert!(!e.show_help());
}

#[test]
fn escape_goes_back_from_the_pages() {
    assert!(matches!(LoginPage::new().handle_event(key(KeyCode::Esc)), LoginAction::Back));
    assert!(matches!(RegisterPage::new().handle_event(key(KeyCode::Esc)), RegisterAction::Back));
    assert!(matches!(ProfilePage::new().handle_event(key(KeyCode::Esc)), ProfileAction::BackToHome));
    assert!(matches!(BlogViewPage::new().handle_event(key(KeyCode::Esc)), BlogViewAction::Back));
    assert!(matches!(BlogEditPage::new().handle_event(key(KeyCode::Esc)), BlogEditAction::Back));
}

#[test]
fn viewer_toggle_twice_restores_mode() {
    let mut v = BlogViewPage::new();
    assert_eq!(v.view_mode(), ViewMode::Rendered);
    v.handle_event(ch('t'));
    assert_eq!(v.view_mode(), ViewMode::Source);
    v.handle_event(ch('t'));
    assert_eq!(v.view_mode(), ViewMode::Rendered);
}

#[test]
fn confirmation_dialog_texts() {
    let mut h = HomePage::new();
    h.handle_event(ch('q'));
    let q = h.quit_dialog().expect("shown").confirm_dialog();
    assert_eq!(q.title(), " 确认退出 ");
    assert_eq!(q.message(), "确定要退出 Antarctica 吗？");
    let mut e = BlogEditPage::new();
    e.handle_event(ch('p'));
    e.handle_event(key(KeyCode::Esc));
    let d = e.confirm_exit_dialog().expect("shown");
    assert_eq!(d.title(), " 确认退出 ");
    assert_eq!(d.message(), "确定要退出编辑吗？未保存的更改将丢失。");
    assert_eq!(d.options(), &vec!["否".to_string(), "是".to_string()]);
}

#[test]
fn insert_mode_esc_only_leaves_insert_mode() {
    let mut e = BlogEditPage::new();
    e.handle_event(ch('i'));
    type_text(&mut e, "ab");
    assert!(matches!(e.handle_event(key(KeyCode::Esc)), BlogEditAction::Nothing));
    assert_eq!(e.mode(), EditMode::Normal);
    assert_eq!(e.title_display(), "ab");
    assert_eq!(e.content(), "");
}
