use antarctica_cli::api::{AuthorInfo, Blog, BlogStatus, LoginResponse, Visibility};
use antarctica_cli::config::{Config, UserInfo};
use antarctica_cli::pages::blog_edit::BlogEditAction;
use antarctica_cli::pages::blog_view::BlogViewAction;
use antarctica_cli::pages::home::HomeAction;
use antarctica_cli::pages::login::LoginAction;
use antarctica_cli::pages::profile::ProfileAction;
use antarctica_cli::pages::register::RegisterAction;
use antarctica_cli::pages::Page;
use antarctica_cli::router::{registered_message, saved_message, uploaded_message, Command, Router};

fn user(name: &str) -> UserInfo {
    UserInfo {
        id: "1".to_string(),
        username: name.to_string(),
        nickname: "N".to_string(),
        email: "e@x".to_string(),
        bio: Some("hi".to_string()),
    }
}

#[allow(dead_code)]
fn blog(id: &str) -> Blog {
    Blog {
        id: id.to_string(),
        title: "T".to_string(),
        content: String::new(),
        html_content: String::new(),
        author: AuthorInfo { id: "a".to_string(), username: "u".to_string() },
        created_at: String::new(),
        updated_at: String::new(),
        status: BlogStatus::Draft,
        visibility: Visibility::Private,
    }
}

#[test]
fn start_loads_blogs_unless_first_run() {
    let (r, c) = Router::new(false);
    assert_eq!(r.current, Page::Home);
    assert!(matches!(c, Command::LoadLatestBlogs));
    let (r, c) = Router::new(true);
    assert!(r.is_first_run);
    assert!(matches!(c, Command::Nothing));
}

#[test]
fn viewer_returns_to_the_page_it_was_opened_from() {
    let (mut r, _) = Router::new(false);
    let mut config = Config::default();
    config.current_user = Some(user("alice"));
    config.auth_token = Some("t".to_string());
    let c = r.after_home(&mut config, HomeAction::GotoProfile);
    assert!(matches!(c, Command::OpenProfile(ref u) if u.username == "alice"));
    assert_eq!(r.current, Page::Profile);
    match r.after_profile(&mut config, ProfileAction::ViewBlog("b1".to_string())) {
        Command::OpenBlog { blog_id, viewer } => {
            assert_eq!(blog_id, "b1");
            assert_eq!(viewer.as_deref(), Some("alice"));
        }
        other => panic!("unexpected {:?}", other),
    }
    assert_eq!(r.current, Page::BlogView);
    let c = r.after_blog_view(BlogViewAction::Back);
    assert_eq!(r.current, Page::Profile);
    assert!(matches!(c, Command::Nothing));
    let c = r.after_home(&mut config, HomeAction::ViewBlog("b2".to_string()));
    assert!(matches!(c, Command::OpenBlog { .. }));
    assert_eq!(r.previous_before_view, Page::Profile);
}

#[test]
fn viewer_back_to_home_reloads() {
    let (mut r, _) = Router::new(false);
    let mut config = Config::default();
    match r.after_home(&mut config, HomeAction::ViewBlog("x".to_string())) {
        Command::OpenBlog { viewer, .. } => assert!(viewer.is_none()),
        other => panic!("unexpected {:?}", other),
    }
    assert!(matches!(r.after_blog_view(BlogViewAction::Back), Command::LoadLatestBlogs));
    assert_eq!(r.current, Page::Home);
}

#[test]
fn profile_needs_a_user() {
    let (mut r, _) = Router::new(false);
    let mut config = Config::default();
    assert!(matches!(r.after_home(&mut config, HomeAction::GotoProfile), Command::Nothing));
    assert_eq!(r.current, Page::Home);
}

#[test]
fn server_url_is_written_and_first_run_ends() {
    let (mut r, _) = Router::new(true);
    let mut config = Config::default();
    let c = r.after_home(&mut config, HomeAction::SetServerUrl("http://s:1".to_string()));
    assert!(matches!(c, Command::ApplyServerUrl));
    assert_eq!(config.server_url, "http://s:1");
    assert!(!r.is_first_run);
}

#[test]
fn login_then_logout() {
    let (mut r, _) = Router::new(false);
    let mut config = Config::default();
    r.after_home(&mut config, HomeAction::GotoLogin);
    assert_eq!(r.current, Page::Login);
    match r.after_login_page(LoginAction::Login { username: "u".to_string(), password: "p".to_string() }) {
        Command::Login { username, password } => {
            assert_eq!(username, "u");
            assert_eq!(password, "p");
        }
        other => panic!("unexpected {:?}", other),
    }
    let c = r.logged_in(&mut config, LoginResponse { token: "tok".to_string(), user: user("u") });
    assert!(matches!(c, Command::SaveLogin(ref t) if t == "tok"));
    assert!(config.is_authenticated());
    assert_eq!(r.current, Page::Home);
    r.after_home(&mut config, HomeAction::GotoProfile);
    let c = r.after_profile(&mut config, ProfileAction::Logout);
    assert!(matches!(c, Command::SaveLogout));
    assert!(!config.is_authenticated());
    assert_eq!(config.server_url, "http://localhost:8080");
    assert_eq!(r.current, Page::Home);
}

#[test]
fn login_and_register_navigation() {
    let (mut r, _) = Router::new(false);
    r.after_login_page(LoginAction::GotoRegister);
    assert_eq!(r.current, Page::Register);
    match r.after_register_page(RegisterAction::Register {
        username: "a".to_string(),
        nickname: "b".to_string(),
        password: "c".to_string(),
        email: "d".to_string(),
    }) {
        Command::Register { username, nickname, password, email } => {
            assert_eq!((username.as_str(), nickname.as_str(), password.as_str(), email.as_str()), ("a", "b", "c", "d"));
        }
        other => panic!("unexpected {:?}", other),
    }
    r.after_register_page(RegisterAction::Back);
    assert_eq!(r.current, Page::Login);
    assert!(matches!(r.after_login_page(LoginAction::Back), Command::LoadLatestBlogs));
    assert_eq!(r.current, Page::Home);
}

#[test]
fn editor_save_creates_or_updates() {
    let (mut r, _) = Router::new(false);
    let config = Config::default();
    let c = r.after_blog_edit(&config, BlogEditAction::Save {
        blog_id: None,
        title: "T".to_string(),
        content: "C".to_string(),
        is_public: true,
        is_new: true,
    });
    assert!(matches!(c, Command::CreateBlog { ref title, is_public: true, .. } if title == "T"));
    let c = r.after_blog_edit(&config, BlogEditAction::Save {
        blog_id: Some("b".to_string()),
        title: "T".to_string(),
        content: "C".to_string(),
        is_public: false,
        is_new: false,
    });
    assert!(matches!(c, Command::UpdateBlog { ref blog_id, is_public: false, .. } if blog_id == "b"));
}

#[test]
fn editor_done_returns_to_profile() {
    let (mut r, _) = Router::new(false);
    let mut config = Config::default();
    assert!(matches!(r.after_blog_edit(&config, BlogEditAction::SaveSuccess), Command::Nothing));
    assert_eq!(r.current, Page::Profile);
    config.current_user = Some(user("zed"));
    assert!(matches!(r.after_blog_edit(&config, BlogEditAction::SaveSuccess), Command::RefreshProfile(ref u) if u == "zed"));
    r.after_profile(&mut config, ProfileAction::NewBlog);
    assert_eq!(r.current, Page::BlogEdit);
    r.after_blog_edit(&config, BlogEditAction::Back);
    assert_eq!(r.current, Page::Profile);
    assert!(matches!(r.after_blog_edit(&config, BlogEditAction::Upload("q".to_string())), Command::UploadFromEditor(_)));
}

#[test]
fn viewer_edit_and_upload_commands() {
    let (mut r, _) = Router::new(false);
    assert!(matches!(r.after_blog_view(BlogViewAction::EditBlog("e".to_string())), Command::EditBlog(ref id) if id == "e"));
    assert_eq!(r.current, Page::BlogEdit);
    assert!(matches!(r.after_blog_view(BlogViewAction::UploadBlog("u".to_string())), Command::UploadFromView(ref id) if id == "u"));
}

#[test]
fn quit_from_home() {
    let (mut r, _) = Router::new(false);
    let mut config = Config::default();
    r.after_home(&mut config, HomeAction::Quit);
    assert!(r.should_quit);
    let (mut q, _) = Router::new(false);
    q.quit();
    assert!(q.should_quit);
}

#[test]
fn result_messages() {
    assert_eq!(registered_message(), "注册成功！请登录。");
    assert_eq!(saved_message(), "博客保存成功！");
    assert_eq!(uploaded_message(), "博客上传成功！");
}
