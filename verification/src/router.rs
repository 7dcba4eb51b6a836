//! Navigation between the pages: what the application does with the action
//! a page hands back, and with the answers of the server. The application
//! performs the command that each step returns and reports what came of it.

use vstd::prelude::*;
use vstd::string::*;
use crate::api::LoginResponse;
use crate::config::{Config, UserInfo};
use crate::pages::Page;
use crate::pages::blog_edit::BlogEditAction;
use crate::pages::blog_view::BlogViewAction;
use crate::pages::home::HomeAction;
use crate::pages::login::LoginAction;
use crate::pages::profile::ProfileAction;
use crate::pages::register::RegisterAction;
use crate::text::owned;

verus! {

/// Work for the application: calls to the server, saving the
/// configuration, loading lists.
#[derive(Debug)]
pub enum Command {
    /// Nothing to do.
    Nothing,
    /// Load the latest blogs into the home page.
    LoadLatestBlogs,
    /// Load a blog into the viewer, telling it who is looking, if anyone.
    OpenBlog { blog_id: String, viewer: Option<String> },
    /// Show the user's information and load their blogs into the profile.
    OpenProfile(UserInfo),
    /// Save the configuration with its new server address, connect to it,
    /// and load the latest blogs.
    ApplyServerUrl,
    /// Log in with these credentials.
    Login { username: String, password: String },
    /// Save the configuration with the new login, use its token, and load
    /// the latest blogs.
    SaveLogin(String),
    /// Register with these details.
    Register { username: String, nickname: String, password: String, email: String },
    /// Save the configuration without the login, connect anew, and load the
    /// latest blogs.
    SaveLogout,
    /// Publish a blog from the viewer, which reports the outcome.
    UploadFromView(String),
    /// Publish a blog from the editor; the outcome is only logged.
    UploadFromEditor(String),
    /// Create a blog.
    CreateBlog { title: String, content: String, is_public: bool },
    /// Change a blog.
    UpdateBlog { blog_id: String, title: String, content: String, is_public: bool },
    /// Load a blog into a new editor.
    EditBlog(String),
    /// Reload the user's blogs into the profile.
    RefreshProfile(String),
}

/// A command as plain values.
pub enum CommandView {
    Nothing,
    LoadLatestBlogs,
    OpenBlog { blog_id: Seq<char>, viewer: Option<Seq<char>> },
    OpenProfile(UserInfo),
    ApplyServerUrl,
    Login { username: Seq<char>, password: Seq<char> },
    SaveLogin(Seq<char>),
    Register { username: Seq<char>, nickname: Seq<char>, password: Seq<char>, email: Seq<char> },
    SaveLogout,
    UploadFromView(Seq<char>),
    UploadFromEditor(Seq<char>),
    CreateBlog { title: Seq<char>, content: Seq<char>, is_public: bool },
    UpdateBlog { blog_id: Seq<char>, title: Seq<char>, content: Seq<char>, is_public: bool },
    EditBlog(Seq<char>),
    RefreshProfile(Seq<char>),
}

/// An optional string as an optional character sequence.
pub open spec fn opt_text(o: Option<String>) -> Option<Seq<char>> {
    match o {
        Some(s) => Some(s@),
        None => None,
    }
}

impl View for Command {
    type V = CommandView;

    open spec fn view(&self) -> CommandView {
        match self {
            Command::Nothing => CommandView::Nothing,
            Command::LoadLatestBlogs => CommandView::LoadLatestBlogs,
            Command::OpenBlog { blog_id, viewer } => CommandView::OpenBlog { blog_id: blog_id@, viewer: opt_text(*viewer) },
            Command::OpenProfile(u) => CommandView::OpenProfile(*u),
            Command::ApplyServerUrl => CommandView::ApplyServerUrl,
            Command::Login { username, password } => CommandView::Login { username: username@, password: password@ },
            Command::SaveLogin(t) => CommandView::SaveLogin(t@),
            Command::Register { username, nickname, password, email } => CommandView::Register {
                username: username@,
                nickname: nickname@,
                password: password@,
                email: email@,
            },
            Command::SaveLogout => CommandView::SaveLogout,
            Command::UploadFromView(id) => CommandView::UploadFromView(id@),
            Command::UploadFromEditor(id) => CommandView::UploadFromEditor(id@),
            Command::CreateBlog { title, content, is_public } => CommandView::CreateBlog {
                title: title@,
                content: content@,
                is_public: *is_public,
            },
            Command::UpdateBlog { blog_id, title, content, is_public } => CommandView::UpdateBlog {
                blog_id: blog_id@,
                title: title@,
                content: content@,
                is_public: *is_public,
            },
            Command::EditBlog(id) => CommandView::EditBlog(id@),
            Command::RefreshProfile(u) => CommandView::RefreshProfile(u@),
        }
    }
}

/// Which page is shown, which page the viewer returns to, and whether the
/// application is done.
pub struct Router {
    pub current: Page,
    pub previous_before_view: Page,
    pub should_quit: bool,
    pub is_first_run: bool,
}

/// The name of the logged-in user, if any.
pub open spec fn viewer_of(config: Config) -> Option<Seq<char>> {
    match config.current_user {
        Some(u) => Some(u.username@),
        None => None,
    }
}

/// Opening a blog from the current page: the viewer will return there.
pub open spec fn open_blog(r: Router, config: Config, id: Seq<char>) -> (Router, CommandView) {
    (Router { previous_before_view: r.current, current: Page::BlogView, ..r },
        CommandView::OpenBlog { blog_id: id, viewer: viewer_of(config) })
}

/// Opening the profile, which needs a logged-in user.
pub open spec fn open_profile(r: Router, config: Config) -> (Router, CommandView) {
    match config.current_user {
        Some(u) => (Router { current: Page::Profile, ..r }, CommandView::OpenProfile(u)),
        None => (r, CommandView::Nothing),
    }
}

/// Going home, where the latest blogs are loaded again.
pub open spec fn go_home(r: Router) -> (Router, CommandView) {
    (Router { current: Page::Home, ..r }, CommandView::LoadLatestBlogs)
}

/// Leaving the viewer: back to the page it was opened from, with the latest
/// blogs loaded again when that is the home page.
pub open spec fn view_back(r: Router) -> (Router, CommandView) {
    (Router { current: r.previous_before_view, ..r },
        if r.previous_before_view == Page::Home { CommandView::LoadLatestBlogs } else { CommandView::Nothing })
}

impl Router {
    /// The navigation at start: the home page, and the latest blogs loaded
    /// unless this is the first run, which first asks for the server.
    pub fn new(is_first_run: bool) -> (res: (Router, Command))
        ensures
            res.0 == (Router { current: Page::Home, previous_before_view: Page::Home, should_quit: false, is_first_run }),
            res.1@ == if is_first_run { CommandView::Nothing } else { CommandView::LoadLatestBlogs },
    {
        let r = Router { current: Page::Home, previous_before_view: Page::Home, should_quit: false, is_first_run };
        (r, if is_first_run { Command::Nothing } else { Command::LoadLatestBlogs })
    }

    /// The application stops.
    pub fn quit(&mut self)
        ensures
            *final(self) == (Router { should_quit: true, ..*old(self) }),
    {
        self.should_quit = true;
    }

    fn open_blog(&mut self, config: &Config, blog_id: String) -> (c: Command)
        ensures
            (*final(self), c@) == open_blog(*old(self), *config, blog_id@),
    {
        self.previous_before_view = self.current;
        self.current = Page::BlogView;
        let viewer = match &config.current_user {
            Some(u) => Some(u.username.clone()),
            None => None,
        };
        Command::OpenBlog { blog_id, viewer }
    }

    fn open_profile(&mut self, config: &Config) -> (c: Command)
        ensures
            (*final(self), c@) == open_profile(*old(self), *config),
    {
        match &config.current_user {
            Some(u) => {
                self.current = Page::Profile;
                Command::OpenProfile(u.clone())
            },
            None => Command::Nothing,
        }
    }

    fn go_home(&mut self) -> (c: Command)
        ensures
            (*final(self), c@) == go_home(*old(self)),
    {
        self.current = Page::Home;
        Command::LoadLatestBlogs
    }

    /// What follows an action of the home page. A new server address is
    /// written into the configuration, and the first run is over.
    pub fn after_home(&mut self, config: &mut Config, action: HomeAction) -> (c: Command)
        ensures
            match action {
                HomeAction::Nothing => *final(self) == *old(self) && c@ == CommandView::Nothing
                    && *final(config) == *old(config),
                HomeAction::ViewBlog(id) => (*final(self), c@) == open_blog(*old(self), *old(config), id@)
                    && *final(config) == *old(config),
                HomeAction::GotoLogin => *final(self) == (Router { current: Page::Login, ..*old(self) })
                    && c@ == CommandView::Nothing && *final(config) == *old(config),
                HomeAction::GotoProfile => (*final(self), c@) == open_profile(*old(self), *old(config))
                    && *final(config) == *old(config),
                HomeAction::Quit => *final(self) == (Router { should_quit: true, ..*old(self) })
                    && c@ == CommandView::Nothing && *final(config) == *old(config),
                HomeAction::SetServerUrl(url) => *final(self) == (Router { is_first_run: false, ..*old(self) })
                    && c@ == CommandView::ApplyServerUrl
                    && *final(config) == (Config { server_url: url, ..*old(config) }),
            },
    {
        match action {
            HomeAction::Nothing => Command::Nothing,
            HomeAction::ViewBlog(id) => self.open_blog(config, id),
            HomeAction::GotoLogin => {
                self.current = Page::Login;
                Command::Nothing
            },
            HomeAction::GotoProfile => self.open_profile(config),
            HomeAction::Quit => {
                self.should_quit = true;
                Command::Nothing
            },
            HomeAction::SetServerUrl(url) => {
                config.server_url = url;
                self.is_first_run = false;
                Command::ApplyServerUrl
            },
        }
    }

    /// What follows an action of the login page.
    pub fn after_login_page(&mut self, action: LoginAction) -> (c: Command)
        ensures
            match action {
                LoginAction::Nothing => *final(self) == *old(self) && c@ == CommandView::Nothing,
                LoginAction::Login { username, password } => *final(self) == *old(self)
                    && c@ == (CommandView::Login { username: username@, password: password@ }),
                LoginAction::GotoRegister => *final(self) == (Router { current: Page::Register, ..*old(self) })
                    && c@ == CommandView::Nothing,
                LoginAction::Back => (*final(self), c@) == go_home(*old(self)),
            },
    {
        match action {
            LoginAction::Nothing => Command::Nothing,
            LoginAction::Login { username, password } => Command::Login { username, password },
            LoginAction::GotoRegister => {
                self.current = Page::Register;
                Command::Nothing
            },
            LoginAction::Back => self.go_home(),
        }
    }

    /// A login succeeded: the configuration holds its token and user, and
    /// the home page is shown.
    pub fn logged_in(&mut self, config: &mut Config, response: LoginResponse) -> (c: Command)
        ensures
            *final(self) == (Router { current: Page::Home, ..*old(self) }),
            *final(config) == (Config { auth_token: Some(response.token), current_user: Some(response.user), ..*old(config) }),
            c@ == CommandView::SaveLogin(response.token@),
            final(config).authenticated(),
    {
        let token = response.token.clone();
        config.auth_token = Some(response.token);
        config.current_user = Some(response.user);
        self.current = Page::Home;
        Command::SaveLogin(token)
    }

    /// What follows an action of the registration page.
    pub fn after_register_page(&mut self, action: RegisterAction) -> (c: Command)
        ensures
            match action {
                RegisterAction::Nothing => *final(self) == *old(self) && c@ == CommandView::Nothing,
                RegisterAction::Register { username, nickname, password, email } => *final(self) == *old(self)
                    && c@ == (CommandView::Register { username: username@, nickname: nickname@,
                        password: password@, email: email@ }),
                RegisterAction::Back => *final(self) == (Router { current: Page::Login, ..*old(self) })
                    && c@ == CommandView::Nothing,
            },
    {
        match action {
            RegisterAction::Nothing => Command::Nothing,
            RegisterAction::Register { username, nickname, password, email } =>
                Command::Register { username, nickname, password, email },
            RegisterAction::Back => {
                self.current = Page::Login;
                Command::Nothing
            },
        }
    }

    /// What follows an action of the profile page. Logging out forgets the
    /// login in the configuration.
    pub fn after_profile(&mut self, config: &mut Config, action: ProfileAction) -> (c: Command)
        ensures
            match action {
                ProfileAction::Nothing => *final(self) == *old(self) && c@ == CommandView::Nothing
                    && *final(config) == *old(config),
                ProfileAction::BackToHome => (*final(self), c@) == go_home(*old(self))
                    && *final(config) == *old(config),
                ProfileAction::NewBlog => *final(self) == (Router { current: Page::BlogEdit, ..*old(self) })
                    && c@ == CommandView::Nothing && *final(config) == *old(config),
                ProfileAction::ViewBlog(id) => (*final(self), c@) == open_blog(*old(self), *old(config), id@)
                    && *final(config) == *old(config),
                ProfileAction::Logout => *final(self) == (Router { current: Page::Home, ..*old(self) })
                    && c@ == CommandView::SaveLogout
                    && *final(config) == (Config { auth_token: None, current_user: None, ..*old(config) }),
            },
    {
        match action {
            ProfileAction::Nothing => Command::Nothing,
            ProfileAction::BackToHome => self.go_home(),
            ProfileAction::NewBlog => {
                self.current = Page::BlogEdit;
                Command::Nothing
            },
            ProfileAction::ViewBlog(id) => self.open_blog(config, id),
            ProfileAction::Logout => {
                config.clear_auth();
                self.current = Page::Home;
                Command::SaveLogout
            },
        }
    }

    /// What follows an action of the viewer: going back returns to the page
    /// the blog was opened from, loading the latest blogs when that is home.
    pub fn after_blog_view(&mut self, action: BlogViewAction) -> (c: Command)
        ensures
            match action {
                BlogViewAction::Nothing => *final(self) == *old(self) && c@ == CommandView::Nothing,
                BlogViewAction::Back => (*final(self), c@) == view_back(*old(self)),
                BlogViewAction::EditBlog(id) => *final(self) == (Router { current: Page::BlogEdit, ..*old(self) })
                    && c@ == CommandView::EditBlog(id@),
                BlogViewAction::UploadBlog(id) => *final(self) == *old(self) && c@ == CommandView::UploadFromView(id@),
            },
    {
        match action {
            BlogViewAction::Nothing => Command::Nothing,
            BlogViewAction::Back => {
                self.current = self.previous_before_view;
                if self.current == Page::Home { Command::LoadLatestBlogs } else { Command::Nothing }
            },
            BlogViewAction::EditBlog(id) => {
                self.current = Page::BlogEdit;
                Command::EditBlog(id)
            },
            BlogViewAction::UploadBlog(id) => Command::UploadFromView(id),
        }
    }

    /// What follows an action of the editor. A saved blog goes back to the
    /// profile, whose list is reloaded for a logged-in user; saving creates
    /// a new blog or changes the one being edited.
    pub fn after_blog_edit(&mut self, config: &Config, action: BlogEditAction) -> (c: Command)
        requires
            action matches BlogEditAction::Save { blog_id, is_new, .. } ==> (is_new || blog_id is Some),
        ensures
            match action {
                BlogEditAction::Nothing => *final(self) == *old(self) && c@ == CommandView::Nothing,
                BlogEditAction::Back => *final(self) == (Router { current: Page::Profile, ..*old(self) })
                    && c@ == CommandView::Nothing,
                BlogEditAction::SaveSuccess => *final(self) == (Router { current: Page::Profile, ..*old(self) })
                    && c@ == match config.current_user {
                        Some(u) => CommandView::RefreshProfile(u.username@),
                        None => CommandView::Nothing,
                    },
                BlogEditAction::Upload(id) => *final(self) == *old(self) && c@ == CommandView::UploadFromEditor(id@),
                BlogEditAction::Save { blog_id, title, content, is_public, is_new } => *final(self) == *old(self)
                    && c@ == if is_new {
                        CommandView::CreateBlog { title: title@, content: content@, is_public }
                    } else {
                        CommandView::UpdateBlog { blog_id: blog_id.unwrap()@, title: title@, content: content@, is_public }
                    },
            },
    {
        match action {
            BlogEditAction::Nothing => Command::Nothing,
            BlogEditAction::Back => {
                self.current = Page::Profile;
                Command::Nothing
            },
            BlogEditAction::SaveSuccess => {
                self.current = Page::Profile;
                match &config.current_user {
                    Some(u) => Command::RefreshProfile(u.username.clone()),
                    None => Command::Nothing,
                }
            },
            BlogEditAction::Upload(id) => Command::UploadFromEditor(id),
            BlogEditAction::Save { blog_id, title, content, is_public, is_new } => {
                if is_new {
                    Command::CreateBlog { title, content, is_public }
                } else {
                    match blog_id {
                        Some(id) => Command::UpdateBlog { blog_id: id, title, content, is_public },
                        None => Command::Nothing,
                    }
                }
            },
        }
    }
}

/// Leaving a blog that was opened from a page returns to that page.
pub proof fn lemma_view_returns_where_opened(r: Router, config: Config, id: Seq<char>)
    ensures
        view_back(open_blog(r, config, id).0).0.current == r.current,
        view_back(open_blog(r, config, id).0).1 == if r.current == Page::Home { CommandView::LoadLatestBlogs }
            else { CommandView::Nothing },
{
}

/// Logging in and then out leaves the configuration logged out, with the
/// server address it had.
pub proof fn lemma_login_then_logout(config: Config, response: LoginResponse)
    ensures
        ({
            let logged = Config { auth_token: Some(response.token), current_user: Some(response.user), ..config };
            let out = Config { auth_token: None, current_user: None, ..logged };
            &&& logged.authenticated()
            &&& !out.authenticated()
            &&& out.server_url == config.server_url
        }),
{
}

/// The message shown when a registration succeeds.
pub fn registered_message() -> (m: String)
    ensures
        m@ == "注册成功！请登录。"@,
{
    owned("注册成功！请登录。")
}

/// The message shown when a blog is saved.
pub fn saved_message() -> (m: String)
    ensures
        m@ == "博客保存成功！"@,
{
    owned("博客保存成功！")
}

/// The message shown when a blog is published from the viewer.
pub fn uploaded_message() -> (m: String)
    ensures
        m@ == "博客上传成功！"@,
{
    owned("博客上传成功！")
}

/// The number of latest blogs the home page loads.
pub const LATEST_BLOGS_LIMIT: u64 = 20;

} // verus!
