//! The home page: the latest public blogs, the first-run welcome and the
//! quit confirmation.

use vstd::prelude::*;
use vstd::string::*;
use crate::api::BlogListItem;
use crate::components::dialog::{QuitConfirmDialog, WelcomeDialog, next_index, prev_index};
use crate::config::{default_server_url, default_server_url_string};
use crate::events::{Event, KeyCode, KeyEvent, closes_help, is_help_close};
use crate::utils::AppError;
use crate::components::dialog::{ErrorDialog, error_detail_text};
use crate::ui::{FooterBar, HelpPanel, hints_of, texts};
use crate::text::{owned, decimal, decimal_string};

verus! {

/// The home page.
pub struct HomePage {
    blogs: Vec<BlogListItem>,
    selected_index: usize,
    is_loading: bool,
    error: Option<AppError>,
    show_error: bool,
    show_help: bool,
    show_quit_confirm: bool,
    quit_confirm_dialog: QuitConfirmDialog,
    is_first_run: bool,
    show_welcome: bool,
    welcome_dialog: Option<WelcomeDialog>,
    config_path: String,
    default_server_url: String,
    is_authenticated: bool,
}

/// What the application is asked to do after an event of the home page.
#[derive(Debug)]
pub enum HomeAction {
    Nothing,
    ViewBlog(String),
    GotoLogin,
    GotoProfile,
    Quit,
    SetServerUrl(String),
}

/// An action of the home page as plain values.
pub enum HomeOutcome {
    Nothing,
    ViewBlog(Seq<char>),
    GotoLogin,
    GotoProfile,
    Quit,
    SetServerUrl(Seq<char>),
}

impl View for HomeAction {
    type V = HomeOutcome;

    open spec fn view(&self) -> HomeOutcome {
        match self {
            HomeAction::Nothing => HomeOutcome::Nothing,
            HomeAction::ViewBlog(id) => HomeOutcome::ViewBlog(id@),
            HomeAction::GotoLogin => HomeOutcome::GotoLogin,
            HomeAction::GotoProfile => HomeOutcome::GotoProfile,
            HomeAction::Quit => HomeOutcome::Quit,
            HomeAction::SetServerUrl(u) => HomeOutcome::SetServerUrl(u@),
        }
    }
}

/// The state of the home page as plain values.
pub struct HomeState {
    pub blogs: Seq<BlogListItem>,
    pub selected: usize,
    pub is_loading: bool,
    pub error: Option<AppError>,
    pub show_error: bool,
    pub show_help: bool,
    pub show_quit_confirm: bool,
    pub quit_selected: nat,
    pub quit_title: Seq<char>,
    pub quit_message: Seq<char>,
    pub quit_options: Seq<Seq<char>>,
    pub is_first_run: bool,
    pub show_welcome: bool,
    pub welcome_url: Option<Seq<char>>,
    pub config_path: Seq<char>,
    pub default_server_url: Seq<char>,
    pub is_authenticated: bool,
}

impl View for HomePage {
    type V = HomeState;

    closed spec fn view(&self) -> HomeState {
        HomeState {
            blogs: self.blogs@,
            selected: self.selected_index,
            is_loading: self.is_loading,
            error: self.error,
            show_error: self.show_error,
            show_help: self.show_help,
            show_quit_confirm: self.show_quit_confirm,
            quit_selected: self.quit_confirm_dialog.selected_view(),
            quit_title: self.quit_confirm_dialog.dialog().title_view(),
            quit_message: self.quit_confirm_dialog.dialog().message_view(),
            quit_options: self.quit_confirm_dialog.dialog().options_view(),
            is_first_run: self.is_first_run,
            show_welcome: self.show_welcome,
            welcome_url: match self.welcome_dialog {
                Some(d) => Some(d.url_view()),
                None => None,
            },
            config_path: self.config_path@,
            default_server_url: self.default_server_url@,
            is_authenticated: self.is_authenticated,
        }
    }
}

/// The selection lies in the list, or is the first entry of an empty list.
pub open spec fn selection_in_range(s: HomeState) -> bool {
    s.selected == 0 || s.selected < s.blogs.len()
}

/// The entry after `i` in a list of `n`, wrapping around.
pub open spec fn next_entry(i: usize, n: nat) -> usize {
    if n == 0 { i } else { ((i + 1) % (n as int)) as usize }
}

/// The entry before `i` in a list of `n`, wrapping around.
pub open spec fn prev_entry(i: usize, n: nat) -> usize {
    if n == 0 { i } else if i == 0 { (n - 1) as usize } else { (i - 1) as usize }
}

/// A key on the welcome dialog: Enter takes the address typed, Esc the
/// default one; either closes the dialog and hands the address over.
pub open spec fn welcome_step(s: HomeState, e: Event) -> (HomeState, HomeOutcome) {
    match (s.welcome_url, e) {
        (Some(url), Event::Key(k)) => match k.code {
            KeyCode::Enter => (HomeState { show_welcome: false, is_first_run: false, welcome_url: None, ..s },
                HomeOutcome::SetServerUrl(url)),
            KeyCode::Esc => (HomeState { show_welcome: false, is_first_run: false, welcome_url: None, ..s },
                HomeOutcome::SetServerUrl(s.default_server_url)),
            KeyCode::Backspace => (HomeState {
                welcome_url: Some(if url.len() == 0 { url } else { url.drop_last() }), ..s }, HomeOutcome::Nothing),
            KeyCode::Char(c) => (HomeState { welcome_url: Some(url.push(c)), ..s }, HomeOutcome::Nothing),
            _ => (s, HomeOutcome::Nothing),
        },
        _ => (s, HomeOutcome::Nothing),
    }
}

/// An event while the quit dialog is shown.
pub open spec fn quit_step(s: HomeState, e: Event) -> (HomeState, HomeOutcome) {
    match e {
        Event::Key(k) => match k.code {
            KeyCode::Left => (HomeState { quit_selected: prev_index(s.quit_selected), ..s }, HomeOutcome::Nothing),
            KeyCode::Right => (HomeState { quit_selected: next_index(s.quit_selected), ..s }, HomeOutcome::Nothing),
            KeyCode::Enter => if s.quit_selected == 1 { (s, HomeOutcome::Quit) } else {
                (HomeState { show_quit_confirm: false, ..s }, HomeOutcome::Nothing) },
            KeyCode::Esc => (HomeState { show_quit_confirm: false, ..s }, HomeOutcome::Nothing),
            _ => (s, HomeOutcome::Nothing),
        },
        _ => (s, HomeOutcome::Nothing),
    }
}

/// A key on the list of blogs.
pub open spec fn home_key(s: HomeState, k: KeyEvent) -> (HomeState, HomeOutcome) {
    let n = s.blogs.len();
    match k.code {
        KeyCode::Char(c) => {
            if c == '?' {
                (HomeState { show_help: true, ..s }, HomeOutcome::Nothing)
            } else if c == 'q' {
                (HomeState { show_quit_confirm: true, ..s }, HomeOutcome::Nothing)
            } else if c == 'l' {
                (s, HomeOutcome::GotoLogin)
            } else if c == 'o' {
                (s, if s.is_authenticated { HomeOutcome::GotoProfile } else { HomeOutcome::Nothing })
            } else if c == 'j' {
                (HomeState { selected: next_entry(s.selected, n), ..s }, HomeOutcome::Nothing)
            } else if c == 'k' {
                (HomeState { selected: prev_entry(s.selected, n), ..s }, HomeOutcome::Nothing)
            } else {
                (s, HomeOutcome::Nothing)
            }
        },
        KeyCode::Down => (HomeState { selected: next_entry(s.selected, n), ..s }, HomeOutcome::Nothing),
        KeyCode::Up => (HomeState { selected: prev_entry(s.selected, n), ..s }, HomeOutcome::Nothing),
        KeyCode::Enter => (s, if s.selected < n { HomeOutcome::ViewBlog(s.blogs[s.selected as int].id@) } else { HomeOutcome::Nothing }),
        _ => (s, HomeOutcome::Nothing),
    }
}

/// What the home page does with an event: the welcome dialog, an error,
/// the quit dialog and the help panel take it in that order before the list.
pub open spec fn home_step(s: HomeState, e: Event) -> (HomeState, HomeOutcome) {
    if s.show_welcome {
        welcome_step(s, e)
    } else if s.show_error {
        if e is Key { (HomeState { show_error: false, error: None, ..s }, HomeOutcome::Nothing) } else { (s, HomeOutcome::Nothing) }
    } else if s.show_quit_confirm {
        quit_step(s, e)
    } else if s.show_help {
        (if closes_help(e) { HomeState { show_help: false, ..s } } else { s }, HomeOutcome::Nothing)
    } else {
        match e {
            Event::Key(k) => home_key(s, k),
            _ => (s, HomeOutcome::Nothing),
        }
    }
}

impl HomePage {
    #[verifier::type_invariant]
    spec fn selection_ok(&self) -> bool {
        self.selected_index == 0 || self.selected_index < self.blogs@.len()
    }

    /// A home page that is not on a first run, loading its blogs.
    pub fn new() -> (p: Self)
        ensures
            p@.blogs.len() == 0,
            p@.selected == 0,
            p@.is_loading,
            p@.error is None,
            !p@.show_error,
            !p@.show_help,
            !p@.show_quit_confirm,
            p@.quit_selected == 1,
            p@.quit_title == " 确认退出 "@,
            p@.quit_message == "确定要退出 Antarctica 吗？"@,
            p@.quit_options == seq!["否"@, "是"@],
            !p@.is_first_run,
            !p@.show_welcome,
            p@.welcome_url is None,
            p@.config_path == Seq::<char>::empty(),
            p@.default_server_url == default_server_url(),
            !p@.is_authenticated,
    {
        Self::new_with_first_run(false, String::new())
    }

    /// A home page; on a first run it shows the welcome dialog, holding the
    /// default address, and mentions the path of the configuration file.
    pub fn new_with_first_run(is_first_run: bool, config_path: String) -> (p: Self)
        ensures
            p@.blogs.len() == 0,
            p@.selected == 0,
            p@.is_loading == !is_first_run,
            p@.error is None,
            !p@.show_error,
            !p@.show_help,
            !p@.show_quit_confirm,
            p@.quit_selected == 1,
            p@.quit_title == " 确认退出 "@,
            p@.quit_message == "确定要退出 Antarctica 吗？"@,
            p@.quit_options == seq!["否"@, "是"@],
            p@.is_first_run == is_first_run,
            p@.show_welcome == is_first_run,
            p@.welcome_url == if is_first_run { Some(default_server_url()) } else { None::<Seq<char>> },
            p@.config_path == config_path@,
            p@.default_server_url == default_server_url(),
            !p@.is_authenticated,
    {
        let default_url = default_server_url_string();
        let welcome_dialog = if is_first_run { Some(WelcomeDialog::new(default_url.as_str())) } else { None };
        HomePage {
            blogs: Vec::new(),
            selected_index: 0,
            is_loading: !is_first_run,
            error: None,
            show_error: false,
            show_help: false,
            show_quit_confirm: false,
            quit_confirm_dialog: QuitConfirmDialog::new(),
            is_first_run,
            show_welcome: is_first_run,
            welcome_dialog,
            config_path,
            default_server_url: default_url,
            is_authenticated: false,
        }
    }

    /// Shows a list of blogs, with the first one selected.
    pub fn set_blogs(&mut self, blogs: Vec<BlogListItem>)
        ensures
            final(self)@ == (HomeState { blogs: blogs@, is_loading: false, selected: 0, ..old(self)@ }),
    {
        proof { use_type_invariant(&*self); }
        self.selected_index = 0;
        self.blogs = blogs;
        self.is_loading = false;
    }

    /// Shows an error.
    pub fn set_error(&mut self, error: AppError)
        ensures
            final(self)@ == (HomeState { error: Some(error), show_error: true, is_loading: false, ..old(self)@ }),
    {
        proof { use_type_invariant(&*self); }
        self.error = Some(error);
        self.show_error = true;
        self.is_loading = false;
    }

    /// Records whether a user is logged in, which decides what `o` does.
    pub fn set_authenticated(&mut self, is_authenticated: bool)
        ensures
            final(self)@ == (HomeState { is_authenticated, ..old(self)@ }),
    {
        proof { use_type_invariant(&*self); }
        self.is_authenticated = is_authenticated;
    }

    fn handle_welcome_event(&mut self, event: Event) -> (a: HomeAction)
        ensures
            (final(self)@, a@) == welcome_step(old(self)@, event),
    {
        proof { use_type_invariant(&*self); }
        let key = match event {
            Event::Key(k) => k,
            _ => return HomeAction::Nothing,
        };
        let mut taken: Option<WelcomeDialog> = None;
        std::mem::swap(&mut taken, &mut self.welcome_dialog);
        match taken {
            Some(mut dialog) => match key.code {
                KeyCode::Enter => {
                    let url = crate::text::owned(dialog.server_url());
                    self.show_welcome = false;
                    self.is_first_run = false;
                    HomeAction::SetServerUrl(url)
                },
                KeyCode::Esc => {
                    let url = self.default_server_url.clone();
                    self.show_welcome = false;
                    self.is_first_run = false;
                    HomeAction::SetServerUrl(url)
                },
                KeyCode::Backspace => {
                    dialog.handle_backspace();
                    self.welcome_dialog = Some(dialog);
                    HomeAction::Nothing
                },
                KeyCode::Char(c) => {
                    dialog.handle_input(c);
                    self.welcome_dialog = Some(dialog);
                    HomeAction::Nothing
                },
                _ => {
                    self.welcome_dialog = Some(dialog);
                    HomeAction::Nothing
                },
            },
            None => HomeAction::Nothing,
        }
    }

    fn handle_quit_confirm_event(&mut self, event: Event) -> (a: HomeAction)
        ensures
            (final(self)@, a@) == quit_step(old(self)@, event),
    {
        proof { use_type_invariant(&*self); }
        match event {
            Event::Key(key) => match key.code {
                KeyCode::Left => {
                    self.quit_confirm_dialog.prev_option();
                    HomeAction::Nothing
                },
                KeyCode::Right => {
                    self.quit_confirm_dialog.next_option();
                    HomeAction::Nothing
                },
                KeyCode::Enter => {
                    if self.quit_confirm_dialog.is_confirmed() {
                        HomeAction::Quit
                    } else {
                        self.show_quit_confirm = false;
                        HomeAction::Nothing
                    }
                },
                KeyCode::Esc => {
                    self.show_quit_confirm = false;
                    HomeAction::Nothing
                },
                _ => HomeAction::Nothing,
            },
            _ => HomeAction::Nothing,
        }
    }

    fn select_next(&mut self)
        ensures
            final(self)@ == (HomeState { selected: next_entry(old(self)@.selected, old(self)@.blogs.len()), ..old(self)@ }),
    {
        proof { use_type_invariant(&*self); }
        if self.blogs.len() > 0 {
            self.selected_index = (self.selected_index + 1) % self.blogs.len();
        }
    }

    fn select_prev(&mut self)
        ensures
            final(self)@ == (HomeState { selected: prev_entry(old(self)@.selected, old(self)@.blogs.len()), ..old(self)@ }),
    {
        proof { use_type_invariant(&*self); }
        if self.blogs.len() > 0 {
            self.selected_index = if self.selected_index == 0 { self.blogs.len() - 1 } else { self.selected_index - 1 };
        }
    }

    fn handle_key(&mut self, key: KeyEvent) -> (a: HomeAction)
        ensures
            (final(self)@, a@) == home_key(old(self)@, key),
    {
        proof { use_type_invariant(&*self); }
        match key.code {
            KeyCode::Char(c) => {
                if c == '?' {
                    self.show_help = true;
                    HomeAction::Nothing
                } else if c == 'q' {
                    self.show_quit_confirm = true;
                    HomeAction::Nothing
                } else if c == 'l' {
                    HomeAction::GotoLogin
                } else if c == 'o' {
                    if self.is_authenticated { HomeAction::GotoProfile } else { HomeAction::Nothing }
                } else if c == 'j' {
                    self.select_next();
                    HomeAction::Nothing
                } else if c == 'k' {
                    self.select_prev();
                    HomeAction::Nothing
                } else {
                    HomeAction::Nothing
                }
            },
            KeyCode::Down => {
                self.select_next();
                HomeAction::Nothing
            },
            KeyCode::Up => {
                self.select_prev();
                HomeAction::Nothing
            },
            KeyCode::Enter => {
                if self.selected_index < self.blogs.len() {
                    HomeAction::ViewBlog(self.blogs[self.selected_index].id.clone())
                } else {
                    HomeAction::Nothing
                }
            },
            _ => HomeAction::Nothing,
        }
    }

    /// Handles an event; see `home_step` for what it does.
    pub fn handle_event(&mut self, event: Event) -> (a: HomeAction)
        ensures
            (final(self)@, a@) == home_step(old(self)@, event),
    {
        proof { use_type_invariant(&*self); }
        if self.show_welcome {
            return self.handle_welcome_event(event);
        }
        if self.show_error {
            match event {
                Event::Key(_) => {
                    self.show_error = false;
                    self.error = None;
                },
                _ => {},
            }
            return HomeAction::Nothing;
        }
        if self.show_quit_confirm {
            return self.handle_quit_confirm_event(event);
        }
        if self.show_help {
            if is_help_close(&event) {
                self.show_help = false;
            }
            return HomeAction::Nothing;
        }
        match event {
            Event::Key(key) => self.handle_key(key),
            _ => HomeAction::Nothing,
        }
    }
}

/// The key hints of the home page's footer.
pub open spec fn home_hints(authenticated: bool) -> Seq<(Seq<char>, Seq<char>)> {
    if authenticated {
        seq![("↑/k"@, "上一条"@), ("↓/j"@, "下一条"@), ("Enter"@, "查看"@), ("o"@, "个人资料"@),
            ("q"@, "退出"@), ("?"@, "帮助"@)]
    } else {
        seq![("↑/k"@, "上一条"@), ("↓/j"@, "下一条"@), ("Enter"@, "查看"@), ("l"@, "登录"@),
            ("?"@, "帮助"@), ("q"@, "退出"@)]
    }
}

/// The keys that the home page's help panel lists.
pub open spec fn home_help() -> Seq<(Seq<char>, Seq<char>)> {
    seq![("↑/k"@, "选择上一篇文章"@), ("↓/j"@, "选择下一篇文章"@), ("Enter"@, "查看选中的文章"@),
        ("o"@, "跳转到个人信息(已登录)"@), ("l"@, "跳转到登录页面"@), ("q"@, "退出应用程序"@),
        ("?"@, "显示/隐藏帮助"@)]
}

/// The second line of a blog's entry in a list: its author and when it was written.
pub open spec fn entry_meta(b: BlogListItem) -> Seq<char> {
    "  作者: "@ + b.author.username@ + " | 时间: "@ + b.created_at@
}

/// A blog's entry in a list: its title and the line under it.
pub fn entry_lines(b: &BlogListItem) -> (r: (String, String))
    ensures
        r.0@ == b.title@,
        r.1@ == entry_meta(*b),
{
    let mut meta = owned("  作者: ");
    meta.append(b.author.username.as_str());
    meta.append(" | 时间: ");
    meta.append(b.created_at.as_str());
    (b.title.clone(), meta)
}

impl HomePage {
    /// The footer: whether a user is logged in, and the keys that work.
    pub fn footer(&self) -> (f: FooterBar)
        ensures
            f.info_view() == seq![if self@.is_authenticated { "已登录"@ } else { "未登录"@ }],
            f.hints_view() == home_hints(self@.is_authenticated),
    {
        let info = vec![owned(if self.is_authenticated { "已登录" } else { "未登录" })];
        let hints = if self.is_authenticated {
            hints_of(&[("↑/k", "上一条"), ("↓/j", "下一条"), ("Enter", "查看"), ("o", "个人资料"),
                ("q", "退出"), ("?", "帮助")])
        } else {
            hints_of(&[("↑/k", "上一条"), ("↓/j", "下一条"), ("Enter", "查看"), ("l", "登录"),
                ("?", "帮助"), ("q", "退出")])
        };
        assert(texts(info@) =~= seq![if self@.is_authenticated { "已登录"@ } else { "未登录"@ }]);
        FooterBar::new().with_left_info(info).with_right_hints(hints)
    }

    /// The help panel of the home page.
    pub fn help_panel(&self) -> (p: HelpPanel)
        ensures
            p.title_view() == "主页帮助"@,
            p.items_view() == home_help(),
    {
        let p = HelpPanel::new("主页帮助")
            .add_item("↑/k", "选择上一篇文章")
            .add_item("↓/j", "选择下一篇文章")
            .add_item("Enter", "查看选中的文章")
            .add_item("o", "跳转到个人信息(已登录)")
            .add_item("l", "跳转到登录页面")
            .add_item("q", "退出应用程序")
            .add_item("?", "显示/隐藏帮助");
        assert(p.items_view() =~= home_help());
        p
    }

    /// The error dialog shown, if any: an error is shown unless the welcome
    /// dialog covers it.
    pub fn error_dialog(&self) -> (d: Option<ErrorDialog>)
        ensures
            match self@.error {
                Some(e) if self@.show_error && !self@.show_welcome => d matches Some(dl)
                    && dl.code_view() == e.code.number() && dl.message_view() == e.user_message@
                    && dl.detail_view() == Some(error_detail_text(e)),
                _ => d is None,
            },
    {
        if self.show_error && !self.show_welcome {
            match &self.error {
                Some(e) => Some(ErrorDialog::for_error(e)),
                None => None,
            }
        } else {
            None
        }
    }

    /// The welcome dialog, while it is shown.
    pub fn welcome_dialog(&self) -> (d: Option<&WelcomeDialog>)
        ensures
            match self@.welcome_url {
                Some(u) if self@.show_welcome => d matches Some(w) && w.url_view() == u,
                _ => d is None,
            },
    {
        if self.show_welcome {
            match &self.welcome_dialog {
                Some(w) => Some(w),
                None => None,
            }
        } else {
            None
        }
    }

    /// The title of the list: `最新文章 (n)` for `n` blogs.
    pub fn list_title(&self) -> (t: String)
        ensures
            t@ == "最新文章 ("@ + decimal(self@.blogs.len()) + ")"@,
    {
        let mut t = owned("最新文章 (");
        t.append(decimal_string(self.blogs.len() as u64).as_str());
        t.append(")");
        t
    }

    /// The blogs listed.
    pub fn blogs(&self) -> (b: &Vec<BlogListItem>)
        ensures
            b@ == self@.blogs,
    {
        &self.blogs
    }

    /// The index of the selected blog.
    pub fn selected_index(&self) -> (i: usize)
        ensures
            i == self@.selected,
    {
        self.selected_index
    }

    /// Whether the blogs are being loaded.
    pub fn is_loading(&self) -> (b: bool)
        ensures
            b == self@.is_loading,
    {
        self.is_loading
    }

    /// Whether the help panel is shown.
    pub fn show_help(&self) -> (b: bool)
        ensures
            b == self@.show_help,
    {
        self.show_help
    }

    /// The quit confirmation, while it is shown.
    pub fn quit_dialog(&self) -> (d: Option<&QuitConfirmDialog>)
        ensures
            self@.show_quit_confirm ==> (d matches Some(q) && q.selected_view() == self@.quit_selected
                && q.dialog().title_view() == self@.quit_title && q.dialog().message_view() == self@.quit_message
                && q.dialog().options_view() == self@.quit_options),
            !self@.show_quit_confirm ==> d is None,
    {
        if self.show_quit_confirm { Some(&self.quit_confirm_dialog) } else { None }
    }

    /// The path of the configuration file, which the welcome dialog mentions.
    pub fn config_path(&self) -> (p: &str)
        ensures
            p@ == self@.config_path,
    {
        self.config_path.as_str()
    }
}

/// Every event keeps the selection within the list.
pub proof fn lemma_home_step_keeps_selection(s: HomeState, e: Event)
    requires
        selection_in_range(s),
    ensures
        selection_in_range(home_step(s, e).0),
{
}

/// Moving down and then up through a non-empty list returns to the same
/// entry, and so does up then down.
pub proof fn lemma_down_then_up(i: usize, n: nat)
    requires
        n > 0,
        i < n,
        n <= usize::MAX,
    ensures
        prev_entry(next_entry(i, n), n) == i,
        next_entry(prev_entry(i, n), n) == i,
        next_entry(i, n) < n,
        prev_entry(i, n) < n,
{
    if i + 1 < n {
        assert((i + 1) % (n as int) == i + 1) by (nonlinear_arith)
            requires i + 1 < n, i >= 0;
    } else {
        assert((i + 1) % (n as int) == 0) by (nonlinear_arith)
            requires i + 1 == n, n > 0;
    }
    if i == 0 {
        assert(n as int - 1 + 1 == n);
        assert(((n - 1 + 1) as int) % (n as int) == 0) by (nonlinear_arith)
            requires n > 0;
    } else {
        assert((i as int) % (n as int) == i) by (nonlinear_arith)
            requires 0 < i < n;
    }
}

} // verus!
