//! The login page: a user name, a password and a button.

use vstd::prelude::*;
use vstd::string::*;
use crate::events::{Event, KeyCode, KeyEvent, closes_help, is_help_close};
use crate::pages::drop_last_char;
use crate::text::{owned, push_char, pop_char};
use crate::utils::AppError;
use crate::components::dialog::{ErrorDialog, error_detail_text};
use crate::ui::{FooterBar, HelpPanel, InputField, hints_of, texts};

verus! {

/// The login page. The focus is on the user name (0), the password (1) or
/// the button (2).
pub struct LoginPage {
    username: String,
    password: String,
    focus_index: usize,
    error: Option<AppError>,
    show_error: bool,
    is_loading: bool,
    show_help: bool,
}

/// What the application is asked to do after an event of the login page.
#[derive(Debug)]
pub enum LoginAction {
    Nothing,
    Login { username: String, password: String },
    GotoRegister,
    Back,
}

/// An action of the login page as plain values.
pub enum LoginOutcome {
    Nothing,
    Login { username: Seq<char>, password: Seq<char> },
    GotoRegister,
    Back,
}

impl View for LoginAction {
    type V = LoginOutcome;

    open spec fn view(&self) -> LoginOutcome {
        match self {
            LoginAction::Nothing => LoginOutcome::Nothing,
            LoginAction::Login { username, password } => LoginOutcome::Login { username: username@, password: password@ },
            LoginAction::GotoRegister => LoginOutcome::GotoRegister,
            LoginAction::Back => LoginOutcome::Back,
        }
    }
}

/// The state of the login page as plain values.
pub struct LoginState {
    pub username: Seq<char>,
    pub password: Seq<char>,
    pub focus: usize,
    pub error: Option<AppError>,
    pub show_error: bool,
    pub is_loading: bool,
    pub show_help: bool,
}

impl View for LoginPage {
    type V = LoginState;

    closed spec fn view(&self) -> LoginState {
        LoginState {
            username: self.username@,
            password: self.password@,
            focus: self.focus_index,
            error: self.error,
            show_error: self.show_error,
            is_loading: self.is_loading,
            show_help: self.show_help,
        }
    }
}

/// A login can be tried once both the user name and the password are given.
pub open spec fn login_ready(s: LoginState) -> bool {
    s.username.len() > 0 && s.password.len() > 0
}

/// A key on the login form.
pub open spec fn login_key(s: LoginState, k: KeyEvent) -> (LoginState, LoginOutcome) {
    match k.code {
        KeyCode::Char(c) => {
            if c == '?' {
                (LoginState { show_help: true, ..s }, LoginOutcome::Nothing)
            } else if c == 'r' && s.focus >= 2 {
                (s, LoginOutcome::GotoRegister)
            } else if s.focus == 0 {
                (LoginState { username: s.username.push(c), error: None, ..s }, LoginOutcome::Nothing)
            } else if s.focus == 1 {
                (LoginState { password: s.password.push(c), error: None, ..s }, LoginOutcome::Nothing)
            } else {
                (s, LoginOutcome::Nothing)
            }
        },
        KeyCode::Tab => (LoginState { focus: ((s.focus + 1) % 3) as usize, ..s }, LoginOutcome::Nothing),
        KeyCode::BackTab => (LoginState { focus: if s.focus == 0 { 2 } else { (s.focus - 1) as usize }, ..s }, LoginOutcome::Nothing),
        KeyCode::Enter => (s, if login_ready(s) {
            LoginOutcome::Login { username: s.username, password: s.password } } else { LoginOutcome::Nothing }),
        KeyCode::Esc => (s, LoginOutcome::Back),
        KeyCode::Backspace => {
            if s.focus == 0 {
                (LoginState { username: drop_last_char(s.username), ..s }, LoginOutcome::Nothing)
            } else if s.focus == 1 {
                (LoginState { password: drop_last_char(s.password), ..s }, LoginOutcome::Nothing)
            } else {
                (s, LoginOutcome::Nothing)
            }
        },
        _ => (s, LoginOutcome::Nothing),
    }
}

/// What the login page does with an event: a shown error is closed by any
/// key, then the help panel takes the event, then the form.
pub open spec fn login_step(s: LoginState, e: Event) -> (LoginState, LoginOutcome) {
    if s.show_error {
        (if e is Key { LoginState { show_error: false, error: None, ..s } } else { s }, LoginOutcome::Nothing)
    } else if s.show_help {
        (if closes_help(e) { LoginState { show_help: false, ..s } } else { s }, LoginOutcome::Nothing)
    } else {
        match e {
            Event::Key(k) => login_key(s, k),
            _ => (s, LoginOutcome::Nothing),
        }
    }
}

impl LoginPage {
    #[verifier::type_invariant]
    spec fn focus_ok(&self) -> bool {
        self.focus_index < 3
    }

    /// An empty login form with the user name focused.
    pub fn new() -> (p: Self)
        ensures
            p@ == (LoginState { username: Seq::empty(), password: Seq::empty(), focus: 0, error: None,
                show_error: false, is_loading: false, show_help: false }),
    {
        LoginPage {
            username: String::new(),
            password: String::new(),
            focus_index: 0,
            error: None,
            show_error: false,
            is_loading: false,
            show_help: false,
        }
    }

    /// The focus is always on one of the three parts of the form.
    pub fn focus_index(&self) -> (i: usize)
        ensures
            i == self@.focus,
            i < 3,
    {
        proof { use_type_invariant(self); }
        self.focus_index
    }

    fn validate(&self) -> (b: bool)
        ensures
            b == login_ready(self@),
    {
        !self.username.as_str().is_empty() && !self.password.as_str().is_empty()
    }

    fn handle_key(&mut self, key: KeyEvent) -> (a: LoginAction)
        ensures
            (final(self)@, a@) == login_key(old(self)@, key),
    {
        proof { use_type_invariant(&*self); }
        match key.code {
            KeyCode::Char(c) => {
                if c == '?' {
                    self.show_help = true;
                    LoginAction::Nothing
                } else if c == 'r' && self.focus_index >= 2 {
                    LoginAction::GotoRegister
                } else if self.focus_index == 0 {
                    let mut t = self.username.clone();
                    push_char(&mut t, c);
                    self.username = t;
                    self.error = None;
                    LoginAction::Nothing
                } else if self.focus_index == 1 {
                    let mut t = self.password.clone();
                    push_char(&mut t, c);
                    self.password = t;
                    self.error = None;
                    LoginAction::Nothing
                } else {
                    LoginAction::Nothing
                }
            },
            KeyCode::Tab => {
                self.focus_index = (self.focus_index + 1) % 3;
                LoginAction::Nothing
            },
            KeyCode::BackTab => {
                self.focus_index = if self.focus_index == 0 { 2 } else { self.focus_index - 1 };
                LoginAction::Nothing
            },
            KeyCode::Enter => {
                if self.validate() {
                    LoginAction::Login { username: self.username.clone(), password: self.password.clone() }
                } else {
                    LoginAction::Nothing
                }
            },
            KeyCode::Esc => LoginAction::Back,
            KeyCode::Backspace => {
                if self.focus_index == 0 {
                    let mut t = self.username.clone();
                    let _ = pop_char(&mut t);
                    self.username = t;
                } else if self.focus_index == 1 {
                    let mut t = self.password.clone();
                    let _ = pop_char(&mut t);
                    self.password = t;
                }
                LoginAction::Nothing
            },
            _ => LoginAction::Nothing,
        }
    }

    /// Handles an event; see `login_step` for what it does.
    pub fn handle_event(&mut self, event: Event) -> (a: LoginAction)
        ensures
            (final(self)@, a@) == login_step(old(self)@, event),
    {
        proof { use_type_invariant(&*self); }
        if self.show_error {
            if let Event::Key(_) = event {
                self.show_error = false;
                self.error = None;
            }
            return LoginAction::Nothing;
        }
        if self.show_help {
            if is_help_close(&event) {
                self.show_help = false;
            }
            return LoginAction::Nothing;
        }
        match event {
            Event::Key(key) => self.handle_key(key),
            _ => LoginAction::Nothing,
        }
    }

    /// Shows an error; loading is over.
    pub fn set_error(&mut self, error: &AppError)
        ensures
            final(self)@ == (LoginState { error: Some(*error), show_error: true, is_loading: false, ..old(self)@ }),
    {
        proof { use_type_invariant(&*self); }
        self.error = Some(error.clone());
        self.show_error = true;
        self.is_loading = false;
    }

    /// Records whether a login is running.
    pub fn set_loading(&mut self, loading: bool)
        ensures
            final(self)@ == (LoginState { is_loading: loading, ..old(self)@ }),
    {
        proof { use_type_invariant(&*self); }
        self.is_loading = loading;
    }
}

/// Whether a field is filled, as the footer says it.
pub open spec fn filled_text(t: Seq<char>) -> Seq<char> {
    if t.len() == 0 { "未输入"@ } else { "已输入"@ }
}

/// The keys that the login page's help panel lists.
pub open spec fn login_help() -> Seq<(Seq<char>, Seq<char>)> {
    seq![("Tab"@, "切换到下一个输入框"@), ("Shift+Tab"@, "切换到上一个输入框"@), ("Enter"@, "提交登录"@),
        ("r"@, "跳转到注册页面"@), ("Esc"@, "返回上一页"@), ("Backspace"@, "删除字符"@),
        ("?"@, "显示/隐藏帮助"@)]
}

/// A label followed by whether a field is filled.
pub fn filled_label(label: &str, field: &String) -> (r: String)
    ensures
        r@ == label@ + filled_text(field@),
{
    let mut r = owned(label);
    r.append(if field.as_str().is_empty() { "未输入" } else { "已输入" });
    r
}

impl LoginPage {
    /// The footer: whether the user name and the password are filled, and
    /// the keys that work.
    pub fn footer(&self) -> (f: FooterBar)
        ensures
            f.info_view() == seq!["用户名: "@ + filled_text(self@.username), "密码: "@ + filled_text(self@.password)],
            f.hints_view() == seq![("Tab"@, "切换输入框"@), ("Enter"@, "登录"@), ("r"@, "注册"@),
                ("Esc"@, "返回"@), ("?"@, "帮助"@)],
    {
        let info = vec![filled_label("用户名: ", &self.username), filled_label("密码: ", &self.password)];
        let hints = hints_of(&[("Tab", "切换输入框"), ("Enter", "登录"), ("r", "注册"), ("Esc", "返回"), ("?", "帮助")]);
        assert(texts(info@) =~= seq!["用户名: "@ + filled_text(self@.username), "密码: "@ + filled_text(self@.password)]);
        FooterBar::new().with_left_info(info).with_right_hints(hints)
    }

    /// The help panel of the login page.
    pub fn help_panel(&self) -> (p: HelpPanel)
        ensures
            p.title_view() == "登录页面帮助"@,
            p.items_view() == login_help(),
    {
        let p = HelpPanel::new("登录页面帮助")
            .add_item("Tab", "切换到下一个输入框")
            .add_item("Shift+Tab", "切换到上一个输入框")
            .add_item("Enter", "提交登录")
            .add_item("r", "跳转到注册页面")
            .add_item("Esc", "返回上一页")
            .add_item("Backspace", "删除字符")
            .add_item("?", "显示/隐藏帮助");
        assert(p.items_view() =~= login_help());
        p
    }

    /// The user name field, focused when the focus is on it.
    pub fn username_field(&self) -> (f: InputField)
        ensures
            f.label_view() == "用户名"@,
            f.value_view() == self@.username,
            !f.password_view(),
            f.focused_view() == (self@.focus == 0),
    {
        InputField::new("用户名").with_value(self.username.as_str()).focused(self.focus_index == 0)
    }

    /// The password field, masked, focused when the focus is on it.
    pub fn password_field(&self) -> (f: InputField)
        ensures
            f.label_view() == "密码"@,
            f.value_view() == self@.password,
            f.password_view(),
            f.focused_view() == (self@.focus == 1),
    {
        InputField::new("密码").with_value(self.password.as_str()).password().focused(self.focus_index == 1)
    }

    /// The text of the button: `登录中...` while a login runs.
    pub fn button_text(&self) -> (t: &str)
        ensures
            t@ == if self@.is_loading { "登录中..."@ } else { "[ 登录 ]"@ },
    {
        if self.is_loading { "登录中..." } else { "[ 登录 ]" }
    }

    /// The error dialog, while an error is shown; it then takes the place
    /// of the form and the footer.
    pub fn error_dialog(&self) -> (d: Option<ErrorDialog>)
        ensures
            match self@.error {
                Some(e) if self@.show_error => d matches Some(dl)
                    && dl.code_view() == e.code.number() && dl.message_view() == e.user_message@
                    && dl.detail_view() == Some(error_detail_text(e)),
                _ => d is None,
            },
    {
        if self.show_error {
            match &self.error {
                Some(e) => Some(ErrorDialog::for_error(e)),
                None => None,
            }
        } else {
            None
        }
    }

    /// Whether an error is shown.
    pub fn show_error(&self) -> (b: bool)
        ensures
            b == self@.show_error,
    {
        self.show_error
    }

    /// Whether the help panel is shown.
    pub fn show_help(&self) -> (b: bool)
        ensures
            b == self@.show_help,
    {
        self.show_help
    }

    /// Whether the button is focused.
    pub fn button_focused(&self) -> (b: bool)
        ensures
            b == (self@.focus == 2),
    {
        self.focus_index == 2
    }
}

/// Every event keeps the focus on one of the three parts of the form.
pub proof fn lemma_login_focus_in_range(s: LoginState, e: Event)
    requires
        s.focus < 3,
    ensures
        login_step(s, e).0.focus < 3,
{
}

/// Tab and then Shift+Tab return to the same part, and so does the other order.
pub proof fn lemma_login_tab_backtab(s: LoginState, tab: KeyEvent, back: KeyEvent)
    requires
        s.focus < 3,
        tab.code == KeyCode::Tab,
        back.code == KeyCode::BackTab,
    ensures
        login_key(login_key(s, tab).0, back).0 == s,
        login_key(login_key(s, back).0, tab).0 == s,
{
}

/// Enter asks for a login exactly when both fields are filled, and then
/// with what they hold.
pub proof fn lemma_login_on_enter(s: LoginState, k: KeyEvent)
    requires
        !s.show_error,
        !s.show_help,
        k.code == KeyCode::Enter,
    ensures
        login_step(s, Event::Key(k)).1 is Login <==> (s.username.len() > 0 && s.password.len() > 0),
        login_step(s, Event::Key(k)).1 matches LoginOutcome::Login { username, password }
            ==> username == s.username && password == s.password,
{
}

/// Backspace on the focused field removes exactly its last character, so
/// that a character typed and then erased gives both fields back.
pub proof fn lemma_login_backspace_removes_last(s: LoginState, c: char, typed: KeyEvent, erase: KeyEvent)
    requires
        !s.show_error,
        !s.show_help,
        s.focus < 2,
        c != '?',
        typed.code == KeyCode::Char(c),
        erase.code == KeyCode::Backspace,
    ensures
        ({
            let t = login_step(login_step(s, Event::Key(typed)).0, Event::Key(erase)).0;
            t.username == s.username && t.password == s.password
        }),
        ({
            let r = login_step(s, Event::Key(erase)).0;
            &&& s.focus == 0 && s.username.len() > 0 ==> r.username.len() + 1 == s.username.len()
                && r.username.push(s.username.last()) == s.username && r.password == s.password
            &&& s.focus == 1 && s.password.len() > 0 ==> r.password.len() + 1 == s.password.len()
                && r.password.push(s.password.last()) == s.password && r.username == s.username
        }),
{
    assert(s.username.push(c).drop_last() =~= s.username);
    assert(s.password.push(c).drop_last() =~= s.password);
    if s.username.len() > 0 {
        assert(s.username.drop_last().push(s.username.last()) =~= s.username);
    }
    if s.password.len() > 0 {
        assert(s.password.drop_last().push(s.password.last()) =~= s.password);
    }
}

} // verus!
