//! The registration page: user name, nickname, email, password and its
//! confirmation, checked before they are sent.

use vstd::prelude::*;
use vstd::string::*;
use crate::events::{Event, KeyCode, KeyEvent, closes_help, is_help_close};
use crate::pages::drop_last_char;
use vstd::utf8::encode_utf8;
use crate::text::{push_char, pop_char, owned, byte_len, byte_len_below, has_char, decimal, decimal_string,
    lemma_byte_len_is_encoding_len};
use crate::utils::{AppError, ErrorCode};
use crate::components::dialog::{ErrorDialog, SuccessDialog};
use crate::ui::{FooterBar, HelpPanel, InputField, hints_of, texts};

verus! {

/// The registration page. The focus is on one of the five fields (0 to 4)
/// or on the button (5).
pub struct RegisterPage {
    username: String,
    nickname: String,
    email: String,
    password: String,
    confirm_password: String,
    focus_index: usize,
    error: Option<AppError>,
    show_error: bool,
    is_loading: bool,
    show_help: bool,
    success_message: Option<String>,
    show_success: bool,
}

/// What the application is asked to do after an event of the registration page.
#[derive(Debug)]
pub enum RegisterAction {
    Nothing,
    Register { username: String, nickname: String, password: String, email: String },
    Back,
}

/// An action of the registration page as plain values.
pub enum RegisterOutcome {
    Nothing,
    Register { username: Seq<char>, nickname: Seq<char>, password: Seq<char>, email: Seq<char> },
    Back,
}

impl View for RegisterAction {
    type V = RegisterOutcome;

    open spec fn view(&self) -> RegisterOutcome {
        match self {
            RegisterAction::Nothing => RegisterOutcome::Nothing,
            RegisterAction::Register { username, nickname, password, email } => RegisterOutcome::Register {
                username: username@,
                nickname: nickname@,
                password: password@,
                email: email@,
            },
            RegisterAction::Back => RegisterOutcome::Back,
        }
    }
}

/// The state of the registration page as plain values.
pub struct RegisterState {
    pub username: Seq<char>,
    pub nickname: Seq<char>,
    pub email: Seq<char>,
    pub password: Seq<char>,
    pub confirm_password: Seq<char>,
    pub focus: usize,
    pub error: Option<(ErrorCode, Seq<char>, Option<Seq<char>>)>,
    pub show_error: bool,
    pub is_loading: bool,
    pub show_help: bool,
    pub success_message: Option<Seq<char>>,
    pub show_success: bool,
}

/// An error as its code, message and detail.
pub open spec fn error_parts(e: AppError) -> (ErrorCode, Seq<char>, Option<Seq<char>>) {
    (e.code, e.user_message@, crate::utils::detail_view(e.detail))
}

impl View for RegisterPage {
    type V = RegisterState;

    closed spec fn view(&self) -> RegisterState {
        RegisterState {
            username: self.username@,
            nickname: self.nickname@,
            email: self.email@,
            password: self.password@,
            confirm_password: self.confirm_password@,
            focus: self.focus_index,
            error: match self.error {
                Some(e) => Some(error_parts(e)),
                None => None,
            },
            show_error: self.show_error,
            is_loading: self.is_loading,
            show_help: self.show_help,
            success_message: match self.success_message {
                Some(m) => Some(m@),
                None => None,
            },
            show_success: self.show_success,
        }
    }
}

/// What is wrong with the form, checked in this order: a user name under
/// three bytes, an empty nickname, an email without `@`, a password under
/// eight bytes, and a confirmation that differs from the password.
pub open spec fn register_problem(s: RegisterState) -> Option<Seq<char>> {
    if byte_len(s.username) < 3 {
        Some("用户名至少需要3个字符"@)
    } else if s.nickname.len() == 0 {
        Some("昵称不能为空"@)
    } else if !s.email.contains('@') {
        Some("请输入有效的邮箱地址"@)
    } else if byte_len(s.password) < 8 {
        Some("密码至少需要8个字符"@)
    } else if s.password != s.confirm_password {
        Some("两次输入的密码不一致"@)
    } else {
        None
    }
}

/// The form with a typed character added to the focused field.
pub open spec fn register_typed(s: RegisterState, c: char) -> RegisterState {
    if s.focus == 0 {
        RegisterState { username: s.username.push(c), ..s }
    } else if s.focus == 1 {
        RegisterState { nickname: s.nickname.push(c), ..s }
    } else if s.focus == 2 {
        RegisterState { email: s.email.push(c), ..s }
    } else if s.focus == 3 {
        RegisterState { password: s.password.push(c), ..s }
    } else if s.focus == 4 {
        RegisterState { confirm_password: s.confirm_password.push(c), ..s }
    } else {
        s
    }
}

/// The form with the last character of the focused field removed.
pub open spec fn register_erased(s: RegisterState) -> RegisterState {
    if s.focus == 0 {
        RegisterState { username: drop_last_char(s.username), ..s }
    } else if s.focus == 1 {
        RegisterState { nickname: drop_last_char(s.nickname), ..s }
    } else if s.focus == 2 {
        RegisterState { email: drop_last_char(s.email), ..s }
    } else if s.focus == 3 {
        RegisterState { password: drop_last_char(s.password), ..s }
    } else if s.focus == 4 {
        RegisterState { confirm_password: drop_last_char(s.confirm_password), ..s }
    } else {
        s
    }
}

/// A key on the form. Enter either shows what is wrong with the form as a
/// validation error, or asks for the registration.
pub open spec fn register_key(s: RegisterState, k: KeyEvent) -> (RegisterState, RegisterOutcome) {
    match k.code {
        KeyCode::Char(c) => if c == '?' {
            (RegisterState { show_help: true, ..s }, RegisterOutcome::Nothing)
        } else {
            (RegisterState { error: None, ..register_typed(s, c) }, RegisterOutcome::Nothing)
        },
        KeyCode::Tab => (RegisterState { focus: ((s.focus + 1) % 6) as usize, ..s }, RegisterOutcome::Nothing),
        KeyCode::BackTab => (RegisterState { focus: if s.focus == 0 { 5 } else { (s.focus - 1) as usize }, ..s }, RegisterOutcome::Nothing),
        KeyCode::Enter => match register_problem(s) {
            Some(msg) => (RegisterState { error: Some((ErrorCode::ValidationError, msg, None)), show_error: true, ..s },
                RegisterOutcome::Nothing),
            None => (s, RegisterOutcome::Register {
                username: s.username,
                nickname: s.nickname,
                password: s.password,
                email: s.email,
            }),
        },
        KeyCode::Esc => (s, RegisterOutcome::Back),
        KeyCode::Backspace => (register_erased(s), RegisterOutcome::Nothing),
        _ => (s, RegisterOutcome::Nothing),
    }
}

/// What the registration page does with an event: a shown success message
/// is closed by any key, which goes back; a shown error is closed by any
/// key; then the help panel takes the event, then the form.
pub open spec fn register_step(s: RegisterState, e: Event) -> (RegisterState, RegisterOutcome) {
    if s.show_success {
        if e is Key {
            (RegisterState { show_success: false, success_message: None, ..s }, RegisterOutcome::Back)
        } else {
            (s, RegisterOutcome::Nothing)
        }
    } else if s.show_error {
        (if e is Key { RegisterState { show_error: false, error: None, ..s } } else { s }, RegisterOutcome::Nothing)
    } else if s.show_help {
        (if closes_help(e) { RegisterState { show_help: false, ..s } } else { s }, RegisterOutcome::Nothing)
    } else {
        match e {
            Event::Key(k) => register_key(s, k),
            _ => (s, RegisterOutcome::Nothing),
        }
    }
}

fn pushed(t: &String, c: char) -> (r: String)
    ensures
        r@ == t@.push(c),
{
    let mut r = t.clone();
    push_char(&mut r, c);
    r
}

fn popped(t: &String) -> (r: String)
    ensures
        r@ == drop_last_char(t@),
{
    let mut r = t.clone();
    let _ = pop_char(&mut r);
    r
}

impl RegisterPage {
    #[verifier::type_invariant]
    spec fn focus_ok(&self) -> bool {
        self.focus_index < 6
    }

    /// An empty form with the user name focused.
    pub fn new() -> (p: Self)
        ensures
            p@ == (RegisterState { username: Seq::empty(), nickname: Seq::empty(), email: Seq::empty(),
                password: Seq::empty(), confirm_password: Seq::empty(), focus: 0, error: None,
                show_error: false, is_loading: false, show_help: false, success_message: None,
                show_success: false }),
    {
        RegisterPage {
            username: String::new(),
            nickname: String::new(),
            email: String::new(),
            password: String::new(),
            confirm_password: String::new(),
            focus_index: 0,
            error: None,
            show_error: false,
            is_loading: false,
            show_help: false,
            success_message: None,
            show_success: false,
        }
    }

    /// The focus is always on one of the six parts of the form.
    pub fn focus_index(&self) -> (i: usize)
        ensures
            i == self@.focus,
            i < 6,
    {
        proof { use_type_invariant(self); }
        self.focus_index
    }

    /// What is wrong with the form, if anything.
    pub fn validate(&self) -> (r: Result<(), String>)
        ensures
            match register_problem(self@) {
                Some(msg) => r is Err && r->Err_0@ == msg,
                None => r is Ok,
            },
    {
        if byte_len_below(self.username.as_str(), 3) {
            return Err(owned("用户名至少需要3个字符"));
        }
        if self.nickname.as_str().is_empty() {
            return Err(owned("昵称不能为空"));
        }
        if !has_char(self.email.as_str(), '@') {
            return Err(owned("请输入有效的邮箱地址"));
        }
        if byte_len_below(self.password.as_str(), 8) {
            return Err(owned("密码至少需要8个字符"));
        }
        if !(self.password == self.confirm_password) {
            return Err(owned("两次输入的密码不一致"));
        }
        Ok(())
    }

    fn type_char(&mut self, c: char)
        ensures
            final(self)@ == register_typed(old(self)@, c),
    {
        proof { use_type_invariant(&*self); }
        if self.focus_index == 0 {
            self.username = pushed(&self.username, c);
        } else if self.focus_index == 1 {
            self.nickname = pushed(&self.nickname, c);
        } else if self.focus_index == 2 {
            self.email = pushed(&self.email, c);
        } else if self.focus_index == 3 {
            self.password = pushed(&self.password, c);
        } else if self.focus_index == 4 {
            self.confirm_password = pushed(&self.confirm_password, c);
        }
    }

    fn erase_char(&mut self)
        ensures
            final(self)@ == register_erased(old(self)@),
    {
        proof { use_type_invariant(&*self); }
        if self.focus_index == 0 {
            self.username = popped(&self.username);
        } else if self.focus_index == 1 {
            self.nickname = popped(&self.nickname);
        } else if self.focus_index == 2 {
            self.email = popped(&self.email);
        } else if self.focus_index == 3 {
            self.password = popped(&self.password);
        } else if self.focus_index == 4 {
            self.confirm_password = popped(&self.confirm_password);
        }
    }

    fn handle_key(&mut self, key: KeyEvent) -> (a: RegisterAction)
        ensures
            (final(self)@, a@) == register_key(old(self)@, key),
    {
        proof { use_type_invariant(&*self); }
        match key.code {
            KeyCode::Char(c) => {
                if c == '?' {
                    self.show_help = true;
                } else {
                    self.type_char(c);
                    self.error = None;
                }
                RegisterAction::Nothing
            },
            KeyCode::Tab => {
                self.focus_index = (self.focus_index + 1) % 6;
                RegisterAction::Nothing
            },
            KeyCode::BackTab => {
                self.focus_index = if self.focus_index == 0 { 5 } else { self.focus_index - 1 };
                RegisterAction::Nothing
            },
            KeyCode::Enter => {
                match self.validate() {
                    Err(msg) => {
                        self.error = Some(AppError::new(ErrorCode::ValidationError, msg.as_str()));
                        self.show_error = true;
                        RegisterAction::Nothing
                    },
                    Ok(()) => RegisterAction::Register {
                        username: self.username.clone(),
                        nickname: self.nickname.clone(),
                        password: self.password.clone(),
                        email: self.email.clone(),
                    },
                }
            },
            KeyCode::Esc => RegisterAction::Back,
            KeyCode::Backspace => {
                self.erase_char();
                RegisterAction::Nothing
            },
            _ => RegisterAction::Nothing,
        }
    }

    /// Handles an event; see `register_step` for what it does.
    pub fn handle_event(&mut self, event: Event) -> (a: RegisterAction)
        ensures
            (final(self)@, a@) == register_step(old(self)@, event),
    {
        proof { use_type_invariant(&*self); }
        if self.show_success {
            if let Event::Key(_) = event {
                self.show_success = false;
                self.success_message = None;
                return RegisterAction::Back;
            }
            return RegisterAction::Nothing;
        }
        if self.show_error {
            if let Event::Key(_) = event {
                self.show_error = false;
                self.error = None;
            }
            return RegisterAction::Nothing;
        }
        if self.show_help {
            if is_help_close(&event) {
                self.show_help = false;
            }
            return RegisterAction::Nothing;
        }
        match event {
            Event::Key(key) => self.handle_key(key),
            _ => RegisterAction::Nothing,
        }
    }

    /// Shows an error; loading is over.
    pub fn set_error(&mut self, error: &AppError)
        ensures
            final(self)@ == (RegisterState { error: Some(error_parts(*error)), show_error: true, is_loading: false, ..old(self)@ }),
    {
        proof { use_type_invariant(&*self); }
        self.error = Some(error.clone());
        self.show_error = true;
        self.is_loading = false;
    }

    /// Shows a success message; loading is over.
    pub fn set_success(&mut self, message: String)
        ensures
            final(self)@ == (RegisterState { success_message: Some(message@), show_success: true, is_loading: false, ..old(self)@ }),
    {
        proof { use_type_invariant(&*self); }
        self.success_message = Some(message);
        self.show_success = true;
        self.is_loading = false;
    }

    /// Records whether a registration is running.
    pub fn set_loading(&mut self, loading: bool)
        ensures
            final(self)@ == (RegisterState { is_loading: loading, ..old(self)@ }),
    {
        proof { use_type_invariant(&*self); }
        self.is_loading = loading;
    }
}

/// The keys that the registration page's help panel lists.
pub open spec fn register_help() -> Seq<(Seq<char>, Seq<char>)> {
    seq![("Tab"@, "切换到下一个输入框"@), ("Shift+Tab"@, "切换到上一个输入框"@), ("Enter"@, "提交注册"@),
        ("Esc"@, "返回登录页面"@), ("Backspace"@, "删除字符"@), ("?"@, "显示/隐藏帮助"@)]
}

/// The detail of an error as its parts: the detail, or nothing.
pub open spec fn parts_detail(d: Option<Seq<char>>) -> Seq<char> {
    match d {
        Some(t) => t,
        None => Seq::empty(),
    }
}

impl RegisterPage {
    /// The footer: the step of the form that has the focus, out of five,
    /// and the length of the user name in bytes; and the keys that work.
    pub fn footer(&self) -> (f: FooterBar)
        ensures
            f.info_view() == seq!["步骤: "@ + decimal((self@.focus + 1) as nat) + "/5"@,
                "用户名长度: "@ + decimal(byte_len(self@.username) as usize as nat)],
            f.hints_view() == seq![("Tab"@, "切换"@), ("Enter"@, "注册"@), ("Esc"@, "返回"@), ("?"@, "帮助"@)],
    {
        proof { use_type_invariant(self); }
        let mut step = owned("步骤: ");
        step.append(decimal_string((self.focus_index + 1) as u64).as_str());
        step.append("/5");
        let mut length = owned("用户名长度: ");
        let n = self.username.as_str().len();
        proof { lemma_byte_len_is_encoding_len(self@.username); }
        length.append(decimal_string(n as u64).as_str());
        let info = vec![step, length];
        let hints = hints_of(&[("Tab", "切换"), ("Enter", "注册"), ("Esc", "返回"), ("?", "帮助")]);
        assert(texts(info@) =~= seq!["步骤: "@ + decimal((self@.focus + 1) as nat) + "/5"@,
            "用户名长度: "@ + decimal(byte_len(self@.username) as usize as nat)]);
        FooterBar::new().with_left_info(info).with_right_hints(hints)
    }

    /// The help panel of the registration page.
    pub fn help_panel(&self) -> (p: HelpPanel)
        ensures
            p.title_view() == "注册页面帮助"@,
            p.items_view() == register_help(),
    {
        let p = HelpPanel::new("注册页面帮助")
            .add_item("Tab", "切换到下一个输入框")
            .add_item("Shift+Tab", "切换到上一个输入框")
            .add_item("Enter", "提交注册")
            .add_item("Esc", "返回登录页面")
            .add_item("Backspace", "删除字符")
            .add_item("?", "显示/隐藏帮助");
        assert(p.items_view() =~= register_help());
        p
    }

    /// The five fields of the form, in order, each focused when the focus
    /// is on it; the passwords are masked.
    pub fn fields(&self) -> (v: Vec<InputField>)
        ensures
            v@.len() == 5,
            v@[0].label_view() == "用户名 (3-32字符)"@ && v@[0].value_view() == self@.username && !v@[0].password_view(),
            v@[1].label_view() == "昵称 (2-64字符)"@ && v@[1].value_view() == self@.nickname && !v@[1].password_view(),
            v@[2].label_view() == "邮箱"@ && v@[2].value_view() == self@.email && !v@[2].password_view(),
            v@[3].label_view() == "密码 (8-128字符)"@ && v@[3].value_view() == self@.password && v@[3].password_view(),
            v@[4].label_view() == "确认密码"@ && v@[4].value_view() == self@.confirm_password && v@[4].password_view(),
            forall|i: int| 0 <= i < 5 ==> (#[trigger] v@[i]).focused_view() == (self@.focus == i),
    {
        let v = vec![
            InputField::new("用户名 (3-32字符)").with_value(self.username.as_str()).focused(self.focus_index == 0),
            InputField::new("昵称 (2-64字符)").with_value(self.nickname.as_str()).focused(self.focus_index == 1),
            InputField::new("邮箱").with_value(self.email.as_str()).focused(self.focus_index == 2),
            InputField::new("密码 (8-128字符)").with_value(self.password.as_str()).password().focused(self.focus_index == 3),
            InputField::new("确认密码").with_value(self.confirm_password.as_str()).password().focused(self.focus_index == 4),
        ];
        v
    }

    /// The text of the button: `注册中...` while a registration runs.
    pub fn button_text(&self) -> (t: &str)
        ensures
            t@ == if self@.is_loading { "注册中..."@ } else { "[ 注册 ]"@ },
    {
        if self.is_loading { "注册中..." } else { "[ 注册 ]" }
    }

    /// Whether the button is focused.
    pub fn button_focused(&self) -> (b: bool)
        ensures
            b == (self@.focus == 5),
    {
        self.focus_index == 5
    }

    /// The error dialog, while an error is shown.
    pub fn error_dialog(&self) -> (d: Option<ErrorDialog>)
        ensures
            match self@.error {
                Some(e) if self@.show_error => d matches Some(dl)
                    && dl.code_view() == e.0.number() && dl.message_view() == e.1
                    && dl.detail_view() == Some(parts_detail(e.2)),
                _ => d is None,
            },
    {
        if self.show_error {
            match &self.error {
                Some(e) => Some(ErrorDialog::for_error(e)),
                None => None,
            }
        } else {
            None
        }
    }

    /// The success dialog, while it is shown.
    pub fn success_dialog(&self) -> (d: Option<SuccessDialog>)
        ensures
            match self@.success_message {
                Some(m) if self@.show_success => d matches Some(dl) && dl.title_view() == " 成功 "@ && dl.message_view() == m,
                _ => d is None,
            },
    {
        if self.show_success {
            match &self.success_message {
                Some(m) => Some(SuccessDialog::new(m.as_str())),
                None => None,
            }
        } else {
            None
        }
    }

    /// Whether the help panel is shown.
    pub fn show_help(&self) -> (b: bool)
        ensures
            b == self@.show_help,
    {
        self.show_help
    }
}

/// Every event keeps the focus on one of the six parts of the form.
pub proof fn lemma_register_focus_in_range(s: RegisterState, e: Event)
    requires
        s.focus < 6,
    ensures
        register_step(s, e).0.focus < 6,
{
}

/// Enter asks for a registration exactly when the form has nothing wrong,
/// and then with what the fields hold; otherwise it shows a validation error.
pub proof fn lemma_register_on_enter(s: RegisterState, k: KeyEvent)
    requires
        !s.show_success,
        !s.show_error,
        !s.show_help,
        k.code == KeyCode::Enter,
    ensures
        register_step(s, Event::Key(k)).1 is Register <==> register_problem(s) is None,
        register_step(s, Event::Key(k)).1 matches RegisterOutcome::Register { username, nickname, password, email }
            ==> username == s.username && nickname == s.nickname && password == s.password && email == s.email,
        register_problem(s) is Some ==> register_step(s, Event::Key(k)).0.show_error
            && register_step(s, Event::Key(k)).0.error == Some((ErrorCode::ValidationError, register_problem(s)->0, None::<Seq<char>>)),
{
}

/// Once the user name, nickname and email pass, the form is refused for its
/// password exactly when the password takes fewer than eight bytes in UTF-8;
/// a password of eight bytes or more that its confirmation repeats passes.
pub proof fn lemma_password_needs_eight_bytes(s: RegisterState)
    requires
        encode_utf8(s.username).len() >= 3,
        s.nickname.len() > 0,
        s.email.contains('@'),
    ensures
        register_problem(s) == Some("密码至少需要8个字符"@) <==> encode_utf8(s.password).len() < 8,
        encode_utf8(s.password).len() >= 8 && s.password == s.confirm_password ==> register_problem(s) is None,
{
    lemma_byte_len_is_encoding_len(s.username);
    lemma_byte_len_is_encoding_len(s.password);
    assert("密码至少需要8个字符"@ != "两次输入的密码不一致"@) by {
        reveal_strlit("密码至少需要8个字符");
        reveal_strlit("两次输入的密码不一致");
        assert("密码至少需要8个字符"@[0] != "两次输入的密码不一致"@[0]);
    }
}

} // verus!
