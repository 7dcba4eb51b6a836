//! The pages of the application and what each does with the keys pressed.

pub mod blog_edit;
pub mod blog_view;
pub mod home;
pub mod login;
pub mod profile;
pub mod register;


use vstd::prelude::*;
use crate::events::{Event, KeyCode, KeyEvent};

verus! {

/// The pages of the application.
#[derive(Debug, Clone, Copy, PartialEq, Eq, Structural)]
pub enum Page {
    Home,
    Login,
    Register,
    BlogView,
    BlogEdit,
    Profile,
}

/// A scroll offset one line further down, held at the largest offset.
pub open spec fn scroll_down(n: usize) -> usize {
    if n == usize::MAX { n } else { (n + 1) as usize }
}

/// A scroll offset one line further up, held at zero.
pub open spec fn scroll_up(n: usize) -> usize {
    if n == 0 { 0 } else { (n - 1) as usize }
}

/// Scrolls one line further down.
pub fn scrolled_down(n: usize) -> (r: usize)
    ensures
        r == scroll_down(n),
{
    n.saturating_add(1)
}

/// Scrolls one line further up.
pub fn scrolled_up(n: usize) -> (r: usize)
    ensures
        r == scroll_up(n),
{
    n.saturating_sub(1)
}


/// A text with its last character removed, if it has one.
pub open spec fn drop_last_char(t: Seq<char>) -> Seq<char> {
    if t.len() == 0 { t } else { t.drop_last() }
}

/// On every page, `?` opens the help panel once nothing covers the page,
/// and `?` or Esc closes it again, leaving the page where it was. In the
/// editor this holds outside insert mode, where `?` is typed.
pub proof fn lemma_question_mark_toggles_help(
    h: home::HomeState,
    l: login::LoginState,
    r: register::RegisterState,
    p: profile::ProfileState,
    v: blog_view::ViewState,
    e: blog_edit::EditState,
    k: KeyEvent,
)
    requires
        k.code == KeyCode::Char('?'),
        !h.show_welcome && !h.show_error && !h.show_quit_confirm && !h.show_help,
        !l.show_error && !l.show_help,
        !r.show_success && !r.show_error && !r.show_help,
        !p.show_help,
        !v.show_success && !v.show_error && !v.show_help,
        !e.show_success && !e.show_error && !e.show_confirm_exit && !e.show_help && !e.is_saving
            && e.mode != blog_edit::EditMode::Insert,
    ensures
        home::home_step(h, Event::Key(k)).0 == (home::HomeState { show_help: true, ..h }),
        home::home_step(home::home_step(h, Event::Key(k)).0, Event::Key(k)).0 == h,
        login::login_step(l, Event::Key(k)).0 == (login::LoginState { show_help: true, ..l }),
        login::login_step(login::login_step(l, Event::Key(k)).0, Event::Key(k)).0 == l,
        register::register_step(r, Event::Key(k)).0 == (register::RegisterState { show_help: true, ..r }),
        register::register_step(register::register_step(r, Event::Key(k)).0, Event::Key(k)).0 == r,
        profile::profile_step(p, Event::Key(k)).0 == (profile::ProfileState { show_help: true, ..p }),
        profile::profile_step(profile::profile_step(p, Event::Key(k)).0, Event::Key(k)).0 == p,
        blog_view::view_step(v, Event::Key(k)).0 == (blog_view::ViewState { show_help: true, ..v }),
        blog_view::view_step(blog_view::view_step(v, Event::Key(k)).0, Event::Key(k)).0 == v,
        blog_edit::edit_step(e, Event::Key(k)).0 == (blog_edit::EditState { show_help: true, ..e }),
        blog_edit::edit_step(blog_edit::edit_step(e, Event::Key(k)).0, Event::Key(k)).0 == e,
{
}

/// Esc goes back from the login, registration, profile and blog pages once
/// nothing covers them; the editor goes back when nothing is unsaved and
/// else asks first.
pub proof fn lemma_escape_goes_back(
    l: login::LoginState,
    r: register::RegisterState,
    p: profile::ProfileState,
    v: blog_view::ViewState,
    e: blog_edit::EditState,
    k: KeyEvent,
)
    requires
        k.code == KeyCode::Esc,
        !l.show_error && !l.show_help,
        !r.show_success && !r.show_error && !r.show_help,
        !p.show_help,
        !v.show_success && !v.show_error && !v.show_help,
        !e.show_success && !e.show_error && !e.show_confirm_exit && !e.show_help && !e.is_saving
            && e.mode == blog_edit::EditMode::Normal,
    ensures
        login::login_step(l, Event::Key(k)).1 is Back,
        register::register_step(r, Event::Key(k)).1 is Back,
        profile::profile_step(p, Event::Key(k)).1 is BackToHome,
        blog_view::view_step(v, Event::Key(k)).1 is Back,
        !blog_edit::unsaved(e) ==> blog_edit::edit_step(e, Event::Key(k)).1 is Back,
        blog_edit::unsaved(e) ==> blog_edit::edit_step(e, Event::Key(k)).0.show_confirm_exit
            && blog_edit::edit_step(e, Event::Key(k)).1 is Nothing,
{
}

/// `t` switches the blog between its source and its rendering, and twice
/// leaves it as it was.
pub proof fn lemma_view_toggle_twice(v: blog_view::ViewState, k: KeyEvent)
    requires
        k.code == KeyCode::Char('t'),
        !v.show_success && !v.show_error && !v.show_help,
    ensures
        blog_view::view_step(v, Event::Key(k)).0.mode != v.mode,
        blog_view::view_step(blog_view::view_step(v, Event::Key(k)).0, Event::Key(k)).0 == v,
{
}

} // verus!
