//! The profile page: the user's information and blogs, between an entry
//! that creates a blog and one that logs out.

use vstd::prelude::*;
use vstd::string::*;
use crate::api::{BlogListItem, Visibility};
use crate::ui::{FooterBar, HelpPanel, hints_of, texts, text_pairs};
use crate::text::{owned, decimal, decimal_string};
use crate::config::UserInfo;
use crate::events::{Event, KeyCode, KeyEvent, closes_help, is_help_close};

verus! {

/// The profile page. Entry 0 creates a blog, entries 1 to n show the n
/// blogs, and entry n + 1 logs out.
pub struct ProfilePage {
    user_info: Option<UserInfo>,
    blogs: Vec<BlogListItem>,
    selected_index: usize,
    scroll_offset: usize,
    show_help: bool,
    is_loading: bool,
}

/// What the application is asked to do after an event of the profile page.
#[derive(Debug)]
pub enum ProfileAction {
    Nothing,
    BackToHome,
    NewBlog,
    ViewBlog(String),
    Logout,
}

/// An action of the profile page as plain values.
pub enum ProfileOutcome {
    Nothing,
    BackToHome,
    NewBlog,
    ViewBlog(Seq<char>),
    Logout,
}

impl View for ProfileAction {
    type V = ProfileOutcome;

    open spec fn view(&self) -> ProfileOutcome {
        match self {
            ProfileAction::Nothing => ProfileOutcome::Nothing,
            ProfileAction::BackToHome => ProfileOutcome::BackToHome,
            ProfileAction::NewBlog => ProfileOutcome::NewBlog,
            ProfileAction::ViewBlog(id) => ProfileOutcome::ViewBlog(id@),
            ProfileAction::Logout => ProfileOutcome::Logout,
        }
    }
}

/// The state of the profile page as plain values.
pub struct ProfileState {
    pub user_info: Option<UserInfo>,
    pub blogs: Seq<BlogListItem>,
    pub selected: usize,
    pub scroll: usize,
    pub show_help: bool,
    pub is_loading: bool,
}

impl View for ProfilePage {
    type V = ProfileState;

    closed spec fn view(&self) -> ProfileState {
        ProfileState {
            user_info: self.user_info,
            blogs: self.blogs@,
            selected: self.selected_index,
            scroll: self.scroll_offset,
            show_help: self.show_help,
            is_loading: self.is_loading,
        }
    }
}

/// The selection is one of the entries, and the list is short enough to count them.
pub open spec fn profile_wf(s: ProfileState) -> bool {
    &&& s.blogs.len() <= isize::MAX
    &&& s.selected < s.blogs.len() + 2
}

/// The scroll offset that keeps entry `selected` in view: two entries
/// above it, from the third entry on.
pub open spec fn scroll_for(selected: usize) -> usize {
    if selected >= 3 { (selected - 2) as usize } else { 0 }
}

/// A key on the profile page.
pub open spec fn profile_key(s: ProfileState, k: KeyEvent) -> (ProfileState, ProfileOutcome) {
    let total: int = s.blogs.len() as int + 2;
    let down = ((s.selected + 1) % total) as usize;
    let up = if s.selected == 0 { (total - 1) as usize } else { (s.selected - 1) as usize };
    match k.code {
        KeyCode::Char(c) => {
            if c == '?' {
                (ProfileState { show_help: true, ..s }, ProfileOutcome::Nothing)
            } else if c == 'q' {
                (s, ProfileOutcome::BackToHome)
            } else if c == 'n' {
                (s, ProfileOutcome::NewBlog)
            } else if c == 'j' {
                (ProfileState { selected: down, scroll: scroll_for(down), ..s }, ProfileOutcome::Nothing)
            } else if c == 'k' {
                (ProfileState { selected: up, scroll: scroll_for(up), ..s }, ProfileOutcome::Nothing)
            } else {
                (s, ProfileOutcome::Nothing)
            }
        },
        KeyCode::Esc => (s, ProfileOutcome::BackToHome),
        KeyCode::Down => (ProfileState { selected: down, scroll: scroll_for(down), ..s }, ProfileOutcome::Nothing),
        KeyCode::Up => (ProfileState { selected: up, scroll: scroll_for(up), ..s }, ProfileOutcome::Nothing),
        KeyCode::Enter => (s, if s.selected == 0 {
            ProfileOutcome::NewBlog
        } else if s.selected == s.blogs.len() + 1 {
            ProfileOutcome::Logout
        } else if s.selected - 1 < s.blogs.len() {
            ProfileOutcome::ViewBlog(s.blogs[s.selected - 1].id@)
        } else {
            ProfileOutcome::Nothing
        }),
        _ => (s, ProfileOutcome::Nothing),
    }
}

/// What the profile page does with an event: the help panel takes it
/// first when shown.
pub open spec fn profile_step(s: ProfileState, e: Event) -> (ProfileState, ProfileOutcome) {
    if s.show_help {
        (if closes_help(e) { ProfileState { show_help: false, ..s } } else { s }, ProfileOutcome::Nothing)
    } else {
        match e {
            Event::Key(k) => profile_key(s, k),
            _ => (s, ProfileOutcome::Nothing),
        }
    }
}

impl ProfilePage {
    #[verifier::type_invariant]
    spec fn selection_ok(&self) -> bool {
        &&& self.blogs@.len() <= isize::MAX
        &&& self.selected_index < self.blogs@.len() + 2
    }

    /// A profile page waiting for its data, with "create a blog" selected.
    pub fn new() -> (p: Self)
        ensures
            p@ == (ProfileState { user_info: None, blogs: Seq::empty(), selected: 0, scroll: 0,
                show_help: false, is_loading: true }),
    {
        ProfilePage { user_info: None, blogs: Vec::new(), selected_index: 0, scroll_offset: 0, show_help: false, is_loading: true }
    }

    /// Every profile page selects one of its entries, and lists few enough
    /// blogs to count them: a check that costs nothing.
    pub fn selection_within_entries(&self)
        ensures
            profile_wf(self@),
    {
        proof { use_type_invariant(self); }
    }

    /// Shows the user's information.
    pub fn set_user_info(&mut self, user_info: UserInfo)
        ensures
            final(self)@ == (ProfileState { user_info: Some(user_info), ..old(self)@ }),
    {
        proof { use_type_invariant(&*self); }
        self.user_info = Some(user_info);
    }

    /// Shows the user's blogs, with "create a blog" selected.
    pub fn set_blogs(&mut self, blogs: Vec<BlogListItem>)
        requires
            blogs@.len() <= isize::MAX,
        ensures
            final(self)@ == (ProfileState { blogs: blogs@, is_loading: false, selected: 0, scroll: 0, ..old(self)@ }),
    {
        proof { use_type_invariant(&*self); }
        self.selected_index = 0;
        self.blogs = blogs;
        self.is_loading = false;
        self.scroll_offset = 0;
    }

    /// Scrolls so that the selected entry stays in view.
    pub fn update_scroll(&mut self)
        ensures
            final(self)@ == (ProfileState { scroll: scroll_for(old(self)@.selected), ..old(self)@ }),
    {
        proof { use_type_invariant(&*self); }
        if self.selected_index >= 3 {
            self.scroll_offset = self.selected_index - 2;
        } else {
            self.scroll_offset = 0;
        }
    }

    fn handle_key(&mut self, key: KeyEvent) -> (a: ProfileAction)
        ensures
            (final(self)@, a@) == profile_key(old(self)@, key),
    {
        proof { use_type_invariant(&*self); }
        let total = self.blogs.len() + 2;
        match key.code {
            KeyCode::Char(c) => {
                if c == '?' {
                    self.show_help = true;
                    ProfileAction::Nothing
                } else if c == 'q' {
                    ProfileAction::BackToHome
                } else if c == 'n' {
                    ProfileAction::NewBlog
                } else if c == 'j' {
                    self.selected_index = (self.selected_index + 1) % total;
                    self.update_scroll();
                    ProfileAction::Nothing
                } else if c == 'k' {
                    self.selected_index = if self.selected_index == 0 { total - 1 } else { self.selected_index - 1 };
                    self.update_scroll();
                    ProfileAction::Nothing
                } else {
                    ProfileAction::Nothing
                }
            },
            KeyCode::Esc => ProfileAction::BackToHome,
            KeyCode::Down => {
                self.selected_index = (self.selected_index + 1) % total;
                self.update_scroll();
                ProfileAction::Nothing
            },
            KeyCode::Up => {
                self.selected_index = if self.selected_index == 0 { total - 1 } else { self.selected_index - 1 };
                self.update_scroll();
                ProfileAction::Nothing
            },
            KeyCode::Enter => {
                if self.selected_index == 0 {
                    ProfileAction::NewBlog
                } else if self.selected_index == self.blogs.len() + 1 {
                    ProfileAction::Logout
                } else if self.selected_index - 1 < self.blogs.len() {
                    ProfileAction::ViewBlog(self.blogs[self.selected_index - 1].id.clone())
                } else {
                    ProfileAction::Nothing
                }
            },
            _ => ProfileAction::Nothing,
        }
    }

    /// Handles an event; see `profile_step` for what it does.
    pub fn handle_event(&mut self, event: Event) -> (a: ProfileAction)
        ensures
            (final(self)@, a@) == profile_step(old(self)@, event),
    {
        proof { use_type_invariant(&*self); }
        if self.show_help {
            if is_help_close(&event) {
                self.show_help = false;
            }
            return ProfileAction::Nothing;
        }
        match event {
            Event::Key(key) => self.handle_key(key),
            _ => ProfileAction::Nothing,
        }
    }
}

/// The key hints of the profile page's footer, which depend on the entry
/// selected among `n` blogs.
pub open spec fn profile_hints(selected: usize, n: nat) -> Seq<(Seq<char>, Seq<char>)> {
    if selected == 0 {
        seq![("↑/k"@, "上移"@), ("↓/j"@, "下移"@), ("Enter"@, "新建"@), ("q/Esc"@, "返回"@), ("?"@, "帮助"@)]
    } else if selected == n + 1 {
        seq![("↑/k"@, "上移"@), ("↓/j"@, "下移"@), ("Enter"@, "退出登录"@), ("q/Esc"@, "返回"@), ("?"@, "帮助"@)]
    } else {
        seq![("↑/k"@, "上移"@), ("↓/j"@, "下移"@), ("Enter"@, "查看"@), ("n"@, "新建文章"@),
            ("q/Esc"@, "返回"@), ("?"@, "帮助"@)]
    }
}

/// The keys that the profile page's help panel lists.
pub open spec fn profile_help() -> Seq<(Seq<char>, Seq<char>)> {
    seq![("↑/k"@, "选择上一项"@), ("↓/j"@, "选择下一项"@), ("Enter"@, "执行选中项操作"@),
        ("n"@, "新建文章"@), ("q/Esc"@, "返回主页"@), ("?"@, "显示/隐藏帮助"@)]
}

/// The user's information as labelled lines; a missing introduction shows
/// as `暂无简介`.
pub open spec fn user_lines(u: UserInfo) -> Seq<(Seq<char>, Seq<char>)> {
    seq![("用户名: "@, u.username@), ("昵称: "@, u.nickname@), ("邮箱: "@, u.email@),
        ("简介: "@, match u.bio { Some(b) => b@, None => "暂无简介"@ })]
}

/// The line under a blog's title in the profile: whether it is public, its
/// author and when it was written.
pub open spec fn profile_entry_meta(b: BlogListItem) -> Seq<char> {
    "  "@ + (if b.visibility == Visibility::Public { "👁"@ } else { "🔒"@ }) + " | 作者: "@
        + b.author.username@ + " | "@ + b.created_at@
}

impl ProfilePage {
    /// The footer: who is logged in, and the keys that work on the entry selected.
    pub fn footer(&self) -> (f: FooterBar)
        ensures
            f.info_view() == match self@.user_info {
                Some(u) => seq!["用户: "@ + u.username@],
                None => seq!["未登录"@],
            },
            f.hints_view() == profile_hints(self@.selected, self@.blogs.len()),
    {
        proof { use_type_invariant(self); }
        let info = match &self.user_info {
            Some(u) => {
                let mut t = owned("用户: ");
                t.append(u.username.as_str());
                vec![t]
            },
            None => vec![owned("未登录")],
        };
        let hints = if self.selected_index == 0 {
            hints_of(&[("↑/k", "上移"), ("↓/j", "下移"), ("Enter", "新建"), ("q/Esc", "返回"), ("?", "帮助")])
        } else if self.selected_index == self.blogs.len() + 1 {
            hints_of(&[("↑/k", "上移"), ("↓/j", "下移"), ("Enter", "退出登录"), ("q/Esc", "返回"), ("?", "帮助")])
        } else {
            hints_of(&[("↑/k", "上移"), ("↓/j", "下移"), ("Enter", "查看"), ("n", "新建文章"),
                ("q/Esc", "返回"), ("?", "帮助")])
        };
        assert(texts(info@) =~= match self@.user_info {
            Some(u) => seq!["用户: "@ + u.username@],
            None => seq!["未登录"@],
        });
        FooterBar::new().with_left_info(info).with_right_hints(hints)
    }

    /// The help panel of the profile page.
    pub fn help_panel(&self) -> (p: HelpPanel)
        ensures
            p.title_view() == "个人信息页帮助"@,
            p.items_view() == profile_help(),
    {
        let p = HelpPanel::new("个人信息页帮助")
            .add_item("↑/k", "选择上一项")
            .add_item("↓/j", "选择下一项")
            .add_item("Enter", "执行选中项操作")
            .add_item("n", "新建文章")
            .add_item("q/Esc", "返回主页")
            .add_item("?", "显示/隐藏帮助");
        assert(p.items_view() =~= profile_help());
        p
    }

    /// The user's information as labelled lines, once it is known.
    pub fn user_lines(&self) -> (r: Option<Vec<(String, String)>>)
        ensures
            match self@.user_info {
                Some(u) => r matches Some(v) && text_pairs(v@) == user_lines(u),
                None => r is None,
            },
    {
        match &self.user_info {
            Some(u) => {
                let bio = match &u.bio {
                    Some(b) => b.clone(),
                    None => owned("暂无简介"),
                };
                let v = vec![
                    (owned("用户名: "), u.username.clone()),
                    (owned("昵称: "), u.nickname.clone()),
                    (owned("邮箱: "), u.email.clone()),
                    (owned("简介: "), bio),
                ];
                assert(text_pairs(v@) =~= user_lines(*u));
                Some(v)
            },
            None => None,
        }
    }

    /// Each blog's entry: its title and the line under it.
    pub fn blog_entries(&self) -> (v: Vec<(String, String)>)
        ensures
            v@.len() == self@.blogs.len(),
            forall|i: int| 0 <= i < v@.len() ==> (#[trigger] v@[i]).0@ == self@.blogs[i].title@
                && v@[i].1@ == profile_entry_meta(self@.blogs[i]),
    {
        let mut v: Vec<(String, String)> = Vec::new();
        let mut i: usize = 0;
        while i < self.blogs.len()
            invariant
                i <= self.blogs.len(),
                v@.len() == i,
                forall|j: int| 0 <= j < i ==> (#[trigger] v@[j]).0@ == self@.blogs[j].title@
                    && v@[j].1@ == profile_entry_meta(self@.blogs[j]),
            decreases self.blogs.len() - i,
        {
            let b = &self.blogs[i];
            let mut meta = owned("  ");
            meta.append(match b.visibility { Visibility::Public => "👁", Visibility::Private => "🔒" });
            meta.append(" | 作者: ");
            meta.append(b.author.username.as_str());
            meta.append(" | ");
            meta.append(b.created_at.as_str());
            v.push((b.title.clone(), meta));
            i = i + 1;
        }
        v
    }

    /// The title of the list: `我的文章 (n)` for `n` blogs.
    pub fn list_title(&self) -> (t: String)
        ensures
            t@ == "我的文章 ("@ + decimal(self@.blogs.len()) + ")"@,
    {
        let mut t = owned("我的文章 (");
        t.append(decimal_string(self.blogs.len() as u64).as_str());
        t.append(")");
        t
    }

    /// The entry selected.
    pub fn selected_index(&self) -> (i: usize)
        ensures
            i == self@.selected,
    {
        self.selected_index
    }

    /// The number of blogs listed.
    pub fn blog_count(&self) -> (n: usize)
        ensures
            n == self@.blogs.len(),
    {
        self.blogs.len()
    }

    /// Whether the blogs are being loaded.
    pub fn is_loading(&self) -> (b: bool)
        ensures
            b == self@.is_loading,
    {
        self.is_loading
    }

    /// Whether the help panel is shown.
    pub fn show_help(&self) -> (b: bool)
        ensures
            b == self@.show_help,
    {
        self.show_help
    }
}

/// Every event keeps the selection on one of the entries, and every move
/// scrolls to keep it in view.
pub proof fn lemma_profile_step_keeps_selection(s: ProfileState, e: Event)
    requires
        profile_wf(s),
    ensures
        profile_wf(profile_step(s, e).0),
        profile_step(s, e).0.selected != s.selected ==> profile_step(s, e).0.scroll == scroll_for(profile_step(s, e).0.selected),
{
    let total = s.blogs.len() + 2;
    assert(((s.selected + 1) % (total as int)) < total) by (nonlinear_arith) requires total > 0;
}

/// Enter on the first entry creates a blog, on the last logs out, and on
/// any other shows the blog of that entry.
pub proof fn lemma_profile_enter(s: ProfileState, k: KeyEvent)
    requires
        profile_wf(s),
        !s.show_help,
        k.code == KeyCode::Enter,
    ensures
        s.selected == 0 ==> profile_step(s, Event::Key(k)).1 is NewBlog,
        s.selected == s.blogs.len() + 1 ==> profile_step(s, Event::Key(k)).1 is Logout,
        0 < s.selected <= s.blogs.len() ==> profile_step(s, Event::Key(k)).1 == ProfileOutcome::ViewBlog(s.blogs[s.selected - 1].id@),
{
}

/// Up (or `k`) selects the entry before, and only the first entry wraps to
/// the last one; Down (or `j`) selects the entry after, and only the last
/// wraps to the first; so Down then Up comes back to the same entry.
pub proof fn lemma_profile_up_down(s: ProfileState, up: KeyEvent, down: KeyEvent)
    requires
        profile_wf(s),
        !s.show_help,
        up.code == KeyCode::Up || up.code == KeyCode::Char('k'),
        down.code == KeyCode::Down || down.code == KeyCode::Char('j'),
    ensures
        profile_step(s, Event::Key(up)).0.selected == if s.selected > 0 { s.selected - 1 } else { s.blogs.len() + 1 as int },
        profile_step(s, Event::Key(down)).0.selected == if s.selected < s.blogs.len() + 1 { s.selected + 1 } else { 0 as int },
        profile_step(profile_step(s, Event::Key(down)).0, Event::Key(up)).0.selected == s.selected,
{
    let total: int = s.blogs.len() + 2int;
    let i: int = s.selected as int;
    assert((i + 1) % total == if i + 1 < total { i + 1 } else { 0 }) by (nonlinear_arith)
        requires 0 <= i < total;
    lemma_profile_step_keeps_selection(s, Event::Key(down));
}

} // verus!
