//! The blog viewer: a blog shown as source or rendered markdown, which its
//! author may edit or publish.

use vstd::prelude::*;
use vstd::string::*;
use crate::api::{BlogDetail, Visibility};
use crate::components::dialog::{ErrorDialog, LoadingDialog, SuccessDialog};
use crate::ui::{FooterBar, HelpPanel, hints_of, texts};
use crate::text::owned;
use crate::components::markdown::{MarkdownRenderer, MarkdownSpan, lines_view, markdown_spans, styled};
use crate::events::{Event, KeyCode, KeyEvent, closes_help, is_help_close};
use crate::pages::{scroll_up, scrolled_up};
use crate::text::{lines, lines_of, rows, wrapped_rows, lemma_lines_weight, is_wide, display_width, line_rows,
    first_newline, lemma_first_newline_bound, lemma_display_width_counts_wide};

verus! {

/// How the blog is shown.
#[derive(Debug, Clone, Copy, PartialEq, Eq, Structural)]
pub enum ViewMode {
    Source,
    Rendered,
}

/// The blog viewer page.
pub struct BlogViewPage {
    blog: Option<BlogDetail>,
    current_username: Option<String>,
    view_mode: ViewMode,
    scroll_offset: usize,
    max_scroll: usize,
    show_help: bool,
    is_loading: bool,
    error: Option<String>,
    success_message: Option<String>,
    show_success: bool,
    show_error: bool,
    is_uploading: bool,
}

/// What the application is asked to do after an event of the viewer.
#[derive(Debug)]
pub enum BlogViewAction {
    Nothing,
    Back,
    EditBlog(String),
    UploadBlog(String),
}

/// An action of the viewer as plain values.
pub enum ViewOutcome {
    Nothing,
    Back,
    EditBlog(Seq<char>),
    UploadBlog(Seq<char>),
}

impl View for BlogViewAction {
    type V = ViewOutcome;

    open spec fn view(&self) -> ViewOutcome {
        match self {
            BlogViewAction::Nothing => ViewOutcome::Nothing,
            BlogViewAction::Back => ViewOutcome::Back,
            BlogViewAction::EditBlog(id) => ViewOutcome::EditBlog(id@),
            BlogViewAction::UploadBlog(id) => ViewOutcome::UploadBlog(id@),
        }
    }
}

/// The state of the viewer as plain values.
pub struct ViewState {
    pub blog: Option<BlogDetail>,
    pub current_username: Option<Seq<char>>,
    pub mode: ViewMode,
    pub scroll: usize,
    pub max_scroll: usize,
    pub show_help: bool,
    pub is_loading: bool,
    pub error: Option<Seq<char>>,
    pub success_message: Option<Seq<char>>,
    pub show_success: bool,
    pub show_error: bool,
    pub is_uploading: bool,
}

/// An optional string as an optional character sequence.
pub open spec fn opt_chars(o: Option<String>) -> Option<Seq<char>> {
    match o {
        Some(s) => Some(s@),
        None => None,
    }
}

impl View for BlogViewPage {
    type V = ViewState;

    closed spec fn view(&self) -> ViewState {
        ViewState {
            blog: self.blog,
            current_username: opt_chars(self.current_username),
            mode: self.view_mode,
            scroll: self.scroll_offset,
            max_scroll: self.max_scroll,
            show_help: self.show_help,
            is_loading: self.is_loading,
            error: opt_chars(self.error),
            success_message: opt_chars(self.success_message),
            show_success: self.show_success,
            show_error: self.show_error,
            is_uploading: self.is_uploading,
        }
    }
}

/// The blog is the current user's when both are known and the blog's author
/// has the user's name.
pub open spec fn owns_blog(s: ViewState) -> bool {
    match (s.blog, s.current_username) {
        (Some(b), Some(u)) => b.author.username@ == u,
        _ => false,
    }
}

/// The other way of showing the blog than `m`.
pub open spec fn other_mode(m: ViewMode) -> ViewMode {
    match m {
        ViewMode::Source => ViewMode::Rendered,
        ViewMode::Rendered => ViewMode::Source,
    }
}

/// One line further down, held at the last position that still fills the screen.
pub open spec fn view_scroll_down(s: ViewState) -> usize {
    if s.scroll < s.max_scroll { (s.scroll + 1) as usize } else { s.scroll }
}

/// A key on the viewer.
pub open spec fn view_key(s: ViewState, k: KeyEvent) -> (ViewState, ViewOutcome) {
    match k.code {
        KeyCode::Char(c) => {
            if c == '?' {
                (ViewState { show_help: true, ..s }, ViewOutcome::Nothing)
            } else if c == 'q' {
                (s, ViewOutcome::Back)
            } else if c == 't' {
                (ViewState { mode: other_mode(s.mode), ..s }, ViewOutcome::Nothing)
            } else if c == 'j' {
                (ViewState { scroll: view_scroll_down(s), ..s }, ViewOutcome::Nothing)
            } else if c == 'k' {
                (ViewState { scroll: scroll_up(s.scroll), ..s }, ViewOutcome::Nothing)
            } else if c == 'e' {
                (s, if owns_blog(s) { ViewOutcome::EditBlog(s.blog->0.id@) } else { ViewOutcome::Nothing })
            } else {
                (s, ViewOutcome::Nothing)
            }
        },
        KeyCode::Esc => (s, ViewOutcome::Back),
        KeyCode::Down => (ViewState { scroll: view_scroll_down(s), ..s }, ViewOutcome::Nothing),
        KeyCode::Up => (ViewState { scroll: scroll_up(s.scroll), ..s }, ViewOutcome::Nothing),
        KeyCode::F(n) => (s, if n == 10 && owns_blog(s) { ViewOutcome::UploadBlog(s.blog->0.id@) } else { ViewOutcome::Nothing }),
        _ => (s, ViewOutcome::Nothing),
    }
}

/// What the viewer does with an event: a shown success message, then a
/// shown error, then the help panel take it before the keys of the viewer.
pub open spec fn view_step(s: ViewState, e: Event) -> (ViewState, ViewOutcome) {
    if s.show_success {
        (if e is Key { ViewState { show_success: false, success_message: None, ..s } } else { s }, ViewOutcome::Nothing)
    } else if s.show_error {
        (if e is Key { ViewState { show_error: false, error: None, ..s } } else { s }, ViewOutcome::Nothing)
    } else if s.show_help {
        (if closes_help(e) { ViewState { show_help: false, ..s } } else { s }, ViewOutcome::Nothing)
    } else {
        match e {
            Event::Key(k) => view_key(s, k),
            _ => (s, ViewOutcome::Nothing),
        }
    }
}

/// The screen rows of a text wrapped at `width` columns: its number of
/// lines when the width is zero, else the rows of its lines and at least one.
pub open spec fn wrapped_lines(content: Seq<char>, width: u16) -> nat {
    if width == 0 {
        lines(content).len()
    } else {
        let r = rows(lines(content), width as nat);
        if r >= 1 { r } else { 1 }
    }
}

/// The largest scroll offset that still fills a screen of `visible` rows.
pub open spec fn scroll_limit(line_count: usize, visible: usize) -> usize {
    if line_count > visible { (line_count - visible) as usize } else { 0 }
}

impl BlogViewPage {
    /// A viewer waiting for its blog, in rendered mode.
    pub fn new() -> (p: Self)
        ensures
            p@ == (ViewState { blog: None, current_username: None, mode: ViewMode::Rendered, scroll: 0,
                max_scroll: 0, show_help: false, is_loading: true, error: None, success_message: None,
                show_success: false, show_error: false, is_uploading: false }),
    {
        BlogViewPage {
            blog: None,
            current_username: None,
            view_mode: ViewMode::Rendered,
            scroll_offset: 0,
            max_scroll: 0,
            show_help: false,
            is_loading: true,
            error: None,
            success_message: None,
            show_success: false,
            show_error: false,
            is_uploading: false,
        }
    }

    /// Records the name of the logged-in user.
    pub fn set_current_username(&mut self, username: String)
        ensures
            final(self)@ == (ViewState { current_username: Some(username@), ..old(self)@ }),
    {
        self.current_username = Some(username);
    }

    /// Shows a blog from its start.
    pub fn set_blog(&mut self, blog: BlogDetail)
        ensures
            final(self)@ == (ViewState { blog: Some(blog), is_loading: false, scroll: 0, ..old(self)@ }),
    {
        self.blog = Some(blog);
        self.is_loading = false;
        self.scroll_offset = 0;
    }

    /// Shows that the blog could not be loaded.
    pub fn set_error(&mut self, error: String)
        ensures
            final(self)@ == (ViewState { error: Some(error@), is_loading: false, ..old(self)@ }),
    {
        self.error = Some(error);
        self.is_loading = false;
    }

    /// Shows a success message; the upload is over.
    pub fn set_success(&mut self, message: String)
        ensures
            final(self)@ == (ViewState { success_message: Some(message@), show_success: true, is_uploading: false, ..old(self)@ }),
    {
        self.success_message = Some(message);
        self.show_success = true;
        self.is_uploading = false;
    }

    /// Shows that the upload failed; the upload is over.
    pub fn set_upload_error(&mut self, error: String)
        ensures
            final(self)@ == (ViewState { error: Some(error@), show_error: true, is_uploading: false, ..old(self)@ }),
    {
        self.error = Some(error);
        self.show_error = true;
        self.is_uploading = false;
    }

    /// Records whether an upload is running.
    pub fn set_uploading(&mut self, uploading: bool)
        ensures
            final(self)@ == (ViewState { is_uploading: uploading, ..old(self)@ }),
    {
        self.is_uploading = uploading;
    }

    /// Whether the blog shown belongs to the logged-in user.
    pub fn is_blog_owner(&self) -> (b: bool)
        ensures
            b == owns_blog(self@),
    {
        match (&self.blog, &self.current_username) {
            (Some(blog), Some(username)) => blog.author.username == *username,
            _ => false,
        }
    }

    /// The screen rows that `content` takes when wrapped at `width` columns.
    pub fn calculate_wrapped_lines(&self, content: &str, width: u16) -> (n: usize)
        requires
            content@.len() <= usize::MAX / 4,
        ensures
            n == wrapped_lines(content@, width),
    {
        let ls = lines_of(content);
        if width == 0 {
            return ls.len();
        }
        proof { lemma_lines_weight(content@); }
        let r = wrapped_rows(&ls, width as usize, Ghost((content@.len() + 1) as nat));
        if r >= 1 { r } else { 1 }
    }

    /// Records how many rows the blog takes and how many fit on screen,
    /// and brings the scroll offset within what fills the screen.
    pub fn update_scroll_limit(&mut self, line_count: usize, visible: usize)
        ensures
            final(self)@ == (ViewState {
                max_scroll: scroll_limit(line_count, visible),
                scroll: if old(self)@.scroll > scroll_limit(line_count, visible) { scroll_limit(line_count, visible) } else { old(self)@.scroll },
                ..old(self)@ }),
    {
        self.max_scroll = if line_count > visible { line_count - visible } else { 0 };
        if self.scroll_offset > self.max_scroll {
            self.scroll_offset = self.max_scroll;
        }
    }

    /// Fits the source view to a screen of `width` columns and `height`
    /// rows: the blog's text wrapped at that width gives how far it can
    /// scroll. Without a blog nothing changes.
    pub fn fit_source(&mut self, width: u16, height: u16)
        requires
            match old(self)@.blog {
                Some(b) => b.content@.len() <= usize::MAX / 4,
                None => true,
            },
        ensures
            match old(self)@.blog {
                Some(b) => {
                    let limit = scroll_limit(wrapped_lines(b.content@, width) as usize, height as usize);
                    final(self)@ == (ViewState {
                        max_scroll: limit,
                        scroll: if old(self)@.scroll > limit { limit } else { old(self)@.scroll },
                        ..old(self)@ })
                },
                None => final(self)@ == old(self)@,
            },
    {
        let count = match &self.blog {
            Some(blog) => self.calculate_wrapped_lines(blog.content.as_str(), width),
            None => return,
        };
        self.update_scroll_limit(count, height as usize);
    }

    /// Fits the rendered view to a screen of `height` rows: the rendered
    /// markdown gives how far it can scroll, and the lines that are on
    /// screen from the scroll offset on are returned. Without a blog
    /// nothing changes and no line is returned.
    pub fn fit_rendered(&mut self, height: u16) -> (shown: Vec<Vec<MarkdownSpan>>)
        ensures
            match old(self)@.blog {
                Some(b) => {
                    let all = styled(markdown_spans(b.content@));
                    let limit = scroll_limit(all.len() as usize, height as usize);
                    let from = if old(self)@.scroll > limit { limit } else { old(self)@.scroll };
                    &&& final(self)@ == (ViewState { max_scroll: limit, scroll: from, ..old(self)@ })
                    &&& lines_view(shown@) == all.subrange(from as int,
                        if from + height < all.len() { from + height } else { all.len() as int })
                },
                None => final(self)@ == old(self)@ && shown@.len() == 0,
            },
    {
        let mut rendered = match &self.blog {
            Some(blog) => MarkdownRenderer::render(blog.content.as_str()),
            None => return Vec::new(),
        };
        let ghost all = rendered@;
        self.update_scroll_limit(rendered.len(), height as usize);
        let mut shown = rendered.split_off(self.scroll_offset);
        shown.truncate(height as usize);
        assert(lines_view(shown@) =~= lines_view(all).subrange(self.scroll_offset as int,
            if self.scroll_offset + height < all.len() { self.scroll_offset + height } else { all.len() as int }));
        shown
    }

    fn handle_key(&mut self, key: KeyEvent) -> (a: BlogViewAction)
        ensures
            (final(self)@, a@) == view_key(old(self)@, key),
    {
        match key.code {
            KeyCode::Char(c) => {
                if c == '?' {
                    self.show_help = true;
                    BlogViewAction::Nothing
                } else if c == 'q' {
                    BlogViewAction::Back
                } else if c == 't' {
                    self.view_mode = match self.view_mode {
                        ViewMode::Source => ViewMode::Rendered,
                        ViewMode::Rendered => ViewMode::Source,
                    };
                    BlogViewAction::Nothing
                } else if c == 'j' {
                    if self.scroll_offset < self.max_scroll {
                        self.scroll_offset = self.scroll_offset + 1;
                    }
                    BlogViewAction::Nothing
                } else if c == 'k' {
                    self.scroll_offset = scrolled_up(self.scroll_offset);
                    BlogViewAction::Nothing
                } else if c == 'e' {
                    if self.is_blog_owner() {
                        match &self.blog {
                            Some(blog) => return BlogViewAction::EditBlog(blog.id.clone()),
                            None => {},
                        }
                    }
                    BlogViewAction::Nothing
                } else {
                    BlogViewAction::Nothing
                }
            },
            KeyCode::Esc => BlogViewAction::Back,
            KeyCode::Down => {
                if self.scroll_offset < self.max_scroll {
                    self.scroll_offset = self.scroll_offset + 1;
                }
                BlogViewAction::Nothing
            },
            KeyCode::Up => {
                self.scroll_offset = scrolled_up(self.scroll_offset);
                BlogViewAction::Nothing
            },
            KeyCode::F(n) => {
                if n == 10 && self.is_blog_owner() {
                    match &self.blog {
                        Some(blog) => return BlogViewAction::UploadBlog(blog.id.clone()),
                        None => {},
                    }
                }
                BlogViewAction::Nothing
            },
            _ => BlogViewAction::Nothing,
        }
    }

    /// Handles an event; see `view_step` for what it does.
    pub fn handle_event(&mut self, event: Event) -> (a: BlogViewAction)
        ensures
            (final(self)@, a@) == view_step(old(self)@, event),
    {
        if self.show_success {
            if let Event::Key(_) = event {
                self.show_success = false;
                self.success_message = None;
            }
            return BlogViewAction::Nothing;
        }
        if self.show_error {
            if let Event::Key(_) = event {
                self.show_error = false;
                self.error = None;
            }
            return BlogViewAction::Nothing;
        }
        if self.show_help {
            if is_help_close(&event) {
                self.show_help = false;
            }
            return BlogViewAction::Nothing;
        }
        match event {
            Event::Key(key) => self.handle_key(key),
            _ => BlogViewAction::Nothing,
        }
    }
}

/// The key hints of the viewer's footer; the author also gets edit and upload.
pub open spec fn view_hints(owner: bool) -> Seq<(Seq<char>, Seq<char>)> {
    if owner {
        seq![("↑/k"@, "上滚"@), ("↓/j"@, "下滚"@), ("t"@, "切换视图"@), ("e"@, "编辑"@), ("F10"@, "上传"@),
            ("q/Esc"@, "返回"@), ("?"@, "帮助"@)]
    } else {
        seq![("↑/k"@, "上滚"@), ("↓/j"@, "下滚"@), ("t"@, "切换视图"@), ("q/Esc"@, "返回"@), ("?"@, "帮助"@)]
    }
}

/// The keys that the viewer's help panel lists; the author also gets edit and upload.
pub open spec fn view_help(owner: bool) -> Seq<(Seq<char>, Seq<char>)> {
    let head = seq![("↑/k"@, "向上滚动"@), ("↓/j"@, "向下滚动"@), ("t"@, "切换源码/渲染视图"@)];
    let mid = if owner { seq![("e"@, "编辑当前博客"@), ("F10"@, "上传博客"@)] } else { Seq::empty() };
    head + mid + seq![("q/Esc"@, "返回"@), ("?"@, "显示/隐藏帮助"@)]
}

impl BlogViewPage {
    /// The footer: the blog's author and whether it is public, and the keys that work.
    pub fn footer(&self) -> (f: FooterBar)
        ensures
            f.info_view() == match self@.blog {
                Some(b) => seq!["作者: "@ + b.author.username@,
                    "可见: "@ + if b.visibility == Visibility::Public { "公开"@ } else { "私有"@ }],
                None => Seq::empty(),
            },
            f.hints_view() == view_hints(owns_blog(self@)),
    {
        let info = match &self.blog {
            Some(b) => {
                let mut author = owned("作者: ");
                author.append(b.author.username.as_str());
                let mut vis = owned("可见: ");
                vis.append(match b.visibility { Visibility::Public => "公开", Visibility::Private => "私有" });
                vec![author, vis]
            },
            None => Vec::new(),
        };
        let owner = self.is_blog_owner();
        let hints = if owner {
            hints_of(&[("↑/k", "上滚"), ("↓/j", "下滚"), ("t", "切换视图"), ("e", "编辑"), ("F10", "上传"),
                ("q/Esc", "返回"), ("?", "帮助")])
        } else {
            hints_of(&[("↑/k", "上滚"), ("↓/j", "下滚"), ("t", "切换视图"), ("q/Esc", "返回"), ("?", "帮助")])
        };
        assert(texts(info@) =~= match self@.blog {
            Some(b) => seq!["作者: "@ + b.author.username@,
                "可见: "@ + if b.visibility == Visibility::Public { "公开"@ } else { "私有"@ }],
            None => Seq::<Seq<char>>::empty(),
        });
        FooterBar::new().with_left_info(info).with_right_hints(hints)
    }

    /// The help panel of the viewer.
    pub fn help_panel(&self) -> (p: HelpPanel)
        ensures
            p.title_view() == "博客预览页帮助"@,
            p.items_view() == view_help(owns_blog(self@)),
    {
        let mut p = HelpPanel::new("博客预览页帮助")
            .add_item("↑/k", "向上滚动")
            .add_item("↓/j", "向下滚动")
            .add_item("t", "切换源码/渲染视图");
        if self.is_blog_owner() {
            p = p.add_item("e", "编辑当前博客").add_item("F10", "上传博客");
        }
        let p = p.add_item("q/Esc", "返回").add_item("?", "显示/隐藏帮助");
        assert(p.items_view() =~= view_help(owns_blog(self@)));
        p
    }

    /// The title of the page: `Antarctica-Blog: ` and the blog's title, once
    /// the blog is there.
    pub fn title_text(&self) -> (t: String)
        ensures
            t@ == match self@.blog {
                Some(b) => "Antarctica-Blog: "@ + b.title@,
                None => "Antarctica-Blog"@,
            },
    {
        match &self.blog {
            Some(b) => {
                let mut t = owned("Antarctica-Blog: ");
                t.append(b.title.as_str());
                t
            },
            None => owned("Antarctica-Blog"),
        }
    }

    /// The title of the content's frame, which names the way it is shown.
    pub fn mode_title(&self) -> (t: &str)
        ensures
            t@ == match self@.mode {
                ViewMode::Source => "源码模式"@,
                ViewMode::Rendered => "渲染模式"@,
            },
    {
        match self.view_mode {
            ViewMode::Source => "源码模式",
            ViewMode::Rendered => "渲染模式",
        }
    }

    /// The error dialog, while an upload error is shown; it reports code 0.
    pub fn error_dialog(&self) -> (d: Option<ErrorDialog>)
        ensures
            match self@.error {
                Some(e) if self@.show_error => d matches Some(dl)
                    && dl.code_view() == 0 && dl.message_view() == e && dl.detail_view() is None,
                _ => d is None,
            },
    {
        if self.show_error {
            match &self.error {
                Some(e) => Some(ErrorDialog::new(0, e.as_str())),
                None => None,
            }
        } else {
            None
        }
    }

    /// The success dialog, while it is shown.
    pub fn success_dialog(&self) -> (d: Option<SuccessDialog>)
        ensures
            match self@.success_message {
                Some(m) if self@.show_success => d matches Some(dl) && dl.title_view() == " 成功 "@ && dl.message_view() == m,
                _ => d is None,
            },
    {
        if self.show_success {
            match &self.success_message {
                Some(m) => Some(SuccessDialog::new(m.as_str())),
                None => None,
            }
        } else {
            None
        }
    }

    /// The loading dialog, while an upload runs.
    pub fn loading_dialog(&self) -> (d: Option<LoadingDialog>)
        ensures
            self@.is_uploading ==> (d matches Some(dl) && dl.message_view() == "正在上传..."@),
            !self@.is_uploading ==> d is None,
    {
        if self.is_uploading { Some(LoadingDialog::new("正在上传...")) } else { None }
    }

    /// The blog shown, once it is loaded.
    pub fn blog(&self) -> (b: Option<&BlogDetail>)
        ensures
            match self@.blog {
                Some(x) => b == Some(&x),
                None => b is None,
            },
    {
        match &self.blog {
            Some(x) => Some(x),
            None => None,
        }
    }

    /// The error, if any.
    pub fn error(&self) -> (e: Option<&str>)
        ensures
            match self@.error {
                Some(x) => e matches Some(t) && t@ == x,
                None => e is None,
            },
    {
        match &self.error {
            Some(x) => Some(x.as_str()),
            None => None,
        }
    }

    /// How the blog is shown.
    pub fn view_mode(&self) -> (m: ViewMode)
        ensures
            m == self@.mode,
    {
        self.view_mode
    }

    /// The scroll offset.
    pub fn scroll_offset(&self) -> (n: usize)
        ensures
            n == self@.scroll,
    {
        self.scroll_offset
    }

    /// Whether the blog is being loaded.
    pub fn is_loading(&self) -> (b: bool)
        ensures
            b == self@.is_loading,
    {
        self.is_loading
    }

    /// Whether the help panel is shown.
    pub fn show_help(&self) -> (b: bool)
        ensures
            b == self@.show_help,
    {
        self.show_help
    }
}

/// Every event keeps the scroll offset within what fills the screen, once
/// it is there.
pub proof fn lemma_view_scroll_in_range(s: ViewState, e: Event)
    requires
        s.scroll <= s.max_scroll,
    ensures
        view_step(s, e).0.scroll <= view_step(s, e).0.max_scroll,
{
}

/// Only the author of the blog is offered to edit or publish it.
pub proof fn lemma_only_owner_edits(s: ViewState, e: Event)
    requires
        !owns_blog(s),
    ensures
        !(view_step(s, e).1 is EditBlog),
        !(view_step(s, e).1 is UploadBlog),
{
}

/// A text wrapped at a non-zero width takes at least one row.
pub proof fn lemma_wrapped_at_least_one(content: Seq<char>, width: u16)
    requires
        width > 0,
    ensures
        wrapped_lines(content, width) >= 1,
{
}

proof fn lemma_ceil_div(d: int, w: int, q: int)
    requires
        d >= 1,
        w >= 1,
        q == (d + w - 1) / w,
    ensures
        q >= 1,
        q * w >= d,
        (q - 1) * w < d,
{
    assert(q * w >= d && (q - 1) * w < d && q >= 1) by (nonlinear_arith)
        requires d >= 1, w >= 1, q == (d + w - 1) / w;
}

/// A blog of one non-empty line, wrapped at a non-zero width, takes the
/// fewest rows of `width` columns that hold all its columns, where every
/// character takes one column and each character outside ASCII one more:
/// a line of `k` Chinese characters takes `ceil(2k / width)` rows.
pub proof fn lemma_one_line_rows(content: Seq<char>, width: u16)
    requires
        width > 0,
        content.len() > 0,
        forall|i: int| 0 <= i < content.len() ==> content[i] != '\n',
    ensures
        ({
            let columns = content.len() + content.filter(|c: char| is_wide(c)).len();
            let r = wrapped_lines(content, width);
            &&& r * width >= columns
            &&& (r - 1) * width < columns
        }),
{
    lemma_first_newline_bound(content);
    assert(first_newline(content) == content.len());
    assert(lines(content) =~= seq![content]);
    assert(seq![content].drop_last() =~= Seq::<Seq<char>>::empty());
    assert(rows(seq![content], width as nat) == line_rows(content, width as nat)) by {
        reveal_with_fuel(rows, 2);
        assert(seq![content].last() == content);
    }
    lemma_display_width_counts_wide(content);
    let d = display_width(content) as int;
    lemma_ceil_div(d, width as int, ((d + width - 1) as nat / (width as nat)) as int);
}

} // verus!
