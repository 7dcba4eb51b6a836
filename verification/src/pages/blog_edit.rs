//! The blog editor: a title and a markdown content edited in a vim-like
//! way, with a normal, an insert and a preview mode.

use vstd::prelude::*;
use vstd::string::*;
use crate::api::{BlogDetail, Visibility};
use crate::components::dialog::{ConfirmDialog, ErrorDialog, LoadingDialog, SuccessDialog, next_index, prev_index};
use crate::ui::{FooterBar, HelpPanel, hints_of, texts, text_pairs};
use crate::events::{Event, KeyCode, KeyEvent, closes_help, is_help_close};
use crate::pages::{scroll_down, scroll_up, scrolled_down, scrolled_up};
use crate::text::{owned, char_count, insert_char, remove_char, blank, is_blank, control_char, is_control_char,
    chars_of, char_width, char_display_width, display_width, lines, lines_of, decimal, decimal_string, push_char};

verus! {

/// The mode of the editor.
#[derive(Debug, Clone, Copy, PartialEq, Eq, Structural)]
pub enum EditMode {
    Normal,
    Insert,
    Preview,
}

/// Which field has the focus.
#[derive(Debug, Clone, Copy, PartialEq, Eq, Structural)]
pub enum FocusArea {
    Title,
    Content,
}

/// How the preview shows the content.
#[derive(Debug, Clone, Copy, PartialEq, Eq, Structural)]
pub enum PreviewMode {
    Source,
    Rendered,
}

/// The editor page.
pub struct BlogEditPage {
    blog_id: Option<String>,
    title: String,
    content: String,
    original_title: String,
    original_content: String,
    original_is_public: bool,
    is_public: bool,
    mode: EditMode,
    focus_area: FocusArea,
    preview_mode: PreviewMode,
    cursor_char_index: usize,
    scroll_offset: usize,
    title_char_index: usize,
    show_help: bool,
    is_loading: bool,
    is_saving: bool,
    error: Option<String>,
    success_message: Option<String>,
    show_success: bool,
    show_error: bool,
    show_confirm_exit: bool,
    confirm_exit_dialog: ConfirmDialog,
    is_new: bool,
}

/// What the application is asked to do after an event of the editor.
#[derive(Debug)]
pub enum BlogEditAction {
    Nothing,
    Back,
    SaveSuccess,
    Save { blog_id: Option<String>, title: String, content: String, is_public: bool, is_new: bool },
    Upload(String),
}

/// The state of the editor as plain values.
pub struct EditState {
    pub blog_id: Option<Seq<char>>,
    pub title: Seq<char>,
    pub content: Seq<char>,
    pub original_title: Seq<char>,
    pub original_content: Seq<char>,
    pub original_is_public: bool,
    pub is_public: bool,
    pub mode: EditMode,
    pub focus: FocusArea,
    pub preview: PreviewMode,
    pub cursor: usize,
    pub scroll: usize,
    pub title_cursor: usize,
    pub show_help: bool,
    pub is_loading: bool,
    pub is_saving: bool,
    pub error: Option<Seq<char>>,
    pub success_message: Option<Seq<char>>,
    pub show_success: bool,
    pub show_error: bool,
    pub show_confirm_exit: bool,
    pub confirm_selected: nat,
    pub confirm_title: Seq<char>,
    pub confirm_message: Seq<char>,
    pub confirm_options: Seq<Seq<char>>,
    pub is_new: bool,
}

/// An action of the editor as plain values.
pub enum EditOutcome {
    Nothing,
    Back,
    SaveSuccess,
    Save { blog_id: Option<Seq<char>>, title: Seq<char>, content: Seq<char>, is_public: bool, is_new: bool },
    Upload(Seq<char>),
}

/// An optional string as an optional character sequence.
pub open spec fn opt_view(o: Option<String>) -> Option<Seq<char>> {
    match o {
        Some(s) => Some(s@),
        None => None,
    }
}

impl View for BlogEditAction {
    type V = EditOutcome;

    open spec fn view(&self) -> EditOutcome {
        match self {
            BlogEditAction::Nothing => EditOutcome::Nothing,
            BlogEditAction::Back => EditOutcome::Back,
            BlogEditAction::SaveSuccess => EditOutcome::SaveSuccess,
            BlogEditAction::Save { blog_id, title, content, is_public, is_new } => EditOutcome::Save {
                blog_id: opt_view(*blog_id),
                title: title@,
                content: content@,
                is_public: *is_public,
                is_new: *is_new,
            },
            BlogEditAction::Upload(id) => EditOutcome::Upload(id@),
        }
    }
}

impl View for BlogEditPage {
    type V = EditState;

    closed spec fn view(&self) -> EditState {
        EditState {
            blog_id: opt_view(self.blog_id),
            title: self.title@,
            content: self.content@,
            original_title: self.original_title@,
            original_content: self.original_content@,
            original_is_public: self.original_is_public,
            is_public: self.is_public,
            mode: self.mode,
            focus: self.focus_area,
            preview: self.preview_mode,
            cursor: self.cursor_char_index,
            scroll: self.scroll_offset,
            title_cursor: self.title_char_index,
            show_help: self.show_help,
            is_loading: self.is_loading,
            is_saving: self.is_saving,
            error: opt_view(self.error),
            success_message: opt_view(self.success_message),
            show_success: self.show_success,
            show_error: self.show_error,
            show_confirm_exit: self.show_confirm_exit,
            confirm_selected: self.confirm_exit_dialog.selected_view(),
            confirm_title: self.confirm_exit_dialog.title_view(),
            confirm_message: self.confirm_exit_dialog.message_view(),
            confirm_options: self.confirm_exit_dialog.options_view(),
            is_new: self.is_new,
        }
    }
}

/// The cursors of the title and of the content stay within their texts.
pub open spec fn cursors_in_range(s: EditState) -> bool {
    &&& s.title_cursor <= s.title.len()
    &&& s.cursor <= s.content.len()
    &&& s.confirm_selected < 2
}

/// The texts are short enough that a cursor can move one past their end.
pub open spec fn within_limits(s: EditState) -> bool {
    &&& s.title.len() < usize::MAX
    &&& s.content.len() < usize::MAX
}

/// Whether the title, the content or the visibility differ from what was loaded.
pub open spec fn unsaved(s: EditState) -> bool {
    s.title != s.original_title || s.content != s.original_content || s.is_public != s.original_is_public
}

/// The title of the dialog that confirms leaving the editor.
pub open spec fn exit_title() -> Seq<char> {
    " 确认退出 "@
}

/// The message of the dialog that confirms leaving the editor.
pub open spec fn exit_message() -> Seq<char> {
    "确定要退出编辑吗？未保存的更改将丢失。"@
}

/// The message given when saving with a blank title.
pub open spec fn empty_title_message() -> Seq<char> {
    "标题不能为空"@
}

/// The message given when uploading a blog that was never saved.
pub open spec fn unsaved_upload_message() -> Seq<char> {
    "请先保存博客后再上传"@
}

/// Saving: refused with a message when the title is blank, else the
/// title, content and visibility are handed over.
pub open spec fn save_step(s: EditState) -> (EditState, EditOutcome) {
    if is_blank(s.title) {
        (EditState { error: Some(empty_title_message()), ..s }, EditOutcome::Nothing)
    } else {
        (s, EditOutcome::Save {
            blog_id: s.blog_id,
            title: s.title,
            content: s.content,
            is_public: s.is_public,
            is_new: s.is_new,
        })
    }
}

/// The other field than `f`.
pub open spec fn other_focus(f: FocusArea) -> FocusArea {
    match f {
        FocusArea::Title => FocusArea::Content,
        FocusArea::Content => FocusArea::Title,
    }
}

/// A key in normal mode.
pub open spec fn normal_step(s: EditState, k: KeyEvent) -> (EditState, EditOutcome) {
    match k.code {
        KeyCode::Char(c) => {
            if c == '?' {
                (EditState { show_help: true, ..s }, EditOutcome::Nothing)
            } else if c == 'i' {
                (EditState { mode: EditMode::Insert, ..s }, EditOutcome::Nothing)
            } else if c == 'p' {
                (EditState { is_public: !s.is_public, ..s }, EditOutcome::Nothing)
            } else if c == 'j' {
                (EditState { scroll: if s.focus == FocusArea::Content { scroll_down(s.scroll) } else { s.scroll }, ..s }, EditOutcome::Nothing)
            } else if c == 'k' {
                (EditState { scroll: if s.focus == FocusArea::Content { scroll_up(s.scroll) } else { s.scroll }, ..s }, EditOutcome::Nothing)
            } else if c == 's' {
                if k.control { save_step(s) } else { (s, EditOutcome::Nothing) }
            } else if c == 't' {
                (EditState { mode: EditMode::Preview, scroll: 0, ..s }, EditOutcome::Nothing)
            } else {
                (s, EditOutcome::Nothing)
            }
        },
        KeyCode::Esc => {
            if unsaved(s) {
                (EditState { show_confirm_exit: true, ..s }, EditOutcome::Nothing)
            } else {
                (s, EditOutcome::Back)
            }
        },
        KeyCode::Tab => (EditState { focus: other_focus(s.focus), ..s }, EditOutcome::Nothing),
        KeyCode::Down => (EditState { scroll: if s.focus == FocusArea::Content { scroll_down(s.scroll) } else { s.scroll }, ..s }, EditOutcome::Nothing),
        KeyCode::Up => (EditState { scroll: if s.focus == FocusArea::Content { scroll_up(s.scroll) } else { s.scroll }, ..s }, EditOutcome::Nothing),
        KeyCode::F(n) => if n == 10 { save_step(s) } else { (s, EditOutcome::Nothing) },
        _ => (s, EditOutcome::Nothing),
    }
}

/// The position at which a typed character goes: the cursor, held at the end of the text.
pub open spec fn insert_position(cursor: usize, text: Seq<char>) -> usize {
    if cursor <= text.len() { cursor } else { text.len() as usize }
}

/// A character typed at the cursor of a text: the new text and cursor.
pub open spec fn type_char(text: Seq<char>, cursor: usize, c: char) -> (Seq<char>, usize) {
    let pos = insert_position(cursor, text);
    (text.insert(pos as int, c), (pos + 1) as usize)
}

/// Backspace at the cursor of a text: the new text and cursor.
pub open spec fn backspace(text: Seq<char>, cursor: usize) -> (Seq<char>, usize) {
    if text.len() > 0 && cursor > 0 {
        (if cursor <= text.len() { text.remove(cursor - 1) } else { text }, (cursor - 1) as usize)
    } else {
        (text, cursor)
    }
}

/// The cursor moved one character right, held at the end of the text.
pub open spec fn cursor_right(cursor: usize, text: Seq<char>) -> usize {
    if cursor + 1 <= text.len() { (cursor + 1) as usize } else { text.len() as usize }
}

/// A key that edits a text or moves its cursor: backspace, a typed
/// character (control characters are ignored), left and right.
pub open spec fn text_key(text: Seq<char>, cursor: usize, code: KeyCode) -> (Seq<char>, usize) {
    match code {
        KeyCode::Backspace => backspace(text, cursor),
        KeyCode::Char(c) => if is_control_char(c) { (text, cursor) } else { type_char(text, cursor, c) },
        KeyCode::Left => (text, scroll_up(cursor)),
        KeyCode::Right => (text, cursor_right(cursor, text)),
        _ => (text, cursor),
    }
}

/// Whether a key edits a text or moves its cursor.
pub open spec fn is_text_key(code: KeyCode) -> bool {
    code is Backspace || code is Char || code is Left || code is Right
}

/// A key in insert mode.
pub open spec fn insert_step(s: EditState, k: KeyEvent) -> EditState {
    let on_title = s.focus == FocusArea::Title;
    if is_text_key(k.code) {
        if on_title {
            EditState { title: text_key(s.title, s.title_cursor, k.code).0, title_cursor: text_key(s.title, s.title_cursor, k.code).1, ..s }
        } else {
            EditState { content: text_key(s.content, s.cursor, k.code).0, cursor: text_key(s.content, s.cursor, k.code).1, ..s }
        }
    } else {
        match k.code {
            KeyCode::Esc => EditState { mode: EditMode::Normal, ..s },
            KeyCode::Enter => if on_title { s } else {
                EditState { content: s.content.push('\n'), cursor: (s.cursor + 1) as usize, ..s }
            },
            KeyCode::Down => if k.control && !on_title { EditState { scroll: scroll_down(s.scroll), ..s } } else { s },
            KeyCode::Up => if k.control && !on_title { EditState { scroll: scroll_up(s.scroll), ..s } } else { s },
            _ => s,
        }
    }
}

/// Applies a text key to a text and its cursor.
fn edit_text(text: &String, cursor: usize, code: KeyCode) -> (r: (String, usize))
    requires
        is_text_key(code),
        cursor <= text@.len(),
        text@.len() < usize::MAX,
    ensures
        (r.0@, r.1) == text_key(text@, cursor, code),
        r.1 <= r.0@.len(),
{
    match code {
        KeyCode::Backspace => {
            if !text.as_str().is_empty() && cursor > 0 {
                let count = char_count(text.as_str());
                if cursor <= count {
                    (remove_char(text.as_str(), cursor - 1), cursor - 1)
                } else {
                    (text.clone(), cursor - 1)
                }
            } else {
                (text.clone(), cursor)
            }
        },
        KeyCode::Char(c) => {
            if control_char(c) {
                (text.clone(), cursor)
            } else {
                let count = char_count(text.as_str());
                let pos = if cursor <= count { cursor } else { count };
                (insert_char(text.as_str(), pos, c), pos + 1)
            }
        },
        KeyCode::Left => (text.clone(), scrolled_up(cursor)),
        _ => {
            let count = char_count(text.as_str());
            (text.clone(), if cursor + 1 <= count { cursor + 1 } else { count })
        },
    }
}

/// The other way of showing the content than `p`.
pub open spec fn other_preview(p: PreviewMode) -> PreviewMode {
    match p {
        PreviewMode::Source => PreviewMode::Rendered,
        PreviewMode::Rendered => PreviewMode::Source,
    }
}

/// A key in preview mode.
pub open spec fn preview_step(s: EditState, k: KeyEvent) -> (EditState, EditOutcome) {
    match k.code {
        KeyCode::Esc => (EditState { mode: EditMode::Normal, ..s }, EditOutcome::Nothing),
        KeyCode::Char(c) => {
            if c == '?' {
                (EditState { show_help: true, ..s }, EditOutcome::Nothing)
            } else if c == 'j' {
                (EditState { scroll: scroll_down(s.scroll), ..s }, EditOutcome::Nothing)
            } else if c == 'k' {
                (EditState { scroll: scroll_up(s.scroll), ..s }, EditOutcome::Nothing)
            } else if c == 't' {
                (EditState { preview: other_preview(s.preview), scroll: 0, ..s }, EditOutcome::Nothing)
            } else {
                (s, EditOutcome::Nothing)
            }
        },
        KeyCode::Down => (EditState { scroll: scroll_down(s.scroll), ..s }, EditOutcome::Nothing),
        KeyCode::Up => (EditState { scroll: scroll_up(s.scroll), ..s }, EditOutcome::Nothing),
        KeyCode::F(n) => if n != 10 { (s, EditOutcome::Nothing) } else {
            match s.blog_id {
                Some(id) => (s, EditOutcome::Upload(id)),
                None => (EditState { error: Some(unsaved_upload_message()), ..s }, EditOutcome::Nothing),
            }
        },
        _ => (s, EditOutcome::Nothing),
    }
}

/// An event while the dialog that confirms leaving is shown.
pub open spec fn confirm_exit_step(s: EditState, e: Event) -> (EditState, EditOutcome) {
    match e {
        Event::Key(k) => match k.code {
            KeyCode::Left => (EditState { confirm_selected: prev_index(s.confirm_selected), ..s }, EditOutcome::Nothing),
            KeyCode::Right => (EditState { confirm_selected: next_index(s.confirm_selected), ..s }, EditOutcome::Nothing),
            KeyCode::Enter => (EditState { show_confirm_exit: false, ..s },
                if s.confirm_selected == 1 { EditOutcome::Back } else { EditOutcome::Nothing }),
            KeyCode::Esc => (EditState { show_confirm_exit: false, ..s }, EditOutcome::Nothing),
            _ => (s, EditOutcome::Nothing),
        },
        _ => (s, EditOutcome::Nothing),
    }
}

/// What the editor does with an event: a shown success message is closed
/// by any key; a shown error is closed by any key, which then goes on to
/// act; then the exit confirmation, the help panel and a running save take
/// the event before the mode of the editor does.
pub open spec fn edit_step(s: EditState, e: Event) -> (EditState, EditOutcome) {
    if s.show_success {
        if e is Key {
            (EditState { show_success: false, success_message: None, ..s }, EditOutcome::SaveSuccess)
        } else {
            (s, EditOutcome::Nothing)
        }
    } else if s.show_error && !(e is Key) {
        (s, EditOutcome::Nothing)
    } else {
        let s1 = if s.show_error { EditState { show_error: false, error: None, ..s } } else { s };
        if s1.show_confirm_exit {
            confirm_exit_step(s1, e)
        } else if s1.show_help {
            if closes_help(e) { (EditState { show_help: false, ..s1 }, EditOutcome::Nothing) } else { (s1, EditOutcome::Nothing) }
        } else if s1.is_saving {
            (s1, EditOutcome::Nothing)
        } else {
            match e {
                Event::Key(k) => match s1.mode {
                    EditMode::Normal => normal_step(s1, k),
                    EditMode::Insert => (insert_step(s1, k), EditOutcome::Nothing),
                    EditMode::Preview => preview_step(s1, k),
                },
                _ => (s1, EditOutcome::Nothing),
            }
        }
    }
}

/// A fresh editor state holding the given texts, in normal mode with the
/// title focused.
pub open spec fn fresh_state(blog_id: Option<Seq<char>>, title: Seq<char>, content: Seq<char>, is_public: bool, is_new: bool) -> EditState {
    EditState {
        blog_id,
        title,
        content,
        original_title: title,
        original_content: content,
        original_is_public: is_public,
        is_public,
        mode: EditMode::Normal,
        focus: FocusArea::Title,
        preview: PreviewMode::Rendered,
        cursor: 0,
        scroll: 0,
        title_cursor: 0,
        show_help: false,
        is_loading: false,
        is_saving: false,
        error: None,
        success_message: None,
        show_success: false,
        show_error: false,
        show_confirm_exit: false,
        confirm_selected: 1,
        confirm_title: exit_title(),
        confirm_message: exit_message(),
        confirm_options: seq!["否"@, "是"@],
        is_new,
    }
}

fn opt_clone(o: &Option<String>) -> (r: Option<String>)
    ensures
        r == *o,
{
    match o {
        Some(s) => Some(s.clone()),
        None => None,
    }
}

impl BlogEditPage {
    #[verifier::type_invariant]
    spec fn cursors_ok(&self) -> bool {
        &&& self.title_char_index <= self.title@.len()
        &&& self.cursor_char_index <= self.content@.len()
    }

    fn exit_dialog() -> (d: ConfirmDialog)
        ensures
            d.selected_view() == 1,
            d.title_view() == exit_title(),
            d.message_view() == exit_message(),
            d.options_view() == seq!["否"@, "是"@],
    {
        ConfirmDialog::new(" 确认退出 ", "确定要退出编辑吗？未保存的更改将丢失。")
    }

    /// An editor for a new blog.
    pub fn new() -> (p: Self)
        ensures
            p@ == fresh_state(None, Seq::empty(), Seq::empty(), false, true),
    {
        BlogEditPage {
            blog_id: None,
            title: String::new(),
            content: String::new(),
            original_title: String::new(),
            original_content: String::new(),
            original_is_public: false,
            is_public: false,
            mode: EditMode::Normal,
            focus_area: FocusArea::Title,
            preview_mode: PreviewMode::Rendered,
            cursor_char_index: 0,
            scroll_offset: 0,
            title_char_index: 0,
            show_help: false,
            is_loading: false,
            is_saving: false,
            error: None,
            success_message: None,
            show_success: false,
            show_error: false,
            show_confirm_exit: false,
            confirm_exit_dialog: Self::exit_dialog(),
            is_new: true,
        }
    }

    /// An editor for an existing blog.
    pub fn new_for_edit(blog: BlogDetail) -> (p: Self)
        ensures
            p@ == fresh_state(Some(blog.id@), blog.title@, blog.content@,
                blog.visibility == Visibility::Public, false),
    {
        let public = match blog.visibility {
            Visibility::Public => true,
            Visibility::Private => false,
        };
        BlogEditPage {
            blog_id: Some(blog.id.clone()),
            title: blog.title.clone(),
            content: blog.content.clone(),
            original_title: blog.title,
            original_content: blog.content,
            original_is_public: public,
            is_public: public,
            mode: EditMode::Normal,
            focus_area: FocusArea::Title,
            preview_mode: PreviewMode::Rendered,
            cursor_char_index: 0,
            scroll_offset: 0,
            title_char_index: 0,
            show_help: false,
            is_loading: false,
            is_saving: false,
            error: None,
            success_message: None,
            show_success: false,
            show_error: false,
            show_confirm_exit: false,
            confirm_exit_dialog: Self::exit_dialog(),
            is_new: false,
        }
    }

    /// Records whether a save is running.
    pub fn set_saving(&mut self, saving: bool)
        ensures
            final(self)@ == (EditState { is_saving: saving, ..old(self)@ }),
    {
        proof { use_type_invariant(&*self); }
        self.is_saving = saving;
    }

    /// Shows an error; the save is over.
    pub fn set_error(&mut self, error: String)
        ensures
            final(self)@ == (EditState { error: Some(error@), show_error: true, is_saving: false, ..old(self)@ }),
    {
        proof { use_type_invariant(&*self); }
        self.error = Some(error);
        self.show_error = true;
        self.is_saving = false;
    }

    /// Shows a success message; the save is over.
    pub fn set_success(&mut self, message: String)
        ensures
            final(self)@ == (EditState { success_message: Some(message@), show_success: true, is_saving: false, ..old(self)@ }),
    {
        proof { use_type_invariant(&*self); }
        self.success_message = Some(message);
        self.show_success = true;
        self.is_saving = false;
    }

    /// Whether the title, content or visibility differ from what was loaded.
    pub fn has_unsaved_changes(&self) -> (b: bool)
        ensures
            b == unsaved(self@),
    {
        !(self.title == self.original_title) || !(self.content == self.original_content)
            || self.is_public != self.original_is_public
    }

    /// Whether the texts are short enough for the editor to handle another key.
    pub fn fits_limits(&self) -> (b: bool)
        ensures
            b == within_limits(self@),
    {
        char_count(self.title.as_str()) < usize::MAX && char_count(self.content.as_str()) < usize::MAX
    }

    /// Every editor keeps its cursors within its texts, and the exit
    /// confirmation on one of its two options: a check that costs nothing.
    pub fn cursors_within_texts(&self)
        ensures
            cursors_in_range(self@),
    {
        proof { use_type_invariant(self); }
        let _ = self.confirm_exit_dialog.selected();
    }

    fn save_blog(&mut self) -> (a: BlogEditAction)
        ensures
            (final(self)@, a@) == save_step(old(self)@),
    {
        proof { use_type_invariant(&*self); }
        if blank(self.title.as_str()) {
            self.error = Some(owned("标题不能为空"));
            return BlogEditAction::Nothing;
        }
        BlogEditAction::Save {
            blog_id: opt_clone(&self.blog_id),
            title: self.title.clone(),
            content: self.content.clone(),
            is_public: self.is_public,
            is_new: self.is_new,
        }
    }

    #[verifier::rlimit(100)]
    fn handle_normal_mode(&mut self, key: KeyEvent) -> (a: BlogEditAction)
        ensures
            (final(self)@, a@) == normal_step(old(self)@, key),
    {
        proof { use_type_invariant(&*self); }
        match key.code {
            KeyCode::Char(c) => {
                if c == '?' {
                    self.show_help = true;
                    BlogEditAction::Nothing
                } else if c == 'i' {
                    self.mode = EditMode::Insert;
                    BlogEditAction::Nothing
                } else if c == 'p' {
                    self.is_public = !self.is_public;
                    BlogEditAction::Nothing
                } else if c == 'j' {
                    if self.focus_area == FocusArea::Content {
                        self.scroll_offset = scrolled_down(self.scroll_offset);
                    }
                    BlogEditAction::Nothing
                } else if c == 'k' {
                    if self.focus_area == FocusArea::Content {
                        self.scroll_offset = scrolled_up(self.scroll_offset);
                    }
                    BlogEditAction::Nothing
                } else if c == 's' {
                    if key.control {
                        return self.save_blog();
                    }
                    BlogEditAction::Nothing
                } else if c == 't' {
                    self.mode = EditMode::Preview;
                    self.scroll_offset = 0;
                    BlogEditAction::Nothing
                } else {
                    BlogEditAction::Nothing
                }
            },
            KeyCode::Esc => {
                if self.has_unsaved_changes() {
                    self.show_confirm_exit = true;
                    BlogEditAction::Nothing
                } else {
                    BlogEditAction::Back
                }
            },
            KeyCode::Tab => {
                self.focus_area = match self.focus_area {
                    FocusArea::Title => FocusArea::Content,
                    FocusArea::Content => FocusArea::Title,
                };
                BlogEditAction::Nothing
            },
            KeyCode::Down => {
                if self.focus_area == FocusArea::Content {
                    self.scroll_offset = scrolled_down(self.scroll_offset);
                }
                BlogEditAction::Nothing
            },
            KeyCode::Up => {
                if self.focus_area == FocusArea::Content {
                    self.scroll_offset = scrolled_up(self.scroll_offset);
                }
                BlogEditAction::Nothing
            },
            KeyCode::F(n) => {
                if n == 10 {
                    return self.save_blog();
                }
                BlogEditAction::Nothing
            },
            _ => BlogEditAction::Nothing,
        }
    }

    #[verifier::spinoff_prover]
    #[verifier::rlimit(60)]
    fn handle_insert_mode(&mut self, key: KeyEvent)
        requires
            within_limits(old(self)@),
        ensures
            final(self)@ == insert_step(old(self)@, key),
    {
        proof { use_type_invariant(&*self); }
        let on_title = self.focus_area == FocusArea::Title;
        if Self::text_key_code(key.code) {
            if on_title {
                let (t, c) = edit_text(&self.title, self.title_char_index, key.code);
                self.title_char_index = 0;
                self.title = t;
                self.title_char_index = c;
            } else {
                let (t, c) = edit_text(&self.content, self.cursor_char_index, key.code);
                self.cursor_char_index = 0;
                self.content = t;
                self.cursor_char_index = c;
            }
            return;
        }
        match key.code {
            KeyCode::Esc => {
                self.mode = EditMode::Normal;
            },
            KeyCode::Enter => {
                if !on_title {
                    let mut content = self.content.clone();
                    crate::text::push_char(&mut content, '\n');
                    self.content = content;
                    self.cursor_char_index = self.cursor_char_index + 1;
                }
            },
            KeyCode::Down => {
                if key.control && !on_title {
                    self.scroll_offset = scrolled_down(self.scroll_offset);
                }
            },
            KeyCode::Up => {
                if key.control && !on_title {
                    self.scroll_offset = scrolled_up(self.scroll_offset);
                }
            },
            _ => {},
        }
    }

    fn text_key_code(code: KeyCode) -> (b: bool)
        ensures
            b == is_text_key(code),
    {
        match code {
            KeyCode::Backspace | KeyCode::Char(_) | KeyCode::Left | KeyCode::Right => true,
            _ => false,
        }
    }

    #[verifier::rlimit(100)]
    fn handle_preview_mode(&mut self, key: KeyEvent) -> (a: BlogEditAction)
        ensures
            (final(self)@, a@) == preview_step(old(self)@, key),
    {
        proof { use_type_invariant(&*self); }
        match key.code {
            KeyCode::Esc => {
                self.mode = EditMode::Normal;
                BlogEditAction::Nothing
            },
            KeyCode::Char(c) => {
                if c == '?' {
                    self.show_help = true;
                } else if c == 'j' {
                    self.scroll_offset = scrolled_down(self.scroll_offset);
                } else if c == 'k' {
                    self.scroll_offset = scrolled_up(self.scroll_offset);
                } else if c == 't' {
                    self.preview_mode = match self.preview_mode {
                        PreviewMode::Source => PreviewMode::Rendered,
                        PreviewMode::Rendered => PreviewMode::Source,
                    };
                    self.scroll_offset = 0;
                }
                BlogEditAction::Nothing
            },
            KeyCode::Down => {
                self.scroll_offset = scrolled_down(self.scroll_offset);
                BlogEditAction::Nothing
            },
            KeyCode::Up => {
                self.scroll_offset = scrolled_up(self.scroll_offset);
                BlogEditAction::Nothing
            },
            KeyCode::F(n) => {
                if n != 10 {
                    return BlogEditAction::Nothing;
                }
                match &self.blog_id {
                    Some(id) => BlogEditAction::Upload(id.clone()),
                    None => {
                        self.error = Some(owned("请先保存博客后再上传"));
                        BlogEditAction::Nothing
                    },
                }
            },
            _ => BlogEditAction::Nothing,
        }
    }

    fn handle_confirm_exit_event(&mut self, event: Event) -> (a: BlogEditAction)
        ensures
            (final(self)@, a@) == confirm_exit_step(old(self)@, event),
    {
        proof { use_type_invariant(&*self); }
        match event {
            Event::Key(key) => match key.code {
                KeyCode::Left => {
                    self.confirm_exit_dialog.prev_option();
                    BlogEditAction::Nothing
                },
                KeyCode::Right => {
                    self.confirm_exit_dialog.next_option();
                    BlogEditAction::Nothing
                },
                KeyCode::Enter => {
                    self.show_confirm_exit = false;
                    if self.confirm_exit_dialog.is_confirmed() {
                        BlogEditAction::Back
                    } else {
                        BlogEditAction::Nothing
                    }
                },
                KeyCode::Esc => {
                    self.show_confirm_exit = false;
                    BlogEditAction::Nothing
                },
                _ => BlogEditAction::Nothing,
            },
            _ => BlogEditAction::Nothing,
        }
    }

    /// Handles an event; see `edit_step` for what it does.
    pub fn handle_event(&mut self, event: Event) -> (a: BlogEditAction)
        requires
            within_limits(old(self)@),
        ensures
            (final(self)@, a@) == edit_step(old(self)@, event),
    {
        proof { use_type_invariant(&*self); }
        if self.show_success {
            match event {
                Event::Key(_) => {
                    self.show_success = false;
                    self.success_message = None;
                    return BlogEditAction::SaveSuccess;
                },
                _ => return BlogEditAction::Nothing,
            }
        }
        if self.show_error {
            match event {
                Event::Key(_) => {
                    self.show_error = false;
                    self.error = None;
                },
                _ => return BlogEditAction::Nothing,
            }
        }
        if self.show_confirm_exit {
            return self.handle_confirm_exit_event(event);
        }
        if self.show_help {
            if is_help_close(&event) {
                self.show_help = false;
            }
            return BlogEditAction::Nothing;
        }
        if self.is_saving {
            return BlogEditAction::Nothing;
        }
        match event {
            Event::Key(key) => match self.mode {
                EditMode::Normal => self.handle_normal_mode(key),
                EditMode::Insert => {
                    self.handle_insert_mode(key);
                    BlogEditAction::Nothing
                },
                EditMode::Preview => self.handle_preview_mode(key),
            },
            _ => BlogEditAction::Nothing,
        }
    }
}


proof fn lemma_text_key_keeps_cursor(text: Seq<char>, cursor: usize, code: KeyCode)
    requires
        cursor <= text.len(),
        text.len() < usize::MAX,
    ensures
        text_key(text, cursor, code).1 <= text_key(text, cursor, code).0.len(),
{
}

proof fn lemma_normal_keeps_cursors(s: EditState, k: KeyEvent)
    requires
        cursors_in_range(s),
    ensures
        cursors_in_range(normal_step(s, k).0),
{
    assert(cursors_in_range(save_step(s).0));
}

proof fn lemma_preview_keeps_cursors(s: EditState, k: KeyEvent)
    requires
        cursors_in_range(s),
    ensures
        cursors_in_range(preview_step(s, k).0),
{
}

proof fn lemma_insert_keeps_cursors(s: EditState, k: KeyEvent)
    requires
        cursors_in_range(s),
        within_limits(s),
    ensures
        cursors_in_range(insert_step(s, k)),
{
    lemma_text_key_keeps_cursor(s.title, s.title_cursor, k.code);
    lemma_text_key_keeps_cursor(s.content, s.cursor, k.code);
}

/// In insert mode, with the cursors within the texts: every key keeps them
/// there and hands nothing over; Esc only leaves insert mode; a typed
/// character goes in at the cursor of the focused field, which moves past
/// it, and leaves the other field alone; and backspace after it gives the
/// editor back.
pub proof fn lemma_insert_mode_keys(s: EditState, k: KeyEvent, c: char, back: KeyEvent)
    requires
        s.mode == EditMode::Insert,
        cursors_in_range(s),
        within_limits(s),
    ensures
        cursors_in_range(insert_step(s, k)),
        ready(s) ==> edit_step(s, Event::Key(k)) == (insert_step(s, k), EditOutcome::Nothing),
        k.code == KeyCode::Esc ==> insert_step(s, k) == (EditState { mode: EditMode::Normal, ..s }),
        k.code == KeyCode::Char(c) && !is_control_char(c) && s.focus == FocusArea::Title ==> {
            let t = insert_step(s, k);
            &&& t.title == s.title.insert(s.title_cursor as int, c)
            &&& t.title_cursor == s.title_cursor + 1
            &&& t.content == s.content && t.cursor == s.cursor
        },
        k.code == KeyCode::Char(c) && !is_control_char(c) && s.focus == FocusArea::Content ==> {
            let t = insert_step(s, k);
            &&& t.content == s.content.insert(s.cursor as int, c)
            &&& t.cursor == s.cursor + 1
            &&& t.title == s.title && t.title_cursor == s.title_cursor
        },
        k.code == KeyCode::Char(c) && !is_control_char(c) && back.code == KeyCode::Backspace ==>
            insert_step(insert_step(s, k), back) == s,
{
    lemma_insert_keeps_cursors(s, k);
    lemma_type_then_backspace(s.title, s.title_cursor, c);
    lemma_type_then_backspace(s.content, s.cursor, c);
}

/// Where the end of a text stands: the newlines it holds, and the columns
/// after the last of them.
pub open spec fn end_position(t: Seq<char>) -> (nat, nat)
    decreases t.len(),
{
    if t.len() == 0 {
        (0, 0)
    } else {
        let p = end_position(t.drop_last());
        if t.last() == '\n' { (p.0 + 1, 0) } else { (p.0, p.1 + char_width(t.last())) }
    }
}

/// The smaller of two integers.
pub open spec fn min_int(a: int, b: int) -> int {
    if a < b { a } else { b }
}

/// The lines the content counts, at least one.
pub open spec fn content_line_count(content: Seq<char>) -> nat {
    if lines(content).len() > 1 { lines(content).len() } else { 1 }
}

/// The scroll offset of the content on a screen of `visible` rows: the
/// editor's offset, held where the last line is at the bottom.
pub open spec fn content_scroll_at(s: EditState, visible: usize) -> int {
    let n = content_line_count(s.content);
    let limit: int = if n > visible { n - visible } else { 0 };
    min_int(s.scroll as int, limit)
}

/// Where the cursor of the content stands in its frame of `width` columns
/// and `height` rows, scrolled by `scroll` lines: shown only while the
/// content is edited and not empty, and kept inside the frame.
pub open spec fn content_cursor_at(s: EditState, scroll: usize, width: u16, height: u16) -> Option<(u16, u16)> {
    if s.focus == FocusArea::Content && s.mode == EditMode::Insert && s.content.len() > 0 {
        let p = end_position(s.content.take(min_int(s.cursor as int, s.content.len() as int)));
        let row: int = if p.0 > scroll { p.0 - scroll } else { 0 };
        let wmax: int = if width > 0 { width - 1 } else { 0 };
        let hmax: int = if height > 0 { height - 1 } else { 0 };
        Some((min_int(p.1 as int, wmax) as u16, min_int(row, hmax) as u16))
    } else {
        None
    }
}

/// The column of the title's cursor, counted in 16 bits as the terminal
/// takes it: shown only while the title is edited and not empty.
pub open spec fn title_cursor_at(s: EditState) -> Option<u16> {
    if s.focus == FocusArea::Title && s.mode == EditMode::Insert && s.title.len() > 0 {
        Some((display_width(s.title.take(min_int(s.title_cursor as int, s.title.len() as int))) % 0x10000) as u16)
    } else {
        None
    }
}

/// What a field shows: its text, or when it is empty a prompt, which
/// depends on whether it has the focus and on the mode.
pub open spec fn field_display(text: Seq<char>, focused: bool, mode: EditMode, other_prompt: Seq<char>) -> Seq<char> {
    if text.len() > 0 {
        text
    } else if focused && mode == EditMode::Normal {
        "按 i 开始编辑"@
    } else if focused {
        Seq::empty()
    } else {
        other_prompt
    }
}

/// A text padded on the left with spaces to `w` characters.
pub open spec fn right_aligned(t: Seq<char>, w: nat) -> Seq<char> {
    if t.len() >= w { t } else { Seq::new((w - t.len()) as nat, |i: int| ' ') + t }
}

/// How a field's frame is drawn: being edited, focused, or neither.
#[derive(Debug, Clone, Copy, PartialEq, Eq, Structural)]
pub enum FieldTone {
    Editing,
    Focused,
    Idle,
}

/// The tone of a field's frame.
pub open spec fn tone_of(s: EditState, area: FocusArea) -> FieldTone {
    if s.focus == area {
        if s.mode == EditMode::Insert { FieldTone::Editing } else { FieldTone::Focused }
    } else {
        FieldTone::Idle
    }
}

/// The name of a mode in the footer.
pub open spec fn mode_name(m: EditMode) -> Seq<char> {
    match m {
        EditMode::Normal => "浏览"@,
        EditMode::Insert => "编辑"@,
        EditMode::Preview => "预览"@,
    }
}

/// The key hints of the editor's footer: those of the preview, or those of
/// editing, with upload once the blog has been saved.
pub open spec fn edit_hints(s: EditState) -> Seq<(Seq<char>, Seq<char>)> {
    if s.mode == EditMode::Preview {
        seq![("↑/k"@, "上滚"@), ("↓/j"@, "下滚"@), ("t"@, "切换视图"@), ("F10"@, "上传"@), ("Esc"@, "返回"@),
            ("?"@, "帮助"@)]
    } else {
        let vis = if s.is_public { "公开"@ } else { "私有"@ };
        let head = seq![("i"@, "编辑"@), ("t"@, "预览"@), ("Esc"@, "退出"@), ("p"@, vis), ("Tab"@, "切换焦点"@),
            ("Ctrl+S"@, "保存"@)];
        if s.blog_id is Some {
            head + seq![("F10"@, "上传"@), ("?"@, "帮助"@)]
        } else {
            head + seq![("?"@, "帮助"@)]
        }
    }
}

/// The keys that the editor's help panel lists, in the preview or while editing.
pub open spec fn edit_help(preview: bool) -> Seq<(Seq<char>, Seq<char>)> {
    if preview {
        seq![("↑/k"@, "向上滚动"@), ("↓/j"@, "向下滚动"@), ("t"@, "切换源码/渲染视图"@), ("F10"@, "上传博客"@),
            ("Esc"@, "返回编辑"@), ("?"@, "显示/隐藏帮助"@)]
    } else {
        seq![("i"@, "进入/退出编辑模式"@), ("t"@, "进入预览模式"@), ("Esc"@, "退出编辑模式或返回"@),
            ("Tab"@, "切换标题/内容焦点"@), ("p"@, "切换公开/私有"@), ("↑/k"@, "上滚内容"@), ("↓/j"@, "下滚内容"@),
            ("Ctrl+S"@, "保存博客"@), ("?"@, "显示/隐藏帮助"@)]
    }
}

impl BlogEditPage {
    /// The scroll offset of the content on a screen of `visible` rows.
    pub fn content_scroll(&self, visible: usize) -> (r: usize)
        ensures
            r == content_scroll_at(self@, visible),
    {
        let n = lines_of(self.content.as_str()).len();
        let n = if n > 1 { n } else { 1 };
        let limit = if n > visible { n - visible } else { 0 };
        if self.scroll_offset < limit { self.scroll_offset } else { limit }
    }

    /// Where the cursor of the content stands in its frame, if it is shown.
    pub fn content_cursor(&self, scroll: usize, width: u16, height: u16) -> (r: Option<(u16, u16)>)
        ensures
            r == content_cursor_at(self@, scroll, width, height),
    {
        proof { use_type_invariant(self); }
        if !(self.focus_area == FocusArea::Content && self.mode == EditMode::Insert
            && !self.content.as_str().is_empty()) {
            return None;
        }
        let v = chars_of(self.content.as_str());
        let idx = if self.cursor_char_index < v.len() { self.cursor_char_index } else { v.len() };
        let mut row: usize = 0;
        let mut col: u128 = 0;
        let mut i: usize = 0;
        assert(v@.take(0) =~= Seq::<char>::empty());
        while i < idx
            invariant
                i <= idx <= v@.len(),
                end_position(v@.take(i as int)) == (row as nat, col as nat),
                row <= i,
                col <= 2 * i,
            decreases idx - i,
        {
            assert(v@.take(i + 1).drop_last() =~= v@.take(i as int));
            if v[i] == '\n' {
                row = row + 1;
                col = 0;
            } else {
                col = col + char_display_width(v[i]) as u128;
            }
            i = i + 1;
        }
        let r: usize = if row > scroll { row - scroll } else { 0 };
        let wmax: u16 = if width > 0 { width - 1 } else { 0 };
        let hmax: usize = if height > 0 { (height - 1) as usize } else { 0 };
        let x: u16 = if col < wmax as u128 { col as u16 } else { wmax };
        let y: u16 = if r < hmax { r as u16 } else { hmax as u16 };
        Some((x, y))
    }

    /// The column of the title's cursor, if it is shown.
    pub fn title_cursor(&self) -> (r: Option<u16>)
        ensures
            r == title_cursor_at(self@),
    {
        proof { use_type_invariant(self); }
        if !(self.focus_area == FocusArea::Title && self.mode == EditMode::Insert
            && !self.title.as_str().is_empty()) {
            return None;
        }
        let v = chars_of(self.title.as_str());
        let idx = if self.title_char_index < v.len() { self.title_char_index } else { v.len() };
        let mut w: u128 = 0;
        let mut i: usize = 0;
        assert(v@.take(0) =~= Seq::<char>::empty());
        while i < idx
            invariant
                i <= idx <= v@.len(),
                w == display_width(v@.take(i as int)),
                w <= 2 * i,
            decreases idx - i,
        {
            assert(v@.take(i + 1).drop_last() =~= v@.take(i as int));
            w = w + char_display_width(v[i]) as u128;
            i = i + 1;
        }
        Some((w % 0x10000) as u16)
    }

    /// What the title field shows.
    pub fn title_display(&self) -> (t: String)
        ensures
            t@ == field_display(self@.title, self@.focus == FocusArea::Title, self@.mode, "按 Tab 切换到标题"@),
    {
        if !self.title.as_str().is_empty() {
            self.title.clone()
        } else if self.focus_area == FocusArea::Title && self.mode == EditMode::Normal {
            owned("按 i 开始编辑")
        } else if self.focus_area == FocusArea::Title {
            String::new()
        } else {
            owned("按 Tab 切换到标题")
        }
    }

    /// What the content field shows.
    pub fn content_display(&self) -> (t: String)
        ensures
            t@ == field_display(self@.content, self@.focus == FocusArea::Content, self@.mode, "按 Tab 切换到内容"@),
    {
        if !self.content.as_str().is_empty() {
            self.content.clone()
        } else if self.focus_area == FocusArea::Content && self.mode == EditMode::Normal {
            owned("按 i 开始编辑")
        } else if self.focus_area == FocusArea::Content {
            String::new()
        } else {
            owned("按 Tab 切换到内容")
        }
    }

    /// The line numbers beside the content, right-aligned on four columns.
    pub fn line_numbers(&self) -> (v: Vec<String>)
        ensures
            v@.len() == content_line_count(self@.content),
            forall|i: int| 0 <= i < v@.len() ==> (#[trigger] v@[i])@ == right_aligned(decimal((i + 1) as nat), 4),
    {
        let n = lines_of(self.content.as_str()).len();
        let n = if n > 1 { n } else { 1 };
        let mut v: Vec<String> = Vec::new();
        let mut k: usize = 0;
        while k < n
            invariant
                k <= n,
                n == content_line_count(self@.content),
                v@.len() == k,
                forall|i: int| 0 <= i < k ==> (#[trigger] v@[i])@ == right_aligned(decimal((i + 1) as nat), 4),
            decreases n - k,
        {
            k = k + 1;
            let digits = decimal_string(k as u64);
            let d = char_count(digits.as_str());
            let mut label = String::new();
            let mut pad = d;
            while pad < 4
                invariant
                    d <= pad <= 4 || (d > 4 && pad == d),
                    d == digits@.len(),
                    label@ == Seq::new((pad - d) as nat, |i: int| ' '),
                decreases 4 - pad,
            {
                push_char(&mut label, ' ');
                pad = pad + 1;
                assert(label@ =~= Seq::new((pad - d) as nat, |i: int| ' '));
            }
            label.append(digits.as_str());
            assert(label@ =~= right_aligned(decimal(k as nat), 4));
            v.push(label);
        }
        v
    }

    /// The tone of a field's frame.
    pub fn field_tone(&self, area: FocusArea) -> (t: FieldTone)
        ensures
            t == tone_of(self@, area),
    {
        if self.focus_area == area {
            if self.mode == EditMode::Insert { FieldTone::Editing } else { FieldTone::Focused }
        } else {
            FieldTone::Idle
        }
    }

    /// The title of the title's frame: it says when the editor is in insert mode.
    pub fn title_frame(&self) -> (t: String)
        ensures
            t@ == if self@.mode == EditMode::Insert { "标题 [编辑模式]"@ } else { "标题"@ },
    {
        owned(if self.mode == EditMode::Insert { "标题 [编辑模式]" } else { "标题" })
    }

    /// The title of the content's frame: it says whether the blog is public.
    pub fn content_frame(&self) -> (t: String)
        ensures
            t@ == if self@.is_public { "内容 - 👁  公开"@ } else { "内容 - 🔒 私有"@ },
    {
        owned(if self.is_public { "内容 - 👁  公开" } else { "内容 - 🔒 私有" })
    }

    /// The title of the preview's frame.
    pub fn preview_title(&self) -> (t: &str)
        ensures
            t@ == match self@.preview {
                PreviewMode::Source => "源码预览"@,
                PreviewMode::Rendered => "渲染预览"@,
            },
    {
        match self.preview_mode {
            PreviewMode::Source => "源码预览",
            PreviewMode::Rendered => "渲染预览",
        }
    }

    /// The footer: the mode, the field with the focus and whether the blog
    /// is new, and the keys that work.
    pub fn footer(&self) -> (f: FooterBar)
        ensures
            f.info_view() == seq!["模式: "@ + mode_name(self@.mode),
                "焦点: "@ + if self@.focus == FocusArea::Title { "标题"@ } else { "内容"@ },
                if self@.is_new { "新建"@ } else { "编辑"@ }],
            f.hints_view() == edit_hints(self@),
    {
        let mut mode = owned("模式: ");
        mode.append(match self.mode {
            EditMode::Normal => "浏览",
            EditMode::Insert => "编辑",
            EditMode::Preview => "预览",
        });
        let mut focus = owned("焦点: ");
        focus.append(if self.focus_area == FocusArea::Title { "标题" } else { "内容" });
        let info = vec![mode, focus, owned(if self.is_new { "新建" } else { "编辑" })];
        let vis = if self.is_public { "公开" } else { "私有" };
        let hints = if self.mode == EditMode::Preview {
            hints_of(&[("↑/k", "上滚"), ("↓/j", "下滚"), ("t", "切换视图"), ("F10", "上传"), ("Esc", "返回"),
                ("?", "帮助")])
        } else if self.blog_id.is_some() {
            hints_of(&[("i", "编辑"), ("t", "预览"), ("Esc", "退出"), ("p", vis), ("Tab", "切换焦点"),
                ("Ctrl+S", "保存"), ("F10", "上传"), ("?", "帮助")])
        } else {
            hints_of(&[("i", "编辑"), ("t", "预览"), ("Esc", "退出"), ("p", vis), ("Tab", "切换焦点"),
                ("Ctrl+S", "保存"), ("?", "帮助")])
        };
        assert(texts(info@) =~= seq!["模式: "@ + mode_name(self@.mode),
            "焦点: "@ + if self@.focus == FocusArea::Title { "标题"@ } else { "内容"@ },
            if self@.is_new { "新建"@ } else { "编辑"@ }]);
        assert(text_pairs(hints@) =~= edit_hints(self@));
        FooterBar::new().with_left_info(info).with_right_hints(hints)
    }

    /// The help panel: the preview's keys in the preview, else the editor's.
    pub fn help_panel(&self) -> (p: HelpPanel)
        ensures
            p.title_view() == if self@.mode == EditMode::Preview { "博客预览帮助"@ } else { "博客编辑器帮助"@ },
            p.items_view() == edit_help(self@.mode == EditMode::Preview),
    {
        let p = if self.mode == EditMode::Preview {
            HelpPanel::new("博客预览帮助")
                .add_item("↑/k", "向上滚动")
                .add_item("↓/j", "向下滚动")
                .add_item("t", "切换源码/渲染视图")
                .add_item("F10", "上传博客")
                .add_item("Esc", "返回编辑")
                .add_item("?", "显示/隐藏帮助")
        } else {
            HelpPanel::new("博客编辑器帮助")
                .add_item("i", "进入/退出编辑模式")
                .add_item("t", "进入预览模式")
                .add_item("Esc", "退出编辑模式或返回")
                .add_item("Tab", "切换标题/内容焦点")
                .add_item("p", "切换公开/私有")
                .add_item("↑/k", "上滚内容")
                .add_item("↓/j", "下滚内容")
                .add_item("Ctrl+S", "保存博客")
                .add_item("?", "显示/隐藏帮助")
        };
        assert(p.items_view() =~= edit_help(self@.mode == EditMode::Preview));
        p
    }

    /// The loading dialog, while a save runs.
    pub fn loading_dialog(&self) -> (d: Option<LoadingDialog>)
        ensures
            self@.is_saving ==> (d matches Some(dl) && dl.message_view() == "正在保存..."@),
            !self@.is_saving ==> d is None,
    {
        if self.is_saving { Some(LoadingDialog::new("正在保存...")) } else { None }
    }

    /// The error dialog, while an error is shown; it reports code 0.
    pub fn error_dialog(&self) -> (d: Option<ErrorDialog>)
        ensures
            match self@.error {
                Some(e) if self@.show_error => d matches Some(dl)
                    && dl.code_view() == 0 && dl.message_view() == e && dl.detail_view() is None,
                _ => d is None,
            },
    {
        if self.show_error {
            match &self.error {
                Some(e) => Some(ErrorDialog::new(0, e.as_str())),
                None => None,
            }
        } else {
            None
        }
    }

    /// The success dialog, while it is shown.
    pub fn success_dialog(&self) -> (d: Option<SuccessDialog>)
        ensures
            match self@.success_message {
                Some(m) if self@.show_success => d matches Some(dl) && dl.title_view() == " 成功 "@ && dl.message_view() == m,
                _ => d is None,
            },
    {
        if self.show_success {
            match &self.success_message {
                Some(m) => Some(SuccessDialog::new(m.as_str())),
                None => None,
            }
        } else {
            None
        }
    }

    /// The exit confirmation, while it is shown.
    pub fn confirm_exit_dialog(&self) -> (d: Option<&ConfirmDialog>)
        ensures
            self@.show_confirm_exit ==> (d matches Some(c) && c.selected_view() == self@.confirm_selected
                && c.title_view() == self@.confirm_title && c.message_view() == self@.confirm_message
                && c.options_view() == self@.confirm_options),
            !self@.show_confirm_exit ==> d is None,
    {
        if self.show_confirm_exit { Some(&self.confirm_exit_dialog) } else { None }
    }

    /// The mode of the editor.
    pub fn mode(&self) -> (m: EditMode)
        ensures
            m == self@.mode,
    {
        self.mode
    }

    /// The content.
    pub fn content(&self) -> (c: &str)
        ensures
            c@ == self@.content,
    {
        self.content.as_str()
    }

    /// The scroll offset.
    pub fn scroll_offset(&self) -> (n: usize)
        ensures
            n == self@.scroll,
    {
        self.scroll_offset
    }

    /// Whether the content is empty, which shows its prompt in grey.
    pub fn content_is_empty(&self) -> (b: bool)
        ensures
            b == (self@.content.len() == 0),
    {
        self.content.as_str().is_empty()
    }

    /// Whether the title is empty, which shows its prompt in grey.
    pub fn title_is_empty(&self) -> (b: bool)
        ensures
            b == (self@.title.len() == 0),
    {
        self.title.as_str().is_empty()
    }

    /// Whether the help panel is shown.
    pub fn show_help(&self) -> (b: bool)
        ensures
            b == self@.show_help,
    {
        self.show_help
    }
}

/// Every event keeps the cursors within their texts.
pub proof fn lemma_step_keeps_cursors(s: EditState, e: Event)
    requires
        cursors_in_range(s),
        within_limits(s),
    ensures
        cursors_in_range(edit_step(s, e).0),
{
    let s1 = if s.show_error { EditState { show_error: false, error: None, ..s } } else { s };
    if let Event::Key(k) = e {
        lemma_normal_keeps_cursors(s1, k);
        lemma_preview_keeps_cursors(s1, k);
        lemma_insert_keeps_cursors(s1, k);
    }
}

/// Typing a character and deleting it with backspace gives back the text
/// and the cursor.
pub proof fn lemma_type_then_backspace(text: Seq<char>, cursor: usize, c: char)
    requires
        cursor <= text.len(),
        text.len() < usize::MAX,
    ensures
        backspace(type_char(text, cursor, c).0, type_char(text, cursor, c).1) == (text, cursor),
{
    assert(text.insert(cursor as int, c).remove(cursor as int) =~= text);
}

/// An editor with nothing shown over it, ready to act on keys in its mode.
pub open spec fn ready(s: EditState) -> bool {
    &&& !s.show_success
    &&& !s.show_error
    &&& !s.show_confirm_exit
    &&& !s.show_help
    &&& !s.is_saving
}

/// In insert mode, a typed character followed by backspace leaves the
/// editor as it was, on the title and on the content alike.
pub proof fn lemma_insert_mode_type_then_backspace(s: EditState, c: char, k1: KeyEvent, k2: KeyEvent)
    requires
        ready(s),
        s.mode == EditMode::Insert,
        cursors_in_range(s),
        within_limits(s),
        !is_control_char(c),
        k1.code == KeyCode::Char(c),
        k2.code == KeyCode::Backspace,
    ensures
        edit_step(edit_step(s, Event::Key(k1)).0, Event::Key(k2)).0 == s,
{
    lemma_type_then_backspace(s.title, s.title_cursor, c);
    lemma_type_then_backspace(s.content, s.cursor, c);
}

/// In normal mode, pressing `p` twice gives back the visibility, and Tab
/// twice gives back the focus.
pub proof fn lemma_toggles_are_involutions(s: EditState, k: KeyEvent)
    requires
        ready(s),
        s.mode == EditMode::Normal,
        k.code == KeyCode::Char('p') || k.code == KeyCode::Tab,
    ensures
        edit_step(edit_step(s, Event::Key(k)).0, Event::Key(k)).0 == s,
{
}

/// A freshly opened editor has no unsaved changes.
pub proof fn lemma_fresh_editor_is_saved(blog_id: Option<Seq<char>>, title: Seq<char>, content: Seq<char>, is_public: bool, is_new: bool)
    ensures
        !unsaved(fresh_state(blog_id, title, content, is_public, is_new)),
        cursors_in_range(fresh_state(blog_id, title, content, is_public, is_new)),
{
}

/// A save is handed over exactly when the title is not blank, and then it
/// carries the title, content and visibility of the editor.
pub proof fn lemma_save_carries_texts(s: EditState, k: KeyEvent)
    requires
        ready(s),
        s.mode == EditMode::Normal,
        k.code == KeyCode::F(10),
    ensures
        edit_step(s, Event::Key(k)).1 is Save <==> !is_blank(s.title),
        edit_step(s, Event::Key(k)).1 matches EditOutcome::Save { title, content, is_public, .. }
            ==> title == s.title && content == s.content && is_public == s.is_public,
{
}

/// Whatever key saves, the save is for the editor's own blog and says
/// whether that blog is new: it never changes the blog it is about.
pub proof fn lemma_save_keeps_blog_identity(s: EditState, k: KeyEvent)
    requires
        ready(s),
        s.mode == EditMode::Normal,
    ensures
        edit_step(s, Event::Key(k)).1 matches EditOutcome::Save { blog_id, is_new, .. }
            ==> blog_id == s.blog_id && is_new == s.is_new,
{
}

/// An editor opened on an existing blog saves it as that blog, never as a
/// new one: F10 (and Ctrl+S) hands over its id with `is_new` false, as soon
/// as the title is not blank.
pub proof fn lemma_existing_blog_is_updated(id: Seq<char>, title: Seq<char>, content: Seq<char>, is_public: bool, k: KeyEvent)
    requires
        k.code == KeyCode::F(10) || (k.code == KeyCode::Char('s') && k.control),
    ensures
        ({
            let out = edit_step(fresh_state(Some(id), title, content, is_public, false), Event::Key(k)).1;
            &&& out is Save <==> !is_blank(title)
            &&& out matches EditOutcome::Save { blog_id, is_new, title: t, content: c, is_public: p }
                ==> blog_id == Some(id) && !is_new && t == title && c == content && p == is_public
        }),
{
}

} // verus!
