//! Dialogs: confirmation, quit confirmation, first-run welcome, error,
//! success and loading.

use vstd::prelude::*;
use vstd::string::*;
use crate::utils::AppError;
use crate::text::{owned, push_char, pop_char, lines, lines_of, byte_len, byte_len_above,
    is_byte_boundary, chars_in_bytes, chars_within_bytes, string_of};

verus! {

/// A yes/no confirmation dialog. Option 0 is "否" (no), option 1 is "是" (yes).
pub struct ConfirmDialog {
    title: String,
    message: String,
    selected: usize,
    options: Vec<String>,
}

impl ConfirmDialog {
    #[verifier::type_invariant]
    spec fn well_formed(&self) -> bool {
        &&& self.options@.len() == 2
        &&& self.selected < 2
    }

    /// The title of the dialog.
    pub closed spec fn title_view(&self) -> Seq<char> {
        self.title@
    }

    /// The message of the dialog.
    pub closed spec fn message_view(&self) -> Seq<char> {
        self.message@
    }

    /// The index of the selected option.
    pub closed spec fn selected_view(&self) -> nat {
        self.selected as nat
    }

    /// The texts of the options.
    pub closed spec fn options_view(&self) -> Seq<Seq<char>> {
        self.options@.map_values(|o: String| o@)
    }

    /// A new dialog with "是" (yes) selected.
    pub fn new(title: &str, message: &str) -> (d: Self)
        ensures
            d.title_view() == title@,
            d.message_view() == message@,
            d.selected_view() == 1,
            d.options_view() == seq!["否"@, "是"@],
    {
        let mut options: Vec<String> = Vec::new();
        options.push(owned("否"));
        options.push(owned("是"));
        let d = ConfirmDialog { title: owned(title), message: owned(message), selected: 1, options };
        assert(d.options@.map_values(|o: String| o@) =~= seq!["否"@, "是"@]);
        d
    }

    /// Selects the next option, wrapping around after the last.
    pub fn next_option(&mut self)
        ensures
            final(self).selected_view() == next_index(old(self).selected_view()),
            old(self).selected_view() < 2,
            final(self).title_view() == old(self).title_view(),
            final(self).message_view() == old(self).message_view(),
            final(self).options_view() == old(self).options_view(),
        no_unwind
    {
        proof { use_type_invariant(&*self); }
        self.selected = (self.selected + 1) % self.options.len();
    }

    /// Selects the previous option, wrapping around before the first.
    pub fn prev_option(&mut self)
        ensures
            final(self).selected_view() == prev_index(old(self).selected_view()),
            old(self).selected_view() < 2,
            final(self).title_view() == old(self).title_view(),
            final(self).message_view() == old(self).message_view(),
            final(self).options_view() == old(self).options_view(),
        no_unwind
    {
        proof { use_type_invariant(&*self); }
        if self.selected == 0 {
            self.selected = self.options.len() - 1;
        } else {
            self.selected = self.selected - 1;
        }
    }

    /// The index of the selected option.
    pub fn selected(&self) -> (i: usize)
        ensures
            i == self.selected_view(),
            i < 2,
    {
        proof { use_type_invariant(self); }
        self.selected
    }

    /// Whether "是" (yes) is selected.
    pub fn is_confirmed(&self) -> (b: bool)
        ensures
            b == (self.selected_view() == 1),
            self.selected_view() < 2,
    {
        proof { use_type_invariant(self); }
        self.selected == 1
    }

    /// The title of the dialog.
    pub fn title(&self) -> (t: &str)
        ensures
            t@ == self.title_view(),
    {
        self.title.as_str()
    }

    /// The message of the dialog.
    pub fn message(&self) -> (m: &str)
        ensures
            m@ == self.message_view(),
    {
        self.message.as_str()
    }

    /// The texts of the options.
    pub fn options(&self) -> (o: &Vec<String>)
        ensures
            o@.map_values(|s: String| s@) == self.options_view(),
    {
        &self.options
    }
}

/// The option after `s` of two, wrapping around.
pub open spec fn next_index(s: nat) -> nat {
    (s + 1) % 2
}

/// The option before `s` of two, wrapping around.
pub open spec fn prev_index(s: nat) -> nat {
    if s == 0 { 1 } else { (s - 1) as nat }
}

/// Moving to the next option and back to the previous one leaves the
/// selection where it was, and so does the other order; either move keeps
/// the selection one of the two options.
pub proof fn lemma_next_prev_inverse(s: nat)
    requires
        s < 2,
    ensures
        prev_index(next_index(s)) == s,
        next_index(prev_index(s)) == s,
        next_index(s) < 2,
        prev_index(s) < 2,
{
}

/// The dialog that asks whether to quit the application.
pub struct QuitConfirmDialog {
    dialog: ConfirmDialog,
}

impl QuitConfirmDialog {
    /// The selected option of the underlying dialog.
    pub closed spec fn selected_view(&self) -> nat {
        self.dialog.selected_view()
    }

    /// A new quit dialog with "是" (yes) selected.
    pub fn new() -> (d: Self)
        ensures
            d.selected_view() == 1,
            d.dialog().title_view() == " 确认退出 "@,
            d.dialog().message_view() == "确定要退出 Antarctica 吗？"@,
            d.dialog().options_view() == seq!["否"@, "是"@],
    {
        QuitConfirmDialog { dialog: ConfirmDialog::new(" 确认退出 ", "确定要退出 Antarctica 吗？") }
    }

    /// The underlying dialog, for display.
    pub closed spec fn dialog(&self) -> ConfirmDialog {
        self.dialog
    }

    /// Selects the next option.
    pub fn next_option(&mut self)
        ensures
            final(self).selected_view() == next_index(old(self).selected_view()),
            final(self).dialog().title_view() == old(self).dialog().title_view(),
            final(self).dialog().message_view() == old(self).dialog().message_view(),
            final(self).dialog().options_view() == old(self).dialog().options_view(),
        no_unwind
    {
        self.dialog.next_option();
    }

    /// Selects the previous option.
    pub fn prev_option(&mut self)
        ensures
            final(self).selected_view() == prev_index(old(self).selected_view()),
            final(self).dialog().title_view() == old(self).dialog().title_view(),
            final(self).dialog().message_view() == old(self).dialog().message_view(),
            final(self).dialog().options_view() == old(self).dialog().options_view(),
        no_unwind
    {
        self.dialog.prev_option();
    }

    /// Whether "是" (yes) is selected.
    pub fn is_confirmed(&self) -> (b: bool)
        ensures
            b == (self.selected_view() == 1),
    {
        self.dialog.is_confirmed()
    }

    /// The underlying dialog, for display.
    pub fn confirm_dialog(&self) -> (d: &ConfirmDialog)
        ensures
            *d == self.dialog(),
    {
        &self.dialog
    }
}

/// The dialog shown on the first run, where the server address is entered.
pub struct WelcomeDialog {
    server_url: String,
}

impl WelcomeDialog {
    /// The address entered so far.
    pub closed spec fn url_view(&self) -> Seq<char> {
        self.server_url@
    }

    /// A new dialog holding the default address.
    pub fn new(default_url: &str) -> (d: Self)
        ensures
            d.url_view() == default_url@,
    {
        WelcomeDialog { server_url: owned(default_url) }
    }

    /// The address entered so far.
    pub fn server_url(&self) -> (u: &str)
        ensures
            u@ == self.url_view(),
    {
        self.server_url.as_str()
    }

    /// Appends a typed character to the address.
    pub fn handle_input(&mut self, c: char)
        ensures
            final(self).url_view() == old(self).url_view().push(c),
    {
        push_char(&mut self.server_url, c);
    }

    /// Removes the last character of the address, if any.
    pub fn handle_backspace(&mut self)
        ensures
            final(self).url_view() == if old(self).url_view().len() == 0 { old(self).url_view() }
                else { old(self).url_view().drop_last() },
    {
        let _ = pop_char(&mut self.server_url);
    }

    /// Empties the address.
    pub fn clear(&mut self)
        ensures
            final(self).url_view() == Seq::<char>::empty(),
    {
        self.server_url = String::new();
    }
}

/// Typing a character and then deleting it gives back the address.
pub proof fn lemma_input_backspace_restores(url: Seq<char>, c: char)
    ensures
        url.push(c).len() != 0,
        url.push(c).drop_last() == url,
{
    assert(url.push(c).drop_last() =~= url);
}

/// A dialog reporting an error, with its code and an optional detail.
pub struct ErrorDialog {
    error_code: u32,
    message: String,
    detail: Option<String>,
}

impl ErrorDialog {
    /// The code shown.
    pub closed spec fn code_view(&self) -> u32 {
        self.error_code
    }

    /// The message shown.
    pub closed spec fn message_view(&self) -> Seq<char> {
        self.message@
    }

    /// The detail shown, if any.
    pub closed spec fn detail_view(&self) -> Option<Seq<char>> {
        match self.detail {
            Some(d) => Some(d@),
            None => None,
        }
    }

    /// A new error dialog without detail.
    pub fn new(error_code: u32, message: &str) -> (d: Self)
        ensures
            d.code_view() == error_code,
            d.message_view() == message@,
            d.detail_view() is None,
    {
        ErrorDialog { error_code, message: owned(message), detail: None }
    }

    /// The same dialog with a detail.
    pub fn with_detail(self, detail: &str) -> (d: Self)
        ensures
            d.code_view() == self.code_view(),
            d.message_view() == self.message_view(),
            d.detail_view() == Some(detail@),
    {
        ErrorDialog { error_code: self.error_code, message: self.message, detail: Some(owned(detail)) }
    }

    /// The code shown.
    pub fn error_code(&self) -> (c: u32)
        ensures
            c == self.code_view(),
    {
        self.error_code
    }

    /// The message shown.
    pub fn message(&self) -> (m: &str)
        ensures
            m@ == self.message_view(),
    {
        self.message.as_str()
    }

    /// The detail shown, if any.
    pub fn detail(&self) -> (d: Option<&str>)
        ensures
            d is Some == self.detail_view() is Some,
            d matches Some(t) ==> Some(t@) == self.detail_view(),
    {
        match &self.detail {
            Some(t) => Some(t.as_str()),
            None => None,
        }
    }
}

/// The detail an error dialog shows for an error: its detail, or nothing.
pub open spec fn error_detail_text(e: AppError) -> Seq<char> {
    match e.detail {
        Some(d) => d@,
        None => Seq::empty(),
    }
}

impl ErrorDialog {
    /// The dialog that reports an error: its code, its message for the
    /// user, and its detail (empty when it has none).
    pub fn for_error(e: &AppError) -> (d: Self)
        ensures
            d.code_view() == e.code.number(),
            d.message_view() == e.user_message@,
            d.detail_view() == Some(error_detail_text(*e)),
    {
        let detail = match &e.detail {
            Some(t) => t.as_str(),
            None => "",
        };
        proof { reveal_strlit(""); }
        ErrorDialog::new(e.code.code(), e.user_message.as_str()).with_detail(detail)
    }
}

/// The widest a detail line may be, in bytes, in a screen `area_width`
/// columns wide: the width less six columns of margin, and at least 50.
pub open spec fn detail_width(area_width: u16) -> nat {
    let w: int = if area_width >= 6 { area_width - 6 } else { 0 };
    if w > 50 { w as nat } else { 50 }
}

/// A detail line as shown: one longer than `max` bytes is cut to its first
/// `max - 3` bytes and ends in `...`.
pub open spec fn shown_detail_line(line: Seq<char>, max: nat) -> Seq<char> {
    if byte_len(line) > max {
        line.take(chars_in_bytes(line, (max - 3) as nat)) + "..."@
    } else {
        line
    }
}

/// How many lines of the detail are shown: the first five at most.
pub open spec fn detail_line_count(detail: Seq<char>) -> nat {
    if lines(detail).len() < 5 { lines(detail).len() } else { 5 }
}

/// Each shown line that is cut is cut where a character starts.
pub open spec fn detail_cuts_at_chars(detail: Seq<char>, max: nat) -> bool {
    forall|i: int| 0 <= i < detail_line_count(detail) && byte_len(#[trigger] lines(detail)[i]) > max
        ==> is_byte_boundary(lines(detail)[i], (max - 3) as nat)
}

/// The lines of the detail as shown.
pub open spec fn shown_detail(detail: Seq<char>, max: nat) -> Seq<Seq<char>> {
    Seq::new(detail_line_count(detail), |i: int| shown_detail_line(lines(detail)[i], max))
}

fn cut_line(line: Vec<char>, max: usize) -> (r: String)
    requires
        50 <= max <= u16::MAX,
        byte_len(line@) > max ==> is_byte_boundary(line@, (max - 3) as nat),
    ensures
        r@ == shown_detail_line(line@, max as nat),
{
    if byte_len_above(&line, max) {
        let n = chars_within_bytes(&line, max - 3);
        let mut head = line;
        head.truncate(n);
        let mut r = string_of(&head);
        r.append("...");
        proof { reveal_strlit("..."); }
        assert(r@ =~= line@.take(n as int) + "..."@);
        r
    } else {
        string_of(&line)
    }
}

impl ErrorDialog {
    /// The lines of the detail as the dialog shows them on a screen
    /// `area_width` columns wide: the first five lines, each cut to the
    /// width of `detail_width` with `...` at its end when it is longer.
    /// Without a detail there are none.
    pub fn detail_lines(&self, area_width: u16) -> (r: Option<Vec<String>>)
        requires
            self.detail_view() matches Some(d) ==> detail_cuts_at_chars(d, detail_width(area_width)),
        ensures
            match self.detail_view() {
                Some(d) => r matches Some(v) && v@.map_values(|l: String| l@) == shown_detail(d, detail_width(area_width)),
                None => r is None,
            },
    {
        let detail = match &self.detail {
            Some(d) => d,
            None => return None,
        };
        let available: u16 = if area_width >= 6 { area_width - 6 } else { 0 };
        let max: usize = if available > 50 { available as usize } else { 50 };
        let ghost d = detail@;
        let all = lines_of(detail.as_str());
        let ghost ls = all@;
        assert(ls.map_values(|l: Vec<char>| l@) == lines(d));
        let mut out: Vec<String> = Vec::new();
        for line in it: all.into_iter()
            invariant
                it.seq() == ls,
                ls.map_values(|l: Vec<char>| l@) == lines(d),
                max == detail_width(area_width),
                detail_cuts_at_chars(d, max as nat),
                out.len() == if it.index() < 5 { it.index() } else { 5 },
                forall|j: int| 0 <= j < out.len() ==> (#[trigger] out@[j])@ == shown_detail_line(lines(d)[j], max as nat),
        {
            if out.len() < 5 {
                let ghost i = it.index();
                assert(line@ == lines(d)[i as int]);
                out.push(cut_line(line, max));
            }
        }
        assert(out@.map_values(|l: String| l@) =~= shown_detail(d, max as nat));
        Some(out)
    }
}

/// A dialog reporting success.
pub struct SuccessDialog {
    title: String,
    message: String,
}

impl SuccessDialog {
    /// The title shown.
    pub closed spec fn title_view(&self) -> Seq<char> {
        self.title@
    }

    /// The message shown.
    pub closed spec fn message_view(&self) -> Seq<char> {
        self.message@
    }

    /// A new success dialog with the title " 成功 ".
    pub fn new(message: &str) -> (d: Self)
        ensures
            d.title_view() == " 成功 "@,
            d.message_view() == message@,
    {
        SuccessDialog { title: owned(" 成功 "), message: owned(message) }
    }

    /// The same dialog with another title.
    pub fn with_title(self, title: &str) -> (d: Self)
        ensures
            d.title_view() == title@,
            d.message_view() == self.message_view(),
    {
        SuccessDialog { title: owned(title), message: self.message }
    }

    /// The title shown.
    pub fn title(&self) -> (t: &str)
        ensures
            t@ == self.title_view(),
    {
        self.title.as_str()
    }

    /// The message shown.
    pub fn message(&self) -> (m: &str)
        ensures
            m@ == self.message_view(),
    {
        self.message.as_str()
    }
}

/// A dialog shown while the application waits.
pub struct LoadingDialog {
    message: String,
}

impl LoadingDialog {
    /// The message shown.
    pub closed spec fn message_view(&self) -> Seq<char> {
        self.message@
    }

    /// A new loading dialog.
    pub fn new(message: &str) -> (d: Self)
        ensures
            d.message_view() == message@,
    {
        LoadingDialog { message: owned(message) }
    }

    /// The message shown.
    pub fn message(&self) -> (m: &str)
        ensures
            m@ == self.message_view(),
    {
        self.message.as_str()
    }
}

} // verus!
