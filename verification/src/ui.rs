//! Building blocks of every page: the title bar, the footer with its
//! information and key hints, the help panel and input fields.

use vstd::prelude::*;
use vstd::string::*;
use crate::text::{owned, push_char, byte_len, char_count, lemma_byte_len_is_encoding_len};

verus! {

/// The bar at the top of a page.
pub struct TitleBar {
    title: String,
}

impl TitleBar {
    /// The title shown.
    pub closed spec fn title_view(&self) -> Seq<char> {
        self.title@
    }

    /// A title bar showing `title`.
    pub fn new(title: &str) -> (t: Self)
        ensures
            t.title_view() == title@,
    {
        TitleBar { title: owned(title) }
    }

    /// The title shown.
    pub fn title(&self) -> (t: &str)
        ensures
            t@ == self.title_view(),
    {
        self.title.as_str()
    }
}

/// Texts joined with a separator between each two.
pub open spec fn join(items: Seq<Seq<char>>, sep: Seq<char>) -> Seq<char>
    decreases items.len(),
{
    if items.len() == 0 {
        Seq::empty()
    } else if items.len() == 1 {
        items[0]
    } else {
        join(items.drop_last(), sep) + sep + items.last()
    }
}

/// The texts of strings.
pub open spec fn texts(v: Seq<String>) -> Seq<Seq<char>> {
    v.map_values(|s: String| s@)
}

/// The texts of pairs of strings.
pub open spec fn text_pairs(v: Seq<(String, String)>) -> Seq<(Seq<char>, Seq<char>)> {
    v.map_values(|p: (String, String)| (p.0@, p.1@))
}

/// Key and description pairs as owned strings.
pub fn hints_of(pairs: &[(&str, &str)]) -> (v: Vec<(String, String)>)
    ensures
        text_pairs(v@) == pairs@.map_values(|p: (&str, &str)| (p.0@, p.1@)),
{
    let mut v: Vec<(String, String)> = Vec::new();
    let mut i: usize = 0;
    while i < pairs.len()
        invariant
            i <= pairs@.len(),
            v@.len() == i,
            forall|j: int| 0 <= j < i ==> ((#[trigger] v@[j]).0@, v@[j].1@) == (pairs@[j].0@, pairs@[j].1@),
        decreases pairs.len() - i,
    {
        let (k, d) = pairs[i];
        v.push((owned(k), owned(d)));
        i = i + 1;
    }
    assert(text_pairs(v@) =~= pairs@.map_values(|p: (&str, &str)| (p.0@, p.1@)));
    v
}

/// The bar at the bottom of a page: information on the left, key hints on the right.
pub struct FooterBar {
    left_info: Vec<String>,
    right_hints: Vec<(String, String)>,
}

/// A key hint as shown: `key: description`.
pub open spec fn hint_text(hint: (Seq<char>, Seq<char>)) -> Seq<char> {
    hint.0 + ": "@ + hint.1
}

impl FooterBar {
    /// The information on the left.
    pub closed spec fn info_view(&self) -> Seq<Seq<char>> {
        texts(self.left_info@)
    }

    /// The key hints on the right, as pairs of key and description.
    pub closed spec fn hints_view(&self) -> Seq<(Seq<char>, Seq<char>)> {
        text_pairs(self.right_hints@)
    }

    /// An empty footer.
    pub fn new() -> (f: Self)
        ensures
            f.info_view() == Seq::<Seq<char>>::empty(),
            f.hints_view() == Seq::<(Seq<char>, Seq<char>)>::empty(),
    {
        let f = FooterBar { left_info: Vec::new(), right_hints: Vec::new() };
        assert(f.info_view() =~= Seq::<Seq<char>>::empty());
        assert(f.hints_view() =~= Seq::<(Seq<char>, Seq<char>)>::empty());
        f
    }

    /// The same footer with this information on the left.
    pub fn with_left_info(self, info: Vec<String>) -> (f: Self)
        ensures
            f.info_view() == texts(info@),
            f.hints_view() == self.hints_view(),
    {
        FooterBar { left_info: info, right_hints: self.right_hints }
    }

    /// The same footer with these key hints on the right.
    pub fn with_right_hints(self, hints: Vec<(String, String)>) -> (f: Self)
        ensures
            f.info_view() == self.info_view(),
            f.hints_view() == text_pairs(hints@),
    {
        FooterBar { left_info: self.left_info, right_hints: hints }
    }

    /// The number of key hints.
    pub fn hint_count(&self) -> (n: usize)
        ensures
            n == self.hints_view().len(),
    {
        self.right_hints.len()
    }

    /// The text on the left: the information joined by ` | `, or `暂无信息`
    /// when there is none.
    pub fn left_text(&self) -> (s: String)
        ensures
            s@ == if self.info_view().len() == 0 { "暂无信息"@ } else { join(self.info_view(), " | "@) },
    {
        if self.left_info.len() == 0 {
            return owned("暂无信息");
        }
        let ghost items = self.info_view();
        let mut s = self.left_info[0].clone();
        let mut i: usize = 1;
        assert(items.take(1).drop_last() =~= Seq::<Seq<char>>::empty());
        while i < self.left_info.len()
            invariant
                1 <= i <= self.left_info.len(),
                items == self.info_view(),
                items == texts(self.left_info@),
                s@ == join(items.take(i as int), " | "@),
            decreases self.left_info.len() - i,
        {
            s.append(" | ");
            s.append(self.left_info[i].as_str());
            i = i + 1;
            assert(items.take(i as int).drop_last() =~= items.take(i - 1));
        }
        assert(items.take(self.left_info.len() as int) =~= items);
        s
    }

    /// The key hints as shown, each `key: description`; when there are
    /// none, the single text `按 ? 查看帮助`.
    pub fn hint_texts(&self) -> (v: Vec<String>)
        ensures
            self.hints_view().len() == 0 ==> texts(v@) == seq!["按 ? 查看帮助"@],
            self.hints_view().len() > 0 ==> texts(v@) == self.hints_view().map_values(|h: (Seq<char>, Seq<char>)| hint_text(h)),
    {
        let mut v: Vec<String> = Vec::new();
        if self.right_hints.len() == 0 {
            v.push(owned("按 ? 查看帮助"));
            assert(texts(v@) =~= seq!["按 ? 查看帮助"@]);
            return v;
        }
        let mut i: usize = 0;
        while i < self.right_hints.len()
            invariant
                i <= self.right_hints.len(),
                v@.len() == i,
                forall|j: int| 0 <= j < i ==> (#[trigger] v@[j])@ == hint_text(self.hints_view()[j]),
            decreases self.right_hints.len() - i,
        {
            let mut t = self.right_hints[i].0.clone();
            t.append(": ");
            t.append(self.right_hints[i].1.as_str());
            assert(self.hints_view()[i as int] == (self.right_hints@[i as int].0@, self.right_hints@[i as int].1@));
            assert(t@ == hint_text(self.hints_view()[i as int]));
            v.push(t);
            i = i + 1;
        }
        assert(texts(v@) =~= self.hints_view().map_values(|h: (Seq<char>, Seq<char>)| hint_text(h)));
        v
    }
}

/// A key padded with spaces to twelve characters, as the help panel shows it.
pub open spec fn padded_key(key: Seq<char>) -> Seq<char> {
    if key.len() >= 12 { key } else { key + Seq::new((12 - key.len()) as nat, |i: int| ' ') }
}

/// A panel listing keys and what they do.
pub struct HelpPanel {
    title: String,
    content: Vec<(String, String)>,
}

impl HelpPanel {
    /// The title of the panel.
    pub closed spec fn title_view(&self) -> Seq<char> {
        self.title@
    }

    /// The keys listed, with their descriptions.
    pub closed spec fn items_view(&self) -> Seq<(Seq<char>, Seq<char>)> {
        text_pairs(self.content@)
    }

    /// An empty panel with a title.
    pub fn new(title: &str) -> (p: Self)
        ensures
            p.title_view() == title@,
            p.items_view() == Seq::<(Seq<char>, Seq<char>)>::empty(),
    {
        let p = HelpPanel { title: owned(title), content: Vec::new() };
        assert(p.items_view() =~= Seq::<(Seq<char>, Seq<char>)>::empty());
        p
    }

    /// The same panel with one more key listed at the end.
    pub fn add_item(self, key: &str, desc: &str) -> (p: Self)
        ensures
            p.title_view() == self.title_view(),
            p.items_view() == self.items_view().push((key@, desc@)),
    {
        let mut content = self.content;
        content.push((owned(key), owned(desc)));
        let p = HelpPanel { title: self.title, content };
        assert(p.items_view() =~= self.items_view().push((key@, desc@)));
        p
    }

    /// The title of the panel.
    pub fn title(&self) -> (t: &str)
        ensures
            t@ == self.title_view(),
    {
        self.title.as_str()
    }

    /// The rows of the panel: each key padded to twelve characters, and its description.
    pub fn rows(&self) -> (v: Vec<(String, String)>)
        ensures
            text_pairs(v@) == self.items_view().map_values(|it: (Seq<char>, Seq<char>)| (padded_key(it.0), it.1)),
    {
        let mut v: Vec<(String, String)> = Vec::new();
        let mut i: usize = 0;
        while i < self.content.len()
            invariant
                i <= self.content.len(),
                v@.len() == i,
                forall|j: int| 0 <= j < i ==> ((#[trigger] v@[j]).0@, v@[j].1@) == (padded_key(self.items_view()[j].0), self.items_view()[j].1),
            decreases self.content.len() - i,
        {
            let key = &self.content[i].0;
            let mut k = key.clone();
            let n = char_count(key.as_str());
            if n < 12 {
                let mut j = n;
                while j < 12
                    invariant
                        n <= j <= 12,
                        n == key@.len(),
                        k@ == key@ + Seq::new((j - n) as nat, |i: int| ' '),
                    decreases 12 - j,
                {
                    push_char(&mut k, ' ');
                    j = j + 1;
                    assert(k@ =~= key@ + Seq::new((j - n) as nat, |i: int| ' '));
                }
            }
            assert(self.items_view()[i as int] == (self.content@[i as int].0@, self.content@[i as int].1@));
            assert(k@ == padded_key(self.items_view()[i as int].0));
            v.push((k, self.content[i].1.clone()));
            i = i + 1;
        }
        assert(text_pairs(v@) =~= self.items_view().map_values(|it: (Seq<char>, Seq<char>)| (padded_key(it.0), it.1)));
        v
    }
}

/// A labelled input field, possibly masked as a password.
pub struct InputField {
    label: String,
    value: String,
    is_password: bool,
    is_focused: bool,
}

impl InputField {
    /// The label of the field.
    pub closed spec fn label_view(&self) -> Seq<char> {
        self.label@
    }

    /// The value held.
    pub closed spec fn value_view(&self) -> Seq<char> {
        self.value@
    }

    /// Whether the value is masked.
    pub closed spec fn password_view(&self) -> bool {
        self.is_password
    }

    /// Whether the field has the focus.
    pub closed spec fn focused_view(&self) -> bool {
        self.is_focused
    }

    /// An empty, unmasked, unfocused field.
    pub fn new(label: &str) -> (f: Self)
        ensures
            f.label_view() == label@,
            f.value_view() == Seq::<char>::empty(),
            !f.password_view(),
            !f.focused_view(),
    {
        InputField { label: owned(label), value: String::new(), is_password: false, is_focused: false }
    }

    /// The same field holding `value`.
    pub fn with_value(self, value: &str) -> (f: Self)
        ensures
            f.label_view() == self.label_view(),
            f.value_view() == value@,
            f.password_view() == self.password_view(),
            f.focused_view() == self.focused_view(),
    {
        InputField { label: self.label, value: owned(value), is_password: self.is_password, is_focused: self.is_focused }
    }

    /// The same field, masked.
    pub fn password(self) -> (f: Self)
        ensures
            f.label_view() == self.label_view(),
            f.value_view() == self.value_view(),
            f.password_view(),
            f.focused_view() == self.focused_view(),
    {
        InputField { label: self.label, value: self.value, is_password: true, is_focused: self.is_focused }
    }

    /// The same field, focused or not.
    pub fn focused(self, focused: bool) -> (f: Self)
        ensures
            f.label_view() == self.label_view(),
            f.value_view() == self.value_view(),
            f.password_view() == self.password_view(),
            f.focused_view() == focused,
    {
        InputField { label: self.label, value: self.value, is_password: self.is_password, is_focused: focused }
    }

    /// The label of the field.
    pub fn label(&self) -> (l: &str)
        ensures
            l@ == self.label_view(),
    {
        self.label.as_str()
    }

    /// Whether the field has the focus.
    pub fn is_focused(&self) -> (b: bool)
        ensures
            b == self.focused_view(),
    {
        self.is_focused
    }

    /// The text shown: the value, or for a password one `*` for each byte of it.
    pub fn display_value(&self) -> (s: String)
        requires
            byte_len(self.value_view()) <= usize::MAX,
        ensures
            s@ == if self.password_view() { Seq::new(byte_len(self.value_view()), |i: int| '*') } else { self.value_view() },
    {
        if !self.is_password {
            return self.value.clone();
        }
        let total = self.value.as_str().len();
        proof { lemma_byte_len_is_encoding_len(self.value@); }
        let mut s = String::new();
        let mut n: usize = 0;
        while n < total
            invariant
                n <= total,
                total == byte_len(self.value@),
                s@ == Seq::new(n as nat, |i: int| '*'),
            decreases total - n,
        {
            push_char(&mut s, '*');
            n = n + 1;
            assert(s@ =~= Seq::new(n as nat, |i: int| '*'));
        }
        s
    }
}

} // verus!
