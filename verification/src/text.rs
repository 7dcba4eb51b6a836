//! Character-level text helpers shared by the pages and components.

use vstd::prelude::*;
use vstd::string::*;
use vstd::utf8::encode_utf8;

verus! {

/// `String::push`: appends one character.
#[verifier::external_body]
pub(crate) fn push_char(s: &mut String, c: char)
    ensures
        final(s)@ == old(s)@.push(c),
{
    s.push(c);
}

/// `String::pop`: removes and returns the last character, if any.
#[verifier::external_body]
pub(crate) fn pop_char(s: &mut String) -> (r: Option<char>)
    ensures
        old(s)@.len() == 0 ==> r is None && final(s)@ == old(s)@,
        old(s)@.len() > 0 ==> r == Some(old(s)@.last()) && final(s)@ == old(s)@.drop_last(),
{
    s.pop()
}

/// The characters of a string, in order.
pub fn chars_of(s: &str) -> (v: Vec<char>)
    ensures
        v@ == s@,
{
    broadcast use vstd::string::group_string_axioms;
    let mut v: Vec<char> = Vec::new();
    for c in it: s.chars()
        invariant
            it.seq() == s@,
            v@ == it.seq().take(it.index() as int),
    {
        v.push(c);
    }
    v
}


/// The string holding exactly the given characters.
pub fn string_of(v: &Vec<char>) -> (s: String)
    ensures
        s@ == v@,
{
    let mut s = String::new();
    let mut i: usize = 0;
    while i < v.len()
        invariant
            i <= v.len(),
            s@ == v@.take(i as int),
        decreases v.len() - i,
    {
        push_char(&mut s, v[i]);
        i = i + 1;
        assert(v@.take(i as int) == v@.take(i - 1).push(v@[i - 1]));
    }
    assert(v@.take(v.len() as int) == v@);
    s
}

/// The number of characters (not bytes) of a string.
pub fn char_count(s: &str) -> (n: usize)
    ensures
        n == s@.len(),
{
    chars_of(s).len()
}

/// A copy of a string slice as an owned string.
pub fn owned(s: &str) -> (r: String)
    ensures
        r@ == s@,
{
    s.to_owned()
}

/// The decimal digits of a natural number, most significant first.
pub open spec fn decimal(n: nat) -> Seq<char>
    decreases n,
{
    if n < 10 {
        seq![digit_char(n)]
    } else {
        decimal(n / 10).push(digit_char(n % 10))
    }
}

/// The character of a decimal digit.
pub open spec fn digit_char(d: nat) -> char {
    if d == 0 { '0' } else if d == 1 { '1' } else if d == 2 { '2' } else if d == 3 { '3' }
    else if d == 4 { '4' } else if d == 5 { '5' } else if d == 6 { '6' } else if d == 7 { '7' }
    else if d == 8 { '8' } else { '9' }
}

fn digit(d: u64) -> (c: char)
    requires
        d < 10,
    ensures
        c == digit_char(d as nat),
{
    if d == 0 { '0' } else if d == 1 { '1' } else if d == 2 { '2' } else if d == 3 { '3' }
    else if d == 4 { '4' } else if d == 5 { '5' } else if d == 6 { '6' } else if d == 7 { '7' }
    else if d == 8 { '8' } else { '9' }
}

/// Appends the decimal form of `n` to `s`.
pub fn push_decimal(s: &mut String, n: u64)
    ensures
        final(s)@ == old(s)@ + decimal(n as nat),
    decreases n,
{
    if n >= 10 {
        push_decimal(s, n / 10);
    }
    push_char(s, digit(n % 10));
    assert(decimal(n as nat) == if n < 10 { seq![digit_char(n as nat)] } else {
        decimal((n / 10) as nat).push(digit_char((n % 10) as nat)) });
}

/// The decimal form of `n` as a new string.
pub fn decimal_string(n: u64) -> (s: String)
    ensures
        s@ == decimal(n as nat),
{
    let mut s = String::new();
    push_decimal(&mut s, n);
    s
}


/// Unicode white space, the characters that `char::is_whitespace` accepts.
pub open spec fn is_white_space(c: char) -> bool {
    let u = c as u32;
    ||| (0x9 <= u && u <= 0xd)
    ||| u == 0x20
    ||| u == 0x85
    ||| u == 0xa0
    ||| u == 0x1680
    ||| (0x2000 <= u && u <= 0x200a)
    ||| u == 0x2028
    ||| u == 0x2029
    ||| u == 0x202f
    ||| u == 0x205f
    ||| u == 0x3000
}

/// The control characters (general category Cc), those that
/// `char::is_control` accepts.
pub open spec fn is_control_char(c: char) -> bool {
    let u = c as u32;
    u <= 0x1f || (0x7f <= u && u <= 0x9f)
}

/// ASCII characters, those that `char::is_ascii` accepts.
pub open spec fn is_ascii_char(c: char) -> bool {
    (c as u32) < 128
}

/// Whether `c` is white space.
pub fn white_space(c: char) -> (b: bool)
    ensures
        b == is_white_space(c),
{
    let u = c as u32;
    (0x9 <= u && u <= 0xd) || u == 0x20 || u == 0x85 || u == 0xa0 || u == 0x1680
        || (0x2000 <= u && u <= 0x200a) || u == 0x2028 || u == 0x2029 || u == 0x202f
        || u == 0x205f || u == 0x3000
}

/// Whether `c` is a control character.
pub fn control_char(c: char) -> (b: bool)
    ensures
        b == is_control_char(c),
{
    let u = c as u32;
    u <= 0x1f || (0x7f <= u && u <= 0x9f)
}

/// Whether `c` is an ASCII character.
pub fn ascii_char(c: char) -> (b: bool)
    ensures
        b == is_ascii_char(c),
{
    (c as u32) < 128
}

/// A text is blank when it is empty or all white space, so that trimming
/// it leaves nothing.
pub open spec fn is_blank(s: Seq<char>) -> bool {
    forall|i: int| 0 <= i < s.len() ==> is_white_space(#[trigger] s[i])
}

/// Whether a text is blank.
pub fn blank(s: &str) -> (b: bool)
    ensures
        b == is_blank(s@),
{
    let v = chars_of(s);
    let mut i: usize = 0;
    while i < v.len()
        invariant
            i <= v.len(),
            v@ == s@,
            forall|j: int| 0 <= j < i ==> is_white_space(#[trigger] v@[j]),
        decreases v.len() - i,
    {
        if !white_space(v[i]) {
            return false;
        }
        i = i + 1;
    }
    true
}

/// The text with `c` inserted before position `pos`.
pub fn insert_char(s: &str, pos: usize, c: char) -> (r: String)
    requires
        pos <= s@.len(),
    ensures
        r@ == s@.insert(pos as int, c),
{
    let chars = chars_of(s);
    let mut r = String::new();
    let mut i: usize = 0;
    while i < chars.len()
        invariant
            i <= chars.len(),
            chars@ == s@,
            pos <= chars.len(),
            r@ == if i <= pos { chars@.take(i as int) } else { chars@.insert(pos as int, c).take(i + 1) },
        decreases chars.len() - i,
    {
        if i == pos {
            push_char(&mut r, c);
        }
        push_char(&mut r, chars[i]);
        i = i + 1;
        assert(r@ =~= if i <= pos { chars@.take(i as int) } else { chars@.insert(pos as int, c).take(i + 1) });
    }
    if pos >= chars.len() {
        push_char(&mut r, c);
    }
    assert(r@ =~= chars@.insert(pos as int, c));
    r
}

/// The text without the character at position `pos`.
pub fn remove_char(s: &str, pos: usize) -> (r: String)
    requires
        pos < s@.len(),
    ensures
        r@ == s@.remove(pos as int),
{
    let chars = chars_of(s);
    let mut r = String::new();
    let mut i: usize = 0;
    while i < chars.len()
        invariant
            i <= chars.len(),
            chars@ == s@,
            pos < chars.len(),
            r@ == if i <= pos { chars@.take(i as int) } else { chars@.remove(pos as int).take(i - 1) },
        decreases chars.len() - i,
    {
        if i != pos {
            push_char(&mut r, chars[i]);
        }
        i = i + 1;
        assert(r@ =~= if i <= pos { chars@.take(i as int) } else { chars@.remove(pos as int).take(i - 1) });
    }
    assert(r@ =~= chars@.remove(pos as int));
    r
}


/// The number of bytes that a character takes in UTF-8.
pub open spec fn utf8_width(c: char) -> nat {
    let u = c as u32;
    if u < 0x80 { 1 } else if u < 0x800 { 2 } else if u < 0x10000 { 3 } else { 4 }
}

/// The number of bytes that a text takes in UTF-8, which is what `str::len` gives.
pub open spec fn byte_len(t: Seq<char>) -> nat
    decreases t.len(),
{
    if t.len() == 0 { 0 } else { utf8_width(t[0]) + byte_len(t.drop_first()) }
}

/// `byte_len` is the length of the UTF-8 encoding.
pub proof fn lemma_byte_len_is_encoding_len(t: Seq<char>)
    ensures
        byte_len(t) == encode_utf8(t).len(),
    decreases t.len(),
{
    if t.len() > 0 {
        lemma_byte_len_is_encoding_len(t.drop_first());
        vstd::utf8::char_is_scalar(t[0]);
    }
}

proof fn lemma_byte_len_concat(a: Seq<char>, b: Seq<char>)
    ensures
        byte_len(a + b) == byte_len(a) + byte_len(b),
    decreases a.len(),
{
    if a.len() > 0 {
        assert((a + b).drop_first() =~= a.drop_first() + b);
        lemma_byte_len_concat(a.drop_first(), b);
    }
}

fn width_of(c: char) -> (w: usize)
    ensures
        w == utf8_width(c),
{
    let u = c as u32;
    if u < 0x80 { 1 } else if u < 0x800 { 2 } else if u < 0x10000 { 3 } else { 4 }
}

proof fn lemma_byte_len_at_least_len(t: Seq<char>)
    ensures
        byte_len(t) >= t.len(),
    decreases t.len(),
{
    if t.len() > 0 {
        lemma_byte_len_at_least_len(t.drop_first());
    }
}

/// A longer prefix of a text takes more bytes.
pub proof fn lemma_byte_len_prefix_grows(t: Seq<char>, i: int, j: int)
    requires
        0 <= i < j <= t.len(),
    ensures
        byte_len(t.take(i)) < byte_len(t.take(j)),
{
    assert(t.take(j) =~= t.take(i) + t.subrange(i, j));
    lemma_byte_len_concat(t.take(i), t.subrange(i, j));
    lemma_byte_len_at_least_len(t.subrange(i, j));
}

proof fn lemma_byte_len_push(t: Seq<char>, i: int)
    requires
        0 <= i < t.len(),
    ensures
        byte_len(t.take(i + 1)) == byte_len(t.take(i)) + utf8_width(t[i]),
{
    assert(t.take(i + 1) =~= t.take(i) + seq![t[i]]);
    lemma_byte_len_concat(t.take(i), seq![t[i]]);
    assert(seq![t[i]].drop_first() =~= Seq::<char>::empty());
    reveal_with_fuel(byte_len, 2);
}

/// Byte `k` of a text's UTF-8 encoding is where a character starts, or
/// the end: what `str::is_char_boundary` tests.
pub open spec fn is_byte_boundary(t: Seq<char>, k: nat) -> bool {
    exists|j: int| 0 <= j <= t.len() && #[trigger] byte_len(t.take(j)) == k
}

/// The number of characters of a text that its first `k` bytes hold, at a
/// character boundary `k`.
pub open spec fn chars_in_bytes(t: Seq<char>, k: nat) -> int {
    choose|j: int| 0 <= j <= t.len() && #[trigger] byte_len(t.take(j)) == k
}

/// The number of characters that the first `k` bytes of a text hold.
pub fn chars_within_bytes(t: &Vec<char>, k: usize) -> (n: usize)
    requires
        is_byte_boundary(t@, k as nat),
    ensures
        n == chars_in_bytes(t@, k as nat),
        n <= t@.len(),
        byte_len(t@.take(n as int)) == k,
{
    let ghost j = chars_in_bytes(t@, k as nat);
    let mut i: usize = 0;
    let mut total: usize = 0;
    assert(t@.take(0) =~= Seq::<char>::empty());
    while total < k
        invariant
            0 <= j <= t@.len(),
            byte_len(t@.take(j)) == k,
            i <= j,
            total == byte_len(t@.take(i as int)),
            total <= k,
        decreases k - total,
    {
        proof {
            if i == j {
                assert(false);
            }
            lemma_byte_len_push(t@, i as int);
            if i + 1 < j {
                lemma_byte_len_prefix_grows(t@, i + 1, j);
            }
        }
        assert(i < t.len());
        total = total + width_of(t[i]);
        i = i + 1;
    }
    proof {
        if i < j {
            lemma_byte_len_prefix_grows(t@, i as int, j);
        }
    }
    i
}

/// Whether a text takes more than `k` bytes in UTF-8.
pub fn byte_len_above(t: &Vec<char>, k: usize) -> (b: bool)
    requires
        k <= usize::MAX - 4,
    ensures
        b == (byte_len(t@) > k),
{
    let mut i: usize = 0;
    let mut total: usize = 0;
    assert(t@.take(0) =~= Seq::<char>::empty());
    while i < t.len()
        invariant
            i <= t.len(),
            k <= usize::MAX - 4,
            total == byte_len(t@.take(i as int)),
            total <= k,
        decreases t.len() - i,
    {
        proof { lemma_byte_len_push(t@, i as int); }
        total = total + width_of(t[i]);
        i = i + 1;
        if total > k {
            proof {
                lemma_byte_len_concat(t@.take(i as int), t@.skip(i as int));
                assert(t@.take(i as int) + t@.skip(i as int) =~= t@);
            }
            return true;
        }
    }
    assert(t@.take(t.len() as int) =~= t@);
    false
}

/// Whether a text takes fewer than `k` bytes in UTF-8.
pub fn byte_len_below(s: &str, k: usize) -> (b: bool)
    requires
        k <= usize::MAX - 4,
    ensures
        b == (byte_len(s@) < k),
{
    if k == 0 {
        return false;
    }
    let v = chars_of(s);
    let mut i: usize = 0;
    let mut total: usize = 0;
    assert(v@.take(0) =~= Seq::<char>::empty());
    while i < v.len()
        invariant
            i <= v.len(),
            v@ == s@,
            k <= usize::MAX - 4,
            total == byte_len(v@.take(i as int)),
            total < k,
        decreases v.len() - i,
    {
        proof {
            assert(v@.take(i + 1) =~= v@.take(i as int) + seq![v@[i as int]]);
            lemma_byte_len_concat(v@.take(i as int), seq![v@[i as int]]);
            assert(byte_len(seq![v@[i as int]]) == utf8_width(v@[i as int])) by {
                assert(seq![v@[i as int]].drop_first() =~= Seq::<char>::empty());
                reveal_with_fuel(byte_len, 2);
            }
        }
        total = total + width_of(v[i]);
        i = i + 1;
        if total >= k {
            proof {
                lemma_byte_len_concat(v@.take(i as int), v@.skip(i as int));
                assert(v@.take(i as int) + v@.skip(i as int) =~= v@);
            }
            return false;
        }
    }
    assert(v@.take(v.len() as int) =~= v@);
    true
}

/// Whether a text holds the character `c`.
pub fn has_char(s: &str, c: char) -> (b: bool)
    ensures
        b == s@.contains(c),
{
    let v = chars_of(s);
    let mut i: usize = 0;
    while i < v.len()
        invariant
            i <= v.len(),
            v@ == s@,
            forall|j: int| 0 <= j < i ==> v@[j] != c,
        decreases v.len() - i,
    {
        if v[i] == c {
            assert(v@[i as int] == c);
            return true;
        }
        i = i + 1;
    }
    false
}


/// The position of the first line feed of a text, or its length when it has none.
pub open spec fn first_newline(s: Seq<char>) -> nat
    decreases s.len(),
{
    if s.len() == 0 { 0 } else if s[0] == '\n' { 0 } else { 1 + first_newline(s.drop_first()) }
}

/// A line without the carriage return that ends it, if one does.
pub open spec fn strip_cr(line: Seq<char>) -> Seq<char> {
    if line.len() > 0 && line.last() == '\r' { line.drop_last() } else { line }
}

/// The lines of a text as `str::lines` gives them: split at each line feed,
/// a carriage return before a line feed removed, and no empty line after a
/// final line feed.
pub open spec fn lines(s: Seq<char>) -> Seq<Seq<char>>
    decreases s.len(),
{
    if s.len() == 0 {
        seq![]
    } else {
        let i = first_newline(s);
        if i >= s.len() {
            seq![s]
        } else {
            seq![strip_cr(s.take(i as int))] + lines(s.skip(i as int + 1))
        }
    }
}

pub(crate) proof fn lemma_first_newline_bound(s: Seq<char>)
    ensures
        first_newline(s) <= s.len(),
        first_newline(s) < s.len() ==> s[first_newline(s) as int] == '\n',
        forall|k: int| 0 <= k < first_newline(s) ==> s[k] != '\n',
    decreases s.len(),
{
    if s.len() > 0 && s[0] != '\n' {
        lemma_first_newline_bound(s.drop_first());
        assert forall|k: int| 0 <= k < first_newline(s) implies s[k] != '\n' by {
            if k > 0 {
                assert(s[k] == s.drop_first()[k - 1]);
            }
        }
    }
}

proof fn lemma_first_newline_found(s: Seq<char>, j: int)
    requires
        0 <= j <= s.len(),
        forall|k: int| 0 <= k < j ==> s[k] != '\n',
        j == s.len() || s[j] == '\n',
    ensures
        first_newline(s) == j,
    decreases j,
{
    if j > 0 {
        assert(s.drop_first().len() == s.len() - 1);
        lemma_first_newline_found(s.drop_first(), j - 1);
    }
}

/// The lines of the characters `v[start..]`.
fn lines_from(v: &Vec<char>, start: usize) -> (r: Vec<Vec<char>>)
    requires
        start <= v.len(),
    ensures
        r@.map_values(|l: Vec<char>| l@) == lines(v@.skip(start as int)),
    decreases v.len() - start,
{
    if start == v.len() {
        let r: Vec<Vec<char>> = Vec::new();
        assert(v@.skip(start as int).len() == 0);
        assert(r@.map_values(|l: Vec<char>| l@) =~= lines(v@.skip(start as int)));
        return r;
    }
    let mut j = start;
    let mut line: Vec<char> = Vec::new();
    while j < v.len() && v[j] != '\n'
        invariant
            start <= j <= v.len(),
            line@ == v@.subrange(start as int, j as int),
            forall|k: int| start <= k < j ==> v@[k] != '\n',
        decreases v.len() - j,
    {
        line.push(v[j]);
        j = j + 1;
        assert(line@ =~= v@.subrange(start as int, j as int));
    }
    let ghost rest = v@.skip(start as int);
    proof {
        lemma_first_newline_found(rest, j - start);
    }
    if j == v.len() {
        let mut r: Vec<Vec<char>> = Vec::new();
        r.push(line);
        assert(line@ =~= rest);
        assert(r@.map_values(|l: Vec<char>| l@) =~= lines(rest));
        return r;
    }
    if line.len() > 0 && line[line.len() - 1] == '\r' {
        line.pop();
    }
    assert(line@ =~= strip_cr(rest.take(j - start)));
    let mut r = lines_from(v, j + 1);
    assert(rest.skip(j - start + 1) =~= v@.skip(j + 1));
    r.insert(0, line);
    assert(r@.map_values(|l: Vec<char>| l@) =~= lines(rest));
    r
}

/// The lines of a text, as `str::lines` gives them.
pub fn lines_of(s: &str) -> (r: Vec<Vec<char>>)
    ensures
        r@.map_values(|l: Vec<char>| l@) == lines(s@),
{
    let v = chars_of(s);
    let r = lines_from(&v, 0);
    assert(v@.skip(0) =~= v@);
    r
}


/// The columns a character takes on screen: one for ASCII, two otherwise.
pub open spec fn char_width(c: char) -> nat {
    if is_ascii_char(c) { 1 } else { 2 }
}

/// The columns a text takes on screen.
pub open spec fn display_width(t: Seq<char>) -> nat
    decreases t.len(),
{
    if t.len() == 0 { 0 } else { display_width(t.drop_last()) + char_width(t.last()) }
}

/// Whether a character lies outside ASCII.
pub open spec fn is_wide(c: char) -> bool {
    (c as u32) >= 128
}

/// A text takes one column per character and one more per character
/// outside ASCII.
pub proof fn lemma_display_width_counts_wide(t: Seq<char>)
    ensures
        display_width(t) == t.len() + t.filter(|c: char| is_wide(c)).len(),
    decreases t.len(),
{
    reveal(Seq::filter);
    if t.len() > 0 {
        lemma_display_width_counts_wide(t.drop_last());
    }
}

/// The columns a character takes on screen.
pub fn char_display_width(c: char) -> (w: usize)
    ensures
        w == char_width(c),
{
    if ascii_char(c) { 1 } else { 2 }
}

/// The screen rows a line takes when wrapped at `width` columns; an empty
/// line takes one.
pub open spec fn line_rows(line: Seq<char>, width: nat) -> nat {
    if line.len() == 0 { 1 } else { ((display_width(line) + width - 1) as nat) / width }
}

/// The screen rows that lines take when wrapped at `width` columns.
pub open spec fn rows(ls: Seq<Seq<char>>, width: nat) -> nat
    decreases ls.len(),
{
    if ls.len() == 0 { 0 } else { rows(ls.drop_last(), width) + line_rows(ls.last(), width) }
}

/// The characters of lines, each counted with one more for its end.
pub open spec fn line_weight(ls: Seq<Seq<char>>) -> nat
    decreases ls.len(),
{
    if ls.len() == 0 { 0 } else { line_weight(ls.drop_last()) + ls.last().len() + 1 }
}

proof fn lemma_line_weight_concat(a: Seq<Seq<char>>, b: Seq<Seq<char>>)
    ensures
        line_weight(a + b) == line_weight(a) + line_weight(b),
    decreases b.len(),
{
    if b.len() > 0 {
        assert((a + b).drop_last() =~= a + b.drop_last());
        lemma_line_weight_concat(a, b.drop_last());
    }
}

proof fn lemma_line_weight_prefix(ls: Seq<Seq<char>>, i: int)
    requires
        0 <= i <= ls.len(),
    ensures
        line_weight(ls.take(i)) <= line_weight(ls),
    decreases ls.len() - i,
{
    if i < ls.len() {
        lemma_line_weight_prefix(ls, i + 1);
        assert(ls.take(i + 1).drop_last() =~= ls.take(i));
    } else {
        assert(ls.take(i) =~= ls);
    }
}

/// The lines of a text weigh at most one more than the text has characters.
pub proof fn lemma_lines_weight(s: Seq<char>)
    ensures
        line_weight(lines(s)) <= s.len() + 1,
    decreases s.len(),
{
    reveal_with_fuel(line_weight, 2);
    if s.len() > 0 {
        let i = first_newline(s);
        lemma_first_newline_bound(s);
        if i >= s.len() {
            assert(seq![s].drop_last() =~= Seq::<Seq<char>>::empty());
        } else {
            lemma_lines_weight(s.skip(i as int + 1));
            let head = seq![strip_cr(s.take(i as int))];
            lemma_line_weight_concat(head, lines(s.skip(i as int + 1)));
            assert(head.drop_last() =~= Seq::<Seq<char>>::empty());
        }
    }
}

proof fn lemma_display_width_bound(t: Seq<char>)
    ensures
        display_width(t) <= 2 * t.len(),
    decreases t.len(),
{
    if t.len() > 0 {
        lemma_display_width_bound(t.drop_last());
    }
}

/// The columns a text takes on screen.
pub fn text_display_width(t: &Vec<char>) -> (w: usize)
    requires
        t@.len() <= usize::MAX / 2,
    ensures
        w == display_width(t@),
{
    let mut w: usize = 0;
    let mut i: usize = 0;
    while i < t.len()
        invariant
            i <= t.len(),
            t@.len() <= usize::MAX / 2,
            w == display_width(t@.take(i as int)),
            w <= 2 * i,
        decreases t.len() - i,
    {
        assert(t@.take(i + 1).drop_last() =~= t@.take(i as int));
        w = w + char_display_width(t[i]);
        i = i + 1;
    }
    assert(t@.take(t.len() as int) =~= t@);
    w
}

/// The screen rows that the lines of `s` take when wrapped at `width`
/// columns.
pub(crate) fn wrapped_rows(ls: &Vec<Vec<char>>, width: usize, ghost_total: Ghost<nat>) -> (r: usize)
    requires
        width > 0,
        width <= 0x10000,
        line_weight(ls@.map_values(|l: Vec<char>| l@)) <= ghost_total@,
        2 * ghost_total@ + 0x10000 <= usize::MAX,
    ensures
        r == rows(ls@.map_values(|l: Vec<char>| l@), width as nat),
{
    let ghost v = ls@.map_values(|l: Vec<char>| l@);
    let mut total: usize = 0;
    let mut i: usize = 0;
    while i < ls.len()
        invariant
            i <= ls.len(),
            v == ls@.map_values(|l: Vec<char>| l@),
            width > 0,
            width <= 0x10000,
            line_weight(v) <= ghost_total@,
            2 * ghost_total@ + 0x10000 <= usize::MAX,
            total == rows(v.take(i as int), width as nat),
            total <= 2 * line_weight(v.take(i as int)),
        decreases ls.len() - i,
    {
        proof {
            assert(v.take(i + 1).drop_last() =~= v.take(i as int));
            lemma_line_weight_prefix(v, i + 1);
        }
        let line = &ls[i];
        let add = if line.len() == 0 {
            1
        } else {
            proof { lemma_display_width_bound(line@); }
            let w = text_display_width(line);
            assert((w + width - 1) / (width as int) <= w + width) by (nonlinear_arith)
                requires width > 0, w >= 0;
            assert((w + width - 1) / (width as int) <= w) by (nonlinear_arith)
                requires width > 0, w >= 1;
            (w + width - 1) / width
        };
        total = total + add;
        i = i + 1;
    }
    assert(v.take(ls.len() as int) =~= v);
    total
}

} // verus!
