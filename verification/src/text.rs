//! Text as sequences of characters: white space, trimming, lines and
//! lists, and two calls into the standard library, for the lower-case form
//! of a text and for the form in which a text is printed for debugging.

use vstd::prelude::*;
use vstd::string::*;

verus! {

/// The characters that count as white space: the Unicode `White_Space`
/// property.
pub open spec fn is_space(c: char) -> bool {
    let u = c as u32;
    ||| 0x09 <= u <= 0x0D
    ||| u == 0x20
    ||| u == 0x85
    ||| u == 0xA0
    ||| u == 0x1680
    ||| 0x2000 <= u <= 0x200A
    ||| u == 0x2028
    ||| u == 0x2029
    ||| u == 0x202F
    ||| u == 0x205F
    ||| u == 0x3000
}

pub fn is_whitespace(c: char) -> (r: bool)
    ensures
        r == is_space(c),
{
    let u: u32 = c as u32;
    (0x09 <= u && u <= 0x0D) || u == 0x20 || u == 0x85 || u == 0xA0 || u == 0x1680 || (0x2000 <= u
        && u <= 0x200A) || u == 0x2028 || u == 0x2029 || u == 0x202F || u == 0x205F || u == 0x3000
}

/// The first position at or after `from` that holds no white space, or the
/// length of `s` where there is none.
pub open spec fn skip_spaces(s: Seq<char>, from: int) -> int
    decreases s.len() - from,
{
    if from >= s.len() {
        s.len() as int
    } else if !is_space(s[from]) {
        from
    } else {
        skip_spaces(s, from + 1)
    }
}

/// The end of the text that is left of `s[..to]` once the white space at its
/// end is dropped.
pub open spec fn drop_spaces(s: Seq<char>, to: int) -> int
    decreases to,
{
    if to <= 0 {
        0
    } else if !is_space(s[to - 1]) {
        to
    } else {
        drop_spaces(s, to - 1)
    }
}

/// True where `s` holds nothing but white space.
pub open spec fn is_blank(s: Seq<char>) -> bool {
    drop_spaces(s, s.len() as int) == 0
}

/// `s` without the white space at its two ends.
pub open spec fn trimmed(s: Seq<char>) -> Seq<char> {
    if is_blank(s) {
        Seq::<char>::empty()
    } else {
        s.subrange(skip_spaces(s, 0), drop_spaces(s, s.len() as int))
    }
}

/// The start of the line that position `i` lies in.
pub open spec fn line_start(s: Seq<char>, i: int) -> int
    decreases i,
{
    if i <= 0 {
        0
    } else if s[i - 1] == '\n' {
        i
    } else {
        line_start(s, i - 1)
    }
}

/// The position of the line feed that ends the line of position `i`, or the
/// length of `s` where that line is the last and has none.
pub open spec fn line_end(s: Seq<char>, i: int) -> int
    decreases s.len() - i,
{
    if i >= s.len() {
        s.len() as int
    } else if s[i] == '\n' {
        i
    } else {
        line_end(s, i + 1)
    }
}

/// The end of the line's text: a carriage return directly before the line
/// feed belongs to the line ending.
pub open spec fn line_text_end(s: Seq<char>, start: int, end: int) -> int {
    if end < s.len() && start < end && s[end - 1] == '\r' {
        end - 1
    } else {
        end
    }
}

/// The last line of `s` that holds more than white space, without its line
/// ending; `None` where `s` is blank.
pub open spec fn last_text_line(s: Seq<char>) -> Option<Seq<char>> {
    if is_blank(s) {
        None
    } else {
        let last = drop_spaces(s, s.len() as int) - 1;
        let start = line_start(s, last);
        let end = line_end(s, last);
        Some(s.subrange(start, line_text_end(s, start, end)))
    }
}

proof fn lemma_drop_spaces_bounds(s: Seq<char>, to: int)
    requires
        0 <= to <= s.len(),
    ensures
        0 <= drop_spaces(s, to) <= to,
        drop_spaces(s, to) > 0 ==> !is_space(s[drop_spaces(s, to) - 1]),
    decreases to,
{
    if to > 0 && is_space(s[to - 1]) {
        lemma_drop_spaces_bounds(s, to - 1);
    }
}

/// Where some character of `s[..to]` is no white space, the first such
/// character stands before the end that `drop_spaces` finds.
proof fn lemma_skip_before_drop(s: Seq<char>, from: int, to: int)
    requires
        0 <= from <= to <= s.len(),
        drop_spaces(s, to) > from,
    ensures
        skip_spaces(s, from) < drop_spaces(s, to),
    decreases to - from,
{
    lemma_drop_spaces_bounds(s, to);
    if is_space(s[from]) {
        let d = drop_spaces(s, to);
        assert(d - 1 != from);
        lemma_skip_before_drop(s, from + 1, to);
    }
}

/// The texts of a list of strings.
pub open spec fn texts(v: Seq<String>) -> Seq<Seq<char>> {
    v.map_values(|s: String| s@)
}

/// The characters of `s`, in order.
pub fn chars_of(s: &str) -> (v: Vec<char>)
    ensures
        v@ == s@,
{
    let mut v: Vec<char> = Vec::new();
    for c in it: s.chars()
        invariant
            v@ == it.seq().take(it.index() as int),
            it.seq() == s@,
    {
        v.push(c);
    }
    v
}

/// True where the two texts hold the same characters.
pub fn str_eq(a: &str, b: &str) -> (r: bool)
    ensures
        r == (a@ == b@),
{
    let x = String::from_str(a);
    let y = String::from_str(b);
    x == y
}

/// The exec form of `skip_spaces`.
fn first_text_index(v: &Vec<char>, from: usize) -> (r: usize)
    requires
        from <= v.len(),
    ensures
        r == skip_spaces(v@, from as int),
        from <= r <= v.len(),
{
    let mut i: usize = from;
    while i < v.len() && is_whitespace(v[i])
        invariant
            from <= i <= v.len(),
            skip_spaces(v@, from as int) == skip_spaces(v@, i as int),
        decreases v.len() - i,
    {
        i = i + 1;
    }
    i
}

/// The exec form of `drop_spaces`.
fn text_end_index(v: &Vec<char>, to: usize) -> (r: usize)
    requires
        to <= v.len(),
    ensures
        r == drop_spaces(v@, to as int),
        r <= to,
{
    let mut i: usize = to;
    while i > 0 && is_whitespace(v[i - 1])
        invariant
            i <= to <= v.len(),
            drop_spaces(v@, to as int) == drop_spaces(v@, i as int),
        decreases i,
    {
        i = i - 1;
    }
    i
}

/// `s` without the white space at its two ends.
pub fn trim(s: &str) -> (r: String)
    ensures
        r@ == trimmed(s@),
        r@.len() == 0 <==> is_blank(s@),
{
    let v = chars_of(s);
    let end = text_end_index(&v, v.len());
    if end == 0 {
        return String::new();
    }
    let start = first_text_index(&v, 0);
    proof {
        lemma_skip_before_drop(v@, 0, v@.len() as int);
    }
    String::from_str(s.substring_char(start, end))
}

/// The last line of `s` that holds more than white space, without its line
/// ending.
pub fn last_nonblank_line(s: &str) -> (r: Option<String>)
    ensures
        r is Some <==> !is_blank(s@),
        r is Some ==> Some(r->0@) == last_text_line(s@),
{
    let v = chars_of(s);
    let text_end = text_end_index(&v, v.len());
    if text_end == 0 {
        return None;
    }
    let last: usize = text_end - 1;
    let mut start: usize = last;
    while start > 0 && v[start - 1] != '\n'
        invariant
            start <= last < v.len(),
            line_start(v@, last as int) == line_start(v@, start as int),
        decreases start,
    {
        start = start - 1;
    }
    let mut end: usize = last;
    while end < v.len() && v[end] != '\n'
        invariant
            last <= end <= v.len(),
            line_end(v@, last as int) == line_end(v@, end as int),
        decreases v.len() - end,
    {
        end = end + 1;
    }
    let stop: usize = if end < v.len() && start < end && v[end - 1] == '\r' {
        end - 1
    } else {
        end
    };
    Some(String::from_str(s.substring_char(start, stop)))
}

/// True where `s` ends with the characters of `suffix`.
pub open spec fn ends_with(s: Seq<char>, suffix: Seq<char>) -> bool {
    s.len() >= suffix.len() && s.subrange(s.len() - suffix.len(), s.len() as int) == suffix
}

/// True where `s` ends with the characters of `suffix`.
pub fn str_ends_with(s: &str, suffix: &str) -> (r: bool)
    ensures
        r == ends_with(s@, suffix@),
{
    let v = chars_of(s);
    let w = chars_of(suffix);
    if v.len() < w.len() {
        return false;
    }
    let offset: usize = v.len() - w.len();
    let ghost tail = v@.subrange(offset as int, v.len() as int);
    let mut i: usize = 0;
    while i < w.len()
        invariant
            i <= w.len() <= v.len(),
            v@ == s@,
            w@ == suffix@,
            offset == v.len() - w.len(),
            tail == v@.subrange(offset as int, v.len() as int),
            forall|j: int| 0 <= j < i ==> tail[j] == w@[j],
        decreases w.len() - i,
    {
        if v[offset + i] != w[i] {
            assert(tail[i as int] != w@[i as int]);
            return false;
        }
        i = i + 1;
    }
    assert(tail =~= w@);
    true
}

/// The items with a comma and a space between one and the next.
pub open spec fn item_list(items: Seq<Seq<char>>) -> Seq<char>
    decreases items.len(),
{
    if items.len() == 0 {
        Seq::empty()
    } else if items.len() == 1 {
        items[0]
    } else {
        item_list(items.drop_last()) + ", "@ + items.last()
    }
}

/// The list of items in square brackets.
pub open spec fn bracketed(items: Seq<Seq<char>>) -> Seq<char> {
    "["@ + item_list(items) + "]"@
}

/// The list of items in square brackets, with a comma and a space between
/// one item and the next. The items stand as they are given.
pub fn bracket_list(items: &Vec<String>) -> (r: String)
    ensures
        r@ == bracketed(texts(items@)),
{
    let mut out = String::from_str("[");
    let ghost all = texts(items@);
    let mut i: usize = 0;
    assert("["@ + item_list(all.subrange(0, 0)) =~= "["@);
    while i < items.len()
        invariant
            i <= items.len(),
            all == texts(items@),
            out@ == "["@ + item_list(all.subrange(0, i as int)),
        decreases items.len() - i,
    {
        let ghost before = all.subrange(0, i as int);
        let ghost now = all.subrange(0, i + 1);
        assert(now.drop_last() =~= before);
        assert(now.last() == items@[i as int]@);
        if i > 0 {
            out.append(", ");
        }
        out.append(items[i].as_str());
        proof {
            if i == 0 {
                assert(now[0] == items@[0]@);
                assert(item_list(before) =~= Seq::<char>::empty());
                assert(out@ =~= "["@ + item_list(now));
            } else {
                assert(out@ =~= "["@ + item_list(now));
            }
        }
        i = i + 1;
    }
    assert(all.subrange(0, i as int) =~= all);
    out.append("]");
    out
}

/// The form in which the standard library prints a text for debugging:
/// between double quotes, with the characters escaped that it escapes.
pub uninterp spec fn debug_form(s: Seq<char>) -> Seq<char>;

/// `<str as core::fmt::Debug>::fmt`, reached through `format!`: the result
/// is the debug form of the argument, which depends on nothing but the
/// argument's characters.
#[verifier::external_body]
pub(crate) fn debug_text(s: &str) -> (r: String)
    ensures
        r@ == debug_form(s@),
{
    format!("{:?}", s)
}

/// The debug forms of the texts, in their order.
pub open spec fn debug_forms(names: Seq<Seq<char>>) -> Seq<Seq<char>> {
    names.map_values(|name: Seq<char>| debug_form(name))
}

/// The list of names as the standard library prints a list of texts for
/// debugging: in square brackets, each name in its debug form.
pub fn format_names(names: &Vec<String>) -> (r: String)
    ensures
        r@ == bracketed(debug_forms(texts(names@))),
{
    let mut forms: Vec<String> = Vec::new();
    let ghost all = texts(names@);
    let mut i: usize = 0;
    assert(texts(forms@) =~= debug_forms(all.subrange(0, 0)));
    while i < names.len()
        invariant
            i <= names.len(),
            all == texts(names@),
            texts(forms@) == debug_forms(all.subrange(0, i as int)),
        decreases names.len() - i,
    {
        let ghost before = texts(forms@);
        let form = debug_text(names[i].as_str());
        assert(all[i as int] == names@[i as int]@);
        forms.push(form);
        assert(texts(forms@) =~= before.push(debug_form(all[i as int])));
        assert(debug_forms(all.subrange(0, i + 1)) =~= debug_forms(
            all.subrange(0, i as int),
        ).push(debug_form(all[i as int])));
        i = i + 1;
    }
    assert(all.subrange(0, i as int) =~= all);
    bracket_list(&forms)
}

/// The lower-case form of `s` as the standard library computes it.
pub uninterp spec fn lowercase_of(s: Seq<char>) -> Seq<char>;

/// `str::to_lowercase`: the result is the lower-case form of the argument,
/// which depends on nothing but the argument's characters.
#[verifier::external_body]
pub(crate) fn to_lowercase(s: &str) -> (r: String)
    ensures
        r@ == lowercase_of(s@),
{
    s.to_lowercase()
}

} // verus!
