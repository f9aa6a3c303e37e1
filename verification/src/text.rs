//! Text primitives over sequences of characters.
//!
//! Every rule of this crate is stated over `Seq<char>`. The executable
//! functions here work on slices of `char`; `chars_of` and `string_of` carry
//! a `str` into that form and back.

use vstd::prelude::*;

verus! {

/// `String::push` appends one character at the end of the string and leaves
/// the characters before it as they were.
pub assume_specification[ String::push ](s: &mut String, ch: char)
    ensures
        final(s)@ == old(s)@.push(ch),
;

/// Whether `c` is white space: the code points that carry Unicode's
/// `White_Space` property.
pub open spec fn is_space(c: char) -> bool {
    let n = c as u32;
    ||| 0x09 <= n <= 0x0d
    ||| n == 0x20
    ||| n == 0x85
    ||| n == 0xa0
    ||| n == 0x1680
    ||| 0x2000 <= n <= 0x200a
    ||| n == 0x2028
    ||| n == 0x2029
    ||| n == 0x202f
    ||| n == 0x205f
    ||| n == 0x3000
}

/// `s` without its leading white space.
pub open spec fn trim_start(s: Seq<char>) -> Seq<char>
    decreases s.len(),
{
    if s.len() > 0 && is_space(s[0]) {
        trim_start(s.drop_first())
    } else {
        s
    }
}

/// `s` without its trailing white space.
pub open spec fn trim_end(s: Seq<char>) -> Seq<char>
    decreases s.len(),
{
    if s.len() > 0 && is_space(s.last()) {
        trim_end(s.drop_last())
    } else {
        s
    }
}

/// `s` without leading and trailing white space.
pub open spec fn trimmed(s: Seq<char>) -> Seq<char> {
    trim_end(trim_start(s))
}

/// How many characters stand at the start of `s` before its first white
/// space (all of them, where it holds none).
pub open spec fn word_len(s: Seq<char>) -> nat
    decreases s.len(),
{
    if s.len() == 0 || is_space(s[0]) {
        0
    } else {
        1 + word_len(s.drop_first())
    }
}

/// The first run of characters of `s` that are not white space; empty where
/// `s` is empty or all white space.
pub open spec fn first_word(s: Seq<char>) -> Seq<char> {
    let t = trim_start(s);
    t.take(word_len(t) as int)
}

/// Whether `needle` stands in `s` at position `i`.
pub open spec fn occurs_at(s: Seq<char>, needle: Seq<char>, i: int) -> bool {
    0 <= i && i + needle.len() <= s.len() && s.subrange(i, i + needle.len()) == needle
}

/// Whether `needle` stands somewhere in `s`.
pub open spec fn occurs(s: Seq<char>, needle: Seq<char>) -> bool {
    exists|i: int| occurs_at(s, needle, i)
}

/// What stands in `s` after its first `c`; `None` where `s` holds no `c`.
pub open spec fn after_first(s: Seq<char>, c: char) -> Option<Seq<char>>
    decreases s.len(),
{
    if s.len() == 0 {
        None
    } else if s[0] == c {
        Some(s.drop_first())
    } else {
        after_first(s.drop_first(), c)
    }
}

/// The pieces of `s` between its occurrences of `sep`: one more piece than
/// there are separators, empty pieces included.
pub open spec fn split_on(s: Seq<char>, sep: char) -> Seq<Seq<char>>
    decreases s.len(),
{
    if s.len() == 0 {
        seq![Seq::<char>::empty()]
    } else {
        let before = split_on(s.drop_last(), sep);
        if s.last() == sep {
            before.push(Seq::<char>::empty())
        } else {
            before.drop_last().push(before.last().push(s.last()))
        }
    }
}

/// The lines of `s`: its pieces between line feeds.
pub open spec fn lines_of(s: Seq<char>) -> Seq<Seq<char>> {
    split_on(s, '\n')
}

/// `s` with every trailing repetition of `suffix` removed.
pub open spec fn strip_all_suffix(s: Seq<char>, suffix: Seq<char>) -> Seq<char>
    decreases s.len(),
{
    if suffix.len() > 0 && suffix.is_suffix_of(s) {
        strip_all_suffix(s.take(s.len() - suffix.len()), suffix)
    } else {
        s
    }
}

/// `c` with an ASCII capital letter turned into its small letter.
pub open spec fn ascii_lower(c: char) -> char {
    if 'A' <= c <= 'Z' {
        ((c as u8) + 32) as char
    } else {
        c
    }
}

/// `s` with each ASCII capital letter turned into its small letter.
pub open spec fn ascii_lowered(s: Seq<char>) -> Seq<char> {
    s.map_values(|c: char| ascii_lower(c))
}

/// The character sequences that the vectors of `v` hold, in order.
pub open spec fn texts(v: Seq<Vec<char>>) -> Seq<Seq<char>> {
    v.map_values(|piece: Vec<char>| piece@)
}

/// The `words` in a row, with `sep` between each two of them.
pub open spec fn joined(words: Seq<Seq<char>>, sep: Seq<char>) -> Seq<char>
    decreases words.len(),
{
    if words.len() == 0 {
        Seq::empty()
    } else if words.len() == 1 {
        words[0]
    } else {
        joined(words.drop_last(), sep) + sep + words.last()
    }
}

/// The character sequences of a list of strings.
pub open spec fn string_views(list: Seq<String>) -> Seq<Seq<char>> {
    list.map_values(|s: String| s@)
}

/// The character sequence of an optional text.
pub open spec fn optional_view(text: Option<&str>) -> Option<Seq<char>> {
    match text {
        Some(t) => Some(t@),
        None => None,
    }
}

/// The character sequence of an optional string.
pub open spec fn optional_string_view(text: Option<String>) -> Option<Seq<char>> {
    match text {
        Some(t) => Some(t@),
        None => None,
    }
}

/// The characters of `s`, in order.
pub fn chars_of(s: &str) -> (out: Vec<char>)
    ensures
        out@ == s@,
{
    let mut out: Vec<char> = Vec::new();
    for c in it: s.chars()
        invariant
            out@ == it.seq().take(it.index()),
            it.seq() == s@,
    {
        out.push(c);
    }
    out
}

/// The string whose characters are those of `chars`, in order.
pub fn string_of(chars: &[char]) -> (out: String)
    ensures
        out@ == chars@,
{
    let mut out = String::new();
    let mut i: usize = 0;
    while i < chars.len()
        invariant
            i <= chars.len(),
            out@ == chars@.take(i as int),
        decreases chars.len() - i,
    {
        out.push(chars[i]);
        i += 1;
    }
    out
}

/// A string with the characters of `s`.
pub fn owned(s: &str) -> (out: String)
    ensures
        out@ == s@,
{
    let chars = chars_of(s);
    string_of(chars.as_slice())
}

/// A list with the same strings as `list`.
pub fn copy_strings(list: &Vec<String>) -> (out: Vec<String>)
    ensures
        string_views(out@) == string_views(list@),
{
    let mut out: Vec<String> = Vec::new();
    let mut i: usize = 0;
    while i < list.len()
        invariant
            i <= list.len(),
            string_views(out@) == string_views(list@).take(i as int),
        decreases list.len() - i,
    {
        let ghost before = string_views(out@);
        let item = list[i].clone();
        out.push(item);
        assert(string_views(out@) == before.push(item@));
        assert(string_views(list@).take(i + 1) == string_views(list@).take(i as int).push(
            list@[i as int]@,
        ));
        i += 1;
    }
    assert(string_views(list@).take(list.len() as int) == string_views(list@));
    out
}

/// Appends a string with the characters of `word` to `out`.
pub fn push_word(out: &mut Vec<String>, word: &str)
    ensures
        string_views(final(out)@) == string_views(old(out)@).push(word@),
{
    let item = owned(word);
    out.push(item);
    assert(string_views(out@) == string_views(old(out)@).push(item@));
}

/// The `words` in a row, with `sep` between each two of them.
pub fn join(words: &Vec<String>, sep: &str) -> (out: String)
    ensures
        out@ == joined(string_views(words@), sep@),
{
    let ghost all = string_views(words@);
    let mut text: Vec<char> = Vec::new();
    let mut i: usize = 0;
    assert(all.take(0) == Seq::<Seq<char>>::empty());
    while i < words.len()
        invariant
            i <= words.len(),
            all == string_views(words@),
            text@ == joined(all.take(i as int), sep@),
        decreases words.len() - i,
    {
        assert(all.take(i + 1).drop_last() == all.take(i as int));
        assert(all.take(i + 1).last() == words@[i as int]@);
        if i > 0 {
            push_text(&mut text, sep);
        } else {
            assert(text@ + words@[i as int]@ == words@[i as int]@);
        }
        push_text(&mut text, words[i].as_str());
        i += 1;
    }
    assert(all.take(words.len() as int) == all);
    string_of(text.as_slice())
}

/// Whether `c` is white space.
pub fn is_whitespace(c: char) -> (b: bool)
    ensures
        b == is_space(c),
{
    let n: u32 = c as u32;
    (0x09 <= n && n <= 0x0d) || n == 0x20 || n == 0x85 || n == 0xa0 || n == 0x1680 || (0x2000 <= n
        && n <= 0x200a) || n == 0x2028 || n == 0x2029 || n == 0x202f || n == 0x205f || n == 0x3000
}

/// Whether `a` and `b` hold the same characters.
pub fn same_text(a: &[char], b: &[char]) -> (eq: bool)
    ensures
        eq == (a@ == b@),
{
    if a.len() != b.len() {
        return false;
    }
    let mut i: usize = 0;
    while i < a.len()
        invariant
            i <= a.len(),
            a.len() == b.len(),
            a@.take(i as int) == b@.take(i as int),
        decreases a.len() - i,
    {
        if a[i] != b[i] {
            return false;
        }
        assert(a@.take(i + 1) == a@.take(i as int).push(a@[i as int]));
        assert(b@.take(i + 1) == b@.take(i as int).push(b@[i as int]));
        i += 1;
    }
    assert(a@ == a@.take(a.len() as int));
    assert(b@ == b@.take(b.len() as int));
    true
}

/// Whether `needle` stands in `s` at position `at`.
pub fn matches_at(s: &[char], needle: &[char], at: usize) -> (b: bool)
    ensures
        b == occurs_at(s@, needle@, at as int),
{
    if at > s.len() || needle.len() > s.len() - at {
        return false;
    }
    let mut i: usize = 0;
    while i < needle.len()
        invariant
            i <= needle.len(),
            at + needle.len() <= s.len(),
            s@.subrange(at as int, at + i) == needle@.take(i as int),
        decreases needle.len() - i,
    {
        if s[at + i] != needle[i] {
            assert(s@.subrange(at as int, at + needle.len())[i as int] != needle@[i as int]);
            return false;
        }
        assert(s@.subrange(at as int, at + i + 1) == s@.subrange(at as int, at + i).push(
            s@[at + i],
        ));
        assert(needle@.take(i + 1) == needle@.take(i as int).push(needle@[i as int]));
        i += 1;
    }
    assert(needle@ == needle@.take(needle.len() as int));
    true
}

/// Whether `s` begins with `prefix`.
pub fn starts_with(s: &[char], prefix: &[char]) -> (b: bool)
    ensures
        b == prefix@.is_prefix_of(s@),
{
    matches_at(s, prefix, 0)
}

/// Whether `s` ends with `suffix`.
pub fn ends_with(s: &[char], suffix: &[char]) -> (b: bool)
    ensures
        b == suffix@.is_suffix_of(s@),
{
    if suffix.len() > s.len() {
        return false;
    }
    matches_at(s, suffix, s.len() - suffix.len())
}

/// Whether `needle` stands somewhere in `s`.
pub fn contains(s: &[char], needle: &[char]) -> (b: bool)
    ensures
        b == occurs(s@, needle@),
{
    if needle.len() > s.len() {
        return false;
    }
    let last: usize = s.len() - needle.len();
    let mut i: usize = 0;
    loop
        invariant
            i <= last,
            last == s.len() - needle.len(),
            forall|j: int| 0 <= j < i ==> !occurs_at(s@, needle@, j),
        decreases last - i,
    {
        if matches_at(s, needle, i) {
            return true;
        }
        if i == last {
            return false;
        }
        i += 1;
    }
}

/// The characters of `s` from `from` up to, not including, `to`.
pub(crate) fn slice_of(s: &[char], from: usize, to: usize) -> (out: Vec<char>)
    requires
        from <= to <= s.len(),
    ensures
        out@ == s@.subrange(from as int, to as int),
{
    let mut out: Vec<char> = Vec::new();
    let mut i: usize = from;
    while i < to
        invariant
            from <= i <= to,
            to <= s.len(),
            out@ == s@.subrange(from as int, i as int),
        decreases to - i,
    {
        out.push(s[i]);
        i += 1;
    }
    out
}

/// `a` followed by `b`.
pub fn chain(a: &[char], b: &[char]) -> (out: Vec<char>)
    ensures
        out@ == a@ + b@,
{
    let mut out: Vec<char> = slice_of(a, 0, a.len());
    let mut i: usize = 0;
    while i < b.len()
        invariant
            i <= b.len(),
            out@ == a@ + b@.take(i as int),
        decreases b.len() - i,
    {
        out.push(b[i]);
        i += 1;
    }
    assert(b@.take(b.len() as int) == b@);
    out
}

/// Appends the characters of `piece` to `out`.
pub fn push_all(out: &mut Vec<char>, piece: &[char])
    ensures
        final(out)@ == old(out)@ + piece@,
{
    let mut i: usize = 0;
    while i < piece.len()
        invariant
            i <= piece.len(),
            out@ == old(out)@ + piece@.take(i as int),
        decreases piece.len() - i,
    {
        out.push(piece[i]);
        i += 1;
    }
    assert(piece@.take(piece.len() as int) == piece@);
}

/// Appends the characters of `piece` to `out`.
pub fn push_text(out: &mut Vec<char>, piece: &str)
    ensures
        final(out)@ == old(out)@ + piece@,
{
    let chars = chars_of(piece);
    push_all(out, chars.as_slice());
}

/// What stands in `s` after its first `c`; `None` where `s` holds no `c`.
pub fn rest_after(s: &[char], c: char) -> (out: Option<Vec<char>>)
    ensures
        out is Some == after_first(s@, c) is Some,
        out matches Some(rest) ==> Some(rest@) == after_first(s@, c),
{
    let mut i: usize = 0;
    assert(s@.skip(0) == s@);
    while i < s.len()
        invariant
            i <= s.len(),
            after_first(s@, c) == after_first(s@.skip(i as int), c),
        decreases s.len() - i,
    {
        assert(s@.skip(i as int).drop_first() == s@.skip(i + 1));
        if s[i] == c {
            assert(s@.skip(i + 1) == s@.subrange(i + 1, s.len() as int));
            return Some(slice_of(s, i + 1, s.len()));
        }
        i += 1;
    }
    None
}

/// The position of the first character of `s` that is not white space, or
/// the length of `s` where there is none.
fn leading_space_len(s: &[char]) -> (a: usize)
    ensures
        a <= s.len(),
        trim_start(s@) == s@.skip(a as int),
{
    let mut a: usize = 0;
    assert(s@.skip(0) == s@);
    while a < s.len() && is_whitespace(s[a])
        invariant
            a <= s.len(),
            trim_start(s@) == trim_start(s@.skip(a as int)),
        decreases s.len() - a,
    {
        assert(s@.skip(a as int).drop_first() == s@.skip(a + 1));
        a += 1;
    }
    a
}

/// `s` without leading and trailing white space.
pub fn trim(s: &[char]) -> (out: Vec<char>)
    ensures
        out@ == trimmed(s@),
{
    let a = leading_space_len(s);
    let ghost t = s@.skip(a as int);
    let mut b: usize = s.len();
    assert(t.take(b - a) == t);
    while b > a && is_whitespace(s[b - 1])
        invariant
            a <= b <= s.len(),
            t == s@.skip(a as int),
            trim_end(t) == trim_end(t.take(b - a)),
        decreases b,
    {
        assert(t.take(b - a).drop_last() == t.take(b - a - 1));
        b -= 1;
    }
    assert(t.take(b - a) == s@.subrange(a as int, b as int));
    slice_of(s, a, b)
}

/// The first run of characters of `s` that are not white space, or `None`
/// where `s` holds no such character.
pub fn leading_word(s: &[char]) -> (out: Option<Vec<char>>)
    ensures
        out is None <==> first_word(s@).len() == 0,
        out matches Some(w) ==> w@ == first_word(s@),
{
    let a = leading_space_len(s);
    let ghost t = s@.skip(a as int);
    let mut b: usize = a;
    assert(t.skip(0) == t);
    while b < s.len() && !is_whitespace(s[b])
        invariant
            a <= b <= s.len(),
            t == s@.skip(a as int),
            word_len(t) == (b - a) + word_len(t.skip(b - a)),
        decreases s.len() - b,
    {
        assert(t.skip(b - a).drop_first() == t.skip(b - a + 1));
        b += 1;
    }
    assert(t.take(b - a) == s@.subrange(a as int, b as int));
    if b == a {
        None
    } else {
        Some(slice_of(s, a, b))
    }
}

/// The pieces of `s` between its occurrences of `sep`.
pub fn split(s: &[char], sep: char) -> (out: Vec<Vec<char>>)
    ensures
        texts(out@) == split_on(s@, sep),
{
    let mut done: Vec<Vec<char>> = Vec::new();
    let mut piece: Vec<char> = Vec::new();
    let mut i: usize = 0;
    while i < s.len()
        invariant
            i <= s.len(),
            texts(done@).push(piece@) == split_on(s@.take(i as int), sep),
        decreases s.len() - i,
    {
        let ghost next = s@.take(i + 1);
        assert(next.drop_last() == s@.take(i as int));
        let ghost before = texts(done@).push(piece@);
        assert(before.drop_last() == texts(done@));
        if s[i] == sep {
            done.push(piece);
            piece = Vec::new();
            assert(texts(done@) == before);
        } else {
            piece.push(s[i]);
        }
        i += 1;
    }
    assert(s@.take(s.len() as int) == s@);
    let ghost before = texts(done@).push(piece@);
    done.push(piece);
    assert(texts(done@) == before);
    done
}

/// `s` with every trailing repetition of `suffix` removed.
pub fn strip_suffix_repeated(s: &[char], suffix: &[char]) -> (out: Vec<char>)
    ensures
        out@ == strip_all_suffix(s@, suffix@),
{
    let mut end: usize = s.len();
    assert(s@.take(end as int) == s@);
    if suffix.len() == 0 {
        return slice_of(s, 0, end);
    }
    while end >= suffix.len() && matches_at(s, suffix, end - suffix.len())
        invariant
            end <= s.len(),
            suffix.len() > 0,
            strip_all_suffix(s@, suffix@) == strip_all_suffix(s@.take(end as int), suffix@),
        decreases end,
    {
        let ghost cur = s@.take(end as int);
        assert(cur.subrange(cur.len() - suffix.len(), cur.len() as int) == s@.subrange(
            end - suffix.len(),
            end as int,
        ));
        assert(cur.take(cur.len() - suffix.len()) == s@.take(end - suffix.len()));
        end -= suffix.len();
    }
    proof {
        let cur = s@.take(end as int);
        if end >= suffix.len() {
            assert(cur.subrange(cur.len() - suffix.len(), cur.len() as int) == s@.subrange(
                end - suffix.len(),
                end as int,
            ));
        }
    }
    slice_of(s, 0, end)
}

/// `c` with an ASCII capital letter turned into its small letter.
pub fn to_ascii_lower(c: char) -> (out: char)
    ensures
        out == ascii_lower(c),
{
    if 'A' <= c && c <= 'Z' {
        ((c as u8) + 32) as char
    } else {
        c
    }
}

/// `s` with each ASCII capital letter turned into its small letter.
pub fn lowered(s: &[char]) -> (out: Vec<char>)
    ensures
        out@ == ascii_lowered(s@),
{
    let mut out: Vec<char> = Vec::new();
    let mut i: usize = 0;
    while i < s.len()
        invariant
            i <= s.len(),
            out@ == ascii_lowered(s@.take(i as int)),
        decreases s.len() - i,
    {
        out.push(to_ascii_lower(s[i]));
        assert(s@.take(i + 1) == s@.take(i as int).push(s@[i as int]));
        i += 1;
    }
    assert(s@.take(s.len() as int) == s@);
    out
}

} // verus!
