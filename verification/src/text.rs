//! Text as a sequence of characters: the searching, trimming, splitting and
//! number formatting that the rest of the library is built on.
use vstd::prelude::*;
use vstd::slice::*;
use vstd::string::*;

verus! {

/// `String::push` appends one character at the end of the text.
pub assume_specification[ String::push ](s: &mut String, c: char)
    ensures
        final(s)@ == old(s)@.push(c),
;

/// The characters of each string of a list.
pub open spec fn texts(list: Seq<String>) -> Seq<Seq<char>> {
    Seq::new(list.len(), |i: int| list[i]@)
}

/// The characters of an optional string.
pub open spec fn opt_text(text: Option<String>) -> Option<Seq<char>> {
    match text {
        Some(s) => Some(s@),
        None => None,
    }
}

/// The characters of an optional borrowed string.
pub open spec fn opt_str(text: Option<&str>) -> Option<Seq<char>> {
    match text {
        Some(s) => Some(s@),
        None => None,
    }
}

/// The strings of an optional list.
pub open spec fn opt_texts(list: Option<Vec<String>>) -> Option<Seq<Seq<char>>> {
    match list {
        Some(v) => Some(texts(v@)),
        None => None,
    }
}

/// The characters of each slice of a list.
pub open spec fn slices(list: Seq<&[char]>) -> Seq<Seq<char>> {
    Seq::new(list.len(), |i: int| list[i]@)
}

/// The characters of a text, in order.
pub fn chars_of(text: &str) -> (r: Vec<char>)
    ensures
        r@ == text@,
{
    let mut out: Vec<char> = Vec::new();
    for c in iter: text.chars()
        invariant
            out@ == iter.seq().take(iter.index@),
            iter.seq() == text@,
    {
        out.push(c);
    }
    out
}

/// The string made of the given characters.
pub fn string_of(chars: &[char]) -> (r: String)
    ensures
        r@ == chars@,
{
    let mut out = String::new();
    let mut i: usize = 0;
    while i < chars.len()
        invariant
            i <= chars.len(),
            out@ == chars@.take(i as int),
        decreases chars.len() - i,
    {
        out.push(chars[i]);
        i = i + 1;
    }
    out
}

/// Whether two character sequences are the same.
pub fn same_chars(a: &[char], b: &[char]) -> (r: bool)
    ensures
        r == (a@ == b@),
{
    if a.len() != b.len() {
        return false;
    }
    let mut i: usize = 0;
    while i < a.len()
        invariant
            i <= a.len(),
            a.len() == b.len(),
            a@.take(i as int) == b@.take(i as int),
        decreases a.len() - i,
    {
        if a[i] != b[i] {
            assert(a@[i as int] != b@[i as int]);
            return false;
        }
        i = i + 1;
    }
    assert(a@.take(i as int) == a@);
    assert(b@.take(i as int) == b@);
    true
}

/// Whether two texts are the same.
pub fn same_text(a: &str, b: &str) -> (r: bool)
    ensures
        r == (a@ == b@),
{
    let x = chars_of(a);
    let y = chars_of(b);
    same_chars(x.as_slice(), y.as_slice())
}

/// Whether two optional texts are the same.
pub fn same_opt(a: &Option<String>, b: &Option<String>) -> (r: bool)
    ensures
        r == (opt_text(*a) == opt_text(*b)),
{
    match (a, b) {
        (Some(x), Some(y)) => same_text(x.as_str(), y.as_str()),
        (None, None) => true,
        _ => false,
    }
}

/// Whether two lists hold the same texts in the same order.
pub fn same_list(a: &Vec<String>, b: &Vec<String>) -> (r: bool)
    ensures
        r == (texts(a@) == texts(b@)),
{
    if a.len() != b.len() {
        assert(texts(a@).len() != texts(b@).len());
        return false;
    }
    let mut i: usize = 0;
    while i < a.len()
        invariant
            i <= a.len(),
            a.len() == b.len(),
            forall|k: int| 0 <= k < i ==> a@[k]@ == b@[k]@,
        decreases a.len() - i,
    {
        if !same_text(a[i].as_str(), b[i].as_str()) {
            assert(texts(a@)[i as int] != texts(b@)[i as int]);
            return false;
        }
        i = i + 1;
    }
    assert(texts(a@) =~= texts(b@));
    true
}

/// A copy of a text.
pub fn copy_text(text: &String) -> (r: String)
    ensures
        r@ == text@,
{
    text.clone()
}

/// A copy of an optional text.
pub fn copy_opt(text: &Option<String>) -> (r: Option<String>)
    ensures
        opt_text(r) == opt_text(*text),
{
    match text {
        Some(s) => Some(s.clone()),
        None => None,
    }
}

/// A copy of a list of texts.
pub fn copy_list(list: &Vec<String>) -> (r: Vec<String>)
    ensures
        texts(r@) == texts(list@),
{
    let mut out: Vec<String> = Vec::new();
    let mut i: usize = 0;
    while i < list.len()
        invariant
            i <= list.len(),
            out.len() == i,
            forall|k: int| 0 <= k < i ==> out@[k]@ == list@[k]@,
        decreases list.len() - i,
    {
        out.push(list[i].clone());
        i = i + 1;
    }
    assert(texts(out@) =~= texts(list@));
    out
}

/// A copy of an optional list of texts.
pub fn copy_opt_list(list: &Option<Vec<String>>) -> (r: Option<Vec<String>>)
    ensures
        opt_texts(r) == opt_texts(*list),
{
    match list {
        Some(v) => Some(copy_list(v)),
        None => None,
    }
}

/// Pushing a string adds its characters at the end.
pub broadcast proof fn texts_push(list: Seq<String>, s: String)
    ensures
        #[trigger] texts(list.push(s)) == texts(list).push(s@),
{
    assert(texts(list.push(s)) =~= texts(list).push(s@));
}

/// Appends a copy of every text of `more`.
pub fn push_all(list: &mut Vec<String>, more: &Vec<String>)
    ensures
        texts(final(list)@) == texts(old(list)@) + texts(more@),
{
    let mut i: usize = 0;
    while i < more.len()
        invariant
            i <= more.len(),
            texts(list@) == texts(old(list)@) + texts(more@).take(i as int),
        decreases more.len() - i,
    {
        broadcast use texts_push;
        list.push(more[i].clone());
        i = i + 1;
        assert(texts(more@).take(i as int) == texts(more@).take(i - 1).push(texts(more@)[i - 1]));
    }
    assert(texts(more@).take(i as int) == texts(more@));
}

/// Appends the text `text`.
pub fn push_str(list: &mut Vec<String>, text: &str)
    ensures
        texts(final(list)@) == texts(old(list)@).push(text@),
{
    broadcast use texts_push;
    list.push(text.to_owned());
}

/// The position of a text in a list, if it occurs.
pub fn position_of(list: &Vec<String>, text: &str) -> (r: Option<usize>)
    ensures
        match r {
            Some(i) => i < list.len() && list@[i as int]@ == text@
                && (forall|k: int| 0 <= k < i ==> list@[k]@ != text@),
            None => !texts(list@).contains(text@),
        },
{
    let mut i: usize = 0;
    while i < list.len()
        invariant
            i <= list.len(),
            forall|k: int| 0 <= k < i ==> list@[k]@ != text@,
        decreases list.len() - i,
    {
        if same_text(list[i].as_str(), text) {
            return Some(i);
        }
        i = i + 1;
    }
    None
}

// ---------------------------------------------------------------------------
// Characters

/// Whether a character is white space: the characters of the Unicode property
/// `White_Space`.
pub open spec fn is_space(c: char) -> bool {
    let n = c as u32;
    ||| 0x09 <= n <= 0x0d
    ||| n == 0x20
    ||| n == 0x85
    ||| n == 0xa0
    ||| n == 0x1680
    ||| 0x2000 <= n <= 0x200a
    ||| n == 0x2028
    ||| n == 0x2029
    ||| n == 0x202f
    ||| n == 0x205f
    ||| n == 0x3000
}

/// Whether `c` is white space.
pub fn char_is_space(c: char) -> (r: bool)
    ensures
        r == is_space(c),
{
    let n: u32 = c as u32;
    (0x09 <= n && n <= 0x0d) || n == 0x20 || n == 0x85 || n == 0xa0 || n == 0x1680 || (0x2000 <= n
        && n <= 0x200a) || n == 0x2028 || n == 0x2029 || n == 0x202f || n == 0x205f || n == 0x3000
}

/// The ASCII lower case of a character; other characters stay.
pub open spec fn lower(c: char) -> char {
    if 'A' <= c && c <= 'Z' {
        ((c as u8) + 32) as u8 as char
    } else {
        c
    }
}

/// The ASCII lower case of `c`.
pub fn char_lower(c: char) -> (r: char)
    ensures
        r == lower(c),
{
    if 'A' <= c && c <= 'Z' {
        ((c as u8) + 32) as char
    } else {
        c
    }
}

/// The text with every ASCII capital in lower case.
pub open spec fn lowered(s: Seq<char>) -> Seq<char> {
    Seq::new(s.len(), |i: int| lower(s[i]))
}

/// The ASCII lower case of a text.
pub fn to_ascii_lower(s: &[char]) -> (r: Vec<char>)
    ensures
        r@ == lowered(s@),
{
    let mut out: Vec<char> = Vec::new();
    let mut i: usize = 0;
    while i < s.len()
        invariant
            i <= s.len(),
            out@ == lowered(s@).take(i as int),
        decreases s.len() - i,
    {
        out.push(char_lower(s[i]));
        i = i + 1;
    }
    out
}

/// Whether two texts are the same but for the case of ASCII letters.
pub fn same_ignoring_case(a: &[char], b: &[char]) -> (r: bool)
    ensures
        r == (lowered(a@) == lowered(b@)),
{
    let x = to_ascii_lower(a);
    let y = to_ascii_lower(b);
    same_chars(x.as_slice(), y.as_slice())
}

/// The text that `str::to_lowercase` makes of a text.
pub uninterp spec fn unicode_lower(s: Seq<char>) -> Seq<char>;

/// `str::to_lowercase` gives the lower case of a text by the rules of Unicode,
/// which is named [`unicode_lower`]: it depends on the text alone.
#[verifier::external_body]
fn std_lowercase(text: &str) -> (r: String)
    ensures
        r@ == unicode_lower(text@),
{
    text.to_lowercase()
}

/// The lower case of a text by the rules of Unicode.
pub fn lowercase(text: &str) -> (r: String)
    ensures
        r@ == unicode_lower(text@),
{
    std_lowercase(text)
}

/// The number of bytes that a character takes in UTF-8.
pub open spec fn char_bytes(c: char) -> nat {
    let n = c as u32;
    if n < 0x80 {
        1
    } else if n < 0x800 {
        2
    } else if n < 0x10000 {
        3
    } else {
        4
    }
}

/// The number of bytes that a text takes in UTF-8.
pub open spec fn text_bytes(s: Seq<char>) -> nat
    decreases s.len(),
{
    if s.len() == 0 {
        0
    } else {
        text_bytes(s.drop_last()) + char_bytes(s.last())
    }
}

/// The characters that make up the first `n` bytes of a text, or the whole text
/// where it has fewer bytes or a character goes beyond them.
pub open spec fn first_bytes(s: Seq<char>, n: nat) -> Seq<char> {
    if exists|k: int| 0 <= k <= s.len() && text_bytes(#[trigger] s.take(k)) == n {
        s.take(choose|k: int| 0 <= k <= s.len() && text_bytes(#[trigger] s.take(k)) == n)
    } else {
        s
    }
}

/// Longer beginnings of a text take more bytes.
proof fn text_bytes_grow(s: Seq<char>, i: int, j: int)
    requires
        0 <= i < j <= s.len(),
    ensures
        text_bytes(s.take(i)) < text_bytes(s.take(j)),
    decreases j - i,
{
    assert(s.take(j).drop_last() =~= s.take(j - 1));
    if i < j - 1 {
        text_bytes_grow(s, i, j - 1);
    }
}

/// The characters that make up the first `n` bytes of a text, or the whole text
/// where there is no such place.
pub fn take_bytes(s: &[char], n: usize) -> (r: &[char])
    ensures
        r@ == first_bytes(s@, n as nat),
{
    let mut total: usize = 0;
    let mut i: usize = 0;
    assert(s@.take(0) =~= Seq::empty());
    while i < s.len() && total < n
        invariant
            i <= s.len(),
            total <= n,
            total == text_bytes(s@.take(i as int)),
            forall|k: int| 0 <= k < i ==> text_bytes(#[trigger] s@.take(k)) < n,
        decreases s.len() - i,
    {
        let c: u32 = s[i] as u32;
        let more: usize = if c < 0x80 {
            1
        } else if c < 0x800 {
            2
        } else if c < 0x10000 {
            3
        } else {
            4
        };
        proof {
            assert(s@.take(i + 1).drop_last() =~= s@.take(i as int));
            assert(s@.take(i + 1).last() == s@[i as int]);
        }
        if more > n - total {
            proof {
                assert forall|k: int| 0 <= k <= s.len() implies text_bytes(#[trigger] s@.take(k))
                    != n by {
                    if k > i + 1 {
                        text_bytes_grow(s@, i + 1, k);
                    }
                }
            }
            return s;
        }
        total = total + more;
        i = i + 1;
    }
    if total == n {
        let out = slice_subrange(s, 0, i);
        proof {
            assert(out@ =~= s@.take(i as int));
            let k = choose|k: int| 0 <= k <= s@.len() && text_bytes(#[trigger] s@.take(k)) == n;
            if k < i {
                text_bytes_grow(s@, k, i as int);
            } else if i < k {
                text_bytes_grow(s@, i as int, k);
            }
        }
        out
    } else {
        proof {
            assert forall|k: int| 0 <= k <= s.len() implies text_bytes(#[trigger] s@.take(k)) != n by {
                if k < i {
                    text_bytes_grow(s@, k, i as int);
                }
            }
        }
        s
    }
}

// ---------------------------------------------------------------------------
// Searching

/// Whether `s` begins with `prefix`.
pub open spec fn begins(s: Seq<char>, prefix: Seq<char>) -> bool {
    prefix.len() <= s.len() && s.take(prefix.len() as int) == prefix
}

/// Whether `s` ends with `suffix`.
pub open spec fn ends(s: Seq<char>, suffix: Seq<char>) -> bool {
    suffix.len() <= s.len() && s.skip(s.len() - suffix.len()) == suffix
}

/// Whether `part` stands in `s` at position `at`.
pub open spec fn occurs_at(s: Seq<char>, part: Seq<char>, at: int) -> bool {
    0 <= at && at + part.len() <= s.len() && s.subrange(at, at + part.len()) == part
}

/// Whether `part` stands anywhere in `s`.
pub open spec fn has_part(s: Seq<char>, part: Seq<char>) -> bool {
    exists|at: int| occurs_at(s, part, at)
}

/// Whether `s` begins with `prefix`.
pub fn begins_with(s: &[char], prefix: &[char]) -> (r: bool)
    ensures
        r == begins(s@, prefix@),
{
    if prefix.len() > s.len() {
        return false;
    }
    let head = slice_subrange(s, 0, prefix.len());
    same_chars(head, prefix)
}

/// Whether `s` ends with `suffix`.
pub fn ends_with(s: &[char], suffix: &[char]) -> (r: bool)
    ensures
        r == ends(s@, suffix@),
{
    if suffix.len() > s.len() {
        return false;
    }
    let tail = slice_subrange(s, s.len() - suffix.len(), s.len());
    assert(tail@ == s@.skip(s.len() - suffix.len()));
    same_chars(tail, suffix)
}

/// Whether `part` stands anywhere in `s`.
pub fn contains_part(s: &[char], part: &[char]) -> (r: bool)
    ensures
        r == has_part(s@, part@),
{
    if part.len() > s.len() {
        return false;
    }
    let last: usize = s.len() - part.len();
    let mut at: usize = 0;
    while at <= last
        invariant
            last == s.len() - part.len(),
            part.len() <= s.len(),
            at <= last + 1,
            forall|k: int| 0 <= k < at ==> !occurs_at(s@, part@, k),
        decreases last + 1 - at,
    {
        if same_chars(slice_subrange(s, at, at + part.len()), part) {
            assert(occurs_at(s@, part@, at as int));
            return true;
        }
        if at == last {
            assert forall|k: int| !occurs_at(s@, part@, k) by {
                if 0 <= k && k + part.len() <= s.len() {
                    assert(k <= last);
                }
            }
            return false;
        }
        at = at + 1;
    }
    false
}

/// Whether `part` stands anywhere in `text`.
pub fn text_contains(text: &str, part: &str) -> (r: bool)
    ensures
        r == has_part(text@, part@),
{
    let s = chars_of(text);
    let p = chars_of(part);
    contains_part(s.as_slice(), p.as_slice())
}

/// Whether `text` begins with `prefix`.
pub fn text_begins(text: &str, prefix: &str) -> (r: bool)
    ensures
        r == begins(text@, prefix@),
{
    let s = chars_of(text);
    let p = chars_of(prefix);
    begins_with(s.as_slice(), p.as_slice())
}

/// The position of the first `c` in `s`; the length of `s` where there is none.
pub open spec fn first_of(s: Seq<char>, c: char) -> int
    decreases s.len(),
{
    if s.len() == 0 {
        0
    } else if s[0] == c {
        0
    } else {
        1 + first_of(s.skip(1), c)
    }
}

/// `first_of` is the first position that holds `c`.
pub proof fn first_of_bounds(s: Seq<char>, c: char)
    ensures
        0 <= first_of(s, c) <= s.len(),
        forall|k: int| 0 <= k < first_of(s, c) ==> s[k] != c,
        first_of(s, c) < s.len() ==> s[first_of(s, c)] == c,
    decreases s.len(),
{
    if s.len() > 0 && s[0] != c {
        first_of_bounds(s.skip(1), c);
        assert forall|k: int| 0 <= k < first_of(s, c) implies s[k] != c by {
            if k > 0 {
                assert(s.skip(1)[k - 1] == s[k]);
            }
        }
    }
}

/// The first position that holds `c` is the one found.
pub proof fn first_of_unique(s: Seq<char>, c: char, i: int)
    requires
        0 <= i <= s.len(),
        forall|k: int| 0 <= k < i ==> s[k] != c,
        i < s.len() ==> s[i] == c,
    ensures
        first_of(s, c) == i,
{
    first_of_bounds(s, c);
    if first_of(s, c) < i {
        assert(s[first_of(s, c)] != c);
    } else if i < first_of(s, c) {
        assert(s[i] != c);
    }
}

/// The position of the first `c`; the length of `s` where there is none.
pub fn find_char(s: &[char], c: char) -> (r: usize)
    ensures
        r == first_of(s@, c),
        r <= s.len(),
        r < s.len() ==> s@[r as int] == c,
{
    let mut i: usize = 0;
    while i < s.len()
        invariant
            i <= s.len(),
            forall|k: int| 0 <= k < i ==> s@[k] != c,
        decreases s.len() - i,
    {
        if s[i] == c {
            proof {
                first_of_unique(s@, c, i as int);
            }
            return i;
        }
        i = i + 1;
    }
    proof {
        first_of_unique(s@, c, i as int);
    }
    i
}

/// The part of `s` before the first `c`, all of it where there is none.
pub open spec fn before(s: Seq<char>, c: char) -> Seq<char> {
    s.take(first_of(s, c))
}

/// The part of `s` before the first `c` and the part behind it.
pub open spec fn cut_once(s: Seq<char>, c: char) -> Option<(Seq<char>, Seq<char>)> {
    let i = first_of(s, c);
    if i < s.len() {
        Some((s.take(i), s.skip(i + 1)))
    } else {
        None
    }
}

/// The part of `s` before the last `c` and the part behind it.
pub open spec fn cut_last(s: Seq<char>, c: char) -> Option<(Seq<char>, Seq<char>)>
    decreases s.len(),
{
    if s.len() == 0 {
        None
    } else if s.last() == c {
        Some((s.drop_last(), Seq::empty()))
    } else {
        match cut_last(s.drop_last(), c) {
            Some((head, tail)) => Some((head, tail.push(s.last()))),
            None => None,
        }
    }
}

/// Where the last `c` stands decides `cut_last`.
pub proof fn cut_last_at(s: Seq<char>, c: char, i: int)
    requires
        -1 <= i < s.len(),
        i >= 0 ==> s[i] == c,
        forall|k: int| i < k < s.len() ==> s[k] != c,
    ensures
        i >= 0 ==> cut_last(s, c) == Some((s.take(i), s.skip(i + 1))),
        i < 0 ==> cut_last(s, c) is None,
    decreases s.len(),
{
    if s.len() == 0 {
    } else if s.last() == c {
        assert(i == s.len() - 1);
        assert(s.drop_last() =~= s.take(i));
        assert(s.skip(i + 1) =~= Seq::empty());
    } else {
        cut_last_at(s.drop_last(), c, i);
        if i >= 0 {
            assert(s.drop_last().take(i) =~= s.take(i));
            assert(s.drop_last().skip(i + 1).push(s.last()) =~= s.skip(i + 1));
        }
    }
}

/// Cuts `s` at the first `c`.
pub fn split_once(s: &[char], c: char) -> (r: Option<(&[char], &[char])>)
    ensures
        match r {
            Some((a, b)) => cut_once(s@, c) == Some((a@, b@)),
            None => cut_once(s@, c) is None,
        },
{
    let i: usize = find_char(s, c);
    if i < s.len() {
        let a = slice_subrange(s, 0, i);
        let b = slice_subrange(s, i + 1, s.len());
        assert(a@ == s@.take(i as int));
        assert(b@ == s@.skip(i + 1));
        Some((a, b))
    } else {
        None
    }
}

/// Cuts `s` at the last `c`.
pub fn rsplit_once(s: &[char], c: char) -> (r: Option<(&[char], &[char])>)
    ensures
        match r {
            Some((a, b)) => cut_last(s@, c) == Some((a@, b@)),
            None => cut_last(s@, c) is None,
        },
{
    let mut i: usize = s.len();
    while i > 0
        invariant
            i <= s.len(),
            forall|k: int| i <= k < s.len() ==> s@[k] != c,
        decreases i,
    {
        if s[i - 1] == c {
            proof {
                cut_last_at(s@, c, i - 1);
            }
            let a = slice_subrange(s, 0, i - 1);
            let b = slice_subrange(s, i, s.len());
            assert(a@ == s@.take(i - 1));
            assert(b@ == s@.skip(i as int));
            return Some((a, b));
        }
        i = i - 1;
    }
    proof {
        cut_last_at(s@, c, -1);
    }
    None
}

// ---------------------------------------------------------------------------
// Trimming

/// The text without the white space at its beginning.
pub open spec fn trimmed_start(s: Seq<char>) -> Seq<char>
    decreases s.len(),
{
    if s.len() > 0 && is_space(s[0]) {
        trimmed_start(s.skip(1))
    } else {
        s
    }
}

/// The text without the white space at its end.
pub open spec fn trimmed_end(s: Seq<char>) -> Seq<char>
    decreases s.len(),
{
    if s.len() > 0 && is_space(s.last()) {
        trimmed_end(s.drop_last())
    } else {
        s
    }
}

/// The text without the white space at either end.
pub open spec fn trimmed(s: Seq<char>) -> Seq<char> {
    trimmed_end(trimmed_start(s))
}

/// The space at the beginning of a text is what is cut off there.
pub proof fn trimmed_start_at(s: Seq<char>, i: int)
    requires
        0 <= i <= s.len(),
        forall|k: int| 0 <= k < i ==> is_space(s[k]),
        i < s.len() ==> !is_space(s[i]),
    ensures
        trimmed_start(s) == s.skip(i),
    decreases s.len(),
{
    if i == 0 {
        assert(s.skip(0) =~= s);
    } else {
        trimmed_start_at(s.skip(1), i - 1);
        assert(s.skip(1).skip(i - 1) =~= s.skip(i));
    }
}

/// The space at the end of a text is what is cut off there.
pub proof fn trimmed_end_at(s: Seq<char>, i: int)
    requires
        0 <= i <= s.len(),
        forall|k: int| i <= k < s.len() ==> is_space(s[k]),
        i > 0 ==> !is_space(s[i - 1]),
    ensures
        trimmed_end(s) == s.take(i),
    decreases s.len(),
{
    if i == s.len() {
        assert(s.take(i) =~= s);
    } else {
        assert(s.last() == s[s.len() - 1]);
        trimmed_end_at(s.drop_last(), i);
        assert(s.drop_last().take(i) =~= s.take(i));
    }
}

/// Drops the white space at the beginning.
pub fn trim_start(s: &[char]) -> (r: &[char])
    ensures
        r@ == trimmed_start(s@),
{
    let mut i: usize = 0;
    while i < s.len() && char_is_space(s[i])
        invariant
            i <= s.len(),
            forall|k: int| 0 <= k < i ==> is_space(s@[k]),
        decreases s.len() - i,
    {
        i = i + 1;
    }
    let out = slice_subrange(s, i, s.len());
    proof {
        trimmed_start_at(s@, i as int);
        assert(out@ =~= s@.skip(i as int));
    }
    out
}

/// Drops the white space at the end.
pub fn trim_end(s: &[char]) -> (r: &[char])
    ensures
        r@ == trimmed_end(s@),
{
    let mut i: usize = s.len();
    while i > 0 && char_is_space(s[i - 1])
        invariant
            i <= s.len(),
            forall|k: int| i <= k < s.len() ==> is_space(s@[k]),
        decreases i,
    {
        i = i - 1;
    }
    let out = slice_subrange(s, 0, i);
    proof {
        trimmed_end_at(s@, i as int);
        assert(out@ =~= s@.take(i as int));
    }
    out
}

/// Drops the white space at both ends.
pub fn trim(s: &[char]) -> (r: &[char])
    ensures
        r@ == trimmed(s@),
{
    trim_end(trim_start(s))
}

/// The text without the white space at both ends.
pub fn trim_text(text: &str) -> (r: String)
    ensures
        r@ == trimmed(text@),
{
    let s = chars_of(text);
    string_of(trim(s.as_slice()))
}

/// A trimmed text neither begins nor ends with white space.
pub proof fn trimmed_has_no_outer_space(s: Seq<char>)
    ensures
        trimmed(s).len() > 0 ==> !is_space(trimmed(s)[0]) && !is_space(trimmed(s).last()),
        trimmed(s).len() <= s.len(),
{
    trimmed_start_facts(s);
    trimmed_end_facts(trimmed_start(s));
}

proof fn trimmed_start_facts(s: Seq<char>)
    ensures
        trimmed_start(s).len() > 0 ==> !is_space(trimmed_start(s)[0]),
        trimmed_start(s).len() <= s.len(),
    decreases s.len(),
{
    if s.len() > 0 && is_space(s[0]) {
        trimmed_start_facts(s.skip(1));
    }
}

proof fn trimmed_end_facts(s: Seq<char>)
    ensures
        trimmed_end(s).len() > 0 ==> !is_space(trimmed_end(s).last()) && trimmed_end(s)[0] == s[0],
        trimmed_end(s).len() <= s.len(),
    decreases s.len(),
{
    if s.len() > 0 && is_space(s.last()) {
        trimmed_end_facts(s.drop_last());
    }
}

// ---------------------------------------------------------------------------
// Splitting

/// The pieces of `s` between the characters that `sep` picks.
pub open spec fn pieces(s: Seq<char>, sep: spec_fn(char) -> bool) -> Seq<Seq<char>>
    decreases s.len(),
{
    if s.len() == 0 {
        seq![Seq::empty()]
    } else {
        let rest = pieces(s.drop_last(), sep);
        if sep(s.last()) {
            rest.push(Seq::empty())
        } else {
            rest.drop_last().push(rest.last().push(s.last()))
        }
    }
}

/// There is always at least one piece.
pub proof fn pieces_not_empty(s: Seq<char>, sep: spec_fn(char) -> bool)
    ensures
        pieces(s, sep).len() > 0,
    decreases s.len(),
{
    if s.len() > 0 {
        pieces_not_empty(s.drop_last(), sep);
    }
}

/// Picks the characters of a list.
pub open spec fn any_of(list: Seq<char>) -> spec_fn(char) -> bool {
    |c: char| list.contains(c)
}

/// Picks the one character `c`.
pub open spec fn just(c: char) -> spec_fn(char) -> bool {
    |x: char| x == c
}

/// Whether `c` is one of the characters of `list`.
pub fn is_one_of(list: &[char], c: char) -> (r: bool)
    ensures
        r == list@.contains(c),
{
    let i: usize = find_char(list, c);
    proof {
        first_of_bounds(list@, c);
        if i < list.len() {
            assert(list@[i as int] == c);
        }
    }
    i < list.len()
}

/// Splits `s` at every character of `marks`.
pub fn split_at_any<'a>(s: &'a [char], marks: &[char]) -> (r: Vec<&'a [char]>)
    ensures
        slices(r@) == pieces(s@, any_of(marks@)),
        r.len() > 0,
{
    let ghost sep = any_of(marks@);
    let mut out: Vec<&[char]> = Vec::new();
    let mut start: usize = 0;
    let mut i: usize = 0;
    assert(slices(out@).push(s@.subrange(0, 0)) =~~= pieces(s@.take(0), sep));
    while i < s.len()
        invariant
            start <= i <= s.len(),
            sep == any_of(marks@),
            slices(out@).push(s@.subrange(start as int, i as int)) == pieces(s@.take(i as int), sep),
        decreases s.len() - i,
    {
        let ghost before = s@.take(i as int);
        let ghost after = s@.take(i + 1);
        let ghost old_out = out@;
        let ghost old_start = start;
        proof {
            assert(after.drop_last() =~= before);
            assert(after.last() == s@[i as int]);
        }
        if is_one_of(marks, s[i]) {
            let piece = slice_subrange(s, start, i);
            out.push(piece);
            start = i + 1;
            proof {
                assert(slices(out@) =~= slices(old_out).push(s@.subrange(old_start as int, i as int)));
                assert(s@.subrange(start as int, i + 1) =~= Seq::empty());
            }
        } else {
            proof {
                assert(s@.subrange(start as int, i + 1) =~= s@.subrange(start as int, i as int).push(
                    s@[i as int],
                ));
                assert(slices(out@).push(s@.subrange(start as int, i as int)).drop_last() =~= slices(
                    out@,
                ));
            }
        }
        i = i + 1;
    }
    let ghost old_out = out@;
    out.push(slice_subrange(s, start, s.len()));
    proof {
        assert(slices(out@) =~= slices(old_out).push(s@.subrange(start as int, s.len() as int)));
        assert(s@.take(s.len() as int) =~= s@);
    }
    out
}

/// Splits `s` at every `c`.
pub fn split_at_char(s: &[char], c: char) -> (r: Vec<&[char]>)
    ensures
        slices(r@) == pieces(s@, just(c)),
        r.len() > 0,
{
    let marks: [char; 1] = [c];
    let out = split_at_any(s, marks.as_slice());
    assert(any_of(marks@) =~= just(c)) by {
        assert forall|x: char| #[trigger] any_of(marks@)(x) == just(c)(x) by {
            if x == c {
                assert(marks@[0] == x);
            }
        }
    }
    out
}

/// The runs of characters of `s` that are not white space, in order.
pub open spec fn words(s: Seq<char>) -> Seq<Seq<char>> {
    pieces(s, |c: char| is_space(c)).filter(|w: Seq<char>| w.len() > 0)
}

/// The lines of a text: the pieces between line feeds, but for an empty last
/// one; a carriage return right before a line feed belongs to the line's end.
pub open spec fn lines(s: Seq<char>) -> Seq<Seq<char>> {
    let parts = pieces(s, just('\n'));
    let ended = Seq::new(
        (parts.len() - 1) as nat,
        |i: int| without_return(parts[i]),
    );
    if parts.last().len() == 0 {
        ended
    } else {
        ended.push(parts.last())
    }
}

/// The text without one carriage return at its end.
pub open spec fn without_return(s: Seq<char>) -> Seq<char> {
    if s.len() > 0 && s.last() == '\r' {
        s.drop_last()
    } else {
        s
    }
}

/// The words of a text, in order.
pub fn split_words(s: &[char]) -> (r: Vec<&[char]>)
    ensures
        slices(r@) == words(s@),
{
    let ghost sep = |c: char| is_space(c);
    let ghost full = |w: Seq<char>| w.len() > 0;
    let mut out: Vec<&[char]> = Vec::new();
    let mut start: usize = 0;
    let mut i: usize = 0;
    let ghost mut done: Seq<Seq<char>> = Seq::empty();
    proof {
        assert(done.push(s@.subrange(0, 0)) =~~= pieces(s@.take(0), sep));
        reveal(Seq::filter);
        assert(slices(out@) =~= done.filter(full));
    }
    while i < s.len()
        invariant
            start <= i <= s.len(),
            sep == (|c: char| is_space(c)),
            full == (|w: Seq<char>| w.len() > 0),
            done.push(s@.subrange(start as int, i as int)) == pieces(s@.take(i as int), sep),
            slices(out@) == done.filter(full),
        decreases s.len() - i,
    {
        let ghost before = s@.take(i as int);
        let ghost after = s@.take(i + 1);
        let ghost old_out = out@;
        let ghost old_done = done;
        let ghost piece_view = s@.subrange(start as int, i as int);
        proof {
            assert(after.drop_last() =~= before);
            assert(after.last() == s@[i as int]);
        }
        if char_is_space(s[i]) {
            if start < i {
                out.push(slice_subrange(s, start, i));
            }
            start = i + 1;
            proof {
                done = old_done.push(piece_view);
                filter_push(old_done, piece_view, full);
                if piece_view.len() > 0 {
                    assert(slices(out@) =~= slices(old_out).push(piece_view));
                }
                assert(s@.subrange(start as int, i + 1) =~= Seq::empty());
            }
        } else {
            proof {
                assert(s@.subrange(start as int, i + 1) =~= piece_view.push(s@[i as int]));
                assert(done.push(piece_view).drop_last() =~= done);
            }
        }
        i = i + 1;
    }
    let ghost old_out = out@;
    if start < s.len() {
        out.push(slice_subrange(s, start, s.len()));
    }
    proof {
        let last = s@.subrange(start as int, s.len() as int);
        filter_push(done, last, full);
        if last.len() > 0 {
            assert(slices(out@) =~= slices(old_out).push(last));
        }
        assert(s@.take(s.len() as int) =~= s@);
    }
    out
}

/// Filtering a sequence with one more element.
pub proof fn filter_push<A>(s: Seq<A>, x: A, p: spec_fn(A) -> bool)
    ensures
        s.push(x).filter(p) == (if p(x) {
            s.filter(p).push(x)
        } else {
            s.filter(p)
        }),
{
    reveal(Seq::filter);
    assert(s.push(x).drop_last() =~= s);
}

/// The lines of a text, in order.
pub fn split_lines(s: &[char]) -> (r: Vec<&[char]>)
    ensures
        slices(r@) == lines(s@),
{
    let parts = split_at_char(s, '\n');
    let n: usize = parts.len();
    let ghost view = slices(parts@);
    let mut out: Vec<&[char]> = Vec::new();
    let mut i: usize = 0;
    while i + 1 < n
        invariant
            n == parts.len(),
            n > 0,
            view == slices(parts@),
            i <= n - 1,
            slices(out@) == Seq::new(i as nat, |k: int| without_return(view[k])),
        decreases n - i,
    {
        let part = parts[i];
        let ghost old_out = out@;
        let line = if part.len() > 0 && part[part.len() - 1] == '\r' {
            slice_subrange(part, 0, part.len() - 1)
        } else {
            part
        };
        assert(line@ =~= without_return(view[i as int]));
        out.push(line);
        assert(slices(out@) =~= slices(old_out).push(line@));
        i = i + 1;
        assert(slices(out@) =~= Seq::new(i as nat, |k: int| without_return(view[k])));
    }
    let last = parts[n - 1];
    if last.len() > 0 {
        let ghost old_out = out@;
        out.push(last);
        assert(slices(out@) =~= slices(old_out).push(last@));
    }
    assert(slices(out@) =~= lines(s@));
    out
}

// ---------------------------------------------------------------------------
// Replacing and joining

/// The text with every `from` replaced by `to`.
pub open spec fn replaced(s: Seq<char>, from: char, to: char) -> Seq<char> {
    Seq::new(
        s.len(),
        |i: int|
            if s[i] == from {
                to
            } else {
                s[i]
            },
    )
}

/// Replaces every `from` by `to`.
pub fn replace_char(s: &[char], from: char, to: char) -> (r: Vec<char>)
    ensures
        r@ == replaced(s@, from, to),
{
    let mut out: Vec<char> = Vec::new();
    let mut i: usize = 0;
    while i < s.len()
        invariant
            i <= s.len(),
            out@ == replaced(s@, from, to).take(i as int),
        decreases s.len() - i,
    {
        let c = if s[i] == from {
            to
        } else {
            s[i]
        };
        out.push(c);
        i = i + 1;
    }
    out
}

/// The texts of a list one behind the other, with `sep` between each two.
pub open spec fn joined(list: Seq<Seq<char>>, sep: Seq<char>) -> Seq<char>
    decreases list.len(),
{
    if list.len() == 0 {
        Seq::empty()
    } else if list.len() == 1 {
        list[0]
    } else {
        joined(list.drop_last(), sep) + sep + list.last()
    }
}

/// Joins the texts of a list with `sep` between each two.
pub fn join(list: &Vec<String>, sep: &str) -> (r: String)
    ensures
        r@ == joined(texts(list@), sep@),
{
    let mut out = String::new();
    let mut i: usize = 0;
    while i < list.len()
        invariant
            i <= list.len(),
            out@ == joined(texts(list@).take(i as int), sep@),
        decreases list.len() - i,
    {
        if i > 0 {
            out.append(sep);
        }
        out.append(list[i].as_str());
        i = i + 1;
        proof {
            let now = texts(list@).take(i as int);
            assert(now.drop_last() =~= texts(list@).take(i - 1));
            assert(now.last() == list@[i - 1]@);
            if i == 1 {
                assert(out@ =~= now[0]);
            }
        }
    }
    assert(texts(list@).take(i as int) =~= texts(list@));
    out
}

// ---------------------------------------------------------------------------
// Numbers

/// The digit character of a number below ten.
pub open spec fn digit_char(d: int) -> char {
    (48 + d) as u8 as char
}

/// The decimal digits of a number, without leading zeros.
pub open spec fn decimal(n: nat) -> Seq<char>
    decreases n,
{
    if n < 10 {
        seq![digit_char(n as int)]
    } else {
        decimal(n / 10).push(digit_char((n % 10) as int))
    }
}

/// The decimal digits of `n`.
pub fn decimal_of(n: u64) -> (r: String)
    ensures
        r@ == decimal(n as nat),
    decreases n,
{
    let d: u8 = (n % 10) as u8;
    let c: char = (48 + d) as char;
    let mut out = if n < 10 {
        String::new()
    } else {
        decimal_of(n / 10)
    };
    out.push(c);
    assert(n < 10 ==> out@ =~= seq![digit_char(n as int)]);
    out
}

/// The decimal digits of a number, behind a minus sign where it is negative.
pub open spec fn signed_decimal(n: int) -> Seq<char> {
    if n < 0 {
        seq!['-'] + decimal((-n) as nat)
    } else {
        decimal(n as nat)
    }
}

/// The decimal digits of `n`, behind a minus sign where it is negative.
pub fn signed_decimal_of(n: i32) -> (r: String)
    ensures
        r@ == signed_decimal(n as int),
{
    if n < 0 {
        let mut out = String::new();
        out.push('-');
        let size: u64 = (-(n as i64)) as u64;
        out.append(decimal_of(size).as_str());
        assert(out@ =~= signed_decimal(n as int));
        out
    } else {
        decimal_of(n as u64)
    }
}

/// Whether `c` is one of the ten ASCII digits.
pub open spec fn is_digit(c: char) -> bool {
    '0' <= c && c <= '9'
}

/// The value of a sequence of ASCII digits.
pub open spec fn digits_value(s: Seq<char>) -> nat
    decreases s.len(),
{
    if s.len() == 0 {
        0
    } else {
        digits_value(s.drop_last()) * 10 + ((s.last() as u32 - 48) as nat)
    }
}

/// Whether every character of `s` is an ASCII digit.
pub open spec fn all_digits(s: Seq<char>) -> bool {
    forall|i: int| 0 <= i < s.len() ==> is_digit(#[trigger] s[i])
}

/// The number that a text spells: digits, with one `+` allowed before them.
pub open spec fn spelled_number(s: Seq<char>) -> Option<nat> {
    let digits = if s.len() > 0 && s[0] == '+' {
        s.skip(1)
    } else {
        s
    };
    if digits.len() > 0 && all_digits(digits) {
        Some(digits_value(digits))
    } else {
        None
    }
}

/// The port number that a text spells, if it spells one of sixteen bits.
pub open spec fn spelled_port(s: Seq<char>) -> Option<u16> {
    match spelled_number(s) {
        Some(n) => if n <= 65535 {
            Some(n as u16)
        } else {
            None
        },
        None => None,
    }
}

proof fn digits_value_grows(s: Seq<char>, i: int)
    requires
        0 <= i <= s.len(),
        all_digits(s),
    ensures
        digits_value(s.take(i)) <= digits_value(s),
    decreases s.len() - i,
{
    if i == s.len() {
        assert(s.take(i) =~= s);
    } else {
        let next = s.take(i + 1);
        assert(next.drop_last() =~= s.take(i));
        assert(next.last() == s[i]);
        digits_value_grows(s, i + 1);
    }
}

/// Reads a port number.
pub fn parse_port(s: &[char]) -> (r: Option<u16>)
    ensures
        r == spelled_port(s@),
{
    let digits = if s.len() > 0 && s[0] == '+' {
        slice_subrange(s, 1, s.len())
    } else {
        s
    };
    let ghost signless = if s.len() > 0 && s@[0] == '+' {
        s@.skip(1)
    } else {
        s@
    };
    assert(digits@ =~= signless);
    if digits.len() == 0 {
        return None;
    }
    let mut k: usize = 0;
    while k < digits.len()
        invariant
            k <= digits.len(),
            digits@ == signless,
            digits.len() > 0,
            signless == (if s@.len() > 0 && s@[0] == '+' {
                s@.skip(1)
            } else {
                s@
            }),
            forall|i: int| 0 <= i < k ==> is_digit(#[trigger] digits@[i]),
        decreases digits.len() - k,
    {
        if !('0' <= digits[k] && digits[k] <= '9') {
            assert(!is_digit(signless[k as int]));
            return None;
        }
        k = k + 1;
    }
    assert(all_digits(digits@));
    let mut value: u32 = 0;
    let mut i: usize = 0;
    while i < digits.len()
        invariant
            i <= digits.len(),
            digits@ == signless,
            digits.len() > 0,
            signless == (if s@.len() > 0 && s@[0] == '+' {
                s@.skip(1)
            } else {
                s@
            }),
            all_digits(digits@),
            value <= 65535,
            value == digits_value(digits@.take(i as int)),
        decreases digits.len() - i,
    {
        let d: u32 = digits[i] as u32;
        proof {
            assert(is_digit(digits@[i as int]));
            let next = digits@.take(i + 1);
            assert(next.drop_last() =~= digits@.take(i as int));
            assert(next.last() == digits@[i as int]);
        }
        value = value * 10 + (d - 48);
        i = i + 1;
        if value > 65535 {
            proof {
                digits_value_grows(digits@, i as int);
            }
            return None;
        }
    }
    assert(digits@.take(i as int) =~= digits@);
    Some(value as u16)
}

/// The digits of a number are digits, and spell that number.
pub proof fn decimal_spells(n: nat)
    ensures
        decimal(n).len() > 0,
        all_digits(decimal(n)),
        digits_value(decimal(n)) == n,
    decreases n,
{
    let last = digit_char((n % 10) as int);
    assert(is_digit(last) && last as u32 - 48 == n % 10);
    if n < 10 {
        assert(decimal(n).drop_last() =~= Seq::empty());
        assert(decimal(n).last() == last);
        assert(digits_value(decimal(n).drop_last()) == 0);
    } else {
        decimal_spells(n / 10);
        assert(decimal(n).drop_last() =~= decimal(n / 10));
        assert forall|i: int| 0 <= i < decimal(n).len() implies is_digit(
            #[trigger] decimal(n)[i],
        ) by {
            if i < decimal(n / 10).len() {
                assert(decimal(n)[i] == decimal(n / 10)[i]);
            }
        }
    }
}

/// A port that is written out in digits is read back.
pub proof fn written_port_is_read_back(port: u16)
    ensures
        spelled_port(decimal(port as nat)) == Some(port),
        decimal(port as nat).len() > 0,
        trimmed(decimal(port as nat)) == decimal(port as nat),
{
    let s = decimal(port as nat);
    decimal_spells(port as nat);
    assert(is_digit(s[0]));
    assert(is_digit(s[s.len() - 1]));
    assert(trimmed_start(s) == s);
}

/// Splitting at a mark: a text without marks behind one more mark is one more
/// piece.
pub proof fn pieces_push(s: Seq<char>, mark: char, t: Seq<char>, sep: spec_fn(char) -> bool)
    requires
        sep(mark),
        forall|i: int| 0 <= i < t.len() ==> !sep(#[trigger] t[i]),
    ensures
        pieces(s.push(mark) + t, sep) == pieces(s, sep).push(t),
    decreases t.len(),
{
    let all = s.push(mark) + t;
    if t.len() == 0 {
        assert(all =~= s.push(mark));
        assert(all.drop_last() =~= s);
        assert(t =~= Seq::empty());
    } else {
        let head = t.drop_last();
        assert forall|i: int| 0 <= i < head.len() implies !sep(#[trigger] head[i]) by {
            assert(head[i] == t[i]);
        }
        pieces_push(s, mark, head, sep);
        assert(all.drop_last() =~= s.push(mark) + head);
        assert(all.last() == t.last());
        assert(!sep(t[t.len() - 1]));
        assert(pieces(s, sep).push(head).drop_last() =~= pieces(s, sep));
        assert(head.push(t.last()) =~= t);
    }
}

/// A text without marks is one piece.
pub proof fn pieces_of_one(t: Seq<char>, sep: spec_fn(char) -> bool)
    requires
        forall|i: int| 0 <= i < t.len() ==> !sep(#[trigger] t[i]),
    ensures
        pieces(t, sep) == seq![t],
    decreases t.len(),
{
    if t.len() == 0 {
        assert(t =~= Seq::empty());
    } else {
        let head = t.drop_last();
        assert forall|i: int| 0 <= i < head.len() implies !sep(#[trigger] head[i]) by {
            assert(head[i] == t[i]);
        }
        pieces_of_one(head, sep);
        assert(!sep(t[t.len() - 1]));
        assert(seq![head].drop_last() =~= Seq::empty());
        assert(head.push(t.last()) =~= t);
        assert(pieces(t, sep) =~= seq![t]);
    }
}

// ---------------------------------------------------------------------------
// Order

/// The order of texts: by the first character that differs, and a text before
/// the longer ones that begin with it.
pub open spec fn text_before(a: Seq<char>, b: Seq<char>) -> bool
    decreases a.len(),
{
    if b.len() == 0 {
        false
    } else if a.len() == 0 {
        true
    } else if a[0] != b[0] {
        a[0] < b[0]
    } else {
        text_before(a.skip(1), b.skip(1))
    }
}

/// No text stands before itself.
pub proof fn text_before_irreflexive(a: Seq<char>)
    ensures
        !text_before(a, a),
    decreases a.len(),
{
    if a.len() > 0 {
        text_before_irreflexive(a.skip(1));
    }
}

/// The order carries over.
pub proof fn text_before_transitive(a: Seq<char>, b: Seq<char>, c: Seq<char>)
    requires
        text_before(a, b),
        text_before(b, c),
    ensures
        text_before(a, c),
    decreases a.len(),
{
    if a.len() > 0 && b.len() > 0 && c.len() > 0 && a[0] == b[0] && b[0] == c[0] {
        text_before_transitive(a.skip(1), b.skip(1), c.skip(1));
    }
}

/// Of two different texts one stands before the other.
pub proof fn text_before_total(a: Seq<char>, b: Seq<char>)
    ensures
        text_before(a, b) || text_before(b, a) || a == b,
    decreases a.len(),
{
    if a.len() > 0 && b.len() > 0 && a[0] == b[0] {
        text_before_total(a.skip(1), b.skip(1));
        if a.skip(1) == b.skip(1) {
            assert(a =~= seq![a[0]] + a.skip(1));
            assert(b =~= seq![b[0]] + b.skip(1));
        }
    } else if a.len() == 0 && b.len() == 0 {
        assert(a =~= b);
    }
}

/// Whether `a` stands before `b`.
pub fn stands_before(a: &[char], b: &[char]) -> (r: bool)
    ensures
        r == text_before(a@, b@),
{
    let mut i: usize = 0;
    assert(a@.skip(0) =~= a@);
    assert(b@.skip(0) =~= b@);
    while i < a.len() && i < b.len()
        invariant
            i <= a.len(),
            i <= b.len(),
            text_before(a@, b@) == text_before(a@.skip(i as int), b@.skip(i as int)),
        decreases a.len() - i,
    {
        if a[i] != b[i] {
            return a[i] < b[i];
        }
        assert(a@.skip(i as int).skip(1) =~= a@.skip(i + 1));
        assert(b@.skip(i as int).skip(1) =~= b@.skip(i + 1));
        i = i + 1;
    }
    i < b.len()
}

/// Whether the texts of a list ascend strictly, so that none occurs twice.
pub open spec fn ascending(list: Seq<Seq<char>>) -> bool {
    forall|i: int, j: int| 0 <= i < j < list.len() ==> text_before(list[i], list[j])
}

/// Adds a text to an ascending list, where it does not hold it yet.
pub fn insert_text(list: &mut Vec<String>, text: String)
    requires
        ascending(texts(old(list)@)),
    ensures
        ascending(texts(final(list)@)),
        texts(final(list)@).to_set() == texts(old(list)@).to_set().insert(text@),
{
    let new = chars_of(text.as_str());
    let mut i: usize = 0;
    let ghost before = texts(list@);
    while i < list.len()
        invariant
            i <= list.len(),
            *list == *old(list),
            before == texts(list@),
            ascending(before),
            new@ == text@,
            forall|k: int| 0 <= k < i ==> text_before(before[k], text@),
        decreases list.len() - i,
    {
        let here = chars_of(list[i].as_str());
        if same_chars(here.as_slice(), new.as_slice()) {
            proof {
                assert(before[i as int] == text@);
                assert(before.to_set().insert(text@) =~= before.to_set());
            }
            return ;
        }
        if !stands_before(here.as_slice(), new.as_slice()) {
            proof {
                text_before_total(before[i as int], text@);
                assert forall|k: int| i <= k < before.len() implies text_before(text@, before[k]) by {
                    if k > i {
                        text_before_transitive(text@, before[i as int], before[k]);
                    }
                }
                insert_ascends(before, text@, i as int);
            }
            list.insert(i, text);
            assert(texts(list@) =~= before.insert(i as int, text@));
            return ;
        }
        i = i + 1;
    }
    proof {
        insert_ascends(before, text@, i as int);
    }
    list.push(text);
    assert(texts(list@) =~= before.insert(i as int, text@));
}

proof fn insert_ascends(list: Seq<Seq<char>>, text: Seq<char>, at: int)
    requires
        ascending(list),
        0 <= at <= list.len(),
        forall|k: int| 0 <= k < at ==> text_before(list[k], text),
        forall|k: int| at <= k < list.len() ==> text_before(text, list[k]),
    ensures
        ascending(list.insert(at, text)),
        list.insert(at, text).to_set() == list.to_set().insert(text),
{
    let out = list.insert(at, text);
    assert forall|i: int, j: int| 0 <= i < j < out.len() implies text_before(out[i], out[j]) by {
        let a = if i < at {
            i
        } else {
            i - 1
        };
        let b = if j < at {
            j
        } else {
            j - 1
        };
        if i != at && j != at {
            assert(text_before(list[a], list[b]));
        }
    }
    insert_to_set(list, text, at);
}

/// Inserting a value anywhere adds it to the values held.
pub proof fn insert_to_set<A>(list: Seq<A>, x: A, at: int)
    requires
        0 <= at <= list.len(),
    ensures
        list.insert(at, x).to_set() == list.to_set().insert(x),
{
    let out = list.insert(at, x);
    assert forall|y: A| out.to_set().contains(y) == list.to_set().insert(x).contains(y) by {
        if out.contains(y) {
            let k = choose|k: int| 0 <= k < out.len() && out[k] == y;
            if k < at {
                assert(list[k] == y);
            } else if k > at {
                assert(list[k - 1] == y);
            }
        }
        if list.contains(y) {
            let k = choose|k: int| 0 <= k < list.len() && list[k] == y;
            if k < at {
                assert(out[k] == y);
            } else {
                assert(out[k + 1] == y);
            }
        }
        if y == x {
            assert(out[at] == y);
        }
    }
    assert(out.to_set() =~= list.to_set().insert(x));
}

/// An ascending list is fixed by the texts that it holds.
pub proof fn ascending_is_unique(a: Seq<Seq<char>>, b: Seq<Seq<char>>)
    requires
        ascending(a),
        ascending(b),
        a.to_set() == b.to_set(),
    ensures
        a == b,
    decreases a.len(),
{
    if a.len() == 0 {
        if b.len() > 0 {
            assert(b.to_set().contains(b[0]));
            assert(a.contains(b[0]));
        }
        assert(a =~= b);
    } else if b.len() == 0 {
        assert(a.to_set().contains(a[0]));
        assert(b.contains(a[0]));
    } else {
        let la = a.last();
        let lb = b.last();
        assert(a.to_set().contains(la) && b.to_set().contains(lb)) by {
            assert(a[a.len() - 1] == la);
            assert(b[b.len() - 1] == lb);
        }
        assert(b.contains(la) && a.contains(lb));
        let i = choose|i: int| 0 <= i < b.len() && b[i] == la;
        let j = choose|j: int| 0 <= j < a.len() && a[j] == lb;
        if la != lb {
            assert(text_before(b[i], b[b.len() - 1]));
            assert(text_before(a[j], a[a.len() - 1]));
            text_before_transitive(la, lb, la);
            text_before_irreflexive(la);
        }
        let a1 = a.drop_last();
        let b1 = b.drop_last();
        assert forall|x: Seq<char>| a1.to_set().contains(x) == b1.to_set().contains(x) by {
            text_before_irreflexive(x);
            if a1.contains(x) {
                let k = choose|k: int| 0 <= k < a1.len() && a1[k] == x;
                assert(text_before(a[k], a[a.len() - 1]));
                assert(a[k] == x);
                assert(a.to_set().contains(x));
                assert(b.contains(x));
                let m = choose|m: int| 0 <= m < b.len() && b[m] == x;
                assert(m < b.len() - 1);
                assert(b1[m] == x);
            }
            if b1.contains(x) {
                let k = choose|k: int| 0 <= k < b1.len() && b1[k] == x;
                assert(text_before(b[k], b[b.len() - 1]));
                assert(b[k] == x);
                assert(b.to_set().contains(x));
                assert(a.contains(x));
                let m = choose|m: int| 0 <= m < a.len() && a[m] == x;
                assert(m < a.len() - 1);
                assert(a1[m] == x);
            }
        }
        assert(a1.to_set() =~= b1.to_set());
        ascending_is_unique(a1, b1);
        assert(a =~= a1.push(la));
        assert(b =~= b1.push(lb));
    }
}

// ---------------------------------------------------------------------------
// What the functions on texts do

/// The characters that are white space.
pub proof fn spaces_are_these(c: char)
    ensures
        is_space(c) <==> c == ' ' || c == '\t' || c == '\n' || c == '\r' || c == '\u{b}' || c
            == '\u{c}' || c == '\u{85}' || c == '\u{a0}' || c == '\u{1680}' || '\u{2000}' <= c
            <= '\u{200a}' || c == '\u{2028}' || c == '\u{2029}' || c == '\u{202f}' || c == '\u{205f}'
            || c == '\u{3000}',
{
}

/// A capital of ASCII becomes the small letter at the same place of the
/// alphabet, and every other character stays.
pub proof fn capitals_become_small(c: char)
    ensures
        'A' <= c <= 'Z' ==> lower(c) as u32 - 'a' as u32 == c as u32 - 'A' as u32,
        !('A' <= c <= 'Z') ==> lower(c) == c,
{
    if 'A' <= c <= 'Z' {
        let n = c as u8;
        assert((n + 32) as u8 == n + 32);
    }
}

/// Trimming cuts off the white space around a text and nothing else.
pub proof fn space_around_is_cut_off(a: Seq<char>, s: Seq<char>, b: Seq<char>)
    requires
        forall|k: int| 0 <= k < a.len() ==> is_space(#[trigger] a[k]),
        forall|k: int| 0 <= k < b.len() ==> is_space(#[trigger] b[k]),
        s.len() > 0,
        !is_space(s[0]),
        !is_space(s.last()),
    ensures
        trimmed(a + s + b) == s,
        trimmed(a).len() == 0,
        trimmed_start(a + s) == s,
        trimmed_end(s + b) == s,
{
    let all = a + s + b;
    let n = a.len() as int;
    assert forall|k: int| 0 <= k < n implies is_space(all[k]) by {
        assert(all[k] == a[k]);
    }
    assert(all[n] == s[0]);
    trimmed_start_at(all, n);
    let t = s + b;
    assert(all.skip(n) =~= t);
    assert forall|k: int| s.len() <= k < t.len() implies is_space(t[k]) by {
        assert(t[k] == b[k - s.len()]);
    }
    assert(t[s.len() - 1] == s.last());
    trimmed_end_at(t, s.len() as int);
    assert(t.take(s.len() as int) =~= s);
    trimmed_start_at(a, n);
    assert(a.skip(n) =~= Seq::empty());
    let u = a + s;
    assert forall|k: int| 0 <= k < n implies is_space(u[k]) by {
        assert(u[k] == a[k]);
    }
    assert(u[n] == s[0]);
    trimmed_start_at(u, n);
    assert(u.skip(n) =~= s);
}

/// Splitting at a character loses nothing: the pieces, put together again with
/// that character between them, are the text, and none of them holds it.
pub proof fn pieces_make_up_the_text(s: Seq<char>, c: char)
    ensures
        joined(pieces(s, just(c)), seq![c]) == s,
        forall|k: int, i: int|
            0 <= k < pieces(s, just(c)).len() && 0 <= i < pieces(s, just(c))[k].len()
                ==> #[trigger] pieces(s, just(c))[k][i] != c,
    decreases s.len(),
{
    let sep = just(c);
    let all = pieces(s, sep);
    let mark = seq![c];
    if s.len() == 0 {
        assert(all =~= seq![Seq::<char>::empty()]);
        assert(joined(all, mark) =~= s);
    } else {
        let head = s.drop_last();
        let rest = pieces(head, sep);
        pieces_make_up_the_text(head, c);
        pieces_not_empty(head, sep);
        if sep(s.last()) {
            assert(all.drop_last() =~= rest);
            assert(joined(all, mark) =~= s);
            assert forall|k: int, i: int|
                0 <= k < all.len() && 0 <= i < all[k].len() implies #[trigger] all[k][i] != c by {
                assert(all[k] == rest[k]);
                assert(rest[k][i] != c);
            }
        } else {
            let last = rest.last();
            assert(all.drop_last() =~= rest.drop_last());
            assert(all.last() == last.push(s.last()));
            if rest.len() > 1 {
                assert(joined(all, mark) =~= joined(rest, mark).push(s.last()));
            } else {
                assert(all =~= seq![last.push(s.last())]);
                assert(joined(rest, mark) == last);
            }
            assert(joined(all, mark) =~= s);
            assert forall|k: int, i: int|
                0 <= k < all.len() && 0 <= i < all[k].len() implies #[trigger] all[k][i] != c by {
                if k < all.len() - 1 {
                    assert(all[k] == rest[k]);
                    assert(rest[k][i] != c);
                } else if i < last.len() {
                    assert(rest[rest.len() - 1][i] != c);
                }
            }
        }
    }
}

/// A text is parted at the first of a character, or at the last; where there is
/// none it is not parted.
pub proof fn texts_are_parted(a: Seq<char>, c: char, b: Seq<char>)
    ensures
        (forall|k: int| 0 <= k < a.len() ==> a[k] != c) ==> cut_once(a.push(c) + b, c) == Some((a, b))
            && before(a.push(c) + b, c) == a,
        (forall|k: int| 0 <= k < b.len() ==> b[k] != c) ==> cut_last(a.push(c) + b, c) == Some((a, b)),
        (forall|k: int| 0 <= k < a.len() ==> a[k] != c) ==> cut_once(a, c) is None && cut_last(a, c) is None
            && before(a, c) == a,
{
    let all = a.push(c) + b;
    let n = a.len() as int;
    assert(all.take(n) =~= a);
    assert(all.skip(n + 1) =~= b);
    if forall|k: int| 0 <= k < a.len() ==> a[k] != c {
        assert forall|k: int| 0 <= k < n implies all[k] != c by {
            assert(all[k] == a[k]);
        }
        first_of_unique(all, c, n);
        first_of_unique(a, c, n);
        assert(a.take(n) =~= a);
        cut_last_at(a, c, -1);
    }
    if forall|k: int| 0 <= k < b.len() ==> b[k] != c {
        assert forall|k: int| n < k < all.len() implies all[k] != c by {
            assert(all[k] == b[k - n - 1]);
        }
        cut_last_at(all, c, n);
    }
}

/// What stands at the beginning, at the end or in the middle of a text is found
/// there.
pub proof fn parts_are_found(a: Seq<char>, part: Seq<char>, b: Seq<char>)
    ensures
        begins(part + b, part),
        ends(a + part, part),
        has_part(a + part + b, part),
        begins(b, part) ==> b.len() >= part.len() && forall|k: int|
            0 <= k < part.len() ==> b[k] == part[k],
{
    assert((part + b).take(part.len() as int) =~= part);
    assert((a + part).skip((a + part).len() - part.len()) =~= part);
    let s = a + part + b;
    assert(s.subrange(a.len() as int, (a.len() + part.len()) as int) =~= part);
    assert(occurs_at(s, part, a.len() as int));
    if begins(b, part) {
        assert forall|k: int| 0 <= k < part.len() implies b[k] == part[k] by {
            assert(b.take(part.len() as int)[k] == part[k]);
        }
    }
}

/// Replacing a character touches that character alone.
pub proof fn one_character_is_replaced(s: Seq<char>, from: char, to: char, i: int)
    requires
        0 <= i < s.len(),
    ensures
        replaced(s, from, to).len() == s.len(),
        s[i] == from ==> replaced(s, from, to)[i] == to,
        s[i] != from ==> replaced(s, from, to)[i] == s[i],
{
}

/// A number is written in decimal digits without leading zeros, behind a minus
/// sign where it is negative.
pub proof fn numbers_are_written_in_decimals(n: nat)
    ensures
        digits_value(decimal(n)) == n,
        n > 0 ==> decimal(n)[0] != '0',
        decimal(0) == seq!['0'],
        n > 0 ==> signed_decimal(-n) == seq!['-'] + decimal(n),
        signed_decimal(n as int) == decimal(n),
{
    decimal_spells(n);
    no_leading_zero(n);
    assert(decimal(0) =~= seq!['0']);
}

proof fn no_leading_zero(n: nat)
    ensures
        n > 0 ==> decimal(n)[0] != '0',
    decreases n,
{
    if n >= 10 {
        no_leading_zero(n / 10);
        decimal_spells(n / 10);
        assert(decimal(n)[0] == decimal(n / 10)[0]);
    }
}

/// A port is spelled by digits, with a plus sign before them or without, up to
/// 65535; anything else is no port.
pub proof fn ports_are_spelled_in_digits(n: nat, s: Seq<char>)
    ensures
        n <= 65535 ==> spelled_port(decimal(n)) == Some(n as u16) && spelled_port(
            seq!['+'] + decimal(n),
        ) == Some(n as u16),
        n > 65535 ==> spelled_port(decimal(n)) is None,
        spelled_port(Seq::empty()) is None,
        spelled_port(seq!['+']) is None,
        s.len() > 0 && !is_digit(s.last()) ==> spelled_port(s) is None,
{
    decimal_spells(n);
    let d = decimal(n);
    assert(is_digit(d[0]));
    assert((seq!['+'] + d).skip(1) =~= d);
    assert(seq!['+'].skip(1) =~= Seq::<char>::empty());
    if s.len() > 0 && !is_digit(s.last()) {
        if s[0] == '+' {
            let t = s.skip(1);
            if t.len() > 0 && all_digits(t) {
                assert(is_digit(t[t.len() - 1]));
            }
        } else if all_digits(s) {
            assert(is_digit(s[s.len() - 1]));
        }
    }
}

/// Texts are ordered by the first character that differs, and a text stands
/// before the longer ones that begin with it.
pub proof fn first_difference_orders_texts(
    lead: Seq<char>,
    x: char,
    y: char,
    a: Seq<char>,
    b: Seq<char>,
)
    requires
        x != y,
    ensures
        text_before(lead.push(x) + a, lead.push(y) + b) <==> x < y,
        text_before(lead, lead.push(x) + a),
        !text_before(lead.push(x) + a, lead),
    decreases lead.len(),
{
    let p = lead.push(x) + a;
    let q = lead.push(y) + b;
    if lead.len() > 0 {
        let rest = lead.skip(1);
        first_difference_orders_texts(rest, x, y, a, b);
        assert(p.skip(1) =~= rest.push(x) + a);
        assert(q.skip(1) =~= rest.push(y) + b);
        assert(p[0] == lead[0] && q[0] == lead[0]);
    } else {
        assert(p[0] == x && q[0] == y);
    }
}

/// The beginning of a text by bytes ends with a whole character, and is the
/// whole text where none ends there.
pub proof fn beginnings_end_with_whole_characters(s: Seq<char>, k: int)
    requires
        0 <= k <= s.len(),
    ensures
        first_bytes(s, text_bytes(s.take(k))) == s.take(k),
        forall|n: nat|
            text_bytes(s) < n ==> #[trigger] first_bytes(s, n) == s,
{
    let n = text_bytes(s.take(k));
    assert(0 <= k <= s.len() && text_bytes(s.take(k)) == n);
    let j = choose|j: int| 0 <= j <= s.len() && text_bytes(#[trigger] s.take(j)) == n;
    if j < k {
        text_bytes_grow(s, j, k);
    } else if k < j {
        text_bytes_grow(s, k, j);
    }
    assert forall|m: nat| text_bytes(s) < m implies #[trigger] first_bytes(s, m) == s by {
        if exists|i: int| 0 <= i <= s.len() && text_bytes(#[trigger] s.take(i)) == m {
            let i = choose|i: int| 0 <= i <= s.len() && text_bytes(#[trigger] s.take(i)) == m;
            assert(s.take(s.len() as int) =~= s);
            if i < s.len() {
                text_bytes_grow(s, i, s.len() as int);
            }
        }
    }
}

} // verus!
