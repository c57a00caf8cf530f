//! Quoting for POSIX shells.
use crate::text::{opt_text, texts};
use vstd::prelude::*;

verus! {

/// The text that `shlex::try_quote` makes of a text without nul characters.
pub uninterp spec fn shlex_quoted(s: Seq<char>) -> Seq<char>;

/// Whether a character means nothing to a shell.
pub open spec fn plain_char(c: char) -> bool {
    ||| 'a' <= c <= 'z'
    ||| 'A' <= c <= 'Z'
    ||| '0' <= c <= '9'
    ||| c == '+'
    ||| c == '-'
    ||| c == '.'
    ||| c == '/'
    ||| c == ':'
    ||| c == '@'
    ||| c == ']'
    ||| c == '_'
}

/// Whether a text is one word to a shell as it stands.
pub open spec fn plain_word(s: Seq<char>) -> bool {
    s.len() > 0 && forall|i: int| 0 <= i < s.len() ==> plain_char(#[trigger] s[i])
}

/// A text as it is quoted for the shell; none where it holds a nul character.
pub open spec fn quoted(s: Seq<char>) -> Option<Seq<char>> {
    if s.contains('\0') {
        None
    } else {
        Some(shlex_quoted(s))
    }
}

/// `shlex::try_quote` gives a text that a shell reads as the given one, which
/// depends on that alone and is named [`shlex_quoted`]. It refuses just the
/// texts that hold a nul character, and leaves a plain word as it is. What
/// other texts are turned into is left unsaid.
#[verifier::external_body]
fn shlex_try_quote(text: &str) -> (r: Option<String>)
    ensures
        match r {
            Some(q) => !text@.contains('\0') && q@ == shlex_quoted(text@),
            None => text@.contains('\0'),
        },
        plain_word(text@) ==> opt_text(r) == Some(text@),
{
    match shlex::try_quote(text) {
        Ok(text) => Some(text.into_owned()),
        Err(_) => None,
    }
}

/// A text as it is quoted for the shell.
pub fn try_quote(text: &str) -> (r: Option<String>)
    ensures
        opt_text(r) == quoted(text@),
        plain_word(text@) ==> opt_text(r) == Some(text@),
{
    shlex_try_quote(text)
}

/// The texts of a list as they are quoted for the shell.
pub open spec fn all_quoted(list: Seq<Seq<char>>) -> Seq<Option<Seq<char>>> {
    Seq::new(list.len(), |i: int| quoted(list[i]))
}

/// The optional texts of a list.
pub open spec fn opt_text_list(list: Seq<Option<String>>) -> Seq<Option<Seq<char>>> {
    Seq::new(list.len(), |i: int| opt_text(list[i]))
}

/// The texts of a list as they are quoted for the shell.
pub fn try_quote_all(list: &Vec<String>) -> (r: Vec<Option<String>>)
    ensures
        opt_text_list(r@) == all_quoted(texts(list@)),
{
    let mut out: Vec<Option<String>> = Vec::new();
    let mut i: usize = 0;
    while i < list.len()
        invariant
            i <= list.len(),
            out.len() == i,
            forall|k: int| 0 <= k < i ==> opt_text(#[trigger] out@[k]) == quoted(list@[k]@),
        decreases list.len() - i,
    {
        out.push(try_quote(list[i].as_str()));
        i = i + 1;
    }
    assert(opt_text_list(out@) =~= all_quoted(texts(list@)));
    out
}

/// A text can be quoted for a shell just where it holds no nul character, and
/// each text of a list is quoted by itself.
pub proof fn texts_without_nul_are_quoted(list: Seq<Seq<char>>, i: int)
    requires
        0 <= i < list.len(),
    ensures
        all_quoted(list).len() == list.len(),
        all_quoted(list)[i] is Some <==> forall|k: int|
            0 <= k < list[i].len() ==> #[trigger] list[i][k] != '\0',
        all_quoted(list)[i] matches Some(q) ==> q == shlex_quoted(list[i]),
{
    let s = list[i];
    if s.contains('\0') {
        let k = choose|k: int| 0 <= k < s.len() && s[k] == '\0';
        assert(list[i][k] == '\0');
    } else {
        assert forall|k: int| 0 <= k < list[i].len() implies #[trigger] list[i][k] != '\0' by {
            assert(s[k] == list[i][k]);
        }
    }
}

} // verus!
