//! What a configuration of an OpenSSH client says, line by line: which lines
//! begin and end the block of a host, and what the lines between them set.
use crate::settings::{filter_member, kept_are_the_picked};
use crate::ssh_config::{
    after_keyword, bare_line, bare_lines_hold_no_comment, config_entries, config_hosts,
    entry_or_blank, goes_on, host_fields, host_word, lines_of_joined, listed_hosts, match_word,
    named_hosts, names_host, pieces_of_joined, scan_entry_line, scan_entry_lines, scan_line,
    scan_lines, with_setting, with_setting_for, without_backslashes, EntryScan,
};
use crate::text::{
    before, first_of, first_of_bounds, first_of_unique, is_space, joined, just, lines, lower,
    lowered, pieces, pieces_not_empty, pieces_of_one, spelled_port, trimmed_end, trimmed_end_at,
    trimmed_start, trimmed_start_at, without_return, words,
};
use vstd::prelude::*;

verus! {

// ---------------------------------------------------------------------------
// Lines and their keywords

/// Whether the first word of a line stands at `at` and is `word`, in any case:
/// white space alone stands before it, and nothing, white space or a comment
/// behind it. `word` is written in small letters.
pub open spec fn begins_with_word(line: Seq<char>, word: Seq<char>, at: int) -> bool {
    let end = at + word.len();
    &&& 0 <= at && end <= line.len()
    &&& forall|k: int| 0 <= k < at ==> is_space(#[trigger] line[k])
    &&& forall|k: int| 0 <= k < word.len() ==> lower(#[trigger] line[at + k]) == word[k]
    &&& end == line.len() || is_space(line[end]) || line[end] == '#'
}

/// Whether a line begins the block of some hosts.
pub open spec fn is_host_line(line: Seq<char>) -> bool {
    exists|at: int| begins_with_word(line, seq!['h', 'o', 's', 't'], at)
}

/// Whether a line begins a block that is for no host by name.
pub open spec fn is_match_line(line: Seq<char>) -> bool {
    exists|at: int| begins_with_word(line, seq!['m', 'a', 't', 'c', 'h'], at)
}

/// Whether a text can be a keyword: letters that are small, and no white space.
spec fn is_word(word: Seq<char>) -> bool {
    &&& word.len() > 0
    &&& forall|k: int| 0 <= k < word.len() ==> 'a' <= #[trigger] word[k] <= 'z'
}

/// Where what is left of a line stands in it.
proof fn bare_line_place(line: Seq<char>, at: int)
    requires
        0 <= at < line.len(),
        forall|k: int| 0 <= k < at ==> is_space(#[trigger] line[k]),
        !is_space(line[at]),
    ensures
        ({
            let n = bare_line(line).len();
            let stop = at + first_of(line.skip(at), '#');
            &&& at + n <= stop <= line.len()
            &&& bare_line(line) == line.subrange(at, at + n)
            &&& forall|k: int| at + n <= k < stop ==> is_space(#[trigger] line[k])
            &&& forall|k: int| at <= k < stop ==> #[trigger] line[k] != '#'
            &&& stop < line.len() ==> line[stop] == '#'
        }),
{
    let s = line.skip(at);
    trimmed_start_at(line, at);
    let f = first_of(s, '#');
    first_of_bounds(s, '#');
    assert forall|k: int| at <= k < at + f implies #[trigger] line[k] != '#' by {
        assert(s[k - at] == line[k]);
    }
    if f < s.len() {
        let head = s.take(f);
        trimmed_end_place(head);
        let n = trimmed_end(head).len() as int;
        assert(bare_line(line) == trimmed_end(head));
        assert(trimmed_end(head) =~= line.subrange(at, at + n));
        assert forall|k: int| at + n <= k < at + f implies is_space(#[trigger] line[k]) by {
            assert(head[k - at] == line[k]);
        }
        assert(s[f] == line[at + f]);
    } else {
        assert(bare_line(line) =~= line.subrange(at, line.len() as int));
    }
}

proof fn trimmed_end_place(s: Seq<char>)
    ensures
        trimmed_end(s).len() <= s.len(),
        trimmed_end(s) == s.take(trimmed_end(s).len() as int),
        forall|k: int| trimmed_end(s).len() <= k < s.len() ==> is_space(#[trigger] s[k]),
    decreases s.len(),
{
    if s.len() > 0 && is_space(s.last()) {
        trimmed_end_place(s.drop_last());
        let n = trimmed_end(s).len() as int;
        assert(s.drop_last().take(n) =~= s.take(n));
        assert forall|k: int| n <= k < s.len() implies is_space(#[trigger] s[k]) by {
            if k < s.len() - 1 {
                assert(s.drop_last()[k] == s[k]);
            }
        }
    } else {
        assert(s.take(s.len() as int) =~= s);
    }
}

/// A line that begins with a word begins with it when the comment is gone.
proof fn word_is_the_keyword(line: Seq<char>, word: Seq<char>, keyword: Seq<char>, at: int)
    requires
        is_word(word),
        lowered(keyword) == word,
        begins_with_word(line, word, at),
    ensures
        bare_line(line).len() >= word.len(),
        after_keyword(bare_line(line), keyword) == Some(
            bare_line(line).skip(word.len() as int),
        ),
        forall|k: int| 0 <= k < word.len() ==> lower(#[trigger] bare_line(line)[k]) == word[k],
        !is_space(line[at]),
{
    let n = word.len() as int;
    assert(lowered(keyword).len() == keyword.len());
    assert forall|k: int| 0 <= k < n implies !is_space(line[at + k]) && #[trigger] line[at + k]
        != '#' by {
        assert(lower(line[at + k]) == word[k]);
    }
    assert(!is_space(line[at + 0]));
    bare_line_place(line, at);
    let bare = bare_line(line);
    let stop = at + first_of(line.skip(at), '#');
    assert(stop >= at + n) by {
        if stop < at + n {
            assert(line[at + (stop - at)] != '#');
        }
    }
    assert(bare.len() >= n) by {
        if bare.len() < n {
            assert(!is_space(line[at + (n - 1)]));
            assert(is_space(line[at + n - 1]));
        }
    }
    assert forall|k: int| 0 <= k < n implies lower(#[trigger] bare[k]) == word[k] by {
        assert(bare[k] == line[at + k]);
    }
    assert(lowered(bare.take(n)) =~= word);
    if bare.len() > n {
        assert(bare[n] == line[at + n]);
    }
}

/// A line whose rest begins with a keyword begins with that word.
proof fn keyword_is_the_word(line: Seq<char>, word: Seq<char>, keyword: Seq<char>)
    requires
        is_word(word),
        lowered(keyword) == word,
        after_keyword(bare_line(line), keyword) is Some,
    ensures
        exists|at: int| begins_with_word(line, word, at),
{
    let n = word.len() as int;
    let bare = bare_line(line);
    assert(lowered(keyword).len() == keyword.len());
    let at = start_of(line);
    start_of_facts(line);
    if at == line.len() {
        trimmed_start_at(line, at);
        assert(trimmed_start(line) =~= Seq::empty());
        first_of_bounds(trimmed_start(line), '#');
        assert(bare.len() == 0);
        assert(false);
    }
    bare_line_place(line, at);
    assert forall|k: int| 0 <= k < n implies lower(#[trigger] line[at + k]) == word[k] by {
        assert(bare[k] == line[at + k]);
        assert(lowered(bare.take(n))[k] == lower(bare[k]));
    }
    if bare.len() > n {
        assert(bare[n] == line[at + n]);
    }
    assert(begins_with_word(line, word, at));
}

/// Where the text of a line begins.
spec fn start_of(line: Seq<char>) -> int
    decreases line.len(),
{
    if line.len() > 0 && is_space(line[0]) {
        1 + start_of(line.skip(1))
    } else {
        0
    }
}

proof fn start_of_facts(line: Seq<char>)
    ensures
        0 <= start_of(line) <= line.len(),
        forall|k: int| 0 <= k < start_of(line) ==> is_space(#[trigger] line[k]),
        start_of(line) < line.len() ==> !is_space(line[start_of(line)]),
    decreases line.len(),
{
    if line.len() > 0 && is_space(line[0]) {
        let rest = line.skip(1);
        start_of_facts(rest);
        assert forall|k: int| 0 <= k < start_of(line) implies is_space(#[trigger] line[k]) by {
            if k > 0 {
                assert(rest[k - 1] == line[k]);
            }
        }
        if start_of(line) < line.len() {
            assert(rest[start_of(rest)] == line[start_of(line)]);
        }
    }
}

proof fn host_lines_are_read(line: Seq<char>)
    ensures
        is_host_line(line) <==> after_keyword(bare_line(line), host_word()) is Some,
        is_match_line(line) <==> after_keyword(bare_line(line), match_word()) is Some,
        is_host_line(line) ==> bare_line(line).len() > 0,
        !(is_host_line(line) && is_match_line(line)),
{
    let host = seq!['h', 'o', 's', 't'];
    let matching = seq!['m', 'a', 't', 'c', 'h'];
    assert(lowered(host_word()) =~= host);
    assert(lowered(match_word()) =~= matching);
    if is_host_line(line) {
        let at = choose|at: int| begins_with_word(line, host, at);
        word_is_the_keyword(line, host, host_word(), at);
        assert(lower(bare_line(line)[0]) == 'h');
        if is_match_line(line) {
            let also = choose|at: int| begins_with_word(line, matching, at);
            word_is_the_keyword(line, matching, match_word(), also);
            assert(lower(bare_line(line)[0]) == 'm');
        }
    } else if is_match_line(line) {
        let also = choose|at: int| begins_with_word(line, matching, at);
        word_is_the_keyword(line, matching, match_word(), also);
    }
    if after_keyword(bare_line(line), host_word()) is Some {
        keyword_is_the_word(line, host, host_word());
    }
    if after_keyword(bare_line(line), match_word()) is Some {
        keyword_is_the_word(line, matching, match_word());
    }
}

proof fn return_does_not_matter(line: Seq<char>, word: Seq<char>, at: int)
    requires
        is_word(word),
    ensures
        begins_with_word(line, word, at) <==> begins_with_word(without_return(line), word, at),
{
    let n = word.len() as int;
    let cut = without_return(line);
    if cut != line {
        assert(line[line.len() - 1] == '\r');
        assert(cut.len() == line.len() - 1);
        if begins_with_word(line, word, at) {
            if at + n == line.len() {
                assert(lower(line[at + (n - 1)]) == word[n - 1]);
                assert(false);
            }
            assert forall|k: int| 0 <= k < at implies is_space(#[trigger] cut[k]) by {
                assert(line[k] == cut[k]);
            }
            assert forall|k: int| 0 <= k < n implies lower(#[trigger] cut[at + k]) == word[k] by {
                assert(line[at + k] == cut[at + k]);
            }
        }
        if begins_with_word(cut, word, at) {
            assert forall|k: int| 0 <= k < at implies is_space(#[trigger] line[k]) by {
                assert(line[k] == cut[k]);
            }
            assert forall|k: int| 0 <= k < n implies lower(#[trigger] line[at + k]) == word[k] by {
                assert(line[at + k] == cut[at + k]);
            }
        }
    }
}

proof fn returns_do_not_matter(line: Seq<char>)
    ensures
        is_host_line(line) <==> is_host_line(without_return(line)),
        is_match_line(line) <==> is_match_line(without_return(line)),
{
    let host = seq!['h', 'o', 's', 't'];
    let matching = seq!['m', 'a', 't', 'c', 'h'];
    let cut = without_return(line);
    if is_host_line(line) {
        let at = choose|at: int| begins_with_word(line, host, at);
        return_does_not_matter(line, host, at);
    }
    if is_host_line(cut) {
        let at = choose|at: int| begins_with_word(cut, host, at);
        return_does_not_matter(line, host, at);
    }
    if is_match_line(line) {
        let at = choose|at: int| begins_with_word(line, matching, at);
        return_does_not_matter(line, matching, at);
    }
    if is_match_line(cut) {
        let at = choose|at: int| begins_with_word(cut, matching, at);
        return_does_not_matter(line, matching, at);
    }
}

/// Whether a text is a number of whole lines.
pub open spec fn ends_its_line(text: Seq<char>) -> bool {
    text.len() == 0 || text.last() == '\n'
}

/// Whether a text stands in one line.
pub open spec fn is_one_line(text: Seq<char>) -> bool {
    forall|i: int| 0 <= i < text.len() ==> text[i] != '\n'
}

/// A line between two texts is one line between theirs.
proof fn line_between(a: Seq<char>, m: Seq<char>, b: Seq<char>)
    requires
        ends_its_line(a),
        is_one_line(m),
    ensures
        lines(a + m.push('\n') + b) == lines(a).push(without_return(m)) + lines(b),
{
    let sep = just('\n');
    let none = Seq::<char>::empty();
    pieces_of_one(m, sep);
    pieces_of_joined(m, '\n', none, sep);
    assert(m.push('\n') + none =~= m.push('\n'));
    assert(pieces(none, sep) =~= seq![none]);
    assert(seq![m] + seq![none] =~= seq![m, none]);
    assert(lines(m.push('\n')) =~= seq![without_return(m)]);
    lines_of_joined(m, b);
    if a.len() == 0 {
        assert(a =~= none);
        assert(lines(a) =~= Seq::empty());
        assert(a + m.push('\n') + b =~= m.push('\n') + b);
        assert(lines(a).push(without_return(m)) =~= seq![without_return(m)]);
    } else {
        assert(a.drop_last().push('\n') =~= a);
        lines_of_joined(a.drop_last(), m.push('\n') + b);
        assert(a + m.push('\n') + b =~= a + (m.push('\n') + b));
        assert(lines(a) + (seq![without_return(m)] + lines(b)) =~= lines(a).push(without_return(m))
            + lines(b));
    }
}

proof fn lines_behind(a: Seq<char>, b: Seq<char>)
    requires
        ends_its_line(a),
    ensures
        lines(a + b) == lines(a) + lines(b),
{
    if a.len() == 0 {
        assert(a =~= Seq::empty());
        assert(pieces(a, just('\n')) =~= seq![Seq::empty()]);
        assert(lines(a) =~= Seq::empty());
        assert(a + b =~= b);
        assert(lines(a) + lines(b) =~= lines(b));
    } else {
        assert(a.drop_last().push('\n') =~= a);
        lines_of_joined(a.drop_last(), b);
    }
}

// ---------------------------------------------------------------------------
// What ends a block

/// Whether no line of a text begins the block of a host.
pub open spec fn has_no_host_line(text: Seq<char>) -> bool {
    forall|i: int| 0 <= i < lines(text).len() ==> !is_host_line(#[trigger] lines(text)[i])
}

/// Whether a configuration leaves a list of hosts open: its last line of hosts
/// goes on behind a backslash.
pub open spec fn leaves_list_open(text: Seq<char>) -> bool {
    scan_entry_lines(lines(text)).open
}

proof fn nothing_is_set_without_hosts(a: Seq<Seq<char>>, b: Seq<Seq<char>>)
    requires
        !scan_entry_lines(a).open,
        scan_entry_lines(a).current.len() == 0,
        forall|i: int| 0 <= i < b.len() ==> !is_host_line(#[trigger] b[i]),
    ensures
        !scan_entry_lines(a + b).open,
        scan_entry_lines(a + b).current.len() == 0,
        scan_entry_lines(a + b).entries == scan_entry_lines(a).entries,
    decreases b.len(),
{
    if b.len() == 0 {
        assert(a + b =~= a);
    } else {
        let head = b.drop_last();
        assert forall|i: int| 0 <= i < head.len() implies !is_host_line(#[trigger] head[i]) by {
            assert(head[i] == b[i]);
        }
        nothing_is_set_without_hosts(a, head);
        assert((a + b).drop_last() =~= a + head);
        assert((a + b).last() == b[b.len() - 1]);
        let scan = scan_entry_lines(a + head);
        let raw = b[b.len() - 1];
        host_lines_are_read(raw);
        assert(scan.current.to_set() =~= Set::empty());
        let fields = words(bare_line(raw));
        let value = joined(fields.skip(1), seq![' ']);
        assert(with_setting_for(scan.entries, scan.current.to_set(), fields[0], value)
            =~= scan.entries);
    }
}

/// A `Match` line ends the block of a host: what follows it, up to the next
/// `Host` line, says nothing of any host.
pub proof fn match_line_ends_the_block(a: Seq<char>, m: Seq<char>, b: Seq<char>)
    requires
        ends_its_line(a),
        !leaves_list_open(a),
        is_one_line(m),
        is_match_line(m),
        has_no_host_line(b),
    ensures
        config_entries(a + m.push('\n') + b) == config_entries(a),
{
    line_between(a, m, b);
    returns_do_not_matter(m);
    let cut = without_return(m);
    host_lines_are_read(cut);
    let first = lines(a).push(cut);
    assert(first.drop_last() =~= lines(a));
    assert(first.last() == cut);
    nothing_is_set_without_hosts(first, lines(b));
}

/// A configuration without a `Host` line says nothing of any host.
pub proof fn entries_need_a_host_line(text: Seq<char>)
    requires
        has_no_host_line(text),
    ensures
        config_entries(text).dom() == Set::<Seq<char>>::empty(),
{
    let none = Seq::<Seq<char>>::empty();
    nothing_is_set_without_hosts(none, lines(text));
    assert(none + lines(text) =~= lines(text));
    assert(config_entries(text).dom() =~= Set::empty());
}

/// Whether a line is empty or a comment.
pub open spec fn says_nothing(line: Seq<char>) -> bool {
    forall|i: int|
        0 <= i < line.len() && !is_space(#[trigger] line[i]) ==> exists|k: int|
            0 <= k <= i && #[trigger] line[k] == '#' && forall|j: int|
                0 <= j < k ==> is_space(#[trigger] line[j])
}

proof fn nothing_is_left_of_it(line: Seq<char>)
    requires
        says_nothing(line),
    ensures
        bare_line(line).len() == 0,
        bare_line(without_return(line)).len() == 0,
{
    blank_lines_are_bare(line);
    let cut = without_return(line);
    assert forall|i: int| 0 <= i < cut.len() && !is_space(#[trigger] cut[i]) implies exists|k: int|
        0 <= k <= i && #[trigger] cut[k] == '#' && forall|j: int|
            0 <= j < k ==> is_space(#[trigger] cut[j]) by {
        assert(!is_space(line[i]));
        let k = choose|k: int|
            0 <= k <= i && #[trigger] line[k] == '#' && forall|j: int|
                0 <= j < k ==> is_space(#[trigger] line[j]);
        assert(cut[k] == '#');
        assert forall|j: int| 0 <= j < k implies is_space(#[trigger] cut[j]) by {
            assert(line[j] == cut[j]);
        }
    }
    blank_lines_are_bare(cut);
}

proof fn blank_lines_are_bare(line: Seq<char>)
    requires
        says_nothing(line),
    ensures
        bare_line(line).len() == 0,
{
    let at = start_of(line);
    start_of_facts(line);
    if at < line.len() {
        assert(!is_space(line[at]));
        let k = choose|k: int|
            0 <= k <= at && #[trigger] line[k] == '#' && forall|j: int|
                0 <= j < k ==> is_space(#[trigger] line[j]);
        if k < at {
            assert(is_space(line[k]));
        }
        bare_line_place(line, at);
    } else {
        trimmed_start_at(line, at);
        assert(trimmed_start(line) =~= Seq::empty());
        first_of_bounds(trimmed_start(line), '#');
    }
}

/// An empty line or a comment changes no entry, wherever it stands.
pub proof fn comments_say_nothing(a: Seq<char>, m: Seq<char>, b: Seq<char>)
    requires
        ends_its_line(a),
        is_one_line(m),
        says_nothing(m),
    ensures
        config_entries(a + m.push('\n') + b) == config_entries(a + b),
{
    line_between(a, m, b);
    lines_behind(a, b);
    nothing_is_left_of_it(m);
    one_line_less(lines(a), without_return(m), lines(b));
}

proof fn one_line_less(a: Seq<Seq<char>>, line: Seq<char>, b: Seq<Seq<char>>)
    requires
        bare_line(line).len() == 0,
    ensures
        scan_entry_lines(a.push(line) + b) == scan_entry_lines(a + b),
    decreases b.len(),
{
    if b.len() == 0 {
        assert(a.push(line) + b =~= a.push(line));
        assert(a.push(line).drop_last() =~= a);
        assert(a + b =~= a);
    } else {
        one_line_less(a, line, b.drop_last());
        assert((a.push(line) + b).drop_last() =~= a.push(line) + b.drop_last());
        assert((a + b).drop_last() =~= a + b.drop_last());
        assert((a.push(line) + b).last() == b.last());
        assert((a + b).last() == b.last());
    }
}

// ---------------------------------------------------------------------------
// The words of a line

/// Whether `word` is a word of a line and stands at `i`, outside the comment.
pub open spec fn word_at(line: Seq<char>, word: Seq<char>, i: int) -> bool {
    let end = i + word.len();
    &&& 0 <= i && word.len() > 0 && end <= line.len()
    &&& line.subrange(i, end) == word
    &&& i == 0 || is_space(line[i - 1])
    &&& end == line.len() || is_space(line[end]) || line[end] == '#'
    &&& forall|k: int| 0 <= k < end ==> #[trigger] line[k] != '#'
    &&& forall|k: int| 0 <= k < word.len() ==> !is_space(#[trigger] word[k])
}

proof fn piece_place(s: Seq<char>, sep: spec_fn(char) -> bool, k: int) -> (i: int)
    requires
        0 <= k < pieces(s, sep).len(),
    ensures
        ({
            let p = pieces(s, sep)[k];
            let end = i + p.len();
            &&& 0 <= i && end <= s.len() && s.subrange(i, end) == p
            &&& i == 0 || sep(s[i - 1])
            &&& k < pieces(s, sep).len() - 1 ==> end < s.len() && sep(s[end])
            &&& k == pieces(s, sep).len() - 1 ==> end == s.len()
            &&& forall|j: int| 0 <= j < p.len() ==> !sep(#[trigger] p[j])
        }),
    decreases s.len(),
{
    let all = pieces(s, sep);
    if s.len() == 0 {
        assert(s.subrange(0, 0) =~= all[k]);
        0
    } else {
        let head = s.drop_last();
        let rest = pieces(head, sep);
        pieces_not_empty(head, sep);
        if sep(s.last()) {
            if k < rest.len() {
                let i = piece_place(head, sep, k);
                let p = rest[k];
                assert(all[k] == p);
                assert(s.subrange(i, i + p.len()) =~= head.subrange(i, i + p.len()));
                if i > 0 {
                    assert(head[i - 1] == s[i - 1]);
                }
                if i + p.len() < head.len() {
                    assert(head[i + p.len()] == s[i + p.len()]);
                }
                i
            } else {
                let n = s.len() as int;
                assert(s.subrange(n, n) =~= all[k]);
                assert(s[n - 1] == s.last());
                n
            }
        } else {
            if k < rest.len() - 1 {
                let i = piece_place(head, sep, k);
                let p = rest[k];
                assert(all[k] == p);
                assert(s.subrange(i, i + p.len()) =~= head.subrange(i, i + p.len()));
                if i > 0 {
                    assert(head[i - 1] == s[i - 1]);
                }
                assert(head[i + p.len()] == s[i + p.len()]);
                i
            } else {
                let i = piece_place(head, sep, k);
                let p = rest[k];
                assert(all[k] == p.push(s.last()));
                assert(s.subrange(i, s.len() as int) =~= p.push(s.last()));
                if i > 0 {
                    assert(head[i - 1] == s[i - 1]);
                }
                i
            }
        }
    }
}

proof fn run_is_a_piece(s: Seq<char>, sep: spec_fn(char) -> bool, i: int, end: int)
    requires
        0 <= i <= end <= s.len(),
        i == 0 || sep(s[i - 1]),
        end == s.len() || sep(s[end]),
        forall|k: int| i <= k < end ==> !sep(#[trigger] s[k]),
    ensures
        pieces(s, sep).contains(s.subrange(i, end)),
{
    let t = s.subrange(i, end);
    let tail = s.skip(i);
    assert forall|k: int| 0 <= k < t.len() implies !sep(#[trigger] t[k]) by {
        assert(!sep(s[i + k]));
    }
    pieces_of_one(t, sep);
    if end == s.len() {
        assert(tail =~= t);
    } else {
        assert(tail =~= t.push(s[end]) + s.skip(end + 1));
        pieces_of_joined(t, s[end], s.skip(end + 1), sep);
    }
    assert(pieces(tail, sep)[0] == t);
    if i == 0 {
        assert(tail =~= s);
    } else {
        let front = s.take(i - 1);
        assert(s =~= front.push(s[i - 1]) + tail);
        pieces_of_joined(front, s[i - 1], tail, sep);
        assert(pieces(s, sep)[pieces(front, sep).len() as int] == t);
    }
    pieces_not_empty(tail, sep);
}

proof fn rest_of_bare_line(line: Seq<char>, at: int, d: int)
    requires
        0 <= at < line.len(),
        forall|k: int| 0 <= k < at ==> is_space(#[trigger] line[k]),
        !is_space(line[at]),
        0 <= d <= bare_line(line).len(),
    ensures
        ({
            let rest = bare_line(line).skip(d);
            let last = at + d + rest.len();
            &&& last <= line.len()
            &&& rest == line.subrange(at + d, last)
            &&& last == line.len() || is_space(line[last]) || line[last] == '#'
            &&& forall|k: int| 0 <= k < last ==> #[trigger] line[k] != '#'
        }),
{
    bare_line_place(line, at);
    let bare = bare_line(line);
    let rest = bare.skip(d);
    let last = at + bare.len();
    let stop = at + first_of(line.skip(at), '#');
    assert(rest =~= line.subrange(at + d, last));
    assert forall|k: int| 0 <= k < last implies #[trigger] line[k] != '#' by {
        if k < at {
            assert(is_space(line[k]));
        }
    }
    if last < stop {
        assert(is_space(line[last]));
    }
}

proof fn word_of_rest_stands(line: Seq<char>, at: int, d: int, h: Seq<char>) -> (i: int)
    requires
        0 <= at < line.len(),
        forall|k: int| 0 <= k < at ==> is_space(#[trigger] line[k]),
        !is_space(line[at]),
        0 <= d <= bare_line(line).len(),
        d > 0 ==> d == bare_line(line).len() || is_space(bare_line(line)[d]),
        words(bare_line(line).skip(d)).contains(h),
    ensures
        i >= at + d,
        word_at(line, h, i),
{
    rest_of_bare_line(line, at, d);
    let rest = bare_line(line).skip(d);
    let from = at + d;
    let sep = |c: char| is_space(c);
    let full = |w: Seq<char>| w.len() > 0;
    let parts = pieces(rest, sep);
    kept_are_the_picked(parts, full, h);
    let k = choose|k: int| 0 <= k < parts.len() && parts[k] == h;
    let j = piece_place(rest, sep, k);
    let i = from + j;
    let end = i + h.len();
    assert(!sep(h[0]));
    assert(h[0] == rest.subrange(j, j + h.len())[0]);
    if j == 0 && d > 0 {
        assert(bare_line(line)[d] == rest[0]);
        assert(false);
    }
    assert(line.subrange(i, end) =~= rest.subrange(j, j + h.len()));
    assert(i == 0 || is_space(line[i - 1])) by {
        if j > 0 {
            assert(rest[j - 1] == line[i - 1]);
        }
    }
    assert(end == line.len() || is_space(line[end]) || line[end] == '#') by {
        if j + h.len() < rest.len() {
            assert(rest[j + h.len()] == line[end]);
            assert(sep(rest[j + h.len()]));
        }
    }
    assert forall|x: int| 0 <= x < h.len() implies !is_space(#[trigger] h[x]) by {
        assert(!sep(h[x]));
    }
    i
}

proof fn standing_word_is_of_rest(line: Seq<char>, at: int, d: int, h: Seq<char>, i: int)
    requires
        0 <= at < line.len(),
        forall|k: int| 0 <= k < at ==> is_space(#[trigger] line[k]),
        !is_space(line[at]),
        0 <= d <= bare_line(line).len(),
        d > 0 ==> d == bare_line(line).len() || is_space(bare_line(line)[d]),
        i >= at + d,
        word_at(line, h, i),
    ensures
        words(bare_line(line).skip(d)).contains(h),
{
    rest_of_bare_line(line, at, d);
    bare_line_place(line, at);
    let rest = bare_line(line).skip(d);
    let n = bare_line(line).len() as int;
    let stop = at + first_of(line.skip(at), '#');
    let end = i + h.len();
    let j = i - at - d;
    let sep = |c: char| is_space(c);
    let full = |w: Seq<char>| w.len() > 0;
    assert(line[end - 1] == h[h.len() - 1]) by {
        assert(line.subrange(i, end)[h.len() - 1] == line[end - 1]);
    }
    assert(end <= stop) by {
        if stop < end {
            assert(line[stop] != '#');
        }
    }
    assert(end <= at + n) by {
        if end > at + n {
            assert(is_space(line[end - 1]));
        }
    }
    assert(rest.subrange(j, j + h.len()) =~= line.subrange(i, end));
    assert(j == 0 || sep(rest[j - 1])) by {
        if j > 0 {
            assert(rest[j - 1] == line[i - 1]);
        }
    }
    assert(j + h.len() == rest.len() || sep(rest[j + h.len()])) by {
        if j + h.len() < rest.len() {
            assert(rest[j + h.len()] == line[end]);
            assert(line[end] != '#');
        }
    }
    assert forall|k: int| j <= k < j + h.len() implies !sep(#[trigger] rest[k]) by {
        assert(rest.subrange(j, j + h.len())[k - j] == rest[k]);
        assert(!is_space(h[k - j]));
    }
    run_is_a_piece(rest, sep, j, j + h.len());
    kept_are_the_picked(pieces(rest, sep), full, h);
}

/// The words behind the first `d` characters of a bare line are the words of
/// the line from there on.
proof fn words_of_rest(line: Seq<char>, at: int, d: int, h: Seq<char>)
    requires
        0 <= at < line.len(),
        forall|k: int| 0 <= k < at ==> is_space(#[trigger] line[k]),
        !is_space(line[at]),
        0 <= d <= bare_line(line).len(),
        d > 0 ==> d == bare_line(line).len() || is_space(bare_line(line)[d]),
    ensures
        words(bare_line(line).skip(d)).contains(h) <==> exists|i: int|
            i >= at + d && #[trigger] word_at(line, h, i),
{
    if words(bare_line(line).skip(d)).contains(h) {
        let i = word_of_rest_stands(line, at, d, h);
        assert(i >= at + d && word_at(line, h, i));
    }
    if exists|i: int| i >= at + d && #[trigger] word_at(line, h, i) {
        let i = choose|i: int| i >= at + d && #[trigger] word_at(line, h, i);
        standing_word_is_of_rest(line, at, d, h, i);
    }
}

/// Whether a text is a host by name: no exclusion and no pattern.
pub open spec fn is_by_name(h: Seq<char>) -> bool {
    h.len() > 0 && h[0] != '!' && forall|k: int| 0 <= k < h.len() ==> #[trigger] h[k] != '*'
}

/// Whether a `Host` line names a host: it is a word behind the keyword, and
/// neither an exclusion nor a pattern.
pub open spec fn host_line_names(line: Seq<char>, h: Seq<char>) -> bool {
    let keyword = seq!['h', 'o', 's', 't'];
    &&& is_by_name(h)
    &&& exists|at: int, i: int|
        #![trigger begins_with_word(line, keyword, at), word_at(line, h, i)]
        begins_with_word(line, keyword, at) && word_at(line, h, i) && i > at
}

/// Whether a line holds no backslash, by which a list of hosts could go on.
pub open spec fn has_no_backslash(line: Seq<char>) -> bool {
    forall|k: int| 0 <= k < line.len() ==> #[trigger] line[k] != '\\'
}

proof fn listed_words(source: Seq<char>, h: Seq<char>)
    requires
        forall|k: int| 0 <= k < source.len() ==> #[trigger] source[k] != '#',
        forall|k: int| 0 <= k < source.len() ==> #[trigger] source[k] != '\\',
    ensures
        listed_hosts(source).contains(h) <==> words(source).contains(h) && is_by_name(h),
{
    first_of_unique(source, '#', source.len() as int);
    assert(before(source, '#') =~= source);
    let keep = |w: Seq<char>| names_host(w);
    let strip = |w: Seq<char>| without_backslashes(w);
    let full = |w: Seq<char>| w.len() > 0;
    let sep = |c: char| is_space(c);
    let all = words(source);
    let fields = host_fields(source);
    let stripped = fields.map_values(strip);
    kept_are_the_picked(all, keep, h);
    kept_are_the_picked(stripped, full, h);
    kept_are_the_picked(pieces(source, sep), full, h);
    assert forall|k: int| 0 <= k < fields.len() implies #[trigger] stripped[k] == fields[k] by {
        filter_member(all, keep, k);
        let j = choose|j: int| 0 <= j < all.len() && all[j] == fields[k];
        filter_member(pieces(source, sep), full, j);
        let x = choose|x: int| 0 <= x < pieces(source, sep).len() && pieces(source, sep)[x] == all[j];
        let i = piece_place(source, sep, x);
        let w = fields[k];
        assert(w.last() == source.subrange(i, i + w.len())[w.len() - 1]);
        assert(w.last() == source[i + w.len() - 1]);
    }
    assert(stripped =~= fields);
    assert(listed_hosts(source) =~= stripped.filter(full));
    assert(names_host(h) && h.len() > 0 <==> is_by_name(h)) by {
        if h.len() > 0 && h[0] != '!' && !h.contains('*') {
            assert forall|k: int| 0 <= k < h.len() implies #[trigger] h[k] != '*' by {}
        }
        if is_by_name(h) && h.contains('*') {
            let k = choose|k: int| 0 <= k < h.len() && h[k] == '*';
            assert(h[k] != '*');
        }
    }
}

/// A `Host` line without a backslash lists just the hosts that it names.
proof fn host_line_lists(line: Seq<char>, h: Seq<char>)
    requires
        is_host_line(line),
        has_no_backslash(line),
    ensures
        ({
            let bare = bare_line(line);
            &&& bare.len() > 0
            &&& !goes_on(bare)
            &&& after_keyword(bare, host_word()) is Some
            &&& listed_hosts(after_keyword(bare, host_word())->0).contains(h) <==> host_line_names(
                line,
                h,
            )
        }),
{
    let host = seq!['h', 'o', 's', 't'];
    assert(lowered(host_word()) =~= host);
    let at = choose|at: int| begins_with_word(line, host, at);
    word_is_the_keyword(line, host, host_word(), at);
    let bare = bare_line(line);
    bare_line_place(line, at);
    assert forall|k: int| 0 <= k < bare.len() implies #[trigger] bare[k] != '\\' by {
        assert(bare[k] == line[at + k]);
    }
    trimmed_end_place(bare);
    if goes_on(bare) {
        let n = trimmed_end(bare).len() as int;
        assert(trimmed_end(bare)[n - 1] == bare[n - 1]);
    }
    assert(bare.len() == 4 || is_space(bare[4])) by {
        assert(after_keyword(bare, host_word()) is Some);
    }
    let rest = bare.skip(4);
    assert forall|k: int| 0 <= k < rest.len() implies #[trigger] rest[k] != '#' && rest[k]
        != '\\' by {
        assert(rest[k] == bare[4 + k]);
        assert(bare[4 + k] == line[at + (4 + k)]);
    }
    listed_words(rest, h);
    words_of_rest(line, at, 4, h);
    if listed_hosts(rest).contains(h) {
        let i = choose|i: int| i >= at + 4 && #[trigger] word_at(line, h, i);
        assert(begins_with_word(line, host, at) && word_at(line, h, i) && i > at);
    }
    if host_line_names(line, h) {
        let (b, i) = choose|b: int, i: int|
            #![trigger begins_with_word(line, host, b), word_at(line, h, i)]
            begins_with_word(line, host, b) && word_at(line, h, i) && i > b;
        word_is_the_keyword(line, host, host_word(), b);
        if b < at {
            assert(is_space(line[b]));
        }
        if at < b {
            assert(is_space(line[at]));
        }
        assert(i >= at + 4) by {
            assert(is_space(line[i - 1]));
            if i < at + 4 {
                assert(lower(line[at + (i - 1 - at)]) == host[i - 1 - at]);
            }
        }
        assert(word_at(line, h, i));
    }
}

// ---------------------------------------------------------------------------
// What a block says

/// Whether no line of a text begins a block.
pub open spec fn has_no_block_line(text: Seq<char>) -> bool {
    forall|i: int|
        0 <= i < lines(text).len() ==> !is_host_line(#[trigger] lines(text)[i]) && !is_match_line(
            lines(text)[i],
        )
}

proof fn closed_lists_are_empty(all: Seq<Seq<char>>)
    requires
        !scan_entry_lines(all).open,
    ensures
        scan_entry_lines(all).pending.len() == 0,
    decreases all.len(),
{
    if all.len() > 0 {
        let head = all.drop_last();
        if !scan_entry_lines(head).open {
            closed_lists_are_empty(head);
        } else {
            open_lists_stay(head, all.last());
        }
    }
}

proof fn open_lists_stay(all: Seq<Seq<char>>, line: Seq<char>)
    requires
        scan_entry_lines(all).open,
    ensures
        !scan_entry_line(scan_entry_lines(all), line).open ==> scan_entry_line(
            scan_entry_lines(all),
            line,
        ).pending.len() == 0,
{
}

/// Behind a `Host` line without a backslash the settings are for the hosts that
/// it names.
proof fn host_line_begins_a_block(a: Seq<Seq<char>>, m: Seq<char>)
    requires
        !scan_entry_lines(a).open,
        is_host_line(m),
        has_no_backslash(m),
    ensures
        ({
            let scan = scan_entry_lines(a.push(m));
            &&& !scan.open
            &&& scan.entries == scan_entry_lines(a).entries
            &&& forall|h: Seq<char>| #[trigger]
                scan.current.contains(h) <==> host_line_names(m, h)
        }),
{
    closed_lists_are_empty(a);
    assert(a.push(m).drop_last() =~= a);
    assert(a.push(m).last() == m);
    let scan = scan_entry_lines(a.push(m));
    let bare = bare_line(m);
    let old = scan_entry_lines(a);
    host_line_lists(m, Seq::empty());
    let listed = listed_hosts(after_keyword(bare, host_word())->0);
    assert(old.pending + listed =~= listed);
    assert forall|h: Seq<char>| #[trigger] scan.current.contains(h) <==> host_line_names(m, h) by {
        host_line_lists(m, h);
    }
}

proof fn body_keeps_the_hosts(a: Seq<Seq<char>>, b: Seq<Seq<char>>)
    requires
        !scan_entry_lines(a).open,
        forall|i: int| 0 <= i < b.len() ==> !is_host_line(#[trigger] b[i]) && !is_match_line(b[i]),
    ensures
        ({
            let old = scan_entry_lines(a);
            let new = scan_entry_lines(a + b);
            &&& !new.open
            &&& new.current == old.current
            &&& forall|h: Seq<char>|
                !old.current.contains(h) ==> (#[trigger] new.entries.dom().contains(h)
                    <==> old.entries.dom().contains(h)) && (old.entries.dom().contains(h)
                    ==> new.entries[h] == old.entries[h])
        }),
    decreases b.len(),
{
    if b.len() == 0 {
        assert(a + b =~= a);
    } else {
        let head = b.drop_last();
        assert forall|i: int| 0 <= i < head.len() implies !is_host_line(#[trigger] head[i])
            && !is_match_line(head[i]) by {
            assert(head[i] == b[i]);
        }
        body_keeps_the_hosts(a, head);
        assert((a + b).drop_last() =~= a + head);
        let raw = b[b.len() - 1];
        assert((a + b).last() == raw);
        host_lines_are_read(raw);
    }
}

/// A block speaks of the hosts that its `Host` line names and of no other:
/// whatever stands in it, up to the next `Host` or `Match` line, every other
/// host has the entry that it had before.
pub proof fn block_speaks_of_its_hosts(a: Seq<char>, m: Seq<char>, b: Seq<char>, h: Seq<char>)
    requires
        ends_its_line(a),
        !leaves_list_open(a),
        is_one_line(m),
        is_host_line(m),
        has_no_backslash(m),
        has_no_block_line(b),
        !host_line_names(without_return(m), h),
    ensures
        config_entries(a + m.push('\n') + b).dom().contains(h) <==> config_entries(
            a,
        ).dom().contains(h),
        config_entries(a).dom().contains(h) ==> config_entries(a + m.push('\n') + b)[h]
            == config_entries(a)[h],
{
    line_between(a, m, b);
    returns_do_not_matter(m);
    let cut = without_return(m);
    assert forall|k: int| 0 <= k < cut.len() implies #[trigger] cut[k] != '\\' by {
        assert(cut[k] == m[k]);
    }
    host_line_begins_a_block(lines(a), cut);
    let first = lines(a).push(cut);
    assert(!scan_entry_lines(first).current.contains(h));
    body_keeps_the_hosts(first, lines(b));
}

/// A `Host` line alone says nothing yet.
pub proof fn host_line_sets_nothing(a: Seq<char>, m: Seq<char>)
    requires
        ends_its_line(a),
        !leaves_list_open(a),
        is_one_line(m),
        is_host_line(m),
        has_no_backslash(m),
    ensures
        config_entries(a + m.push('\n')) == config_entries(a),
{
    let none = Seq::<char>::empty();
    line_between(a, m, none);
    returns_do_not_matter(m);
    let cut = without_return(m);
    assert forall|k: int| 0 <= k < cut.len() implies #[trigger] cut[k] != '\\' by {
        assert(cut[k] == m[k]);
    }
    host_line_begins_a_block(lines(a), cut);
    assert(a + m.push('\n') + none =~= a + m.push('\n'));
    assert(pieces(none, just('\n')) =~= seq![none]);
    assert(lines(none) =~= Seq::empty());
    assert(lines(a).push(cut) + lines(none) =~= lines(a).push(cut));
}

// ---------------------------------------------------------------------------
// Settings

proof fn words_of_joined(x: Seq<char>, mark: char, y: Seq<char>)
    requires
        is_space(mark),
    ensures
        words(x.push(mark) + y) == words(x) + words(y),
{
    let sep = |c: char| is_space(c);
    let full = |w: Seq<char>| w.len() > 0;
    pieces_of_joined(x, mark, y, sep);
    Seq::filter_distributes_over_add(pieces(x, sep), pieces(y, sep), full);
}

proof fn no_words_in_nothing()
    ensures
        words(Seq::<char>::empty()) == Seq::<Seq<char>>::empty(),
{
    let sep = |c: char| is_space(c);
    let full = |w: Seq<char>| w.len() > 0;
    let none = Seq::<char>::empty();
    let parts = pieces(none, sep);
    assert(parts =~= seq![none]);
    if words(none).len() > 0 {
        filter_member(parts, full, 0);
    }
    assert(words(none) =~= Seq::empty());
}

proof fn words_of_trimmed(x: Seq<char>)
    ensures
        words(trimmed_end(x)) == words(x),
    decreases x.len(),
{
    if x.len() > 0 && is_space(x.last()) {
        let head = x.drop_last();
        let none = Seq::<char>::empty();
        words_of_trimmed(head);
        words_of_joined(head, x.last(), none);
        assert(head.push(x.last()) + none =~= x);
        no_words_in_nothing();
        assert(words(head) + words(none) =~= words(head));
    }
}

proof fn one_word(w: Seq<char>)
    requires
        w.len() > 0,
        forall|k: int| 0 <= k < w.len() ==> !is_space(#[trigger] w[k]),
    ensures
        words(w) == seq![w],
{
    let sep = |c: char| is_space(c);
    let full = |w: Seq<char>| w.len() > 0;
    assert forall|k: int| 0 <= k < w.len() implies !sep(#[trigger] w[k]) by {
        assert(!is_space(w[k]));
    }
    pieces_of_one(w, sep);
    reveal(Seq::filter);
    assert(seq![w].drop_last() =~= Seq::empty());
    assert(seq![w].filter(full) =~= seq![w]);
}

/// Whether a text can be a keyword of a line: one word, and no comment.
pub open spec fn is_keyword(key: Seq<char>) -> bool {
    &&& key.len() > 0
    &&& forall|k: int| 0 <= k < key.len() ==> !is_space(#[trigger] key[k]) && key[k] != '#'
}

/// Whether a text is white space alone.
pub open spec fn is_all_space(text: Seq<char>) -> bool {
    forall|k: int| 0 <= k < text.len() ==> is_space(#[trigger] text[k])
}

/// A setting: a keyword with white space before it, a space, the value, and a
/// comment where there is one.
pub open spec fn setting_line(
    pad: Seq<char>,
    key: Seq<char>,
    value: Seq<char>,
    comment: Seq<char>,
) -> Seq<char> {
    pad + key.push(' ') + value + comment
}

/// Whether the parts of a setting are what they are to be.
pub open spec fn is_setting(
    pad: Seq<char>,
    key: Seq<char>,
    value: Seq<char>,
    comment: Seq<char>,
) -> bool {
    &&& is_all_space(pad)
    &&& is_keyword(key)
    &&& lowered(key) != seq!['h', 'o', 's', 't'] && lowered(key) != seq!['m', 'a', 't', 'c', 'h']
    &&& forall|k: int| 0 <= k < value.len() ==> #[trigger] value[k] != '#'
    &&& words(value).len() > 0
    &&& comment.len() > 0 ==> comment[0] == '#'
    &&& is_one_line(setting_line(pad, key, value, comment))
    &&& comment.len() == 0 || comment.last() != '\r'
    &&& comment.len() > 0 || value.last() != '\r'
}

proof fn setting_line_is_read(
    pad: Seq<char>,
    key: Seq<char>,
    value: Seq<char>,
    comment: Seq<char>,
)
    requires
        is_setting(pad, key, value, comment),
    ensures
        ({
            let line = setting_line(pad, key, value, comment);
            &&& words(bare_line(line)) == seq![key] + words(value)
            &&& bare_line(line).len() > 0
            &&& without_return(line) == line
            &&& !is_host_line(line)
            &&& !is_match_line(line)
        }),
{
    let line = setting_line(pad, key, value, comment);
    let at = pad.len() as int;
    let body = key.push(' ') + value;
    assert forall|k: int| 0 <= k < at implies is_space(#[trigger] line[k]) by {
        assert(line[k] == pad[k]);
    }
    assert(line[at] == key[0]);
    assert(!is_space(key[0]));
    trimmed_start_at(line, at);
    let s = line.skip(at);
    assert(s =~= body + comment);
    assert forall|k: int| 0 <= k < body.len() implies #[trigger] body[k] != '#' by {
        if k < key.len() {
            assert(body[k] == key[k]);
            assert(!is_space(key[k]) && key[k] != '#');
        } else if k > key.len() {
            assert(body[k] == value[k - key.len() - 1]);
        }
    }
    assert forall|k: int| 0 <= k < body.len() implies s[k] != '#' by {
        assert(s[k] == body[k]);
    }
    if comment.len() > 0 {
        assert(s[body.len() as int] == comment[0]);
    }
    first_of_unique(s, '#', body.len() as int);
    assert(s.take(body.len() as int) =~= body);
    words_of_joined(key, ' ', value);
    one_word(key);
    words_of_trimmed(body);
    if comment.len() == 0 {
        assert(s =~= body);
    }
    assert(words(bare_line(line)) == seq![key] + words(value));
    assert(words(bare_line(line))[0] == key);
    assert(bare_line(line).len() > 0) by {
        if bare_line(line).len() == 0 {
            no_words_in_nothing();
            assert(bare_line(line) =~= Seq::empty());
        }
    }
    assert(value.len() > 0) by {
        if value.len() == 0 {
            no_words_in_nothing();
            assert(value =~= Seq::empty());
        }
    }
    assert(line.last() != '\r');
    other_words_begin_no_block(line, at, key);
}

proof fn other_words_begin_no_block(line: Seq<char>, at: int, key: Seq<char>)
    requires
        0 <= at,
        at + key.len() < line.len(),
        is_keyword(key),
        forall|k: int| 0 <= k < at ==> is_space(#[trigger] line[k]),
        forall|k: int| 0 <= k < key.len() ==> #[trigger] line[at + k] == key[k],
        is_space(line[at + key.len()]),
        lowered(key) != seq!['h', 'o', 's', 't'],
        lowered(key) != seq!['m', 'a', 't', 'c', 'h'],
    ensures
        !is_host_line(line),
        !is_match_line(line),
{
    let host = seq!['h', 'o', 's', 't'];
    let matching = seq!['m', 'a', 't', 'c', 'h'];
    if is_host_line(line) {
        let b = choose|b: int| begins_with_word(line, host, b);
        other_word_is_not(line, at, key, host, b);
    }
    if is_match_line(line) {
        let b = choose|b: int| begins_with_word(line, matching, b);
        other_word_is_not(line, at, key, matching, b);
    }
}

proof fn other_word_is_not(line: Seq<char>, at: int, key: Seq<char>, word: Seq<char>, b: int)
    requires
        0 <= at,
        at + key.len() < line.len(),
        is_keyword(key),
        forall|k: int| 0 <= k < at ==> is_space(#[trigger] line[k]),
        forall|k: int| 0 <= k < key.len() ==> #[trigger] line[at + k] == key[k],
        is_space(line[at + key.len()]),
        is_word(word),
        begins_with_word(line, word, b),
    ensures
        lowered(key) == word,
{
    let n = word.len() as int;
    assert forall|k: int| 0 <= k < n implies !is_space(#[trigger] line[b + k]) by {
        assert(lower(line[b + k]) == word[k]);
    }
    assert(!is_space(line[b + 0]));
    assert(line[at + 0] == key[0]);
    assert(!is_space(key[0]));
    if b < at {
        assert(is_space(line[b]));
    }
    if at < b {
        assert(is_space(line[at]));
    }
    assert(at == b);
    if n > key.len() {
        assert(!is_space(line[b + key.len()]));
    }
    if n < key.len() {
        assert(line[at + n] == key[n]);
        assert(!is_space(key[n]) && key[n] != '#');
    }
    assert(lowered(key) =~= word) by {
        assert forall|k: int| 0 <= k < n implies lower(key[k]) == word[k] by {
            assert(line[at + k] == key[k]);
            assert(lower(line[b + k]) == word[k]);
        }
    }
}

/// A setting in a block says one thing of every host that the block is for:
/// `User`, `Port` and `HostName`, in any case, set the user, the port and the
/// name of the machine, the port only where it is a number; the other two stay,
/// and other keywords set none of them. No other host is touched.
pub proof fn settings_reach_the_hosts_of_the_block(
    a: Seq<char>,
    m: Seq<char>,
    b: Seq<char>,
    pad: Seq<char>,
    key: Seq<char>,
    value: Seq<char>,
    comment: Seq<char>,
    h: Seq<char>,
)
    requires
        ends_its_line(a),
        !leaves_list_open(a),
        is_one_line(m),
        is_host_line(m),
        has_no_backslash(m),
        ends_its_line(b),
        has_no_block_line(b),
        is_setting(pad, key, value, comment),
    ensures
        ({
            let start = a + m.push('\n') + b;
            let line = setting_line(pad, key, value, comment);
            let old = config_entries(start);
            let new = config_entries(start + line.push('\n'));
            let said = joined(words(value), seq![' ']);
            let was = entry_or_blank(old, h);
            if host_line_names(without_return(m), h) {
                &&& new.dom().contains(h)
                &&& new[h].host == was.host
                &&& if lowered(key) == seq!['u', 's', 'e', 'r'] {
                    new[h].user == Some(said) && new[h].port == was.port && new[h].hostname
                        == was.hostname
                } else if lowered(key) == seq!['p', 'o', 'r', 't'] {
                    new[h].user == was.user && new[h].port == spelled_port(said) && new[h].hostname
                        == was.hostname
                } else if lowered(key) == seq!['h', 'o', 's', 't', 'n', 'a', 'm', 'e'] {
                    new[h].user == was.user && new[h].port == was.port && new[h].hostname == Some(
                        said,
                    )
                } else {
                    new[h].user == was.user && new[h].port == was.port && new[h].hostname
                        == was.hostname
                }
            } else {
                &&& new.dom().contains(h) <==> old.dom().contains(h)
                &&& old.dom().contains(h) ==> new[h] == old[h]
            }
        }),
{
    let start = a + m.push('\n') + b;
    let line = setting_line(pad, key, value, comment);
    let none = Seq::<char>::empty();
    let cut = without_return(m);
    line_between(a, m, b);
    returns_do_not_matter(m);
    assert forall|k: int| 0 <= k < cut.len() implies #[trigger] cut[k] != '\\' by {
        assert(cut[k] == m[k]);
    }
    host_line_begins_a_block(lines(a), cut);
    let first = lines(a).push(cut);
    body_keeps_the_hosts(first, lines(b));
    let scan = scan_entry_lines(lines(start));
    assert(ends_its_line(start));
    setting_line_is_read(pad, key, value, comment);
    line_between(start, line, none);
    assert(start + line.push('\n') + none =~= start + line.push('\n'));
    assert(pieces(none, just('\n')) =~= seq![none]);
    assert(lines(none) =~= Seq::empty());
    let all = lines(start).push(line);
    assert(all + lines(none) =~= all);
    assert(all.drop_last() =~= lines(start));
    assert(all.last() == line);
    host_lines_are_read(line);
    let fields = words(bare_line(line));
    assert(fields.skip(1) =~= words(value));
    assert(fields[0] == key);
    value_is_not_empty(value);
    assert(scan.current.to_set().contains(h) <==> host_line_names(cut, h));
    assert(lowered(crate::ssh_config::user_key()) =~= seq!['u', 's', 'e', 'r']);
    assert(lowered(crate::ssh_config::port_key()) =~= seq!['p', 'o', 'r', 't']);
    assert(lowered(crate::ssh_config::hostname_key()) =~= seq![
        'h',
        'o',
        's',
        't',
        'n',
        'a',
        'm',
        'e',
    ]);
}

proof fn value_is_not_empty(value: Seq<char>)
    requires
        words(value).len() > 0,
    ensures
        joined(words(value), seq![' ']).len() > 0,
{
    let sep = |c: char| is_space(c);
    let full = |w: Seq<char>| w.len() > 0;
    let all = words(value);
    filter_member(pieces(value, sep), full, all.len() - 1);
    if all.len() == 1 {
        assert(joined(all, seq![' ']) == all[0]);
    } else {
        assert(all.last() == all[all.len() - 1]);
    }
}

/// A value of one word is taken as it stands.
pub proof fn plain_values_stay(value: Seq<char>)
    requires
        is_keyword(value),
    ensures
        joined(words(value), seq![' ']) == value,
{
    one_word(value);
    assert(joined(seq![value], seq![' ']) == value);
}

/// A keyword without a value sets nothing.
pub proof fn bare_keywords_set_nothing(
    a: Seq<char>,
    pad: Seq<char>,
    key: Seq<char>,
)
    requires
        ends_its_line(a),
        !leaves_list_open(a),
        is_all_space(pad),
        is_keyword(key),
        is_one_line(pad + key),
        lowered(key) != seq!['h', 'o', 's', 't'],
        lowered(key) != seq!['m', 'a', 't', 'c', 'h'],
    ensures
        config_entries(a + (pad + key).push('\n')) == config_entries(a),
{
    let line = pad + key;
    let none = Seq::<char>::empty();
    let at = pad.len() as int;
    line_between(a, line, none);
    assert(a + line.push('\n') + none =~= a + line.push('\n'));
    assert(pieces(none, just('\n')) =~= seq![none]);
    assert(lines(none) =~= Seq::empty());
    assert(line.last() == key[key.len() - 1]);
    assert(!is_space(key[key.len() - 1]));
    assert(without_return(line) == line);
    assert(lines(a).push(line) + lines(none) =~= lines(a).push(line));
    assert(lines(a).push(line).drop_last() =~= lines(a));
    assert forall|k: int| 0 <= k < at implies is_space(#[trigger] line[k]) by {
        assert(line[k] == pad[k]);
    }
    assert(line[at] == key[0]);
    assert(!is_space(key[0]));
    trimmed_start_at(line, at);
    assert(line.skip(at) =~= key);
    first_of_unique(key, '#', key.len() as int);
    assert(bare_line(line) == key);
    one_word(key);
    assert(seq![key].skip(1) =~= Seq::empty());
    assert(lowered(host_word()) =~= seq!['h', 'o', 's', 't']);
    assert(lowered(match_word()) =~= seq!['m', 'a', 't', 'c', 'h']);
    assert(after_keyword(key, host_word()) is None) by {
        if key.len() == 4 {
            assert(key.take(4) =~= key);
        } else if key.len() > 4 {
            assert(!is_space(key[4]));
        }
    }
    assert(after_keyword(key, match_word()) is None) by {
        if key.len() == 5 {
            assert(key.take(5) =~= key);
        } else if key.len() > 5 {
            assert(!is_space(key[5]));
        }
    }
}

// ---------------------------------------------------------------------------
// The hosts of a configuration

/// Whether the first word of a line stands at `at` and is `Host`, spelled like
/// that.
pub open spec fn begins_with_host(line: Seq<char>, at: int) -> bool {
    &&& 0 <= at && at + 4 <= line.len()
    &&& forall|k: int| 0 <= k < at ==> is_space(#[trigger] line[k])
    &&& line[at] == 'H' && line[at + 1] == 'o' && line[at + 2] == 's' && line[at + 3] == 't'
    &&& at + 4 == line.len() || is_space(line[at + 4]) || line[at + 4] == '#'
}

/// A line without a backslash adds to the hosts of a configuration just the
/// words behind its keyword `Host` that are neither exclusions nor patterns,
/// and nothing where it has no such keyword.
pub proof fn host_lines_name_their_words(a: Seq<char>, m: Seq<char>, h: Seq<char>)
    requires
        ends_its_line(a),
        !scan_lines(lines(a)).open,
        is_one_line(m),
        has_no_backslash(m),
        forall|k: int| 0 <= k < m.len() ==> #[trigger] m[k] != '\r',
    ensures
        config_hosts(a + m.push('\n')).contains(h) <==> config_hosts(a).contains(h) || (is_by_name(h)
            && exists|at: int, i: int|
            #![trigger begins_with_host(m, at), word_at(m, h, i)]
            begins_with_host(m, at) && word_at(m, h, i) && i > at),
{
    let none = Seq::<char>::empty();
    line_between(a, m, none);
    assert(a + m.push('\n') + none =~= a + m.push('\n'));
    assert(pieces(none, just('\n')) =~= seq![none]);
    assert(lines(none) =~= Seq::empty());
    assert(without_return(m) == m);
    let all = lines(a).push(m);
    assert(all + lines(none) =~= all);
    assert(all.drop_last() =~= lines(a));
    assert(all.last() == m);
    hosts_of_a_line(m, h);
    let old = scan_lines(lines(a));
    assert(scan_lines(all) == scan_line(old, m));
}

proof fn hosts_of_a_line(m: Seq<char>, h: Seq<char>)
    requires
        has_no_backslash(m),
        forall|k: int| 0 <= k < m.len() ==> #[trigger] m[k] != '\r',
        is_one_line(m),
    ensures
        forall|scan: crate::ssh_config::HostScan|
            !scan.open ==> ((#[trigger] scan_line(scan, m)).hosts.contains(h) <==> scan.hosts.contains(
                h,
            ) || (is_by_name(h) && exists|at: int, i: int|
                #![trigger begins_with_host(m, at), word_at(m, h, i)]
                begins_with_host(m, at) && word_at(m, h, i) && i > at)),
{
    let bare = bare_line(m);
    let word = seq!['H', 'o', 's', 't'];
    let at = start_of(m);
    let rest = bare.skip(4);
    let keep = |w: Seq<char>| names_host(w);
    start_of_facts(m);
    if at < m.len() {
        bare_line_place(m, at);
        assert forall|k: int| 0 <= k < bare.len() implies #[trigger] bare[k] == m[at + k] by {}
    } else {
        trimmed_start_at(m, at);
        assert(trimmed_start(m) =~= Seq::empty());
        first_of_bounds(trimmed_start(m), '#');
        assert(bare.len() == 0);
    }
    let begins_here = crate::text::begins(bare, word);
    let named = begins_here && rest.len() > 0 && is_space(rest[0]);
    if begins_here {
        assert forall|k: int| 0 <= k < 4 implies bare[k] == word[k] by {
            assert(bare.take(4)[k] == bare[k]);
        }
        assert(m[at + 0] == bare[0] && m[at + 1] == bare[1] && m[at + 2] == bare[2] && m[at + 3]
            == bare[3]);
        if rest.len() > 0 {
            assert(rest[0] == bare[4]);
            assert(rest[0] == m[at + 4]);
        }
    }
    if exists|b: int, i: int|
        #![trigger begins_with_host(m, b), word_at(m, h, i)]
        begins_with_host(m, b) && word_at(m, h, i) && i > b {
        let (b, i) = choose|b: int, i: int|
            #![trigger begins_with_host(m, b), word_at(m, h, i)]
            begins_with_host(m, b) && word_at(m, h, i) && i > b;
        if at < b {
            assert(is_space(m[at]));
        }
        if b < at {
            assert(is_space(m[b]));
        }
        exact_word_is_kept(m, at);
        assert(bare.take(4) =~= word);
        assert(i > at + 4) by {
            assert(is_space(m[i - 1]));
        }
        word_goes_behind(m, at, h, i);
        assert(named);
    }
    if named {
        words_of_rest(m, at, 4, h);
        kept_are_the_picked(words(rest), keep, h);
        if words(rest).contains(h) {
            let i = choose|i: int| i >= at + 4 && #[trigger] word_at(m, h, i);
            assert(begins_with_host(m, at) && word_at(m, h, i) && i > at);
        }
        if exists|b: int, i: int|
            #![trigger begins_with_host(m, b), word_at(m, h, i)]
            begins_with_host(m, b) && word_at(m, h, i) && i > b {
            let (b, i) = choose|b: int, i: int|
                #![trigger begins_with_host(m, b), word_at(m, h, i)]
                begins_with_host(m, b) && word_at(m, h, i) && i > b;
            if at < b {
                assert(is_space(m[at]));
            }
            if b < at {
                assert(is_space(m[b]));
            }
            assert(is_space(m[i - 1]));
            assert(i >= at + 4 && word_at(m, h, i));
        }
        assert(named_hosts(rest).contains(h) <==> host_fields(rest).contains(h));
        if h.len() > 0 {
            by_name_is_named(h);
        }
        assert(words(rest).contains(h) ==> h.len() > 0) by {
            if words(rest).contains(h) {
                let i = choose|i: int| i >= at + 4 && #[trigger] word_at(m, h, i);
            }
        }
    }
}

proof fn exact_word_is_kept(m: Seq<char>, at: int)
    requires
        begins_with_host(m, at),
    ensures
        bare_line(m).len() >= 4,
        bare_line(m)[0] == 'H',
        bare_line(m)[1] == 'o',
        bare_line(m)[2] == 's',
        bare_line(m)[3] == 't',
{
    let host = seq!['h', 'o', 's', 't'];
    assert(lowered(host_word()) =~= host);
    assert(begins_with_word(m, host, at)) by {
        assert forall|k: int| 0 <= k < host.len() implies lower(#[trigger] m[at + k]) == host[k] by {
            assert(k == 0 || k == 1 || k == 2 || k == 3);
        }
    }
    word_is_the_keyword(m, host, host_word(), at);
    bare_line_place(m, at);
    assert(bare_line(m)[0] == m[at + 0] && bare_line(m)[1] == m[at + 1] && bare_line(m)[2] == m[at
        + 2] && bare_line(m)[3] == m[at + 3]);
}

proof fn word_goes_behind(m: Seq<char>, at: int, h: Seq<char>, i: int)
    requires
        begins_with_host(m, at),
        word_at(m, h, i),
        i > at + 4,
    ensures
        bare_line(m).len() > 4,
        is_space(bare_line(m)[4]),
        bare_line(m)[4] == m[at + 4],
{
    exact_word_is_kept(m, at);
    bare_line_place(m, at);
    let n = bare_line(m).len() as int;
    let stop = at + first_of(m.skip(at), '#');
    assert(m.subrange(i, i + h.len())[0] == m[i]);
    assert(!is_space(h[0]));
    assert(stop > i) by {
        if stop <= i {
            assert(m[stop] != '#');
        }
    }
    if at + n <= i {
        assert(is_space(m[i]));
    }
    assert(bare_line(m)[4] == m[at + 4]);
    assert(m[at + 4] != '#');
}

proof fn by_name_is_named(h: Seq<char>)
    requires
        h.len() > 0,
    ensures
        names_host(h) <==> is_by_name(h),
{
    if h[0] != '!' && !h.contains('*') {
        assert forall|k: int| 0 <= k < h.len() implies #[trigger] h[k] != '*' by {}
    }
    if is_by_name(h) && h.contains('*') {
        let k = choose|k: int| 0 <= k < h.len() && h[k] == '*';
        assert(h[k] != '*');
    }
}

// ---------------------------------------------------------------------------
// Lists of hosts that go on

proof fn words_of_trimmed_start(x: Seq<char>)
    ensures
        words(trimmed_start(x)) == words(x),
    decreases x.len(),
{
    if x.len() > 0 && is_space(x[0]) {
        let rest = x.skip(1);
        let none = Seq::<char>::empty();
        words_of_trimmed_start(rest);
        words_of_joined(none, x[0], rest);
        assert(none.push(x[0]) + rest =~= x);
        no_words_in_nothing();
        assert(words(none) + words(rest) =~= words(rest));
    }
}

/// The words of what is left of a line are those before its comment.
proof fn words_of_bare_line(c: Seq<char>)
    ensures
        words(bare_line(c)) == words(before(c, '#')),
{
    let at = start_of(c);
    start_of_facts(c);
    let s = c.skip(at);
    trimmed_start_at(c, at);
    let f = first_of(s, '#');
    first_of_bounds(s, '#');
    assert forall|k: int| 0 <= k < at + f implies c[k] != '#' by {
        if k < at {
            assert(is_space(c[k]));
        } else {
            assert(s[k - at] == c[k]);
        }
    }
    if f < s.len() {
        assert(s[f] == c[at + f]);
    }
    first_of_unique(c, '#', at + f);
    let head = before(c, '#');
    assert forall|k: int| 0 <= k < at implies is_space(head[k]) by {
        assert(head[k] == c[k]);
    }
    if f > 0 {
        assert(head[at] == c[at]);
    }
    trimmed_start_at(head, at);
    assert(head.skip(at) =~= s.take(f));
    words_of_trimmed_start(head);
    words_of_trimmed(s.take(f));
    if f == s.len() {
        assert(s.take(f) =~= s);
    }
}

/// A keyword is the first word, and the others follow it.
proof fn keyword_comes_first(bare: Seq<char>, n: int)
    requires
        0 < n <= bare.len(),
        forall|k: int| 0 <= k < n ==> !is_space(#[trigger] bare[k]),
        n == bare.len() || is_space(bare[n]),
    ensures
        words(bare) == seq![bare.take(n)] + words(bare.skip(n)),
{
    let word = bare.take(n);
    assert forall|k: int| 0 <= k < word.len() implies !is_space(#[trigger] word[k]) by {
        assert(word[k] == bare[k]);
    }
    one_word(word);
    let none = Seq::<char>::empty();
    no_words_in_nothing();
    if n == bare.len() {
        assert(word =~= bare);
        assert(bare.skip(n) =~= none);
        assert(words(bare) =~= seq![word] + words(bare.skip(n)));
    } else {
        let rest = bare.skip(n + 1);
        assert(bare =~= word.push(bare[n]) + rest);
        words_of_joined(word, bare[n], rest);
        assert(bare.skip(n) =~= none.push(bare[n]) + rest);
        words_of_joined(none, bare[n], rest);
        assert(words(none) + words(rest) =~= words(rest));
    }
}

/// The hosts that the words of a line name for entries.
spec fn listed_of(fields: Seq<Seq<char>>) -> Seq<Seq<char>> {
    fields.filter(|w: Seq<char>| names_host(w)).map_values(
        |w: Seq<char>| without_backslashes(w),
    ).filter(|w: Seq<char>| w.len() > 0)
}

proof fn listed_of_both(a: Seq<Seq<char>>, b: Seq<Seq<char>>)
    ensures
        listed_of(a + b) == listed_of(a) + listed_of(b),
{
    let keep = |w: Seq<char>| names_host(w);
    let strip = |w: Seq<char>| without_backslashes(w);
    let full = |w: Seq<char>| w.len() > 0;
    Seq::filter_distributes_over_add(a, b, keep);
    let x = a.filter(keep);
    let y = b.filter(keep);
    assert((x + y).map_values(strip) =~= x.map_values(strip) + y.map_values(strip));
    Seq::filter_distributes_over_add(x.map_values(strip), y.map_values(strip), full);
}

proof fn listed_without_comment(source: Seq<char>)
    requires
        forall|k: int| 0 <= k < source.len() ==> #[trigger] source[k] != '#',
    ensures
        listed_hosts(source) == listed_of(words(source)),
{
    first_of_unique(source, '#', source.len() as int);
    assert(before(source, '#') =~= source);
}

/// A backslash at the end of a line lists no further host.
proof fn backslash_lists_nothing(r: Seq<char>)
    requires
        has_no_backslash(r),
    ensures
        listed_of(words(r.push('\\'))) == listed_of(words(r)),
{
    let sep = |c: char| is_space(c);
    let full = |w: Seq<char>| w.len() > 0;
    let keep = |w: Seq<char>| names_host(w);
    let strip = |w: Seq<char>| without_backslashes(w);
    let all = pieces(r, sep);
    pieces_not_empty(r, sep);
    let head = all.drop_last();
    let last = all.last();
    let longer = last.push('\\');
    assert(r.push('\\').drop_last() =~= r);
    assert(pieces(r.push('\\'), sep) == head.push(longer));
    assert(all =~= head.push(last));
    crate::text::filter_push(head, last, full);
    crate::text::filter_push(head, longer, full);
    let w = head.filter(full);
    crate::text::filter_push(w, last, keep);
    crate::text::filter_push(w, longer, keep);
    let k = w.filter(keep);
    assert(k.push(last).map_values(strip) =~= k.map_values(strip).push(strip(last)));
    assert(k.push(longer).map_values(strip) =~= k.map_values(strip).push(strip(longer)));
    let t = k.map_values(strip);
    crate::text::filter_push(t, strip(last), full);
    crate::text::filter_push(t, strip(longer), full);
    let i = piece_place(r, sep, all.len() - 1);
    assert(last =~= r.subrange(i, i + last.len()));
    if last.len() > 0 {
        assert(last.last() == r[i + last.len() - 1]);
        assert(strip(last) == last);
        assert(longer[0] == last[0]);
        assert(longer.contains('*') <==> last.contains('*')) by {
            if last.contains('*') {
                let j = choose|j: int| 0 <= j < last.len() && last[j] == '*';
                assert(longer[j] == '*');
            }
            if longer.contains('*') {
                let j = choose|j: int| 0 <= j < longer.len() && longer[j] == '*';
                assert(last[j] == '*');
            }
        }
    } else {
        assert(last =~= Seq::empty());
        assert(strip(last) == last);
    }
    assert(longer.drop_last() =~= last);
    assert(strip(longer) == strip(last));
}

proof fn same_scan_same_rest(a: Seq<Seq<char>>, c: Seq<Seq<char>>, b: Seq<Seq<char>>)
    requires
        scan_entry_lines(a) == scan_entry_lines(c),
    ensures
        scan_entry_lines(a + b) == scan_entry_lines(c + b),
    decreases b.len(),
{
    if b.len() == 0 {
        assert(a + b =~= a);
        assert(c + b =~= c);
    } else {
        same_scan_same_rest(a, c, b.drop_last());
        assert((a + b).drop_last() =~= a + b.drop_last());
        assert((c + b).drop_last() =~= c + b.drop_last());
        assert((a + b).last() == b.last());
        assert((c + b).last() == b.last());
    }
}

proof fn something_is_left_of_it(c: Seq<char>)
    requires
        !says_nothing(c),
    ensures
        bare_line(c).len() > 0,
{
    let at = start_of(c);
    start_of_facts(c);
    if bare_line(c).len() == 0 {
        assert forall|i: int| 0 <= i < c.len() && !is_space(#[trigger] c[i]) implies exists|k: int|
            0 <= k <= i && #[trigger] c[k] == '#' && forall|j: int|
                0 <= j < k ==> is_space(#[trigger] c[j]) by {
            if i < at {
                assert(is_space(c[i]));
            }
            bare_line_place(c, at);
            let stop = at + first_of(c.skip(at), '#');
            assert(stop == at) by {
                if stop > at {
                    assert(is_space(c[at]));
                }
            }
            assert(c[at] == '#');
        }
    }
}

/// What stands in a `Host` line that goes on.
proof fn host_line_with_backslash(p: Seq<char>) -> (at: int)
    requires
        has_no_backslash(p),
        forall|k: int| 0 <= k < p.len() ==> #[trigger] p[k] != '#',
        is_host_line(p.push('\\')),
    ensures
        ({
            let m = p.push('\\');
            let bare = bare_line(m);
            &&& bare.len() > 4
            &&& after_keyword(bare, host_word()) == Some(bare.skip(4))
            &&& goes_on(bare)
            &&& listed_hosts(bare.skip(4)) == listed_of(words(p).skip(1))
        }),
        words(p).len() > 0,
        0 <= at && at + 4 < p.len(),
        is_space(p[at + 4]),
        begins_with_word(p, seq!['h', 'o', 's', 't'], at),
{
    let m = p.push('\\');
    let host = seq!['h', 'o', 's', 't'];
    assert(lowered(host_word()) =~= host);
    let at = choose|at: int| begins_with_word(m, host, at);
    word_is_the_keyword(m, host, host_word(), at);
    let bare = bare_line(m);
    assert(at + 4 < m.len()) by {
        if at + 4 == m.len() {
            assert(lower(m[at + 3]) == host[3]);
        }
    }
    assert(is_space(m[at + 4])) by {
        if m[at + 4] == '#' {
            assert(p[at + 4] == '#');
        }
    }
    assert(at + 4 < p.len());
    assert forall|k: int| 0 <= k < m.len() implies m[k] != '#' by {
        if k < p.len() {
            assert(p[k] != '#');
        }
    }
    trimmed_start_at(m, at);
    let s = m.skip(at);
    assert forall|k: int| 0 <= k < s.len() implies s[k] != '#' by {
        assert(s[k] == m[at + k]);
    }
    first_of_unique(s, '#', s.len() as int);
    assert(bare == s);
    assert(bare.last() == '\\');
    trimmed_end_at(bare, bare.len() as int);
    assert(bare.take(bare.len() as int) =~= bare);
    let r = p.skip(at + 4);
    let rest = bare.skip(4);
    assert(rest =~= r.push('\\'));
    assert forall|k: int| 0 <= k < rest.len() implies #[trigger] rest[k] != '#' by {
        assert(rest[k] == s[4 + k]);
    }
    listed_without_comment(rest);
    assert forall|k: int| 0 <= k < r.len() implies #[trigger] r[k] != '\\' by {
        assert(r[k] == p[at + 4 + k]);
    }
    backslash_lists_nothing(r);
    let own = p.skip(at);
    assert forall|k: int| 0 <= k < 4 implies !is_space(#[trigger] own[k]) by {
        assert(own[k] == m[at + k]);
        assert(lower(m[at + k]) == host[k]);
    }
    assert(own[4] == p[at + 4]);
    keyword_comes_first(own, 4);
    assert(own.skip(4) =~= r);
    assert forall|k: int| 0 <= k < at implies is_space(p[k]) by {
        assert(m[k] == p[k]);
    }
    assert(p[at] == own[0]);
    trimmed_start_at(p, at);
    words_of_trimmed_start(p);
    assert(words(p) == seq![own.take(4)] + words(r));
    assert(words(p).skip(1) =~= words(r));
    assert(begins_with_word(p, host, at)) by {
        assert forall|k: int| 0 <= k < at implies is_space(#[trigger] p[k]) by {
            assert(m[k] == p[k]);
        }
        assert forall|k: int| 0 <= k < 4 implies lower(#[trigger] p[at + k]) == host[k] by {
            assert(m[at + k] == p[at + k]);
        }
    }
    at
}

proof fn joined_host_line(p: Seq<char>, c: Seq<char>)
    requires
        has_no_backslash(p),
        has_no_backslash(c),
        forall|k: int| 0 <= k < p.len() ==> #[trigger] p[k] != '#',
        is_host_line(p.push('\\')),
    ensures
        ({
            let bare = bare_line(p.push(' ') + c);
            &&& bare.len() > 0
            &&& after_keyword(bare, host_word()) == Some(bare.skip(4))
            &&& !goes_on(bare)
            &&& listed_hosts(bare.skip(4)) == listed_of(words(p).skip(1)) + listed_hosts(
                bare_line(c),
            )
        }),
{
    let host = seq!['h', 'o', 's', 't'];
    let line = p.push(' ') + c;
    assert(lowered(host_word()) =~= host);
    let at = host_line_with_backslash(p);
    assert(begins_with_word(line, host, at)) by {
        assert forall|k: int| 0 <= k < at implies is_space(#[trigger] line[k]) by {
            assert(line[k] == p[k]);
        }
        assert forall|k: int| 0 <= k < 4 implies lower(#[trigger] line[at + k]) == host[k] by {
            assert(line[at + k] == p[at + k]);
        }
        assert(line[at + 4] == p[at + 4]);
    }
    word_is_the_keyword(line, host, host_word(), at);
    let bare = bare_line(line);
    bare_line_place(line, at);
    assert forall|k: int| 0 <= k < line.len() implies #[trigger] line[k] != '\\' by {
        if k < p.len() {
            assert(line[k] == p[k]);
        } else if k > p.len() {
            assert(line[k] == c[k - p.len() - 1]);
        }
    }
    trimmed_end_place(bare);
    if goes_on(bare) {
        let n = trimmed_end(bare).len() as int;
        assert(trimmed_end(bare)[n - 1] == bare[n - 1]);
        assert(bare[n - 1] == line[at + n - 1]);
    }
    assert forall|k: int| 0 <= k < 4 implies !is_space(#[trigger] bare[k]) by {
        assert(lower(bare[k]) == host[k]);
    }
    assert(bare.len() == 4 || is_space(bare[4]));
    keyword_comes_first(bare, 4);
    words_of_bare_line(line);
    words_of_bare_line(c);
    first_of_bounds(c, '#');
    let f = first_of(c, '#');
    assert forall|k: int| 0 <= k < p.len() + 1 + f implies line[k] != '#' by {
        if k < p.len() {
            assert(line[k] == p[k]);
        } else if k > p.len() {
            assert(line[k] == c[k - p.len() - 1]);
        }
    }
    if f < c.len() {
        assert(line[p.len() + 1 + f] == c[f]);
    }
    first_of_unique(line, '#', p.len() + 1 + f);
    assert(before(line, '#') =~= p.push(' ') + before(c, '#'));
    words_of_joined(p, ' ', before(c, '#'));
    let rest = bare.skip(4);
    assert(words(rest) =~= words(bare).skip(1));
    assert((words(p) + words(before(c, '#'))).skip(1) =~= words(p).skip(1) + words(before(c, '#')));
    bare_lines_hold_no_comment(line);
    bare_lines_hold_no_comment(c);
    assert forall|k: int| 0 <= k < rest.len() implies #[trigger] rest[k] != '#' by {
        assert(rest[k] == bare[4 + k]);
    }
    listed_without_comment(rest);
    listed_without_comment(bare_line(c));
    listed_of_both(words(p).skip(1), words(before(c, '#')));
}

proof fn plain_lines_do_not_go_on(c: Seq<char>)
    requires
        has_no_backslash(c),
    ensures
        !goes_on(bare_line(c)),
{
    let bare = bare_line(c);
    let at = start_of(c);
    start_of_facts(c);
    if at == c.len() {
        trimmed_start_at(c, at);
        assert(trimmed_start(c) =~= Seq::empty());
        first_of_bounds(trimmed_start(c), '#');
    } else {
        bare_line_place(c, at);
        trimmed_end_place(bare);
        if goes_on(bare) {
            let n = trimmed_end(bare).len() as int;
            assert(trimmed_end(bare)[n - 1] == bare[n - 1]);
            assert(bare[n - 1] == c[at + n - 1]);
        }
    }
}

/// A list of hosts that goes on behind a backslash is the list in one line: what
/// follows is for the hosts of both lines, and nothing else is changed.
pub proof fn lists_of_hosts_go_on(a: Seq<char>, p: Seq<char>, c: Seq<char>, b: Seq<char>)
    requires
        ends_its_line(a),
        !leaves_list_open(a),
        is_one_line(p),
        is_one_line(c),
        has_no_backslash(p),
        has_no_backslash(c),
        forall|k: int| 0 <= k < p.len() ==> #[trigger] p[k] != '#',
        forall|k: int| 0 <= k < c.len() ==> #[trigger] c[k] != '\r',
        is_host_line(p.push('\\')),
        !says_nothing(c),
    ensures
        config_entries(a + p.push('\\').push('\n') + (c.push('\n') + b)) == config_entries(
            a + (p.push(' ') + c).push('\n') + b,
        ),
{
    let m = p.push('\\');
    let single = p.push(' ') + c;
    let none = Seq::<char>::empty();
    line_between(a, m, c.push('\n') + b);
    line_between(none, c, b);
    assert(none + c.push('\n') + b =~= c.push('\n') + b);
    assert(pieces(none, just('\n')) =~= seq![none]);
    assert(lines(none) =~= Seq::empty());
    assert(lines(none).push(c) + lines(b) =~= seq![c] + lines(b));
    assert(without_return(m) == m);
    assert(without_return(c) == c);
    assert(is_one_line(single)) by {
        assert forall|k: int| 0 <= k < single.len() implies single[k] != '\n' by {
            if k < p.len() {
                assert(single[k] == p[k]);
            } else if k > p.len() {
                assert(single[k] == c[k - p.len() - 1]);
            }
        }
    }
    assert(without_return(single) == single) by {
        if c.len() > 0 {
            assert(single.last() == c[c.len() - 1]);
        }
    }
    line_between(a, single, b);
    let _ = host_line_with_backslash(p);
    joined_host_line(p, c);
    something_is_left_of_it(c);
    plain_lines_do_not_go_on(c);
    let la = lines(a);
    let one = la.push(m);
    let two = one.push(c);
    let joint = la.push(single);
    assert(one.drop_last() =~= la);
    assert(two.drop_last() =~= one);
    assert(joint.drop_last() =~= la);
    closed_lists_are_empty(la);
    let start = scan_entry_lines(la);
    let bare = bare_line(c);
    let first = listed_hosts(bare_line(m).skip(4));
    assert(start.pending + first =~= first);
    let both = first + listed_hosts(bare);
    assert(start.pending + listed_hosts(bare_line(single).skip(4)) =~= both);
    assert(start.pending =~= Seq::empty());
    let after_one = scan_entry_lines(one);
    assert(one.last() == m);
    assert(after_one == scan_entry_line(start, m));
    assert(after_one.open && after_one.pending =~= first);
    assert(two.last() == c);
    assert(scan_entry_lines(two) == scan_entry_line(after_one, c));
    assert(scan_entry_lines(two).current =~= both);
    assert(joint.last() == single);
    assert(scan_entry_lines(joint) == scan_entry_line(start, single));
    assert(scan_entry_lines(joint).current =~= both);
    assert(scan_entry_lines(two) == scan_entry_lines(joint));
    same_scan_same_rest(two, joint, lines(b));
    assert(one + (seq![c] + lines(b)) =~= two + lines(b));
}

/// A list of hosts is not open at the beginning, nor behind a line that says
/// something and holds no backslash.
pub proof fn lists_end_without_a_backslash(a: Seq<char>, m: Seq<char>)
    requires
        ends_its_line(a),
        is_one_line(m),
        has_no_backslash(m),
    ensures
        !leaves_list_open(Seq::empty()),
        !scan_lines(lines(Seq::empty())).open,
        !says_nothing(without_return(m)) ==> !leaves_list_open(a + m.push('\n')),
        !scan_lines(lines(a + m.push('\n'))).open,
{
    let none = Seq::<char>::empty();
    assert(pieces(none, just('\n')) =~= seq![none]);
    assert(lines(none) =~= Seq::empty());
    line_between(a, m, none);
    assert(a + m.push('\n') + none =~= a + m.push('\n'));
    let cut = without_return(m);
    let all = lines(a).push(cut);
    assert(all + lines(none) =~= all);
    assert(all.drop_last() =~= lines(a));
    assert(has_no_backslash(cut)) by {
        assert forall|k: int| 0 <= k < cut.len() implies #[trigger] cut[k] != '\\' by {
            assert(cut[k] == m[k]);
        }
    }
    plain_lines_do_not_go_on(cut);
    let bare = bare_line(cut);
    if bare.len() >= 4 {
        let at = start_of(cut);
        start_of_facts(cut);
        if at == cut.len() {
            trimmed_start_at(cut, at);
            assert(trimmed_start(cut) =~= none);
            first_of_bounds(trimmed_start(cut), '#');
        }
        bare_line_place(cut, at);
        let rest = bare.skip(4);
        trimmed_end_place(rest);
        if goes_on(rest) {
            let n = trimmed_end(rest).len() as int;
            assert(trimmed_end(rest)[n - 1] == rest[n - 1]);
            assert(rest[n - 1] == bare[4 + n - 1]);
            assert(bare[4 + n - 1] == cut[at + 4 + n - 1]);
        }
    }
    if !says_nothing(cut) {
        something_is_left_of_it(cut);
        host_lines_are_read(cut);
    }
}

/// Whether the text of a line begins with the letters of `Host`.
pub open spec fn begins_with_letters(line: Seq<char>, at: int) -> bool {
    &&& 0 <= at && at + 4 <= line.len()
    &&& forall|k: int| 0 <= k < at ==> is_space(#[trigger] line[k])
    &&& line[at] == 'H' && line[at + 1] == 'o' && line[at + 2] == 's' && line[at + 3] == 't'
}

/// Behind the word `Host` with a backslash the hosts stand in the next line: all
/// its words are named that are neither exclusions nor patterns. The backslash
/// itself counts as a name.
pub proof fn hosts_stand_in_the_next_line(a: Seq<char>, pad: Seq<char>, c: Seq<char>, h: Seq<char>)
    requires
        ends_its_line(a),
        !scan_lines(lines(a)).open,
        is_all_space(pad),
        is_one_line(pad),
        is_one_line(c),
        has_no_backslash(c),
        forall|k: int| 0 <= k < c.len() ==> #[trigger] c[k] != '\r',
        !(exists|at: int| begins_with_letters(c, at)),
    ensures
        config_hosts(
            a + (pad + seq!['H', 'o', 's', 't', '\\']).push('\n') + c.push('\n'),
        ).contains(h) <==> config_hosts(a).contains(h) || h == seq!['\\'] || (is_by_name(h)
            && exists|i: int| #[trigger] word_at(c, h, i)),
{
    let word = seq!['H', 'o', 's', 't', '\\'];
    let m = pad + word;
    let none = Seq::<char>::empty();
    assert(is_one_line(m));
    line_between(a, m, c.push('\n'));
    line_between(none, c, none);
    assert(none + c.push('\n') + none =~= c.push('\n'));
    assert(pieces(none, just('\n')) =~= seq![none]);
    assert(lines(none) =~= Seq::empty());
    assert(lines(none).push(c) + lines(none) =~= seq![c]);
    assert(without_return(m) == m);
    assert(without_return(c) == c);
    let la = lines(a);
    let one = la.push(m);
    let two = one.push(c);
    assert(one + seq![c] =~= two);
    assert(one.drop_last() =~= la);
    assert(two.drop_last() =~= one);
    let n = pad.len() as int;
    assert forall|k: int| 0 <= k < n implies is_space(m[k]) by {
        assert(m[k] == pad[k]);
    }
    assert(m[n] == 'H');
    trimmed_start_at(m, n);
    assert(m.skip(n) =~= word);
    first_of_unique(word, '#', 5);
    assert(bare_line(m) == word);
    assert(word.take(4) =~= seq!['H', 'o', 's', 't']);
    let rest = word.skip(4);
    assert(rest =~= seq!['\\']);
    assert(trimmed_end(rest) == rest);
    one_word(rest);
    let keep = |w: Seq<char>| names_host(w);
    kept_are_the_picked(words(rest), keep, h);
    assert(names_host(rest)) by {
        if rest.contains('*') {
            let k = choose|k: int| 0 <= k < rest.len() && rest[k] == '*';
        }
    }
    assert(words(rest).contains(h) <==> h == rest) by {
        if h == rest {
            assert(words(rest)[0] == h);
        }
    }
    assert(named_hosts(rest).contains(h) <==> host_fields(rest).contains(h));
    words_of_a_plain_line(c, h);
    plain_lines_do_not_go_on(c);
    assert(named_hosts(bare_line(c)).contains(h) <==> host_fields(bare_line(c)).contains(h));
    kept_are_the_picked(words(bare_line(c)), keep, h);
    if h.len() > 0 {
        by_name_is_named(h);
    }
    letters_are_kept(c);
    let after_one = scan_lines(one);
    assert(one.last() == m);
    assert(after_one == scan_line(scan_lines(la), m));
    assert(after_one.open);
    assert(after_one.hosts.contains(h) <==> config_hosts(a).contains(h) || h == rest);
    assert(two.last() == c);
    assert(scan_lines(two) == scan_line(after_one, c));
}

proof fn words_of_a_plain_line(c: Seq<char>, h: Seq<char>)
    ensures
        words(bare_line(c)).contains(h) <==> exists|i: int| #[trigger] word_at(c, h, i),
        words(bare_line(c)).contains(h) ==> h.len() > 0,
{
    let bare = bare_line(c);
    let at = start_of(c);
    start_of_facts(c);
    if at < c.len() {
        words_of_rest(c, at, 0, h);
        assert(bare.skip(0) =~= bare);
        if exists|i: int| #[trigger] word_at(c, h, i) {
            let i = choose|i: int| #[trigger] word_at(c, h, i);
            assert(c.subrange(i, i + h.len())[0] == c[i]);
            if i < at {
                assert(is_space(c[i]));
                assert(!is_space(h[0]));
            }
            assert(i >= at + 0 && word_at(c, h, i));
        }
    } else {
        trimmed_start_at(c, at);
        assert(trimmed_start(c) =~= Seq::empty());
        first_of_bounds(trimmed_start(c), '#');
        assert(bare =~= Seq::empty());
        no_words_in_nothing();
        assert(!words(bare).contains(h));
        if exists|i: int| #[trigger] word_at(c, h, i) {
            let i = choose|i: int| #[trigger] word_at(c, h, i);
            assert(c.subrange(i, i + h.len())[0] == c[i]);
            assert(is_space(c[i]));
            assert(!is_space(h[0]));
        }
    }
}

proof fn letters_are_kept(c: Seq<char>)
    requires
        !(exists|at: int| begins_with_letters(c, at)),
    ensures
        !crate::text::begins(bare_line(c), seq!['H', 'o', 's', 't']),
{
    let host = seq!['H', 'o', 's', 't'];
    let bare = bare_line(c);
    let at = start_of(c);
    start_of_facts(c);
    if crate::text::begins(bare, host) {
        if at == c.len() {
            trimmed_start_at(c, at);
            assert(trimmed_start(c) =~= Seq::empty());
            first_of_bounds(trimmed_start(c), '#');
        }
        bare_line_place(c, at);
        assert forall|k: int| 0 <= k < 4 implies bare[k] == host[k] by {
            assert(bare.take(4)[k] == bare[k]);
        }
        assert(c[at + 0] == bare[0] && c[at + 1] == bare[1] && c[at + 2] == bare[2] && c[at + 3]
            == bare[3]);
        assert(begins_with_letters(c, at));
    }
}

} // verus!
