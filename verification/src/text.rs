//! Text normalisation shared by the configuration parser and the workers:
//! snake-casing of type names, trimming, lower-casing, list splitting.

use vstd::prelude::*;
use vstd::string::*;

verus! {

/// The snake-case form of the character `c` standing at position `i` of a
/// name: an ASCII capital becomes its lower-case letter, preceded by an
/// underscore unless it opens the name; every other character is kept.
pub open spec fn snake_char(c: char, i: int) -> Seq<char> {
    if 'A' <= c && c <= 'Z' {
        let lower = ((c as u8) + 32) as char;
        if i == 0 {
            seq![lower]
        } else {
            seq!['_', lower]
        }
    } else {
        seq![c]
    }
}

/// The snake-case form of a name: the concatenation of [`snake_char`] over
/// its characters, in order.
pub open spec fn snake_case(s: Seq<char>) -> Seq<char>
    decreases s.len(),
{
    if s.len() == 0 {
        Seq::empty()
    } else {
        snake_case(s.drop_last()) + snake_char(s.last(), s.len() - 1)
    }
}

/// Whether no ASCII capital occurs in `s`.
pub open spec fn has_no_capital(s: Seq<char>) -> bool {
    forall|i: int| 0 <= i < s.len() ==> !('A' <= #[trigger] s[i] && s[i] <= 'Z')
}

/// The pieces of `s` between occurrences of `sep`. There is always at least
/// one piece; a separator at either end yields an empty piece there.
pub open spec fn split_seq(s: Seq<char>, sep: char) -> Seq<Seq<char>>
    decreases s.len(),
{
    if s.len() == 0 {
        seq![Seq::<char>::empty()]
    } else {
        let before = split_seq(s.drop_last(), sep);
        if s.last() == sep {
            before.push(Seq::<char>::empty())
        } else {
            before.drop_last().push(before.last().push(s.last()))
        }
    }
}

/// What `str::to_lowercase` returns for the text `s`.
pub uninterp spec fn lowercase(s: Seq<char>) -> Seq<char>;

/// Whether `c` is white space: a character with the Unicode property
/// `White_Space`.
pub open spec fn is_white_space(c: char) -> bool {
    let code = c as u32;
    ||| 0x09 <= code <= 0x0D
    ||| code == 0x20
    ||| code == 0x85
    ||| code == 0xA0
    ||| code == 0x1680
    ||| 0x2000 <= code <= 0x200A
    ||| code == 0x2028
    ||| code == 0x2029
    ||| code == 0x202F
    ||| code == 0x205F
    ||| code == 0x3000
}

/// `s` without the white space at its beginning.
pub open spec fn trimmed_start(s: Seq<char>) -> Seq<char>
    decreases s.len(),
{
    if s.len() > 0 && is_white_space(s[0]) {
        trimmed_start(s.skip(1))
    } else {
        s
    }
}

/// `s` without the white space at its end.
pub open spec fn trimmed_end(s: Seq<char>) -> Seq<char>
    decreases s.len(),
{
    if s.len() > 0 && is_white_space(s.last()) {
        trimmed_end(s.drop_last())
    } else {
        s
    }
}

/// `s` without the white space at its beginning and at its end.
pub open spec fn trimmed(s: Seq<char>) -> Seq<char> {
    trimmed_end(trimmed_start(s))
}

/// The number that the decimal digits `s` write, or `None` where a
/// character of `s` is no digit. No digits write zero.
pub open spec fn digits_value(s: Seq<char>) -> Option<nat>
    decreases s.len(),
{
    if s.len() == 0 {
        Some(0)
    } else if '0' <= s.last() && s.last() <= '9' {
        match digits_value(s.drop_last()) {
            Some(v) => Some(v * 10 + ((s.last() as u8) - ('0' as u8)) as nat),
            None => None,
        }
    } else {
        None
    }
}

/// The count that the text `s` writes: decimal digits, at least one, with
/// an optional plus sign before them, for a number that a `usize` can hold.
pub open spec fn parsed_count(s: Seq<char>) -> Option<usize> {
    let digits = if s.len() > 0 && s[0] == '+' {
        s.skip(1)
    } else {
        s
    };
    if digits.len() == 0 {
        None
    } else {
        match digits_value(digits) {
            Some(v) => if v <= usize::MAX {
                Some(v as usize)
            } else {
                None
            },
            None => None,
        }
    }
}

/// What `str::replace` returns for the text `s` when every match of `from`
/// is replaced by `to`.
pub uninterp spec fn replaced(s: Seq<char>, from: Seq<char>, to: Seq<char>) -> Seq<char>;

/// The lower-case form of an ASCII capital; any other character is kept.
pub open spec fn ascii_lower(c: char) -> char {
    if 'A' <= c && c <= 'Z' {
        ((c as u8) + 32) as char
    } else {
        c
    }
}

/// Whether two texts are the same once their ASCII capitals are put in
/// lower case.
pub open spec fn same_ignoring_ascii_case(a: Seq<char>, b: Seq<char>) -> bool {
    a.len() == b.len() && forall|i: int|
        0 <= i < a.len() ==> ascii_lower(#[trigger] a[i]) == ascii_lower(b[i])
}

/// Whether `s` begins with `prefix`.
pub open spec fn has_prefix(s: Seq<char>, prefix: Seq<char>) -> bool {
    prefix.len() <= s.len() && s.subrange(0, prefix.len() as int) == prefix
}

/// The event-type list written as comma-separated text: each piece trimmed,
/// then snake-cased.
pub open spec fn snake_list(s: Seq<char>) -> Seq<Seq<char>> {
    split_seq(s, ',').map_values(|piece: Seq<char>| snake_case(trimmed(piece)))
}

/// Calls `case::CaseExt::to_snake`. The crate walks the characters once,
/// writes each ASCII capital as its lower-case letter and puts an underscore
/// before it unless it is the first character; that is [`snake_case`].
#[verifier::external_body]
pub(crate) fn to_snake(s: &str) -> (r: String)
    ensures
        r@ == snake_case(s@),
{
    case::CaseExt::to_snake(s)
}

/// Calls `str::to_lowercase`. Its result is a function of the text alone and
/// is named [`lowercase`].
#[verifier::external_body]
pub(crate) fn to_lowercase(s: &str) -> (r: String)
    ensures
        r@ == lowercase(s@),
{
    s.to_lowercase()
}

/// Calls `str::trim` and copies the slice it returns: the text without
/// the white space at its beginning and at its end.
#[verifier::external_body]
pub(crate) fn trim(s: &str) -> (r: String)
    ensures
        r@ == trimmed(s@),
{
    s.trim().to_string()
}

/// Calls `str::split` with a character pattern and copies each piece. The
/// pieces are those between the occurrences of `sep`, as [`split_seq`] says.
#[verifier::external_body]
pub(crate) fn split(s: &str, sep: char) -> (r: Vec<String>)
    ensures
        r.deep_view() == split_seq(s@, sep),
{
    s.split(sep).map(|piece| piece.to_string()).collect()
}

/// Calls `str::parse::<usize>`, which reads a decimal number with an
/// optional plus sign before it and fails on anything else and on a number
/// too large. The error carries nothing the library reads and is dropped.
#[verifier::external_body]
pub(crate) fn parse_count(s: &str) -> (r: Option<usize>)
    ensures
        r == parsed_count(s@),
{
    s.parse::<usize>().ok()
}

/// Calls `str::replace` with a text pattern. The result is named
/// [`replaced`].
#[verifier::external_body]
pub(crate) fn replace(s: &str, from: &str, to: &str) -> (r: String)
    ensures
        r@ == replaced(s@, from@, to@),
{
    s.replace(from, to)
}

/// Calls `str::eq_ignore_ascii_case`, which compares the two texts with
/// their ASCII capitals put in lower case.
#[verifier::external_body]
pub(crate) fn eq_ignore_ascii_case(a: &str, b: &str) -> (r: bool)
    ensures
        r == same_ignoring_ascii_case(a@, b@),
{
    a.eq_ignore_ascii_case(b)
}

/// Calls `str::starts_with` with a text pattern, which tells whether the
/// pattern matches at the beginning.
#[verifier::external_body]
pub(crate) fn starts_with(s: &str, prefix: &str) -> (r: bool)
    ensures
        r == has_prefix(s@, prefix@),
{
    s.starts_with(prefix)
}

/// Joins two pieces of text.
pub fn join2(a: &str, b: &str) -> (r: String)
    ensures
        r@ == a@ + b@,
{
    String::from_str(a).concat(b)
}

/// Whether two pieces of text hold the same characters.
pub fn same_text(a: &str, b: &str) -> (r: bool)
    ensures
        r == (a@ == b@),
{
    String::from_str(a) == String::from_str(b)
}

/// Whether `target` occurs in `list`.
pub fn contains_text(list: &Vec<String>, target: &str) -> (r: bool)
    ensures
        r == list.deep_view().contains(target@),
{
    let mut i: usize = 0;
    while i < list.len()
        invariant
            i <= list.len(),
            forall|j: int| 0 <= j < i ==> list@[j]@ != target@,
        decreases list.len() - i,
    {
        if same_text(list[i].as_str(), target) {
            assert(list.deep_view()[i as int] == target@);
            return true;
        }
        i = i + 1;
    }
    false
}

/// Snake-cases every entry of `list`.
pub fn snake_all(list: &Vec<String>) -> (r: Vec<String>)
    ensures
        r.deep_view() == list.deep_view().map_values(|name: Seq<char>| snake_case(name)),
{
    let mut out: Vec<String> = Vec::new();
    let mut i: usize = 0;
    while i < list.len()
        invariant
            i <= list.len(),
            out.len() == i,
            forall|j: int| 0 <= j < i ==> #[trigger] out@[j]@ == snake_case(list@[j]@),
        decreases list.len() - i,
    {
        let s = to_snake(list[i].as_str());
        out.push(s);
        i = i + 1;
    }
    assert(out.deep_view() =~= list.deep_view().map_values(|name: Seq<char>| snake_case(name)));
    out
}

/// Parses a comma-separated list of event types: each entry is trimmed and
/// snake-cased, the order is kept.
pub fn to_snake_list(input: &str) -> (r: Vec<String>)
    ensures
        r.deep_view() == snake_list(input@),
{
    let pieces = split(input, ',');
    let mut out: Vec<String> = Vec::new();
    let mut i: usize = 0;
    while i < pieces.len()
        invariant
            i <= pieces.len(),
            out.len() == i,
            forall|j: int| 0 <= j < i ==> #[trigger] out@[j]@ == snake_case(trimmed(pieces@[j]@)),
        decreases pieces.len() - i,
    {
        let t = trim(pieces[i].as_str());
        let s = to_snake(t.as_str());
        out.push(s);
        i = i + 1;
    }
    assert(out.deep_view() =~= snake_list(input@));
    out
}

/// The snake-case form of a name holds no ASCII capital.
pub proof fn snake_case_has_no_capital(s: Seq<char>)
    ensures
        has_no_capital(snake_case(s)),
    decreases s.len(),
{
    if s.len() > 0 {
        let head = snake_case(s.drop_last());
        let tail = snake_char(s.last(), s.len() - 1);
        snake_case_has_no_capital(s.drop_last());
        assert forall|i: int| 0 <= i < tail.len() implies !('A' <= #[trigger] tail[i] && tail[i]
            <= 'Z') by {
            let c = s.last();
            if 'A' <= c && c <= 'Z' {
                let lower = ((c as u8) + 32) as char;
                assert('a' <= lower && lower <= 'z');
            }
        }
        assert forall|i: int| 0 <= i < (head + tail).len() implies !('A' <= #[trigger] (head
            + tail)[i] && (head + tail)[i] <= 'Z') by {
            if i < head.len() {
                assert((head + tail)[i] == head[i]);
            } else {
                assert((head + tail)[i] == tail[i - head.len()]);
            }
        }
    }
}

/// A name without ASCII capitals is its own snake-case form.
pub proof fn snake_case_keeps_lower(s: Seq<char>)
    requires
        has_no_capital(s),
    ensures
        snake_case(s) == s,
    decreases s.len(),
{
    if s.len() > 0 {
        snake_case_keeps_lower(s.drop_last());
        assert(snake_char(s.last(), s.len() - 1) == seq![s.last()]);
        assert(s.drop_last() + seq![s.last()] =~= s);
    }
}

/// Putting a name in snake case twice gives what putting it there once
/// gives.
pub proof fn snake_case_is_idempotent(s: Seq<char>)
    ensures
        snake_case(snake_case(s)) == snake_case(s),
{
    snake_case_has_no_capital(s);
    snake_case_keeps_lower(snake_case(s));
}

} // verus!
