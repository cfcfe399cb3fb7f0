//! Small operations on text, as sequences of characters.

use vstd::prelude::*;

verus! {

/// Whether two texts hold the same characters.
pub fn same_text(a: &str, b: &str) -> (res: bool)
    ensures
        res == (a@ == b@),
{
    let n: usize = a.unicode_len();
    if n != b.unicode_len() {
        return false;
    }
    let mut i: usize = 0;
    while i < n
        invariant
            i <= n,
            n == a@.len(),
            n == b@.len(),
            forall|j: int| 0 <= j < i ==> a@[j] == b@[j],
        decreases n - i,
    {
        if a.get_char(i) != b.get_char(i) {
            return false;
        }
        i += 1;
    }
    assert(a@ =~= b@);
    true
}

/// Whether `text` begins with the characters of `prefix`.
pub open spec fn begins_with(text: Seq<char>, prefix: Seq<char>) -> bool {
    prefix.len() <= text.len() && text.take(prefix.len() as int) == prefix
}

/// Whether `text` begins with the characters of `prefix`.
pub fn starts_with(text: &str, prefix: &str) -> (res: bool)
    ensures
        res == begins_with(text@, prefix@),
{
    let n: usize = prefix.unicode_len();
    if text.unicode_len() < n {
        return false;
    }
    same_text(text.substring_char(0, n), prefix)
}

/// The characters that Unicode gives the `White_Space` property.
pub open spec fn white_space(c: char) -> bool {
    ||| '\u{9}' <= c <= '\u{d}'
    ||| c == '\u{20}'
    ||| c == '\u{85}'
    ||| c == '\u{a0}'
    ||| c == '\u{1680}'
    ||| '\u{2000}' <= c <= '\u{200a}'
    ||| c == '\u{2028}'
    ||| c == '\u{2029}'
    ||| c == '\u{202f}'
    ||| c == '\u{205f}'
    ||| c == '\u{3000}'
}

/// Whether Unicode gives the character the `White_Space` property.
pub fn is_white_space(c: char) -> (res: bool)
    ensures
        res == white_space(c),
{
    ('\u{9}' <= c && c <= '\u{d}') || c == '\u{20}' || c == '\u{85}' || c == '\u{a0}'
        || c == '\u{1680}' || ('\u{2000}' <= c && c <= '\u{200a}') || c == '\u{2028}'
        || c == '\u{2029}' || c == '\u{202f}' || c == '\u{205f}' || c == '\u{3000}'
}

/// `text` without the white space at its two ends.
pub open spec fn trimmed(text: Seq<char>) -> Seq<char>
    decreases text.len(),
{
    if text.len() > 0 && white_space(text.first()) {
        trimmed(text.drop_first())
    } else if text.len() > 0 && white_space(text.last()) {
        trimmed(text.drop_last())
    } else {
        text
    }
}

/// Takes the white space off the two ends of `text`.
pub fn trim(text: &str) -> (res: &str)
    ensures
        res@ == trimmed(text@),
{
    let n: usize = text.unicode_len();
    let mut from: usize = 0;
    assert(text@.subrange(0, n as int) =~= text@);
    while from < n && is_white_space(text.get_char(from))
        invariant
            from <= n,
            n == text@.len(),
            trimmed(text@.subrange(from as int, n as int)) == trimmed(text@),
        ensures
            from == n || !white_space(text@[from as int]),
        decreases n - from,
    {
        assert(text@.subrange(from as int, n as int).drop_first() =~= text@.subrange(
            from + 1,
            n as int,
        ));
        from += 1;
    }
    let mut to: usize = n;
    while from < to && is_white_space(text.get_char(to - 1))
        invariant
            from <= to <= n,
            n == text@.len(),
            from == n || !white_space(text@[from as int]),
            trimmed(text@.subrange(from as int, to as int)) == trimmed(text@),
        ensures
            from == to || !white_space(text@[to - 1]),
        decreases to,
    {
        assert(text@.subrange(from as int, to as int).drop_last() =~= text@.subrange(
            from as int,
            to - 1,
        ));
        to -= 1;
    }
    text.substring_char(from, to)
}

/// Where `separator` first occurs in `text`, or the length of `text`.
pub open spec fn first_index(text: Seq<char>, separator: char) -> int
    decreases text.len(),
{
    if text.len() == 0 || text.first() == separator {
        0
    } else {
        1 + first_index(text.drop_first(), separator)
    }
}

/// The parts of `text` between occurrences of `separator`, at most `limit` of
/// them: the last one keeps whatever is left, separators and all.
pub open spec fn parts_at_most(text: Seq<char>, limit: nat, separator: char) -> Seq<Seq<char>>
    decreases limit,
{
    if limit == 0 {
        Seq::empty()
    } else if limit == 1 || !text.contains(separator) {
        seq![text]
    } else {
        let at = first_index(text, separator);
        seq![text.take(at)] + parts_at_most(text.skip(at + 1), (limit - 1) as nat, separator)
    }
}

proof fn lemma_first_index(text: Seq<char>, separator: char, at: int)
    requires
        0 <= at <= text.len(),
        forall|j: int| 0 <= j < at ==> text[j] != separator,
        at == text.len() || text[at] == separator,
    ensures
        first_index(text, separator) == at,
    decreases text.len(),
{
    if at > 0 {
        lemma_first_index(text.drop_first(), separator, at - 1);
    }
}

/// Splits `text` at `separator` into at most `limit` parts.
pub fn split_at_most(text: &str, limit: usize, separator: char) -> (res: Vec<String>)
    ensures
        res.deep_view() == parts_at_most(text@, limit as nat, separator),
{
    let mut parts: Vec<String> = Vec::new();
    let n: usize = text.unicode_len();
    if limit == 0 {
        assert(parts.deep_view() =~= parts_at_most(text@, 0, separator));
        return parts;
    }
    let mut left: usize = limit;
    let mut from: usize = 0;
    let mut to: usize = 0;
    assert(text@.skip(0) =~= text@);
    assert(Seq::<Seq<char>>::empty() + parts_at_most(text@, limit as nat, separator)
        =~= parts_at_most(text@, limit as nat, separator));
    assert(parts.deep_view() =~= Seq::<Seq<char>>::empty());
    while left > 1 && to < n
        invariant
            n == text@.len(),
            from <= to <= n,
            1 <= left <= limit,
            forall|j: int| from <= j < to ==> text@[j] != separator,
            parts.deep_view() + parts_at_most(text@.skip(from as int), left as nat, separator)
                == parts_at_most(text@, limit as nat, separator),
        decreases n - to,
    {
        if text.get_char(to) == separator {
            let ghost rest = text@.skip(from as int);
            let ghost before = parts.deep_view();
            proof {
                lemma_first_index(rest, separator, to - from);
                assert(rest[to - from] == separator);
                assert(rest.take(to - from) =~= text@.subrange(from as int, to as int));
                assert(rest.skip(to - from + 1) =~= text@.skip(to + 1));
            }
            let part: String = text.substring_char(from, to).to_owned();
            parts.push(part);
            assert(parts.deep_view() =~= before.push(part@));
            to += 1;
            from = to;
            left -= 1;
            assert(parts.deep_view() + parts_at_most(text@.skip(from as int), left as nat, separator)
                =~= before + parts_at_most(rest, (left + 1) as nat, separator));
        } else {
            to += 1;
        }
    }
    let ghost rest = text@.skip(from as int);
    let ghost before = parts.deep_view();
    assert(rest =~= text@.subrange(from as int, n as int));
    if left > 1 {
        assert(!rest.contains(separator)) by {
            if rest.contains(separator) {
                let k = choose|k: int| 0 <= k < rest.len() && rest[k] == separator;
                assert(text@[from + k] != separator);
            }
        }
    }
    let part: String = text.substring_char(from, n).to_owned();
    parts.push(part);
    assert(parts.deep_view() =~= before + seq![part@]);
    parts
}

} // verus!
