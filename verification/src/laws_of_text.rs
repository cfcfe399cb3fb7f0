//! What the operations on text do, stated character by character.

use crate::annotated::{Ann, RemarkType};
use crate::outside::word_char;
use crate::processor::{capped, CapSize};
use crate::text::{begins_with, first_index, parts_at_most, trimmed, white_space};
use vstd::prelude::*;

verus! {

/// A text begins with another one if and only if it is at least as long and agrees
/// with it at each of its places.
pub proof fn law_beginning_agrees_in_every_place(text: Seq<char>, prefix: Seq<char>)
    ensures
        begins_with(text, prefix) <==> (prefix.len() <= text.len() && forall|i: int|
            0 <= i < prefix.len() ==> text[i] == prefix[i]),
{
    if begins_with(text, prefix) {
        assert forall|i: int| 0 <= i < prefix.len() implies text[i] == prefix[i] by {
            assert(text.take(prefix.len() as int)[i] == text[i]);
        }
    }
    if prefix.len() <= text.len() && forall|i: int| 0 <= i < prefix.len() ==> text[i] == prefix[i] {
        assert(text.take(prefix.len() as int) =~= prefix);
    }
}

/// White space, by the numbers that Unicode gives to its characters.
pub proof fn law_white_space_by_code_point(c: char)
    ensures
        white_space(c) <==> ({
            let n = c as u32;
            9 <= n <= 13 || n == 32 || n == 133 || n == 160 || n == 5760 || 8192 <= n <= 8202 || n
                == 8232 || n == 8233 || n == 8239 || n == 8287 || n == 12288
        }),
{
}

/// In ASCII, the characters of a word are the letters, the digits and the underscore.
pub proof fn law_word_in_ascii(c: char, beyond_ascii: spec_fn(char) -> bool)
    ensures
        ({
            let n = c as u32;
            word_char(c, beyond_ascii) <==> (48 <= n <= 57 || 65 <= n <= 90 || n == 95 || 97 <= n
                <= 122 || n >= 128 && beyond_ascii(c))
        }),
{
}

/// Trimming takes off all of the white space at the two ends and nothing else. The
/// result tells from where to where the text is kept.
pub proof fn law_trim_takes_white_space_off_the_ends(text: Seq<char>) -> (kept: (int, int))
    ensures
        0 <= kept.0 <= kept.1 <= text.len(),
        trimmed(text) == text.subrange(kept.0, kept.1),
        forall|i: int| 0 <= i < kept.0 ==> white_space(#[trigger] text[i]),
        forall|i: int| kept.1 <= i < text.len() ==> white_space(#[trigger] text[i]),
        kept.0 < kept.1 ==> !white_space(text[kept.0]) && !white_space(text[kept.1 - 1]),
    decreases text.len(),
{
    if text.len() > 0 && white_space(text.first()) {
        let rest = text.drop_first();
        let inner = law_trim_takes_white_space_off_the_ends(rest);
        assert(rest.subrange(inner.0, inner.1) =~= text.subrange(inner.0 + 1, inner.1 + 1));
        assert forall|i: int| 0 <= i < inner.0 + 1 implies white_space(#[trigger] text[i]) by {
            if i > 0 {
                assert(white_space(rest[i - 1]));
            }
        }
        assert forall|i: int| inner.1 + 1 <= i < text.len() implies white_space(
            #[trigger] text[i],
        ) by {
            assert(white_space(rest[i - 1]));
        }
        (inner.0 + 1, inner.1 + 1)
    } else if text.len() > 0 && white_space(text.last()) {
        let rest = text.drop_last();
        let inner = law_trim_takes_white_space_off_the_ends(rest);
        assert(rest.subrange(inner.0, inner.1) =~= text.subrange(inner.0, inner.1));
        assert forall|i: int| 0 <= i < inner.0 implies white_space(#[trigger] text[i]) by {
            assert(white_space(rest[i]));
        }
        assert forall|i: int| inner.1 <= i < text.len() implies white_space(#[trigger] text[i]) by {
            if i < text.len() - 1 {
                assert(white_space(rest[i]));
            }
        }
        inner
    } else {
        assert(text.subrange(0, text.len() as int) =~= text);
        (0, text.len() as int)
    }
}

/// The first index of a character is where it stands with none before it, or the end.
pub proof fn law_first_index_has_none_before(text: Seq<char>, separator: char, at: int)
    ensures
        first_index(text, separator) == at <==> (0 <= at <= text.len() && (at == text.len()
            || text[at] == separator) && forall|i: int| 0 <= i < at ==> text[i] != separator),
    decreases text.len(),
{
    if text.len() > 0 && text.first() != separator {
        let rest = text.drop_first();
        law_first_index_has_none_before(rest, separator, at - 1);
        if first_index(text, separator) == at {
            assert forall|i: int| 0 <= i < at implies text[i] != separator by {
                if i > 0 {
                    assert(rest[i - 1] != separator);
                }
            }
        }
        if 0 <= at <= text.len() && (at == text.len() || text[at] == separator) && forall|i: int|
            0 <= i < at ==> text[i] != separator {
            assert(at > 0);
            assert forall|i: int| 0 <= i < at - 1 implies rest[i] != separator by {
                assert(text[i + 1] != separator);
            }
        }
    } else if text.len() > 0 {
        assert(text[0] == separator);
    }
}

/// Texts put together again with a separator between them.
pub open spec fn joined(parts: Seq<Seq<char>>, separator: char) -> Seq<char>
    decreases parts.len(),
{
    if parts.len() == 0 {
        Seq::empty()
    } else if parts.len() == 1 {
        parts[0]
    } else {
        parts[0] + seq![separator] + joined(parts.drop_first(), separator)
    }
}

/// Splitting loses nothing: the parts, put together again, are the text. There are at
/// most as many as allowed, and a separator is left in the last one only where no
/// more parts were allowed.
pub proof fn law_parts_make_up_the_text(text: Seq<char>, limit: nat, separator: char)
    ensures
        ({
            let parts = parts_at_most(text, limit, separator);
            &&& parts.len() <= limit
            &&& limit > 0 ==> parts.len() > 0 && joined(parts, separator) == text
            &&& forall|k: int, i: int|
                0 <= k < parts.len() - 1 && 0 <= i < parts[k].len() ==> #[trigger] parts[k][i]
                    != separator
            &&& 0 < parts.len() < limit ==> forall|i: int|
                0 <= i < parts.last().len() ==> #[trigger] parts.last()[i] != separator
        }),
    decreases limit,
{
    let parts = parts_at_most(text, limit, separator);
    if limit <= 1 || !text.contains(separator) {
        if limit > 1 {
            assert forall|i: int| 0 <= i < text.len() implies text[i] != separator by {
                if text[i] == separator {
                    assert(text.contains(separator));
                }
            }
        }
    } else {
        let at = first_index(text, separator);
        law_first_index_has_none_before(text, separator, at);
        assert(at < text.len());
        let head = text.take(at);
        let rest = parts_at_most(text.skip(at + 1), (limit - 1) as nat, separator);
        law_parts_make_up_the_text(text.skip(at + 1), (limit - 1) as nat, separator);
        assert(parts == seq![head] + rest);
        assert(parts.drop_first() =~= rest);
        assert(parts.last() == rest.last());
        assert(text =~= head + seq![separator] + text.skip(at + 1));
        assert forall|k: int, i: int|
            0 <= k < parts.len() - 1 && 0 <= i < parts[k].len() implies #[trigger] parts[k][i]
            != separator by {
            if k > 0 {
                assert(parts[k] == rest[k - 1]);
                assert(rest[k - 1][i] != separator);
            }
        }
    }
}

/// The length to which each kind of text is cut, and by how much it may be exceeded.
pub proof fn law_limits(cap: CapSize)
    ensures
        (cap.limit() as int, cap.grace() as int) == (match cap {
            CapSize::EnumLike => (128int, 0int),
            CapSize::Summary => (1024int, 100int),
            CapSize::Message => (8196int, 200int),
            CapSize::Symbol => (256int, 20int),
            CapSize::Path => (256int, 40int),
            CapSize::ShortPath => (128int, 20int),
        }),
{
}

/// A text is cut if and only if it exceeds limit and grace. Then it has the length of
/// the limit, ends in three dots, agrees with what it was up to there, and its
/// metadata gains one remark on the dots and the length that it had.
pub proof fn law_long_texts_are_cut(text: Ann<Seq<char>>, cap: CapSize)
    ensures
        ({
            let after = capped(text, cap);
            match text.value {
                Some(chars) if chars.len() > cap.limit() + cap.grace() => {
                    &&& after.value is Some
                    &&& after.value->0.len() == cap.limit()
                    &&& forall|i: int|
                        0 <= i < cap.limit() ==> #[trigger] after.value->0[i] == (if i < cap.limit()
                            - 3 {
                            chars[i]
                        } else {
                            '.'
                        })
                    &&& after.meta.errors == text.meta.errors
                    &&& after.meta.original_value == text.meta.original_value
                    &&& after.meta.original_length == (match text.meta.original_length {
                        Some(length) => Some(length),
                        None => Some(chars.len() as usize),
                    })
                    &&& after.meta.remarks.len() == text.meta.remarks.len() + 1
                    &&& after.meta.remarks.drop_last() == text.meta.remarks
                    &&& after.meta.remarks.last().ty == RemarkType::Substituted
                    &&& after.meta.remarks.last().rule_id == "!limit"@
                    &&& after.meta.remarks.last().range.0 == cap.limit() - 3
                    &&& after.meta.remarks.last().range.1 == cap.limit()
                },
                _ => after == text,
            }
        }),
{
    reveal_strlit("...");
    assert(capped(text, cap).meta.remarks.drop_last() =~= text.meta.remarks || capped(text, cap)
        == text);
}

} // verus!
