//! What texts are made of.

use vstd::prelude::*;

use crate::text;

verus! {

/// The number that decimal digits stand for.
pub open spec fn number(digits: Seq<char>) -> int
    decreases digits.len(),
{
    if digits.len() == 0 {
        0
    } else {
        10 * number(digits.drop_last()) + (digits.last() as int - '0' as int)
    }
}

/// The decimal form of a number is made of digits, begins with a zero only if
/// it is one digit, and stands for that number.
pub proof fn decimal_stands_for_the_number(n: nat)
    ensures
        number(text::decimal(n)) == n,
        text::decimal(n).len() > 0,
        forall|i: int|
            0 <= i < text::decimal(n).len() ==> '0' <= #[trigger] text::decimal(n)[i] <= '9',
        text::decimal(n).len() > 1 ==> text::decimal(n)[0] != '0',
    decreases n,
{
    if n >= 10 {
        decimal_stands_for_the_number(n / 10);
        let digits = text::decimal(n);
        assert(digits.drop_last() =~= text::decimal(n / 10));
        assert(digits[0] == text::decimal(n / 10)[0]);
        if text::decimal(n / 10).len() == 1 {
            assert(number(text::decimal(n / 10)) == text::decimal(n / 10)[0] as int - '0' as int)
                by {
                reveal_with_fuel(number, 2);
                assert(text::decimal(n / 10).drop_last() =~= Seq::empty());
            }
        }
    } else {
        reveal_with_fuel(number, 2);
        assert(text::decimal(n).drop_last() =~= Seq::empty());
    }
}

/// The value of a lower-case hexadecimal digit.
pub open spec fn hex_value(c: char) -> int {
    if '0' <= c <= '9' {
        c as int - '0' as int
    } else {
        c as int - 'a' as int + 10
    }
}

/// The hexadecimal form of bytes has two lower-case digits for each, which give
/// it back.
pub proof fn hex_gives_the_bytes_back(bytes: Seq<u8>)
    ensures
        text::hex(bytes).len() == 2 * bytes.len(),
        forall|i: int|
            #![trigger bytes[i]]
            0 <= i < bytes.len() ==> 16 * hex_value(text::hex(bytes)[2 * i]) + hex_value(
                text::hex(bytes)[2 * i + 1],
            ) == bytes[i],
        forall|i: int|
            #![trigger text::hex(bytes)[i]]
            0 <= i < text::hex(bytes).len() ==> '0' <= text::hex(bytes)[i] <= '9' || 'a'
                <= text::hex(bytes)[i] <= 'f',
{
}

/// A text occurs in another exactly if that is the text with something, or
/// nothing, before and behind it.
pub proof fn occurring_is_being_a_part(part: Seq<char>, whole: Seq<char>)
    ensures
        text::occurs_in(part, whole) <==> exists|before: Seq<char>, behind: Seq<char>|
            whole == #[trigger] (before + part + behind),
{
    if text::occurs_in(part, whole) {
        let i = choose|i: int|
            0 <= i <= whole.len() - part.len() && #[trigger] whole.subrange(i, i + part.len())
                == part;
        assert(whole =~= whole.take(i) + whole.subrange(i, i + part.len()) + whole.skip(
            i + part.len(),
        ));
        assert(whole == whole.take(i) + part + whole.skip(i + part.len()));
    }
    if exists|before: Seq<char>, behind: Seq<char>|
        whole == #[trigger] (before + part + behind) {
        let (before, behind) = choose|before: Seq<char>, behind: Seq<char>|
            whole == #[trigger] (before + part + behind);
        let i = before.len() as int;
        assert(whole.subrange(i, i + part.len()) =~= part);
    }
}

/// A text without the white space around it is a part of the text that neither
/// begins nor ends in white space, and everything cut off is white space.
pub proof fn trimming_cuts_only_white_space(s: Seq<char>)
    ensures
        ({
            let trimmed = text::trimmed_end(text::trimmed_start(s));
            &&& trimmed.len() > 0 ==> !text::is_whitespace(trimmed[0]) && !text::is_whitespace(
                trimmed.last(),
            )
            &&& exists|from: int|
                {
                    &&& 0 <= from <= from + trimmed.len() <= s.len()
                    &&& #[trigger] s.subrange(from, from + trimmed.len()) == trimmed
                    &&& forall|i: int|
                        0 <= i < s.len() && !(from <= i < from + trimmed.len())
                            ==> text::is_whitespace(#[trigger] s[i])
                }
        }),
{
    let start = text::trimmed_start(s);
    let trimmed = text::trimmed_end(start);
    start_is_cut(s);
    end_is_cut(start);
    let from = s.len() - start.len();
    assert(s.subrange(from, from + trimmed.len()) =~= trimmed);
    assert forall|i: int|
        0 <= i < s.len() && !(from <= i < from + trimmed.len()) implies text::is_whitespace(
        #[trigger] s[i],
    ) by {
        if i >= from {
            assert(start[i - from] == s[i]);
        }
    }
}

proof fn start_is_cut(s: Seq<char>)
    ensures
        ({
            let start = text::trimmed_start(s);
            &&& start.len() <= s.len()
            &&& start == s.skip(s.len() - start.len())
            &&& start.len() > 0 ==> !text::is_whitespace(start[0])
            &&& forall|i: int|
                0 <= i < s.len() - start.len() ==> text::is_whitespace(#[trigger] s[i])
        }),
    decreases s.len(),
{
    let start = text::trimmed_start(s);
    if s.len() > 0 && text::is_whitespace(s[0]) {
        let rest = s.drop_first();
        start_is_cut(rest);
        assert(start =~= s.skip(s.len() - start.len()));
        assert forall|i: int| 0 <= i < s.len() - start.len() implies text::is_whitespace(
            #[trigger] s[i],
        ) by {
            if i > 0 {
                assert(rest[i - 1] == s[i]);
            }
        }
    } else {
        assert(start =~= s.skip(0));
    }
}

proof fn end_is_cut(s: Seq<char>)
    ensures
        ({
            let end = text::trimmed_end(s);
            &&& end.len() <= s.len()
            &&& end == s.take(end.len() as int)
            &&& end.len() > 0 ==> !text::is_whitespace(end.last())
            &&& forall|i: int| end.len() <= i < s.len() ==> text::is_whitespace(#[trigger] s[i])
        }),
    decreases s.len(),
{
    let end = text::trimmed_end(s);
    if s.len() > 0 && text::is_whitespace(s.last()) {
        let rest = s.drop_last();
        end_is_cut(rest);
        assert(end =~= s.take(end.len() as int));
        assert forall|i: int| end.len() <= i < s.len() implies text::is_whitespace(
            #[trigger] s[i],
        ) by {
            if i < rest.len() {
                assert(rest[i] == s[i]);
            }
        }
    } else {
        assert(end =~= s.take(s.len() as int));
    }
}

/// A text that fits is not cut. One that does not keeps its first characters
/// and gets an ellipsis as the last of `max`.
pub proof fn cutting_keeps_the_beginning(s: Seq<char>, max: nat)
    ensures
        s.len() <= max ==> text::cut(s, max) == s,
        s.len() > max ==> text::cut(s, max).len() == max,
        s.len() > max > 0 ==> text::cut(s, max)[max - 1] == '…',
        forall|i: int|
            0 <= i < max - 1 && i < s.len() ==> #[trigger] text::cut(s, max)[i] == s[i],
{
}

/// Padding keeps the text and adds spaces behind it, up to the width and no
/// further.
pub proof fn padding_adds_only_spaces(s: Seq<char>, width: nat)
    ensures
        text::padded(s, width).len() == (if s.len() < width {
            width
        } else {
            s.len()
        }),
        text::padded(s, width).take(s.len() as int) == s,
        forall|i: int|
            s.len() <= i < text::padded(s, width).len() ==> #[trigger] text::padded(s, width)[i]
                == ' ',
    decreases width - s.len(),
{
    if s.len() < width {
        let longer = s.push(' ');
        padding_adds_only_spaces(longer, width);
        let all = text::padded(s, width);
        assert(all.take(longer.len() as int) =~= longer);
        assert forall|i: int| 0 <= i < s.len() implies all[i] == s[i] by {
            assert(all.take(longer.len() as int)[i] == longer[i]);
        }
        assert(all.take(s.len() as int) =~= s);
        assert forall|i: int| s.len() <= i < all.len() implies #[trigger] all[i] == ' ' by {
            if i == s.len() {
                assert(all.take(longer.len() as int)[i] == longer[i]);
            }
        }
    } else {
        assert(text::padded(s, width).take(s.len() as int) =~= s);
    }
}

} // verus!
