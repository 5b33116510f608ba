//! Laws of texts: how they are cut, trimmed and read as numbers.

use vstd::prelude::*;

use crate::text::all_digits;
use crate::text::digits_value;
use crate::text::is_split;
use crate::text::is_trimmed;
use crate::text::is_white_space;
use crate::text::joined;
use crate::text::lemma_split_is_unique;
use crate::text::lemma_trimmed_is_unique;
use crate::text::parse_number;
use crate::text::split;
use crate::text::texts;
use crate::text::trim;
use crate::text::trims_at;
use crate::text::white_space;

verus! {

proof fn lemma_joined_concat(x: Seq<Seq<char>>, y: Seq<Seq<char>>, separator: char)
    requires
        x.len() > 0,
        y.len() > 0,
    ensures
        joined(x + y, separator) == joined(x, separator) + seq![separator] + joined(y, separator),
    decreases y.len(),
{
    assert((x + y).drop_last() =~= x + y.drop_last());
    assert((x + y).last() == y.last());
    if y.len() == 1 {
        assert(x + y.drop_last() =~= x);
        assert(joined(y, separator) == y.last());
    } else {
        lemma_joined_concat(x, y.drop_last(), separator);
        assert(joined(x + y, separator) =~= joined(x, separator) + seq![separator] + joined(
            y,
            separator,
        ));
    }
}

/// The cuts of two texts, one behind the other, are the cut of both with a
/// separator between them.
pub proof fn lemma_cuts_add_up(
    a: Seq<char>,
    b: Seq<char>,
    separator: char,
    x: Seq<Seq<char>>,
    y: Seq<Seq<char>>,
)
    requires
        is_split(a, separator, x),
        is_split(b, separator, y),
    ensures
        is_split(a + seq![separator] + b, separator, x + y),
{
    lemma_joined_concat(x, y, separator);
    assert forall|i: int| 0 <= i < (x + y).len() implies !(#[trigger] (x + y)[i]).contains(
        separator,
    ) by {
        if i < x.len() {
            assert((x + y)[i] == x[i]);
        } else {
            assert((x + y)[i] == y[i - x.len()]);
        }
    }
}

/// Every text can be cut.
pub proof fn lemma_a_text_can_be_cut(text: Seq<char>, separator: char) -> (chunks: Seq<Seq<char>>)
    ensures
        is_split(text, separator, chunks),
    decreases text.len(),
{
    if !text.contains(separator) {
        let whole = seq![text];
        assert(joined(whole, separator) == text);
        whole
    } else {
        let shorter = text.drop_last();
        let c = text.last();
        assert(text =~= shorter.push(c));
        let cut = lemma_a_text_can_be_cut(shorter, separator);
        if c == separator {
            let end = seq![Seq::<char>::empty()];
            assert(is_split(Seq::<char>::empty(), separator, end)) by {
                assert(joined(end, separator) == Seq::<char>::empty());
            }
            lemma_cuts_add_up(shorter, Seq::empty(), separator, cut, end);
            assert(shorter + seq![separator] + Seq::<char>::empty() =~= text);
            cut + end
        } else {
            let last = cut.last().push(c);
            let longer = cut.drop_last().push(last);
            assert(longer.drop_last() =~= cut.drop_last());
            assert(longer.last() == last);
            assert(joined(longer, separator) =~= text) by {
                if cut.len() == 1 {
                    assert(longer.len() == 1);
                    assert(longer[0] == last);
                } else {
                    assert(joined(cut, separator) == joined(cut.drop_last(), separator)
                        + seq![separator] + cut.last());
                }
            }
            assert forall|i: int| 0 <= i < longer.len() implies !(#[trigger] longer[i]).contains(
                separator,
            ) by {
                assert(!cut[i].contains(separator));
                if i == longer.len() - 1 {
                    assert(cut.last() == cut[i]);
                    if last.contains(separator) {
                        let k = choose|k: int| 0 <= k < last.len() && last[k] == separator;
                        assert(k < cut.last().len());
                        assert(cut.last()[k] == separator);
                        assert(cut.last().contains(separator));
                    }
                } else {
                    assert(longer[i] == cut[i]);
                }
            }
            longer
        }
    }
}

/// A text without a separator is one chunk, and a text of two parts with a
/// separator between them is cut into the chunks of the first and then those of
/// the second.
pub proof fn lemma_a_text_is_cut_at_its_separators(
    text: &str,
    separator: char,
    chunks: Vec<String>,
    a: &str,
    left: Vec<String>,
    b: &str,
    right: Vec<String>,
)
    requires
        call_ensures(split, (text, separator), chunks),
        call_ensures(split, (a, separator), left),
        call_ensures(split, (b, separator), right),
    ensures
        !text@.contains(separator) ==> chunks@.len() == 1 && chunks@[0]@ == text@,
        text@ == a@ + seq![separator] + b@ ==> {
            &&& chunks@.len() == left@.len() + right@.len()
            &&& forall|i: int| 0 <= i < left@.len() ==> #[trigger] chunks@[i]@ == left@[i]@
            &&& forall|i: int|
                0 <= i < right@.len() ==> chunks@[left@.len() + i]@ == #[trigger] right@[i]@
        },
        forall|i: int| 0 <= i < chunks@.len() ==> !(#[trigger] chunks@[i]@).contains(separator),
{
    let cut = texts(chunks@);
    assert forall|i: int| 0 <= i < chunks@.len() implies !(#[trigger] chunks@[i]@).contains(
        separator,
    ) by {
        assert(!cut[i].contains(separator));
    }
    if !text@.contains(separator) {
        let whole = seq![text@];
        assert(joined(whole, separator) == text@);
        lemma_split_is_unique(text@, separator, cut, whole);
        assert(cut[0] == chunks@[0]@);
    }
    if text@ == a@ + seq![separator] + b@ {
        let (x, y) = (texts(left@), texts(right@));
        lemma_cuts_add_up(a@, b@, separator, x, y);
        lemma_split_is_unique(text@, separator, cut, x + y);
        assert forall|i: int| 0 <= i < left@.len() implies #[trigger] chunks@[i]@
            == left@[i]@ by {
            assert(cut[i] == x[i]);
        }
        assert forall|i: int| 0 <= i < right@.len() implies chunks@[left@.len() + i]@
            == #[trigger] right@[i]@ by {
            assert(cut[left@.len() + i] == y[i]);
        }
    }
}

/// The characters of a list of texts are those of each of them.
pub proof fn lemma_the_texts_of_a_list(list: Seq<String>)
    ensures
        texts(list).len() == list.len(),
        forall|i: int| 0 <= i < list.len() ==> #[trigger] texts(list)[i] == list[i]@,
{
}

/// The characters that are white space, by their numbers.
pub proof fn lemma_white_space_by_number(c: char, r: bool)
    requires
        call_ensures(white_space, (c,), r),
    ensures
        r == {
            let n = c as u32;
            ||| n == 9 || n == 10 || n == 11 || n == 12 || n == 13 || n == 32
            ||| n == 0x85 || n == 0xa0 || n == 0x1680
            ||| 0x2000 <= n <= 0x200a
            ||| n == 0x2028 || n == 0x2029 || n == 0x202f || n == 0x205f || n == 0x3000
        },
{
}

/// White space at either end of a text makes no difference to what trimming leaves,
/// and a text that has none at its ends is left as it is. What is left has none at
/// its ends.
pub proof fn lemma_trimming_takes_white_space_off_the_ends(
    text: &str,
    out: String,
    before: &str,
    before_out: String,
    behind: &str,
    behind_out: String,
    c: char,
    space: bool,
    first: bool,
    last: bool,
)
    requires
        call_ensures(trim, (text,), out),
        call_ensures(trim, (before,), before_out),
        call_ensures(trim, (behind,), behind_out),
        call_ensures(white_space, (c,), space),
        before@ == seq![c] + text@,
        behind@ == text@.push(c),
        text@.len() > 0 ==> call_ensures(white_space, (text@[0],), first),
        text@.len() > 0 ==> call_ensures(white_space, (text@.last(),), last),
    ensures
        space ==> before_out@ == out@,
        space ==> behind_out@ == out@,
        text@.len() > 0 && !first && !last ==> out@ == text@,
        text@.len() == 0 ==> out@.len() == 0,
{
    let (s, e) = choose|s: int, e: int|
        0 <= s <= e <= text@.len() && out@ == #[trigger] text@.subrange(s, e) && trims_at(
            text@,
            s,
            e,
        );
    if space {
        let t = before@;
        assert(t.subrange(s + 1, e + 1) =~= out@);
        assert(trims_at(t, s + 1, e + 1)) by {
            assert forall|i: int| 0 <= i < s + 1 implies is_white_space(#[trigger] t[i]) by {
                if i > 0 {
                    assert(t[i] == text@[i - 1]);
                }
            }
            assert forall|i: int| e + 1 <= i < t.len() implies is_white_space(#[trigger] t[i]) by {
                assert(t[i] == text@[i - 1]);
            }
        }
        assert(is_trimmed(t, out@));
        lemma_trimmed_is_unique(t, out@, before_out@);
        let u = behind@;
        assert(u.subrange(s, e) =~= out@);
        assert(trims_at(u, s, e)) by {
            assert forall|i: int| 0 <= i < s implies is_white_space(#[trigger] u[i]) by {
                assert(u[i] == text@[i]);
            }
            assert forall|i: int| e <= i < u.len() implies is_white_space(#[trigger] u[i]) by {
                if i < text@.len() {
                    assert(u[i] == text@[i]);
                }
            }
        }
        assert(is_trimmed(u, out@));
        lemma_trimmed_is_unique(u, out@, behind_out@);
    }
    if text@.len() > 0 && !first && !last {
        let n = text@.len() as int;
        assert(text@.subrange(0, n) =~= text@);
        assert(trims_at(text@, 0, n));
        assert(is_trimmed(text@, text@));
        lemma_trimmed_is_unique(text@, text@, out@);
    }
}

proof fn lemma_all_digits_push(text: Seq<char>, c: char)
    ensures
        all_digits(text.push(c)) == (all_digits(text) && '0' <= c <= '9'),
{
    let longer = text.push(c);
    if all_digits(longer) {
        assert forall|i: int| 0 <= i < text.len() implies '0' <= #[trigger] text[i] <= '9' by {
            assert(longer[i] == text[i]);
        }
        assert(longer[text.len() as int] == c);
    }
}

proof fn lemma_digits_are_no_less_than_zero(text: Seq<char>)
    requires
        all_digits(text),
    ensures
        digits_value(text) >= 0,
    decreases text.len(),
{
    if text.len() > 0 {
        let shorter = text.drop_last();
        assert(text =~= shorter.push(text.last()));
        lemma_all_digits_push(shorter, text.last());
        lemma_digits_are_no_less_than_zero(shorter);
    }
}

/// A digit is a number by itself, and behind a number it makes the number ten times
/// as much and itself more, where that still fits. Behind anything else nothing is a
/// number. A plus sign in front makes no difference, and by itself is no number.
pub proof fn lemma_a_number_is_read_digit_by_digit(
    text: &str,
    value: Option<u64>,
    c: char,
    longer: &str,
    more: Option<u64>,
    signed: &str,
    same: Option<u64>,
)
    requires
        call_ensures(parse_number, (text,), value),
        call_ensures(parse_number, (longer,), more),
        call_ensures(parse_number, (signed,), same),
        longer@ == text@.push(c),
        signed@ == seq!['+'] + text@,
    ensures
        text@.len() == 0 ==> value is None,
        text@.len() == 0 && '0' <= c <= '9' ==> more == Some((c as u64 - '0' as u64) as u64),
        text@.len() == 0 && !('0' <= c <= '9') ==> more is None,
        text@.len() > 0 && !('0' <= c <= '9') ==> more is None,
        text@.len() > 0 && text@ != seq!['+'] && '0' <= c <= '9' ==> {
            &&& more is Some <==> value is Some && value->0 * 10 + (c as u64 - '0' as u64)
                <= 0xffff_ffff_ffff_ffff
            &&& more is Some ==> more->0 == value->0 * 10 + (c as u64 - '0' as u64)
        },
        text@.len() > 0 && text@[0] != '+' ==> same == value,
        text@.len() == 0 ==> same is None,
{
    let digits = if text@.len() > 0 && text@[0] == '+' {
        text@.skip(1)
    } else {
        text@
    };
    if text@.len() > 0 {
        let longer_digits = if longer@[0] == '+' {
            longer@.skip(1)
        } else {
            longer@
        };
        assert(longer@[0] == text@[0]);
        assert(longer_digits =~= digits.push(c));
        lemma_all_digits_push(digits, c);
        assert(digits.push(c).drop_last() =~= digits);
        if all_digits(digits) {
            lemma_digits_are_no_less_than_zero(digits);
        }
        if text@ != seq!['+'] {
            if digits.len() == 0 {
                assert(text@ =~= seq!['+']);
            }
        }
    } else {
        assert(longer@ =~= seq![c]);
        reveal_with_fuel(digits_value, 2);
        if longer@[0] == '+' {
            assert(longer@.skip(1).len() == 0);
        } else {
            assert(longer@.drop_last().len() == 0);
            lemma_all_digits_push(text@, c);
        }
    }
    assert(signed@.skip(1) =~= text@);
    assert(signed@[0] == '+');
}

} // verus!
