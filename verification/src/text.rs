//! Text: bytes read as characters, and texts cut into chunks.

use vstd::prelude::*;
use vstd::string::*;
use vstd::utf8::decode_utf8;
use vstd::utf8::valid_utf8;

verus! {

/// Reads bytes as text through `core::str::from_utf8`. Trusted: the call succeeds
/// on exactly the valid UTF-8 sequences, and the text it returns is what they
/// decode to.
#[verifier::external_body]
pub(crate) fn utf8_text(bytes: &[u8]) -> (text: Option<&str>)
    ensures
        text is Some <==> valid_utf8(bytes@),
        text matches Some(text) ==> text@ == decode_utf8(bytes@),
{
    core::str::from_utf8(bytes).ok()
}

/// The chunks with a separator between each two.
pub open spec fn joined(chunks: Seq<Seq<char>>, separator: char) -> Seq<char>
    decreases chunks.len(),
{
    if chunks.len() == 0 {
        Seq::empty()
    } else if chunks.len() == 1 {
        chunks[0]
    } else {
        joined(chunks.drop_last(), separator) + seq![separator] + chunks.last()
    }
}

/// Whether `chunks` is `text` cut at every separator: joined they are the text,
/// and none of them holds a separator.
pub open spec fn is_split(text: Seq<char>, separator: char, chunks: Seq<Seq<char>>) -> bool {
    &&& chunks.len() > 0
    &&& joined(chunks, separator) == text
    &&& forall|i: int| 0 <= i < chunks.len() ==> !(#[trigger] chunks[i]).contains(separator)
}

/// The characters of each of a list of texts.
pub open spec fn texts(list: Seq<String>) -> Seq<Seq<char>> {
    Seq::new(list.len(), |i: int| list[i]@)
}

proof fn lemma_joined_push(chunks: Seq<Seq<char>>, separator: char, more: Seq<char>)
    requires
        chunks.len() > 0,
    ensures
        joined(chunks.push(more), separator) == joined(chunks, separator) + seq![separator] + more,
{
    assert(chunks.push(more).drop_last() =~= chunks);
}

/// A text cut at a separator is cut in one way only.
pub proof fn lemma_split_is_unique(
    text: Seq<char>,
    separator: char,
    a: Seq<Seq<char>>,
    b: Seq<Seq<char>>,
)
    requires
        is_split(text, separator, a),
        is_split(text, separator, b),
    ensures
        a == b,
    decreases a.len() + b.len(),
{
    let (x, y) = (a.last(), b.last());
    assert(a[a.len() - 1] == x && b[b.len() - 1] == y);
    lemma_last_chunk(a, separator);
    lemma_last_chunk(b, separator);
    let n = text.len() as int;
    if a.len() > 1 {
        assert(text[n - x.len() - 1] == separator);
    }
    if b.len() > 1 {
        assert(text[n - y.len() - 1] == separator);
    }
    if x.len() > y.len() {
        if b.len() > 1 {
            let at = x.len() - y.len() - 1;
            assert(x[at] == text[n - x.len() + at]);
            assert(x[at] == separator);
            assert(x.contains(separator));
        }
    }
    if y.len() > x.len() {
        if a.len() > 1 {
            let at = y.len() - x.len() - 1;
            assert(y[at] == text[n - y.len() + at]);
            assert(y[at] == separator);
            assert(y.contains(separator));
        }
    }
    assert(x =~= y) by {
        assert(x.len() == y.len());
        assert forall|i: int| 0 <= i < x.len() implies x[i] == y[i] by {
            assert(x[i] == text[n - x.len() + i]);
            assert(y[i] == text[n - y.len() + i]);
        }
    }
    if a.len() == 1 {
        assert(b.len() == 1);
        assert(a =~= b);
    } else {
        assert(b.len() > 1);
        let (p, q) = (a.drop_last(), b.drop_last());
        assert(joined(p, separator) =~= text.take(n - x.len() - 1));
        assert(joined(q, separator) =~= text.take(n - y.len() - 1));
        assert forall|i: int| 0 <= i < p.len() implies !(#[trigger] p[i]).contains(separator) by {
            assert(p[i] == a[i]);
        }
        assert forall|i: int| 0 <= i < q.len() implies !(#[trigger] q[i]).contains(separator) by {
            assert(q[i] == b[i]);
        }
        lemma_split_is_unique(text.take(n - x.len() - 1), separator, p, q);
        assert(a =~= p.push(x));
        assert(b =~= q.push(y));
    }
}

proof fn lemma_last_chunk(chunks: Seq<Seq<char>>, separator: char)
    requires
        chunks.len() > 0,
    ensures
        ({
            let text = joined(chunks, separator);
            let last = chunks.last();
            &&& last.len() <= text.len()
            &&& forall|i: int|
                0 <= i < last.len() ==> #[trigger] last[i] == text[text.len() - last.len() + i]
            &&& chunks.len() == 1 ==> text == last
            &&& chunks.len() > 1 ==> {
                &&& last.len() < text.len()
                &&& text[text.len() - last.len() - 1] == separator
                &&& text.take(text.len() - last.len() - 1) == joined(chunks.drop_last(), separator)
            }
        }),
{
    if chunks.len() > 1 {
        let head = joined(chunks.drop_last(), separator);
        let text = joined(chunks, separator);
        assert(text =~= head + seq![separator] + chunks.last());
        assert(text.take(text.len() - chunks.last().len() - 1) =~= head);
    }
}

/// Cuts a text at every separator.
pub fn split(text: &str, separator: char) -> (chunks: Vec<String>)
    ensures
        is_split(text@, separator, texts(chunks@)),
{
    let mut chunks: Vec<String> = Vec::new();
    let n: usize = text.unicode_len();
    let mut start: usize = 0;
    let mut i: usize = 0;
    while i < n
        invariant
            n == text@.len(),
            start <= i <= n,
            forall|k: int| start <= k < i ==> text@[k] != separator,
            forall|k: int|
                0 <= k < chunks@.len() ==> !(#[trigger] texts(chunks@)[k]).contains(separator),
            chunks@.len() == 0 ==> start == 0,
            chunks@.len() > 0 ==> start > 0 && text@[start - 1] == separator && joined(
                texts(chunks@),
                separator,
            ) == text@.take(start - 1),
        decreases n - i,
    {
        if text.get_char(i) == separator {
            let piece = text.substring_char(start, i);
            let ghost was = texts(chunks@);
            chunks.push(piece.to_owned());
            proof {
                assert(texts(chunks@) =~= was.push(piece@));
                assert forall|k: int| 0 <= k < chunks@.len() implies !(#[trigger] texts(
                    chunks@,
                )[k]).contains(separator) by {
                    if k < was.len() {
                        assert(was[k] == texts(chunks@)[k]);
                    }
                }
                if was.len() > 0 {
                    lemma_joined_push(was, separator, piece@);
                    assert(joined(texts(chunks@), separator) =~= text@.take(i as int));
                } else {
                    assert(joined(texts(chunks@), separator) =~= text@.take(i as int));
                }
            }
            start = i + 1;
        }
        i = i + 1;
    }
    let piece = text.substring_char(start, n);
    let ghost was = texts(chunks@);
    chunks.push(piece.to_owned());
    proof {
        assert(texts(chunks@) =~= was.push(piece@));
        assert forall|k: int| 0 <= k < chunks@.len() implies !(#[trigger] texts(
            chunks@,
        )[k]).contains(separator) by {
            if k < was.len() {
                assert(was[k] == texts(chunks@)[k]);
            }
        }
        if was.len() > 0 {
            lemma_joined_push(was, separator, piece@);
        }
        assert(joined(texts(chunks@), separator) =~= text@);
    }
    chunks
}

/// Whether a character is white space, as Unicode has it.
pub open spec fn is_white_space(c: char) -> bool {
    ||| '\u{9}' <= c <= '\u{d}'
    ||| c == ' '
    ||| c == '\u{85}'
    ||| c == '\u{a0}'
    ||| c == '\u{1680}'
    ||| '\u{2000}' <= c <= '\u{200a}'
    ||| c == '\u{2028}'
    ||| c == '\u{2029}'
    ||| c == '\u{202f}'
    ||| c == '\u{205f}'
    ||| c == '\u{3000}'
}

/// Tells whether a character is white space.
pub fn white_space(c: char) -> (r: bool)
    ensures
        r == is_white_space(c),
{
    let n: u32 = c as u32;
    (9 <= n && n <= 13) || n == 32 || n == 0x85 || n == 0xa0 || n == 0x1680 || (0x2000 <= n && n
        <= 0x200a) || n == 0x2028 || n == 0x2029 || n == 0x202f || n == 0x205f || n == 0x3000
}

/// Whether `out` is `text` without the white space at both of its ends.
pub open spec fn is_trimmed(text: Seq<char>, out: Seq<char>) -> bool {
    exists|start: int, end: int|
        0 <= start <= end <= text.len() && out == #[trigger] text.subrange(start, end)
            && trims_at(text, start, end)
}

/// Whether cutting a text at `start` and `end` takes away its outer white space,
/// all of it and nothing else.
pub open spec fn trims_at(text: Seq<char>, start: int, end: int) -> bool {
    &&& forall|i: int| 0 <= i < start ==> is_white_space(#[trigger] text[i])
    &&& forall|i: int| end <= i < text.len() ==> is_white_space(#[trigger] text[i])
    &&& start < end ==> !is_white_space(text[start]) && !is_white_space(text[end - 1])
}

/// Trimming a text comes to one result.
pub proof fn lemma_trimmed_is_unique(text: Seq<char>, a: Seq<char>, b: Seq<char>)
    requires
        is_trimmed(text, a),
        is_trimmed(text, b),
    ensures
        a == b,
{
    let (s, e) = choose|start: int, end: int|
        0 <= start <= end <= text.len() && a == #[trigger] text.subrange(start, end) && trims_at(
            text,
            start,
            end,
        );
    let (p, q) = choose|start: int, end: int|
        0 <= start <= end <= text.len() && b == #[trigger] text.subrange(start, end) && trims_at(
            text,
            start,
            end,
        );
    if s < e && p == q {
        assert(is_white_space(text[s]));
    }
    if p < q && s == e {
        assert(is_white_space(text[p]));
    }
    assert(a =~= b);
}

/// Takes the white space off both ends of a text.
pub fn trim(text: &str) -> (out: String)
    ensures
        is_trimmed(text@, out@),
{
    let n: usize = text.unicode_len();
    let mut start: usize = 0;
    while start < n && white_space(text.get_char(start))
        invariant
            n == text@.len(),
            start <= n,
            forall|i: int| 0 <= i < start ==> is_white_space(#[trigger] text@[i]),
        decreases n - start,
    {
        start = start + 1;
    }
    let mut end: usize = n;
    while end > start && white_space(text.get_char(end - 1))
        invariant
            n == text@.len(),
            start <= end <= n,
            forall|i: int| end <= i < n ==> is_white_space(#[trigger] text@[i]),
        decreases end,
    {
        end = end - 1;
    }
    let out = text.substring_char(start, end).to_owned();
    assert(trims_at(text@, start as int, end as int));
    assert(out@ =~= text@.subrange(start as int, end as int));
    out
}

/// Whether every character is a decimal digit.
pub open spec fn all_digits(text: Seq<char>) -> bool {
    forall|i: int| 0 <= i < text.len() ==> '0' <= #[trigger] text[i] <= '9'
}

/// The number that decimal digits write.
pub open spec fn digits_value(text: Seq<char>) -> int
    decreases text.len(),
{
    if text.len() == 0 {
        0
    } else {
        digits_value(text.drop_last()) * 10 + (text.last() as int - '0' as int)
    }
}

/// The 64-bit number that a text writes: decimal digits, at least one, perhaps
/// behind a plus sign.
pub open spec fn written_number(text: Seq<char>) -> Option<u64> {
    let digits = if text.len() > 0 && text[0] == '+' {
        text.skip(1)
    } else {
        text
    };
    if digits.len() > 0 && all_digits(digits) && digits_value(digits) <= u64::MAX {
        Some(digits_value(digits) as u64)
    } else {
        None
    }
}

proof fn lemma_more_digits(text: Seq<char>, n: int)
    requires
        0 <= n <= text.len(),
        all_digits(text),
    ensures
        0 <= digits_value(text.take(n)) <= digits_value(text),
    decreases text.len(),
{
    if text.len() == 0 {
        assert(text.take(n) =~= text);
    } else {
        let shorter = text.drop_last();
        assert(all_digits(shorter)) by {
            assert forall|i: int| 0 <= i < shorter.len() implies '0' <= #[trigger] shorter[i]
                <= '9' by {
                assert(shorter[i] == text[i]);
            }
        }
        lemma_more_digits(shorter, shorter.len() as int);
        assert(shorter.take(shorter.len() as int) =~= shorter);
        assert('0' <= text[text.len() - 1] <= '9');
        if n == text.len() {
            assert(text.take(n) =~= text);
        } else {
            assert(text.take(n) =~= shorter.take(n));
            lemma_more_digits(shorter, n);
        }
    }
}

/// Reads a 64-bit number.
pub fn parse_number(text: &str) -> (value: Option<u64>)
    ensures
        value == written_number(text@),
{
    let n: usize = text.unicode_len();
    let start: usize = if n > 0 && text.get_char(0) == '+' {
        1
    } else {
        0
    };
    if start == n {
        return None;
    }
    let ghost digits = text@.skip(start as int);
    assert(start == 0 ==> digits =~= text@);
    let mut value: u64 = 0;
    let mut i: usize = start;
    while i < n
        invariant
            n == text@.len(),
            start <= i <= n,
            start < n,
            start == (if text@[0] == '+' {
                1int
            } else {
                0int
            }),
            digits == text@.skip(start as int),
            digits == (if text@[0] == '+' {
                text@.skip(1)
            } else {
                text@
            }),
            all_digits(digits.take(i - start)),
            value == digits_value(digits.take(i - start)),
        decreases n - i,
    {
        let c = text.get_char(i);
        let code: u32 = c as u32;
        assert(digits[i - start] == c);
        if code < 48 || code > 57 {
            return None;
        }
        let digit: u64 = (code - 48) as u64;
        let ghost longer = digits.take(i - start + 1);
        assert(longer.drop_last() =~= digits.take(i - start));
        assert(longer.last() == c);
        assert(digits_value(longer) == value * 10 + digit);
        if value > 1844674407370955161 || value * 10 > u64::MAX - digit {
            proof {
                if all_digits(digits) {
                    lemma_more_digits(digits, i - start + 1);
                }
            }
            return None;
        }
        value = value * 10 + digit;
        i = i + 1;
        assert forall|k: int| 0 <= k < i - start implies '0' <= #[trigger] digits.take(
            i - start,
        )[k] <= '9' by {
            if k < i - start - 1 {
                assert(digits.take(i - start)[k] == digits.take(i - start - 1)[k]);
            }
        }
    }
    assert(digits.take(i - start) =~= digits);
    Some(value)
}

} // verus!
