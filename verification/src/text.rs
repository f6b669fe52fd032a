//! Text: decimal numbers, replacement, quoting and the byte order of strings.

use vstd::prelude::*;

verus! {

/// The text of an optional string.
pub open spec fn opt_text(text: Option<String>) -> Option<Seq<char>> {
    match text {
        Some(text) => Some(text@),
        None => None,
    }
}

/// The decimal digit that stands for `d`, for `d` below ten.
pub open spec fn digit(d: nat) -> char
    recommends
        d < 10,
{
    (48 + d) as char
}

/// The decimal digits of `n`, most significant first, without leading zeros.
pub open spec fn decimal(n: nat) -> Seq<char>
    decreases n,
{
    if n < 10 {
        seq![digit(n)]
    } else {
        decimal(n / 10).push(digit(n % 10))
    }
}

fn digit_text(d: u64) -> (text: &'static str)
    requires
        d < 10,
    ensures
        text@ == seq![digit(d as nat)],
{
    proof {
        reveal_strlit("0");
        reveal_strlit("1");
        reveal_strlit("2");
        reveal_strlit("3");
        reveal_strlit("4");
        reveal_strlit("5");
        reveal_strlit("6");
        reveal_strlit("7");
        reveal_strlit("8");
        reveal_strlit("9");
    }
    match d {
        0 => "0",
        1 => "1",
        2 => "2",
        3 => "3",
        4 => "4",
        5 => "5",
        6 => "6",
        7 => "7",
        8 => "8",
        _ => "9",
    }
}

/// Writes a number in decimal.
pub fn decimal_text(n: u64) -> (text: String)
    ensures
        text@ == decimal(n as nat),
    decreases n,
{
    let last: &str = digit_text(n % 10);
    if n < 10 {
        last.to_owned()
    } else {
        let mut text = decimal_text(n / 10);
        text.append(last);
        text
    }
}

/// Two numbers with the same decimal digits are the same number.
pub proof fn lemma_decimal_injective(m: nat, n: nat)
    requires
        decimal(m) == decimal(n),
    ensures
        m == n,
    decreases m,
{
    lemma_decimal_nonempty(m);
    lemma_decimal_nonempty(n);
    assert(decimal(m).last() == decimal(n).last());
    if m >= 10 && n >= 10 {
        assert(decimal(m).drop_last() == decimal(m / 10));
        assert(decimal(n).drop_last() == decimal(n / 10));
        lemma_decimal_injective(m / 10, n / 10);
        assert(digit(m % 10) as int == 48 + m % 10);
        assert(digit(n % 10) as int == 48 + n % 10);
        assert(decimal(m).last() == digit(m % 10) && decimal(n).last() == digit(n % 10));
        assert(m == 10 * (m / 10) + m % 10 && n == 10 * (n / 10) + n % 10);
    } else if m >= 10 {
        lemma_decimal_nonempty(m / 10);
        assert(decimal(m).len() >= 2 && decimal(n).len() == 1);
    } else if n >= 10 {
        lemma_decimal_nonempty(n / 10);
        assert(decimal(n).len() >= 2 && decimal(m).len() == 1);
    } else {
        assert(digit(m) as int == 48 + m);
        assert(digit(n) as int == 48 + n);
        assert(decimal(m).last() == digit(m) && decimal(n).last() == digit(n));
    }
}

/// A number has at least one digit.
proof fn lemma_decimal_nonempty(n: nat)
    ensures
        decimal(n).len() >= 1,
{
}

/// `text` with every `from` replaced by `to`.
pub open spec fn replaced(text: Seq<char>, from: char, to: Seq<char>) -> Seq<char>
    decreases text.len(),
{
    if text.len() == 0 {
        Seq::empty()
    } else if text.last() == from {
        replaced(text.drop_last(), from, to) + to
    } else {
        replaced(text.drop_last(), from, to).push(text.last())
    }
}

/// Calls `str::replace` with a single character as its pattern: every occurrence of the
/// character is replaced by the other text, and the rest stays as it is.
#[verifier::external_body]
pub(crate) fn replace_char(text: &str, from: char, to: &str) -> (result: String)
    ensures
        result@ == replaced(text@, from, to@),
{
    text.replace(from, to)
}

/// What the standard `Debug` formatting of a string gives: the text in double quotes, with
/// its special characters escaped.
pub uninterp spec fn debug_quoted(text: Seq<char>) -> Seq<char>;

/// Formats a string with `{:?}`, the standard `Debug` formatting of `str`, whose result
/// depends on the text alone.
#[verifier::external_body]
pub(crate) fn debug_quote(text: &str) -> (result: String)
    ensures
        result@ == debug_quoted(text@),
{
    format!("{:?}", text)
}

/// The lexicographic order of byte strings.
pub open spec fn bytes_le(a: Seq<u8>, b: Seq<u8>) -> bool
    decreases a.len(),
{
    if a.len() == 0 {
        true
    } else if b.len() == 0 {
        false
    } else if a[0] != b[0] {
        a[0] < b[0]
    } else {
        bytes_le(a.drop_first(), b.drop_first())
    }
}

/// The order of strings: lexicographic by the bytes of their UTF-8 form.
pub open spec fn text_le(a: Seq<char>, b: Seq<char>) -> bool {
    bytes_le(vstd::utf8::encode_utf8(a), vstd::utf8::encode_utf8(b))
}

/// Compares two strings in the order of their bytes.
pub fn str_le(a: &str, b: &str) -> (result: bool)
    ensures
        result == text_le(a@, b@),
{
    let left = a.as_bytes();
    let right = b.as_bytes();
    let mut i: usize = 0;
    assert(left@.skip(0) == left@);
    assert(right@.skip(0) == right@);
    while i < left.len() && i < right.len() && left[i] == right[i]
        invariant
            i <= left@.len(),
            i <= right@.len(),
            bytes_le(left@, right@) == bytes_le(left@.skip(i as int), right@.skip(i as int)),
        decreases left@.len() - i,
    {
        assert(left@.skip(i as int).drop_first() == left@.skip(i + 1));
        assert(right@.skip(i as int).drop_first() == right@.skip(i + 1));
        i = i + 1;
    }
    if i >= left.len() {
        true
    } else if i >= right.len() {
        false
    } else {
        left[i] < right[i]
    }
}

proof fn lemma_bytes_le_total(a: Seq<u8>, b: Seq<u8>)
    ensures
        bytes_le(a, b) || bytes_le(b, a),
    decreases a.len(),
{
    if a.len() > 0 && b.len() > 0 && a[0] == b[0] {
        lemma_bytes_le_total(a.drop_first(), b.drop_first());
    }
}

proof fn lemma_bytes_le_transitive(a: Seq<u8>, b: Seq<u8>, c: Seq<u8>)
    requires
        bytes_le(a, b),
        bytes_le(b, c),
    ensures
        bytes_le(a, c),
    decreases a.len(),
{
    if a.len() > 0 && b.len() > 0 && c.len() > 0 && a[0] == b[0] && b[0] == c[0] {
        lemma_bytes_le_transitive(a.drop_first(), b.drop_first(), c.drop_first());
    }
}

proof fn lemma_bytes_le_antisymmetric(a: Seq<u8>, b: Seq<u8>)
    requires
        bytes_le(a, b),
        bytes_le(b, a),
    ensures
        a == b,
    decreases a.len(),
{
    if a.len() > 0 && b.len() > 0 {
        lemma_bytes_le_antisymmetric(a.drop_first(), b.drop_first());
        assert(a == seq![a[0]] + a.drop_first());
        assert(b == seq![b[0]] + b.drop_first());
    }
}

/// The order of strings is total: of any two, one stands at or before the other.
pub proof fn lemma_text_le_total(a: Seq<char>, b: Seq<char>)
    ensures
        text_le(a, b) || text_le(b, a),
{
    lemma_bytes_le_total(vstd::utf8::encode_utf8(a), vstd::utf8::encode_utf8(b));
}

/// The order of strings is transitive.
pub proof fn lemma_text_le_transitive(a: Seq<char>, b: Seq<char>, c: Seq<char>)
    requires
        text_le(a, b),
        text_le(b, c),
    ensures
        text_le(a, c),
{
    lemma_bytes_le_transitive(vstd::utf8::encode_utf8(a), vstd::utf8::encode_utf8(b), vstd::utf8::encode_utf8(c));
}

/// Strings that stand at or before each other are equal.
pub proof fn lemma_text_le_antisymmetric(a: Seq<char>, b: Seq<char>)
    requires
        text_le(a, b),
        text_le(b, a),
    ensures
        a == b,
{
    lemma_bytes_le_antisymmetric(vstd::utf8::encode_utf8(a), vstd::utf8::encode_utf8(b));
    vstd::utf8::encode_utf8_decode_utf8(a);
    vstd::utf8::encode_utf8_decode_utf8(b);
}

/// The number that digits stand for.
pub open spec fn value_of(digits: Seq<char>) -> int
    decreases digits.len(),
{
    if digits.len() == 0 {
        0
    } else {
        10 * value_of(digits.drop_last()) + (digits.last() as int - '0' as int)
    }
}

/// The decimal digits of a number are digits, they stand for the number, and there are no more
/// of them than it takes.
pub proof fn law_decimal_digits_stand_for_the_number(n: nat)
    ensures
        value_of(decimal(n)) == n,
        forall|i: int|
            0 <= i < decimal(n).len() ==> '0' <= #[trigger] decimal(n)[i] && decimal(n)[i] <= '9',
        decimal(n).len() >= 1,
        n > 0 ==> decimal(n)[0] != '0',
    decreases n,
{
    assert(digit(n % 10) as int == 48 + n % 10);
    if n < 10 {
        assert(decimal(n).drop_last() =~= Seq::empty());
        assert(digit(n) as int == 48 + n);
        reveal_with_fuel(value_of, 2);
    } else {
        law_decimal_digits_stand_for_the_number(n / 10);
        assert(decimal(n).drop_last() =~= decimal(n / 10));
        assert(decimal(n).last() == digit(n % 10));
        assert(n == 10 * (n / 10) + n % 10);
        assert(decimal(n)[0] == decimal(n / 10)[0]);
    }
}

/// Whether a byte string comes before another, or is the same: up to some place they agree, and
/// there the first ends, or has the smaller byte.
pub open spec fn agree_up_to(a: Seq<u8>, b: Seq<u8>, k: int) -> bool {
    &&& 0 <= k <= a.len()
    &&& k <= b.len()
    &&& forall|i: int| 0 <= i < k ==> #[trigger] a[i] == b[i]
    &&& k == a.len() || (k < b.len() && a[k] < b[k])
}

proof fn lemma_bytes_order(a: Seq<u8>, b: Seq<u8>)
    ensures
        bytes_le(a, b) <==> exists|k: int| agree_up_to(a, b, k),
    decreases a.len(),
{
    if a.len() == 0 {
        assert(agree_up_to(a, b, 0));
    } else if b.len() == 0 {
        assert forall|k: int| !agree_up_to(a, b, k) by {}
    } else if a[0] != b[0] {
        if a[0] < b[0] {
            assert(agree_up_to(a, b, 0));
        }
        assert forall|k: int| agree_up_to(a, b, k) implies a[0] < b[0] by {}
    } else {
        lemma_bytes_order(a.drop_first(), b.drop_first());
        if exists|k: int| agree_up_to(a.drop_first(), b.drop_first(), k) {
            let k = choose|k: int| agree_up_to(a.drop_first(), b.drop_first(), k);
            assert forall|i: int| 0 <= i < k + 1 implies #[trigger] a[i] == b[i] by {
                if i > 0 {
                    assert(a.drop_first()[i - 1] == b.drop_first()[i - 1]);
                }
            }
            assert(agree_up_to(a, b, k + 1));
        }
        if exists|k: int| agree_up_to(a, b, k) {
            let k = choose|k: int| agree_up_to(a, b, k);
            assert(k > 0);
            assert forall|i: int| 0 <= i < k - 1 implies #[trigger] a.drop_first()[i]
                == b.drop_first()[i] by {
                assert(a[i + 1] == b[i + 1]);
            }
            assert(agree_up_to(a.drop_first(), b.drop_first(), k - 1));
        }
    }
}

/// Texts are ordered by their bytes: one comes before another, or is the same, exactly if up to
/// some place they agree, and there the first ends, or has the smaller byte.
pub proof fn law_texts_are_ordered_by_their_bytes(a: Seq<char>, b: Seq<char>)
    ensures
        text_le(a, b) <==> exists|k: int|
            agree_up_to(vstd::utf8::encode_utf8(a), vstd::utf8::encode_utf8(b), k),
{
    lemma_bytes_order(vstd::utf8::encode_utf8(a), vstd::utf8::encode_utf8(b));
}

/// Replacing a character by one other keeps the length and every other character.
pub proof fn law_replacing_keeps_the_rest(text: Seq<char>, from: char, to: char)
    ensures
        replaced(text, from, seq![to]).len() == text.len(),
        forall|i: int|
            0 <= i < text.len() ==> #[trigger] replaced(text, from, seq![to])[i] == (if text[i]
                == from {
                to
            } else {
                text[i]
            }),
    decreases text.len(),
{
    if text.len() > 0 {
        law_replacing_keeps_the_rest(text.drop_last(), from, to);
        assert forall|i: int| 0 <= i < text.len() implies #[trigger] replaced(
            text,
            from,
            seq![to],
        )[i] == (if text[i] == from {
            to
        } else {
            text[i]
        }) by {
            if i < text.len() - 1 {
                assert(text.drop_last()[i] == text[i]);
                assert(replaced(text, from, seq![to])[i] == replaced(
                    text.drop_last(),
                    from,
                    seq![to],
                )[i]);
            }
        }
    }
}

} // verus!
