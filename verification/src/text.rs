//! Rendering of numbers and texts, and the order of texts.

use vstd::prelude::*;
use vstd::utf8::{encode_utf8, encode_utf8_decode_utf8};

verus! {

/// The form in which std writes a `str` for debugging, with `{:?}`: the text
/// in double quotes, with those of its characters escaped that std escapes.
/// It depends on the text alone.
pub uninterp spec fn str_debug(text: Seq<char>) -> Seq<char>;

/// Calls `format!` with `{:?}` on a `str`.  Not proved: that the call
/// returns the text named [`str_debug`].
#[verifier::external_body]
pub(crate) fn debug_str(text: &str) -> (quoted: String)
    ensures
        quoted@ == str_debug(text@),
{
    format!("{:?}", text)
}

/// The character that stands for a decimal digit.
pub open spec fn digit_char(digit: nat) -> char {
    if digit == 0 {
        '0'
    } else if digit == 1 {
        '1'
    } else if digit == 2 {
        '2'
    } else if digit == 3 {
        '3'
    } else if digit == 4 {
        '4'
    } else if digit == 5 {
        '5'
    } else if digit == 6 {
        '6'
    } else if digit == 7 {
        '7'
    } else if digit == 8 {
        '8'
    } else {
        '9'
    }
}

/// A number in decimal notation, without sign or leading zeros.
pub open spec fn decimal_text(n: nat) -> Seq<char>
    decreases n,
{
    if n < 10 {
        seq![digit_char(n)]
    } else {
        decimal_text(n / 10).push(digit_char(n % 10))
    }
}

fn digit_str(digit: usize) -> (text: &'static str)
    requires
        digit < 10,
    ensures
        text@ == seq![digit_char(digit as nat)],
{
    let text = if digit == 0 {
        "0"
    } else if digit == 1 {
        "1"
    } else if digit == 2 {
        "2"
    } else if digit == 3 {
        "3"
    } else if digit == 4 {
        "4"
    } else if digit == 5 {
        "5"
    } else if digit == 6 {
        "6"
    } else if digit == 7 {
        "7"
    } else if digit == 8 {
        "8"
    } else {
        "9"
    };
    proof {
        reveal_strlit("0");
        reveal_strlit("1");
        reveal_strlit("2");
        reveal_strlit("3");
        reveal_strlit("4");
        reveal_strlit("5");
        reveal_strlit("6");
        reveal_strlit("7");
        reveal_strlit("8");
        reveal_strlit("9");
        assert(text@ =~= seq![digit_char(digit as nat)]);
    }
    text
}

/// Writes a number in decimal notation.
pub fn decimal(n: usize) -> (text: String)
    ensures
        text@ == decimal_text(n as nat),
    decreases n,
{
    if n < 10 {
        String::from_str(digit_str(n))
    } else {
        let mut text = decimal(n / 10);
        text.append(digit_str(n % 10));
        assert(text@ =~= decimal_text(n as nat));
        text
    }
}

/// One byte string comes before another in the order of dictionaries: at the
/// first place where they differ it has the smaller byte, or it ends there
/// and the other goes on.
pub open spec fn bytes_precede(a: Seq<u8>, b: Seq<u8>) -> bool {
    exists|k: int|
        {
            &&& 0 <= k <= a.len()
            &&& k <= b.len()
            &&& #[trigger] a.take(k) == b.take(k)
            &&& (k == a.len() && k < b.len()) || (k < a.len() && k < b.len() && a[k] < b[k])
        }
}

/// One text comes before another: its UTF-8 form comes before the other's.
/// This is the order of `str`.
pub open spec fn text_precedes(a: Seq<char>, b: Seq<char>) -> bool {
    bytes_precede(encode_utf8(a), encode_utf8(b))
}

proof fn lemma_bytes_compare_from(a: Seq<u8>, b: Seq<u8>, i: int)
    requires
        0 <= i <= a.len(),
        i <= b.len(),
        forall|j: int| 0 <= j < i ==> a[j] == b[j],
    ensures
        a == b || bytes_precede(a, b) || bytes_precede(b, a),
    decreases a.len() - i,
{
    if i == a.len() || i == b.len() {
        assert(a.take(i) =~= b.take(i));
        assert(b.take(i) =~= a.take(i));
        if a.len() == b.len() {
            assert(a =~= b);
        }
    } else if a[i] != b[i] {
        assert(a.take(i) =~= b.take(i));
        assert(b.take(i) =~= a.take(i));
    } else {
        lemma_bytes_compare_from(a, b, i + 1);
    }
}

/// The order of byte strings is a strict total order: of two strings that
/// differ, exactly one comes before the other, and none comes before itself.
pub proof fn lemma_bytes_order(a: Seq<u8>, b: Seq<u8>)
    ensures
        !(bytes_precede(a, b) && bytes_precede(b, a)),
        a == b || bytes_precede(a, b) || bytes_precede(b, a),
        a == b ==> !bytes_precede(a, b),
{
    lemma_bytes_compare_from(a, b, 0);
    if bytes_precede(a, b) && bytes_precede(b, a) {
        let k = choose|k: int|
            {
                &&& 0 <= k <= a.len()
                &&& k <= b.len()
                &&& #[trigger] a.take(k) == b.take(k)
                &&& (k == a.len() && k < b.len()) || (k < a.len() && k < b.len() && a[k] < b[k])
            };
        let m = choose|m: int|
            {
                &&& 0 <= m <= b.len()
                &&& m <= a.len()
                &&& #[trigger] b.take(m) == a.take(m)
                &&& (m == b.len() && m < a.len()) || (m < b.len() && m < a.len() && b[m] < a[m])
            };
        if k < m {
            assert(a.take(m)[k] == a[k]);
            assert(b.take(m)[k] == b[k]);
        } else if m < k {
            assert(a.take(k)[m] == a[m]);
            assert(b.take(k)[m] == b[m]);
        }
        assert(false);
    }
}

/// The order of texts is a strict total order: of two texts that differ,
/// exactly one comes before the other, and none comes before itself.
pub proof fn lemma_text_order(a: Seq<char>, b: Seq<char>)
    ensures
        !(text_precedes(a, b) && text_precedes(b, a)),
        a == b || text_precedes(a, b) || text_precedes(b, a),
        a == b ==> !text_precedes(a, b),
{
    lemma_bytes_order(encode_utf8(a), encode_utf8(b));
    encode_utf8_decode_utf8(a);
    encode_utf8_decode_utf8(b);
}

/// Whether one text comes before another in the order of `str`.
pub fn precedes(a: &str, b: &str) -> (less: bool)
    ensures
        less == text_precedes(a@, b@),
{
    let x = a.as_bytes();
    let y = b.as_bytes();
    let mut i: usize = 0;
    while i < x.len() && i < y.len()
        invariant
            x@ == encode_utf8(a@),
            y@ == encode_utf8(b@),
            i <= x@.len(),
            i <= y@.len(),
            forall|j: int| 0 <= j < i ==> x@[j] == y@[j],
        decreases x@.len() - i,
    {
        if x[i] != y[i] {
            let less = x[i] < y[i];
            proof {
                if less {
                    assert(x@.take(i as int) =~= y@.take(i as int));
                } else {
                    assert forall|k: int|
                        !({
                            &&& 0 <= k <= x@.len()
                            &&& k <= y@.len()
                            &&& #[trigger] x@.take(k) == y@.take(k)
                            &&& (k == x@.len() && k < y@.len()) || (k < x@.len() && k < y@.len()
                                && x@[k] < y@[k])
                        }) by {
                        if i < k <= x@.len() && k <= y@.len() && x@.take(k) == y@.take(k) {
                            assert(x@.take(k)[i as int] == x@[i as int]);
                            assert(y@.take(k)[i as int] == y@[i as int]);
                        }
                    }
                }
            }
            return less;
        }
        i += 1;
    }
    let less = x.len() < y.len();
    proof {
        if less {
            assert(x@.take(i as int) =~= y@.take(i as int));
        }
    }
    less
}

} // verus!
