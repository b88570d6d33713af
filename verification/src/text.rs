//! Text building blocks: appending a character, decimal rendering of
//! counters, debug-quoting of embedded prompt text, and substring search.

use vstd::prelude::*;

verus! {

/// Relies on String::push: appends the given character to the end of the
/// string.
#[verifier::external_body]
pub fn push_char(s: &mut String, c: char)
    ensures
        final(s)@ == old(s)@ + seq![c],
{
    s.push(c)
}

/// What the Debug formatting of a string returns: the text surrounded by
/// double quotes, with escapes applied; a function of the characters
/// alone.
pub uninterp spec fn dbg_quote_of(s: Seq<char>) -> Seq<char>;

/// Relies on the Debug formatting of str (through the format macro): the
/// quoted, escaped rendering of the text, depending on the characters
/// alone.
#[verifier::external_body]
pub fn debug_quote(s: &str) -> (r: String)
    ensures
        r@ == dbg_quote_of(s@),
{
    format!("{:?}", s)
}

/// The character for one decimal digit.
pub open spec fn dec_digit_char(d: nat) -> char {
    ((48 + d % 10) as u8) as char
}

/// The decimal rendering of a natural number, most significant digit
/// first, with no leading zeros (a single zero for zero itself).
pub open spec fn dec_digits(n: nat) -> Seq<char>
    decreases n,
{
    if n < 10 {
        seq![dec_digit_char(n)]
    } else {
        dec_digits(n / 10) + seq![dec_digit_char(n % 10)]
    }
}

/// Renders a usize in decimal.
pub fn usize_to_decimal(n: usize) -> (r: String)
    ensures
        r@ == dec_digits(n as nat),
{
    let mut digits: Vec<char> = Vec::new();
    let mut m: usize = n;
    loop
        invariant_except_break
            m == 0 ==> digits@.len() == 0 && n == 0,
            digits@.len() == 0 ==> m == n,
            m != 0 ==> dec_digits(n as nat) == dec_digits(m as nat) + digits@.reverse(),
        ensures
            dec_digits(n as nat) == digits@.reverse(),
        decreases m,
    {
        let d: usize = m % 10;
        let c: char = ((48u8 + (d as u8)) as char);
        proof {
            assert(c == dec_digit_char((m % 10) as nat));
        }
        digits.push(c);
        let prev: usize = m;
        m = m / 10;
        proof {
            if prev != 0 {
                if prev >= 10 {
                    assert(dec_digits(prev as nat) == dec_digits((prev / 10) as nat) + seq![
                        dec_digit_char((prev % 10) as nat),
                    ]);
                } else {
                    assert(dec_digits(prev as nat) == seq![dec_digit_char(prev as nat)]);
                }
            } else {
                assert(dec_digits(0nat) == seq![dec_digit_char(0nat)]);
            }
            assert(digits@.reverse() =~= seq![digits@[digits@.len() - 1]]
                + digits@.take(digits@.len() - 1).reverse()) by {
                let s = digits@;
                let t = seq![s[s.len() - 1]] + s.take(s.len() - 1).reverse();
                assert forall|i: int| 0 <= i < s.len() implies s.reverse()[i] == t[i] by {
                    if i > 0 {
                        assert(t[i] == s.take(s.len() - 1).reverse()[i - 1]);
                    }
                }
            }
        }
        if m == 0 {
            break;
        }
    }
    proof {
        assert(dec_digits(n as nat) == digits@.reverse());
    }
    let mut r = String::new();
    let ghost total: Seq<char> = digits@;
    let mut i: usize = digits.len();
    while i > 0
        invariant
            i <= digits@.len(),
            digits@ == total,
            r@ == total.skip(i as int).reverse(),
        decreases i,
    {
        i = i - 1;
        let c = digits[i];
        push_char(&mut r, c);
        proof {
            assert(r@ =~= total.skip(i as int).reverse()) by {
                let s = total.skip(i as int);
                let t = total.skip(i + 1).reverse() + seq![total[i as int]];
                assert forall|k: int| 0 <= k < s.len() implies s.reverse()[k] == t[k] by {
                    if k < s.len() - 1 {
                        assert(t[k] == total.skip(i + 1).reverse()[k]);
                        assert(total.skip(i + 1).reverse()[k] == total.skip(i + 1)[total.skip(i + 1).len()
                            - 1 - k]);
                    }
                }
            }
        }
    }
    proof {
        assert(total.skip(0).reverse() =~= total.reverse());
    }
    r
}

/// The needle occurs in the haystack beginning at position `i`.
pub open spec fn is_match_at(hay: Seq<char>, needle: Seq<char>, i: int) -> bool {
    &&& 0 <= i
    &&& i + needle.len() <= hay.len()
    &&& hay.subrange(i, i + needle.len() as int) == needle
}

/// The needle occurs somewhere in the haystack.
pub open spec fn contains_seq(hay: Seq<char>, needle: Seq<char>) -> bool {
    exists|i: int| is_match_at(hay, needle, i)
}

/// Compares the needle against the haystack at one position.
pub fn match_at(hay: &str, needle: &str, i: usize) -> (r: bool)
    requires
        i + needle@.len() <= hay@.len(),
        hay@.len() <= usize::MAX,
    ensures
        r == is_match_at(hay@, needle@, i as int),
{
    let n = needle.unicode_len();
    let mut j: usize = 0;
    while j < n
        invariant
            n == needle@.len(),
            i + n <= hay@.len(),
            hay@.len() <= usize::MAX,
            j <= n,
            forall|k: int| 0 <= k < j ==> hay@[i + k] == needle@[k],
        decreases n - j,
    {
        if hay.get_char(i + j) != needle.get_char(j) {
            proof {
                assert(hay@.subrange(i as int, i + n) != needle@) by {
                    assert(hay@.subrange(i as int, i + n)[j as int] == hay@[i + j]);
                }
            }
            return false;
        }
        j = j + 1;
    }
    proof {
        assert(hay@.subrange(i as int, i + n) =~= needle@);
    }
    true
}

/// Substring search: reports whether the needle occurs anywhere in the
/// haystack.
pub fn str_contains(hay: &str, needle: &str) -> (r: bool)
    ensures
        r == contains_seq(hay@, needle@),
{
    let h = hay.unicode_len();
    let n = needle.unicode_len();
    if n > h {
        proof {
            assert(!contains_seq(hay@, needle@));
        }
        return false;
    }
    if n == 0 {
        proof {
            assert(hay@.subrange(0, 0) =~= needle@);
            assert(is_match_at(hay@, needle@, 0));
        }
        return true;
    }
    let mut i: usize = 0;
    while i <= h - n
        invariant
            h == hay@.len(),
            n == needle@.len(),
            0 < n <= h,
            i <= h - n + 1,
            forall|k: int| 0 <= k < i ==> !is_match_at(hay@, needle@, k),
        decreases h - i,
    {
        if match_at(hay, needle, i) {
            return true;
        }
        i = i + 1;
    }
    proof {
        assert forall|k: int| !is_match_at(hay@, needle@, k) by {
            if 0 <= k && k + needle@.len() <= hay@.len() {
                assert(k < i);
            }
        }
    }
    false
}

/// If a text is a concatenation with `mid` in the middle, the text
/// contains `mid`.
pub proof fn lemma_concat_contains(pre: Seq<char>, mid: Seq<char>, post: Seq<char>)
    ensures
        contains_seq(pre + mid + post, mid),
{
    let hay = pre + mid + post;
    assert(hay.subrange(pre.len() as int, pre.len() + mid.len() as int) =~= mid);
    assert(is_match_at(hay, mid, pre.len() as int));
}

} // verus!
