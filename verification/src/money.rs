//! Money is held as whole paise (`i64`) everywhere; these are the only
//! places it meets text: parsing what the shopkeeper typed, and rendering
//! amounts for the screen, the edit forms and printed documents.
use vstd::prelude::*;
use crate::text::{lemma_decimal_digits, lemma_digit_char, push_decimal, push_pad2, spec_decimal, spec_pad2, leading_space, trailing_space, digit_char, all_digits, digit_value, digits_value, find_char, first_index_of, is_digit, lemma_digits_value_prefix, spec_trim, trim};

verus! {

/// The integer part of a typed amount: everything before the first '.'.
pub open spec fn amount_whole(t: Seq<char>) -> Seq<char> {
    t.take(first_index_of(t, '.') as int)
}

/// The fractional part: everything after the first '.', or nothing.
pub open spec fn amount_frac(t: Seq<char>) -> Seq<char> {
    if first_index_of(t, '.') < t.len() {
        t.skip(first_index_of(t, '.') + 1int)
    } else {
        Seq::empty()
    }
}

/// Paise named by at most two fraction digits, padded on the right.
pub open spec fn frac_paise(f: Seq<char>) -> int {
    if f.len() == 0 {
        0
    } else if f.len() == 1 {
        digit_value(f[0]) * 10
    } else {
        digit_value(f[0]) * 10 + digit_value(f[1])
    }
}

/// What a typed rupee amount means in paise, if it means anything:
/// optional whitespace around digits, at most one '.', at most two digits
/// after it, and a whole-rupee part that fits in an `i64`.
pub open spec fn spec_rupees_to_paise(input: Seq<char>) -> Option<int> {
    let t = spec_trim(input);
    let w = amount_whole(t);
    let f = amount_frac(t);
    if t.len() == 0 || f.len() > 2 || (w.len() == 0 && f.len() == 0) || !all_digits(w) || !all_digits(f)
        || digits_value(w) > i64::MAX {
        None
    } else {
        Some(digits_value(w) * 100 + frac_paise(f))
    }
}

/// The amount `input` names fits in an `i64` of paise (or it names none).
pub open spec fn amount_fits(input: Seq<char>) -> bool {
    spec_rupees_to_paise(input) matches Some(v) ==> v <= i64::MAX
}

/// Reads a typed rupee amount as its whole rupees and its paise, digit by
/// digit.
fn read_amount(input: &str) -> (r: Option<(i64, i64)>)
    ensures
        match r {
            Some((v, fr)) => v >= 0 && fr >= 0 && spec_rupees_to_paise(input@) == Some(v * 100 + fr),
            None => spec_rupees_to_paise(input@) is None,
        },
{
    let t = trim(input);
    let n = t.unicode_len();
    if n == 0 {
        return None;
    }
    let dot = find_char(t, '.');
    let frac_len: usize = if dot < n { n - dot - 1 } else { 0 };
    let ghost w = amount_whole(t@);
    let ghost f = amount_frac(t@);
    assert(w =~= t@.subrange(0, dot as int));
    assert(f.len() == frac_len);
    if frac_len > 2 || (dot == 0 && frac_len == 0) {
        return None;
    }
    let mut i: usize = 0;
    while i < n
        invariant
            n == t@.len(),
            n > 0,
            t@ == spec_trim(input@),
            frac_len <= 2,
            !(dot == 0 && frac_len == 0),
            f.len() == frac_len,
            dot <= n,
            i <= n,
            dot == first_index_of(t@, '.'),
            w == amount_whole(t@),
            f == amount_frac(t@),
            w == t@.subrange(0, dot as int),
            dot < n ==> f == t@.skip(dot + 1),
            forall|j: int| 0 <= j < i && j != dot ==> is_digit(#[trigger] t@[j]),
        decreases n - i,
    {
        if i != dot {
            let c = t.get_char(i);
            if !('0' <= c && c <= '9') {
                proof {
                    if i < dot {
                        assert(w[i as int] == c);
                        assert(!is_digit(w[i as int]));
                    } else {
                        assert(f[i - dot - 1] == c);
                        assert(!is_digit(f[i - dot - 1]));
                    }
                    assert(!all_digits(w) || !all_digits(f));
                    assert(spec_rupees_to_paise(input@) is None);
                }
                return None;
            }
        }
        i = i + 1;
    }
    assert(all_digits(w)) by {
        assert forall|j: int| 0 <= j < w.len() implies is_digit(#[trigger] w[j]) by {
            assert(w[j] == t@[j]);
        }
    }
    assert(all_digits(f)) by {
        assert forall|j: int| 0 <= j < f.len() implies is_digit(#[trigger] f[j]) by {
            assert(f[j] == t@[j + dot + 1]);
        }
    }
    let mut v: i64 = 0;
    let mut k: usize = 0;
    while k < dot
        invariant
            dot <= n == t@.len(),
            n > 0,
            t@ == spec_trim(input@),
            frac_len <= 2,
            !(dot == 0 && frac_len == 0),
            f.len() == frac_len,
            f == amount_frac(t@),
            w == amount_whole(t@),
            all_digits(f),
            k <= dot,
            w == t@.subrange(0, dot as int),
            all_digits(w),
            0 <= v,
            v == digits_value(w.take(k as int)),
        decreases dot - k,
    {
        let c = t.get_char(k);
        assert(c == w[k as int]);
        let d = (c as u32 - 48) as i64;
        assert(w.take(k + 1).drop_last() =~= w.take(k as int));
        if v > 922337203685477580 || (v == 922337203685477580 && d > 7) {
            proof {
                lemma_digits_value_prefix(w, k + 1);
                assert(w.take(k + 1).last() == c);
                assert(digits_value(w.take(k + 1)) == v * 10 + d);
                assert(digits_value(w) > i64::MAX);
                assert(spec_rupees_to_paise(input@) is None);
            }
            return None;
        }
        v = v * 10 + d;
        k = k + 1;
    }
    assert(w.take(dot as int) =~= w);
    let fr: i64 = if frac_len == 0 {
        0
    } else if frac_len == 1 {
        (t.get_char(dot + 1) as u32 - 48) as i64 * 10
    } else {
        (t.get_char(dot + 1) as u32 - 48) as i64 * 10 + (t.get_char(dot + 2) as u32 - 48) as i64
    };
    assert(frac_len >= 1 ==> f[0] == t@[dot + 1]);
    assert(frac_len >= 2 ==> f[1] == t@[dot + 2]);
    Some((v, fr))
}

/// Parses a rupee amount typed by the user (e.g. "80", "80.5", "80.50")
/// into whole paise, digit by digit, with no floating point anywhere.
pub fn rupees_to_paise(input: &str) -> (r: Option<i64>)
    requires
        amount_fits(input@),
    ensures
        match r {
            Some(v) => spec_rupees_to_paise(input@) == Some(v as int),
            None => spec_rupees_to_paise(input@) is None,
        },
{
    match read_amount(input) {
        None => None,
        Some((v, fr)) => Some(v * 100 + fr),
    }
}

/// Whether the amount `input` names (if it names one) fits in an `i64` of
/// paise: the test to make before `rupees_to_paise` on arbitrary text.
pub fn amount_fits_in_paise(input: &str) -> (r: bool)
    ensures
        r == amount_fits(input@),
{
    match read_amount(input) {
        None => true,
        Some((v, fr)) => (v as i128) * 100 + (fr as i128) <= i64::MAX as i128,
    }
}


/// The magnitude of `p`.
pub open spec fn abs(p: int) -> int {
    if p < 0 {
        -p
    } else {
        p
    }
}

/// A signed amount behind a currency marker: `-` for a negative amount,
/// then the marker, the whole rupees, '.', and two digits of paise.
pub open spec fn spec_format_amount(p: int, marker: Seq<char>) -> Seq<char> {
    (if p < 0 {
        seq!['-']
    } else {
        Seq::empty()
    }) + marker + spec_decimal((abs(p) / 100) as nat) + seq!['.'] + spec_pad2(abs(p) % 100)
}

/// `paise_to_input`'s text: the amount as `format_paise` writes it, without
/// the rupee sign (`-15050` is "-150.50").
pub open spec fn spec_paise_to_input(p: int) -> Seq<char> {
    spec_format_amount(p, Seq::empty())
}

/// The rupee sign.
pub open spec fn rupee_sign() -> Seq<char> {
    seq!['₹']
}

/// The ASCII stand-in for the rupee sign used on printed documents.
pub open spec fn ascii_rupees() -> Seq<char> {
    seq!['R', 's', '.', ' ']
}

fn magnitude(p: i64) -> (r: u64)
    ensures
        r == abs(p as int),
{
    if p < 0 {
        (-(p as i128)) as u64
    } else {
        p as u64
    }
}

fn format_with_marker(paise: i64, marker: &str) -> (r: String)
    ensures
        r@ == spec_format_amount(paise as int, marker@),
{
    proof {
        reveal_strlit("-");
        reveal_strlit(".");
    }
    let a = magnitude(paise);
    let mut out = String::new();
    if paise < 0 {
        out.append("-");
    }
    out.append(marker);
    push_decimal(&mut out, a / 100);
    out.append(".");
    push_pad2(&mut out, false, a % 100);
    assert(out@ =~= spec_format_amount(paise as int, marker@));
    out
}

/// Formats paise as a rupee string, e.g. `-15050` -> "-₹150.50".
pub fn format_paise(paise: i64) -> (r: String)
    ensures
        r@ == spec_format_amount(paise as int, rupee_sign()),
        spec_rupees_to_paise(r@.skip(sign_len(paise as int) + 1)) == Some(abs(paise as int)),
{
    proof {
        reveal_strlit("₹");
        lemma_format_reads_back(paise as int, rupee_sign());
        assert(rupee_sign().len() == 1);
    }
    format_with_marker(paise, "₹")
}

/// Same as `format_paise`, but with an ASCII "Rs." prefix instead of the
/// rupee glyph, for the PDF's builtin fonts which cannot draw it.
pub fn format_paise_ascii(paise: i64) -> (r: String)
    ensures
        r@ == spec_format_amount(paise as int, ascii_rupees()),
        spec_rupees_to_paise(r@.skip(sign_len(paise as int) + 4)) == Some(abs(paise as int)),
{
    proof {
        reveal_strlit("Rs. ");
        lemma_format_reads_back(paise as int, ascii_rupees());
        assert(ascii_rupees().len() == 4);
    }
    format_with_marker(paise, "Rs. ")
}

/// Same as `format_paise` but without the currency symbol, for pre-filling
/// a text input that the user will go on to edit.
pub fn paise_to_input(paise: i64) -> (r: String)
    ensures
        r@ == spec_paise_to_input(paise as int),
        spec_rupees_to_paise(r@.skip(sign_len(paise as int))) == Some(abs(paise as int)),
{
    proof {
        reveal_strlit("");
        lemma_format_reads_back(paise as int, Seq::<char>::empty());
    }
    format_with_marker(paise, "")
}

/// Pre-filling a form with `paise_to_input` and submitting it untouched
/// gives back the same amount: for every non-negative number of paise,
/// `rupees_to_paise(paise_to_input(p)) == Some(p)`.
pub proof fn lemma_input_round_trip(p: int)
    requires
        0 <= p <= i64::MAX,
    ensures
        spec_rupees_to_paise(spec_paise_to_input(p)) == Some(p),
        amount_fits(spec_paise_to_input(p)),
{
    lemma_amount_reads_back(p);
}

/// The digits of a non-negative amount, as `paise_to_input` writes them,
/// read back as that amount.
proof fn lemma_amount_reads_back(p: int)
    requires
        0 <= p <= 0x8000_0000_0000_0000,
    ensures
        spec_rupees_to_paise(spec_paise_to_input(p)) == Some(p),
{
    let q = p / 100;
    let r = p % 100;
    let d = spec_decimal(q as nat);
    let two = spec_pad2(r);
    let s = spec_paise_to_input(p);
    lemma_decimal_digits(q as nat);
    assert(s =~= Seq::<char>::empty() + Seq::<char>::empty() + d + seq!['.'] + two);
    assert(s =~= d + seq!['.'] + two);
    // the two paise digits
    if r < 10 {
        lemma_digit_char(r);
        assert(two == seq!['0', digit_char(r)]);
    } else {
        lemma_digit_char(r / 10);
        lemma_digit_char(r % 10);
        assert(spec_decimal((r / 10) as nat) == seq![digit_char(r / 10)]);
        assert(two =~= seq![digit_char(r / 10), digit_char(r % 10)]);
    }
    assert(two.len() == 2 && is_digit(two[0]) && is_digit(two[1]));
    assert(frac_paise(two) == r);
    // no surrounding whitespace
    assert(is_digit(s[0]));
    assert(s[0] == d[0]);
    assert(leading_space(s) == 0);
    assert(s.last() == two[1]);
    assert(trailing_space(s) == 0);
    assert(spec_trim(s) =~= s);
    // the first '.' follows the rupee digits
    assert forall|i: int| 0 <= i < d.len() implies #[trigger] s[i] != '.' by {
        assert(s[i] == d[i]);
        assert(is_digit(d[i]));
    }
    crate::text::lemma_first_index_of(s, '.', d.len() as int);
    assert(amount_whole(s) =~= d);
    assert(amount_frac(s) =~= two);
}

/// How many characters a sign takes in front of `p`'s text.
pub open spec fn sign_len(p: int) -> int {
    if p < 0 {
        1
    } else {
        0
    }
}

/// Every formatted amount reads back as its amount: the text is the sign
/// (a '-' for a negative amount), the marker, and then digits, a '.' and
/// two paise digits that the parser of typed amounts reads as exactly the
/// amount's magnitude. So "₹80.05" can never come out as "₹80.5".
pub proof fn lemma_format_reads_back(p: int, marker: Seq<char>)
    requires
        i64::MIN <= p <= i64::MAX,
    ensures
        spec_format_amount(p, marker).take(sign_len(p) + marker.len()) == (if p < 0 {
            seq!['-']
        } else {
            Seq::<char>::empty()
        }) + marker,
        spec_rupees_to_paise(spec_format_amount(p, marker).skip(sign_len(p) + marker.len())) == Some(abs(p)),
{
    let a = abs(p);
    let sign: Seq<char> = if p < 0 {
        seq!['-']
    } else {
        Seq::<char>::empty()
    };
    let u = spec_decimal((a / 100) as nat) + seq!['.'] + spec_pad2(a % 100);
    let t = spec_format_amount(p, marker);
    assert(t =~= sign + marker + u);
    assert(t.take(sign_len(p) + marker.len()) =~= sign + marker);
    assert(t.skip(sign_len(p) + marker.len()) =~= u);
    assert(spec_paise_to_input(a) =~= u);
    lemma_amount_reads_back(a);
}

} // verus!
