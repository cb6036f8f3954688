//! Text helpers shared by the encoder and the decoder.
use vstd::prelude::*;
use vstd::string::*;

verus! {

/// True when the two strings hold the same characters.
pub fn str_eq(a: &str, b: &str) -> (r: bool)
    ensures
        r == (a@ == b@),
{
    let n = a.unicode_len();
    if n != b.unicode_len() {
        return false;
    }
    let mut i: usize = 0;
    while i < n
        invariant
            n == a@.len(),
            n == b@.len(),
            i <= n,
            a@.subrange(0, i as int) == b@.subrange(0, i as int),
        decreases n - i,
    {
        if a.get_char(i) != b.get_char(i) {
            assert(a@[i as int] != b@[i as int]);
            return false;
        }
        assert(a@.subrange(0, i + 1) == a@.subrange(0, i as int).push(a@[i as int]));
        assert(b@.subrange(0, i + 1) == b@.subrange(0, i as int).push(b@[i as int]));
        i = i + 1;
    }
    assert(a@ == a@.subrange(0, n as int));
    assert(b@ == b@.subrange(0, n as int));
    true
}

/// The decimal text of one digit.
pub open spec fn digit_text(d: int) -> Seq<char> {
    if d == 0 {
        "0"@
    } else if d == 1 {
        "1"@
    } else if d == 2 {
        "2"@
    } else if d == 3 {
        "3"@
    } else if d == 4 {
        "4"@
    } else if d == 5 {
        "5"@
    } else if d == 6 {
        "6"@
    } else if d == 7 {
        "7"@
    } else if d == 8 {
        "8"@
    } else {
        "9"@
    }
}

/// The decimal text of a natural number, most significant digit first.
pub open spec fn nat_decimal(n: nat) -> Seq<char>
    decreases n,
{
    if n < 10 {
        digit_text(n as int)
    } else {
        nat_decimal(n / 10) + digit_text((n % 10) as int)
    }
}

/// The decimal text of an integer, with a leading `-` when it is negative.
pub open spec fn int_decimal(n: int) -> Seq<char> {
    if n < 0 {
        "-"@ + nat_decimal((-n) as nat)
    } else {
        nat_decimal(n as nat)
    }
}

/// True for the ten decimal digit characters.
pub open spec fn is_digit(c: char) -> bool {
    c == '0' || c == '1' || c == '2' || c == '3' || c == '4' || c == '5' || c == '6' || c == '7'
        || c == '8' || c == '9'
}

proof fn lemma_digit_text(d: int)
    requires
        0 <= d < 10,
    ensures
        digit_text(d).len() == 1,
        is_digit(digit_text(d)[0]),
        forall|e: int| 0 <= e < 10 && digit_text(e)[0] == digit_text(d)[0] ==> e == d,
{
    reveal_strlit("0");
    reveal_strlit("1");
    reveal_strlit("2");
    reveal_strlit("3");
    reveal_strlit("4");
    reveal_strlit("5");
    reveal_strlit("6");
    reveal_strlit("7");
    reveal_strlit("8");
    reveal_strlit("9");
}

/// The decimal text of a natural number is made of one or more digits, two
/// or more from ten on.
pub(crate) proof fn lemma_nat_decimal_digits(n: nat)
    ensures
        nat_decimal(n).len() >= 1,
        n >= 10 ==> nat_decimal(n).len() >= 2,
        forall|j: int| 0 <= j < nat_decimal(n).len() ==> is_digit(#[trigger] nat_decimal(n)[j]),
    decreases n,
{
    if n < 10 {
        lemma_digit_text(n as int);
    } else {
        lemma_nat_decimal_digits(n / 10);
        lemma_digit_text((n % 10) as int);
        let p = nat_decimal(n / 10);
        let q = digit_text((n % 10) as int);
        assert forall|j: int| 0 <= j < nat_decimal(n).len() implies is_digit(
            #[trigger] nat_decimal(n)[j],
        ) by {
            if j < p.len() {
                assert(nat_decimal(n)[j] == p[j]);
            } else {
                assert(nat_decimal(n)[j] == q[j - p.len()]);
            }
        }
    }
}

/// Different natural numbers have different decimal texts.
pub(crate) proof fn lemma_nat_decimal_injective(n: nat, m: nat)
    requires
        nat_decimal(n) == nat_decimal(m),
    ensures
        n == m,
    decreases n,
{
    lemma_nat_decimal_digits(n);
    lemma_nat_decimal_digits(m);
    let t = nat_decimal(n);
    if n < 10 && m < 10 {
        lemma_digit_text(n as int);
        lemma_digit_text(m as int);
    } else if n >= 10 && m >= 10 {
        let pn = nat_decimal(n / 10);
        let pm = nat_decimal(m / 10);
        lemma_digit_text((n % 10) as int);
        lemma_digit_text((m % 10) as int);
        assert(pn.len() == pm.len());
        assert(t[t.len() - 1] == digit_text((n % 10) as int)[0]);
        assert(t[t.len() - 1] == digit_text((m % 10) as int)[0]);
        assert(pn =~= t.take(pn.len() as int));
        assert(pm =~= t.take(pm.len() as int));
        lemma_nat_decimal_injective(n / 10, m / 10);
        assert(n % 10 == m % 10);
        assert(n == m) by (nonlinear_arith)
            requires
                n / 10 == m / 10,
                n % 10 == m % 10,
        {}
    } else if n < 10 {
        lemma_digit_text(n as int);
    } else {
        lemma_digit_text(m as int);
    }
}

/// Different integers have different decimal texts.
pub(crate) proof fn lemma_int_decimal_injective(n: int, m: int)
    requires
        int_decimal(n) == int_decimal(m),
    ensures
        n == m,
{
    reveal_strlit("-");
    if n < 0 {
        lemma_nat_decimal_digits((-n) as nat);
    } else {
        lemma_nat_decimal_digits(n as nat);
    }
    if m < 0 {
        lemma_nat_decimal_digits((-m) as nat);
    } else {
        lemma_nat_decimal_digits(m as nat);
    }
    if n < 0 && m < 0 {
        assert(nat_decimal((-n) as nat) =~= int_decimal(n).skip(1));
        assert(nat_decimal((-m) as nat) =~= int_decimal(m).skip(1));
        lemma_nat_decimal_injective((-n) as nat, (-m) as nat);
    } else if n >= 0 && m >= 0 {
        lemma_nat_decimal_injective(n as nat, m as nat);
    } else if n < 0 {
        assert(int_decimal(n)[0] == '-');
        assert(is_digit(nat_decimal(m as nat)[0]));
    } else {
        assert(int_decimal(m)[0] == '-');
        assert(is_digit(nat_decimal(n as nat)[0]));
    }
}

/// The decimal text of an integer is never empty and holds no comma.
pub(crate) proof fn lemma_int_decimal_plain(n: int)
    ensures
        int_decimal(n).len() > 0,
        forall|j: int| 0 <= j < int_decimal(n).len() ==> int_decimal(n)[j] != ',',
{
    reveal_strlit("-");
    let d: nat = if n < 0 { (-n) as nat } else { n as nat };
    lemma_nat_decimal_digits(d);
    assert forall|j: int| 0 <= j < int_decimal(n).len() implies int_decimal(n)[j] != ',' by {
        if n < 0 {
            if j > 0 {
                assert(int_decimal(n)[j] == nat_decimal(d)[j - 1]);
            }
        } else {
            assert(int_decimal(n)[j] == nat_decimal(d)[j]);
        }
    }
}

fn digit_str(d: u64) -> (r: &'static str)
    requires
        d < 10,
    ensures
        r@ == digit_text(d as int),
{
    if d == 0 {
        "0"
    } else if d == 1 {
        "1"
    } else if d == 2 {
        "2"
    } else if d == 3 {
        "3"
    } else if d == 4 {
        "4"
    } else if d == 5 {
        "5"
    } else if d == 6 {
        "6"
    } else if d == 7 {
        "7"
    } else if d == 8 {
        "8"
    } else {
        "9"
    }
}

/// Appends the decimal text of `n` to `out`.
pub fn push_nat_decimal(out: &mut String, n: u64)
    ensures
        final(out)@ == old(out)@ + nat_decimal(n as nat),
    decreases n,
{
    if n < 10 {
        out.append(digit_str(n));
    } else {
        push_nat_decimal(out, n / 10);
        out.append(digit_str(n % 10));
        assert(final(out)@ =~= old(out)@ + nat_decimal(n as nat));
    }
}

/// Appends the decimal text of `n` to `out`.
pub fn push_i32_decimal(out: &mut String, n: i32)
    ensures
        final(out)@ == old(out)@ + int_decimal(n as int),
{
    if n < 0 {
        out.append("-");
        let m: i64 = -(n as i64);
        push_nat_decimal(out, m as u64);
        assert(final(out)@ =~= old(out)@ + int_decimal(n as int));
    } else {
        push_nat_decimal(out, n as u64);
    }
}

/// The JSON string literal that encodes `s`, quotes and escapes included.
pub uninterp spec fn json_string_of(s: Seq<char>) -> Seq<char>;

/// Relies on `serde_json::to_string` applied to a `str`: it returns the JSON
/// string literal for the text. Writing a `str` into a growing buffer cannot
/// fail, so the error arm is never taken.
#[verifier::external_body]
pub(crate) fn json_string(s: &str) -> (r: String)
    ensures
        r@ == json_string_of(s@),
{
    match serde_json::to_string(s) {
        Ok(t) => t,
        Err(_) => String::new(),
    }
}

/// The text that `b` decodes to as UTF-8, each invalid sequence replaced by
/// U+FFFD.
pub uninterp spec fn lossy_text_of(b: Seq<u8>) -> Seq<char>;

/// Relies on `String::from_utf8_lossy`: the text of the bytes, with every
/// invalid sequence replaced by the replacement character.
#[verifier::external_body]
pub(crate) fn lossy_text(b: &[u8]) -> (r: String)
    ensures
        r@ == lossy_text_of(b@),
{
    String::from_utf8_lossy(b).into_owned()
}

/// `s` without its trailing whitespace.
pub uninterp spec fn trim_end_of(s: Seq<char>) -> Seq<char>;

/// Relies on `str::trim_end`: the text with its trailing whitespace removed,
/// which is a prefix of the text.
#[verifier::external_body]
pub(crate) fn trimmed_end(s: &str) -> (r: String)
    ensures
        r@ == trim_end_of(s@),
        r@.len() <= s@.len(),
        r@ == s@.take(r@.len() as int),
{
    s.trim_end().to_string()
}

} // verus!
