use vstd::prelude::*;
use vstd::string::StringExecFns;

verus! {

/// The decimal digit `d` as a character.
pub open spec fn digit_char(d: int) -> char {
    if d == 0 {
        '0'
    } else if d == 1 {
        '1'
    } else if d == 2 {
        '2'
    } else if d == 3 {
        '3'
    } else if d == 4 {
        '4'
    } else if d == 5 {
        '5'
    } else if d == 6 {
        '6'
    } else if d == 7 {
        '7'
    } else if d == 8 {
        '8'
    } else {
        '9'
    }
}

/// Is `c` one of the ten decimal digit characters?
pub open spec fn is_dec_digit(c: char) -> bool {
    c == '0' || c == '1' || c == '2' || c == '3' || c == '4' || c == '5' || c == '6' || c == '7'
        || c == '8' || c == '9'
}

/// The decimal digits of `n`, most significant first.
pub open spec fn dec_nat(n: nat) -> Seq<char>
    decreases n,
{
    if n < 10 {
        seq![digit_char(n as int)]
    } else {
        dec_nat(n / 10).push(digit_char((n % 10) as int))
    }
}

/// The decimal rendering of a signed count: a leading '-' for negatives.
pub open spec fn dec_int(n: int) -> Seq<char> {
    if n >= 0 {
        dec_nat(n as nat)
    } else {
        seq!['-'].add(dec_nat((-n) as nat))
    }
}

/// Ten to the `k`.
pub open spec fn pow10(k: nat) -> nat
    decreases k,
{
    if k == 0 {
        1
    } else {
        10 * pow10((k - 1) as nat)
    }
}

/// Twenty decimal digits cover the whole range of `u64`.
pub proof fn lemma_pow10_20_covers_u64()
    ensures
        0xffff_ffff_ffff_ffffu64 < pow10(20),
{
    reveal_with_fuel(pow10, 21);
    assert(pow10(20) == 100000000000000000000nat);
}

/// A number below ten to the `k` renders to at most `k` digits.
pub proof fn lemma_dec_nat_len(n: nat, k: nat)
    requires
        n < pow10(k),
        k >= 1,
    ensures
        1 <= dec_nat(n).len() <= k,
    decreases k,
{
    if n < 10 {
    } else {
        assert(pow10(0) == 1);
        assert(pow10(1) == 10);
        assert(k >= 2);
        assert(n / 10 < pow10((k - 1) as nat)) by (nonlinear_arith)
            requires
                n < pow10(k),
                pow10(k) == 10 * pow10((k - 1) as nat),
                n >= 10,
        ;
        lemma_dec_nat_len(n / 10, (k - 1) as nat);
    }
}

/// Every character of a rendered natural number is a decimal digit.
pub proof fn lemma_dec_nat_digits(n: nat)
    ensures
        forall|i: int| 0 <= i < dec_nat(n).len() ==> is_dec_digit(#[trigger] dec_nat(n)[i]),
    decreases n,
{
    if n < 10 {
        assert(is_dec_digit(digit_char(n as int)));
    } else {
        lemma_dec_nat_digits(n / 10);
        assert forall|i: int| 0 <= i < dec_nat(n).len() implies is_dec_digit(
            #[trigger] dec_nat(n)[i],
        ) by {
            if i < dec_nat(n / 10).len() {
                assert(dec_nat(n)[i] == dec_nat(n / 10)[i]);
            } else {
                assert(dec_nat(n)[i] == digit_char((n % 10) as int));
            }
        }
    }
}

/// A rendered integer is never empty and never holds a space.
pub proof fn lemma_dec_int_shape(n: int)
    ensures
        dec_int(n).len() >= 1,
        forall|i: int| 0 <= i < dec_int(n).len() ==> #[trigger] dec_int(n)[i] != ' ',
{
    if n >= 0 {
        lemma_dec_nat_digits(n as nat);
    } else {
        lemma_dec_nat_digits((-n) as nat);
    }
}

/// The decimal digit `d` as a one-character string slice.
fn digit_str(d: u64) -> (r: &'static str)
    requires
        d < 10,
    ensures
        r@ == seq![digit_char(d as int)],
{
    let r: &'static str = if d == 0 {
        "0"
    } else if d == 1 {
        "1"
    } else if d == 2 {
        "2"
    } else if d == 3 {
        "3"
    } else if d == 4 {
        "4"
    } else if d == 5 {
        "5"
    } else if d == 6 {
        "6"
    } else if d == 7 {
        "7"
    } else if d == 8 {
        "8"
    } else {
        "9"
    };
    proof {
        reveal_strlit("0");
        reveal_strlit("1");
        reveal_strlit("2");
        reveal_strlit("3");
        reveal_strlit("4");
        reveal_strlit("5");
        reveal_strlit("6");
        reveal_strlit("7");
        reveal_strlit("8");
        reveal_strlit("9");
        assert(r@ =~= seq![digit_char(d as int)]);
    }
    r
}

/// Renders `n` in decimal.
pub fn u64_to_string(n: u64) -> (r: String)
    ensures
        r@ == dec_nat(n as nat),
    decreases n,
{
    if n < 10 {
        let r = digit_str(n).to_owned();
        proof {
            assert(r@ =~= dec_nat(n as nat));
        }
        r
    } else {
        let mut s = u64_to_string(n / 10);
        s.append(digit_str(n % 10));
        proof {
            assert((n / 10) as nat == (n as nat) / 10);
            assert((n % 10) as nat == (n as nat) % 10);
            assert(s@ =~= dec_nat(n as nat));
        }
        s
    }
}

/// The number of digits `n` renders to.
pub fn dec_len_u64(n: u64) -> (c: usize)
    ensures
        c == dec_nat(n as nat).len(),
        1 <= c <= 20,
    decreases n,
{
    proof {
        lemma_pow10_20_covers_u64();
        lemma_dec_nat_len(n as nat, 20);
    }
    if n < 10 {
        1
    } else {
        let c = dec_len_u64(n / 10);
        proof {
            assert((n / 10) as nat == (n as nat) / 10);
        }
        c + 1
    }
}

/// Renders a signed count in decimal.
pub fn i64_to_string(n: i64) -> (r: String)
    ensures
        r@ == dec_int(n as int),
{
    if n >= 0 {
        let r = u64_to_string(n as u64);
        proof {
            assert(r@ == dec_int(n as int));
        }
        r
    } else {
        let mag: u64 = if n == i64::MIN {
            9223372036854775808
        } else {
            (-n) as u64
        };
        proof {
            assert(mag as nat == (-(n as int)) as nat);
        }
        let mut s = "-".to_owned();
        let d = u64_to_string(mag);
        s.append(d.as_str());
        proof {
            reveal_strlit("-");
            assert(s@ =~= dec_int(n as int));
        }
        s
    }
}

/// The number of characters a signed count renders to.
pub fn dec_len_i64(n: i64) -> (c: usize)
    ensures
        c == dec_int(n as int).len(),
        1 <= c <= 21,
{
    if n >= 0 {
        dec_len_u64(n as u64)
    } else {
        let mag: u64 = if n == i64::MIN {
            9223372036854775808
        } else {
            (-n) as u64
        };
        proof {
            assert(mag as nat == (-(n as int)) as nat);
        }
        1 + dec_len_u64(mag)
    }
}

/// `n` spaces.
pub open spec fn spaces(n: nat) -> Seq<char> {
    Seq::new(n, |i: int| ' ')
}

/// `s` left-justified in a field of ten characters: shorter sequences get
/// trailing spaces, longer ones pass unchanged.
pub open spec fn pad10(s: Seq<char>) -> Seq<char> {
    if s.len() >= 10 {
        s
    } else {
        s.add(spaces((10 - s.len()) as nat))
    }
}

/// Left-justifies `s`, whose character count is `len`, in a ten-character
/// field.
pub fn pad_to_10(s: String, len: usize) -> (r: String)
    requires
        len == s@.len(),
    ensures
        r@ == pad10(s@),
{
    let ghost orig: Seq<char> = s@;
    let mut r = s;
    let mut k = len;
    proof {
        assert(orig.add(spaces(0)) =~= orig);
    }
    while k < 10
        invariant
            len <= k,
            len < 10 ==> k <= 10,
            len >= 10 ==> k == len,
            orig.len() == len,
            r@ == orig.add(spaces((k - len) as nat)),
        decreases 10 - k,
    {
        r.append(" ");
        proof {
            reveal_strlit(" ");
            assert(r@ =~= orig.add(spaces((k + 1 - len) as nat)));
        }
        k = k + 1;
    }
    proof {
        assert(r@ =~= pad10(orig));
    }
    r
}

/// `n` in decimal, left-justified in a ten-character field.
pub fn field_10(n: i64) -> (r: String)
    ensures
        r@ == pad10(dec_int(n as int)),
{
    let s = i64_to_string(n);
    let len = dec_len_i64(n);
    pad_to_10(s, len)
}

} // verus!
