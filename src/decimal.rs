use vstd::prelude::*;

verus! {

/// The ten decimal digits, in order of value.
pub const DIGITS: &'static str = "0123456789";

/// The character that writes the digit `d` (below ten).
pub open spec fn digit_char(d: nat) -> char {
    DIGITS@[d as int]
}

/// The decimal digits of `n`, most significant first, with no leading zero.
pub open spec fn decimal_digits(n: nat) -> Seq<char>
    decreases n,
{
    if n < 10 {
        seq![digit_char(n)]
    } else {
        decimal_digits(n / 10).push(digit_char(n % 10))
    }
}

/// `n` written in decimal, with a leading `-` when it is negative.
pub open spec fn decimal(n: int) -> Seq<char> {
    if n < 0 {
        seq!['-'] + decimal_digits((-n) as nat)
    } else {
        decimal_digits(n as nat)
    }
}

proof fn lemma_digit_chars()
    ensures
        DIGITS@ == seq!['0', '1', '2', '3', '4', '5', '6', '7', '8', '9'],
{
    reveal_strlit("0123456789");
    assert(DIGITS@ =~= seq!['0', '1', '2', '3', '4', '5', '6', '7', '8', '9']);
}

proof fn lemma_digit_char_injective(a: nat, b: nat)
    requires
        a < 10,
        b < 10,
        digit_char(a) == digit_char(b),
    ensures
        a == b,
{
    lemma_digit_chars();
}

proof fn lemma_digit_char_not_minus(a: nat)
    requires
        a < 10,
    ensures
        digit_char(a) != '-',
{
    lemma_digit_chars();
}

proof fn lemma_decimal_digits_len(n: nat)
    ensures
        decimal_digits(n).len() >= 1,
        n >= 10 ==> decimal_digits(n).len() >= 2,
    decreases n,
{
    if n >= 10 {
        lemma_decimal_digits_len(n / 10);
    }
}

proof fn lemma_decimal_digits_no_minus(n: nat)
    ensures
        decimal_digits(n)[0] != '-',
    decreases n,
{
    lemma_decimal_digits_len(n);
    if n < 10 {
        lemma_digit_char_not_minus(n);
    } else {
        lemma_decimal_digits_no_minus(n / 10);
        lemma_decimal_digits_len(n / 10);
    }
}

/// Two naturals with the same decimal digits are equal.
pub proof fn lemma_decimal_digits_injective(a: nat, b: nat)
    requires
        decimal_digits(a) == decimal_digits(b),
    ensures
        a == b,
    decreases a,
{
    lemma_decimal_digits_len(a);
    lemma_decimal_digits_len(b);
    let da = decimal_digits(a);
    if a < 10 && b < 10 {
        assert(da[0] == digit_char(a));
        assert(decimal_digits(b)[0] == digit_char(b));
        lemma_digit_char_injective(a, b);
    } else if a >= 10 && b >= 10 {
        lemma_decimal_digits_len(a / 10);
        lemma_decimal_digits_len(b / 10);
        assert(da.last() == digit_char(a % 10));
        assert(decimal_digits(b).last() == digit_char(b % 10));
        lemma_digit_char_injective(a % 10, b % 10);
        assert(decimal_digits(a / 10) =~= da.drop_last());
        assert(decimal_digits(b / 10) =~= decimal_digits(b).drop_last());
        lemma_decimal_digits_injective(a / 10, b / 10);
    }
}

/// Two integers with the same decimal writing are equal.
pub proof fn lemma_decimal_injective(a: int, b: int)
    requires
        decimal(a) == decimal(b),
    ensures
        a == b,
{
    if a < 0 && b < 0 {
        let (ma, mb) = ((-a) as nat, (-b) as nat);
        assert(decimal_digits(ma) =~= decimal(a).subrange(1, decimal(a).len() as int));
        assert(decimal_digits(mb) =~= decimal(b).subrange(1, decimal(b).len() as int));
        lemma_decimal_digits_injective(ma, mb);
    } else if a >= 0 && b >= 0 {
        lemma_decimal_digits_injective(a as nat, b as nat);
    } else if a < 0 {
        lemma_decimal_digits_no_minus(b as nat);
        assert(decimal(a)[0] == '-');
    } else {
        lemma_decimal_digits_no_minus(a as nat);
        assert(decimal(b)[0] == '-');
    }
}

/// The digit `d` as a one-character string.
fn digit_str(d: u64) -> (r: &'static str)
    requires
        d < 10,
    ensures
        r@ == seq![digit_char(d as nat)],
{
    proof {
        lemma_digit_chars();
    }
    let r = DIGITS.substring_char(d as usize, d as usize + 1);
    assert(r@ =~= seq![digit_char(d as nat)]);
    r
}

/// The decimal digits of `n`.
pub fn digits_of(n: u64) -> (r: String)
    ensures
        r@ == decimal_digits(n as nat),
    decreases n,
{
    if n < 10 {
        String::from_str(digit_str(n))
    } else {
        let mut s = digits_of(n / 10);
        s.append(digit_str(n % 10));
        s
    }
}

/// `n` written in decimal, as `i64`'s `Display` writes it.
pub fn decimal_of(n: i64) -> (r: String)
    ensures
        r@ == decimal(n as int),
{
    if n < 0 {
        let magnitude: u64 = (-(n as i128)) as u64;
        let mut s = String::from_str("-");
        proof {
            reveal_strlit("-");
        }
        s.append(digits_of(magnitude).as_str());
        assert(s@ =~= decimal(n as int));
        s
    } else {
        digits_of(n as u64)
    }
}

} // verus!
