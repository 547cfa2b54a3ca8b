//! Amounts of money, fractions, and how they are written out.

use vstd::prelude::*;
use vstd::string::*;

verus! {

/// An amount of money in nano-dollars: one US dollar is `1_000_000_000`.
pub type NanoUsd = i128;

/// A fraction in billionths: `1_000_000_000` is the whole.
pub type Billionths = i64;

/// One, in billionths.
pub const WHOLE: i64 = 1_000_000_000;

/// The whole micro-dollars nearest to an amount, halves going up, held to what
/// a 64-bit counter can store: nothing below zero, nothing above `u64::MAX`.
pub open spec fn micros_of(usd: int) -> nat {
    if usd <= 0 {
        0
    } else if (usd + 500) / 1000 > u64::MAX {
        u64::MAX as nat
    } else {
        ((usd + 500) / 1000) as nat
    }
}

/// The amount that a count of micro-dollars stands for.
pub open spec fn nanos_of(micros: nat) -> int {
    micros as int * 1000
}

/// Rounds an amount to whole micro-dollars.
pub fn usd_to_micros(usd: NanoUsd) -> (micros: u64)
    ensures
        micros == micros_of(usd as int),
{
    if usd <= 0 {
        return 0;
    }
    let nanos: u128 = usd as u128;
    let whole: u128 = nanos / 1000;
    let rounded: u128 = if nanos % 1000 >= 500 {
        whole + 1
    } else {
        whole
    };
    if rounded > u64::MAX as u128 {
        u64::MAX
    } else {
        rounded as u64
    }
}

/// The amount that a count of micro-dollars stands for.
pub fn micros_to_usd(micros: u64) -> (usd: NanoUsd)
    ensures
        usd == nanos_of(micros as nat),
{
    micros as i128 * 1000
}

/// Law: an amount rounds to the nearest micro-dollar, halves going up; nothing
/// below zero counts, and what is beyond the counter is held at its end. A
/// micro-dollar is a thousand nano-dollars.
pub proof fn law_nearest_micro_dollar(usd: int, micros: nat)
    ensures
        usd <= 0 ==> micros_of(usd) == 0,
        0 < usd < 1000 * u64::MAX + 500 ==> 1000 * micros_of(usd) - 500 <= usd < 1000
            * micros_of(usd) + 500,
        1000 * u64::MAX + 500 <= usd ==> micros_of(usd) == u64::MAX,
        nanos_of(micros) == 1000 * micros,
{
}

/// Law: whole micro-dollars survive the way to an amount and back.
pub proof fn law_micros_round_trip(micros: u64)
    ensures
        micros_of(nanos_of(micros as nat)) == micros,
{
}

/// Law: rounding moves an amount that a counter can hold by at most half a
/// micro-dollar.
pub proof fn law_rounding_error(usd: int)
    requires
        0 <= usd,
        usd <= nanos_of(u64::MAX as nat),
    ensures
        -500 <= nanos_of(micros_of(usd)) - usd <= 500,
{
}

/// Law: a larger amount never rounds to fewer micro-dollars.
pub proof fn law_rounding_monotone(a: int, b: int)
    requires
        a <= b,
    ensures
        micros_of(a) <= micros_of(b),
{
}

/// The decimal digit for a number below ten.
pub open spec fn digit(d: nat) -> char {
    if d == 0 {
        '0'
    } else if d == 1 {
        '1'
    } else if d == 2 {
        '2'
    } else if d == 3 {
        '3'
    } else if d == 4 {
        '4'
    } else if d == 5 {
        '5'
    } else if d == 6 {
        '6'
    } else if d == 7 {
        '7'
    } else if d == 8 {
        '8'
    } else {
        '9'
    }
}

/// A number in decimal notation, without leading zeros.
pub open spec fn decimal(n: nat) -> Seq<char>
    decreases n,
{
    if n < 10 {
        seq![digit(n)]
    } else {
        decimal(n / 10).push(digit(n % 10))
    }
}

/// The last `width` decimal digits of a number.
pub open spec fn padded(n: nat, width: nat) -> Seq<char>
    decreases width,
{
    if width == 0 {
        Seq::empty()
    } else {
        padded(n / 10, (width - 1) as nat).push(digit(n % 10))
    }
}

/// The first `width` digits behind the point of `n / 10^width`, without the
/// zeros at their end.
pub open spec fn trimmed(n: nat, width: nat) -> Seq<char>
    decreases width,
{
    if width > 0 && n % 10 == 0 {
        trimmed(n / 10, (width - 1) as nat)
    } else {
        padded(n, width)
    }
}

/// The magnitude of a number.
pub open spec fn magnitude(n: int) -> nat {
    if n < 0 {
        -n as nat
    } else {
        n as nat
    }
}

/// The micro-dollars nearest to a count of nano-dollars, halves going to the
/// even neighbour.
pub open spec fn nearest_even_micro(nanos: nat) -> nat {
    let whole = nanos / 1000;
    let rest = nanos % 1000;
    if rest > 500 || (rest == 500 && whole % 2 == 1) {
        whole + 1
    } else {
        whole
    }
}

/// A minus sign for a number below zero.
pub open spec fn sign(n: int) -> Seq<char> {
    if n < 0 {
        "-"@
    } else {
        Seq::empty()
    }
}

/// An amount in dollars with six digits behind the point.
pub open spec fn usd_text(usd: int) -> Seq<char> {
    let micros = nearest_even_micro(magnitude(usd));
    sign(usd) + decimal(micros / 1_000_000) + "."@ + padded(micros % 1_000_000, 6)
}

/// A fraction as a decimal number with as many digits as it needs.
pub open spec fn fraction_text(fraction: int) -> Seq<char> {
    let m = magnitude(fraction);
    let whole = sign(fraction) + decimal(m / 1_000_000_000);
    if m % 1_000_000_000 == 0 {
        whole
    } else {
        whole + "."@ + trimmed(m % 1_000_000_000, 9)
    }
}

/// Whether every character is a decimal digit.
pub open spec fn all_digits(text: Seq<char>) -> bool {
    forall|i: int| 0 <= i < text.len() ==> '0' <= #[trigger] text[i] <= '9'
}

/// The number that a sequence of decimal digits reads as.
pub open spec fn number_in(text: Seq<char>) -> int
    decreases text.len(),
{
    if text.len() == 0 {
        0
    } else {
        10 * number_in(text.drop_last()) + (text.last() as int - '0' as int)
    }
}

/// Ten to a power.
pub open spec fn power_of_ten(exponent: nat) -> int
    decreases exponent,
{
    if exponent == 0 {
        1
    } else {
        10 * power_of_ten((exponent - 1) as nat)
    }
}

/// Whether a text has a minus sign if a number is below zero, then digits before a
/// point, and digits behind it.
pub open spec fn is_number(
    text: Seq<char>,
    number: int,
    before: Seq<char>,
    behind: Seq<char>,
) -> bool {
    &&& text == (if number < 0 {
        seq!['-']
    } else {
        Seq::empty()
    }) + before + (if behind.len() == 0 {
        Seq::empty()
    } else {
        seq!['.'] + behind
    })
    &&& all_digits(before)
    &&& all_digits(behind)
    &&& before.len() > 0
    &&& before.len() > 1 ==> before[0] != '0'
}

proof fn lemma_number_push(text: Seq<char>, d: nat)
    requires
        d < 10,
        all_digits(text),
    ensures
        number_in(text.push(digit(d))) == 10 * number_in(text) + d,
        all_digits(text.push(digit(d))),
        digit(d) == '0' <==> d == 0,
{
    assert(text.push(digit(d)).drop_last() =~= text);
    assert(digit(d) as int == '0' as int + d);
}

proof fn lemma_decimal_reads(n: nat)
    ensures
        number_in(decimal(n)) == n,
        all_digits(decimal(n)),
        decimal(n).len() > 0,
        n > 0 ==> decimal(n)[0] != '0',
        decimal(n).len() > 1 ==> decimal(n)[0] != '0',
    decreases n,
{
    if n < 10 {
        lemma_number_push(Seq::empty(), n);
        assert(Seq::<char>::empty().push(digit(n)) =~= seq![digit(n)]);
    } else {
        lemma_decimal_reads(n / 10);
        lemma_number_push(decimal(n / 10), n % 10);
    }
}

proof fn lemma_padded_reads(n: nat, width: nat)
    requires
        n < power_of_ten(width),
    ensures
        number_in(padded(n, width)) == n,
        all_digits(padded(n, width)),
        padded(n, width).len() == width,
        width > 0 && n % 10 != 0 ==> padded(n, width).last() != '0',
    decreases width,
{
    if width > 0 {
        lemma_padded_reads(n / 10, (width - 1) as nat);
        lemma_number_push(padded(n / 10, (width - 1) as nat), n % 10);
    }
}

proof fn lemma_trimmed_reads(n: nat, width: nat)
    requires
        0 < n < power_of_ten(width),
    ensures
        all_digits(trimmed(n, width)),
        0 < trimmed(n, width).len() <= width,
        trimmed(n, width).last() != '0',
        number_in(trimmed(n, width)) * power_of_ten((width - trimmed(n, width).len()) as nat) == n,
    decreases width,
{
    if width > 0 && n % 10 == 0 {
        let rest = trimmed(n / 10, (width - 1) as nat);
        lemma_trimmed_reads(n / 10, (width - 1) as nat);
        let (a, p) = (number_in(rest), power_of_ten((width - 1 - rest.len()) as nat));
        assert(a * (10 * p) == 10 * (a * p)) by (nonlinear_arith);
    } else {
        lemma_padded_reads(n, width);
    }
}

/// Law: an amount that is written out has a minus sign exactly if it is below
/// zero, six digits behind the point, and reads as the nearest micro-dollar,
/// halves going to the even one.
pub proof fn law_written_amount_reads_back(usd: int)
    ensures
        exists|before: Seq<char>, behind: Seq<char>|
            {
                let micros = number_in(before) * 1_000_000 + number_in(behind);
                let size = if usd < 0 {
                    -usd
                } else {
                    usd
                };
                &&& #[trigger] is_number(usd_text(usd), usd, before, behind)
                &&& behind.len() == 6
                &&& -500 <= 1000 * micros - size <= 500
                &&& 1000 * micros - size == 500 || 1000 * micros - size == -500 ==> micros % 2 == 0
            },
{
    reveal_strlit("-");
    reveal_strlit(".");
    reveal_with_fuel(power_of_ten, 7);
    let micros = nearest_even_micro(magnitude(usd));
    let before = decimal(micros / 1_000_000);
    let behind = padded(micros % 1_000_000, 6);
    lemma_decimal_reads(micros / 1_000_000);
    lemma_padded_reads(micros % 1_000_000, 6);
    assert("-"@ =~= seq!['-']);
    assert("."@ =~= seq!['.']);
    assert(usd_text(usd) =~= (if usd < 0 {
        seq!['-']
    } else {
        Seq::empty()
    }) + before + (seq!['.'] + behind));
    assert(is_number(usd_text(usd), usd, before, behind));
}

/// Law: a fraction that is written out has a minus sign exactly if it is below
/// zero, at most nine digits behind the point, of which the last is not zero, and
/// reads as exactly that fraction.
pub proof fn law_written_fraction_reads_back(fraction: int)
    ensures
        exists|before: Seq<char>, behind: Seq<char>|
            {
                &&& #[trigger] is_number(fraction_text(fraction), fraction, before, behind)
                &&& behind.len() <= 9
                &&& behind.len() > 0 ==> behind.last() != '0'
                &&& number_in(before) * 1_000_000_000 + number_in(behind) * power_of_ten(
                    (9 - behind.len()) as nat,
                ) == (if fraction < 0 {
                    -fraction
                } else {
                    fraction
                })
            },
{
    reveal_strlit("-");
    reveal_strlit(".");
    reveal_with_fuel(power_of_ten, 10);
    let m = magnitude(fraction);
    let before = decimal(m / 1_000_000_000);
    lemma_decimal_reads(m / 1_000_000_000);
    assert("-"@ =~= seq!['-']);
    assert("."@ =~= seq!['.']);
    let sign_text = if fraction < 0 {
        seq!['-']
    } else {
        Seq::<char>::empty()
    };
    if m % 1_000_000_000 == 0 {
        let behind = Seq::<char>::empty();
        assert(fraction_text(fraction) =~= sign_text + before + Seq::<char>::empty());
        assert(number_in(behind) == 0);
        assert(is_number(fraction_text(fraction), fraction, before, behind));
    } else {
        let behind = trimmed(m % 1_000_000_000, 9);
        lemma_trimmed_reads(m % 1_000_000_000, 9);
        assert(fraction_text(fraction) =~= sign_text + before + (seq!['.'] + behind));
        assert(is_number(fraction_text(fraction), fraction, before, behind));
    }
}

fn append_digit(out: &mut String, d: u128)
    requires
        d < 10,
    ensures
        final(out)@ == old(out)@.push(digit(d as nat)),
{
    proof {
        reveal_strlit("0");
        reveal_strlit("1");
        reveal_strlit("2");
        reveal_strlit("3");
        reveal_strlit("4");
        reveal_strlit("5");
        reveal_strlit("6");
        reveal_strlit("7");
        reveal_strlit("8");
        reveal_strlit("9");
    }
    if d == 0 {
        out.append("0");
    } else if d == 1 {
        out.append("1");
    } else if d == 2 {
        out.append("2");
    } else if d == 3 {
        out.append("3");
    } else if d == 4 {
        out.append("4");
    } else if d == 5 {
        out.append("5");
    } else if d == 6 {
        out.append("6");
    } else if d == 7 {
        out.append("7");
    } else if d == 8 {
        out.append("8");
    } else {
        out.append("9");
    }
}

fn append_decimal(out: &mut String, n: u128)
    ensures
        final(out)@ == old(out)@ + decimal(n as nat),
    decreases n,
{
    if n >= 10 {
        append_decimal(out, n / 10);
    }
    append_digit(out, n % 10);
}

fn append_padded(out: &mut String, n: u128, width: u8)
    ensures
        final(out)@ == old(out)@ + padded(n as nat, width as nat),
    decreases width,
{
    if width > 0 {
        append_padded(out, n / 10, width - 1);
        append_digit(out, n % 10);
    }
}

fn append_trimmed(out: &mut String, n: u128, width: u8)
    ensures
        final(out)@ == old(out)@ + trimmed(n as nat, width as nat),
    decreases width,
{
    if width > 0 && n % 10 == 0 {
        append_trimmed(out, n / 10, width - 1);
    } else {
        append_padded(out, n, width);
    }
}

fn append_sign(out: &mut String, n: i128)
    ensures
        final(out)@ == old(out)@ + sign(n as int),
{
    if n < 0 {
        out.append("-");
    }
}

fn size_of_amount(n: i128) -> (m: u128)
    ensures
        m == magnitude(n as int),
{
    if n < 0 {
        (-(n + 1)) as u128 + 1
    } else {
        n as u128
    }
}

/// Appends an amount in dollars with six digits behind the point.
pub fn append_usd(out: &mut String, usd: NanoUsd)
    ensures
        final(out)@ == old(out)@ + usd_text(usd as int),
{
    let nanos: u128 = size_of_amount(usd);
    let whole: u128 = nanos / 1000;
    let rest: u128 = nanos % 1000;
    let micros: u128 = if rest > 500 || (rest == 500 && whole % 2 == 1) {
        whole + 1
    } else {
        whole
    };
    append_sign(out, usd);
    append_decimal(out, micros / 1_000_000);
    out.append(".");
    append_padded(out, micros % 1_000_000, 6);
}

/// Appends a fraction as a decimal number.
pub fn append_fraction(out: &mut String, fraction: Billionths)
    ensures
        final(out)@ == old(out)@ + fraction_text(fraction as int),
{
    let m: u128 = size_of_amount(fraction as i128);
    append_sign(out, fraction as i128);
    append_decimal(out, m / 1_000_000_000);
    if m % 1_000_000_000 != 0 {
        out.append(".");
        append_trimmed(out, m % 1_000_000_000, 9);
    }
}

} // verus!
