use vstd::prelude::*;

verus! {

/// The character that writes the decimal digit `d` (`0 <= d < 10`).
pub open spec fn digit_char(d: nat) -> char {
    if d == 0 {
        '0'
    } else if d == 1 {
        '1'
    } else if d == 2 {
        '2'
    } else if d == 3 {
        '3'
    } else if d == 4 {
        '4'
    } else if d == 5 {
        '5'
    } else if d == 6 {
        '6'
    } else if d == 7 {
        '7'
    } else if d == 8 {
        '8'
    } else {
        '9'
    }
}

/// Whether `c` is one of the ten decimal digit characters.
pub open spec fn is_digit_char(c: char) -> bool {
    c == '0' || c == '1' || c == '2' || c == '3' || c == '4' || c == '5' || c == '6' || c == '7'
        || c == '8' || c == '9'
}

/// The decimal text of a natural number, most significant digit first, without
/// leading zeros (as Rust's `Display` writes an unsigned integer).
pub open spec fn dec_nat(n: nat) -> Seq<char>
    decreases n,
{
    if n < 10 {
        seq![digit_char(n)]
    } else {
        dec_nat(n / 10).push(digit_char(n % 10))
    }
}

/// The decimal text of an integer: a `-` in front of negative values (as Rust's
/// `Display` writes a signed integer).
pub open spec fn dec_int(i: int) -> Seq<char> {
    if i < 0 {
        seq!['-'] + dec_nat((-i) as nat)
    } else {
        dec_nat(i as nat)
    }
}

/// The text of a boolean, as Rust's `Display` writes it.
pub open spec fn bool_text(b: bool) -> Seq<char> {
    if b {
        seq!['t', 'r', 'u', 'e']
    } else {
        seq!['f', 'a', 'l', 's', 'e']
    }
}

pub proof fn lemma_digit_char_injective(a: nat, b: nat)
    requires
        a < 10,
        b < 10,
        digit_char(a) == digit_char(b),
    ensures
        a == b,
{
}

pub proof fn lemma_dec_nat_digits(n: nat)
    ensures
        dec_nat(n).len() >= 1,
        forall|k: int| 0 <= k < dec_nat(n).len() ==> is_digit_char(#[trigger] dec_nat(n)[k]),
        n < 10 <==> dec_nat(n).len() == 1,
    decreases n,
{
    if n >= 10 {
        lemma_dec_nat_digits(n / 10);
    }
}

/// Different numbers have different decimal texts.
pub proof fn lemma_dec_nat_injective(a: nat, b: nat)
    requires
        dec_nat(a) == dec_nat(b),
    ensures
        a == b,
    decreases a,
{
    lemma_dec_nat_digits(a);
    lemma_dec_nat_digits(b);
    if a < 10 && b < 10 {
        assert(dec_nat(a) =~= seq![digit_char(a)]);
        assert(dec_nat(b) =~= seq![digit_char(b)]);
        assert(dec_nat(a)[0] == digit_char(a));
        assert(dec_nat(b)[0] == digit_char(b));
        lemma_digit_char_injective(a, b);
    } else if a >= 10 && b >= 10 {
        let sa = dec_nat(a);
        let sb = dec_nat(b);
        assert(sa.last() == sb.last());
        lemma_digit_char_injective(a % 10, b % 10);
        assert(sa.drop_last() =~= dec_nat(a / 10));
        assert(sb.drop_last() =~= dec_nat(b / 10));
        lemma_dec_nat_injective(a / 10, b / 10);
    }
}

/// Different integers have different decimal texts.
pub proof fn lemma_dec_int_injective(a: int, b: int)
    requires
        dec_int(a) == dec_int(b),
    ensures
        a == b,
{
    let na: nat = if a < 0 { (-a) as nat } else { a as nat };
    let nb: nat = if b < 0 { (-b) as nat } else { b as nat };
    lemma_dec_nat_digits(na);
    lemma_dec_nat_digits(nb);
    if a < 0 && b < 0 {
        assert(dec_int(a).drop_first() =~= dec_nat(na));
        assert(dec_int(b).drop_first() =~= dec_nat(nb));
        lemma_dec_nat_injective(na, nb);
    } else if a >= 0 && b >= 0 {
        lemma_dec_nat_injective(na, nb);
    } else if a < 0 {
        assert(dec_int(a)[0] == '-');
        assert(dec_int(b)[0] == dec_nat(nb)[0]);
        assert(is_digit_char(dec_nat(nb)[0]));
    } else {
        assert(dec_int(b)[0] == '-');
        assert(dec_int(a)[0] == dec_nat(na)[0]);
        assert(is_digit_char(dec_nat(na)[0]));
    }
}

/// The text of the digit `d`.
fn digit_text(d: u64) -> (r: &'static str)
    requires
        d < 10,
    ensures
        r@ == seq![digit_char(d as nat)],
{
    if d == 0 {
        proof { reveal_strlit("0"); }
        "0"
    } else if d == 1 {
        proof { reveal_strlit("1"); }
        "1"
    } else if d == 2 {
        proof { reveal_strlit("2"); }
        "2"
    } else if d == 3 {
        proof { reveal_strlit("3"); }
        "3"
    } else if d == 4 {
        proof { reveal_strlit("4"); }
        "4"
    } else if d == 5 {
        proof { reveal_strlit("5"); }
        "5"
    } else if d == 6 {
        proof { reveal_strlit("6"); }
        "6"
    } else if d == 7 {
        proof { reveal_strlit("7"); }
        "7"
    } else if d == 8 {
        proof { reveal_strlit("8"); }
        "8"
    } else {
        proof { reveal_strlit("9"); }
        "9"
    }
}

/// Appends the decimal text of `n` to `out`.
pub fn push_decimal(out: &mut String, n: u64)
    ensures
        final(out)@ == old(out)@ + dec_nat(n as nat),
    decreases n,
{
    if n >= 10 {
        push_decimal(out, n / 10);
    }
    let d = digit_text(n % 10);
    out.append(d);
    assert(out@ =~= old(out)@ + dec_nat(n as nat)) by {
        if n >= 10 {
            assert(dec_nat(n as nat) =~= dec_nat((n / 10) as nat) + seq![digit_char((n % 10) as nat)]);
        }
    }
}

/// Appends the decimal text of `i` (with a `-` when negative) to `out`.
pub fn push_signed_decimal(out: &mut String, i: i64)
    ensures
        final(out)@ == old(out)@ + dec_int(i as int),
{
    if i < 0 {
        let minus = "-";
        proof { reveal_strlit("-"); }
        out.append(minus);
        let magnitude: u64 = ((-(i + 1)) as u64) + 1;
        push_decimal(out, magnitude);
        assert(out@ =~= old(out)@ + dec_int(i as int));
    } else {
        push_decimal(out, i as u64);
    }
}

/// Appends the text of `b` (`true` or `false`) to `out`.
pub fn push_bool(out: &mut String, b: bool)
    ensures
        final(out)@ == old(out)@ + bool_text(b),
{
    if b {
        proof { reveal_strlit("true"); }
        out.append("true");
    } else {
        proof { reveal_strlit("false"); }
        out.append("false");
    }
}

} // verus!
