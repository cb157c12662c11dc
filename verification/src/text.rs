//! Decimal numerals and the names of numbered placeholders.

use vstd::prelude::*;

verus! {

/// The character of a decimal digit.
pub open spec fn digit(d: nat) -> char {
    if d == 0 {
        '0'
    } else if d == 1 {
        '1'
    } else if d == 2 {
        '2'
    } else if d == 3 {
        '3'
    } else if d == 4 {
        '4'
    } else if d == 5 {
        '5'
    } else if d == 6 {
        '6'
    } else if d == 7 {
        '7'
    } else if d == 8 {
        '8'
    } else {
        '9'
    }
}

/// The decimal numeral of `n`, without leading zeros.
pub open spec fn decimal(n: nat) -> Seq<char>
    decreases n,
{
    if n < 10 {
        seq![digit(n)]
    } else {
        decimal(n / 10).push(digit(n % 10))
    }
}

/// The name of the `n`-th numbered placeholder: a colon and the numeral of `n`.
pub open spec fn placeholder_name(n: nat) -> Seq<char> {
    seq![':'] + decimal(n)
}

/// The names of `count` numbered placeholders, the first of them number `after + 1`.
pub open spec fn numbered_names(after: nat, count: nat) -> Seq<Seq<char>> {
    Seq::new(count, |i: int| placeholder_name((after + i + 1) as nat))
}

/// A numeral has at least one character, and all of them are digits.
pub proof fn lemma_decimal_digits(n: nat)
    ensures
        decimal(n).len() >= 1,
        forall|i: int| 0 <= i < decimal(n).len() ==> '0' <= #[trigger] decimal(n)[i] <= '9',
        n >= 10 ==> decimal(n).len() >= 2,
    decreases n,
{
    if n >= 10 {
        lemma_decimal_digits(n / 10);
    }
}

/// Different numbers have different numerals.
pub proof fn lemma_decimal_injective(a: nat, b: nat)
    requires
        decimal(a) == decimal(b),
    ensures
        a == b,
    decreases a,
{
    lemma_decimal_digits(a);
    lemma_decimal_digits(b);
    if a < 10 || b < 10 {
        assert(decimal(a).len() == 1 || decimal(b).len() == 1);
        assert(a < 10 && b < 10);
        assert(decimal(a)[0] == digit(a));
        assert(decimal(b)[0] == digit(b));
    } else {
        let da = decimal(a / 10);
        let db = decimal(b / 10);
        assert(decimal(a).last() == digit(a % 10));
        assert(decimal(b).last() == digit(b % 10));
        assert(decimal(a).drop_last() =~= da);
        assert(decimal(b).drop_last() =~= db);
        lemma_decimal_injective(a / 10, b / 10);
    }
}

/// Different numbers give different placeholder names.
pub proof fn lemma_placeholder_name_injective(a: nat, b: nat)
    requires
        placeholder_name(a) == placeholder_name(b),
    ensures
        a == b,
{
    assert(placeholder_name(a).subrange(1, placeholder_name(a).len() as int) =~= decimal(a));
    assert(placeholder_name(b).subrange(1, placeholder_name(b).len() as int) =~= decimal(b));
    lemma_decimal_injective(a, b);
}

/// The literal of one decimal digit.
fn digit_str(d: u128) -> (text: &'static str)
    requires
        d < 10,
    ensures
        text@ == seq![digit(d as nat)],
{
    proof {
        reveal_strlit("0");
        reveal_strlit("1");
        reveal_strlit("2");
        reveal_strlit("3");
        reveal_strlit("4");
        reveal_strlit("5");
        reveal_strlit("6");
        reveal_strlit("7");
        reveal_strlit("8");
        reveal_strlit("9");
    }
    let text = if d == 0 {
        "0"
    } else if d == 1 {
        "1"
    } else if d == 2 {
        "2"
    } else if d == 3 {
        "3"
    } else if d == 4 {
        "4"
    } else if d == 5 {
        "5"
    } else if d == 6 {
        "6"
    } else if d == 7 {
        "7"
    } else if d == 8 {
        "8"
    } else {
        "9"
    };
    assert(text@ =~= seq![digit(d as nat)]);
    text
}

/// Appends the decimal numeral of `n` to `out`.
pub fn push_decimal(out: &mut String, n: u128)
    ensures
        final(out)@ == old(out)@ + decimal(n as nat),
    decreases n,
{
    if n >= 10 {
        push_decimal(out, n / 10);
    }
    out.append(digit_str(n % 10));
    assert(out@ =~= old(out)@ + decimal(n as nat));
}

/// The name of the `n`-th numbered placeholder.
pub fn numbered_placeholder(n: u128) -> (name: String)
    ensures
        name@ == placeholder_name(n as nat),
{
    let mut name = String::from_str(":");
    proof {
        reveal_strlit(":");
    }
    push_decimal(&mut name, n);
    assert(name@ =~= placeholder_name(n as nat));
    name
}

} // verus!
