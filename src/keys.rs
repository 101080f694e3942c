//! Deterministic record identities derived from an integer index.

use vstd::prelude::*;
use vstd::string::*;

verus! {

/// The text that every record key starts with.
pub const KEY_PREFIX: &'static str = "test_key-";

/// The decimal digit character for `d`.
pub open spec fn digit_char(d: nat) -> char {
    if d == 0 {
        '0'
    } else if d == 1 {
        '1'
    } else if d == 2 {
        '2'
    } else if d == 3 {
        '3'
    } else if d == 4 {
        '4'
    } else if d == 5 {
        '5'
    } else if d == 6 {
        '6'
    } else if d == 7 {
        '7'
    } else if d == 8 {
        '8'
    } else {
        '9'
    }
}

/// The decimal notation of `n`, most significant digit first, no leading zeros.
pub open spec fn decimal(n: nat) -> Seq<char>
    decreases n,
{
    if n < 10 {
        seq![digit_char(n)]
    } else {
        decimal(n / 10) + seq![digit_char(n % 10)]
    }
}

/// The key of the record with index `i`.
pub open spec fn key_text(i: nat) -> Seq<char> {
    KEY_PREFIX@ + decimal(i)
}

/// The value of the record with index `i`.
pub open spec fn value_text(i: nat) -> Seq<char> {
    decimal(i)
}

proof fn lemma_decimal_len(n: nat)
    ensures
        decimal(n).len() >= 1,
        n < 10 <==> decimal(n).len() == 1,
    decreases n,
{
    if n >= 10 {
        lemma_decimal_len(n / 10);
    }
}

proof fn lemma_digit_injective(a: nat, b: nat)
    requires
        a < 10,
        b < 10,
        digit_char(a) == digit_char(b),
    ensures
        a == b,
{
}

proof fn lemma_decimal_injective(a: nat, b: nat)
    requires
        decimal(a) == decimal(b),
    ensures
        a == b,
    decreases a,
{
    lemma_decimal_len(a);
    lemma_decimal_len(b);
    if a < 10 {
        assert(b < 10);
        assert(decimal(a) == seq![digit_char(a)]);
        assert(decimal(b) == seq![digit_char(b)]);
        assert(seq![digit_char(a)][0] == digit_char(a));
        assert(seq![digit_char(b)][0] == digit_char(b));
        lemma_digit_injective(a, b);
    } else {
        let da = decimal(a);
        let db = decimal(b);
        assert(da[da.len() - 1] == digit_char(a % 10));
        assert(db[db.len() - 1] == digit_char(b % 10));
        assert(da.subrange(0, da.len() - 1) =~= decimal(a / 10));
        assert(db.subrange(0, db.len() - 1) =~= decimal(b / 10));
        lemma_digit_injective(a % 10, b % 10);
        lemma_decimal_injective(a / 10, b / 10);
        assert(a == 10 * (a / 10) + a % 10);
        assert(b == 10 * (b / 10) + b % 10);
    }
}

/// Distinct indices give distinct keys and distinct values.
pub proof fn identities_are_distinct(i: nat, j: nat)
    requires
        i != j,
    ensures
        key_text(i) != key_text(j),
        value_text(i) != value_text(j),
{
    if key_text(i) == key_text(j) {
        let n = KEY_PREFIX@.len();
        assert(key_text(i).subrange(n as int, key_text(i).len() as int) =~= decimal(i));
        assert(key_text(j).subrange(n as int, key_text(j).len() as int) =~= decimal(j));
        lemma_decimal_injective(i, j);
    }
    if value_text(i) == value_text(j) {
        lemma_decimal_injective(i, j);
    }
}

fn digit_str(d: usize) -> (r: &'static str)
    requires
        d < 10,
    ensures
        r@ == seq![digit_char(d as nat)],
{
    proof {
        reveal_strlit("0");
        reveal_strlit("1");
        reveal_strlit("2");
        reveal_strlit("3");
        reveal_strlit("4");
        reveal_strlit("5");
        reveal_strlit("6");
        reveal_strlit("7");
        reveal_strlit("8");
        reveal_strlit("9");
    }
    if d == 0 {
        "0"
    } else if d == 1 {
        "1"
    } else if d == 2 {
        "2"
    } else if d == 3 {
        "3"
    } else if d == 4 {
        "4"
    } else if d == 5 {
        "5"
    } else if d == 6 {
        "6"
    } else if d == 7 {
        "7"
    } else if d == 8 {
        "8"
    } else {
        "9"
    }
}

/// Appends the decimal notation of `n` to `s`.
fn push_decimal(s: &mut String, n: usize)
    ensures
        final(s)@ == old(s)@ + decimal(n as nat),
    decreases n,
{
    if n >= 10 {
        push_decimal(s, n / 10);
    }
    let d = digit_str(n % 10);
    s.append(d);
    proof {
        if n >= 10 {
            assert(decimal(n as nat) == decimal((n / 10) as nat) + seq![digit_char((n % 10) as nat)]);
        }
    }
    assert(final(s)@ =~= old(s)@ + decimal(n as nat));
}

/// The key of the record with index `i`: the prefix followed by `i` in decimal.
pub fn make_key(i: usize) -> (r: String)
    ensures
        r@ == key_text(i as nat),
{
    let mut s = String::from_str(KEY_PREFIX);
    push_decimal(&mut s, i);
    s
}

/// The value of the record with index `i`: `i` in decimal.
pub fn make_value(i: usize) -> (r: String)
    ensures
        r@ == value_text(i as nat),
{
    let mut s = String::new();
    push_decimal(&mut s, i);
    assert(s@ =~= value_text(i as nat));
    s
}

} // verus!
