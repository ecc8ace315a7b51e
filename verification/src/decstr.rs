//! Decimal rendering of integers, and store-assigned record identifiers.
//!
//! The store hands every new record an identifier `<table>:<n>` built from a
//! monotonic counter, and surfaces stored integer timestamps to callers as
//! their decimal string. Both are specified by `dec_chars`, whose injectivity
//! is what makes store-assigned identifiers unique per collection.

use vstd::prelude::*;

verus! {

use vstd::string::StringExecFns;

/// The character for a single decimal digit.
pub open spec fn digit_char(d: nat) -> char {
    if d == 0 {
        '0'
    } else if d == 1 {
        '1'
    } else if d == 2 {
        '2'
    } else if d == 3 {
        '3'
    } else if d == 4 {
        '4'
    } else if d == 5 {
        '5'
    } else if d == 6 {
        '6'
    } else if d == 7 {
        '7'
    } else if d == 8 {
        '8'
    } else {
        '9'
    }
}

/// The numeric value of a decimal digit character (10 for a non-digit).
pub open spec fn char_digit(c: char) -> nat {
    if c == '0' {
        0
    } else if c == '1' {
        1
    } else if c == '2' {
        2
    } else if c == '3' {
        3
    } else if c == '4' {
        4
    } else if c == '5' {
        5
    } else if c == '6' {
        6
    } else if c == '7' {
        7
    } else if c == '8' {
        8
    } else if c == '9' {
        9
    } else {
        10
    }
}

/// Decimal representation of a natural number, most significant digit first.
pub open spec fn dec_chars(n: nat) -> Seq<char>
    decreases n,
{
    if n < 10 {
        seq![digit_char(n)]
    } else {
        dec_chars(n / 10) + seq![digit_char(n % 10)]
    }
}

/// Decimal representation of a signed number: a leading '-' for negatives.
pub open spec fn dec_chars_int(n: int) -> Seq<char> {
    if n >= 0 {
        dec_chars(n as nat)
    } else {
        seq!['-'] + dec_chars((-n) as nat)
    }
}

/// The value a digit string denotes, read most significant digit first.
pub open spec fn dec_val(s: Seq<char>) -> nat
    decreases s.len(),
{
    if s.len() == 0 {
        0
    } else {
        dec_val(s.drop_last()) * 10 + char_digit(s.last())
    }
}

/// Reading back the decimal representation recovers the number.
pub proof fn lemma_dec_chars_val(n: nat)
    ensures
        dec_val(dec_chars(n)) == n,
    decreases n,
{
    if n < 10 {
        let s = dec_chars(n);
        assert(s.drop_last() =~= Seq::<char>::empty());
        assert(dec_val(Seq::<char>::empty()) == 0);
        assert(dec_val(s) == dec_val(s.drop_last()) * 10 + char_digit(s.last()));
        assert(char_digit(digit_char(n)) == n);
    } else {
        lemma_dec_chars_val(n / 10);
        let s = dec_chars(n);
        assert(s.drop_last() =~= dec_chars(n / 10));
        assert(s.last() == digit_char(n % 10));
        assert(char_digit(digit_char(n % 10)) == n % 10);
        assert((n / 10) * 10 + n % 10 == n) by {
            vstd::arithmetic::div_mod::lemma_fundamental_div_mod(n as int, 10);
        }
    }
}

/// Distinct numbers have distinct decimal representations.
pub proof fn lemma_dec_chars_injective(a: nat, b: nat)
    ensures
        dec_chars(a) == dec_chars(b) ==> a == b,
{
    if dec_chars(a) == dec_chars(b) {
        lemma_dec_chars_val(a);
        lemma_dec_chars_val(b);
    }
}

/// The identifier the store assigns to the `n`-th record of a collection.
pub open spec fn id_chars(table: Seq<char>, n: nat) -> Seq<char> {
    table + seq![':'] + dec_chars(n)
}

/// Within one collection, the assigned identifier determines the counter.
pub proof fn lemma_id_chars_injective(table: Seq<char>, n1: nat, n2: nat)
    ensures
        id_chars(table, n1) == id_chars(table, n2) ==> n1 == n2,
{
    if id_chars(table, n1) == id_chars(table, n2) {
        let s1 = id_chars(table, n1);
        let s2 = id_chars(table, n2);
        assert(dec_chars(n1) =~= s1.subrange(table.len() + 1 as int, s1.len() as int));
        assert(dec_chars(n2) =~= s2.subrange(table.len() + 1 as int, s2.len() as int));
        lemma_dec_chars_injective(n1, n2);
    }
}

/// A one-character string for a decimal digit.
fn digit_str(d: u64) -> (r: &'static str)
    requires
        d < 10,
    ensures
        r@ == seq![digit_char(d as nat)],
{
    let r: &'static str = if d == 0 {
        proof {
            reveal_strlit("0");
        }
        "0"
    } else if d == 1 {
        proof {
            reveal_strlit("1");
        }
        "1"
    } else if d == 2 {
        proof {
            reveal_strlit("2");
        }
        "2"
    } else if d == 3 {
        proof {
            reveal_strlit("3");
        }
        "3"
    } else if d == 4 {
        proof {
            reveal_strlit("4");
        }
        "4"
    } else if d == 5 {
        proof {
            reveal_strlit("5");
        }
        "5"
    } else if d == 6 {
        proof {
            reveal_strlit("6");
        }
        "6"
    } else if d == 7 {
        proof {
            reveal_strlit("7");
        }
        "7"
    } else if d == 8 {
        proof {
            reveal_strlit("8");
        }
        "8"
    } else {
        proof {
            reveal_strlit("9");
        }
        "9"
    };
    proof {
        assert(r@ =~= seq![digit_char(d as nat)]);
    }
    r
}

/// Renders a number in decimal, most significant digit first.
pub fn u64_to_dec(n: u64) -> (r: String)
    ensures
        r@ == dec_chars(n as nat),
    decreases n,
{
    if n < 10 {
        String::from_str(digit_str(n))
    } else {
        let mut s = u64_to_dec(n / 10);
        s.append(digit_str(n % 10));
        proof {
            assert(s@ =~= dec_chars(n as nat));
        }
        s
    }
}

/// Renders a signed number in decimal, with a leading '-' for negatives.
pub fn i64_to_dec(n: i64) -> (r: String)
    ensures
        r@ == dec_chars_int(n as int),
{
    if n >= 0 {
        u64_to_dec(n as u64)
    } else {
        let m: u64 = ((-(n + 1)) as u64) + 1;
        proof {
            assert(m as nat == (-(n as int)) as nat);
            reveal_strlit("-");
        }
        let mut s = String::from_str("-");
        let d = u64_to_dec(m);
        s.append(d.as_str());
        proof {
            assert(s@ =~= dec_chars_int(n as int));
        }
        s
    }
}

/// Builds the identifier `<table>:<n>` the store assigns to a new record.
pub fn make_id(table: &str, n: u64) -> (r: String)
    ensures
        r@ == id_chars(table@, n as nat),
{
    proof {
        reveal_strlit(":");
    }
    let mut s = String::from_str(table);
    s.append(":");
    let d = u64_to_dec(n);
    s.append(d.as_str());
    proof {
        assert(s@ =~= id_chars(table@, n as nat));
    }
    s
}

} // verus!
