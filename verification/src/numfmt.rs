//! Decimal text for the report tables.
//!
//! Whole numbers are written without leading zeros, negative numbers with
//! a leading minus, and money amounts as whole currency units, a point,
//! and exactly two cent digits.

use vstd::prelude::*;

verus! {

use vstd::arithmetic::div_mod::{lemma_div_pos_is_pos, lemma_mod_bound};

/// The digit character of a value between zero and nine.
pub open spec fn char_of_digit(d: int) -> char {
    if d == 0 {
        '0'
    } else if d == 1 {
        '1'
    } else if d == 2 {
        '2'
    } else if d == 3 {
        '3'
    } else if d == 4 {
        '4'
    } else if d == 5 {
        '5'
    } else if d == 6 {
        '6'
    } else if d == 7 {
        '7'
    } else if d == 8 {
        '8'
    } else {
        '9'
    }
}

/// The decimal digits of a non-negative value, without leading zeros.
pub open spec fn spec_dec(v: int) -> Seq<char>
    decreases v,
{
    if v < 10 {
        seq![char_of_digit(v)]
    } else {
        spec_dec(v / 10).push(char_of_digit(v % 10))
    }
}

/// The decimal text of a signed value.
pub open spec fn spec_dec_signed(v: int) -> Seq<char> {
    if v < 0 {
        seq!['-'] + spec_dec(-v)
    } else {
        spec_dec(v)
    }
}

/// The money text of an amount of cents: sign, whole units, a point, two
/// cent digits.
pub open spec fn spec_money(cents: int) -> Seq<char> {
    let m = if cents < 0 {
        -cents
    } else {
        cents
    };
    let sign: Seq<char> = if cents < 0 {
        seq!['-']
    } else {
        Seq::empty()
    };
    sign + spec_dec(m / 100) + seq!['.', char_of_digit((m % 100) / 10), char_of_digit(m % 10)]
}

/// Append one digit character.
fn push_digit(out: &mut String, d: u64)
    requires
        d < 10,
    ensures
        final(out)@ == old(out)@ + seq![char_of_digit(d as int)],
{
    match d {
        0 => {
            out.append("0");
            proof {
                reveal_strlit("0");
                assert("0"@ =~= seq![char_of_digit(0)]);
            }
        },
        1 => {
            out.append("1");
            proof {
                reveal_strlit("1");
                assert("1"@ =~= seq![char_of_digit(1)]);
            }
        },
        2 => {
            out.append("2");
            proof {
                reveal_strlit("2");
                assert("2"@ =~= seq![char_of_digit(2)]);
            }
        },
        3 => {
            out.append("3");
            proof {
                reveal_strlit("3");
                assert("3"@ =~= seq![char_of_digit(3)]);
            }
        },
        4 => {
            out.append("4");
            proof {
                reveal_strlit("4");
                assert("4"@ =~= seq![char_of_digit(4)]);
            }
        },
        5 => {
            out.append("5");
            proof {
                reveal_strlit("5");
                assert("5"@ =~= seq![char_of_digit(5)]);
            }
        },
        6 => {
            out.append("6");
            proof {
                reveal_strlit("6");
                assert("6"@ =~= seq![char_of_digit(6)]);
            }
        },
        7 => {
            out.append("7");
            proof {
                reveal_strlit("7");
                assert("7"@ =~= seq![char_of_digit(7)]);
            }
        },
        8 => {
            out.append("8");
            proof {
                reveal_strlit("8");
                assert("8"@ =~= seq![char_of_digit(8)]);
            }
        },
        _ => {
            out.append("9");
            proof {
                reveal_strlit("9");
                assert("9"@ =~= seq![char_of_digit(9)]);
            }
        },
    }
}

/// Append the decimal digits of a value.
pub fn push_dec(out: &mut String, v: u64)
    ensures
        final(out)@ == old(out)@ + spec_dec(v as int),
    decreases v,
{
    if v >= 10 {
        push_dec(out, v / 10);
        proof {
            lemma_mod_bound(v as int, 10);
            lemma_div_pos_is_pos(v as int, 10);
        }
        push_digit(out, v % 10);
        proof {
            assert(old(out)@ + spec_dec(v as int) =~= (old(out)@ + spec_dec(v as int / 10)) + seq![
                char_of_digit(v as int % 10),
            ]);
        }
    } else {
        push_digit(out, v);
    }
}

/// Append the decimal text of a signed value.
pub fn push_dec_signed(out: &mut String, v: i64)
    requires
        v > i64::MIN,
    ensures
        final(out)@ == old(out)@ + spec_dec_signed(v as int),
{
    if v < 0 {
        out.append("-");
        push_dec(out, (-v) as u64);
        proof {
            reveal_strlit("-");
            assert("-"@ =~= seq!['-']);
            assert(old(out)@ + spec_dec_signed(v as int) =~= (old(out)@ + seq!['-']) + spec_dec(
                -(v as int),
            ));
        }
    } else {
        push_dec(out, v as u64);
    }
}

/// Append the money text of an amount of cents.
pub fn push_money(out: &mut String, cents: i64)
    requires
        cents > i64::MIN,
    ensures
        final(out)@ == old(out)@ + spec_money(cents as int),
{
    let ghost pre = out@;
    if cents < 0 {
        out.append("-");
        proof {
            reveal_strlit("-");
            assert("-"@ =~= seq!['-']);
        }
    }
    let m: u64 = if cents < 0 {
        (-cents) as u64
    } else {
        cents as u64
    };
    push_dec(out, m / 100);
    out.append(".");
    proof {
        reveal_strlit(".");
        assert("."@ =~= seq!['.']);
        lemma_mod_bound(m as int, 100);
        lemma_div_pos_is_pos(m as int % 100, 10);
        lemma_mod_bound(m as int, 10);
    }
    push_digit(out, (m % 100) / 10);
    push_digit(out, m % 10);
    proof {
        let mm = m as int;
        assert(pre + spec_money(cents as int) =~= (((pre + (if cents < 0 {
            seq!['-']
        } else {
            Seq::<char>::empty()
        }) + spec_dec(mm / 100)).push('.')).push(char_of_digit((mm % 100) / 10))).push(
            char_of_digit(mm % 10),
        ));
    }
}

} // verus!
