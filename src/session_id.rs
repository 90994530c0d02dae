//! Session ids: the decimal rendering of a counter value.

use vstd::prelude::*;

verus! {

/// The character of one decimal digit.
pub open spec fn digit_char(d: nat) -> char {
    if d == 0 {
        '0'
    } else if d == 1 {
        '1'
    } else if d == 2 {
        '2'
    } else if d == 3 {
        '3'
    } else if d == 4 {
        '4'
    } else if d == 5 {
        '5'
    } else if d == 6 {
        '6'
    } else if d == 7 {
        '7'
    } else if d == 8 {
        '8'
    } else {
        '9'
    }
}

/// Whether `c` is one of the ten decimal digits.
pub open spec fn is_digit(c: char) -> bool {
    '0' <= c && c <= '9'
}

/// The canonical decimal text of `n`: no sign, no leading zeros.
pub open spec fn decimal(n: nat) -> Seq<char>
    decreases n,
{
    if n < 10 {
        seq![digit_char(n)]
    } else {
        decimal(n / 10).push(digit_char(n % 10))
    }
}

proof fn lemma_digit_char(d: nat)
    requires
        d < 10,
    ensures
        is_digit(digit_char(d)),
        (digit_char(d) as u32) - ('0' as u32) == d,
{
}

/// The decimal text of a number is never empty, and is one character long
/// exactly when the number is below ten.
pub proof fn lemma_decimal_len(n: nat)
    ensures
        decimal(n).len() >= 1,
        decimal(n).len() == 1 <==> n < 10,
    decreases n,
{
    if n >= 10 {
        lemma_decimal_len(n / 10);
    }
}

/// Every character of a decimal text is a digit, and it starts with `0`
/// only when it is the text of zero.
pub proof fn lemma_decimal_chars(n: nat)
    ensures
        forall|i: int| 0 <= i < decimal(n).len() ==> is_digit(#[trigger] decimal(n)[i]),
        decimal(n)[0] == '0' ==> n == 0,
    decreases n,
{
    lemma_decimal_len(n);
    if n < 10 {
        lemma_digit_char(n);
    } else {
        lemma_decimal_chars(n / 10);
        lemma_decimal_len(n / 10);
        lemma_digit_char(n % 10);
        assert forall|i: int| 0 <= i < decimal(n).len() implies is_digit(#[trigger] decimal(n)[i]) by {
            if i < decimal(n / 10).len() {
                assert(decimal(n)[i] == decimal(n / 10)[i]);
            }
        }
        assert(decimal(n)[0] == decimal(n / 10)[0]);
    }
}

/// Distinct numbers have distinct decimal texts.
pub proof fn lemma_decimal_injective(a: nat, b: nat)
    ensures
        decimal(a) == decimal(b) ==> a == b,
    decreases a,
{
    lemma_decimal_len(a);
    lemma_decimal_len(b);
    if decimal(a) == decimal(b) {
        if a < 10 && b < 10 {
            lemma_digit_char(a);
            lemma_digit_char(b);
            assert(decimal(a)[0] == decimal(b)[0]);
        } else if a >= 10 && b >= 10 {
            let pa = decimal(a / 10);
            let pb = decimal(b / 10);
            assert(decimal(a).last() == digit_char(a % 10));
            assert(decimal(b).last() == digit_char(b % 10));
            lemma_digit_char(a % 10);
            lemma_digit_char(b % 10);
            assert(pa == decimal(a).drop_last());
            assert(pb == decimal(b).drop_last());
            lemma_decimal_injective(a / 10, b / 10);
        }
    }
}

/// Every nonempty prefix of the decimal text of `n` is the decimal text of
/// a number no larger than `n`.
pub proof fn lemma_decimal_prefix(n: nat, j: int)
    requires
        1 <= j <= decimal(n).len(),
    ensures
        exists|m: nat| m <= n && #[trigger] decimal(m) == decimal(n).subrange(0, j),
    decreases n,
{
    if j == decimal(n).len() {
        assert(decimal(n) == decimal(n).subrange(0, j));
    } else {
        lemma_decimal_len(n);
        let p = decimal(n / 10);
        assert(decimal(n).subrange(0, j) == p.subrange(0, j));
        lemma_decimal_prefix(n / 10, j);
    }
}

/// Appending a digit to the text of a positive number gives the text of ten
/// times the number plus that digit.
proof fn lemma_decimal_step(v: nat, d: nat)
    requires
        v > 0,
        d < 10,
    ensures
        decimal(v * 10 + d) == decimal(v).push(digit_char(d)),
{
    let w = v * 10 + d;
    assert(w / 10 == v && w % 10 == d) by (nonlinear_arith)
        requires
            w == v * 10 + d,
            d < 10,
    ;
}

fn digit_text(d: usize) -> (r: &'static str)
    requires
        d < 10,
    ensures
        r@ == seq![digit_char(d as nat)],
{
    if d == 0 {
        proof { reveal_strlit("0"); }
        "0"
    } else if d == 1 {
        proof { reveal_strlit("1"); }
        "1"
    } else if d == 2 {
        proof { reveal_strlit("2"); }
        "2"
    } else if d == 3 {
        proof { reveal_strlit("3"); }
        "3"
    } else if d == 4 {
        proof { reveal_strlit("4"); }
        "4"
    } else if d == 5 {
        proof { reveal_strlit("5"); }
        "5"
    } else if d == 6 {
        proof { reveal_strlit("6"); }
        "6"
    } else if d == 7 {
        proof { reveal_strlit("7"); }
        "7"
    } else if d == 8 {
        proof { reveal_strlit("8"); }
        "8"
    } else {
        proof { reveal_strlit("9"); }
        "9"
    }
}

/// Renders a counter value as a session id.
pub fn id_string(n: usize) -> (r: String)
    ensures
        r@ == decimal(n as nat),
    decreases n,
{
    if n < 10 {
        String::from_str(digit_text(n))
    } else {
        let mut s = id_string(n / 10);
        s.append(digit_text(n % 10));
        s
    }
}


fn digit_value(c: char) -> (r: Option<usize>)
    ensures
        match r {
            Some(d) => d < 10 && c == digit_char(d as nat),
            None => !is_digit(c),
        },
{
    if '0' <= c && c <= '9' {
        let d = ((c as u32) - ('0' as u32)) as usize;
        proof { lemma_digit_char(d as nat); }
        assert(c == digit_char(d as nat));
        Some(d)
    } else {
        None
    }
}

/// Reads a session id back as its counter value. The result is `Some(n)`
/// exactly when `s` is the canonical decimal text of a `usize` value `n`.
pub fn parse_id(s: &str) -> (r: Option<usize>)
    ensures
        match r {
            Some(n) => s@ == decimal(n as nat),
            None => forall|n: usize| s@ != decimal(n as nat),
        },
{
    let len = s.unicode_len();
    if len == 0 {
        proof {
            assert forall|n: usize| s@ != decimal(n as nat) by {
                lemma_decimal_len(n as nat);
            }
        }
        return None;
    }
    let first = s.get_char(0);
    let mut v: usize = match digit_value(first) {
        Some(d) => d,
        None => {
            proof {
                assert forall|n: usize| s@ != decimal(n as nat) by {
                    lemma_decimal_chars(n as nat);
                    lemma_decimal_len(n as nat);
                }
            }
            return None;
        },
    };
    if v == 0 && len > 1 {
        proof {
            assert forall|n: usize| s@ != decimal(n as nat) by {
                lemma_decimal_chars(n as nat);
                lemma_decimal_len(n as nat);
            }
        }
        return None;
    }
    assert(s@.subrange(0, 1) =~= decimal(v as nat));
    let mut i: usize = 1;
    while i < len
        invariant
            1 <= i <= len,
            len == s@.len(),
            decimal(v as nat) == s@.subrange(0, i as int),
            i < len ==> v > 0,
        decreases len - i,
    {
        let c = s.get_char(i);
        let d = match digit_value(c) {
            Some(d) => d,
            None => {
                proof {
                    assert forall|n: usize| s@ != decimal(n as nat) by {
                        lemma_decimal_chars(n as nat);
                        if s@ == decimal(n as nat) {
                            assert(is_digit(decimal(n as nat)[i as int]));
                        }
                    }
                }
                return None;
            },
        };
        proof { lemma_decimal_step(v as nat, d as nat); }
        assert(s@.subrange(0, i as int + 1) =~= s@.subrange(0, i as int).push(c));
        if v > (usize::MAX - d) / 10 {
            proof {
                let w: nat = v as nat * 10 + d as nat;
                assert(w > usize::MAX) by (nonlinear_arith)
                    requires
                        w == v as nat * 10 + d as nat,
                        v as nat > (usize::MAX - d as nat) / 10,
                ;
                assert forall|n: usize| s@ != decimal(n as nat) by {
                    if s@ == decimal(n as nat) {
                        lemma_decimal_prefix(n as nat, i as int + 1);
                        let m = choose|m: nat| m <= n && #[trigger] decimal(m) == decimal(n as nat).subrange(0, i as int + 1);
                        lemma_decimal_injective(m, w);
                    }
                }
            }
            return None;
        }
        v = v * 10 + d;
        i = i + 1;
    }
    assert(s@.subrange(0, len as int) =~= s@);
    Some(v)
}

} // verus!
