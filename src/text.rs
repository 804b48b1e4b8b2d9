//! Small verified helpers on text.
use vstd::prelude::*;

verus! {

broadcast use vstd::string::group_string_axioms;

/// Whether two strings hold the same characters.
pub fn same_text(a: &str, b: &str) -> (r: bool)
    ensures
        r == (a@ == b@),
{
    let x = a.to_string();
    let y = b.to_string();
    x == y
}

/// A fresh `String` holding the characters of `s`.
pub fn owned(s: &str) -> (r: String)
    ensures
        r@ == s@,
{
    s.to_string()
}

/// The concatenation of `a` and `b`.
pub fn join2(a: &str, b: &str) -> (r: String)
    ensures
        r@ == a@ + b@,
{
    let mut r = a.to_string();
    r.append(b);
    r
}

/// The character of a decimal digit.
pub open spec fn digit_char(d: int) -> char {
    seq!['0', '1', '2', '3', '4', '5', '6', '7', '8', '9'][d]
}

/// Whether `c` is an ASCII decimal digit.
pub open spec fn is_digit(c: char) -> bool {
    '0' <= c && c <= '9'
}

/// The value of a decimal digit character.
pub open spec fn digit_value(c: char) -> int {
    c as int - '0' as int
}

/// Whether every character of `s` is a decimal digit.
pub open spec fn all_digits(s: Seq<char>) -> bool {
    forall|i: int| 0 <= i < s.len() ==> is_digit(#[trigger] s[i])
}

/// The value of a string of decimal digits, most significant first.
pub open spec fn digits_value(s: Seq<char>) -> int
    decreases s.len(),
{
    if s.len() == 0 {
        0
    } else {
        digits_value(s.drop_last()) * 10 + digit_value(s.last())
    }
}

/// The shortest decimal digits of `m`.
pub open spec fn digits_text(m: nat) -> Seq<char>
    decreases m,
{
    if m < 10 {
        seq![digit_char(m as int)]
    } else {
        digits_text(m / 10) + seq![digit_char(m as int % 10)]
    }
}

/// The decimal text of `n`: a minus sign for a negative number, then its digits.
pub open spec fn decimal_text(n: int) -> Seq<char> {
    if n < 0 {
        seq!['-'] + digits_text((-n) as nat)
    } else {
        digits_text(n as nat)
    }
}

/// `s` without its leading sign, if it has one.
pub open spec fn unsigned_part(s: Seq<char>) -> Seq<char> {
    if s.len() > 0 && (s[0] == '-' || s[0] == '+') {
        s.drop_first()
    } else {
        s
    }
}

/// The 64-bit integer that `s` reads as: an optional `+` or `-`, then at least one
/// decimal digit, with a value in range; `None` for any other text.
pub open spec fn decimal_value(s: Seq<char>) -> Option<i64> {
    let body = unsigned_part(s);
    let magnitude = digits_value(body);
    let v = if s.len() > 0 && s[0] == '-' {
        -magnitude
    } else {
        magnitude
    };
    if body.len() == 0 || !all_digits(body) {
        None
    } else if i64::MIN <= v && v <= i64::MAX {
        Some(v as i64)
    } else {
        None
    }
}

proof fn lemma_digit_char(d: int)
    requires
        0 <= d < 10,
    ensures
        is_digit(digit_char(d)),
        digit_value(digit_char(d)) == d,
{
    assert(digit_char(0) == '0');
    assert(digit_char(1) == '1');
    assert(digit_char(2) == '2');
    assert(digit_char(3) == '3');
    assert(digit_char(4) == '4');
    assert(digit_char(5) == '5');
    assert(digit_char(6) == '6');
    assert(digit_char(7) == '7');
    assert(digit_char(8) == '8');
    assert(digit_char(9) == '9');
}

proof fn lemma_digits_text(m: nat)
    ensures
        digits_text(m).len() > 0,
        all_digits(digits_text(m)),
        digits_value(digits_text(m)) == m,
        is_digit(digits_text(m)[0]),
    decreases m,
{
    if m < 10 {
        lemma_digit_char(m as int);
        assert(digits_text(m).drop_last() =~= Seq::<char>::empty());
        assert(digits_value(Seq::<char>::empty()) == 0);
    } else {
        lemma_digit_char(m as int % 10);
        lemma_digits_text(m / 10);
        let t = digits_text(m);
        assert(t.drop_last() =~= digits_text(m / 10));
        assert(t.last() == digit_char(m as int % 10));
        assert(digits_value(t) == digits_value(t.drop_last()) * 10 + digit_value(t.last()));
        assert(t[0] == digits_text(m / 10)[0]);
        assert forall|i: int| 0 <= i < t.len() implies is_digit(#[trigger] t[i]) by {
            if i < t.len() - 1 {
                assert(t[i] == digits_text(m / 10)[i]);
            }
        }
    }
}

/// Reading the decimal text of a 64-bit integer gives that integer back.
pub proof fn lemma_decimal_round_trip(n: i64)
    ensures
        decimal_value(decimal_text(n as int)) == Some(n),
{
    if n < 0 {
        let m = (-(n as int)) as nat;
        lemma_digits_text(m);
        let t = decimal_text(n as int);
        assert(t[0] == '-');
        assert(unsigned_part(t) =~= digits_text(m));
    } else {
        lemma_digits_text(n as nat);
    }
}

proof fn lemma_digits_value_grows(s: Seq<char>, i: int, j: int)
    requires
        0 <= i <= j <= s.len(),
        all_digits(s),
    ensures
        digits_value(s.subrange(0, i)) <= digits_value(s.subrange(0, j)),
        0 <= digits_value(s.subrange(0, i)),
    decreases j,
{
    if j > 0 {
        if i < j {
            lemma_digits_value_grows(s, i, j - 1);
            assert(s.subrange(0, j).drop_last() =~= s.subrange(0, j - 1));
            assert(is_digit(s[j - 1]));
        } else {
            lemma_digits_value_grows(s, 0, j - 1);
            lemma_digits_value_grows(s, i - 1, j - 1);
            assert(s.subrange(0, j).drop_last() =~= s.subrange(0, j - 1));
            assert(is_digit(s[j - 1]));
        }
    } else {
        assert(s.subrange(0, 0) =~= Seq::<char>::empty());
    }
}

fn digit_text(d: u64) -> (r: &'static str)
    requires
        d < 10,
    ensures
        r@ == seq![digit_char(d as int)],
{
    match d {
        0 => {
            proof {
                reveal_strlit("0");
            }
            assert("0"@ =~= seq![digit_char(0)]);
            "0"
        },
        1 => {
            proof {
                reveal_strlit("1");
            }
            assert("1"@ =~= seq![digit_char(1)]);
            "1"
        },
        2 => {
            proof {
                reveal_strlit("2");
            }
            assert("2"@ =~= seq![digit_char(2)]);
            "2"
        },
        3 => {
            proof {
                reveal_strlit("3");
            }
            assert("3"@ =~= seq![digit_char(3)]);
            "3"
        },
        4 => {
            proof {
                reveal_strlit("4");
            }
            assert("4"@ =~= seq![digit_char(4)]);
            "4"
        },
        5 => {
            proof {
                reveal_strlit("5");
            }
            assert("5"@ =~= seq![digit_char(5)]);
            "5"
        },
        6 => {
            proof {
                reveal_strlit("6");
            }
            assert("6"@ =~= seq![digit_char(6)]);
            "6"
        },
        7 => {
            proof {
                reveal_strlit("7");
            }
            assert("7"@ =~= seq![digit_char(7)]);
            "7"
        },
        8 => {
            proof {
                reveal_strlit("8");
            }
            assert("8"@ =~= seq![digit_char(8)]);
            "8"
        },
        _ => {
            proof {
                reveal_strlit("9");
            }
            assert("9"@ =~= seq![digit_char(9)]);
            "9"
        },
    }
}

/// The decimal text of `n`.
pub fn i64_to_text(n: i64) -> (r: String)
    ensures
        r@ == decimal_text(n as int),
{
    let wide: i128 = n as i128;
    let m0: u64 = if wide < 0 {
        (-wide) as u64
    } else {
        wide as u64
    };
    let mut m: u64 = m0;
    let mut r = String::new();
    while m >= 10
        invariant
            digits_text(m0 as nat) == digits_text(m as nat) + r@,
        decreases m,
    {
        let d = digit_text(m % 10);
        assert(digits_text(m as nat) == digits_text((m / 10) as nat) + seq![digit_char(m as int % 10)]);
        let next = join2(d, r.as_str());
        assert(digits_text(m0 as nat) =~= digits_text((m / 10) as nat) + next@);
        r = next;
        m = m / 10;
    }
    let d = digit_text(m);
    let r = join2(d, r.as_str());
    assert(digits_text(m as nat) == seq![digit_char(m as int)]);
    assert(r@ =~= digits_text(m0 as nat));
    if wide < 0 {
        proof {
            reveal_strlit("-");
        }
        let signed = join2("-", r.as_str());
        assert(signed@ =~= decimal_text(n as int));
        signed
    } else {
        r
    }
}

/// Reads a 64-bit integer from decimal text, as `i64::from_str` does.
pub fn text_to_i64(s: &str) -> (r: Option<i64>)
    ensures
        r == decimal_value(s@),
{
    let len = s.unicode_len();
    let mut start: usize = 0;
    let mut negative = false;
    if len > 0 {
        let c = s.get_char(0);
        if c == '-' {
            start = 1;
            negative = true;
        } else if c == '+' {
            start = 1;
        }
    }
    let ghost body = unsigned_part(s@);
    assert(body =~= s@.subrange(start as int, len as int));
    if start >= len {
        return None;
    }
    let limit: u128 = if negative {
        9223372036854775808
    } else {
        9223372036854775807
    };
    let mut acc: u128 = 0;
    let mut i: usize = start;
    while i < len
        invariant
            start <= i <= len,
            len == s@.len(),
            body == s@.subrange(start as int, len as int),
            body == unsigned_part(s@),
            negative == (s@.len() > 0 && s@[0] == '-'),
            all_digits(body.subrange(0, i - start)),
            acc == digits_value(body.subrange(0, i - start)),
            acc <= limit,
            limit == (if negative { 9223372036854775808u128 } else { 9223372036854775807u128 }),
        decreases len - i,
    {
        let c = s.get_char(i);
        assert(body[i - start] == c);
        if c < '0' || c > '9' {
            assert(!is_digit(body[i - start]));
            assert(!all_digits(body));
            assert(decimal_value(s@) is None);
            return None;
        }
        let d: u128 = (c as u32 - '0' as u32) as u128;
        let next = acc * 10 + d;
        assert(body.subrange(0, i + 1 - start).drop_last() =~= body.subrange(0, i - start));
        assert(all_digits(body.subrange(0, i + 1 - start)));
        if next > limit {
            proof {
                if all_digits(body) {
                    lemma_digits_value_grows(body, i + 1 - start, body.len() as int);
                    assert(body.subrange(0, body.len() as int) =~= body);
                    assert(digits_value(body) > limit);
                }
                assert(decimal_value(s@) is None);
            }
            return None;
        }
        acc = next;
        i = i + 1;
    }
    assert(body.subrange(0, len - start) =~= body);
    if negative {
        Some((-(acc as i128)) as i64)
    } else {
        Some(acc as i64)
    }
}

} // verus!
