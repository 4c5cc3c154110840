//! Decimal numbers as text, and removing a character from text.
use vstd::prelude::*;
use vstd::string::*;
use vstd::utf8::*;

verus! {

/// The character of the decimal digit `d`.
pub open spec fn digit_char(d: nat) -> char
    recommends
        d < 10,
{
    (d + 48) as char
}

/// The decimal text of `n`: its digits, most significant first, without
/// sign or leading zeros.
pub open spec fn decimal_text(n: nat) -> Seq<char>
    decreases n,
{
    if n < 10 {
        seq![digit_char(n)]
    } else {
        decimal_text(n / 10).push(digit_char(n % 10))
    }
}

/// `c` is an ASCII decimal digit.
pub open spec fn is_digit_char(c: char) -> bool {
    '0' <= c && c <= '9'
}

/// The value of the decimal digits `s`, most significant first.
pub open spec fn digits_value(s: Seq<char>) -> nat
    decreases s.len(),
{
    if s.len() == 0 {
        0
    } else {
        digits_value(s.drop_last()) * 10 + (s.last() as nat - 48) as nat
    }
}

/// The digits of `s` once an optional leading `+` is taken off.
pub open spec fn unsigned_digits(s: Seq<char>) -> Seq<char> {
    if s.len() > 0 && s[0] == '+' {
        s.drop_first()
    } else {
        s
    }
}

/// The `u64` that the text `s` denotes, as std's `u64::from_str` reads it: an
/// optional `+` followed by one or more decimal digits, with a value that fits
/// in 64 bits.
pub open spec fn parsed_u64(s: Seq<char>) -> Option<u64> {
    let digits = unsigned_digits(s);
    if digits.len() > 0 && (forall|i: int| 0 <= i < digits.len() ==> is_digit_char(#[trigger] digits[i]))
        && digits_value(digits) <= u64::MAX {
        Some(digits_value(digits) as u64)
    } else {
        None
    }
}

/// `s` with every occurrence of `c` taken out.
pub open spec fn without_char(s: Seq<char>, c: char) -> Seq<char>
    decreases s.len(),
{
    if s.len() == 0 {
        s
    } else if s.last() == c {
        without_char(s.drop_last(), c)
    } else {
        without_char(s.drop_last(), c).push(s.last())
    }
}

/// The decimal text of `n`: its digits without sign or leading zeros, as
/// `u64`'s `Display` writes them.
pub fn decimal_string(n: u64) -> (text: String)
    ensures
        text@ == decimal_text(n as nat),
    decreases n,
{
    if n < 10 {
        String::from_str(digit_str(n))
    } else {
        let mut text = decimal_string(n / 10);
        text.append(digit_str(n % 10));
        text
    }
}

/// The one-character text of the decimal digit `d`.
fn digit_str(d: u64) -> (text: &'static str)
    requires
        d < 10,
    ensures
        text@ == seq![digit_char(d as nat)],
{
    match d {
        0 => {
            proof {
                reveal_strlit("0");
            }
            "0"
        },
        1 => {
            proof {
                reveal_strlit("1");
            }
            "1"
        },
        2 => {
            proof {
                reveal_strlit("2");
            }
            "2"
        },
        3 => {
            proof {
                reveal_strlit("3");
            }
            "3"
        },
        4 => {
            proof {
                reveal_strlit("4");
            }
            "4"
        },
        5 => {
            proof {
                reveal_strlit("5");
            }
            "5"
        },
        6 => {
            proof {
                reveal_strlit("6");
            }
            "6"
        },
        7 => {
            proof {
                reveal_strlit("7");
            }
            "7"
        },
        8 => {
            proof {
                reveal_strlit("8");
            }
            "8"
        },
        _ => {
            proof {
                reveal_strlit("9");
            }
            "9"
        },
    }
}

/// Reads `text` as `u64`'s `FromStr` does: an optional `+` followed by one or
/// more decimal digits whose value fits in a `u64`; `None` for anything else.
pub fn parse_u64(text: &str) -> (value: Option<u64>)
    ensures
        value == parsed_u64(text@),
{
    if !text.is_ascii() {
        proof {
            lemma_non_ascii_not_parsed(text@);
        }
        return None;
    }
    let len = text.unicode_len();
    let start: usize = if len > 0 && text.get_ascii(0) == 43u8 {
        1
    } else {
        0
    };
    let ghost digits = unsigned_digits(text@);
    proof {
        assert(digits =~= text@.subrange(start as int, len as int));
    }
    if start == len {
        return None;
    }
    let mut acc: u64 = 0;
    let mut i: usize = start;
    while i < len
        invariant
            text.is_ascii(),
            len == text@.len(),
            start <= i <= len,
            digits == unsigned_digits(text@),
            digits =~= text@.subrange(start as int, len as int),
            forall|j: int| start <= j < i ==> is_digit_char(#[trigger] text@[j]),
            acc == digits_value(text@.subrange(start as int, i as int)),
        decreases len - i,
    {
        let b = text.get_ascii(i);
        let ghost c = text@[i as int];
        proof {
            assert('\0' <= c <= '\u{7f}');
            assert(c as nat == b as nat);
        }
        if b < 48u8 || b > 57u8 {
            proof {
                assert(digits[i - start] == c);
                lemma_non_digit_not_parsed(text@, i - start);
            }
            return None;
        }
        let d: u64 = (b - 48u8) as u64;
        let ghost prefix = text@.subrange(start as int, i as int + 1);
        proof {
            assert(prefix.drop_last() =~= text@.subrange(start as int, i as int));
            assert(prefix.last() == c);
            assert(digits_value(prefix) == acc * 10 + d);
        }
        let next = match acc.checked_mul(10) {
            Some(m) => m.checked_add(d),
            None => None,
        };
        match next {
            Some(v) => {
                acc = v;
            },
            None => {
                proof {
                    assert(prefix =~= digits.take(i - start + 1));
                    assert(digits_value(prefix) > u64::MAX);
                    if forall|j: int| 0 <= j < digits.len() ==> is_digit_char(#[trigger] digits[j]) {
                        lemma_digits_value_prefix(digits, i - start + 1);
                    }
                }
                return None;
            },
        }
        i = i + 1;
    }
    proof {
        assert(text@.subrange(start as int, i as int) =~= digits);
        assert forall|j: int| 0 <= j < digits.len() implies is_digit_char(#[trigger] digits[j]) by {
            assert(digits[j] == text@[start + j]);
        }
    }
    Some(acc)
}

/// Text with a character other than a digit after the optional `+` is no
/// decimal number.
proof fn lemma_non_digit_not_parsed(s: Seq<char>, k: int)
    requires
        0 <= k < unsigned_digits(s).len(),
        !is_digit_char(unsigned_digits(s)[k]),
    ensures
        parsed_u64(s) is None,
{
}

/// Text with a character outside ASCII is no decimal number.
proof fn lemma_non_ascii_not_parsed(s: Seq<char>)
    requires
        !is_ascii_chars(s),
    ensures
        parsed_u64(s) is None,
{
    let k = choose|k: int| 0 <= k < s.len() && !('\0' <= #[trigger] s[k] <= '\u{7f}');
    let digits = unsigned_digits(s);
    if s.len() > 0 && s[0] == '+' {
        assert(!is_digit_char(digits[k - 1]));
    } else {
        assert(!is_digit_char(digits[k]));
    }
}

/// A number written with more digits is at least the number its first `k`
/// digits write.
proof fn lemma_digits_value_prefix(s: Seq<char>, k: int)
    requires
        0 <= k <= s.len(),
        forall|j: int| 0 <= j < s.len() ==> is_digit_char(#[trigger] s[j]),
    ensures
        digits_value(s.take(k)) <= digits_value(s),
    decreases s.len(),
{
    if k < s.len() {
        let rest = s.drop_last();
        assert forall|j: int| 0 <= j < rest.len() implies is_digit_char(#[trigger] rest[j]) by {
            assert(rest[j] == s[j]);
        }
        lemma_digits_value_prefix(rest, k);
        assert(rest.take(k) =~= s.take(k));
        assert(is_digit_char(s[s.len() - 1]));
    } else {
        assert(s.take(k) =~= s);
    }
}

/// `text` with every `c` removed. Linear in the length of ASCII text; other
/// text is taken apart character by character from its start, which is
/// quadratic.
pub fn remove_char(text: &str, c: char) -> (res: String)
    ensures
        res@ == without_char(text@, c),
{
    let ascii = text.is_ascii();
    let len = text.unicode_len();
    let mut res = String::new();
    let mut i: usize = 0;
    while i < len
        invariant
            len == text@.len(),
            i <= len,
            ascii == text.is_ascii(),
            res@ == without_char(text@.take(i as int), c),
        decreases len - i,
    {
        let piece = if ascii {
            text.substring_ascii(i, i + 1)
        } else {
            text.substring_char(i, i + 1)
        };
        let ch = piece.get_char(0);
        let ghost seen = text@.take(i as int + 1);
        proof {
            assert(seen.drop_last() =~= text@.take(i as int));
            assert(seen.last() == ch);
        }
        if ch != c {
            res.append(piece);
            proof {
                assert(piece@ =~= seq![ch]);
            }
        }
        i = i + 1;
    }
    proof {
        assert(text@.take(len as int) =~= text@);
    }
    res
}

/// Reading back the decimal text of a `u64` gives the number.
pub proof fn lemma_decimal_text_parses(n: u64)
    ensures
        parsed_u64(decimal_text(n as nat)) == Some(n),
{
    lemma_decimal_text_digits(n as nat);
    let t = decimal_text(n as nat);
    assert(t[0] != '+') by {
        assert(is_digit_char(t[0]));
    }
    assert(unsigned_digits(t) == t);
}

/// The decimal text of `n` is made of digits, whose value is `n`; it is at
/// most twenty characters long when `n` fits in a `u64`.
pub proof fn lemma_decimal_text_digits(n: nat)
    ensures
        decimal_text(n).len() > 0,
        forall|i: int| 0 <= i < decimal_text(n).len() ==> is_digit_char(#[trigger] decimal_text(n)[i]),
        digits_value(decimal_text(n)) == n,
        n <= u64::MAX ==> decimal_text(n).len() <= 20,
        n < 10 ==> decimal_text(n).len() == 1,
        n >= 10 ==> decimal_text(n).len() == decimal_text(n / 10).len() + 1,
    decreases n,
{
    lemma_digit_char(n % 10);
    if n < 10 {
        assert(digits_value(decimal_text(n)) == n) by {
            assert(decimal_text(n).drop_last() =~= Seq::<char>::empty());
            assert(digits_value(Seq::<char>::empty()) == 0);
            assert(decimal_text(n).last() == digit_char(n));
        }
    } else {
        lemma_decimal_text_digits(n / 10);
        let t = decimal_text(n);
        assert(t.drop_last() =~= decimal_text(n / 10));
        if n <= u64::MAX {
            lemma_decimal_len_bound(n);
        }
    }
}

proof fn lemma_decimal_len_bound(n: nat)
    requires
        n <= u64::MAX,
    ensures
        decimal_text(n).len() <= 20,
{
    assert(pow10(20) == 100_000_000_000_000_000_000nat) by {
        reveal_with_fuel(pow10, 21);
    }
    lemma_decimal_len_below(n, 20);
}

proof fn lemma_decimal_len_below(n: nat, k: nat)
    requires
        n < pow10(k),
        k > 0,
    ensures
        decimal_text(n).len() <= k,
    decreases k,
{
    if n >= 10 {
        assert(n / 10 < pow10((k - 1) as nat)) by {
            if k == 1 {
                assert(pow10(1) == 10) by {
                    reveal_with_fuel(pow10, 2);
                }
            } else {
                assert(pow10(k) == 10 * pow10((k - 1) as nat));
            }
        }
        assert(k > 1) by {
            if k == 1 {
                assert(pow10(1) == 10) by {
                    reveal_with_fuel(pow10, 2);
                }
            }
        }
        lemma_decimal_len_below(n / 10, (k - 1) as nat);
    }
}

proof fn lemma_digit_char(d: nat)
    requires
        d < 10,
    ensures
        digit_char(d) as nat == d + 48,
        is_digit_char(digit_char(d)),
{
}

/// Ten to the power `k`.
pub open spec fn pow10(k: nat) -> nat
    decreases k,
{
    if k == 0 {
        1
    } else {
        10 * pow10((k - 1) as nat)
    }
}

} // verus!
