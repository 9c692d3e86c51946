//! Settings as named text values, and how a listening address is read from
//! them and written out.

use vstd::prelude::*;
use vstd::string::*;
use crate::keyed::{find, keys_of, position, Keyed};
use crate::text::{decimal, decimal_text, join3};

verus! {

/// One setting: a name and its value.
#[derive(Debug)]
pub struct EnvVar {
    pub name: String,
    pub value: String,
}

impl Keyed for EnvVar {
    open spec fn key_view(&self) -> Seq<char> {
        self.name@
    }

    fn key(&self) -> (k: &String) {
        &self.name
    }
}

/// The value that `vars` give the setting `name`, or `fallback` where they
/// do not set it.
pub open spec fn value_or(vars: Seq<EnvVar>, name: Seq<char>, fallback: Seq<char>) -> Seq<char> {
    match find(keys_of(vars), name) {
        Some(i) => vars[i].value@,
        None => fallback,
    }
}

/// Reads the setting `name`, or takes `fallback` where it is not set.
pub fn var_or(vars: &Vec<EnvVar>, name: &str, fallback: &str) -> (r: String)
    ensures
        r@ == value_or(vars@, name@, fallback@),
{
    let key = name.to_owned();
    match position(vars, &key) {
        Some(i) => vars[i].value.clone(),
        None => fallback.to_owned(),
    }
}

/// The digit that `c` stands for.
pub open spec fn digit_value(c: char) -> Option<int> {
    if c == '0' {
        Some(0)
    } else if c == '1' {
        Some(1)
    } else if c == '2' {
        Some(2)
    } else if c == '3' {
        Some(3)
    } else if c == '4' {
        Some(4)
    } else if c == '5' {
        Some(5)
    } else if c == '6' {
        Some(6)
    } else if c == '7' {
        Some(7)
    } else if c == '8' {
        Some(8)
    } else if c == '9' {
        Some(9)
    } else {
        None
    }
}

/// The number that the decimal digits `s` write, or `None` where a character
/// of `s` is no digit. No digits write zero.
pub open spec fn digits_value(s: Seq<char>) -> Option<int>
    decreases s.len(),
{
    if s.len() == 0 {
        Some(0)
    } else {
        match (digits_value(s.drop_last()), digit_value(s.last())) {
            (Some(v), Some(d)) => Some(v * 10 + d),
            _ => None,
        }
    }
}

/// The port that `s` writes: an optional plus sign, then at least one decimal
/// digit, the number being at most 65535.
pub open spec fn port_of(s: Seq<char>) -> Option<u16> {
    let digits = if s.len() > 0 && s[0] == '+' {
        s.subrange(1, s.len() as int)
    } else {
        s
    };
    if digits.len() == 0 {
        None
    } else {
        match digits_value(digits) {
            Some(v) => if v <= u16::MAX {
                Some(v as u16)
            } else {
                None
            },
            None => None,
        }
    }
}

/// Digits that follow never make the number smaller, and a character that is
/// no digit spoils every longer text.
proof fn lemma_digits_prefix(s: Seq<char>, k: int)
    requires
        0 <= k <= s.len(),
    ensures
        digits_value(s.take(k)) is None ==> digits_value(s) is None,
        digits_value(s) is Some ==> 0 <= digits_value(s.take(k)).unwrap() <= digits_value(s).unwrap(),
    decreases s.len() - k,
{
    if k == s.len() {
        assert(s.take(k) =~= s);
        lemma_digits_nonnegative(s);
    } else {
        lemma_digits_prefix(s, k + 1);
        let longer = s.take(k + 1);
        assert(longer.drop_last() =~= s.take(k));
        lemma_digits_nonnegative(s.take(k));
    }
}

proof fn lemma_digits_nonnegative(s: Seq<char>)
    ensures
        digits_value(s) is Some ==> digits_value(s).unwrap() >= 0,
    decreases s.len(),
{
    if s.len() > 0 {
        lemma_digits_nonnegative(s.drop_last());
    }
}

fn digit_of(c: char) -> (r: Option<u32>)
    ensures
        match r {
            Some(d) => digit_value(c) == Some(d as int) && d <= 9,
            None => digit_value(c) is None,
        },
{
    if c == '0' {
        Some(0)
    } else if c == '1' {
        Some(1)
    } else if c == '2' {
        Some(2)
    } else if c == '3' {
        Some(3)
    } else if c == '4' {
        Some(4)
    } else if c == '5' {
        Some(5)
    } else if c == '6' {
        Some(6)
    } else if c == '7' {
        Some(7)
    } else if c == '8' {
        Some(8)
    } else if c == '9' {
        Some(9)
    } else {
        None
    }
}

/// Reads a port number.
pub fn parse_port(s: &str) -> (r: Option<u16>)
    ensures
        r == port_of(s@),
{
    let n: usize = s.unicode_len();
    let start: usize = if n > 0 && s.get_char(0) == '+' {
        1
    } else {
        0
    };
    if start == n {
        return None;
    }
    let ghost digits = s@.subrange(start as int, n as int);
    assert(start == 0 ==> digits =~= s@);
    let mut acc: u32 = 0;
    let mut i: usize = start;
    assert(digits.take(0) =~= Seq::<char>::empty());
    let ghost wanted = match digits_value(digits) {
        Some(v) => if v <= u16::MAX {
            Some(v as u16)
        } else {
            None
        },
        None => None,
    };
    assert(port_of(s@) == wanted);
    while i < n
        invariant
            start <= i <= n,
            n == s@.len(),
            digits == s@.subrange(start as int, n as int),
            port_of(s@) == wanted,
            wanted == match digits_value(digits) {
                Some(v) => if v <= u16::MAX {
                    Some(v as u16)
                } else {
                    None
                },
                None => None,
            },
            digits_value(digits.take(i - start)) == Some(acc as int),
            acc <= u16::MAX,
        decreases n - i,
    {
        let c = s.get_char(i);
        let ghost longer = digits.take(i - start + 1);
        assert(longer.drop_last() =~= digits.take(i - start));
        assert(longer.last() == c);
        proof {
            lemma_digits_prefix(digits, i - start + 1);
        }
        match digit_of(c) {
            Some(d) => {
                acc = acc * 10 + d;
                if acc > 65535 {
                    return None;
                }
            },
            None => {
                return None;
            },
        }
        i = i + 1;
    }
    assert(digits.take(n - start) =~= digits);
    Some(acc as u16)
}

/// The address `host:port`, the port in decimal.
pub open spec fn address_of(host: Seq<char>, port: u16) -> Seq<char> {
    host + ":"@ + decimal(port as nat)
}

/// Writes the address `host:port`.
pub fn address_text(host: &String, port: u16) -> (r: String)
    ensures
        r@ == address_of(host@, port),
{
    let digits = decimal_text(port);
    join3(host.as_str(), ":", digits.as_str())
}

} // verus!
