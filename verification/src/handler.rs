//! Handlers: the invocation contract a named unit of work obeys, and two
//! verified built-in handlers used to exercise it.
//!
//! A handler receives the call's parameters — each the raw text of one JSON
//! value, absent or non-empty as a list — and produces the raw text of one
//! JSON value or an error message.  The embedding layer may implement
//! [`Handler`] for its own bridged units of work; the dispatch contract then
//! rests on each implementation meeting `invoke`'s postcondition.

use vstd::prelude::*;

use crate::protocol::params_model;
use crate::text::{push_char, spec_u64_digits, u64_to_string};

verus! {

/// The model of a handler's exec result.
pub open spec fn result_model(r: Result<String, String>) -> Result<Seq<char>, Seq<char>> {
    match r {
        Ok(s) => Ok(s@),
        Err(s) => Err(s@),
    }
}

/// A named, polymorphic unit of work.  `result_of` declares the result for
/// given parameters; `invoke` computes exactly that result.
pub trait Handler: Sized {
    /// The declared result: the raw JSON text of the produced value, or an
    /// error message.
    spec fn result_of(&self, params: Option<Seq<Seq<char>>>) -> Result<Seq<char>, Seq<char>>;

    /// Runs the unit of work once.
    fn invoke(&self, params: &Option<Vec<String>>) -> (r: Result<String, String>)
        ensures
            result_model(r) == self.result_of(params_model(*params)),
    ;
}

/// Returns its first parameter unchanged; fails when no parameters were
/// supplied.
pub struct EchoHandler;

impl Handler for EchoHandler {
    open spec fn result_of(&self, params: Option<Seq<Seq<char>>>) -> Result<Seq<char>, Seq<char>> {
        match params {
            Some(ps) => if ps.len() > 0 {
                Ok(ps[0])
            } else {
                Err(("expected at least one parameter")@)
            },
            None => Err(("expected at least one parameter")@),
        }
    }

    fn invoke(&self, params: &Option<Vec<String>>) -> (r: Result<String, String>) {
        match params {
            Some(ps) => {
                if ps.len() > 0 {
                    Ok(ps[0].clone())
                } else {
                    Err(String::from_str("expected at least one parameter"))
                }
            },
            None => Err(String::from_str("expected at least one parameter")),
        }
    }
}

/// Returns one configured raw JSON text, whatever the parameters; the
/// smallest handler that makes replacement under one identifier
/// observable.
pub struct ConstHandler {
    pub value: String,
}

impl Handler for ConstHandler {
    open spec fn result_of(&self, params: Option<Seq<Seq<char>>>) -> Result<Seq<char>, Seq<char>> {
        Ok(self.value@)
    }

    fn invoke(&self, params: &Option<Vec<String>>) -> (r: Result<String, String>) {
        Ok(self.value.clone())
    }
}

/// Whether `c` is a decimal digit.
pub open spec fn is_digit_char(c: char) -> bool {
    48 <= c as u32 <= 57
}

/// The value of a decimal digit character.
pub open spec fn digit_of_char(c: char) -> nat
    recommends
        is_digit_char(c),
{
    (c as u32 - 48) as nat
}

/// Whether every character of `s` is a decimal digit.
pub open spec fn all_digits(s: Seq<char>) -> bool {
    forall|i: int| 0 <= i < s.len() ==> is_digit_char(#[trigger] s[i])
}

/// The number denoted by a digit sequence, most significant digit first.
pub open spec fn digits_val(s: Seq<char>) -> nat
    decreases s.len(),
{
    if s.len() == 0 {
        0
    } else {
        digits_val(s.drop_last()) * 10 + digit_of_char(s.last())
    }
}

/// The integer a decimal text denotes: an optional leading minus sign
/// followed by at least one digit.
pub open spec fn spec_parse_int(s: Seq<char>) -> Option<int> {
    if s.len() >= 2 && s[0] == '-' && all_digits(s.skip(1)) {
        Some(-(digits_val(s.skip(1)) as int))
    } else if s.len() >= 1 && s[0] != '-' && all_digits(s) {
        Some(digits_val(s) as int)
    } else {
        None
    }
}

proof fn lemma_digits_val_prefix(s: Seq<char>, i: int)
    requires
        0 <= i <= s.len(),
    ensures
        digits_val(s) >= digits_val(s.take(i)),
    decreases s.len(),
{
    if i == s.len() {
        assert(s.take(i) =~= s);
    } else {
        lemma_digits_val_prefix(s.drop_last(), i);
        assert(s.drop_last().take(i) =~= s.take(i));
        assert(digits_val(s.drop_last()) * 10 >= digits_val(s.drop_last()));
    }
}

/// Parses a decimal integer; exact about which texts parse and when the
/// value is out of the machine range.
pub fn parse_i64(s: &str) -> (r: Option<i64>)
    ensures
        match r {
            Some(v) => spec_parse_int(s@) == Some(v as int),
            None => spec_parse_int(s@) is None || (spec_parse_int(s@) matches Some(n) && (n
                < i64::MIN || n > i64::MAX)),
        },
{
    let n: usize = s.unicode_len();
    if n == 0 {
        return None;
    }
    let neg = s.get_char(0) == '-';
    let start: usize = if neg { 1 } else { 0 };
    if n == start {
        return None;
    }
    let ghost m = s@.skip(start as int);
    let mut acc: u64 = 0;
    let mut i: usize = start;
    while i < n
        invariant
            start <= i <= n,
            n == s@.len(),
            neg == (s@[0] == '-'),
            if neg { start == 1int } else { start == 0int },
            n > start,
            m == s@.skip(start as int),
            acc == digits_val(m.take(i - start)),
            all_digits(m.take(i - start)),
        decreases n - i,
    {
        let c = s.get_char(i);
        let cv: u32 = c as u32;
        if cv < 48 || cv > 57 {
            proof {
                if !neg {
                    assert(m =~= s@);
                }
                assert(m[i - start] == s@[i as int]);
                assert(!is_digit_char(m[i - start]));
                assert(spec_parse_int(s@) is None);
            }
            return None;
        }
        let d: u64 = (cv - 48) as u64;
        let ghost j: int = i - start;
        proof {
            assert(m.take(j + 1).drop_last() =~= m.take(j));
            assert(m.take(j + 1).last() == m[j]);
            assert(m[j] == s@[i as int]);
            assert(digits_val(m.take(j + 1)) == acc * 10 + d);
        }
        let next = match acc.checked_mul(10) {
            Some(v) => {
                match v.checked_add(d) {
                    Some(w) => w,
                    None => {
                        proof {
                            lemma_out_of_range(s@, m, neg, j + 1);
                        }
                        return None;
                    },
                }
            },
            None => {
                proof {
                    assert(digits_val(m.take(j + 1)) >= acc * 10);
                    lemma_out_of_range(s@, m, neg, j + 1);
                }
                return None;
            },
        };
        acc = next;
        i += 1;
    }
    proof {
        assert(m.take(n - start) =~= m);
        if neg {
            assert(spec_parse_int(s@) == Some(-(digits_val(m) as int)));
        } else {
            assert(m =~= s@);
            assert(spec_parse_int(s@) == Some(digits_val(m) as int));
        }
    }
    if neg {
        if acc > 9223372036854775808u64 {
            return None;
        }
        if acc == 9223372036854775808u64 {
            Some(i64::MIN)
        } else {
            Some(-(acc as i64))
        }
    } else {
        if acc > 9223372036854775807u64 {
            return None;
        }
        Some(acc as i64)
    }
}

proof fn lemma_out_of_range(s: Seq<char>, m: Seq<char>, neg: bool, j: int)
    requires
        neg == (s.len() >= 1 && s[0] == '-'),
        neg ==> m == s.skip(1),
        !neg ==> m == s.skip(0),
        0 <= j <= m.len(),
        digits_val(m.take(j)) > u64::MAX,
    ensures
        spec_parse_int(s) is None || (spec_parse_int(s) matches Some(n) && (n < i64::MIN || n
            > i64::MAX)),
{
    lemma_digits_val_prefix(m, j);
    assert(digits_val(m) > u64::MAX);
    if !neg {
        assert(m =~= s);
    }
}

/// The decimal text of an integer: a minus sign for negative values, then
/// the digits of the magnitude.
pub open spec fn spec_int_digits(n: int) -> Seq<char> {
    if n < 0 {
        seq!['-'] + spec_u64_digits((-n) as nat)
    } else {
        spec_u64_digits(n as nat)
    }
}

/// Renders an integer in decimal, proved equal to `spec_int_digits`.
pub fn i64_to_string(v: i64) -> (r: String)
    ensures
        r@ == spec_int_digits(v as int),
{
    if v >= 0 {
        u64_to_string(v as u64)
    } else {
        let mag: u64 = ((-(v as i128)) as u64);
        let mut out = String::new();
        push_char(&mut out, '-');
        let digits = u64_to_string(mag);
        out.append(digits.as_str());
        proof {
            assert(out@ =~= spec_int_digits(v as int));
        }
        out
    }
}

/// The declared result of the addition handler: the decimal sum of two
/// integer parameters, or an error message.
pub open spec fn spec_add_result(params: Option<Seq<Seq<char>>>) -> Result<Seq<char>, Seq<char>> {
    match params {
        Some(ps) => if ps.len() != 2 {
            Err(("expected exactly two parameters")@)
        } else {
            match (spec_parse_int(ps[0]), spec_parse_int(ps[1])) {
                (Some(a), Some(b)) => if i64::MIN <= a <= i64::MAX && i64::MIN <= b <= i64::MAX
                    && i64::MIN <= a + b <= i64::MAX {
                    Ok(spec_int_digits(a + b))
                } else {
                    Err(("parameters out of range")@)
                },
                _ => Err(("parameters must be integers")@),
            }
        },
        None => Err(("expected exactly two parameters")@),
    }
}

/// Adds its two integer parameters and returns the decimal sum.
pub struct AddHandler;

impl Handler for AddHandler {
    open spec fn result_of(&self, params: Option<Seq<Seq<char>>>) -> Result<Seq<char>, Seq<char>> {
        spec_add_result(params)
    }

    fn invoke(&self, params: &Option<Vec<String>>) -> (r: Result<String, String>) {
        let ps = match params {
            Some(ps) => ps,
            None => {
                return Err(String::from_str("expected exactly two parameters"));
            },
        };
        if ps.len() != 2 {
            return Err(String::from_str("expected exactly two parameters"));
        }
        let a = parse_i64(ps[0].as_str());
        let b = parse_i64(ps[1].as_str());
        match (a, b) {
            (Some(x), Some(y)) => {
                match x.checked_add(y) {
                    Some(sum) => Ok(i64_to_string(sum)),
                    None => Err(String::from_str("parameters out of range")),
                }
            },
            _ => {
                // Told apart below: a text that denotes no integer at all,
                // and one whose integer does not fit the machine range.
                let a_large = out_of_range(ps[0].as_str());
                let b_large = out_of_range(ps[1].as_str());
                if (a.is_none() && !a_large) || (b.is_none() && !b_large) {
                    Err(String::from_str("parameters must be integers"))
                } else {
                    Err(String::from_str("parameters out of range"))
                }
            },
        }
    }
}

/// Whether the text denotes an integer that does not fit `i64`.
fn out_of_range(s: &str) -> (r: bool)
    ensures
        r == (spec_parse_int(s@) matches Some(n) && (n < i64::MIN || n > i64::MAX)),
{
    let n: usize = s.unicode_len();
    if n == 0 {
        return false;
    }
    let neg = s.get_char(0) == '-';
    let start: usize = if neg { 1 } else { 0 };
    if n == start {
        return false;
    }
    let mut i: usize = start;
    let ghost m = s@.skip(start as int);
    while i < n
        invariant
            start <= i <= n,
            n == s@.len(),
            neg == (s@[0] == '-'),
            if neg { start == 1int } else { start == 0int },
            n > start,
            m == s@.skip(start as int),
            all_digits(m.take(i - start)),
        decreases n - i,
    {
        let c = s.get_char(i);
        let cv: u32 = c as u32;
        if cv < 48 || cv > 57 {
            proof {
                if !neg {
                    assert(m =~= s@);
                }
                assert(m[i - start] == s@[i as int]);
                assert(!is_digit_char(m[i - start]));
                assert(spec_parse_int(s@) is None);
            }
            return false;
        }
        proof {
            let j: int = i - start;
            assert(m.take(j + 1).drop_last() =~= m.take(j));
            assert(m.take(j + 1).last() == m[j]);
            assert(m[j] == s@[i as int]);
        }
        i += 1;
    }
    proof {
        assert(m.take(n - start) =~= m);
        if neg {
            assert(spec_parse_int(s@) == Some(-(digits_val(m) as int)));
        } else {
            assert(m =~= s@);
            assert(spec_parse_int(s@) == Some(digits_val(m) as int));
        }
    }
    // Every character is a digit, so the text parses; it is out of range
    // exactly when the bounded parse fails.
    match parse_i64(s) {
        Some(_) => false,
        None => true,
    }
}

} // verus!
