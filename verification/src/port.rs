use vstd::prelude::*;

use crate::errors::{is_bad_port, ConfigDetail, Error};

verus! {

/// `c` is a decimal digit.
pub open spec fn is_port_digit(c: char) -> bool {
    48 <= c as u32 <= 57
}

/// The numeric value of a decimal digit.
pub open spec fn digit_value(c: char) -> int {
    c as u32 - 48
}

/// Every character of `s` is a decimal digit.
pub open spec fn all_digits(s: Seq<char>) -> bool {
    forall|i: int| 0 <= i < s.len() ==> is_port_digit(s[i])
}

/// The digit part of `s`: the whole string, with one optional leading plus
/// sign stripped.
pub open spec fn digits_of(s: Seq<char>) -> Seq<char> {
    if s.len() > 0 && s[0] == '+' {
        s.subrange(1, s.len() as int)
    } else {
        s
    }
}

/// The number that a sequence of decimal digits denotes, most significant
/// digit first.
pub open spec fn decimal_value(s: Seq<char>) -> int
    decreases s.len(),
{
    if s.len() == 0 {
        0
    } else {
        decimal_value(s.drop_last()) * 10 + digit_value(s.last())
    }
}

/// `s` denotes a port number: one optional leading plus sign, then at
/// least one digit and nothing else, with a value that fits in `u32`.
pub open spec fn valid_port_string(s: Seq<char>) -> bool {
    digits_of(s).len() > 0 && all_digits(digits_of(s)) && decimal_value(digits_of(s)) <= u32::MAX
}

/// The number `s` denotes when it is a valid port string.
pub open spec fn port_value(s: Seq<char>) -> int {
    decimal_value(digits_of(s))
}

proof fn lemma_decimal_value_nonneg(s: Seq<char>)
    requires
        all_digits(s),
    ensures
        decimal_value(s) >= 0,
    decreases s.len(),
{
    if s.len() > 0 {
        assert forall|i: int| 0 <= i < s.drop_last().len() implies is_port_digit(
            s.drop_last()[i],
        ) by {
            assert(s.drop_last()[i] == s[i]);
        }
        lemma_decimal_value_nonneg(s.drop_last());
    }
}

/// Reading more digits never makes the denoted number smaller.
proof fn lemma_decimal_value_prefix_le(s: Seq<char>, i: int)
    requires
        all_digits(s),
        0 <= i <= s.len(),
    ensures
        decimal_value(s.subrange(0, i)) <= decimal_value(s),
    decreases s.len() - i,
{
    if i == s.len() {
        assert(s.subrange(0, i) =~= s);
    } else {
        let p = s.subrange(0, i);
        let q = s.subrange(0, i + 1);
        assert(q.drop_last() =~= p);
        assert forall|j: int| 0 <= j < p.len() implies is_port_digit(p[j]) by {
            assert(p[j] == s[j]);
        }
        lemma_decimal_value_nonneg(p);
        assert(decimal_value(q) == decimal_value(p) * 10 + digit_value(s[i]));
        lemma_decimal_value_prefix_le(s, i + 1);
    }
}

/// Parses a resolved setting as a port number, the way Rust reads an
/// unsigned integer: one optional leading plus sign, then at least one
/// digit, with a value that fits in `u32`. Anything else is a
/// configuration error quoting the offending value.
pub fn parse_port(s: &str) -> (r: Result<u32, Error>)
    ensures
        match r {
            Ok(n) => valid_port_string(s@) && n as int == port_value(s@),
            Err(e) => !valid_port_string(s@) && is_bad_port(e, s@),
        },
{
    let len = s.unicode_len();
    let mut start: usize = 0;
    if len > 0 && s.get_char(0) == '+' {
        start = 1;
    }
    let ghost ds = digits_of(s@);
    proof {
        assert(ds =~= s@.subrange(start as int, len as int));
    }
    if start >= len {
        // The string is empty, or a lone plus sign: it has no digits
        return Err(Error::Configuration(ConfigDetail::BadPort { value: s.to_owned() }));
    }
    let mut i: usize = start;
    let mut acc: u64 = 0;
    while i < len
        invariant
            len == s@.len(),
            start <= i <= len,
            start < len,
            ds == digits_of(s@),
            ds =~= s@.subrange(start as int, len as int),
            all_digits(ds.subrange(0, i - start)),
            acc as int == decimal_value(ds.subrange(0, i - start)),
            acc <= u32::MAX,
        decreases len - i,
    {
        let c = s.get_char(i);
        let u = c as u32;
        if u < 48 || u > 57 {
            proof {
                assert(ds[i - start] == s@[i as int]);
                assert(!is_port_digit(ds[i - start]));
            }
            return Err(Error::Configuration(ConfigDetail::BadPort { value: s.to_owned() }));
        }
        let d = (u - 48) as u64;
        proof {
            let p = ds.subrange(0, i - start);
            let q = ds.subrange(0, i - start + 1);
            assert(q.drop_last() =~= p);
            assert(q.last() == ds[i - start]);
            assert(ds[i - start] == s@[i as int]);
            assert forall|j: int| 0 <= j < q.len() implies is_port_digit(q[j]) by {
                assert(q[j] == ds[j]);
            }
            assert(decimal_value(q) == decimal_value(p) * 10 + digit_value(s@[i as int]));
        }
        acc = acc * 10 + d;
        if acc > 0xffff_ffffu64 {
            proof {
                if all_digits(ds) {
                    lemma_decimal_value_prefix_le(ds, i - start + 1);
                }
            }
            return Err(Error::Configuration(ConfigDetail::BadPort { value: s.to_owned() }));
        }
        i = i + 1;
    }
    proof {
        assert(ds.subrange(0, i - start) =~= ds);
    }
    Ok(acc as u32)
}

} // verus!
