//! The decisions behind server configuration: which host and port to use
//! given an optional environment override. Reading the environment itself is
//! left to the host program, which hands the raw values in.

use vstd::prelude::*;
use vstd::string::StringSliceAdditionalSpecFns;

verus! {

/// The default host that the server is configured to use.
pub const DEFAULT_HOST: &'static str = "127.0.0.1";

/// The default port that the server is configured to use.
pub const DEFAULT_PORT: u16 = 8080;

/// Whether `b` is the ASCII encoding of a decimal digit.
pub open spec fn is_decimal_digit(b: u8) -> bool {
    0x30 <= b <= 0x39
}

/// Whether every byte of `s` encodes a decimal digit.
pub open spec fn all_decimal_digits(s: Seq<u8>) -> bool {
    forall|i: int| 0 <= i < s.len() ==> is_decimal_digit(#[trigger] s[i])
}

/// The numeric value of the decimal digit string `s`, read left to right.
pub open spec fn decimal_value(s: Seq<u8>) -> int
    decreases s.len(),
{
    if s.len() == 0 {
        0
    } else {
        decimal_value(s.drop_last()) * 10 + (s.last() - 0x30)
    }
}

/// What parsing a port string yields: after an optional leading plus sign,
/// the string must be a non-empty run of decimal digits whose value fits in
/// a sixteen-bit port number; anything else is rejected.
pub open spec fn spec_parse_port(s: Seq<u8>) -> Option<u16> {
    let digits = if s.len() > 0 && s[0] == 0x2b {
        s.skip(1)
    } else {
        s
    };
    if digits.len() > 0 && all_decimal_digits(digits) && decimal_value(digits) <= u16::MAX {
        Some(decimal_value(digits) as u16)
    } else {
        None
    }
}

proof fn lemma_decimal_value_nonneg(s: Seq<u8>)
    requires
        all_decimal_digits(s),
    ensures
        decimal_value(s) >= 0,
    decreases s.len(),
{
    if s.len() > 0 {
        assert(all_decimal_digits(s.drop_last()));
        lemma_decimal_value_nonneg(s.drop_last());
    }
}

/// Parses a port number from its decimal text form, accepting exactly the
/// strings that `spec_parse_port` accepts.
#[verifier::rlimit(50)]
#[verifier::loop_isolation(false)]
pub fn parse_port(s: &str) -> (port: Option<u16>)
    ensures
        port == spec_parse_port(s.spec_bytes()),
{
    let bytes = s.as_bytes();
    let start: usize = if bytes.len() > 0 && bytes[0] == 0x2b {
        1
    } else {
        0
    };
    if bytes.len() == start {
        return None;
    }
    let ghost all = bytes@.skip(start as int);
    let mut i: usize = start;
    let mut acc: u32 = 0;
    while i < bytes.len()
        invariant
            start <= i <= bytes.len(),
            all == bytes@.skip(start as int),
            all_decimal_digits(bytes@.subrange(start as int, i as int)),
            ({
                let sofar = decimal_value(bytes@.subrange(start as int, i as int));
                if sofar <= u16::MAX {
                    acc == sofar
                } else {
                    u16::MAX < acc <= 0x10000
                }
            }),
        decreases bytes.len() - i,
    {
        let b = bytes[i];
        if b < 0x30 || b > 0x39 {
            proof {
                assert(bytes@.skip(0) =~= bytes@);
                assert(bytes@.skip(start as int)[i - start] == bytes@[i as int]);
                assert(!all_decimal_digits(bytes@.skip(start as int)));
            }
            return None;
        }
        proof {
            let seen = bytes@.subrange(start as int, i as int);
            let seen_next = bytes@.subrange(start as int, i + 1 as int);
            assert(seen_next.drop_last() =~= seen);
            assert(seen_next.last() == bytes@[i as int]);
            lemma_decimal_value_nonneg(seen);
        }
        acc = acc * 10 + (b - 0x30) as u32;
        if acc > 0xffff {
            acc = 0x10000;
        }
        i = i + 1;
    }
    proof {
        assert(bytes@.subrange(start as int, bytes@.len() as int) =~= all);
        assert(bytes@.skip(0) =~= bytes@);
    }
    if acc <= 0xffff {
        Some(acc as u16)
    } else {
        None
    }
}

/// Decides the server host: the environment's value when one is set,
/// otherwise the default.
pub fn resolve_host(env_value: Option<String>) -> (host: String)
    ensures
        match env_value {
            Some(v) => host == v,
            None => host@ == DEFAULT_HOST@,
        },
{
    match env_value {
        Some(v) => v,
        None => DEFAULT_HOST.to_owned(),
    }
}

/// Decides the server port: the default when the environment sets none, and
/// the parsed value of the environment's text otherwise; an unparsable text
/// yields nothing, and it is the host program's place to refuse it.
pub fn resolve_port(env_value: Option<&str>) -> (port: Option<u16>)
    ensures
        match env_value {
            Some(v) => port == spec_parse_port(v.spec_bytes()),
            None => port == Some(DEFAULT_PORT),
        },
{
    match env_value {
        Some(v) => parse_port(v),
        None => Some(DEFAULT_PORT),
    }
}

} // verus!
