//! Resolving the launcher-passed handle: the value of one environment
//! variable, a decimal string, names the raw OS handle the handshake runs
//! over. This module parses that value into a handle identifier; the
//! environment read itself happens in the surrounding program, which hands
//! the bytes (or their absence) in.

use vstd::prelude::*;

use crate::errors::ErrorKind;

verus! {

/// An integer naming an OS-level I/O resource inherited from the launching
/// process. It is never closed or altered by the handshake: each attempt only
/// reads it and duplicates it, so a failed attempt leaves it usable for the
/// next one.
#[derive(Clone, Copy, Debug, PartialEq, Eq, Structural)]
pub struct RawHandleId {
    pub id: i32,
}

/// An ASCII decimal digit.
pub open spec fn is_ascii_digit(b: u8) -> bool {
    48 <= b <= 57
}

/// Numeric value of an ASCII decimal digit.
pub open spec fn digit_val(b: u8) -> int {
    b - 48
}

/// Every byte of `s` is an ASCII decimal digit.
pub open spec fn all_digits(s: Seq<u8>) -> bool {
    forall|i: int| 0 <= i < s.len() ==> is_ascii_digit(#[trigger] s[i])
}

/// The number a sequence of decimal digits denotes, most significant first.
pub open spec fn digits_value(s: Seq<u8>) -> int
    recommends
        all_digits(s),
    decreases s.len(),
{
    if s.len() == 0 {
        0
    } else {
        digits_value(s.drop_last()) * 10 + digit_val(s.last())
    }
}

/// Length of the optional leading sign (one `+` or `-`).
pub open spec fn sign_len(s: Seq<u8>) -> int {
    if s.len() > 0 && (s[0] == 43 || s[0] == 45) {
        1
    } else {
        0
    }
}

/// The bytes after the optional sign.
pub open spec fn digits_part(s: Seq<u8>) -> Seq<u8> {
    s.subrange(sign_len(s), s.len() as int)
}

/// Whether the text denotes a negative number (leading `-`).
pub open spec fn is_negative(s: Seq<u8>) -> bool {
    s.len() > 0 && s[0] == 45
}

/// The signed value the text denotes.
pub open spec fn handle_text_value(s: Seq<u8>) -> int {
    if is_negative(s) {
        -digits_value(digits_part(s))
    } else {
        digits_value(digits_part(s))
    }
}

/// The texts accepted as a handle identifier: an optional sign followed by
/// one or more ASCII decimal digits, denoting a value that fits the handle
/// integer type. This is exactly what the standard integer parser accepts.
pub open spec fn is_valid_handle_text(s: Seq<u8>) -> bool {
    &&& digits_part(s).len() > 0
    &&& all_digits(digits_part(s))
    &&& i32::MIN <= handle_text_value(s) <= i32::MAX
}

/// A sequence of digits denotes a non-negative number.
proof fn lemma_digits_value_nonneg(s: Seq<u8>)
    requires
        all_digits(s),
    ensures
        digits_value(s) >= 0,
    decreases s.len(),
{
    if s.len() > 0 {
        lemma_digits_value_nonneg(s.drop_last());
    }
}

/// Reading more digits never shrinks the denoted number: the value of a
/// prefix is at most the value of the whole digit string.
proof fn lemma_digits_prefix_le(s: Seq<u8>, j: int)
    requires
        all_digits(s),
        0 <= j <= s.len(),
    ensures
        digits_value(s.subrange(0, j)) <= digits_value(s),
    decreases s.len() - j,
{
    if j == s.len() {
        assert(s.subrange(0, j) =~= s);
    } else {
        let shorter = s.subrange(0, j);
        let longer = s.subrange(0, j + 1);
        assert(longer.drop_last() =~= shorter);
        lemma_digits_value_nonneg(shorter);
        lemma_digits_prefix_le(s, j + 1);
    }
}

/// HandleResolver's parsing half: turns the bytes of the environment value
/// into a raw handle identifier, accepting exactly the valid handle texts.
pub fn parse_handle_id(s: &[u8]) -> (r: Result<RawHandleId, ErrorKind>)
    ensures
        match r {
            Ok(h) => is_valid_handle_text(s@) && h.id == handle_text_value(s@),
            Err(k) => k == ErrorKind::EnvInvalid && !is_valid_handle_text(s@),
        },
{
    let n = s.len();
    let mut neg: bool = false;
    let mut start: usize = 0;
    if n > 0 && (s[0] == 43 || s[0] == 45) {
        neg = s[0] == 45;
        start = 1;
    }
    if start >= n {
        // no digits at all
        assert(digits_part(s@).len() == 0);
        return Err(ErrorKind::EnvInvalid);
    }
    assert(start == sign_len(s@));
    assert(neg == is_negative(s@));
    let mut acc: u64 = 0;
    let mut i: usize = start;
    proof {
        assert(s@.subrange(start as int, start as int) =~= Seq::<u8>::empty());
    }
    while i < n
        invariant
            start <= i <= n,
            n == s@.len(),
            start == sign_len(s@),
            start < n,
            neg == is_negative(s@),
            all_digits(s@.subrange(start as int, i as int)),
            acc == digits_value(s@.subrange(start as int, i as int)),
            acc <= 0x8000_0000,
        decreases n - i,
    {
        let b = s[i];
        if !(48 <= b && b <= 57) {
            proof {
                let d = digits_part(s@);
                assert(d[i - start as int] == s@[i as int]);
                assert(!is_ascii_digit(d[i - start as int]));
            }
            return Err(ErrorKind::EnvInvalid);
        }
        let d: u64 = (b - 48) as u64;
        let new_acc: u64 = acc * 10 + d;
        proof {
            let prefix = s@.subrange(start as int, i as int);
            let extended = s@.subrange(start as int, i as int + 1);
            assert(extended.drop_last() =~= prefix);
            assert(extended.last() == s@[i as int]);
            assert(new_acc == digits_value(extended));
        }
        if new_acc > 0x8000_0000 {
            // Too large in magnitude for either sign; if the rest of the
            // bytes are digits at all, the denoted value only grows.
            proof {
                let dpart = digits_part(s@);
                if all_digits(dpart) {
                    let taken = i as int + 1 - start as int;
                    assert(dpart.subrange(0, taken) =~= s@.subrange(
                        start as int,
                        i as int + 1,
                    ));
                    lemma_digits_prefix_le(dpart, taken);
                    assert(digits_value(dpart) > 0x8000_0000);
                }
            }
            return Err(ErrorKind::EnvInvalid);
        }
        acc = new_acc;
        i = i + 1;
    }
    proof {
        assert(s@.subrange(start as int, n as int) =~= digits_part(s@));
    }
    // here the whole digit part is digits and acc is its value, at most 2^31
    if !neg && acc > 0x7fff_ffff {
        return Err(ErrorKind::EnvInvalid);
    }
    let id: i32 = if neg {
        if acc == 0x8000_0000 {
            i32::MIN
        } else {
            -(acc as i32)
        }
    } else {
        acc as i32
    };
    Ok(RawHandleId { id })
}

/// HandleResolver: from the environment variable's state (absent, or present
/// with these bytes) to a raw handle identifier. Absence and an unparsable
/// value are distinct, both retryable, errors.
pub fn resolve_handle(value: Option<&[u8]>) -> (r: Result<RawHandleId, ErrorKind>)
    ensures
        match r {
            Ok(h) => value matches Some(s) && is_valid_handle_text(s@) && h.id
                == handle_text_value(s@),
            Err(k) => match value {
                None => k == ErrorKind::EnvMissing,
                Some(s) => k == ErrorKind::EnvInvalid && !is_valid_handle_text(s@),
            },
        },
{
    match value {
        None => Err(ErrorKind::EnvMissing),
        Some(s) => parse_handle_id(s),
    }
}

} // verus!

