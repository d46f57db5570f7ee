//! Base64 decoding over the radar alphabet `a-z A-Z 0-9 + /`, without padding.

use vstd::prelude::*;

verus! {

/// Why an encoded radar could not be decoded.
#[derive(Debug, Clone, Copy, PartialEq, Eq, Structural)]
pub enum DecodeError {
    /// A character outside the alphabet.
    InvalidCharacter,
    /// A length that no byte string encodes to (`4n + 1` characters), or a
    /// decoded radar that is not 11 bytes long.
    InvalidLength,
}

/// The 6-bit value of an alphabet character.
pub open spec fn sextet(c: char) -> Option<int> {
    let u = c as u32 as int;
    if 'a' as u32 <= c as u32 && c as u32 <= 'z' as u32 {
        Some(u - 'a' as u32 as int)
    } else if 'A' as u32 <= c as u32 && c as u32 <= 'Z' as u32 {
        Some(26 + u - 'A' as u32 as int)
    } else if '0' as u32 <= c as u32 && c as u32 <= '9' as u32 {
        Some(52 + u - '0' as u32 as int)
    } else if c == '+' {
        Some(62)
    } else if c == '/' {
        Some(63)
    } else {
        None
    }
}

/// Every character of `s` is in the alphabet.
pub open spec fn all_in_alphabet(s: Seq<char>) -> bool {
    forall|i: int| 0 <= i < s.len() ==> (#[trigger] sextet(s[i])).is_some()
}

/// Value of character `k` of `s`.
pub open spec fn value_at(s: Seq<char>, k: int) -> int {
    sextet(s[k]).unwrap()
}

/// Number of bytes that `n` characters encode: three per full group of four,
/// one for a trailing pair, two for a trailing triple.
pub open spec fn decoded_len(n: int) -> int {
    let r = n % 4;
    let tail: int = if r == 2 {
        1
    } else if r == 3 {
        2
    } else {
        0
    };
    (n / 4) * 3 + tail
}

/// Byte `k` of the decoding: built from the characters of group `k / 3`.
pub open spec fn decoded_byte(s: Seq<char>, k: int) -> u8 {
    let base = (k / 3) * 4;
    let p = k % 3;
    if p == 0 {
        (value_at(s, base) * 4 + value_at(s, base + 1) / 16) as u8
    } else if p == 1 {
        ((value_at(s, base + 1) % 16) * 16 + value_at(s, base + 2) / 4) as u8
    } else {
        ((value_at(s, base + 2) % 4) * 64 + value_at(s, base + 3)) as u8
    }
}

/// What `decode_base64` returns for the characters `s`.
pub open spec fn base64_decode(s: Seq<char>) -> Result<Seq<u8>, DecodeError> {
    if s.len() % 4 == 1 {
        Err(DecodeError::InvalidLength)
    } else if !all_in_alphabet(s) {
        Err(DecodeError::InvalidCharacter)
    } else {
        Ok(Seq::new(decoded_len(s.len() as int) as nat, |k: int| decoded_byte(s, k)))
    }
}

/// The 6-bit value of one character, if it is in the alphabet.
fn sextet_of(c: char) -> (r: Option<u8>)
    ensures
        r.is_some() == sextet(c).is_some(),
        r.is_some() ==> r.unwrap() as int == sextet(c).unwrap(),
        r.is_some() ==> r.unwrap() < 64,
{
    let u: u32 = c as u32;
    if 'a' as u32 <= u && u <= 'z' as u32 {
        Some((u - 'a' as u32) as u8)
    } else if 'A' as u32 <= u && u <= 'Z' as u32 {
        Some((26 + u - 'A' as u32) as u8)
    } else if '0' as u32 <= u && u <= '9' as u32 {
        Some((52 + u - '0' as u32) as u8)
    } else if c == '+' {
        Some(62)
    } else if c == '/' {
        Some(63)
    } else {
        None
    }
}

/// Decodes `input`; an input of `4n + 1` characters is refused with
/// `InvalidLength`, one with a character outside the alphabet with
/// `InvalidCharacter`.
pub fn decode_base64(input: &str) -> (r: Result<Vec<u8>, DecodeError>)
    ensures
        match r {
            Ok(bytes) => base64_decode(input@) == Ok::<Seq<u8>, DecodeError>(bytes@),
            Err(e) => base64_decode(input@) == Err::<Seq<u8>, DecodeError>(e),
        },
{
    let n: usize = input.unicode_len();
    if n % 4 == 1 {
        return Err(DecodeError::InvalidLength);
    }
    let mut values: Vec<u8> = Vec::new();
    let mut i: usize = 0;
    while i < n
        invariant
            n == input@.len(),
            n % 4 != 1,
            i <= n,
            values@.len() == i,
            forall|k: int| 0 <= k < i ==> #[trigger] sextet(input@[k]).is_some(),
            forall|k: int| 0 <= k < i ==> values@[k] as int == #[trigger] value_at(input@, k),
            forall|k: int| 0 <= k < i ==> #[trigger] values@[k] < 64,
        decreases n - i,
    {
        let c: char = input.get_char(i);
        match sextet_of(c) {
            Some(v) => {
                values.push(v);
            },
            None => {
                assert(sextet(input@[i as int]).is_none());
                assert(!all_in_alphabet(input@));
                assert(input@.len() % 4 != 1);
                assert(base64_decode(input@) == Err::<Seq<u8>, DecodeError>(DecodeError::InvalidCharacter));
                return Err(DecodeError::InvalidCharacter);
            },
        }
        i += 1;
    }
    let ghost s = input@;
    let mut bytes: Vec<u8> = Vec::new();
    let mut g: usize = 0;
    while n - g >= 4
        invariant
            n == s.len(),
            n % 4 != 1,
            values@.len() == n,
            forall|k: int| 0 <= k < n ==> values@[k] as int == #[trigger] value_at(s, k),
            forall|k: int| 0 <= k < n ==> #[trigger] values@[k] < 64,
            g % 4 == 0,
            g <= n,
            bytes@.len() == (g / 4) * 3,
            forall|k: int| 0 <= k < bytes@.len() ==> bytes@[k] == #[trigger] decoded_byte(s, k),
        decreases n - g,
    {
        let c0: u8 = values[g];
        let c1: u8 = values[g + 1];
        let c2: u8 = values[g + 2];
        let c3: u8 = values[g + 3];
        bytes.push(c0 * 4 + c1 / 16);
        bytes.push((c1 % 16) * 16 + c2 / 4);
        bytes.push((c2 % 4) * 64 + c3);
        proof {
            let b = (g / 4) * 3;
            assert(b / 3 == g / 4 && b % 3 == 0);
            assert((b + 1) / 3 == g / 4 && (b + 1) % 3 == 1);
            assert((b + 2) / 3 == g / 4 && (b + 2) % 3 == 2);
            assert(((g / 4) * 4) == g);
        }
        g += 4;
    }
    let rest: usize = n - g;
    proof {
        assert(g == (n / 4) * 4);
        assert(rest == n % 4);
    }
    if rest >= 2 {
        let c0: u8 = values[g];
        let c1: u8 = values[g + 1];
        bytes.push(c0 * 4 + c1 / 16);
        if rest == 3 {
            let c2: u8 = values[g + 2];
            bytes.push((c1 % 16) * 16 + c2 / 4);
        }
        proof {
            let b = (g / 4) * 3;
            assert(b / 3 == g / 4 && b % 3 == 0);
            assert((b + 1) / 3 == g / 4 && (b + 1) % 3 == 1);
            assert(((g / 4) * 4) == g);
        }
    }
    assert(bytes@ =~= Seq::new(decoded_len(n as int) as nat, |k: int| decoded_byte(s, k)));
    Ok(bytes)
}

} // verus!
