//! The digest of a release archive: 32 bytes, written as 64 lowercase
//! hexadecimal digits.

use crate::text::chars_of;
use vstd::prelude::*;
use vstd::std_specs::cmp::PartialEqSpecImpl;

verus! {

/// Number of bytes in a digest.
pub const DIGEST_LEN: usize = 32;

/// Whether `c` is a lowercase hexadecimal digit.
pub open spec fn is_hex(c: char) -> bool {
    ('0' <= c && c <= '9') || ('a' <= c && c <= 'f')
}

/// The value of the hexadecimal digit `c`.
pub open spec fn hex_value(c: char) -> nat
    recommends
        is_hex(c),
{
    if c <= '9' {
        (c as u32 - '0' as u32) as nat
    } else {
        (c as u32 - 'a' as u32 + 10) as nat
    }
}

/// The lowercase hexadecimal digit that writes `v`.
pub open spec fn hex_char(v: nat) -> char
    recommends
        v < 16,
{
    if v == 0 {
        '0'
    } else if v == 1 {
        '1'
    } else if v == 2 {
        '2'
    } else if v == 3 {
        '3'
    } else if v == 4 {
        '4'
    } else if v == 5 {
        '5'
    } else if v == 6 {
        '6'
    } else if v == 7 {
        '7'
    } else if v == 8 {
        '8'
    } else if v == 9 {
        '9'
    } else if v == 10 {
        'a'
    } else if v == 11 {
        'b'
    } else if v == 12 {
        'c'
    } else if v == 13 {
        'd'
    } else if v == 14 {
        'e'
    } else {
        'f'
    }
}

/// Whether every character of `s` is a lowercase hexadecimal digit.
pub open spec fn all_hex(s: Seq<char>) -> bool {
    forall|i: int| 0 <= i < s.len() ==> is_hex(#[trigger] s[i])
}

/// How bytes are written in hexadecimal: two lowercase digits for each,
/// the high half first.
pub open spec fn hex_of(bytes: Seq<u8>) -> Seq<char> {
    Seq::new(
        2 * bytes.len(),
        |i: int|
            if i % 2 == 0 {
                hex_char((bytes[i / 2] / 16) as nat)
            } else {
                hex_char((bytes[i / 2] % 16) as nat)
            },
    )
}

/// The bytes that an even-length run of hexadecimal digits writes.
pub open spec fn bytes_of_hex(s: Seq<char>) -> Seq<u8> {
    Seq::new(
        s.len() / 2,
        |i: int| (hex_value(s[2 * i]) * 16 + hex_value(s[2 * i + 1])) as u8,
    )
}

/// Why a string is not a digest.
#[derive(Clone, Copy, Debug, PartialEq, Eq, Structural)]
pub enum DigestError {
    /// The string is not 64 characters long.
    Length,
    /// The string has the length of a digest, but one of its characters is
    /// no lowercase hexadecimal digit.
    Digit,
}

/// What a string means as a digest: 64 lowercase hexadecimal digits give
/// the 32 bytes they write, anything else is an error.
pub open spec fn parse_digest(s: Seq<char>) -> Result<Seq<u8>, DigestError> {
    if s.len() != 2 * DIGEST_LEN {
        Err(DigestError::Length)
    } else if !all_hex(s) {
        Err(DigestError::Digit)
    } else {
        Ok(bytes_of_hex(s))
    }
}

/// A SHA-256 digest.
#[derive(Clone, Copy, Debug)]
pub struct Sha256Hash {
    pub digest: [u8; 32],
}

impl View for Sha256Hash {
    type V = Seq<u8>;

    open spec fn view(&self) -> Seq<u8> {
        self.digest@
    }
}

impl PartialEqSpecImpl for Sha256Hash {
    open spec fn obeys_eq_spec() -> bool {
        true
    }

    open spec fn eq_spec(&self, other: &Sha256Hash) -> bool {
        self@ == other@
    }
}

impl PartialEq for Sha256Hash {
    fn eq(&self, other: &Sha256Hash) -> (r: bool) {
        let mut i: usize = 0;
        while i < 32
            invariant
                i <= 32,
                forall|k: int| 0 <= k < i ==> self.digest@[k] == other.digest@[k],
            decreases 32 - i,
        {
            if self.digest[i] != other.digest[i] {
                return false;
            }
            i += 1;
        }
        assert(self.digest@ =~= other.digest@);
        true
    }
}

impl Eq for Sha256Hash {

}

/// The value of one lowercase hexadecimal digit, `None` for any other
/// character.
pub fn hex_digit(c: char) -> (r: Option<u8>)
    ensures
        r is Some == is_hex(c),
        is_hex(c) ==> r == Some(hex_value(c) as u8),
{
    if '0' <= c && c <= '9' {
        Some((c as u32 - '0' as u32) as u8)
    } else if 'a' <= c && c <= 'f' {
        Some((c as u32 - 'a' as u32 + 10) as u8)
    } else {
        None
    }
}

/// The lowercase hexadecimal digit for a value below 16.
pub(crate) fn hex_digit_char(v: u8) -> (r: char)
    requires
        v < 16,
    ensures
        r == hex_char(v as nat),
{
    if v == 0 {
        '0'
    } else if v == 1 {
        '1'
    } else if v == 2 {
        '2'
    } else if v == 3 {
        '3'
    } else if v == 4 {
        '4'
    } else if v == 5 {
        '5'
    } else if v == 6 {
        '6'
    } else if v == 7 {
        '7'
    } else if v == 8 {
        '8'
    } else if v == 9 {
        '9'
    } else if v == 10 {
        'a'
    } else if v == 11 {
        'b'
    } else if v == 12 {
        'c'
    } else if v == 13 {
        'd'
    } else if v == 14 {
        'e'
    } else {
        'f'
    }
}

/// Reads `chars[from..to]` as a digest.
pub(crate) fn digest_of_chars(chars: &Vec<char>, from: usize, to: usize) -> (r: Result<
    Sha256Hash,
    DigestError,
>)
    requires
        from <= to <= chars.len(),
    ensures
        match r {
            Ok(d) => parse_digest(chars@.subrange(from as int, to as int)) == Ok::<
                Seq<u8>,
                DigestError,
            >(d@),
            Err(e) => parse_digest(chars@.subrange(from as int, to as int)) == Err::<
                Seq<u8>,
                DigestError,
            >(e),
        },
{
    let ghost s = chars@.subrange(from as int, to as int);
    if to - from != 64 {
        return Err(DigestError::Length);
    }
    let mut digest: [u8; 32] = [0u8;32];
    let mut i: usize = 0;
    while i < 32
        invariant
            i <= 32,
            from + 64 == to <= chars.len(),
            s == chars@.subrange(from as int, to as int),
            forall|k: int| 0 <= k < 2 * i ==> is_hex(#[trigger] s[k]),
            forall|k: int| 0 <= k < i ==> digest@[k] == bytes_of_hex(s)[k],
        decreases 32 - i,
    {
        let high = hex_digit(chars[from + 2 * i]);
        let low = hex_digit(chars[from + 2 * i + 1]);
        proof {
            assert(s[2 * i] == chars@[from + 2 * i]);
            assert(s[2 * i + 1] == chars@[from + 2 * i + 1]);
        }
        match (high, low) {
            (Some(h), Some(l)) => {
                digest[i] = h * 16 + l;
            },
            _ => {
                assert(!all_hex(s));
                return Err(DigestError::Digit);
            },
        }
        i += 1;
    }
    assert(digest@ =~= bytes_of_hex(s));
    Ok(Sha256Hash { digest })
}

impl Sha256Hash {
    /// Reads a digest from 64 lowercase hexadecimal digits.
    pub fn from_str(s: &str) -> (r: Result<Sha256Hash, DigestError>)
        ensures
            match r {
                Ok(d) => parse_digest(s@) == Ok::<Seq<u8>, DigestError>(d@),
                Err(e) => parse_digest(s@) == Err::<Seq<u8>, DigestError>(e),
            },
    {
        let chars = chars_of(s);
        assert(chars@.subrange(0, chars.len() as int) == s@);
        digest_of_chars(&chars, 0, chars.len())
    }

    /// Writes the digest as 64 lowercase hexadecimal digits.
    pub fn to_string(&self) -> (r: String)
        ensures
            r@ == hex_of(self@),
    {
        let mut out = String::new();
        let mut i: usize = 0;
        while i < 32
            invariant
                i <= 32,
                out@ == hex_of(self@).subrange(0, 2 * i),
            decreases 32 - i,
        {
            let b = self.digest[i];
            out.push(hex_digit_char(b / 16));
            out.push(hex_digit_char(b % 16));
            i += 1;
            assert(out@ =~= hex_of(self@).subrange(0, 2 * i));
        }
        assert(hex_of(self@).subrange(0, 64) =~= hex_of(self@));
        out
    }

    /// The bytes of the digest.
    pub fn as_bytes(&self) -> (r: &[u8; 32])
        ensures
            r@ == self@,
    {
        &self.digest
    }
}

/// A digit's value, written back, is the digit; a value below 16, written
/// and read back, is the value.
pub proof fn lemma_hex_digit(c: char, v: nat)
    ensures
        is_hex(c) ==> hex_value(c) < 16 && hex_char(hex_value(c)) == c,
        v < 16 ==> is_hex(hex_char(v)) && hex_value(hex_char(v)) == v,
{
}

/// Writing 32 bytes in hexadecimal and reading the digits back gives the
/// same bytes.
pub proof fn lemma_hex_parses(bytes: Seq<u8>)
    requires
        bytes.len() == DIGEST_LEN,
    ensures
        parse_digest(hex_of(bytes)) == Ok::<Seq<u8>, DigestError>(bytes),
{
    let s = hex_of(bytes);
    assert forall|i: int| 0 <= i < s.len() implies is_hex(#[trigger] s[i]) by {
        let b = bytes[i / 2];
        lemma_hex_digit('0', (b / 16) as nat);
        lemma_hex_digit('0', (b % 16) as nat);
    }
    assert forall|i: int| 0 <= i < bytes.len() implies bytes_of_hex(s)[i] == bytes[i] by {
        let b = bytes[i];
        lemma_hex_digit('0', (b / 16) as nat);
        lemma_hex_digit('0', (b % 16) as nat);
        assert(s[2 * i] == hex_char((b / 16) as nat));
        assert(s[2 * i + 1] == hex_char((b % 16) as nat));
    }
    assert(bytes_of_hex(s) =~= bytes);
}

/// A string that parses as a digest is the hexadecimal form of that digest:
/// no two strings give the same digest.
pub proof fn lemma_parse_writes_back(s: Seq<char>)
    requires
        parse_digest(s) is Ok,
    ensures
        hex_of(parse_digest(s)->Ok_0) == s,
{
    let bytes = bytes_of_hex(s);
    assert forall|i: int| 0 <= i < s.len() implies hex_of(bytes)[i] == s[i] by {
        let k = i / 2;
        lemma_hex_digit(s[2 * k], 0);
        lemma_hex_digit(s[2 * k + 1], 0);
        let h = hex_value(s[2 * k]);
        let l = hex_value(s[2 * k + 1]);
        assert(bytes[k] == (h * 16 + l) as u8);
        assert((h * 16 + l) / 16 == h && (h * 16 + l) % 16 == l);
    }
    assert(hex_of(bytes) =~= s);
}

} // verus!
