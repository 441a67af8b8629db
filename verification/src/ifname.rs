//! Interface names: validation, the fixed-capacity request name buffer, and
//! recovery of the stored name.
//!
//! The kernel's creation request carries the interface name in a 16-byte
//! NUL-terminated buffer. A requested name must be non-empty, shorter than
//! 16 bytes and all ASCII alphanumeric; an all-NUL buffer asks the kernel to
//! assign a name itself.

use vstd::prelude::*;
use vstd::string::StringSliceAdditionalSpecFns;
use crate::error::Error;

verus! {

/// A character allowed in an interface name: ASCII alphanumeric.
pub open spec fn is_name_char(c: char) -> bool {
    ('0' <= c && c <= '9') || ('A' <= c && c <= 'Z') || ('a' <= c && c <= 'z')
}

/// A requestable interface name: non-empty, strictly shorter than the
/// 16-byte buffer, all ASCII alphanumeric.
pub open spec fn valid_name(s: Seq<char>) -> bool {
    &&& 0 < s.len() < 16
    &&& forall|i: int| 0 <= i < s.len() ==> is_name_char(#[trigger] s[i])
}

/// The bytes of an all-ASCII character sequence, one byte per character.
pub open spec fn ascii_bytes(s: Seq<char>) -> Seq<u8> {
    s.map_values(|c: char| c as u8)
}

/// A byte sequence padded with NUL bytes up to the buffer size.
pub open spec fn pad16(s: Seq<u8>) -> Seq<u8>
    recommends
        s.len() <= 16,
{
    s + Seq::new((16 - s.len()) as nat, |i: int| 0u8)
}

/// `n` is the position of the first NUL byte of `b`.
pub open spec fn first_nul_at(b: Seq<u8>, n: int) -> bool {
    &&& 0 <= n < b.len()
    &&& b[n] == 0
    &&& forall|j: int| 0 <= j < n ==> b[j] != 0
}

/// Every valid name is ASCII.
pub proof fn lemma_valid_name_is_ascii(s: Seq<char>)
    requires
        valid_name(s),
    ensures
        vstd::utf8::is_ascii_chars(s),
{
    assert forall|i: int| 0 <= i < s.len() implies '\0' <= #[trigger] s[i] <= '\u{7f}' by {
        assert(is_name_char(s[i]));
    }
}

/// The fixed-capacity name buffer of a kernel interface request: 16 bytes,
/// NUL-terminated, ASCII throughout.
#[derive(Debug)]
pub struct IfName {
    bytes: Vec<u8>,
}

impl View for IfName {
    type V = Seq<u8>;

    closed spec fn view(&self) -> Seq<u8> {
        self.bytes@
    }
}

/// Tests one byte for ASCII-alphanumeric membership.
fn is_name_byte(b: u8) -> (r: bool)
    ensures
        r == is_name_char(b as char),
{
    (48u8 <= b && b <= 57u8) || (65u8 <= b && b <= 90u8) || (97u8 <= b && b <= 122u8)
}

impl IfName {
    /// Well-formed buffer: full size, terminated, ASCII throughout.
    pub open spec fn wf(&self) -> bool {
        &&& self@.len() == 16
        &&& self@[15] == 0
        &&& forall|i: int| 0 <= i < 16 ==> self@[i] < 128
    }

    /// The raw buffer, as a creation or control request carries it.
    pub fn raw(&self) -> (r: &Vec<u8>)
        ensures
            r@ == self@,
    {
        &self.bytes
    }

    /// An owned copy of the buffer, for a request that outlives the handle's
    /// borrow.
    pub fn duplicate(&self) -> (r: IfName)
        ensures
            r@ == self@,
    {
        let mut bytes: Vec<u8> = Vec::new();
        let mut i: usize = 0;
        while i < self.bytes.len()
            invariant
                i <= self.bytes@.len(),
                bytes@ == self.bytes@.take(i as int),
            decreases self.bytes@.len() - i,
        {
            bytes.push(self.bytes[i]);
            proof {
                assert(self.bytes@.take(i + 1 as int) =~= self.bytes@.take(i as int).push(
                    self.bytes@[i as int],
                ));
            }
            i += 1;
        }
        proof {
            assert(bytes@ =~= self.bytes@);
        }
        IfName { bytes }
    }

    /// Decides well-formedness at run time, for callers outside the verified
    /// world that must test it before relying on it.
    pub fn is_well_formed(&self) -> (r: bool)
        ensures
            r == self.wf(),
    {
        if self.bytes.len() != 16 {
            return false;
        }
        if self.bytes[15] != 0u8 {
            return false;
        }
        let mut i: usize = 0;
        while i < 16
            invariant
                self.bytes@.len() == 16,
                i <= 16,
                forall|j: int| 0 <= j < i ==> self.bytes@[j] < 128,
            decreases 16 - i,
        {
            if self.bytes[i] >= 128 {
                return false;
            }
            i += 1;
        }
        true
    }

    /// Accepts a raw name buffer as the kernel resolved it, provided it is a
    /// full-size, NUL-terminated, ASCII buffer.
    pub fn from_raw(bytes: Vec<u8>) -> (r: Option<IfName>)
        ensures
            match r {
                Some(b) => b.wf() && b@ == bytes@,
                None => !(bytes@.len() == 16 && bytes@[15] == 0 && forall|i: int|
                    0 <= i < 16 ==> bytes@[i] < 128),
            },
    {
        if bytes.len() != 16 {
            return None;
        }
        if bytes[15] != 0u8 {
            return None;
        }
        let mut i: usize = 0;
        while i < 16
            invariant
                bytes@.len() == 16,
                i <= 16,
                forall|j: int| 0 <= j < i ==> bytes@[j] < 128,
            decreases 16 - i,
        {
            if bytes[i] >= 128 {
                return None;
            }
            i += 1;
        }
        Some(IfName { bytes })
    }

    /// The stored name: the text before the NUL terminator.
    pub fn name_str(&self) -> (r: String)
        requires
            self.wf(),
        ensures
            first_nul_at(self@, r@.len() as int),
            r@ == self@.take(r@.len() as int).map_values(|b: u8| b as char),
    {
        let mut prefix: Vec<u8> = Vec::new();
        let mut i: usize = 0;
        while self.bytes[i] != 0u8
            invariant
                self.wf(),
                i <= 15,
                prefix@ == self@.take(i as int),
                forall|j: int| 0 <= j < i ==> self@[j] != 0,
            decreases 15 - i,
        {
            prefix.push(self.bytes[i]);
            proof {
                assert(self@.take(i + 1 as int) =~= self@.take(i as int).push(self@[i as int]));
            }
            i += 1;
        }
        string_from_ascii(prefix)
    }
}

/// Relies on String::from_utf8: a vector of ASCII bytes decodes to exactly
/// those bytes, one character each.
#[verifier::external_body]
fn string_from_ascii(bytes: Vec<u8>) -> (r: String)
    requires
        forall|i: int| 0 <= i < bytes@.len() ==> bytes@[i] < 128,
    ensures
        r@ == bytes@.map_values(|b: u8| b as char),
{
    String::from_utf8(bytes).unwrap_or_default()
}

/// Builds the creation request's name buffer: an all-NUL template when no
/// name is requested (the kernel then assigns one), otherwise the validated
/// name padded with NUL bytes. Rejects an invalid name before any OS
/// resource is touched.
pub fn to_ifr_name(name: Option<&str>) -> (r: Result<IfName, Error>)
    ensures
        match r {
            Ok(b) => {
                &&& b.wf()
                &&& match name {
                    Some(s) => valid_name(s@) && b@ == pad16(ascii_bytes(s@)),
                    None => b@ == pad16(Seq::<u8>::empty()),
                }
            },
            Err(e) => {
                &&& e == Error::InvalidName
                &&& name matches Some(s) && !valid_name(s@)
            },
        },
{
    match name {
        None => {
            let mut bytes: Vec<u8> = Vec::new();
            let mut i: usize = 0;
            while i < 16
                invariant
                    i <= 16,
                    bytes@.len() == i,
                    forall|j: int| 0 <= j < i ==> bytes@[j] == 0,
                decreases 16 - i,
            {
                bytes.push(0u8);
                i += 1;
            }
            proof {
                assert(bytes@ =~= pad16(Seq::<u8>::empty()));
            }
            Ok(IfName { bytes })
        },
        Some(s) => {
            if !s.is_ascii() {
                proof {
                    if valid_name(s@) {
                        lemma_valid_name_is_ascii(s@);
                    }
                }
                return Err(Error::InvalidName);
            }
            proof {
                vstd::utf8::is_ascii_chars_encode_utf8(s@);
            }
            let b = s.as_bytes();
            let n = b.len();
            if n == 0 || n >= 16 {
                return Err(Error::InvalidName);
            }
            let mut i: usize = 0;
            while i < n
                invariant
                    name == Some(s),
                    n == s@.len(),
                    n == b@.len(),
                    b@ == s.spec_bytes(),
                    vstd::utf8::is_ascii_chars(s@),
                    forall|j: int| 0 <= j < n ==> b@[j] == s@[j] as u8,
                    forall|j: int| 0 <= j < i ==> is_name_char(#[trigger] s@[j]),
                    i <= n,
                decreases n - i,
            {
                if !is_name_byte(b[i]) {
                    proof {
                        assert(s@[i as int] <= '\u{7f}');
                        assert((s@[i as int] as u8) as char == s@[i as int]);
                        assert(!is_name_char(s@[i as int]));
                        assert(!valid_name(s@));
                    }
                    return Err(Error::InvalidName);
                }
                proof {
                    assert((s@[i as int] as u8) as char == s@[i as int]);
                }
                i += 1;
            }
            let mut bytes: Vec<u8> = Vec::new();
            let mut k: usize = 0;
            while k < n
                invariant
                    n == b@.len(),
                    k <= n,
                    bytes@ == b@.take(k as int),
                decreases n - k,
            {
                bytes.push(b[k]);
                proof {
                    assert(b@.take(k + 1 as int) =~= b@.take(k as int).push(b@[k as int]));
                }
                k += 1;
            }
            while bytes.len() < 16
                invariant
                    n == b@.len(),
                    n < 16,
                    n <= bytes@.len() <= 16,
                    bytes@.subrange(0, n as int) =~= b@,
                    forall|j: int| n <= j < bytes@.len() ==> bytes@[j] == 0,
                decreases 16 - bytes@.len(),
            {
                bytes.push(0u8);
            }
            proof {
                assert(ascii_bytes(s@).len() == s@.len());
                assert(bytes@ =~= pad16(ascii_bytes(s@)));
            }
            Ok(IfName { bytes })
        },
    }
}

/// For every valid requested name, the stored buffer gives the name back
/// unchanged: the text before the terminator is exactly the requested name,
/// trailing padding removed.
pub proof fn lemma_name_round_trip(s: Seq<char>, n: int)
    requires
        valid_name(s),
        first_nul_at(pad16(ascii_bytes(s)), n),
    ensures
        n == s.len(),
        pad16(ascii_bytes(s)).take(n).map_values(|b: u8| b as char) == s,
{
    let buf = pad16(ascii_bytes(s));
    assert forall|j: int| 0 <= j < s.len() implies buf[j] != 0 by {
        assert(is_name_char(s[j]));
        assert(buf[j] == s[j] as u8);
    }
    assert(buf[s.len() as int] == 0);
    if n < s.len() {
        assert(buf[n] != 0);
    }
    if n > s.len() {
        assert(buf[s.len() as int] != 0);
    }
    assert(n == s.len());
    assert forall|j: int| 0 <= j < s.len() implies (buf[j] as char) == s[j] by {
        assert(is_name_char(s[j]));
        assert(s[j] <= '\u{7f}');
        assert(buf[j] == s[j] as u8);
    }
    assert(buf.take(n).map_values(|b: u8| b as char) =~= s);
}

} // verus!
