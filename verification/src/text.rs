//! Text crossing the boundary: byte strings coming in must decode as UTF-8,
//! byte strings going out must be free of embedded terminator bytes.

use vstd::prelude::*;

verus! {

/// What `String::from_utf8` yields on a byte sequence: the decoded
/// characters, or nothing when the bytes are not valid UTF-8. Decoding is a
/// pure function of the bytes alone.
pub uninterp spec fn utf8_decode(bytes: Seq<u8>) -> Option<Seq<char>>;

/// Relies on `String::from_utf8` (std): it succeeds exactly on valid UTF-8,
/// deterministically in the bytes, and never panics.
#[verifier::external_body]
pub(crate) fn decode_utf8(bytes: Vec<u8>) -> (r: Option<String>)
    ensures
        (r matches Some(s) ==> utf8_decode(bytes@) == Some(s@)),
        (r is None ==> utf8_decode(bytes@) is None),
{
    String::from_utf8(bytes).ok()
}

/// A lowercase hexadecimal digit byte, as `hex::encode` produces them.
pub open spec fn is_hex_byte(b: u8) -> bool {
    (0x30 <= b <= 0x39) || (0x61 <= b <= 0x66)
}

/// Every byte is a lowercase hexadecimal digit.
pub open spec fn hex_bytes(s: Seq<u8>) -> bool {
    forall|i: int| 0 <= i < s.len() ==> is_hex_byte(s[i])
}

/// A hexadecimal digit character, either case: what a hex decoder accepts.
pub open spec fn is_hex_char(c: char) -> bool {
    ('0' <= c && c <= '9') || ('a' <= c && c <= 'f') || ('A' <= c && c <= 'F')
}

/// A well-formed hexadecimal payload: an even number of hex digit
/// characters. Anything else makes a hex decoder reject the text outright.
pub open spec fn hex_payload(s: Seq<char>) -> bool {
    s.len() % 2 == 0 && (forall|i: int| 0 <= i < s.len() ==> is_hex_char(s[i]))
}

/// Decides whether a payload is well-formed hexadecimal text.
pub fn check_hex_payload(s: &str) -> (r: bool)
    ensures
        r == hex_payload(s@),
{
    if !s.is_ascii() {
        proof {
            let i = choose|i: int| 0 <= i < s@.len() && !('\0' <= #[trigger] s@[i] <= '\u{7f}');
            assert(!is_hex_char(s@[i]));
        }
        return false;
    }
    proof {
        vstd::string::is_ascii_spec_bytes(s);
    }
    let bs = s.as_bytes();
    if bs.len() % 2 != 0 {
        return false;
    }
    let n = bs.len();
    let mut i: usize = 0;
    while i < n
        invariant
            0 <= i <= n,
            vstd::string::is_ascii(s),
            bs@ =~= Seq::new(s@.len(), |k: int| s@[k] as u8),
            n == bs@.len(),
            n % 2 == 0,
            forall|k: int| 0 <= k < i ==> is_hex_char(s@[k]),
        decreases n - i,
    {
        let b = bs[i];
        let hex = (0x30 <= b && b <= 0x39) || (0x61 <= b && b <= 0x66) || (0x41 <= b && b
            <= 0x46);
        proof {
            assert(s@[i as int] as u8 == b);
            assert('\0' <= s@[i as int] <= '\u{7f}');
        }
        if !hex {
            proof {
                assert(!is_hex_char(s@[i as int]));
            }
            return false;
        }
        proof {
            assert(is_hex_char(s@[i as int]));
        }
        i += 1;
    }
    true
}

/// No zero byte anywhere: the condition for a byte string to be handed
/// across the boundary, where the receiving side appends its terminator.
pub open spec fn nul_free(s: Seq<u8>) -> bool {
    forall|i: int| 0 <= i < s.len() ==> s[i] != 0u8
}

/// Hexadecimal text never embeds a terminator byte.
pub proof fn lemma_hex_bytes_nul_free(s: Seq<u8>)
    requires
        hex_bytes(s),
    ensures
        nul_free(s),
{
    assert forall|i: int| 0 <= i < s.len() implies s[i] != 0u8 by {
        assert(is_hex_byte(s[i]));
    }
}

/// Turns internal text into a transferable string: succeeds exactly when no
/// embedded terminator byte is present, handing the bytes through unchanged.
pub fn make_transferable(bytes: Vec<u8>) -> (r: Option<Vec<u8>>)
    ensures
        (r matches Some(v) ==> nul_free(bytes@) && v@ == bytes@),
        (r is None ==> !nul_free(bytes@)),
{
    let n = bytes.len();
    let mut i: usize = 0;
    while i < n
        invariant
            0 <= i <= n == bytes@.len(),
            forall|k: int| 0 <= k < i ==> bytes@[k] != 0u8,
        decreases n - i,
    {
        if bytes[i] == 0u8 {
            return None;
        }
        i += 1;
    }
    Some(bytes)
}

/// Reclaims a transferable string. An absent string is a safe no-op; a
/// present one is dropped here, exactly once, by ownership.
pub fn signer_free_string(s: Option<Vec<u8>>) {
    let _ = s;
}

} // verus!
