//! The single-use secret carried in an invitation link, and its stored hash.

use vstd::prelude::*;
use vstd::utf8::encode_utf8;

use crate::encoding::{base58_decode, base58_encode, bs58_encode, is_base58_char, os_random_bytes, sha256, sha256_digest};
use crate::text::owned;

verus! {

/// Number of random bytes in an invitation code.
pub const INVITATION_CODE_BYTES: usize = 16;

/// The text a code is rendered as in diagnostics: the code itself never is.
pub open spec fn redacted_code_text() -> Seq<char> {
    "InvitationCode(\"<redacted>\")"@
}

/// `s` holds `part` as a run of consecutive characters.
pub open spec fn contains_text(s: Seq<char>, part: Seq<char>) -> bool {
    exists|p: int| 0 <= p && p + part.len() <= s.len() && #[trigger] s.subrange(p, p + part.len()) == part
}

/// The text of a generated code: at least [`INVITATION_CODE_BYTES`] characters,
/// all of the base58 alphabet.
pub open spec fn is_code_text(code: Seq<char>) -> bool {
    &&& code.len() >= INVITATION_CODE_BYTES
    &&& forall|i: int| 0 <= i < code.len() ==> is_base58_char(#[trigger] code[i])
}

/// The diagnostic rendering never shows a code: no text of a generated code
/// occurs in it (any run of that many characters in the rendering crosses its
/// `(`, which no base58 code holds).
pub proof fn lemma_redaction_hides_codes(code: Seq<char>)
    requires
        is_code_text(code),
    ensures
        !contains_text(redacted_code_text(), code),
{
    reveal_strlit("InvitationCode(\"<redacted>\")");
    let s = redacted_code_text();
    assert(s.len() == 28);
    assert(s[14] == '(');
    if contains_text(s, code) {
        let p = choose|p: int| 0 <= p && p + code.len() <= s.len() && #[trigger] s.subrange(p, p + code.len()) == code;
        assert(code[14 - p] == s.subrange(p, p + code.len())[14 - p]);
        assert(!is_base58_char(code[14 - p]));
    }
}

/// The stored hash of the code text `code`: SHA-256 of its UTF-8 bytes,
/// base58-encoded.
pub open spec fn code_hash_text(code: Seq<char>) -> Seq<char> {
    base58_encode(sha256(encode_utf8(code)))
}

/// The single-use secret of an invitation: 16 bytes from the OS generator,
/// base58-encoded. Handed out once, inside the invitation link, and never
/// stored; only its [`InvitationCodeHash`] is.
pub struct InvitationCode {
    code: String,
}

impl View for InvitationCode {
    type V = Seq<char>;

    /// The code text.
    closed spec fn view(&self) -> Seq<char> {
        self.code@
    }
}

impl InvitationCode {
    /// A fresh code; `None` when the OS generator is unavailable.
    pub fn generate() -> (r: Option<Self>)
        ensures
            r matches Some(c) ==> exists|bytes: Seq<u8>|
                bytes.len() == INVITATION_CODE_BYTES && c@ == base58_encode(bytes) && base58_decode(c@) == Some(bytes),
            r matches Some(c) ==> is_code_text(c@),
            r matches Some(c) ==> !contains_text(redacted_code_text(), c@),
    {
        match os_random_bytes(INVITATION_CODE_BYTES) {
            Some(bytes) => {
                let code = bs58_encode(bytes.as_slice());
                proof {
                    lemma_redaction_hides_codes(code@);
                }
                Some(InvitationCode { code })
            },
            None => None,
        }
    }

    /// Rebuilds a code from the value a redeem request carries, so that it can
    /// be hashed and matched.
    pub fn from_wire(s: &str) -> (r: Self)
        ensures
            r@ == s@,
    {
        InvitationCode { code: owned(s) }
    }

    /// The code text.
    pub fn as_str(&self) -> (r: &str)
        ensures
            r@ == self@,
    {
        self.code.as_str()
    }

    /// The diagnostic rendering of a code, which never shows the code.
    pub fn debug_repr(&self) -> (r: String)
        ensures
            r@ == redacted_code_text(),
    {
        owned("InvitationCode(\"<redacted>\")")
    }
}

/// The stored form of an [`InvitationCode`]: SHA-256 of the code, base58-encoded.
#[derive(Debug, PartialEq, Eq)]
pub struct InvitationCodeHash {
    hash: String,
}

impl View for InvitationCodeHash {
    type V = Seq<char>;

    /// The hash text.
    closed spec fn view(&self) -> Seq<char> {
        self.hash@
    }
}

impl InvitationCodeHash {
    /// The hash text.
    pub fn as_str(&self) -> (r: &str)
        ensures
            r@ == self@,
    {
        self.hash.as_str()
    }

    /// Rebuilds a hash from its stored text.
    pub fn from_stored(s: &str) -> (r: Self)
        ensures
            r@ == s@,
    {
        InvitationCodeHash { hash: owned(s) }
    }

    /// The hash of `code`; borrows the code so it stays usable (in the link).
    pub fn from_code(code: &InvitationCode) -> (r: Self)
        ensures
            r@ == code_hash_text(code@),
    {
        let bytes = code.code.as_str().as_bytes();
        let digest = sha256_digest(bytes);
        InvitationCodeHash { hash: bs58_encode(digest.as_slice()) }
    }

    /// Whether two hashes are equal.
    pub fn same(&self, other: &Self) -> (r: bool)
        ensures
            r == (self@ == other@),
    {
        self.hash == other.hash
    }
}

/// Hashing is deterministic: codes with equal text have equal hashes; in
/// particular a code rebuilt from the wire hashes to the stored hash of the code
/// it was made from.
pub proof fn lemma_hash_deterministic(a: Seq<char>, b: Seq<char>)
    requires
        a == b,
    ensures
        code_hash_text(a) == code_hash_text(b),
{
}

} // verus!
