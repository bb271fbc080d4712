//! Identifiers: 10 random bytes, base58-encoded. The bare form is stored; the
//! wire form carries a kind prefix and an underscore (`tenant_9hXq2vRtL8pK7f`).

use vstd::prelude::*;

use super::DomainError;
use crate::encoding::{base58_decode, base58_encode, bs58_decode, bs58_encode, os_random_bytes};
use crate::text::{concat3, owned, strip_prefix, has_prefix};

verus! {

/// Number of random bytes in an identifier.
pub const ID_BYTES: usize = 10;

/// `s` is a bare identifier: base58 text of exactly [`ID_BYTES`] bytes.
pub open spec fn is_bare_id(s: Seq<char>) -> bool {
    match base58_decode(s) {
        Some(bytes) => bytes.len() == ID_BYTES,
        None => false,
    }
}

/// The wire form of the bare identifier `bare` of the kind named `kind`.
pub open spec fn wire_id(kind: Seq<char>, bare: Seq<char>) -> Seq<char> {
    kind + seq!['_'] + bare
}

/// The bare identifier that the wire form `s` of kind `kind` carries, if `s` is one.
pub open spec fn parse_wire_id(kind: Seq<char>, s: Seq<char>) -> Option<Seq<char>> {
    let head = kind + seq!['_'];
    if has_prefix(s, head) && is_bare_id(s.skip(head.len() as int)) {
        Some(s.skip(head.len() as int))
    } else {
        None
    }
}

/// Checks that `s` is a bare identifier.
fn check_bare(s: &str) -> (r: bool)
    ensures
        r == is_bare_id(s@),
{
    match bs58_decode(s) {
        Some(bytes) => bytes.len() == ID_BYTES,
        None => false,
    }
}

/// The bare identifier carried by the wire form `s` of kind `kind`.
fn bare_of_wire<'a>(kind: &str, s: &'a str) -> (r: Option<&'a str>)
    ensures
        match r {
            Some(b) => parse_wire_id(kind@, s@) == Some(b@),
            None => parse_wire_id(kind@, s@) is None,
        },
{
    let head = concat3(kind, "_", "");
    proof {
        reveal_strlit("_");
        reveal_strlit("");
        assert(head@ =~= kind@ + seq!['_']);
    }
    match strip_prefix(s, head.as_str()) {
        Some(rest) => {
            if check_bare(rest) {
                Some(rest)
            } else {
                None
            }
        },
        None => None,
    }
}

/// A fresh bare identifier: [`ID_BYTES`] bytes from the OS generator,
/// base58-encoded. `None` when the OS generator is unavailable.
fn fresh_bare() -> (r: Option<String>)
    ensures
        r matches Some(s) ==> exists|bytes: Seq<u8>| bytes.len() == ID_BYTES && s@ == base58_encode(bytes),
        r matches Some(s) ==> is_bare_id(s@),
{
    match os_random_bytes(ID_BYTES) {
        Some(bytes) => Some(bs58_encode(bytes.as_slice())),
        None => None,
    }
}

/// The error for a wire identifier that does not parse: invalid input whose
/// details name the kind and the offending text.
fn invalid_id(kind: &str, s: &str) -> (r: DomainError)
    ensures
        r matches DomainError::InvalidInput { details } && details@ == kind@ + " id is malformed: "@ + s@,
{
    DomainError::InvalidInput { details: concat3(kind, " id is malformed: ", s) }
}

/// Identifier of a tenant.
#[derive(Debug, PartialEq, Eq)]
pub struct TenantId {
    bare: String,
}

/// Identifier of a user account.
#[derive(Debug, PartialEq, Eq)]
pub struct UserAccountId {
    bare: String,
}

/// Identifier of an invitation.
#[derive(Debug, PartialEq, Eq)]
pub struct InvitationId {
    bare: String,
}

/// The kind name of tenant identifiers.
pub open spec fn tenant_kind() -> Seq<char> {
    "tenant"@
}

/// The kind name of user-account identifiers.
pub open spec fn account_kind() -> Seq<char> {
    "account"@
}

/// The kind name of invitation identifiers.
pub open spec fn invite_kind() -> Seq<char> {
    "invite"@
}

/// The wire form of a bare identifier parses back to that identifier.
pub proof fn lemma_wire_round_trip(kind: Seq<char>, bare: Seq<char>)
    requires
        is_bare_id(bare),
    ensures
        parse_wire_id(kind, wire_id(kind, bare)) == Some(bare),
{
    let head = kind + seq!['_'];
    let w = wire_id(kind, bare);
    assert(w =~= head + bare);
    assert(w.subrange(0, head.len() as int) =~= head);
    assert(w.skip(head.len() as int) =~= bare);
}

impl View for TenantId {
    type V = Seq<char>;

    /// The bare identifier.
    closed spec fn view(&self) -> Seq<char> {
        self.bare@
    }
}

impl TenantId {
    #[verifier::type_invariant]
    spec fn well_formed(self) -> bool {
        is_bare_id(self.bare@)
    }

    /// Builds the identifier from its bare form; rejects any other text.
    pub fn from_bare(s: &str) -> (r: Result<Self, DomainError>)
        ensures
            r is Ok <==> is_bare_id(s@),
            r matches Ok(id) ==> id@ == s@,
    {
        if check_bare(s) {
            Ok(TenantId { bare: owned(s) })
        } else {
            Err(invalid_id("tenant", s))
        }
    }

    /// Parses the wire form `tenant_<bare>`; a bare identifier without the prefix
    /// is rejected.
    pub fn parse(s: &str) -> (r: Result<Self, DomainError>)
        ensures
            r is Ok <==> parse_wire_id(tenant_kind(), s@) is Some,
            r matches Ok(id) ==> parse_wire_id(tenant_kind(), s@) == Some(id@),
    {
        match bare_of_wire("tenant", s) {
            Some(b) => Ok(TenantId { bare: owned(b) }),
            None => Err(invalid_id("tenant", s)),
        }
    }

    /// A fresh random identifier: [`ID_BYTES`] bytes from the OS generator,
    /// base58-encoded; `None` when the OS generator is unavailable.
    pub fn generate() -> (r: Option<Self>)
        ensures
            r matches Some(id) ==> exists|bytes: Seq<u8>| bytes.len() == ID_BYTES && id@ == base58_encode(bytes),
    {
        match fresh_bare() {
            Some(b) => Some(TenantId { bare: b }),
            None => None,
        }
    }

    /// The bare form.
    pub fn bare(&self) -> (r: &str)
        ensures
            r@ == self@,
            is_bare_id(self@),
    {
        proof { use_type_invariant(self); }
        self.bare.as_str()
    }

    /// The wire form `tenant_<bare>`.
    pub fn to_string(&self) -> (r: String)
        ensures
            r@ == wire_id(tenant_kind(), self@),
            is_bare_id(self@),
    {
        proof { use_type_invariant(self); }
        let r = concat3("tenant", "_", self.bare.as_str());
        proof { reveal_strlit("_"); assert(r@ =~= wire_id(tenant_kind(), self@)); }
        r
    }

    /// A copy of the identifier.
    pub fn duplicate(&self) -> (r: Self)
        ensures
            r@ == self@,
    {
        proof { use_type_invariant(self); }
        TenantId { bare: self.bare.clone() }
    }

    /// Whether two identifiers are the same.
    pub fn same(&self, other: &Self) -> (r: bool)
        ensures
            r == (self@ == other@),
    {
        self.bare == other.bare
    }
}

impl View for UserAccountId {
    type V = Seq<char>;

    /// The bare identifier.
    closed spec fn view(&self) -> Seq<char> {
        self.bare@
    }
}

impl UserAccountId {
    #[verifier::type_invariant]
    spec fn well_formed(self) -> bool {
        is_bare_id(self.bare@)
    }

    /// Builds the identifier from its bare form; rejects any other text.
    pub fn from_bare(s: &str) -> (r: Result<Self, DomainError>)
        ensures
            r is Ok <==> is_bare_id(s@),
            r matches Ok(id) ==> id@ == s@,
    {
        if check_bare(s) {
            Ok(UserAccountId { bare: owned(s) })
        } else {
            Err(invalid_id("account", s))
        }
    }

    /// Parses the wire form `account_<bare>`; a bare identifier without the prefix
    /// is rejected.
    pub fn parse(s: &str) -> (r: Result<Self, DomainError>)
        ensures
            r is Ok <==> parse_wire_id(account_kind(), s@) is Some,
            r matches Ok(id) ==> parse_wire_id(account_kind(), s@) == Some(id@),
    {
        match bare_of_wire("account", s) {
            Some(b) => Ok(UserAccountId { bare: owned(b) }),
            None => Err(invalid_id("account", s)),
        }
    }

    /// A fresh random identifier: [`ID_BYTES`] bytes from the OS generator,
    /// base58-encoded; `None` when the OS generator is unavailable.
    pub fn generate() -> (r: Option<Self>)
        ensures
            r matches Some(id) ==> exists|bytes: Seq<u8>| bytes.len() == ID_BYTES && id@ == base58_encode(bytes),
    {
        match fresh_bare() {
            Some(b) => Some(UserAccountId { bare: b }),
            None => None,
        }
    }

    /// The bare form.
    pub fn bare(&self) -> (r: &str)
        ensures
            r@ == self@,
            is_bare_id(self@),
    {
        proof { use_type_invariant(self); }
        self.bare.as_str()
    }

    /// The wire form `account_<bare>`.
    pub fn to_string(&self) -> (r: String)
        ensures
            r@ == wire_id(account_kind(), self@),
            is_bare_id(self@),
    {
        proof { use_type_invariant(self); }
        let r = concat3("account", "_", self.bare.as_str());
        proof { reveal_strlit("_"); assert(r@ =~= wire_id(account_kind(), self@)); }
        r
    }

    /// A copy of the identifier.
    pub fn duplicate(&self) -> (r: Self)
        ensures
            r@ == self@,
    {
        proof { use_type_invariant(self); }
        UserAccountId { bare: self.bare.clone() }
    }

    /// Whether two identifiers are the same.
    pub fn same(&self, other: &Self) -> (r: bool)
        ensures
            r == (self@ == other@),
    {
        self.bare == other.bare
    }
}

impl View for InvitationId {
    type V = Seq<char>;

    /// The bare identifier.
    closed spec fn view(&self) -> Seq<char> {
        self.bare@
    }
}

impl InvitationId {
    #[verifier::type_invariant]
    spec fn well_formed(self) -> bool {
        is_bare_id(self.bare@)
    }

    /// Builds the identifier from its bare form; rejects any other text.
    pub fn from_bare(s: &str) -> (r: Result<Self, DomainError>)
        ensures
            r is Ok <==> is_bare_id(s@),
            r matches Ok(id) ==> id@ == s@,
    {
        if check_bare(s) {
            Ok(InvitationId { bare: owned(s) })
        } else {
            Err(invalid_id("invite", s))
        }
    }

    /// Parses the wire form `invite_<bare>`; a bare identifier without the prefix
    /// is rejected.
    pub fn parse(s: &str) -> (r: Result<Self, DomainError>)
        ensures
            r is Ok <==> parse_wire_id(invite_kind(), s@) is Some,
            r matches Ok(id) ==> parse_wire_id(invite_kind(), s@) == Some(id@),
    {
        match bare_of_wire("invite", s) {
            Some(b) => Ok(InvitationId { bare: owned(b) }),
            None => Err(invalid_id("invite", s)),
        }
    }

    /// A fresh random identifier: [`ID_BYTES`] bytes from the OS generator,
    /// base58-encoded; `None` when the OS generator is unavailable.
    pub fn generate() -> (r: Option<Self>)
        ensures
            r matches Some(id) ==> exists|bytes: Seq<u8>| bytes.len() == ID_BYTES && id@ == base58_encode(bytes),
    {
        match fresh_bare() {
            Some(b) => Some(InvitationId { bare: b }),
            None => None,
        }
    }

    /// The bare form.
    pub fn bare(&self) -> (r: &str)
        ensures
            r@ == self@,
            is_bare_id(self@),
    {
        proof { use_type_invariant(self); }
        self.bare.as_str()
    }

    /// The wire form `invite_<bare>`.
    pub fn to_string(&self) -> (r: String)
        ensures
            r@ == wire_id(invite_kind(), self@),
            is_bare_id(self@),
    {
        proof { use_type_invariant(self); }
        let r = concat3("invite", "_", self.bare.as_str());
        proof { reveal_strlit("_"); assert(r@ =~= wire_id(invite_kind(), self@)); }
        r
    }

    /// A copy of the identifier.
    pub fn duplicate(&self) -> (r: Self)
        ensures
            r@ == self@,
    {
        proof { use_type_invariant(self); }
        InvitationId { bare: self.bare.clone() }
    }

    /// Whether two identifiers are the same.
    pub fn same(&self, other: &Self) -> (r: bool)
        ensures
            r == (self@ == other@),
    {
        self.bare == other.bare
    }
}

} // verus!
