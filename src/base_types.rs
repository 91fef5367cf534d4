//! Identifiers: authority names, digests and object ids, each a byte string.
use vstd::prelude::*;
use crate::crypto::{bytes_equal, copy_bytes};

verus! {

/// The public key bytes (BLS12-381, min-sig) that identify one authority.
#[derive(Clone, Debug)]
pub struct AuthorityName {
    pub bytes: Vec<u8>,
}

/// A 32-byte digest of some canonically encoded payload.
#[derive(Clone, Debug)]
pub struct Digest {
    pub bytes: Vec<u8>,
}

/// The identifier of an object.
#[derive(Clone, Debug)]
pub struct ObjectID {
    pub bytes: Vec<u8>,
}

pub type TransactionDigest = Digest;

pub type TransactionEffectsDigest = Digest;

pub type CheckpointContentsDigest = Digest;

pub type AuthorityPublicKeyBytes = AuthorityName;

impl View for AuthorityName {
    type V = Seq<u8>;

    open spec fn view(&self) -> Seq<u8> {
        self.bytes@
    }
}

impl View for Digest {
    type V = Seq<u8>;

    open spec fn view(&self) -> Seq<u8> {
        self.bytes@
    }
}

impl View for ObjectID {
    type V = Seq<u8>;

    open spec fn view(&self) -> Seq<u8> {
        self.bytes@
    }
}

impl AuthorityName {
    pub fn same_as(&self, other: &AuthorityName) -> (r: bool)
        ensures
            r == (self@ == other@),
    {
        bytes_equal(&self.bytes, &other.bytes)
    }

    /// A fresh copy of this name.
    pub fn duplicate(&self) -> (r: AuthorityName)
        ensures
            r@ == self@,
    {
        AuthorityName { bytes: copy_bytes(&self.bytes) }
    }
}

impl Digest {
    pub fn same_as(&self, other: &Digest) -> (r: bool)
        ensures
            r == (self@ == other@),
    {
        bytes_equal(&self.bytes, &other.bytes)
    }
}

impl ObjectID {
    pub fn same_as(&self, other: &ObjectID) -> (r: bool)
        ensures
            r == (self@ == other@),
    {
        bytes_equal(&self.bytes, &other.bytes)
    }
}

} // verus!
