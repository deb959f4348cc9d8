//! Who a request comes from and which community it belongs to.
use vstd::prelude::*;

verus! {

/// A community, by the 128-bit value of its UUID.
#[derive(Debug, Clone, Copy, PartialEq, Eq, Structural)]
pub struct CommunityId {
    uuid: u128,
}

impl View for CommunityId {
    type V = u128;

    closed spec fn view(&self) -> u128 {
        self.uuid
    }
}

impl CommunityId {
    pub fn from_uuid(uuid: u128) -> (id: CommunityId)
        ensures
            id@ == uuid,
    {
        CommunityId { uuid }
    }

    pub fn as_uuid(&self) -> (uuid: u128)
        ensures
            uuid == self@,
    {
        self.uuid
    }
}

/// The community that a request was resolved to, and the host name that it was
/// addressed by.
#[derive(Debug)]
pub struct TenantContext {
    community: CommunityId,
    host: String,
}

/// What a [`TenantContext`] stands for.
pub struct TenantView {
    pub community: u128,
    pub host: Seq<char>,
}

impl View for TenantContext {
    type V = TenantView;

    closed spec fn view(&self) -> TenantView {
        TenantView { community: self.community@, host: self.host@ }
    }
}

impl TenantContext {
    pub fn resolved(community: CommunityId, host: &str) -> (tenant: TenantContext)
        ensures
            tenant@ == (TenantView { community: community@, host: host@ }),
    {
        TenantContext { community, host: host.to_owned() }
    }

    pub fn community(&self) -> (id: CommunityId)
        ensures
            id@ == self@.community,
    {
        self.community
    }

    pub fn host(&self) -> (host: &str)
        ensures
            host@ == self@.host,
    {
        self.host.as_str()
    }
}

/// A principal's x-only public key.
#[derive(Debug, Clone, Copy)]
pub struct PublicKey {
    bytes: [u8; 32],
}

impl View for PublicKey {
    type V = Seq<u8>;

    closed spec fn view(&self) -> Seq<u8> {
        self.bytes@
    }
}

impl PublicKey {
    pub fn from_bytes(bytes: [u8; 32]) -> (key: PublicKey)
        ensures
            key@ == bytes@,
    {
        PublicKey { bytes }
    }

    pub fn to_bytes(&self) -> (bytes: [u8; 32])
        ensures
            bytes@ == self@,
    {
        self.bytes
    }
}

} // verus!
