//! uProtocol message identifiers: UUIDv7 values with the RFC 4122 variant.
use vstd::prelude::*;
use vstd::string::*;

use crate::time::SystemTime;

verus! {

/// Error returned for a 128-bit value that is not a uProtocol UUID.
#[derive(Clone, Copy, Debug, PartialEq, Eq)]
pub enum UUIDError {
    /// The version nibble is not 7 or the variant bits are not `0b10`.
    NotUProtocolUuid,
}

impl UUIDError {
    /// The text of this error.
    pub open spec fn text(self) -> Seq<char> {
        match self {
            UUIDError::NotUProtocolUuid => "not a UUIDv7 with the RFC 4122 variant"@,
        }
    }

    /// Renders this error as text.
    pub fn to_string(&self) -> (s: String)
        ensures
            s@ == self.text(),
    {
        match self {
            UUIDError::NotUProtocolUuid => String::from_str("not a UUIDv7 with the RFC 4122 variant"),
        }
    }
}

/// A uProtocol UUID: a 128-bit UUIDv7 held as its most and least
/// significant 64-bit halves.
#[derive(Clone, Copy, Debug, PartialEq, Eq, Hash)]
pub struct UUID {
    msb: u64,
    lsb: u64,
}

/// Whether `(msb, lsb)` is a UUIDv7 with the RFC 4122 variant.
pub open spec fn is_uprotocol_uuid(msb: u64, lsb: u64) -> bool {
    &&& (msb >> 12) & 0xF == 7
    &&& lsb >> 62 == 2
}

impl UUID {
    /// Every `UUID` holds a uProtocol UUID.
    #[verifier::type_invariant]
    spec fn inv(self) -> bool {
        is_uprotocol_uuid(self.msb, self.lsb)
    }

    /// The most significant half.
    pub closed spec fn spec_msb(self) -> u64 {
        self.msb
    }

    /// The least significant half.
    pub closed spec fn spec_lsb(self) -> u64 {
        self.lsb
    }

    /// The UUID with halves `msb` and `lsb`.
    pub closed spec fn spec_from_pair(msb: u64, lsb: u64) -> UUID {
        UUID { msb, lsb }
    }

    /// A UUID is determined by its halves.
    pub proof fn lemma_from_pair(msb: u64, lsb: u64, u: UUID)
        ensures
            UUID::spec_from_pair(msb, lsb).spec_msb() == msb,
            UUID::spec_from_pair(msb, lsb).spec_lsb() == lsb,
            UUID::spec_from_pair(u.spec_msb(), u.spec_lsb()) == u,
    {
    }

    /// Every `UUID` value holds a uProtocol UUID.
    pub open spec fn wf(self) -> bool {
        is_uprotocol_uuid(self.spec_msb(), self.spec_lsb())
    }

    /// Creates a UUID from its two 64-bit halves.
    ///
    /// Fails unless the value is a UUIDv7 with the RFC 4122 variant.
    pub fn from_u64_pair(msb: u64, lsb: u64) -> (r: Result<UUID, UUIDError>)
        ensures
            r is Ok <==> is_uprotocol_uuid(msb, lsb),
            r matches Ok(u) ==> u == UUID::spec_from_pair(msb, lsb) && u.spec_msb() == msb && u.spec_lsb() == lsb,
    {
        if (msb >> 12) & 0xF == 7 && lsb >> 62 == 2 {
            Ok(UUID { msb, lsb })
        } else {
            Err(UUIDError::NotUProtocolUuid)
        }
    }

    /// Whether this UUID and `other` are the same UUID.
    pub(crate) fn is_same(&self, other: &UUID) -> (b: bool)
        ensures
            b == (*self == *other),
    {
        self.msb == other.msb && self.lsb == other.lsb
    }

    /// Returns the two 64-bit halves `(msb, lsb)`.
    pub fn as_u64_pair(&self) -> (p: (u64, u64))
        ensures
            p == (self.spec_msb(), self.spec_lsb()),
            is_uprotocol_uuid(p.0, p.1),
    {
        proof { use_type_invariant(self); }
        (self.msb, self.lsb)
    }

    /// Assembles a UUIDv7 from a Unix timestamp in milliseconds and random
    /// bits: 48 timestamp bits, version 7, 12 random bits, variant `0b10`,
    /// 62 random bits.
    pub fn from_timestamp_and_random(unix_millis: u64, rand_a: u64, rand_b: u64) -> (u: UUID)
        ensures
            u.wf(),
            u.spec_msb() >> 16 == unix_millis & 0xFFFF_FFFF_FFFF,
            u.spec_msb() == ((unix_millis & 0xFFFF_FFFF_FFFF) << 16) | 0x7000 | (rand_a & 0x0FFF),
            u.spec_lsb() == (rand_b & 0x3FFF_FFFF_FFFF_FFFF) | 0x8000_0000_0000_0000,
            u.spec_msb() & 0xFFF == rand_a & 0xFFF,
            u.spec_lsb() & 0x3FFF_FFFF_FFFF_FFFF == rand_b & 0x3FFF_FFFF_FFFF_FFFF,
    {
        let msb = ((unix_millis & 0xFFFF_FFFF_FFFF) << 16) | 0x7000 | (rand_a & 0x0FFF);
        let lsb = (rand_b & 0x3FFF_FFFF_FFFF_FFFF) | 0x8000_0000_0000_0000;
        assert((((unix_millis & 0xFFFF_FFFF_FFFF) << 16) | 0x7000 | (rand_a & 0x0FFF)) >> 12 & 0xF == 7) by (bit_vector);
        assert((((unix_millis & 0xFFFF_FFFF_FFFF) << 16) | 0x7000 | (rand_a & 0x0FFF)) >> 16 == unix_millis & 0xFFFF_FFFF_FFFF) by (bit_vector);
        assert(((rand_b & 0x3FFF_FFFF_FFFF_FFFF) | 0x8000_0000_0000_0000) >> 62 == 2) by (bit_vector);
        assert((((unix_millis & 0xFFFF_FFFF_FFFF) << 16) | 0x7000 | (rand_a & 0x0FFF)) & 0xFFF == rand_a & 0xFFF) by (bit_vector);
        assert(((rand_b & 0x3FFF_FFFF_FFFF_FFFF) | 0x8000_0000_0000_0000) & 0x3FFF_FFFF_FFFF_FFFF
            == rand_b & 0x3FFF_FFFF_FFFF_FFFF) by (bit_vector);
        UUID { msb, lsb }
    }

    /// Creates a fresh UUIDv7 from the current time and random bits.
    pub fn build() -> (u: UUID)
        ensures
            u.wf(),
    {
        let millis: u64 = match SystemTime::now().duration_since_epoch() {
            Ok(since) => since.as_millis() as u64,
            Err(_) => 0,
        };
        let a = random_hash(&random_state(), 0);
        let b = random_hash(&random_state(), 1);
        Self::from_timestamp_and_random(millis, a, b)
    }
}

/// `std::collections::hash_map::RandomState::new`: a hasher builder with
/// fresh random keys. Nothing is promised of the keys: they are random.
#[verifier::external_body]
fn random_state() -> std::collections::hash_map::RandomState {
    std::collections::hash_map::RandomState::new()
}

/// `BuildHasher::hash_one` of a randomly keyed builder: the hash of `value`
/// under the builder's keys. Nothing is promised of it: the keys are random.
#[verifier::external_body]
fn random_hash(state: &std::collections::hash_map::RandomState, value: u8) -> u64 {
    std::hash::BuildHasher::hash_one(state, value)
}

} // verus!
