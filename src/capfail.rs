//! Capability-check failures and the capability-rights masks they carry.
use bit_vec::BitVec;
use crate::error::{bytes_desc, dec, describe_bytes, is_bad_value, Error};
use crate::reader::{field, read_u32, Endian};
use vstd::prelude::*;
use vstd::string::StringExecFns;

verus! {

broadcast use vstd::slice::group_slice_axioms;

#[verifier::external_type_specification]
#[verifier::external_body]
#[verifier::reject_recursive_types(B)]
pub struct ExBitVec<B>(BitVec<B>);

/// The bits that a bit vector holds, in order.
pub uninterp spec fn bits_of(v: BitVec) -> Seq<bool>;

/// Size in bytes of one rights mask.
pub const MASK_LEN: usize = 8;

/// The bits of `s`: eight per byte, most significant bit first.
#[verifier::opaque]
pub open spec fn msb_bits(s: Seq<u8>) -> Seq<bool> {
    Seq::new(8 * s.len(), |i: int| (s[i / 8] >> ((7 - i % 8) as u8)) & 1u8 == 1u8)
}

/// Relies on `BitVec::from_bytes`: each byte becomes eight bits, most
/// significant bit first.
#[verifier::external_body]
fn mask_from_bytes(b: &[u8]) -> (r: BitVec)
    requires
        b@.len() == MASK_LEN,
    ensures
        bits_of(r) == msb_bits(b@),
{
    BitVec::from_bytes(b)
}

/// Rights that are (or can be) associated with a capability.
#[derive(Clone, Debug)]
pub struct CapabilityRights {
    /// Structure version, implied by the size of the rights on the wire.
    pub version: usize,
    /// One bit vector per 8-byte mask, in wire order.
    pub masks: Vec<BitVec>,
}

/// `c` holds version `version` and one mask per 8 bytes of `d`.
pub open spec fn rights_rel(c: CapabilityRights, version: nat, d: Seq<u8>) -> bool {
    &&& c.version == version
    &&& c.masks@.len() == d.len() / 8
    &&& forall|i: int|
        0 <= i < c.masks@.len() ==> #[trigger] bits_of(c.masks@[i]) == msb_bits(
            d.subrange(8 * i, 8 * i + 8),
        )
}

impl CapabilityRights {
    /// Splits `data` into 8-byte rights masks.
    pub fn parse(data: &[u8], version: usize) -> (r: Result<CapabilityRights, Error>)
        ensures
            data@.len() % 8 == 0 <==> r is Ok,
            match r {
                Ok(c) => rights_rel(c, version as nat, data@),
                Err(e) => is_bad_value(e, "cap_rights_t"@, bytes_desc(data@)),
            },
    {
        let len = data.len();
        if len % MASK_LEN != 0 {
            return Err(Error::bad_value(String::from_str("cap_rights_t"), describe_bytes(data)));
        }
        let mut masks: Vec<BitVec> = Vec::new();
        let mut at: usize = 0;
        while at < len
            invariant
                len == data@.len(),
                len % 8 == 0,
                at % 8 == 0,
                at <= len,
                masks@.len() == at / 8,
                forall|i: int|
                    0 <= i < masks@.len() ==> #[trigger] bits_of(masks@[i]) == msb_bits(
                        data@.subrange(8 * i, 8 * i + 8),
                    ),
            decreases len - at,
        {
            masks.push(mask_from_bytes(vstd::slice::slice_subrange(data, at, at + MASK_LEN)));
            at = at + MASK_LEN;
        }
        Ok(CapabilityRights { version, masks })
    }
}

/// Why a capability check failed.
#[derive(Clone, Debug)]
pub enum CapFail {
    /// Insufficient capabilities in a capability check.
    NotCapable { needed: CapabilityRights, held: CapabilityRights },
    /// Attempt to increase capabilities.
    Increase,
    /// System call not permitted in capability mode.
    Syscall,
    /// Restricted VFS lookup.
    Lookup,
}

/// The two rights structures of a `NotCapable` body, after its padding.
pub open spec fn rights_bytes(d: Seq<u8>) -> Seq<u8> {
    d.subrange(8, d.len() as int)
}

/// `r` is what decoding capability-failure body `d` gives.
pub open spec fn capfail_rel(order: Endian, d: Seq<u8>, r: Result<CapFail, Error>) -> bool {
    let kind = field(order, d, 0, 4);
    let cap = rights_bytes(d);
    if d.len() < 20 {
        r matches Err(e) && is_bad_value(
            e,
            "enum ktr_cap_fail_type + two cap_rights_t"@,
            bytes_desc(d),
        )
    } else if kind == 0 {
        if cap.len() % 16 != 0 {
            r matches Err(e) && is_bad_value(e, "two cap_rights_t"@, bytes_desc(cap))
        } else {
            &&& r matches Ok(CapFail::NotCapable { needed, held })
            &&& rights_rel(held, (cap.len() / 8 - 2) as nat, cap.take((cap.len() / 2) as int))
            &&& rights_rel(needed, (cap.len() / 8 - 2) as nat, cap.skip((cap.len() / 2) as int))
        }
    } else if kind == 1 {
        r matches Ok(CapFail::Increase)
    } else if kind == 2 {
        r matches Ok(CapFail::Syscall)
    } else if kind == 3 {
        r matches Ok(CapFail::Lookup)
    } else {
        r matches Err(e) && is_bad_value(e, "ktr_cap_fail_type (integer 0-3)"@, dec(kind))
    }
}

impl CapFail {
    /// Decodes the body of a capability-failure record.
    pub fn parse(order: Endian, data: &[u8]) -> (r: Result<CapFail, Error>)
        ensures
            capfail_rel(order, data@, r),
    {
        let len = data.len();
        if len < 20 {
            return Err(
                Error::bad_value(
                    String::from_str("enum ktr_cap_fail_type + two cap_rights_t"),
                    describe_bytes(data),
                ),
            );
        }
        let kind = read_u32(order, data, 0);
        if kind == 0 {
            // The rights start after padding for alignment.
            let cap = vstd::slice::slice_subrange(data, 8, len);
            let n = cap.len();
            if n % 16 != 0 {
                return Err(
                    Error::bad_value(String::from_str("two cap_rights_t"), describe_bytes(cap)),
                );
            }
            assert(cap@ == rights_bytes(data@));
            let half = n / 2;
            let version = n / 8 - 2;
            let first = vstd::slice::slice_subrange(cap, 0, half);
            let second = vstd::slice::slice_subrange(cap, half, n);
            assert(first@ =~= cap@.take(half as int));
            assert(second@ =~= cap@.skip(half as int));
            let held = match CapabilityRights::parse(first, version) {
                Ok(c) => c,
                Err(e) => return Err(e),
            };
            let needed = match CapabilityRights::parse(second, version) {
                Ok(c) => c,
                Err(e) => return Err(e),
            };
            Ok(CapFail::NotCapable { needed, held })
        } else if kind == 1 {
            Ok(CapFail::Increase)
        } else if kind == 2 {
            Ok(CapFail::Syscall)
        } else if kind == 3 {
            Ok(CapFail::Lookup)
        } else {
            Err(
                Error::bad_value(
                    String::from_str("ktr_cap_fail_type (integer 0-3)"),
                    crate::error::decimal(kind as u64),
                ),
            )
        }
    }
}

} // verus!
