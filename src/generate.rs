//! The generators of versions 1 and 3 to 8, and the timestamp embedded in a
//! time-based value.
use vstd::prelude::*;

use vstd::string::StringSliceAdditionalSpecFns;

use crate::laws::lemma_versioned_reads_back;
use crate::node::{be48, NodeCache, NODE_LIMIT};
use crate::value::{
    be_bytes, be_value, clock_seq_of, node_of, set_version_bits, time_of, variant_of, version_of,
    versioned, Uuid, UuidError, Variant,
};

verus! {

/// Gregorian 100-nanosecond ticks between 1582-10-15 and 1970-01-01.
pub const TICKS_BETWEEN_EPOCHS: u64 = 0x01B2_1DD2_1381_4000;

/// The low 60 bits.
pub const TICKS_MASK: u64 = 0x0fff_ffff_ffff_ffff;

/// The low 48 bits.
pub const LOW48_MASK: u64 = 0xffff_ffff_ffff;

/// Version nibble `k` and the RFC 4122 variant.
pub open spec fn has_layout(v: u128, k: u8) -> bool {
    version_of(v) == k && variant_of(v) == Variant::Rfc4122
}

/// The octets of the low 48 bits of `n`, most significant first.
pub open spec fn node_octets(n: u64) -> Seq<u8> {
    seq![
        (n >> 40u64) as u8,
        (n >> 32u64) as u8,
        (n >> 24u64) as u8,
        (n >> 16u64) as u8,
        (n >> 8u64) as u8,
        n as u8,
    ]
}

/// Gregorian ticks of a Unix time, wrapping at 64 bits.
pub open spec fn gregorian_ticks(secs: u64, nanos: u32) -> u64 {
    (TICKS_BETWEEN_EPOCHS + secs * 10_000_000 + nanos / 100) as u64
}

/// Milliseconds of a Unix time, saturating at `u64::MAX`.
pub open spec fn unix_millis(secs: u64, nanos: u32) -> u64 {
    let m = secs * 1000 + nanos / 1_000_000;
    if m > u64::MAX {
        u64::MAX
    } else {
        m as u64
    }
}

/// The 60-bit timestamp of the version 6 layout: the top 48 bits, then the
/// 12 bits below the version nibble.
pub open spec fn sorted_time_of(v: u128) -> u64 {
    ((v >> 80u32) as u64) << 12u64 | ((v >> 64u32) as u64 & 0xfff)
}

/// The Unix time (seconds, nanoseconds) of Gregorian ticks.
pub open spec fn gregorian_to_unix(ticks: u64) -> (u64, u32) {
    let d = (ticks - TICKS_BETWEEN_EPOCHS) as u64;
    (d / 10_000_000, ((d % 10_000_000) * 100) as u32)
}

/// The Unix time embedded in a value of version 1, 6 or 7.
pub open spec fn embedded_unix_time(v: u128) -> Option<(u64, u32)> {
    if version_of(v) == 1 {
        Some(gregorian_to_unix(time_of(v)))
    } else if version_of(v) == 6 {
        Some(gregorian_to_unix(sorted_time_of(v)))
    } else if version_of(v) == 7 {
        let m = (v >> 80u32) as u64;
        Some((m / 1000, ((m % 1000) * 1_000_000) as u32))
    } else {
        None
    }
}

/// The embedded Unix time in whole milliseconds.
pub open spec fn embedded_millis(v: u128) -> Option<u64> {
    match embedded_unix_time(v) {
        Some((s, n)) => Some((s * 1000 + n / 1_000_000) as u64),
        None => None,
    }
}

/// The hash functions of the name-based versions.
#[derive(Clone, Copy, Debug, PartialEq, Eq, Structural)]
pub enum NameHash {
    /// MD5, for version 3.
    Md5,
    /// SHA-1, for version 5.
    Sha1,
}

/// The first sixteen octets of the MD5 digest of `data`, in network order.
pub uninterp spec fn md5_prefix(data: Seq<u8>) -> u128;

/// The first sixteen octets of the SHA-1 digest of `data`, in network order.
pub uninterp spec fn sha1_prefix(data: Seq<u8>) -> u128;

/// The name-based value: the digest of the namespace's octets followed by the
/// name, with version 3 (MD5) or 5 (SHA-1).
pub open spec fn name_based(namespace: u128, name: Seq<u8>, hash: NameHash) -> u128 {
    match hash {
        NameHash::Md5 => versioned(md5_prefix(be_bytes(namespace) + name), 3),
        NameHash::Sha1 => versioned(sha1_prefix(be_bytes(namespace) + name), 5),
    }
}

/// A name-based value carries version 3 (MD5) or 5 (SHA-1) and the RFC 4122
/// variant.
pub proof fn lemma_name_based_layout(namespace: u128, name: Seq<u8>, hash: NameHash)
    ensures
        hash == NameHash::Md5 ==> has_layout(name_based(namespace, name, hash), 3),
        hash == NameHash::Sha1 ==> has_layout(name_based(namespace, name, hash), 5),
{
    match hash {
        NameHash::Md5 => lemma_versioned_reads_back(md5_prefix(be_bytes(namespace) + name), 3),
        NameHash::Sha1 => lemma_versioned_reads_back(sha1_prefix(be_bytes(namespace) + name), 5),
    }
}

/// Relies on `uuid::Uuid::new_v3`: the MD5 digest of the namespace's octets and
/// the name, read in network order, with version 3 and the RFC 4122 variant.
#[verifier::external_body]
fn md5_name_value(namespace: u128, name: &[u8]) -> (r: u128)
    ensures
        r == versioned(md5_prefix(be_bytes(namespace) + name@), 3),
{
    uuid::Uuid::new_v3(&uuid::Uuid::from_u128(namespace), name).as_u128()
}

/// Relies on `uuid::Uuid::new_v5`: the first sixteen octets of the SHA-1 digest
/// of the namespace's octets and the name, with version 5 and the RFC 4122
/// variant.
#[verifier::external_body]
fn sha1_name_value(namespace: u128, name: &[u8]) -> (r: u128)
    ensures
        r == versioned(sha1_prefix(be_bytes(namespace) + name@), 5),
{
    uuid::Uuid::new_v5(&uuid::Uuid::from_u128(namespace), name).as_u128()
}

/// Relies on `uuid::Uuid::new_v4`: random bits under version 4 and the RFC 4122
/// variant.
#[verifier::external_body]
fn random_value() -> (r: u128)
    ensures
        has_layout(r, 4),
{
    uuid::Uuid::new_v4().as_u128()
}

/// Relies on `uuid::Uuid::now_v1`: the current time and the process-wide
/// clock sequence, with the given node, version 1 and the RFC 4122 variant.
#[verifier::external_body]
fn time_node_value_now(node: [u8; 6]) -> (r: u128)
    ensures
        has_layout(r, 1),
        node_of(r) == be48(node@),
{
    uuid::Uuid::now_v1(&node).as_u128()
}

/// Relies on `uuid::Uuid::new_v1` with `Timestamp::now` over a `ContextV1`
/// started at `clock_seq`: the current time, the low 14 bits of `clock_seq`
/// as the clock sequence, the given node, version 1 and the RFC 4122 variant.
#[verifier::external_body]
fn time_node_value_with_clock_seq(clock_seq: u16, node: [u8; 6]) -> (r: u128)
    ensures
        has_layout(r, 1),
        node_of(r) == be48(node@),
        clock_seq_of(r) == clock_seq & 0x3fff,
{
    let ts = uuid::Timestamp::now(uuid::ContextV1::new(clock_seq));
    uuid::Uuid::new_v1(ts, &node).as_u128()
}

/// Relies on `uuid::Uuid::now_v6`: the current time and the process-wide
/// clock sequence in the sortable layout, with the given node, version 6 and
/// the RFC 4122 variant.
#[verifier::external_body]
fn sorted_time_node_value_now(node: [u8; 6]) -> (r: u128)
    ensures
        has_layout(r, 6),
        node_of(r) == be48(node@),
{
    uuid::Uuid::now_v6(&node).as_u128()
}

/// Relies on `uuid::Uuid::new_v6` with `Timestamp::from_unix` over a fresh
/// random `ContextV1`: the Gregorian ticks of the given time in the sortable
/// layout, a random clock sequence, the given node, version 6 and the RFC 4122
/// variant.
#[verifier::external_body]
fn sorted_time_node_value_at(secs: u64, nanos: u32, node: [u8; 6]) -> (r: u128)
    ensures
        has_layout(r, 6),
        node_of(r) == be48(node@),
        sorted_time_of(r) == gregorian_ticks(secs, nanos) & TICKS_MASK,
{
    let ts = uuid::Timestamp::from_unix(uuid::ContextV1::new_random(), secs, nanos);
    uuid::Uuid::new_v6(ts, &node).as_u128()
}

/// Relies on `uuid::Uuid::now_v7`: the current Unix time in milliseconds in the
/// top 48 bits, then a process-wide counter and random bits, with version 7 and
/// the RFC 4122 variant.
#[verifier::external_body]
fn unix_time_value_now() -> (r: u128)
    ensures
        has_layout(r, 7),
{
    uuid::Uuid::now_v7().as_u128()
}

/// Relies on `uuid::Uuid::new_v7` with `Timestamp::from_unix` over a fresh
/// random `ContextV1`: the given time in milliseconds in the top 48 bits, then
/// counter and random bits, with version 7 and the RFC 4122 variant.
#[verifier::external_body]
fn unix_time_value_at(secs: u64, nanos: u32) -> (r: u128)
    ensures
        has_layout(r, 7),
        r >> 80u32 == (unix_millis(secs, nanos) & LOW48_MASK) as u128,
{
    let ts = uuid::Timestamp::from_unix(uuid::ContextV1::new_random(), secs, nanos);
    uuid::Uuid::new_v7(ts).as_u128()
}

/// Relies on `uuid::Uuid::get_timestamp` and `Timestamp::to_unix`: the Unix
/// time decoded from a value of version 1, 6 or 7, and nothing for the others.
#[verifier::external_body]
fn unix_time_of(v: u128) -> (r: Option<(u64, u32)>)
    ensures
        r == embedded_unix_time(v),
{
    match uuid::Uuid::from_u128(v).get_timestamp() {
        Some(ts) => Some(ts.to_unix()),
        None => None,
    }
}

/// The octets of the low 48 bits of `n`, most significant first.
pub fn node_to_octets(n: u64) -> (r: [u8; 6])
    ensures
        r@ == node_octets(n),
        be48(r@) == n & LOW48_MASK,
{
    let r = [
        (n >> 40u64) as u8,
        (n >> 32u64) as u8,
        (n >> 24u64) as u8,
        (n >> 16u64) as u8,
        (n >> 8u64) as u8,
        n as u8,
    ];
    assert(r@ =~= node_octets(n));
    assert(((n >> 40u64) as u8 as u64) << 40u64 | ((n >> 32u64) as u8 as u64) << 32u64 | ((n
        >> 24u64) as u8 as u64) << 24u64 | ((n >> 16u64) as u8 as u64) << 16u64 | ((n >> 8u64) as u8
        as u64) << 8u64 | (n as u8 as u64) == n & 0xffff_ffff_ffffu64) by (bit_vector);
    r
}

/// The node to use: the given one cut to 48 bits, else the cache's.
fn pick_node(node: Option<u64>, nodes: &mut NodeCache) -> (r: u64)
    requires
        old(nodes).wf(),
    ensures
        final(nodes).wf(),
        r < NODE_LIMIT,
        node is Some ==> r == node->Some_0 & LOW48_MASK && final(nodes)@ == old(nodes)@,
        node is None ==> crate::node::node_step(old(nodes)@, final(nodes)@, r),
{
    match node {
        Some(n) => {
            assert(n & 0xffff_ffff_ffffu64 < 0x1_0000_0000_0000u64) by (bit_vector);
            n & LOW48_MASK
        },
        None => nodes.get(),
    }
}

/// The name-based value of version 3 (MD5) or 5 (SHA-1).
pub fn hash_name(namespace: &Uuid, name: &[u8], hash: NameHash) -> (r: Uuid)
    ensures
        r@ == name_based(namespace@, name@, hash),
{
    match hash {
        NameHash::Md5 => Uuid::from_int(md5_name_value(namespace.as_int(), name)),
        NameHash::Sha1 => Uuid::from_int(sha1_name_value(namespace.as_int(), name)),
    }
}

/// Version 1: time and node. Without `node` the cache's node is used; with
/// `clock_seq` its low 14 bits are the clock sequence, else the process-wide
/// clock sequence is.
pub fn uuid1(node: Option<u64>, clock_seq: Option<u64>, nodes: &mut NodeCache) -> (r: Uuid)
    requires
        old(nodes).wf(),
    ensures
        final(nodes).wf(),
        has_layout(r@, 1),
        node is Some ==> node_of(r@) == node->Some_0 & LOW48_MASK && final(nodes)@ == old(nodes)@,
        node is None ==> crate::node::node_step(old(nodes)@, final(nodes)@, node_of(r@)),
        clock_seq is Some ==> clock_seq_of(r@) == clock_seq->Some_0 as u16 & 0x3fff,
{
    let n = pick_node(node, nodes);
    let octets = node_to_octets(n);
    assert(n & 0xffff_ffff_ffffu64 == n) by (bit_vector)
        requires
            n < 0x1_0000_0000_0000u64,
    ;
    let value = match clock_seq {
        Some(c) => time_node_value_with_clock_seq(c as u16, octets),
        None => time_node_value_now(octets),
    };
    Uuid::from_int(value)
}

/// Version 3: MD5 of the namespace and the name.
pub fn uuid3(namespace: &Uuid, name: &[u8]) -> (r: Uuid)
    ensures
        r@ == name_based(namespace@, name@, NameHash::Md5),
        has_layout(r@, 3),
{
    proof {
        lemma_name_based_layout(namespace@, name@, NameHash::Md5);
    }
    hash_name(namespace, name, NameHash::Md5)
}

/// Version 3 of a name given as text: the name's UTF-8 octets are hashed.
pub fn uuid3_str(namespace: &Uuid, name: &str) -> (r: Uuid)
    ensures
        r@ == name_based(namespace@, name.spec_bytes(), NameHash::Md5),
        has_layout(r@, 3),
{
    proof {
        lemma_name_based_layout(namespace@, name.spec_bytes(), NameHash::Md5);
    }
    hash_name(namespace, name.as_bytes(), NameHash::Md5)
}

/// Version 4: random bits.
pub fn uuid4() -> (r: Uuid)
    ensures
        has_layout(r@, 4),
{
    Uuid::from_int(random_value())
}

/// Version 5: SHA-1 of the namespace and the name.
pub fn uuid5(namespace: &Uuid, name: &[u8]) -> (r: Uuid)
    ensures
        r@ == name_based(namespace@, name@, NameHash::Sha1),
        has_layout(r@, 5),
{
    proof {
        lemma_name_based_layout(namespace@, name@, NameHash::Sha1);
    }
    hash_name(namespace, name, NameHash::Sha1)
}

/// Version 5 of a name given as text: the name's UTF-8 octets are hashed.
pub fn uuid5_str(namespace: &Uuid, name: &str) -> (r: Uuid)
    ensures
        r@ == name_based(namespace@, name.spec_bytes(), NameHash::Sha1),
        has_layout(r@, 5),
{
    proof {
        lemma_name_based_layout(namespace@, name.spec_bytes(), NameHash::Sha1);
    }
    hash_name(namespace, name.as_bytes(), NameHash::Sha1)
}

/// Version 6: time and node in a layout that sorts by time. Without
/// `timestamp` the current time is used (and `nanos` is not read); without
/// `node` the cache's node is used.
pub fn uuid6(
    node: Option<u64>,
    timestamp: Option<u64>,
    nanos: Option<u32>,
    nodes: &mut NodeCache,
) -> (r: Uuid)
    requires
        old(nodes).wf(),
    ensures
        final(nodes).wf(),
        has_layout(r@, 6),
        node is Some ==> node_of(r@) == node->Some_0 & LOW48_MASK && final(nodes)@ == old(nodes)@,
        node is None ==> crate::node::node_step(old(nodes)@, final(nodes)@, node_of(r@)),
        timestamp is Some ==> sorted_time_of(r@) == gregorian_ticks(
            timestamp->Some_0,
            if nanos is Some { nanos->Some_0 } else { 0 },
        ) & TICKS_MASK,
{
    let n = pick_node(node, nodes);
    let octets = node_to_octets(n);
    assert(n & 0xffff_ffff_ffffu64 == n) by (bit_vector)
        requires
            n < 0x1_0000_0000_0000u64,
    ;
    let value = match timestamp {
        Some(secs) => {
            let ns = match nanos {
                Some(x) => x,
                None => 0,
            };
            sorted_time_node_value_at(secs, ns, octets)
        },
        None => sorted_time_node_value_now(octets),
    };
    Uuid::from_int(value)
}

/// Version 7: Unix milliseconds in the top 48 bits, then counter and random
/// bits. Without `timestamp` the current time is used (and `nanos` is not read).
pub fn uuid7(timestamp: Option<u64>, nanos: Option<u32>) -> (r: Uuid)
    ensures
        has_layout(r@, 7),
        timestamp is Some ==> r@ >> 80u32 == (unix_millis(
            timestamp->Some_0,
            if nanos is Some { nanos->Some_0 } else { 0 },
        ) & LOW48_MASK) as u128,
{
    let value = match timestamp {
        Some(secs) => {
            let ns = match nanos {
                Some(x) => x,
                None => 0,
            };
            unix_time_value_at(secs, ns)
        },
        None => unix_time_value_now(),
    };
    Uuid::from_int(value)
}

/// Version 8: the caller's sixteen octets with version 8 and the RFC 4122
/// variant; any other length is refused.
pub fn uuid8(bytes: &[u8]) -> (r: Result<Uuid, UuidError>)
    ensures
        bytes@.len() == 16 ==> r is Ok && r->Ok_0@ == versioned(be_value(bytes@), 8),
        bytes@.len() == 16 ==> has_layout(r->Ok_0@, 8),
        bytes@.len() != 16 ==> r == Err::<Uuid, UuidError>(UuidError::Length),
{
    proof {
        lemma_versioned_reads_back(be_value(bytes@), 8);
    }
    match Uuid::from_bytes(bytes) {
        Ok(u) => Ok(Uuid::from_int(set_version_bits(u.as_int(), 8))),
        Err(e) => Err(e),
    }
}

proof fn lemma_gregorian_millis_fit(ticks: u64)
    ensures
        gregorian_to_unix(ticks).0 * 1000 + gregorian_to_unix(ticks).1 / 1_000_000 <= u64::MAX,
{
    let d = (ticks - TICKS_BETWEEN_EPOCHS) as u64;
    assert(d / 10_000_000 <= 1_844_674_407_370) by (nonlinear_arith)
        requires
            d <= u64::MAX,
    ;
    assert((d % 10_000_000) * 100 < 1_000_000_000) by (nonlinear_arith);
}

proof fn lemma_embedded_millis_fit(v: u128)
    ensures
        embedded_unix_time(v) is Some ==> embedded_unix_time(v)->Some_0.0 * 1000
            + embedded_unix_time(v)->Some_0.1 / 1_000_000 <= u64::MAX,
{
    if version_of(v) == 1 {
        lemma_gregorian_millis_fit(time_of(v));
    } else if version_of(v) == 6 {
        lemma_gregorian_millis_fit(sorted_time_of(v));
    } else if version_of(v) == 7 {
        let m = (v >> 80u32) as u64;
        assert((m / 1000) * 1000 + (m % 1000) == m) by (nonlinear_arith);
        assert((m % 1000) * 1_000_000 < 1_000_000_000) by (nonlinear_arith);
        assert(((m % 1000) * 1_000_000) / 1_000_000 == m % 1000) by (nonlinear_arith);
    }
}

impl Uuid {
    /// The embedded Unix time in milliseconds, for versions 1, 6 and 7.
    pub fn timestamp(&self) -> (r: Result<u64, UuidError>)
        ensures
            embedded_millis(self@) is Some ==> r == Ok::<u64, UuidError>(
                embedded_millis(self@)->Some_0,
            ),
            embedded_millis(self@) is None ==> r == Err::<u64, UuidError>(
                UuidError::TimestampUnavailable,
            ),
    {
        match unix_time_of(self.as_int()) {
            Some((secs, nanos)) => {
                proof {
                    lemma_embedded_millis_fit(self@);
                }
                Ok(secs * 1000 + nanos as u64 / 1_000_000)
            },
            None => Err(UuidError::TimestampUnavailable),
        }
    }
}

} // verus!
