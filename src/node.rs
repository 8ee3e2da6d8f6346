//! The 48-bit node identifier of the time-based versions: a hardware address
//! where one is found, else random octets marked as not a hardware address.
use vstd::prelude::*;

verus! {

/// The six octets `b[0]` to `b[5]` read in network order.
pub open spec fn be48(b: Seq<u8>) -> u64 {
    (b[0] as u64) << 40u64 | (b[1] as u64) << 32u64 | (b[2] as u64) << 24u64 | (b[3] as u64)
        << 16u64 | (b[4] as u64) << 8u64 | (b[5] as u64)
}

/// Random octets with the multicast bit (the low bit of the first octet) set.
pub open spec fn marked_random(b: Seq<u8>) -> Seq<u8> {
    b.update(0, b[0] | 1)
}

/// One past the largest 48-bit value.
pub const NODE_LIMIT: u64 = 0x1_0000_0000_0000;

/// Relies on `mac_address::get_mac_address` and `MacAddress::bytes`: the six
/// octets of a network interface's hardware address, or nothing where none is
/// found or the lookup fails.
#[verifier::external_body]
fn hardware_address() -> (r: Option<[u8; 6]>) {
    match mac_address::get_mac_address() {
        Ok(Some(address)) => Some(address.bytes()),
        _ => None,
    }
}

/// Relies on `rand::thread_rng` and `RngCore::fill_bytes`: six octets from a
/// cryptographically secure generator.
#[verifier::external_body]
fn random_octets() -> (r: [u8; 6]) {
    let mut octets = [0u8; 6];
    rand::RngCore::fill_bytes(&mut rand::thread_rng(), &mut octets);
    octets
}

fn pack48(b: &[u8; 6]) -> (r: u64)
    ensures
        r == be48(b@),
        r < NODE_LIMIT,
{
    let r = (b[0] as u64) << 40u64 | (b[1] as u64) << 32u64 | (b[2] as u64) << 24u64 | (b[3] as u64)
        << 16u64 | (b[4] as u64) << 8u64 | (b[5] as u64);
    let (b0, b1, b2, b3, b4, b5) = (b[0], b[1], b[2], b[3], b[4], b[5]);
    assert(((b0 as u64) << 40u64 | (b1 as u64) << 32u64 | (b2 as u64) << 24u64 | (b3 as u64)
        << 16u64 | (b4 as u64) << 8u64 | (b5 as u64)) < 0x1_0000_0000_0000u64) by (bit_vector);
    r
}

/// The node of a hardware address: its octets in network order.
pub fn node_from_hardware(address: [u8; 6]) -> (r: u64)
    ensures
        r == be48(address@),
        r < NODE_LIMIT,
{
    pack48(&address)
}

/// The node made of random octets: the multicast bit is set, the rest kept.
pub fn node_from_random(octets: [u8; 6]) -> (r: u64)
    ensures
        r == be48(marked_random(octets@)),
        r < NODE_LIMIT,
{
    let mut marked = octets;
    marked[0] = octets[0] | 1;
    assert(marked@ =~= marked_random(octets@));
    pack48(&marked)
}

/// Finds the node: a hardware address if one is found, else random octets.
pub fn resolve_node() -> (r: u64)
    ensures
        r < NODE_LIMIT,
{
    match hardware_address() {
        Some(address) => node_from_hardware(address),
        None => node_from_random(random_octets()),
    }
}

/// A node found once and kept: every later request returns the same value.
pub struct NodeCache {
    node: Option<u64>,
}

impl View for NodeCache {
    type V = Option<u64>;

    closed spec fn view(&self) -> Option<u64> {
        self.node
    }
}

/// What one request does to the cache: it returns the kept node if there is
/// one, and afterwards the cache holds what was returned.
pub open spec fn node_step(before: Option<u64>, after: Option<u64>, r: u64) -> bool {
    &&& after == Some(r)
    &&& before is Some ==> r == before->Some_0
    &&& r < NODE_LIMIT
}

impl NodeCache {
    /// Every kept node fits in 48 bits.
    pub open spec fn wf(&self) -> bool {
        self@ is Some ==> self@->Some_0 < NODE_LIMIT
    }

    /// A cache that has not looked for the node yet.
    pub fn new() -> (r: NodeCache)
        ensures
            r@ is None,
            r.wf(),
    {
        NodeCache { node: None }
    }

    /// The node, found on the first request and kept from then on.
    pub fn get(&mut self) -> (r: u64)
        requires
            old(self).wf(),
        ensures
            node_step(old(self)@, final(self)@, r),
            final(self).wf(),
    {
        match self.node {
            Some(n) => n,
            None => {
                let n = resolve_node();
                self.node = Some(n);
                n
            },
        }
    }

    /// The kept node, if one has been found.
    pub fn cached(&self) -> (r: Option<u64>)
        ensures
            r == self@,
    {
        self.node
    }
}

/// Within one cache the node never changes: two successive requests return
/// the same value, and the second leaves the cache as the first left it.
pub proof fn lemma_node_stable(
    first: Option<u64>,
    between: Option<u64>,
    last: Option<u64>,
    r1: u64,
    r2: u64,
)
    requires
        node_step(first, between, r1),
        node_step(between, last, r2),
    ensures
        r1 == r2,
        last == between,
{
}

} // verus!
