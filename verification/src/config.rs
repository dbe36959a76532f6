use vstd::prelude::*;

verus! {

/// An IP address, as the library holds it.
#[derive(Debug, Clone, Copy, PartialEq, Eq)]
pub enum IpAddress {
    V4([u8; 4]),
    V6([u16; 8]),
}

/// A socket address: an IP address and a port.
#[derive(Debug, Clone, Copy, PartialEq, Eq)]
pub struct NodeAddr {
    pub ip: IpAddress,
    pub port: u16,
}

/// The port that node 0 listens on; node `id` listens on `BASE_PORT + id`.
pub const BASE_PORT: u16 = 8000;

/// The largest node id whose port `BASE_PORT + id` still fits in a `u16`.
pub const MAX_NODE_ID: u32 = 57535;

/// The loopback address every node of the cluster listens on.
pub open spec fn loopback() -> IpAddress {
    IpAddress::V4([127u8, 0u8, 0u8, 1u8])
}

/// A node's configuration: its id, the size of its cluster and the address
/// it announces to its peers.
#[derive(Debug, Clone, Copy, PartialEq, Eq)]
pub struct Config {
    pub id: u32,
    pub number_of_nodes: u32,
    pub local_addr: NodeAddr,
}

impl Config {
    pub fn new(id: u32, number_of_nodes: u32, addr: NodeAddr) -> (config: Self)
        ensures
            config.id == id,
            config.number_of_nodes == number_of_nodes,
            config.local_addr == addr,
    {
        Config { id, number_of_nodes, local_addr: addr }
    }
}

/// The port node `id` listens on.
pub open spec fn node_port(id: u32) -> int {
    BASE_PORT + id
}

/// The id of the node that listens on `port`.
pub open spec fn port_owner(port: u16) -> int {
    port - BASE_PORT
}

/// The address node `id` listens on: the loopback address, port `BASE_PORT + id`.
pub fn node_address(id: u32) -> (addr: NodeAddr)
    requires
        id <= MAX_NODE_ID,
    ensures
        addr.ip == loopback(),
        addr.port == node_port(id),
{
    let port: u16 = BASE_PORT + (id as u16);
    NodeAddr { ip: IpAddress::V4([127u8, 0u8, 0u8, 1u8]), port }
}

/// The id of the peer that listens on `port`: `port - BASE_PORT`.
pub fn peer_id_of_port(port: u16) -> (id: u32)
    requires
        port >= BASE_PORT,
    ensures
        id == port_owner(port),
{
    (port - BASE_PORT) as u32
}

/// The ids of the peers a node dials when it starts: every id above its own,
/// up to the last node of the cluster, in increasing order.
pub open spec fn dial_targets(id: u32, number_of_nodes: u32) -> Seq<u32> {
    let count: int = if number_of_nodes - 1 > id { number_of_nodes - 1 - id } else { 0 };
    Seq::new(count as nat, |k: int| (id + 1 + k) as u32)
}

/// The peers node `id` connects to itself: `id + 1 ..= number_of_nodes - 1`.
/// (The peers below it connect to it.)
pub fn peers_to_dial(id: u32, number_of_nodes: u32) -> (ids: Vec<u32>)
    requires
        number_of_nodes >= 1,
        id < u32::MAX,
    ensures
        ids@ == dial_targets(id, number_of_nodes),
        forall|k: int| 0 <= k < ids@.len() ==> ids@[k] == id + 1 + k,
        forall|x: u32| ids@.contains(x) <==> id < x < number_of_nodes,
{
    proof {
        lemma_dial_targets(id, number_of_nodes);
    }
    let last: u32 = number_of_nodes - 1;
    let mut ids: Vec<u32> = Vec::new();
    if id >= last {
        assert(ids@ =~= dial_targets(id, number_of_nodes));
        return ids;
    }
    let mut next: u32 = id + 1;
    while next <= last
        invariant
            last == number_of_nodes - 1,
            id + 1 <= next,
            next <= last + 1,
            ids@ =~= dial_targets(id, number_of_nodes).take(next - id - 1),
            next - id - 1 <= dial_targets(id, number_of_nodes).len(),
        decreases last + 1 - next,
    {
        ids.push(next);
        if next == last {
            assert(ids@ =~= dial_targets(id, number_of_nodes));
            proof {
                lemma_dial_targets(id, number_of_nodes);
            }
            return ids;
        }
        next = next + 1;
    }
    assert(ids@ =~= dial_targets(id, number_of_nodes));
    ids
}

/// Law: a node dials exactly the nodes above it, in increasing order, up to
/// the last node of the cluster, `number_of_nodes - 1`.
pub proof fn lemma_dial_targets(id: u32, number_of_nodes: u32)
    requires
        number_of_nodes >= 1,
    ensures
        id + 1 < number_of_nodes ==> dial_targets(id, number_of_nodes).len() == number_of_nodes - 1
            - id && dial_targets(id, number_of_nodes).last() == number_of_nodes - 1,
        id + 1 >= number_of_nodes ==> dial_targets(id, number_of_nodes).len() == 0,
        forall|k: int|
            0 <= k < dial_targets(id, number_of_nodes).len() ==> dial_targets(
                id,
                number_of_nodes,
            )[k] == id + 1 + k,
        forall|x: u32| dial_targets(id, number_of_nodes).contains(x) <==> id < x < number_of_nodes,
{
    let t = dial_targets(id, number_of_nodes);
    assert forall|x: u32| t.contains(x) <==> id < x < number_of_nodes by {
        if id < x < number_of_nodes {
            assert(t[x - id - 1] == x);
        }
    }
}

/// Law: the port a node listens on fits in a port number and names that
/// node again, so a session opened from a node's address is filed under the
/// node's own id.
pub proof fn lemma_port_names_node(id: u32)
    requires
        id <= MAX_NODE_ID,
    ensures
        node_port(id) <= u16::MAX,
        port_owner(node_port(id) as u16) == id,
{
}

} // verus!
