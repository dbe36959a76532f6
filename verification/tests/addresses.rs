use raft::config::{node_address, peer_id_of_port, peers_to_dial, Config, IpAddress, NodeAddr};

#[test]
fn node_address_is_loopback_at_base_port() {
    let addr = node_address(2);
    assert_eq!(addr.ip, IpAddress::V4([127, 0, 0, 1]));
    assert_eq!(addr.port, 8002);
    assert_eq!(node_address(0).port, 8000);
    assert_eq!(node_address(57535).port, 65535);
}

#[test]
fn port_names_its_node() {
    assert_eq!(peer_id_of_port(8000), 0);
    assert_eq!(peer_id_of_port(8003), 3);
    for id in [0u32, 1, 2, 99, 57535] {
        assert_eq!(peer_id_of_port(node_address(id).port), id);
    }
}

#[test]
fn peers_to_dial_are_the_higher_ids() {
    assert_eq!(peers_to_dial(0, 3), vec![1, 2]);
    assert_eq!(peers_to_dial(1, 3), vec![2]);
    assert_eq!(peers_to_dial(2, 3), Vec::<u32>::new());
    assert_eq!(peers_to_dial(5, 3), Vec::<u32>::new());
    assert_eq!(peers_to_dial(0, 1), Vec::<u32>::new());
}

#[test]
fn config_new_keeps_fields() {
    let addr = NodeAddr { ip: IpAddress::V4([127, 0, 0, 1]), port: 8001 };
    let config = Config::new(1, 3, addr);
    assert_eq!(config.id, 1);
    assert_eq!(config.number_of_nodes, 3);
    assert_eq!(config.local_addr, addr);
}
