use ipam::handler::models_data_entry;
use ipam::handler::models_data_entry::create_all_devices;
use ipam::models::{Credential, Device, Network, Status};
use ipam::net::{Cidr, IpAddress};
use ipam::type_net::vlan::Vlan;
use uuid::Uuid;

fn block(text: &str) -> Cidr {
    text.parse().unwrap()
}

fn v4(a: u8, b: u8, c: u8, d: u8) -> IpAddress {
    IpAddress::V4(u32::from_be_bytes([a, b, c, d]))
}

#[test]
fn a_30_has_two_devices() {
    let id = Uuid::from_u128(0x1234);
    let devices = create_all_devices(block("10.0.0.0/30"), id).unwrap();
    assert_eq!(devices.len(), 2);
    assert_eq!(devices[0].ip, v4(10, 0, 0, 1));
    assert_eq!(devices[1].ip, v4(10, 0, 0, 2));
    for device in &devices {
        assert_eq!(device.status, Status::Unknown);
        assert!(device.credential.is_none());
        assert!(device.description.is_none());
        assert!(device.office_id.is_none());
        assert!(device.rack.is_none());
        assert!(device.room.is_none());
        assert_eq!(device.network_id, id);
    }
}

#[test]
fn a_block_without_hosts_has_no_devices_at_all() {
    let id = Uuid::nil();
    assert!(create_all_devices(block("10.0.0.0/31"), id).is_none());
    assert!(create_all_devices(block("10.0.0.7/32"), id).is_none());
    assert!(create_all_devices(block("fd00::/127"), id).is_none());
    assert!(create_all_devices(block("fd00::1/128"), id).is_none());
}

#[test]
fn devices_leave_out_the_first_and_the_last_address() {
    let net = block("192.168.1.77/29");
    let devices = create_all_devices(net, Uuid::nil()).unwrap();
    let found: Vec<IpAddress> = devices.iter().map(|d| d.ip).collect();
    let expected: Vec<IpAddress> = (73..=78).map(|d| v4(192, 168, 1, d)).collect();
    assert_eq!(found, expected);
    assert!(!found.contains(&v4(192, 168, 1, 72)));
    assert!(!found.contains(&v4(192, 168, 1, 79)));
}

#[test]
fn a_24_has_254_devices_in_ascending_order() {
    let devices = create_all_devices(block("10.0.7.0/24"), Uuid::nil()).unwrap();
    assert_eq!(devices.len(), 254);
    for (i, device) in devices.iter().enumerate() {
        assert_eq!(device.ip, v4(10, 0, 7, (i + 1) as u8));
    }
}

#[test]
fn an_ipv6_block_has_devices_between_its_ends() {
    let devices = create_all_devices(block("fd00::/126"), Uuid::nil()).unwrap();
    let base: u128 = 0xfd00 << 112;
    let found: Vec<IpAddress> = devices.iter().map(|d| d.ip).collect();
    assert_eq!(found, vec![IpAddress::V6(base + 1), IpAddress::V6(base + 2)]);
}

#[test]
fn the_last_block_of_the_address_space_has_its_devices() {
    let devices = create_all_devices(block("255.255.255.252/30"), Uuid::nil()).unwrap();
    let found: Vec<IpAddress> = devices.iter().map(|d| d.ip).collect();
    assert_eq!(found, vec![v4(255, 255, 255, 253), v4(255, 255, 255, 254)]);
}

#[test]
fn a_placeholder_knows_only_where_it_is() {
    let id = Uuid::from_u128(9);
    let device = Device::placeholder(v4(10, 0, 0, 1), id);
    assert_eq!(device.ip, v4(10, 0, 0, 1));
    assert_eq!(device.status, Status::Unknown);
    assert_eq!(device.network_id, id);
    assert!(device.credential.is_none());
}

#[test]
fn status_is_unknown_unless_told() {
    assert_eq!(Status::default(), Status::Unknown);
}

#[test]
fn a_submitted_device_starts_as_unknown() {
    let id = Uuid::from_u128(77);
    let office = Uuid::from_u128(78);
    let entry = models_data_entry::Device {
        ip: v4(10, 0, 0, 9),
        description: Some("printer".to_string()),
        office_id: Some(office),
        rack: Some("r1".to_string()),
        room: None,
        status: Some(Status::Online),
        network_id: id,
        credential: Some(Credential { username: "u".to_string(), password: "p".to_string() }),
    };
    let device = Device::from(entry);
    assert_eq!(device.status, Status::Unknown);
    assert_eq!(device.ip, v4(10, 0, 0, 9));
    assert_eq!(device.description.as_deref(), Some("printer"));
    assert_eq!(device.office_id, Some(office));
    assert_eq!(device.rack.as_deref(), Some("r1"));
    assert!(device.room.is_none());
    assert_eq!(device.network_id, id);
    assert_eq!(
        device.credential,
        Some(Credential { username: "u".to_string(), password: "p".to_string() })
    );
}

#[test]
fn a_new_network_has_all_its_hosts_available() {
    let entry = models_data_entry::Network {
        network: block("10.0.0.0/24"),
        description: Some("lab".to_string()),
        vlan: Some(Vlan::vlan_id(12).unwrap()),
    };
    let network = Network::from(entry);
    assert_eq!(network.available, 254);
    assert_eq!(network.used, 0);
    assert_eq!(network.total, 0);
    assert_eq!(network.network, block("10.0.0.0/24"));
    assert_eq!(network.description.as_deref(), Some("lab"));
    assert_eq!(network.vlan.map(|v| *v), Some(12));
}

#[test]
fn a_new_network_of_a_smallest_block_has_nothing_available() {
    for text in ["10.0.0.0/31", "10.0.0.0/32"] {
        let network = Network::new(Uuid::nil(), block(text), None, None);
        assert_eq!(network.available, 0);
        assert_eq!(network.used, 0);
        assert_eq!(network.total, 0);
    }
}

#[test]
fn a_new_network_keeps_the_identifier_it_is_given() {
    let id = Uuid::from_u128(0xabcdef);
    let network = Network::new(id, block("172.16.0.0/16"), None, None);
    assert_eq!(network.id, id);
    assert_eq!(network.available, 65534);
    assert!(network.description.is_none());
    assert!(network.vlan.is_none());
}

#[test]
fn submitted_networks_get_identifiers_of_their_own() {
    let make = || models_data_entry::Network {
        network: block("10.0.0.0/24"),
        description: None,
        vlan: None,
    };
    let a = Network::from(make());
    let b = Network::from(make());
    assert_ne!(a.id, b.id);
    assert!(!a.id.is_nil());
}

#[test]
fn an_ipv6_network_is_not_bounded() {
    let network = Network::new(Uuid::nil(), block("fd00::/64"), None, None);
    assert_eq!(network.available, u32::MAX);
}

#[test]
fn devices_of_an_ipv4_network_are_as_many_as_its_capacity() {
    for text in ["10.0.0.0/30", "10.0.0.0/29", "10.0.0.0/25", "10.0.0.0/20"] {
        let net = block(text);
        let network = Network::new(Uuid::nil(), net, None, None);
        let devices = create_all_devices(net, network.id).unwrap();
        assert_eq!(devices.len() as u32, network.available);
    }
}

#[test]
fn a_copy_of_a_device_belongs_to_the_same_network() {
    let id = Uuid::from_u128(0xfeed);
    let device = Device::placeholder(v4(10, 0, 0, 1), id);
    let copy = device.clone();
    assert_eq!(copy.network_id, id);
    assert_eq!(copy.ip, device.ip);
    assert_eq!(copy.status, Status::Unknown);
}
