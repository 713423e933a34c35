use ipam::net::Cidr;
use ipam::type_net::host_count::{HostCount, Prefix};

#[test]
fn test_prefix_instance_exit() {
    let ipnet: Cidr = "172.30.0.30/24".parse().unwrap();
    let pref = Prefix::from(&ipnet);

    let ipnet: Cidr = "172.30.0.30/16".parse().unwrap();
    let pref_2 = Prefix::from(&ipnet);
    assert_eq!(24, *pref);
    assert_eq!(16, *pref_2);
}

#[test]
fn test_prefix_instance_fail() {
    let ipnet: Cidr = "172.30.0.30/25".parse().unwrap();
    let pref = Prefix::from(&ipnet);

    let ipnet: Cidr = "172.30.0.30/13".parse().unwrap();
    let pref_2 = Prefix::from(&ipnet);
    assert_ne!(16, *pref);
    assert_ne!(24, *pref_2);
}

#[test]
fn test_prefix_partial_eq_with_prefix() {
    let ipnet: Cidr = "172.30.0.30/25".parse().unwrap();
    let pref = Prefix::from(&ipnet);

    let ipnet: Cidr = "172.30.0.30/25".parse().unwrap();
    let pref_2 = Prefix::from(&ipnet);
    assert!(pref_2 == pref);
}

#[test]
fn test_prefix_partial_eq_with_integer() {
    let ipnet: Cidr = "172.30.0.30/25".parse().unwrap();
    let pref_2 = Prefix::from(&ipnet);
    assert!(pref_2 == 25);
}

#[test]
fn test_prefix_partial_partial_ord_with_prefix() {
    let ipnet: Cidr = "172.30.0.30/24".parse().unwrap();
    let pref = Prefix::from(&ipnet);

    let ipnet: Cidr = "172.30.0.30/25".parse().unwrap();
    let pref_2 = Prefix::from(&ipnet);
    assert_eq!(pref_2 > pref, true);
    assert_eq!(pref_2 < pref, false);
    assert_ne!(pref_2 < pref, true);
    assert_ne!(pref_2 > pref, false);
    assert!(pref_2 > pref);
}

#[test]
fn test_prefix_partial_partial_ord_with_integer() {
    let ipnet: Cidr = "172.30.0.30/24".parse().unwrap();
    let pref = Prefix::from(&ipnet);
    assert_eq!(pref > 10, true);
    assert_eq!(pref < 10, false);
    assert!(pref > 10);
}

#[test]
fn host_counter_instance_from_prefix() {
    let pref = HostCount::new(Prefix::from(&"172.30.0.0/24".parse::<Cidr>().unwrap()));
    assert_eq!(*pref, 254);
}

#[test]
fn host_counter_instance_from_u32() {
    let pref: HostCount = 10.into();
    assert_eq!(*pref, 10);
    assert_ne!(15, *pref);
}

#[test]
fn host_counter_subtract_ok() {
    let mut pref: HostCount = 10.into();
    assert!(pref.sub(9u8).is_ok());
    assert!(pref.sub(1u8).is_ok());
}

#[test]
fn host_counter_subtract_err() {
    let mut pref: HostCount = 10.into();
    assert!(pref.sub(1u8).is_ok());
    assert!(pref.sub(10u8).is_err());
}

#[test]
fn host_counter_addition_ok() {
    let mut pref: HostCount = 10.into();
    assert!(pref.add(9u8).is_ok());
    assert!(pref.add(1u8).is_ok());
}

#[test]
fn host_counter_addition_err() {
    let mut pref: HostCount = 10.into();
    assert!(pref.add(HostCount::MAX).is_err());
}
