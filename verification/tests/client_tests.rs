use bitcomm::client::{ClientID, ClientPlanet, ClientType, DeviceConnInfo, DeviceConnState};
use bitcomm::group::ClientGroup;

#[test]
fn client_id_new_keeps_fields() {
    let id = ClientID::new(ClientPlanet::planet_mar(), 42);
    assert_eq!(id.planet(), ClientPlanet::planet_mar());
    assert_eq!(id.object(), 42);
    assert_eq!(id.planet().bits(), 0x10);
}

#[test]
fn guid_puts_planet_high_and_object_low() {
    let id = ClientID::new(ClientPlanet::planet_mar(), 1);
    assert_eq!(id.get_guid(), 0x0000_0010_0000_0001);
    let earth = ClientID::new(ClientPlanet::planet_earth(), 0xdead_beef);
    assert_eq!(earth.get_guid(), 0xdead_beef);
    let all = ClientID::new(ClientPlanet(0xffff_ffff), 0xffff_ffff);
    assert_eq!(all.get_guid(), u64::MAX);
}

#[test]
fn hex_is_lowercase_without_leading_zeros() {
    assert_eq!(ClientID::new(ClientPlanet::planet_mar(), 1).get_hex(), "1000000001");
    assert_eq!(ClientID::new(ClientPlanet::planet_earth(), 0).get_hex(), "0");
    assert_eq!(ClientID::new(ClientPlanet::planet_earth(), 255).get_hex(), "ff");
    assert_eq!(ClientID::new(ClientPlanet::planet_earth(), 0xabc).get_hex(), "abc");
    assert_eq!(
        ClientID::new(ClientPlanet(0xffff_ffff), 0xffff_ffff).get_hex(),
        "ffffffffffffffff"
    );
}

#[test]
fn hex_matches_std_formatting() {
    for (p, o) in [(0u32, 1u32), (0x10, 0x2a), (0x1234, 0x5678_9abc), (7, 0)] {
        let id = ClientID::new(ClientPlanet(p), o);
        assert_eq!(id.get_hex(), format!("{:x}", id.get_guid()));
    }
}

#[test]
fn key_puts_guid_high_and_device_low() {
    let id = ClientID::new(ClientPlanet::planet_mar(), 1);
    let key = id.get_key(7);
    assert_eq!(key, (0x0000_0010_0000_0001u128 << 64) | 7);
    assert_eq!((key >> 64) as u64, id.get_guid());
    assert_eq!(key as u64, 7);
    let all = ClientID::new(ClientPlanet(0xffff_ffff), 0xffff_ffff);
    assert_eq!(all.get_key(u32::MAX), (u128::from(u64::MAX) << 64) | u128::from(u32::MAX));
}

#[test]
fn into_u64_is_the_guid() {
    let id = ClientID::new(ClientPlanet::planet_mar(), 9);
    let guid: u64 = id.into();
    assert_eq!(guid, id.get_guid());
    assert_eq!(u64::from(id), 0x0000_0010_0000_0009);
}

#[test]
fn client_id_setters_chain() {
    let mut id = ClientID::new(ClientPlanet::planet_earth(), 1);
    id.set_planet(ClientPlanet::planet_mar()).set_object(5);
    assert_eq!(id, ClientID::new(ClientPlanet::planet_mar(), 5));
}

#[test]
fn flag_values() {
    assert_eq!(ClientType::client_people().bits(), 0x0001);
    assert_eq!(ClientType::client_group().bits(), 0x0002);
    assert_eq!(ClientType::client_device().bits(), 0x0003);
    assert_eq!(ClientType::client_robot().bits(), 0x0004);
    assert_eq!(ClientType::client_service().bits(), 0x0010);
    assert_eq!(ClientPlanet::planet_earth().bits(), 0);
    assert_eq!(DeviceConnState::state_online().bits(), 0x0001_0001);
    assert_eq!(DeviceConnState::state_onback().bits(), 0x0001_0002);
    assert_eq!(DeviceConnState::state_offline().bits(), 0x0001_0004);
}

#[test]
fn device_conn_info_new_keeps_fields() {
    let info = DeviceConnInfo::new(12, DeviceConnState::state_onback());
    assert_eq!(info.device_id, 12);
    assert_eq!(info.device_state, DeviceConnState::state_onback());
}

#[test]
fn client_group_starts_empty() {
    let gid = ClientID::new(ClientPlanet::planet_earth(), 100);
    let mut group = ClientGroup::new(gid);
    assert_eq!(*group.group_id(), gid);
    assert!(group.client_list().is_empty());
    let member = ClientID::new(ClientPlanet::planet_mar(), 3);
    group.set_client_list(vec![member]);
    assert_eq!(group.client_list(), &vec![member]);
    let other = ClientID::new(ClientPlanet::planet_mar(), 4);
    group.set_group_id(other);
    assert_eq!(*group.group_id(), other);
    assert_eq!(group.client_list().len(), 1);
}

#[test]
fn device_conn_info_setters() {
    let mut info = DeviceConnInfo::new(1, DeviceConnState::state_online());
    info.set_device_id(2).set_device_state(DeviceConnState::state_offline());
    assert_eq!(info.device_id(), 2);
    assert_eq!(info.device_state(), DeviceConnState::state_offline());
}
