use yoyopod::bluetooth::{
    accessories_from_devices, sort_accessories, AccessoryRegistry, BluezDevice, RegistryEntry, AUDIO_SINK_UUID,
};

fn device(address: Option<&str>, alias: Option<&str>, audio: bool, paired: bool, connected: bool) -> BluezDevice {
    BluezDevice {
        address: address.map(str::to_string),
        alias: alias.map(str::to_string),
        name: None,
        uuids: if audio { vec![AUDIO_SINK_UUID.to_string()] } else { vec!["0000180f-0000-1000-8000-00805f9b34fb".to_string()] },
        paired,
        connected,
        trusted: false,
        rssi: Some(-60),
        battery_percent: Some(80),
    }
}

#[test]
fn audio_devices_are_listed_connected_then_paired_then_by_name() {
    let mut registry = AccessoryRegistry { accessories: Vec::new() };
    let devices = vec![
        device(Some("AA:00:00:00:00:01"), Some("beta"), true, false, false),
        device(Some("AA:00:00:00:00:02"), Some("Alpha"), true, true, false),
        device(Some("AA:00:00:00:00:03"), Some("zeta"), true, true, true),
        device(Some("AA:00:00:00:00:04"), Some("Keyboard"), false, true, true),
        device(None, Some("No address"), true, true, true),
        device(Some("AA:00:00:00:00:05"), Some("alpha two"), true, false, false),
    ];
    let (list, changed) = accessories_from_devices(&mut registry, &devices, 500);
    assert!(changed);
    let names: Vec<&str> = list.iter().map(|a| a.name.as_str()).collect();
    assert_eq!(names, vec!["zeta", "Alpha", "alpha two", "beta"]);
    assert_eq!(registry.accessories.len(), 4);
    assert!(list.iter().all(|a| a.last_seen_at == 500));
    assert!(list
        .iter()
        .all(|a| registry.accessories.iter().any(|entry| entry.accessory_id == a.accessory_id)));

    let (again, changed) = accessories_from_devices(&mut registry, &devices, 500);
    assert!(!changed);
    let ids: Vec<&str> = again.iter().map(|a| a.accessory_id.as_str()).collect();
    let first_ids: Vec<&str> = list.iter().map(|a| a.accessory_id.as_str()).collect();
    assert_eq!(ids, first_ids);
}

#[test]
fn unnamed_devices_fall_back_to_a_generic_name() {
    let mut registry = AccessoryRegistry { accessories: Vec::new() };
    let devices = vec![device(Some("AA:00:00:00:00:09"), None, true, false, false)];
    let (list, _) = accessories_from_devices(&mut registry, &devices, 1);
    assert_eq!(list[0].name, "Bluetooth audio");
}

#[test]
fn sorting_keeps_ties_in_order() {
    let mut registry = AccessoryRegistry { accessories: Vec::new() };
    let devices = vec![
        device(Some("AA:00:00:00:00:01"), Some("Same"), true, false, false),
        device(Some("AA:00:00:00:00:02"), Some("same"), true, false, false),
    ];
    let (list, _) = accessories_from_devices(&mut registry, &devices, 1);
    let reversed: Vec<_> = list.iter().rev().cloned().collect();
    let sorted = sort_accessories(reversed.clone());
    assert_eq!(sorted[0].accessory_id, reversed[0].accessory_id);
    assert_eq!(sorted[1].accessory_id, reversed[1].accessory_id);
}

#[test]
fn known_entries_keep_their_id_alias_and_auto_connect() {
    let mut registry = AccessoryRegistry {
        accessories: vec![RegistryEntry {
            accessory_id: "11111111-2222-3333-4444-555555555555".to_string(),
            address: "aa:00:00:00:00:01".to_string(),
            alias: "Kitchen".to_string(),
            auto_connect: true,
            last_seen_at: 3,
        }],
    };
    let devices = vec![
        device(Some("AA:00:00:00:00:01"), Some("speaker"), true, true, false),
        device(Some("AA:00:00:00:00:02"), Some("other"), true, false, false),
    ];
    let (list, changed) = accessories_from_devices(&mut registry, &devices, 9);
    assert!(changed);
    assert_eq!(list.len(), 2);
    let kitchen = list.iter().find(|a| a.name == "Kitchen").expect("kitchen");
    assert_eq!(kitchen.accessory_id, "11111111-2222-3333-4444-555555555555");
    assert!(kitchen.auto_connect);
    assert_eq!(registry.accessories[0].alias, "Kitchen");
    assert_eq!(registry.accessories[0].last_seen_at, 9);
    assert_eq!(registry.accessories.len(), 2);
    assert_ne!(list[0].accessory_id, list[1].accessory_id);
}

#[test]
fn seeing_nothing_new_leaves_the_registry_unchanged() {
    let mut registry = AccessoryRegistry { accessories: Vec::new() };
    let (list, changed) = accessories_from_devices(&mut registry, &Vec::new(), 9);
    assert!(list.is_empty());
    assert!(!changed);
    let devices = vec![device(Some("AA:00:00:00:00:07"), Some("buds"), true, false, false)];
    let (_, changed) = accessories_from_devices(&mut registry, &devices, 9);
    assert!(changed);
    let (_, changed) = accessories_from_devices(&mut registry, &devices, 10);
    assert!(changed);
    let (_, changed) = accessories_from_devices(&mut registry, &devices, 10);
    assert!(!changed);
}
