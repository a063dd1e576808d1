use fusion_native::dm_binding::{
    on_device_changed, on_device_offline, on_device_online, on_device_ready, CDmAuthForm,
    CDmDeviceInfo, DevStateBridge, DmDeviceInfo,
};

fn raw(id: &str, auth_form: i32) -> CDmDeviceInfo {
    CDmDeviceInfo {
        device_id: Some(id.to_string()),
        device_name: Some(format!("name-{}", id)),
        device_type_id: 0x0E,
        network_id: Some(format!("net-{}", id)),
        range: -42,
        auth_form,
    }
}

#[test]
fn auth_form_codes() {
    let forms = [
        (CDmAuthForm::INVALIDTYPE, -1),
        (CDmAuthForm::PEERTOPEER, 0),
        (CDmAuthForm::IDENTICALACCOUNT, 1),
        (CDmAuthForm::ACROSSACCOUNT, 2),
    ];
    for (f, c) in forms {
        assert_eq!(f.code(), c);
        assert_eq!(CDmAuthForm::from_code(c), Some(f));
    }
    assert_eq!(CDmAuthForm::from_code(3), None);
    assert_eq!(CDmAuthForm::from_code(-2), None);
}

#[test]
fn null_record_is_dropped() {
    assert!(DmDeviceInfo::from_raw(None).is_none());
    assert!(on_device_online(None).is_none());
    assert!(on_device_changed(None).is_none());
    assert!(on_device_ready(None).is_none());
    assert!(on_device_offline(None).is_none());
}

#[test]
fn record_with_null_string_is_dropped() {
    let mut r = raw("a", 0);
    r.network_id = None;
    assert!(on_device_online(Some(&r)).is_none());
    let mut r = raw("a", 0);
    r.device_id = None;
    assert!(on_device_changed(Some(&r)).is_none());
    let mut r = raw("a", 0);
    r.device_name = None;
    assert!(on_device_ready(Some(&r)).is_none());
}

#[test]
fn record_with_unknown_auth_form_is_dropped() {
    assert!(on_device_offline(Some(&raw("a", 7))).is_none());
}

#[test]
fn well_formed_record_is_converted() {
    let info = on_device_online(Some(&raw("dev1", 1))).unwrap();
    assert_eq!(info.device_id, "dev1");
    assert_eq!(info.device_name, "name-dev1");
    assert_eq!(info.device_type_id, 0x0E);
    assert_eq!(info.network_id, "net-dev1");
    assert_eq!(info.range, -42);
    assert_eq!(info.auth_form, CDmAuthForm::IDENTICALACCOUNT);
}

#[test]
fn four_online_events_stay_apart() {
    let ids = ["d0", "d1", "d2", "d3"];
    let raws: Vec<CDmDeviceInfo> = ids.iter().enumerate().map(|(i, id)| raw(id, i as i32 - 1)).collect();
    let infos: Vec<DmDeviceInfo> = raws.iter().map(|r| on_device_online(Some(r)).unwrap()).collect();
    let forms = [
        CDmAuthForm::INVALIDTYPE,
        CDmAuthForm::PEERTOPEER,
        CDmAuthForm::IDENTICALACCOUNT,
        CDmAuthForm::ACROSSACCOUNT,
    ];
    for (i, info) in infos.iter().enumerate() {
        assert_eq!(info.device_id, ids[i]);
        assert_eq!(info.device_name, format!("name-{}", ids[i]));
        assert_eq!(info.network_id, format!("net-{}", ids[i]));
        assert_eq!(info.auth_form, forms[i]);
    }
}

#[test]
fn registration_waits_for_initialization() {
    let mut bridge = DevStateBridge::new();
    assert!(!bridge.may_register());
    bridge.on_register_result(true);
    assert!(!bridge.accepts_events());
    bridge.on_device_init();
    assert!(bridge.may_register());
    bridge.on_register_result(false);
    assert!(!bridge.accepts_events());
    bridge.on_register_result(true);
    assert!(bridge.accepts_events());
    assert!(!bridge.may_register());
    bridge.teardown();
    assert!(!bridge.accepts_events());
    assert!(bridge.may_register());
}
