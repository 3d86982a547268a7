use esp32s3_cam_qr::unlock::{
    expand_short_uuid, BLE_BASE_UUID,
    is_target_device, loading_bar_layout, loading_label, str_eq, BarLayout, BleReply, BleWait,
    Notice, WaitAction, CHARACTERISTIC_UUID, DEVICE_NAME, OPEN_COMMAND, SERVICE_UUID,
};

#[test]
fn constants() {
    assert_eq!(DEVICE_NAME, "esp-msg");
    assert_eq!(OPEN_COMMAND, "open_close_servo");
    assert_eq!(SERVICE_UUID, 0x921a6069_4357_4287_a9af_fd386fc0dcad);
    assert_eq!(CHARACTERISTIC_UUID, 0x1ad4aa0c_5cb7_4be3_9916_9c63f19c03fd);
}

#[test]
fn string_equality() {
    assert!(str_eq("esp-msg", "esp-msg"));
    assert!(!str_eq("esp-msg", "esp-ms"));
    assert!(!str_eq("esp-msg", "esp-msh"));
    assert!(str_eq("", ""));
}

#[test]
fn target_by_name_or_service() {
    assert!(is_target_device(Some("esp-msg"), &[]));
    assert!(is_target_device(Some("other"), &[1, SERVICE_UUID]));
    assert!(is_target_device(None, &[SERVICE_UUID]));
    assert!(!is_target_device(Some("other"), &[1, CHARACTERISTIC_UUID]));
    assert!(!is_target_device(None, &[]));
    assert!(!is_target_device(Some("esp-msg2"), &[]));
}

#[test]
fn bar_layout() {
    let b = loading_bar_layout(0, 200, 120, 120);
    assert_eq!(
        b,
        BarLayout { x: 20, y: 115, width: 0, height: 20, label_x: 120, label_y: 100 }
    );
    assert_eq!(loading_bar_layout(100, 200, 120, 120).width, 120);
    assert_eq!(loading_bar_layout(166, 200, 120, 120).width, 199);
    assert_eq!(loading_bar_layout(200, 200, 120, 120).width, 200);
    assert_eq!(loading_bar_layout(1, 240, 0, 0).x, 0);
}

#[test]
fn label_text() {
    assert_eq!(loading_label("1234567"), "Sending: 1234567");
    assert_eq!(loading_label(""), "Sending: ");
}

#[test]
fn notices() {
    assert_eq!(Notice::Success.text(), "Success");
    assert_eq!(Notice::DeviceNotFound.text(), "Device not found");
    assert_eq!(Notice::InvalidCode.text(), "Invalid code");
    assert!(!Notice::Success.is_alert());
    assert!(Notice::DeviceNotFound.is_alert());
    assert_eq!(Notice::Success.hold_ms(), 1000);
    assert_eq!(Notice::DeviceNotFound.hold_ms(), 2000);
    assert_eq!(Notice::InvalidCode.hold_ms(), 2000);
}

#[test]
fn waiting_for_the_lock_board() {
    let mut w = BleWait::new();
    match w.step(&BleReply::Pending) {
        WaitAction::Progress(b) => assert_eq!(b.width, 0),
        other => panic!("unexpected {:?}", other),
    }
    match w.step(&BleReply::Pending) {
        WaitAction::Progress(b) => {
            assert_eq!(b.width, 1);
            assert_eq!((b.label_x, b.label_y), (120, 100));
        }
        other => panic!("unexpected {:?}", other),
    }
    assert_eq!(w.count(), 2);
    assert_eq!(w.step(&BleReply::Sent), WaitAction::Show(Notice::Success));
    assert_eq!(
        w.step(&BleReply::Failed("Device not found during scan".to_string())),
        WaitAction::Show(Notice::DeviceNotFound)
    );
    assert_eq!(w.step(&BleReply::Disconnected), WaitAction::Stop);
    assert_eq!(w.count(), 2);
}

#[test]
fn short_uuids_expand_into_the_base_uuid() {
    assert_eq!(expand_short_uuid(0), BLE_BASE_UUID);
    assert_eq!(expand_short_uuid(0x180F), 0x0000180f_0000_1000_8000_00805f9b34fb);
    assert_eq!(expand_short_uuid(0xFFFF_FFFF), 0xffffffff_0000_1000_8000_00805f9b34fb);
}
