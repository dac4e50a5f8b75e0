use hid_api::device::{device_major, device_minor, hidg_path, select_hidg_node};
use hid_api::{locate_hidg_node, DeviceNotFound};

fn dev(major: u64, minor: u64) -> u64 {
    (major << 8) | minor
}

#[test]
fn device_numbers() {
    assert_eq!(device_major(dev(236, 3)), 236);
    assert_eq!(device_minor(dev(236, 3)), 3);
    assert_eq!(device_major(0x1234_5678), 0x456);
    assert_eq!(device_minor(0x1234_5678), 0x78);
    assert_eq!(device_major(u64::MAX), 0xfff);
    assert_eq!(device_minor(u64::MAX), 0xff);
}

#[test]
fn node_paths() {
    assert_eq!(hidg_path(0), "/dev/hidg0");
    assert_eq!(hidg_path(9), "/dev/hidg9");
    assert_eq!(hidg_path(10), "/dev/hidg10");
}

#[test]
fn first_matching_node_wins() {
    let nodes = vec![None, Some(dev(236, 1)), Some(dev(236, 0)), Some(dev(236, 0))];
    assert_eq!(select_hidg_node(&nodes, 236, 0), Some(2));
    assert_eq!(select_hidg_node(&nodes, 236, 1), Some(1));
    assert_eq!(select_hidg_node(&nodes, 237, 0), None);
    assert_eq!(locate_hidg_node(&nodes, 236, 0).unwrap(), "/dev/hidg2");
}

#[test]
fn missing_node_is_reported_with_its_numbers() {
    let nodes = vec![None; 10];
    let err = locate_hidg_node(&nodes, 236, 5).unwrap_err();
    assert_eq!(err, DeviceNotFound { major: 236, minor: 5 });
    assert_eq!(err.message(), "未找到设备 236:5");
}
