use can_telemetry::{port_matches, select_port, DeviceQuery, PortCandidate};

fn usb(name: &str, product: Option<&str>) -> PortCandidate {
    PortCandidate {
        name: name.as_bytes().to_vec(),
        is_usb: true,
        product: product.map(|p| p.as_bytes().to_vec()),
    }
}

fn plain(name: &str) -> PortCandidate {
    PortCandidate { name: name.as_bytes().to_vec(), is_usb: false, product: None }
}

#[test]
fn selects_by_description_and_ordinal() {
    let ports = vec![
        plain("/dev/ttyS0"),
        usb("/dev/ttyACM0", Some("usb-can")),
        usb("/dev/ttyACM1", Some("usb-can v2")),
        usb("/dev/ttyACM2", Some("usb-can")),
    ];
    let exact = DeviceQuery { by_description: true, prefix: false };
    let prefix = DeviceQuery { by_description: true, prefix: true };
    assert_eq!(select_port(&ports, b"usb-can", exact, 0), Some(1));
    assert_eq!(select_port(&ports, b"usb-can", exact, 1), Some(3));
    assert_eq!(select_port(&ports, b"usb-can", exact, 2), None);
    assert_eq!(select_port(&ports, b"usb-can", prefix, 1), Some(2));
}

#[test]
fn selects_by_name() {
    let ports = vec![usb("/dev/ttyACM0", Some("x")), plain("/dev/ttyS0"), plain("/dev/ttyS1")];
    let by_name = DeviceQuery { by_description: false, prefix: false };
    assert_eq!(select_port(&ports, b"/dev/ttyS1", by_name, 0), Some(2));
    // a USB port is only found by its description
    assert_eq!(select_port(&ports, b"/dev/ttyACM0", by_name, 0), None);
    assert!(!port_matches(&usb("a", None), b"", DeviceQuery { by_description: true, prefix: true }));
}
