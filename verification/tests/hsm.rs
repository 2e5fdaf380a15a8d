use ic_backup::hsm::{
    attach_hsm, detach_hsm, get_hsm_info, is_hsm_device, DeviceDescriptor, HSMInfo, UsbDevice,
};

#[test]
fn get_hsm_xml_string() {
    let hsm_info = HSMInfo {
        hsm_bus_num: 11u8,
        hsm_address: 12u8,
    };
    let actual = ic_backup::hsm::get_hsm_xml_string(&hsm_info);

    let expected: String = "
<hostdev mode='subsystem' type='usb' managed='yes'>
    <source>
        <vendor id='0x20a0'/>
        <product id='0x4230'/>
        <address bus='11' port='1' device='12'/>
    </source>
    <address type='usb' bus='0' port='2'/>
</hostdev>
"
    .to_string();
    assert_eq!(actual, expected)
}

#[test]
fn hsm_xml_for_extreme_bus_and_address() {
    let low = ic_backup::hsm::get_hsm_xml_string(&HSMInfo {
        hsm_bus_num: 0,
        hsm_address: 0,
    });
    assert!(low.contains("<address bus='0' port='1' device='0'/>"));
    let high = ic_backup::hsm::get_hsm_xml_string(&HSMInfo {
        hsm_bus_num: 255,
        hsm_address: 109,
    });
    assert!(high.contains("<address bus='255' port='1' device='109'/>"));
}

#[test]
fn hsm_info_in_words() {
    let info = HSMInfo {
        hsm_bus_num: 3,
        hsm_address: 47,
    };
    assert_eq!(info.to_text(), "HSMInfo { bus: 3, address: 47 }");
}

fn device(bus: u8, address: u8, vendor: u16, product: u16) -> UsbDevice {
    UsbDevice {
        bus_number: bus,
        address,
        descriptor: Some(DeviceDescriptor {
            vendor_id: vendor,
            product_id: product,
        }),
    }
}

#[test]
fn hsm_is_first_matching_device() {
    let devices = vec![
        device(1, 1, 0x1d6b, 0x0002),
        UsbDevice {
            bus_number: 1,
            address: 2,
            descriptor: None,
        },
        device(2, 5, 8352, 16944),
        device(3, 9, 8352, 16944),
    ];
    assert_eq!(
        get_hsm_info(&devices),
        Ok(HSMInfo {
            hsm_bus_num: 2,
            hsm_address: 5
        })
    );
    assert!(!is_hsm_device(&devices[0]));
    assert!(!is_hsm_device(&devices[1]));
    assert!(is_hsm_device(&devices[2]));
}

#[test]
fn hsm_needs_both_numbers() {
    let devices = vec![device(1, 1, 8352, 1), device(1, 2, 1, 16944)];
    assert_eq!(get_hsm_info(&devices), Err("No HSM device found".to_string()));
    assert_eq!(get_hsm_info(&Vec::new()), Err("No HSM device found".to_string()));
}

#[test]
fn virsh_invocations() {
    let attach = attach_hsm("/tmp/hsm.xml");
    assert_eq!(attach.program, "virsh");
    assert_eq!(
        attach.args,
        vec!["attach-device", "guestos", "--file", "/tmp/hsm.xml"]
    );
    let detach = detach_hsm("/tmp/hsm.xml");
    assert_eq!(detach.program, "virsh");
    assert_eq!(
        detach.args,
        vec!["detach-device", "guestos", "--file", "/tmp/hsm.xml"]
    );
}
