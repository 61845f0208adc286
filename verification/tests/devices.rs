use hid::{Device, Devices};

fn wide(text: &str) -> Vec<u32> {
    text.chars().map(|c| c as u32).collect()
}

fn device(vendor: u16, product: u16, path: &str) -> Device {
    Device::new(
        String::from(path),
        vendor,
        product,
        Some(wide("0001")),
        0x0100,
        Some(wide("Maker")),
        None,
        1,
        6,
        -1,
    )
}

fn attached() -> Vec<Device> {
    vec![
        device(0x046d, 0xc52b, "/dev/hidraw0"),
        device(0x1234, 0x0001, "/dev/hidraw1"),
        device(0x046d, 0xc534, "/dev/hidraw2"),
        device(0x046d, 0xc52b, "/dev/hidraw3"),
    ]
}

/// Stands for the native enumeration: it lists the attached devices that the
/// codes ask for, in the order in which they are attached.
fn enumerate(codes: (u16, u16)) -> Vec<Device> {
    attached()
        .into_iter()
        .filter(|d| codes.0 == 0 || d.vendor_id() == codes.0)
        .filter(|d| codes.1 == 0 || d.product_id() == codes.1)
        .collect()
}

#[test]
fn filter_turns_a_missing_id_into_zero() {
    assert_eq!(Devices::filter(None, None), (0, 0));
    assert_eq!(Devices::filter(Some(7), None), (7, 0));
    assert_eq!(Devices::filter(None, Some(9)), (0, 9));
    assert_eq!(Devices::filter(Some(7), Some(9)), (7, 9));
}

#[test]
fn an_empty_enumeration_is_exhausted_at_once() {
    let mut devices = Devices::new(Vec::new());
    assert_eq!(devices.next(), None);
    assert_eq!(devices.next(), None);
    assert!(devices.rest().is_empty());
}

#[test]
fn devices_come_in_the_order_of_the_list() {
    let mut devices = Devices::new(attached());
    let expected = attached();
    for device in expected.into_iter() {
        assert_eq!(devices.next(), Some(device));
    }
    assert_eq!(devices.next(), None);
}

#[test]
fn an_exhausted_enumeration_stays_exhausted() {
    let mut devices = Devices::new(vec![device(1, 2, "a")]);
    assert!(devices.next().is_some());
    for _ in 0..5 {
        assert_eq!(devices.next(), None);
    }
}

#[test]
fn every_device_comes_once() {
    let mut devices = Devices::new(attached());
    let mut paths = Vec::new();
    let mut calls = 0;
    while let Some(device) = devices.next() {
        paths.push(String::from(device.path()));
        calls += 1;
        assert!(calls <= 4);
    }
    assert_eq!(paths, vec!["/dev/hidraw0", "/dev/hidraw1", "/dev/hidraw2", "/dev/hidraw3"]);
}

#[test]
fn rest_hands_out_all_of_a_fresh_enumeration() {
    let devices = Devices::new(attached());
    assert_eq!(devices.rest(), attached());
}

#[test]
fn what_came_and_what_is_left_make_up_the_list() {
    for taken in 0..=4 {
        let mut devices = Devices::new(attached());
        let mut seen = Vec::new();
        for _ in 0..taken {
            seen.push(devices.next().unwrap());
        }
        let left = devices.rest();
        assert_eq!(seen.len() + left.len(), 4);
        seen.extend(left);
        assert_eq!(seen, attached());
    }
}

#[test]
fn an_exact_filter_lists_only_the_devices_of_both_ids() {
    let codes = Devices::filter(Some(0x046d), Some(0xc52b));
    let mut devices = Devices::new(enumerate(codes));
    let mut count = 0;
    while let Some(device) = devices.next() {
        assert_eq!(device.vendor_id(), 0x046d);
        assert_eq!(device.product_id(), 0xc52b);
        count += 1;
    }
    assert_eq!(count, 2);
}

#[test]
fn an_exact_filter_lists_what_all_devices_hold_of_both_ids() {
    let exact = Devices::new(enumerate(Devices::filter(Some(0x046d), Some(0xc52b)))).rest();
    let all = Devices::new(enumerate(Devices::filter(None, None))).rest();
    assert_eq!(all, attached());
    let chosen: Vec<Device> = all
        .into_iter()
        .filter(|d| d.vendor_id() == 0x046d && d.product_id() == 0xc52b)
        .collect();
    assert_eq!(exact, chosen);
}

#[test]
fn a_filter_by_vendor_alone_lists_all_its_products() {
    let listed = Devices::new(enumerate(Devices::filter(Some(0x046d), None))).rest();
    assert_eq!(listed.len(), 3);
    assert!(listed.iter().all(|d| d.vendor_id() == 0x046d));
}

#[test]
fn a_filter_that_nothing_meets_lists_nothing() {
    let mut devices = Devices::new(enumerate(Devices::filter(Some(0xffff), Some(0xffff))));
    assert_eq!(devices.next(), None);
}
