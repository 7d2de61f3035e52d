use angry_deck::device::{
    read_line, DeckDevice, DeviceDescriptor, ImageWrite, KeyEvent, ListenStep, SessionState,
    DEV_DIR,
};
use angry_deck::error::DeckError;
use angry_deck::key_img::{KeyImage, KeyImg};
use angry_deck::registry::{resolve, Encoding, ModelSpec};
use angry_deck::tree::{find_dev_path, is_raw, DeviceTree, DirNode, UsbNode, MAX_SEARCH_DEPTH};

fn file(name: &str, parent: &str) -> DirNode {
    DirNode {
        name: name.to_string(),
        path: format!("{}/{}", parent, name),
        is_dir: false,
        children: vec![],
    }
}

fn dir(name: &str, parent: &str, children: Vec<DirNode>) -> DirNode {
    DirNode {
        name: name.to_string(),
        path: format!("{}/{}", parent, name),
        is_dir: true,
        children,
    }
}

fn hid_subtree(root: &str, raw_name: &str) -> Vec<DirNode> {
    let iface = format!("{}/1-2:1.0", root);
    let hid = format!("{}/0003:0FD9:009A.0005", iface);
    let hidraw = format!("{}/hidraw", hid);
    vec![
        file("idVendor", root),
        file("idProduct", root),
        dir(
            "1-2:1.0",
            root,
            vec![
                file("bInterfaceClass", &iface),
                dir(
                    "0003:0FD9:009A.0005",
                    &iface,
                    vec![
                        file("uevent", &hid),
                        dir("hidraw", &hid, vec![dir(raw_name, &hidraw, vec![])]),
                    ],
                ),
            ],
        ),
    ]
}

fn node(path: &str, vendor: Option<&str>, product: Option<&str>, children: Vec<DirNode>) -> UsbNode {
    UsbNode {
        path: path.to_string(),
        vendor_id: vendor.map(|s| s.to_string()),
        product_id: product.map(|s| s.to_string()),
        manufacturer: Some("Elgato".to_string()),
        product: Some("Stream Deck Neo".to_string()),
        serial: Some("A1B2C3".to_string()),
        children,
    }
}

fn neo_node(path: &str) -> UsbNode {
    node(path, Some("0fd9"), Some("009a"), hid_subtree(path, "hidraw3"))
}

fn tree(nodes: Vec<UsbNode>) -> DeviceTree {
    DeviceTree { nodes: Some(nodes) }
}

fn neo_device() -> DeckDevice {
    DeckDevice::new(&tree(vec![neo_node("/sys/devices/usb1/1-2")]), "main").unwrap()
}

fn descriptor() -> DeviceDescriptor {
    DeviceDescriptor {
        sys_fs: "/sys/devices/usb1/1-2".to_string(),
        manufacturer: "Elgato".to_string(),
        product: "Deck".to_string(),
        serial: "S".to_string(),
        path: "/dev/hidraw0".to_string(),
    }
}

fn report(keys: &[u8]) -> [u8; 64] {
    let mut buffer = [0u8; 64];
    for (i, k) in keys.iter().enumerate() {
        buffer[4 + i] = *k;
    }
    buffer
}

fn events_of(step: ListenStep) -> Vec<KeyEvent> {
    match step {
        ListenStep::Deliver(events) => events,
        other => panic!("no events: {:?}", other),
    }
}

fn press(key: usize) -> KeyEvent {
    KeyEvent { page: "main".to_string(), key_index: key, pressed: true }
}

fn release(key: usize) -> KeyEvent {
    KeyEvent { page: "main".to_string(), key_index: key, pressed: false }
}

// ---- the enumerator ----

#[test]
fn enumerator_resolves_neo_in_mocked_tree() {
    let t = tree(vec![neo_node("/sys/devices/usb1/1-2")]);
    let device = DeckDevice::find_device(&t, "main").unwrap();
    assert_eq!(device.model().key_count, 10);
    assert_eq!(device.model().pixel_width, 96);
    assert_eq!(device.model().pixel_height, 96);
    assert_eq!(device.model().report_offset, 4);
    assert_eq!(device.model(), resolve("009a").unwrap());
    assert_eq!(device.state(), SessionState::DeviceBound);
}

#[test]
fn enumerator_unknown_product_is_no_supported_device() {
    let t = tree(vec![node(
        "/sys/devices/usb1/1-2",
        Some("0fd9"),
        Some("ffff"),
        hid_subtree("/sys/devices/usb1/1-2", "hidraw3"),
    )]);
    assert_eq!(DeckDevice::find_device(&t, "main").unwrap_err(), DeckError::NoSupportedDevice);
    assert_eq!(DeckDevice::new(&t, "main").unwrap_err(), DeckError::NoSupportedDevice);
}

#[test]
fn enumerator_known_but_unsupported_product_is_no_supported_device() {
    for id in ["0063", "0080", "00b9", "00B9", "006c", "0086"] {
        let t = tree(vec![node("/sys/d", Some("0fd9"), Some(id), hid_subtree("/sys/d", "hidraw1"))]);
        assert_eq!(DeckDevice::find_device(&t, "main").unwrap_err(), DeckError::NoSupportedDevice);
    }
}

#[test]
fn enumerator_fills_the_descriptor() {
    let device = neo_device();
    let d = device.descriptor();
    assert_eq!(d.sys_fs, "/sys/devices/usb1/1-2");
    assert_eq!(d.manufacturer, "Elgato");
    assert_eq!(d.product, "Stream Deck Neo");
    assert_eq!(d.serial, "A1B2C3");
    assert_eq!(d.path, "/dev/hidraw3");
    assert_eq!(device.page(), "main");
    assert_eq!(device.button_states(), &vec![0u8; 10]);
}

#[test]
fn enumerator_missing_root_is_unavailable() {
    let t = DeviceTree { nodes: None };
    assert_eq!(DeckDevice::find_device(&t, "main").unwrap_err(), DeckError::EnumerationUnavailable);
    assert_eq!(DeckDevice::new(&t, "main").unwrap_err(), DeckError::EnumerationUnavailable);
}

#[test]
fn enumerator_empty_tree_is_no_supported_device() {
    assert_eq!(
        DeckDevice::find_device(&tree(vec![]), "main").unwrap_err(),
        DeckError::NoSupportedDevice
    );
}

#[test]
fn enumerator_other_vendor_is_no_supported_device() {
    let t = tree(vec![
        node("/sys/a", Some("046d"), Some("009a"), hid_subtree("/sys/a", "hidraw0")),
        node("/sys/b", Some("0FD9"), Some("009a"), hid_subtree("/sys/b", "hidraw1")),
    ]);
    assert_eq!(DeckDevice::find_device(&t, "main").unwrap_err(), DeckError::NoSupportedDevice);
}

#[test]
fn enumerator_skips_nodes_without_vendor() {
    let t = tree(vec![
        node("/sys/a", None, Some("009a"), vec![]),
        node("/sys/b", Some("1d6b"), Some("0002"), vec![]),
        neo_node("/sys/c"),
    ]);
    let device = DeckDevice::find_device(&t, "main").unwrap();
    assert_eq!(device.descriptor().sys_fs, "/sys/c");
}

#[test]
fn enumerator_skips_vendor_match_without_product() {
    let t = tree(vec![node("/sys/a", Some("0fd9"), None, vec![]), neo_node("/sys/b")]);
    let device = DeckDevice::find_device(&t, "main").unwrap();
    assert_eq!(device.descriptor().sys_fs, "/sys/b");
}

#[test]
fn enumerator_first_candidate_decides() {
    // an unsupported deck before a supported one: the first decides
    let t = tree(vec![
        node("/sys/a", Some("0fd9"), Some("0063"), hid_subtree("/sys/a", "hidraw0")),
        neo_node("/sys/b"),
    ]);
    assert_eq!(DeckDevice::find_device(&t, "main").unwrap_err(), DeckError::NoSupportedDevice);
    // two supported decks: the first is bound
    let t = tree(vec![
        node("/sys/a", Some("0fd9"), Some("009a"), hid_subtree("/sys/a", "hidraw7")),
        neo_node("/sys/b"),
    ]);
    let device = DeckDevice::find_device(&t, "main").unwrap();
    assert_eq!(device.descriptor().sys_fs, "/sys/a");
    assert_eq!(device.descriptor().path, "/dev/hidraw7");
}

#[test]
fn enumerator_without_raw_node_fails() {
    let t = tree(vec![node("/sys/a", Some("0fd9"), Some("009a"), vec![file("idVendor", "/sys/a")])]);
    assert_eq!(DeckDevice::find_device(&t, "main").unwrap_err(), DeckError::NoRawNode);
    let t = tree(vec![node("/sys/a", Some("0fd9"), Some("009a"), vec![])]);
    assert_eq!(DeckDevice::find_device(&t, "main").unwrap_err(), DeckError::NoRawNode);
}

#[test]
fn enumerator_unsupported_product_wins_over_missing_raw_node() {
    let t = tree(vec![node("/sys/a", Some("0fd9"), Some("ffff"), vec![])]);
    assert_eq!(DeckDevice::find_device(&t, "main").unwrap_err(), DeckError::NoSupportedDevice);
}

#[test]
fn enumerator_missing_texts_are_empty() {
    let mut n = neo_node("/sys/a");
    n.manufacturer = None;
    n.product = None;
    n.serial = None;
    let device = DeckDevice::find_device(&tree(vec![n]), "main").unwrap();
    assert_eq!(device.descriptor().manufacturer, "");
    assert_eq!(device.descriptor().product, "");
    assert_eq!(device.descriptor().serial, "");
}

#[test]
fn match_device_reports_each_outcome() {
    let n = neo_node("/sys/a");
    assert!(DeckDevice::match_device("009a", &n, "p").is_ok());
    assert_eq!(DeckDevice::match_device("009A", &n, "p").unwrap_err(), DeckError::NoSupportedDevice);
    let bare = node("/sys/a", Some("0fd9"), Some("009a"), vec![]);
    assert_eq!(DeckDevice::match_device("009a", &bare, "p").unwrap_err(), DeckError::NoRawNode);
}

#[test]
fn enumerator_reads_attributes_as_lines() {
    let t = tree(vec![UsbNode {
        path: "/sys/a".to_string(),
        vendor_id: Some("0fd9\n".to_string()),
        product_id: Some("009a\n".to_string()),
        manufacturer: Some("Elgato\n".to_string()),
        product: Some("  Stream Deck Neo \n".to_string()),
        serial: Some("\n".to_string()),
        children: hid_subtree("/sys/a", "hidraw4"),
    }]);
    let device = DeckDevice::find_device(&t, "main").unwrap();
    assert_eq!(device.model().key_count, 10);
    assert_eq!(device.descriptor().manufacturer, "Elgato");
    assert_eq!(device.descriptor().product, "Stream Deck Neo");
    assert_eq!(device.descriptor().serial, "");
    assert_eq!(device.descriptor().path, "/dev/hidraw4");
}

#[test]
fn enumerator_does_not_look_inside_a_line() {
    let t = tree(vec![node("/sys/a", Some("0f d9"), Some("009a"), hid_subtree("/sys/a", "hidraw4"))]);
    assert_eq!(DeckDevice::find_device(&t, "main").unwrap_err(), DeckError::NoSupportedDevice);
    let t = tree(vec![node("/sys/a", Some("0fd9"), Some("00 9a"), hid_subtree("/sys/a", "hidraw4"))]);
    assert_eq!(DeckDevice::find_device(&t, "main").unwrap_err(), DeckError::NoSupportedDevice);
}

#[test]
fn read_line_trims_what_was_read() {
    assert_eq!(read_line(&None), None);
    assert_eq!(read_line(&Some("0fd9\n".to_string())), Some("0fd9".to_string()));
    assert_eq!(read_line(&Some("".to_string())), Some("".to_string()));
    assert_eq!(read_line(&Some(" \t\n".to_string())), Some("".to_string()));
}

// ---- the search for the raw node ----

#[test]
fn raw_node_needs_name_and_path() {
    assert!(is_raw(&dir("hidraw3", "/sys/x/hidraw", vec![])));
    assert!(is_raw(&file("hidraw", "/sys/x/hidraw")));
    // right name, wrong place
    assert!(!is_raw(&dir("hidraw3", "/sys/x", vec![])));
    // right place, wrong name
    assert!(!is_raw(&dir("power", "/sys/x/hidraw", vec![])));
    // the directory that holds the raw nodes is not one itself
    assert!(!is_raw(&dir("hidraw", "/sys/x", vec![])));
}

#[test]
fn search_finds_nested_raw_node() {
    let entries = hid_subtree("/sys/a", "hidraw3");
    let found = find_dev_path(&entries).unwrap();
    assert_eq!(found.name, "hidraw3");
    assert_eq!(found.path, "/sys/a/1-2:1.0/0003:0FD9:009A.0005/hidraw/hidraw3");
}

#[test]
fn search_of_nothing_finds_nothing() {
    assert!(find_dev_path(&vec![]).is_none());
    assert!(find_dev_path(&vec![file("a", "/r"), dir("b", "/r", vec![file("c", "/r/b")])]).is_none());
}

#[test]
fn search_is_depth_first_in_listing_order() {
    // The first directory holds a raw node deep down, the second one right
    // below: depth first, the deep one is met first.
    let entries = vec![
        dir(
            "a",
            "/r",
            vec![dir("hidraw", "/r/a", vec![dir("hidraw1", "/r/a/hidraw", vec![])])],
        ),
        dir("hidraw", "/r", vec![dir("hidraw2", "/r/hidraw", vec![])]),
    ];
    assert_eq!(find_dev_path(&entries).unwrap().name, "hidraw1");
    // in the other order the shallow one is met first
    let entries = vec![
        dir("hidraw", "/r", vec![dir("hidraw2", "/r/hidraw", vec![])]),
        dir(
            "a",
            "/r",
            vec![dir("hidraw", "/r/a", vec![dir("hidraw1", "/r/a/hidraw", vec![])])],
        ),
    ];
    assert_eq!(find_dev_path(&entries).unwrap().name, "hidraw2");
}

#[test]
fn search_looks_at_an_entry_before_what_is_below_it() {
    let entries = vec![dir(
        "hidraw5",
        "/r/hidraw",
        vec![dir("hidraw6", "/r/hidraw/hidraw5", vec![])],
    )];
    assert_eq!(find_dev_path(&entries).unwrap().name, "hidraw5");
}

#[test]
fn search_takes_the_first_of_two_siblings() {
    let entries = vec![dir(
        "hidraw",
        "/r",
        vec![dir("hidraw9", "/r/hidraw", vec![]), dir("hidraw1", "/r/hidraw", vec![])],
    )];
    assert_eq!(find_dev_path(&entries).unwrap().name, "hidraw9");
}

#[test]
fn search_does_not_enter_what_is_no_directory() {
    let mut odd = file("x", "/r");
    odd.children = vec![dir("hidraw", "/r/x", vec![dir("hidraw1", "/r/x/hidraw", vec![])])];
    assert!(find_dev_path(&vec![odd]).is_none());
}

fn chain(levels: usize) -> Vec<DirNode> {
    // `levels` directories one inside the other, then the raw node.
    let mut path = "/r/hidraw".to_string();
    let mut names = Vec::new();
    for i in 0..levels {
        names.push(format!("d{}", i));
    }
    let mut paths = Vec::new();
    for n in &names {
        paths.push(path.clone());
        path = format!("{}/{}", path, n);
    }
    let mut inner = vec![dir("hidraw0", &path, vec![])];
    for i in (0..levels).rev() {
        inner = vec![dir(&names[i], &paths[i], inner)];
    }
    inner
}

#[test]
fn search_stops_at_the_depth_bound() {
    assert_eq!(MAX_SEARCH_DEPTH, 16);
    assert!(find_dev_path(&chain(0)).is_some());
    assert!(find_dev_path(&chain(15)).is_some());
    assert!(find_dev_path(&chain(16)).is_some());
    assert!(find_dev_path(&chain(17)).is_none());
    assert!(find_dev_path(&chain(40)).is_none());
}

#[test]
fn device_directory_constant() {
    assert_eq!(DEV_DIR, "/dev/");
}

// ---- the input loop ----

#[test]
fn listen_press_then_release_with_repeat() {
    let mut device = neo_device();
    let mut seen = Vec::new();
    for keys in [[0u8, 0], [1, 0], [1, 0], [0, 0]] {
        let step = device.listen_events(Ok(64), &report(&keys));
        seen.push(events_of(step));
    }
    assert_eq!(seen[0], vec![]);
    assert_eq!(seen[1], vec![press(0)]);
    assert_eq!(seen[2], vec![]);
    assert_eq!(seen[3], vec![release(0)]);
    let all: Vec<KeyEvent> = seen.into_iter().flatten().collect();
    assert_eq!(all, vec![press(0), release(0)]);
}

#[test]
fn listen_reads_keys_from_the_offset() {
    let mut device = neo_device();
    let mut buffer = [0u8; 64];
    // bytes before the offset and after the last key are no key states
    buffer[0] = 1;
    buffer[3] = 1;
    buffer[14] = 1;
    buffer[63] = 1;
    assert_eq!(events_of(device.listen_events(Ok(64), &buffer)), vec![]);
    buffer[4] = 1;
    buffer[13] = 1;
    assert_eq!(events_of(device.listen_events(Ok(64), &buffer)), vec![press(0), press(9)]);
    assert_eq!(device.button_states(), &vec![1, 0, 0, 0, 0, 0, 0, 0, 0, 1]);
}

#[test]
fn listen_emits_in_ascending_key_order() {
    let mut device = neo_device();
    let step = device.listen_events(Ok(64), &report(&[0, 1, 0, 1, 1, 0, 0, 0, 0, 1]));
    assert_eq!(events_of(step), vec![press(1), press(3), press(4), press(9)]);
    let step = device.listen_events(Ok(64), &report(&[1, 1, 0, 0, 1, 0, 0, 0, 0, 0]));
    assert_eq!(events_of(step), vec![press(0), release(3), release(9)]);
}

#[test]
fn listen_compares_bytes_not_truth() {
    let mut device = neo_device();
    assert_eq!(events_of(device.listen_events(Ok(64), &report(&[1]))), vec![press(0)]);
    // another non-zero byte is a change, and the key is still down
    assert_eq!(events_of(device.listen_events(Ok(64), &report(&[2]))), vec![press(0)]);
    assert_eq!(events_of(device.listen_events(Ok(64), &report(&[255]))), vec![press(0)]);
    assert_eq!(events_of(device.listen_events(Ok(64), &report(&[0]))), vec![release(0)]);
}

#[test]
fn listen_short_read_is_decoded() {
    let mut device = neo_device();
    assert_eq!(events_of(device.listen_events(Ok(1), &report(&[0, 0, 1]))), vec![press(2)]);
}

#[test]
fn listen_moves_to_listening() {
    let mut device = neo_device();
    assert_eq!(device.state(), SessionState::DeviceBound);
    assert!(device.is_active());
    device.listen_events(Ok(64), &report(&[]));
    assert_eq!(device.state(), SessionState::Listening);
    assert!(device.is_active());
}

#[test]
fn listen_end_of_stream_terminates() {
    let mut device = neo_device();
    device.listen_events(Ok(64), &report(&[1]));
    assert_eq!(device.listen_events(Ok(0), &report(&[0])), ListenStep::Ended);
    assert_eq!(device.state(), SessionState::Terminated);
    assert!(!device.is_active());
    // the report that came with the empty read is not decoded
    assert_eq!(device.button_states()[0], 1);
}

#[test]
fn listen_failure_terminates_and_surfaces() {
    let mut device = neo_device();
    let step = device.listen_events(Err("device unplugged".to_string()), &report(&[1]));
    assert_eq!(step, ListenStep::Failed(DeckError::IoError("device unplugged".to_string())));
    assert_eq!(device.state(), SessionState::Terminated);
    assert_eq!(device.button_states()[0], 0);
}

#[test]
fn terminated_is_absorbing() {
    let mut device = neo_device();
    device.listen_events(Ok(0), &report(&[]));
    assert_eq!(device.listen_events(Ok(64), &report(&[1])), ListenStep::Ended);
    assert_eq!(device.listen_events(Err("x".to_string()), &report(&[1])), ListenStep::Ended);
    assert_eq!(device.listen_events(Ok(0), &report(&[1])), ListenStep::Ended);
    assert_eq!(device.state(), SessionState::Terminated);
    assert_eq!(device.button_states(), &vec![0u8; 10]);
}

#[test]
fn stop_terminates() {
    let mut device = neo_device();
    device.stop();
    assert_eq!(device.state(), SessionState::Terminated);
    assert_eq!(device.listen_events(Ok(64), &report(&[1])), ListenStep::Ended);
}

#[test]
fn io_failed_terminates_and_gives_the_error() {
    let mut device = neo_device();
    let error = device.io_failed("permission denied".to_string());
    assert_eq!(error, DeckError::IoError("permission denied".to_string()));
    assert_eq!(device.state(), SessionState::Terminated);
}

#[test]
fn listen_with_other_geometry() {
    let model = ModelSpec {
        key_count: 3,
        report_offset: 61,
        pixel_width: 8,
        pixel_height: 8,
        encoding: Encoding::RawRgb,
        supported: true,
    };
    assert!(model.is_wf());
    let mut device = DeckDevice::start(descriptor(), model, "p2".to_string());
    let mut buffer = [0u8; 64];
    buffer[63] = 7;
    buffer[4] = 1;
    let events = events_of(device.listen_events(Ok(64), &buffer));
    assert_eq!(events, vec![KeyEvent { page: "p2".to_string(), key_index: 2, pressed: true }]);
    assert_eq!(device.button_states(), &vec![0, 0, 7]);
}

// ---- images ----

#[test]
fn start_has_no_key_down() {
    let device = DeckDevice::start(descriptor(), resolve("009a").unwrap(), "main".to_string());
    assert_eq!(device.state(), SessionState::DeviceBound);
    assert_eq!(device.button_states(), &vec![0u8; 10]);
    assert_eq!(device.page(), "main");
    assert_eq!(device.descriptor().path, "/dev/hidraw0");
}

#[test]
fn set_image_sends_raw_pixels() {
    let device = neo_device();
    let img = KeyImg::new_filled_image(96, 96, 1, 2, 3, 255);
    let want = img.as_raw().clone();
    let write = device.set_image(4, img).unwrap();
    assert_eq!(write.key_index, 4);
    assert_eq!(write.packet.len(), 96 * 96 * 3);
    assert_eq!(write.packet, want);
}

#[test]
fn set_image_resizes_what_is_too_large() {
    let device = neo_device();
    let img = KeyImg::new_filled_image(192, 192, 9, 9, 9, 255);
    let write = device.set_image(0, img).unwrap();
    assert_eq!(write.packet.len(), 96 * 96 * 3);
    assert!(write.packet.iter().all(|b| *b == 9));
}

#[test]
fn set_image_passes_small_images_through() {
    let device = neo_device();
    let img = KeyImage::from_raw(2, 1, vec![1, 2, 3, 4, 5, 6]).unwrap();
    let write = device.set_image(9, img).unwrap();
    assert_eq!(write, ImageWrite { key_index: 9, packet: vec![1, 2, 3, 4, 5, 6] });
}

#[test]
fn set_image_without_encoding_is_unsupported() {
    let model = ModelSpec { encoding: Encoding::Jpeg, ..resolve("009a").unwrap() };
    let device = DeckDevice::start(descriptor(), model, "main".to_string());
    let img = KeyImg::new_black_image(96, 96);
    assert_eq!(device.set_image(0, img).unwrap_err(), DeckError::UnsupportedOperation);
    let model = ModelSpec { supported: false, ..resolve("009a").unwrap() };
    let device = DeckDevice::start(descriptor(), model, "main".to_string());
    let img = KeyImg::new_black_image(96, 96);
    assert_eq!(device.set_image(0, img).unwrap_err(), DeckError::UnsupportedOperation);
}

#[test]
fn resize_image_uses_the_key_geometry() {
    let device = neo_device();
    let out = device.resize_image(&KeyImg::new_filled_image(100, 300, 5, 6, 7, 255));
    assert_eq!((out.width(), out.height()), (96, 96));
    let small = KeyImg::new_filled_image(3, 3, 5, 6, 7, 255);
    let out = device.resize_image(&small);
    assert_eq!((out.width(), out.height()), (3, 3));
    assert_eq!(out.as_raw(), small.as_raw());
}

#[test]
fn clear_writes_black_to_every_key_in_order() {
    let device = neo_device();
    let writes = device.clear().unwrap();
    assert_eq!(writes.len(), 10);
    for (i, w) in writes.iter().enumerate() {
        assert_eq!(w.key_index as usize, i);
        assert_eq!(w.packet.len(), 27648);
        assert!(w.packet.iter().all(|b| *b == 0));
    }
}

#[test]
fn clear_twice_is_identical() {
    let device = neo_device();
    let first = device.clear().unwrap();
    let second = device.clear().unwrap();
    assert_eq!(first, second);
}

#[test]
fn clear_is_valid_while_listening() {
    let mut device = neo_device();
    device.listen_events(Ok(64), &report(&[1]));
    assert_eq!(device.state(), SessionState::Listening);
    assert_eq!(device.clear().unwrap().len(), 10);
    assert_eq!(device.state(), SessionState::Listening);
    assert_eq!(device.button_states()[0], 1);
}

#[test]
fn clear_without_encoding_is_unsupported() {
    let model = ModelSpec { encoding: Encoding::Jpeg, ..resolve("009a").unwrap() };
    let device = DeckDevice::start(descriptor(), model, "main".to_string());
    assert_eq!(device.clear().unwrap_err(), DeckError::UnsupportedOperation);
}

#[test]
fn clear_with_other_geometry() {
    let model = ModelSpec {
        key_count: 3,
        report_offset: 1,
        pixel_width: 2,
        pixel_height: 1,
        encoding: Encoding::RawRgb,
        supported: true,
    };
    let device = DeckDevice::start(descriptor(), model, "main".to_string());
    let writes = device.clear().unwrap();
    assert_eq!(
        writes,
        vec![
            ImageWrite { key_index: 0, packet: vec![0; 6] },
            ImageWrite { key_index: 1, packet: vec![0; 6] },
            ImageWrite { key_index: 2, packet: vec![0; 6] },
        ]
    );
}
