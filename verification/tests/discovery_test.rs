use deskserver::discovery::{
    add_discovered, is_new_server, resolve_server_addr, service_host_name, service_instance_name,
    txt_properties, SERVICE_TYPE,
};
use deskserver::tray::{tray_icon_rgba, TRAY_ICON_SIZE};

#[test]
fn instance_name_replaces_spaces() {
    assert_eq!(service_instance_name("Jo's MacBook Pro"), "Jo's-MacBook-Pro");
    assert_eq!(service_instance_name("desk"), "desk");
    assert_eq!(service_instance_name(""), "");
    assert_eq!(service_instance_name("  é ü "), "--é-ü-");
}

#[test]
fn host_name_in_local_domain() {
    assert_eq!(service_host_name("Jo-Mac"), "Jo-Mac.local.");
    assert_eq!(SERVICE_TYPE, "_deskserver._tcp.local.");
}

#[test]
fn server_addr_gets_default_port() {
    assert_eq!(resolve_server_addr("192.168.1.50"), "192.168.1.50:24800");
    assert_eq!(resolve_server_addr("192.168.1.50:4000"), "192.168.1.50:4000");
    assert_eq!(resolve_server_addr("fe80::1"), "fe80::1");
    assert_eq!(resolve_server_addr(""), ":24800");
}

#[test]
fn tray_icon_is_solid_colour() {
    let rgba = tray_icon_rgba();
    assert_eq!(TRAY_ICON_SIZE, 16);
    assert_eq!(rgba.len(), 16 * 16 * 4);
    for px in rgba.chunks(4) {
        assert_eq!(px, &[0x4A, 0x90, 0xD9, 0xFF]);
    }
}

#[test]
fn scan_lists_each_address_once() {
    let known = vec!["192.168.1.5:24800".to_string(), "10.0.0.2:24800".to_string()];
    assert!(!is_new_server(&known, &"10.0.0.2:24800".to_string()));
    assert!(!is_new_server(&known, &"192.168.1.5:24800".to_string()));
    assert!(is_new_server(&known, &"10.0.0.2:24801".to_string()));
    assert!(is_new_server(&Vec::new(), &"10.0.0.2:24800".to_string()));
}

#[test]
fn txt_record_names_machine_version_and_clients() {
    assert_eq!(
        txt_properties("Jo's Mac", "0.1.0", 3),
        vec![
            ("name".to_string(), "Jo's Mac".to_string()),
            ("version".to_string(), "0.1.0".to_string()),
            ("clients".to_string(), "3".to_string()),
        ]
    );
    assert_eq!(txt_properties("a", "b", 0)[2].1, "0");
    assert_eq!(txt_properties("a", "b", 10)[2].1, "10");
    assert_eq!(txt_properties("a", "b", 4_294_967_295)[2].1, "4294967295");
}

#[test]
fn scan_appends_new_addresses_in_order() {
    let mut known = vec!["10.0.0.2:24800".to_string()];
    let found = [
        "10.0.0.3:24800",
        "10.0.0.2:24800",
        "10.0.0.4:24800",
        "10.0.0.3:24800",
    ];
    let added: Vec<bool> = found.iter().map(|a| add_discovered(&mut known, a.to_string())).collect();
    assert_eq!(added, vec![true, false, true, false]);
    assert_eq!(known, vec!["10.0.0.2:24800", "10.0.0.3:24800", "10.0.0.4:24800"]);
}
