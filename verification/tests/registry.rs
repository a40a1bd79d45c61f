use std::path::PathBuf;

use bambu_printers::address::DeviceAddress;
use bambu_printers::ipv4::Ipv4Address;
use bambu_printers::bambu::BambuPrinter;
use bambu_printers::config::{BambuLabsConfig, MachineConfig};
use bambu_printers::network_printer::{
    ClientSettings, NetworkPrinter, NetworkPrinterHandle, NetworkPrinterInfo,
    NetworkPrinterManufacturer,
};
use bambu_printers::registry::Registry;
use bambu_printers::slicer::OrcaSlicer;

fn last_octet(address: &DeviceAddress) -> u8 {
    match address {
        DeviceAddress::V4(quad) => quad.d,
        other => panic!("not an IPv4 address: {:?}", other),
    }
}

fn handle(last: u8, name: &str) -> NetworkPrinterHandle {
    let ip = DeviceAddress::V4(Ipv4Address { a: 192, b: 168, c: 0, d: last });
    NetworkPrinterHandle {
        info: NetworkPrinterInfo {
            hostname: Some(name.to_string()),
            ip,
            port: None,
            manufacturer: NetworkPrinterManufacturer::Bambu,
            model: None,
            serial: None,
        },
        client: NetworkPrinter::Bambu(BambuPrinter {
            client: ClientSettings {
                address: ip.to_string(),
                access_code: "code".to_string(),
                serial: String::new(),
            },
            slicer: OrcaSlicer::new(PathBuf::from("cfg")),
        }),
    }
}

#[test]
fn new_registry_is_empty() {
    let registry = Registry::new();
    assert!(registry.list().is_empty());
    assert!(registry.list_handles().is_empty());
    assert!(!registry.contains(&DeviceAddress::V4(Ipv4Address { a: 192, b: 168, c: 0, d: 1 })));
}

#[test]
fn second_registration_of_an_address_is_a_no_op() {
    let mut registry = Registry::new();
    assert!(registry.insert_if_absent(handle(1, "first")));
    assert!(!registry.insert_if_absent(handle(1, "second")));
    assert!(registry.contains(&DeviceAddress::V4(Ipv4Address { a: 192, b: 168, c: 0, d: 1 })));
    assert!(!registry.contains(&DeviceAddress::V4(Ipv4Address { a: 192, b: 168, c: 0, d: 2 })));
    let handles = registry.list_handles();
    assert_eq!(handles.len(), 1);
    assert_eq!(handles[0], handle(1, "first"));
    assert_eq!(registry.list(), vec![handle(1, "first").info]);
}

#[test]
fn list_holds_each_registered_printer_once() {
    let mut registry = Registry::new();
    for last in [3u8, 1, 2, 3, 1, 9] {
        registry.insert_if_absent(handle(last, "p"));
    }
    let mut found: Vec<u8> = registry.list().iter().map(|info| last_octet(&info.ip)).collect();
    found.sort();
    assert_eq!(found, vec![1, 2, 3, 9]);
    let mut found: Vec<u8> = registry.list_handles().iter().map(|h| last_octet(&h.info.ip)).collect();
    found.sort();
    assert_eq!(found, vec![1, 2, 3, 9]);
}

#[test]
fn machine_is_found_by_name() {
    let config = BambuLabsConfig::new(vec![
        MachineConfig { name: "a".to_string(), access_code: "1".to_string(), slicer_config: PathBuf::from("x") },
        MachineConfig { name: "b".to_string(), access_code: "2".to_string(), slicer_config: PathBuf::from("y") },
        MachineConfig { name: "a".to_string(), access_code: "3".to_string(), slicer_config: PathBuf::from("z") },
    ]);
    assert_eq!(config.get_machine_config("a").unwrap().access_code, "1");
    assert_eq!(config.get_machine_config("b").unwrap().slicer_config, PathBuf::from("y"));
    assert_eq!(config.get_machine_config("c"), None);
    assert_eq!(config.get_machine_config(""), None);
    assert_eq!(config.get_machine_config("A"), None);
    assert_eq!(config.clone(), config);
    assert_eq!(BambuLabsConfig::new(Vec::new()).get_machine_config("a"), None);
}

#[test]
fn handles_are_copied_whole() {
    let first = handle(4, "copy");
    assert_eq!(first.clone(), first);
}
