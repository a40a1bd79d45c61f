use bambu_printers::address::DeviceAddress;
use bambu_printers::ipv4::Ipv4Address;
use bambu_printers::ipv6::Ipv6Address;
use bambu_printers::announcement::{parse_announcement, parse_text, Rejection};
use bambu_printers::network_printer::NetworkPrinterManufacturer;

const FULL: &str = "NOTIFY * HTTP/1.1\r\nLocation: 10.0.0.5\r\nNT: urn:bambulab-com:device:3dprinter:1\r\nDevName.bambu.com: MyPrinter\r\nUSN: SN123\r\n";

fn rejection(text: &str) -> Rejection {
    match parse_text(text) {
        Ok(accepted) => panic!("accepted: {:?}", accepted),
        Err(reason) => reason,
    }
}

#[test]
fn full_announcement_is_read() {
    let (announcement, manufacturer) = parse_announcement(FULL.as_bytes()).unwrap();
    assert_eq!(manufacturer, NetworkPrinterManufacturer::Bambu);
    assert_eq!(announcement.address, DeviceAddress::V4(Ipv4Address { a: 10, b: 0, c: 0, d: 5 }));
    assert_eq!(announcement.urn.as_deref(), Some("urn:bambulab-com:device:3dprinter:1"));
    assert_eq!(announcement.name.as_deref(), Some("MyPrinter"));
    assert_eq!(announcement.serial.as_deref(), Some("SN123"));
    assert_eq!(announcement.model_code, None);
    assert_eq!(announcement.port, None);
}

#[test]
fn text_and_bytes_are_read_alike() {
    assert_eq!(parse_text(FULL), parse_announcement(FULL.as_bytes()));
}

#[test]
fn model_code_is_read() {
    let text = format!("{}DevModel.bambu.com: C11\r\n", FULL);
    let (announcement, _) = parse_text(&text).unwrap();
    assert_eq!(announcement.model_code.as_deref(), Some("C11"));
}

#[test]
fn empty_datagram_has_no_header() {
    assert_eq!(rejection(""), Rejection::NoHeader);
    assert_eq!(rejection(" \r\n\t\r\n\n"), Rejection::NoHeader);
    assert_eq!(parse_announcement(&[]).unwrap_err(), Rejection::NoHeader);
}

#[test]
fn other_first_line_is_not_a_notify() {
    assert_eq!(rejection("M-SEARCH * HTTP/1.1\r\nLocation: 10.0.0.5\r\n"), Rejection::NotNotify);
    assert_eq!(rejection("HTTP/1.1 200 OK\r\n"), Rejection::NotNotify);
    assert_eq!(rejection("NOTIFY * HTTP/1.0\r\n"), Rejection::NotNotify);
    assert_eq!(rejection("notify * http/1.1\r\n"), Rejection::NotNotify);
    assert_eq!(
        rejection("Location: 10.0.0.5\r\nNOTIFY * HTTP/1.1\r\nNT: urn:bambulab-com:device:3dprinter:1\r\nDevName.bambu.com: P\r\n"),
        Rejection::NotNotify
    );
}

#[test]
fn header_may_follow_blank_lines_and_carry_white_space() {
    let text = "\r\n   \r\n  NOTIFY * HTTP/1.1 \t\r\nLocation: 10.0.0.5\r\nNT: urn:bambulab-com:device:3dprinter:1\r\nDevName.bambu.com: P\r\n";
    let (announcement, _) = parse_text(text).unwrap();
    assert_eq!(announcement.name.as_deref(), Some("P"));
}

#[test]
fn missing_location_is_rejected() {
    let text = "NOTIFY * HTTP/1.1\r\nNT: urn:bambulab-com:device:3dprinter:1\r\nDevName.bambu.com: MyPrinter\r\nUSN: SN123\r\n";
    assert_eq!(rejection(text), Rejection::NoAddress);
    assert_eq!(rejection("NOTIFY * HTTP/1.1"), Rejection::NoAddress);
}

#[test]
fn location_must_be_an_address() {
    for bad in ["printer.local", "10.0.0", "10.0.0.5.6", "10.0.0.256", "010.0.0.5", "10.0.0.5:80", "", "10. 0.0.5", ":1", "1::2::3", "10.0.0.-5", "1000.0.0.5", "10..0.5"] {
        let text = format!("NOTIFY * HTTP/1.1\r\nLocation: {}\r\nNT: urn:bambulab-com:device:3dprinter:1\r\nDevName.bambu.com: P\r\n", bad);
        assert_eq!(rejection(&text), Rejection::BadAddress);
    }
}

#[test]
fn location_may_be_an_ipv6_address() {
    let text = "NOTIFY * HTTP/1.1\r\nLocation: fe80::1\r\nNT: urn:bambulab-com:device:3dprinter:1\r\nDevName.bambu.com: P\r\n";
    let (announcement, _) = parse_text(text).unwrap();
    assert_eq!(
        announcement.address,
        DeviceAddress::V6(Ipv6Address { s0: 0xfe80, s1: 0, s2: 0, s3: 0, s4: 0, s5: 0, s6: 0, s7: 1 })
    );
}

#[test]
fn a_bad_location_is_not_mended_by_a_later_one() {
    let text = "NOTIFY * HTTP/1.1\r\nLocation: nowhere\r\nLocation: 10.0.0.5\r\nNT: urn:bambulab-com:device:3dprinter:1\r\nDevName.bambu.com: P\r\n";
    assert_eq!(rejection(text), Rejection::BadAddress);
}

#[test]
fn other_device_type_is_rejected() {
    let text = "NOTIFY * HTTP/1.1\r\nLocation: 10.0.0.5\r\nNT: urn:other:device:1\r\nDevName.bambu.com: MyPrinter\r\nUSN: SN123\r\n";
    assert_eq!(rejection(text), Rejection::WrongUrn);
}

#[test]
fn missing_device_type_is_rejected() {
    let text = "NOTIFY * HTTP/1.1\r\nLocation: 10.0.0.5\r\nDevName.bambu.com: MyPrinter\r\n";
    assert_eq!(rejection(text), Rejection::WrongUrn);
}

#[test]
fn missing_name_is_rejected() {
    let text = "NOTIFY * HTTP/1.1\r\nLocation: 10.0.0.5\r\nNT: urn:bambulab-com:device:3dprinter:1\r\nUSN: SN123\r\n";
    assert_eq!(rejection(text), Rejection::NoName);
}

#[test]
fn first_failing_check_decides() {
    assert_eq!(rejection("NOTIFY * HTTP/1.1\r\nLocation: x\r\nNT: urn:other\r\n"), Rejection::BadAddress);
    assert_eq!(rejection("NOTIFY * HTTP/1.1\r\nNT: urn:other\r\n"), Rejection::NoAddress);
    assert_eq!(rejection("NOTIFY * HTTP/1.1\r\nLocation: 1.2.3.4\r\nNT: urn:other\r\n"), Rejection::WrongUrn);
}

#[test]
fn lines_without_colon_and_unknown_tokens_are_passed_over() {
    let text = "NOTIFY * HTTP/1.1\r\nthis line has no separator\r\nHost: 239.255.255.250:1990\r\nLocation: 10.0.0.5\r\nServer: UPnP/1.0\r\nNT: urn:bambulab-com:device:3dprinter:1\r\nDevName.bambu.com: MyPrinter\r\nlocation: 1.1.1.1\r\n";
    let (announcement, _) = parse_text(text).unwrap();
    assert_eq!(announcement.address, DeviceAddress::V4(Ipv4Address { a: 10, b: 0, c: 0, d: 5 }));
    assert_eq!(announcement.serial, None);
}

#[test]
fn later_line_overrides_earlier() {
    let text = "NOTIFY * HTTP/1.1\r\nLocation: 10.0.0.5\r\nDevName.bambu.com: First\r\nLocation: 10.0.0.6\r\nNT: urn:bambulab-com:device:3dprinter:1\r\nDevName.bambu.com: Second\r\n";
    let (announcement, _) = parse_text(text).unwrap();
    assert_eq!(announcement.address, DeviceAddress::V4(Ipv4Address { a: 10, b: 0, c: 0, d: 6 }));
    assert_eq!(announcement.name.as_deref(), Some("Second"));
}

#[test]
fn tokens_and_values_are_trimmed() {
    let text = "NOTIFY * HTTP/1.1\n  Location :   10.0.0.5  \n\tNT\t:\turn:bambulab-com:device:3dprinter:1\t\n DevName.bambu.com:My Printer \u{a0}\nUSN:\n";
    let (announcement, _) = parse_text(text).unwrap();
    assert_eq!(announcement.address, DeviceAddress::V4(Ipv4Address { a: 10, b: 0, c: 0, d: 5 }));
    assert_eq!(announcement.name.as_deref(), Some("My Printer"));
    assert_eq!(announcement.serial.as_deref(), Some(""));
}

#[test]
fn value_keeps_what_follows_its_first_colon() {
    let text = "NOTIFY * HTTP/1.1\r\nLocation: 10.0.0.5\r\nNT: urn:bambulab-com:device:3dprinter:1\r\nDevName.bambu.com: a: b :c\r\n";
    let (announcement, _) = parse_text(text).unwrap();
    assert_eq!(announcement.name.as_deref(), Some("a: b :c"));
}

#[test]
fn an_empty_name_is_a_name() {
    let text = "NOTIFY * HTTP/1.1\r\nLocation: 10.0.0.5\r\nNT: urn:bambulab-com:device:3dprinter:1\r\nDevName.bambu.com:\r\n";
    let (announcement, _) = parse_text(text).unwrap();
    assert_eq!(announcement.name.as_deref(), Some(""));
}

#[test]
fn ill_formed_bytes_are_replaced() {
    let mut datagram = Vec::new();
    datagram.extend_from_slice(b"NOTIFY * HTTP/1.1\r\nLocation: 10.0.0.5\r\nNT: urn:bambulab-com:device:3dprinter:1\r\nDevName.bambu.com: caf");
    datagram.push(0xff);
    datagram.extend_from_slice(b"\r\nUSN: B\xc3\xbcro\r\n");
    let (announcement, _) = parse_announcement(&datagram).unwrap();
    assert_eq!(announcement.name.as_deref(), Some("caf\u{fffd}"));
    assert_eq!(announcement.serial.as_deref(), Some("B\u{fc}ro"));
}

#[test]
fn binary_datagram_is_rejected() {
    let datagram: Vec<u8> = (0u8..=255).collect();
    assert!(parse_announcement(&datagram).is_err());
    assert_eq!(parse_announcement(&[0xff, 0xfe, 0x00]).unwrap_err(), Rejection::NotNotify);
}
