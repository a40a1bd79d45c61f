use bambu_printers::address::DeviceAddress;
use bambu_printers::ipv4::Ipv4Address;
use bambu_printers::ipv6::Ipv6Address;

fn chars(text: &str) -> Vec<char> {
    text.chars().collect()
}

fn parse(text: &str) -> Option<DeviceAddress> {
    DeviceAddress::parse(&chars(text))
}

fn v4(a: u8, b: u8, c: u8, d: u8) -> DeviceAddress {
    DeviceAddress::V4(Ipv4Address { a, b, c, d })
}

fn v6(g: [u16; 8]) -> DeviceAddress {
    DeviceAddress::V6(Ipv6Address {
        s0: g[0],
        s1: g[1],
        s2: g[2],
        s3: g[3],
        s4: g[4],
        s5: g[5],
        s6: g[6],
        s7: g[7],
    })
}

#[test]
fn dotted_quads_are_read() {
    assert_eq!(parse("10.0.0.5"), Some(v4(10, 0, 0, 5)));
    assert_eq!(parse("0.0.0.0"), Some(v4(0, 0, 0, 0)));
    assert_eq!(parse("255.255.255.255"), Some(v4(255, 255, 255, 255)));
    assert_eq!(parse("192.168.1.99"), Some(v4(192, 168, 1, 99)));
    assert_eq!(parse("1.20.200.9"), Some(v4(1, 20, 200, 9)));
    assert_eq!(Ipv4Address::parse(&chars("10.0.0.5")), Some(Ipv4Address { a: 10, b: 0, c: 0, d: 5 }));
}

#[test]
fn other_texts_are_no_address() {
    for bad in [
        "", ".", "...", "1", "1.2", "1.2.3", "1.2.3.", ".1.2.3", "1.2.3.4.", "1.2.3.4.5", "1..3.4",
        "256.0.0.1", "0.0.0.256", "999.1.1.1", "1000.1.1.1", "01.2.3.4", "1.02.3.4", "1.2.3.00",
        "1.2.3.4 ", " 1.2.3.4", "1.2.3.a", "a.b.c.d", "1,2,3,4", "+1.2.3.4", "-1.2.3.4",
        "1.2.3.4\n", "localhost", "\u{661}.2.3.4", "1.2.3.4/24", "1.2.3.4:80",
    ] {
        assert_eq!(parse(bad), None, "{:?}", bad);
        assert_eq!(Ipv4Address::parse(&chars(bad)), None, "{:?}", bad);
    }
}

#[test]
fn ipv6_texts_are_read() {
    for (text, groups) in [
        ("::", [0, 0, 0, 0, 0, 0, 0, 0]),
        ("::1", [0, 0, 0, 0, 0, 0, 0, 1]),
        ("1::", [1, 0, 0, 0, 0, 0, 0, 0]),
        ("1::8", [1, 0, 0, 0, 0, 0, 0, 8]),
        ("1:2:3:4:5:6:7:8", [1, 2, 3, 4, 5, 6, 7, 8]),
        ("0:0:0:0:0:0:0:0", [0, 0, 0, 0, 0, 0, 0, 0]),
        ("fe80::1:2:3:4", [0xfe80, 0, 0, 0, 1, 2, 3, 4]),
        ("2001:db8::ff00:42:8329", [0x2001, 0xdb8, 0, 0, 0, 0xff00, 0x42, 0x8329]),
        ("2001:0db8:0000:0000:0000:ff00:0042:8329", [0x2001, 0xdb8, 0, 0, 0, 0xff00, 0x42, 0x8329]),
        ("ABCD:EF01::", [0xabcd, 0xef01, 0, 0, 0, 0, 0, 0]),
        ("aBcD::Ef", [0xabcd, 0, 0, 0, 0, 0, 0, 0xef]),
        ("ffff:ffff:ffff:ffff:ffff:ffff:ffff:ffff", [0xffff; 8]),
        ("1:2:3:4:5:6:7::", [1, 2, 3, 4, 5, 6, 7, 0]),
        ("::2:3:4:5:6:7:8", [0, 2, 3, 4, 5, 6, 7, 8]),
        ("1:2:3::6:7:8", [1, 2, 3, 0, 0, 6, 7, 8]),
        ("1:2:3:4::6:7:8", [1, 2, 3, 4, 0, 6, 7, 8]),
        ("::ffff:192.168.1.1", [0, 0, 0, 0, 0, 0xffff, 0xc0a8, 0x0101]),
        ("::1.2.3.4", [0, 0, 0, 0, 0, 0, 0x0102, 0x0304]),
        ("1:2:3:4:5:6:1.2.3.4", [1, 2, 3, 4, 5, 6, 0x0102, 0x0304]),
        ("64:ff9b::192.0.2.33", [0x64, 0xff9b, 0, 0, 0, 0, 0xc000, 0x0221]),
        ("1:2:3:4:5::1.2.3.4", [1, 2, 3, 4, 5, 0, 0x0102, 0x0304]),
        ("::255.255.255.255", [0, 0, 0, 0, 0, 0, 0xffff, 0xffff]),
    ] {
        assert_eq!(parse(text), Some(v6(groups)), "{:?}", text);
        assert_eq!(Ipv6Address::parse(&chars(text)).map(|x| x.segments()), Some(groups), "{:?}", text);
    }
}

#[test]
fn other_texts_are_no_ipv6_address() {
    for bad in [
        ":", ":::", "::::", "1:2", "1:2:3:4:5:6:7", "1:2:3:4:5:6:7:8:9", "::1:2:3:4:5:6:7:8",
        "1:2:3:4:5:6:7:8::", "1::2::3", "1::2::", "::1::", ":1", "1:", ":1:2:3:4:5:6:7:8",
        "1:2:3:4:5:6:7:8:", "1:2:3:4:5:6:7:", ":2:3:4:5:6:7:8", "12345::", "::12345", "g::",
        "::g", "1.2.3.4::", "::1.2.3.4:5", "1:2:3:4:5:6:7:1.2.3.4", "1:2:3:4:5:1.2.3.4",
        "::1.2.3", "::1.2.3.256", "::01.2.3.4", "::1.2.3.4.5", "fe80::1%eth0", "[::1]", "::1 ",
        " ::1", "::-1", "1:::2", "1:2:3:4:5:6::7:8", "::1:2:3:4:5:6:1.2.3.4", "1::2:3:4:5:6:1.2.3.4",
        "0x1::", "::1/64", "1:2:3:4:5:6:7:8\n", "1;2::", "\u{ff11}::",
    ] {
        assert_eq!(parse(bad), None, "{:?}", bad);
        assert_eq!(Ipv6Address::parse(&chars(bad)), None, "{:?}", bad);
    }
}

#[test]
fn writing_is_the_inverse_of_reading() {
    for text in ["10.0.0.5", "0.0.0.0", "255.255.255.255", "9.10.99.100", "127.0.0.1"] {
        assert_eq!(parse(text).unwrap().to_string(), text);
    }
    for text in [
        "::", "::1", "1::", "fe80::1:2:3:4", "1:2:3:4:5:6:7:8", "ffff:a:b0:c00:d000:0:10:100",
        "::ffff:10.0.0.5", "2001:db8::ff00:42:8329", "1:2:3:4:5:6::", "0:2:3:4:5:6:7:8",
    ] {
        assert_eq!(parse(text).unwrap().to_string(), text);
    }
}

#[test]
fn ipv6_addresses_are_written_in_their_shortest_form() {
    for (groups, text) in [
        ([0, 0, 0, 0, 0, 0, 0, 0], "::"),
        ([0, 0, 0, 0, 0, 0, 0, 1], "::1"),
        ([1, 0, 0, 0, 0, 0, 0, 0], "1::"),
        ([0xfe80, 0, 0, 0, 0, 0, 0, 0xabcd], "fe80::abcd"),
        ([0x2001, 0xdb8, 0, 0, 0, 0, 0, 1], "2001:db8::1"),
        ([1, 2, 3, 4, 5, 6, 7, 8], "1:2:3:4:5:6:7:8"),
        ([1, 0, 3, 4, 5, 6, 7, 8], "1:0:3:4:5:6:7:8"),
        ([0, 2, 3, 4, 5, 6, 7, 0], "0:2:3:4:5:6:7:0"),
        ([1, 0, 0, 2, 0, 0, 3, 4], "1::2:0:0:3:4"),
        ([1, 0, 0, 2, 0, 0, 0, 3], "1:0:0:2::3"),
        ([0, 0, 1, 0, 0, 0, 0, 0], "0:0:1::"),
        ([0, 0, 0, 1, 0, 0, 0, 2], "::1:0:0:0:2"),
        ([1, 2, 3, 4, 5, 6, 0, 0], "1:2:3:4:5:6::"),
        ([0, 0, 2, 3, 4, 5, 6, 7], "::2:3:4:5:6:7"),
        ([0, 0, 0, 0, 0, 0xffff, 0x0a00, 0x0005], "::ffff:10.0.0.5"),
        ([0, 0, 0, 0, 0, 0xffff, 0, 0], "::ffff:0.0.0.0"),
        ([0, 0, 0, 0, 0, 0xffff, 0xffff, 0xffff], "::ffff:255.255.255.255"),
        ([0, 0, 0, 0, 0, 0, 0xffff, 1], "::ffff:1"),
        ([0, 0, 0, 0, 0, 0, 0x0102, 0x0304], "::102:304"),
        ([0, 0, 0, 0, 1, 0xffff, 0x0102, 0x0304], "::1:ffff:102:304"),
        ([0x1, 0x12, 0x123, 0x1234, 0xf, 0xf0, 0xf00, 0xf000], "1:12:123:1234:f:f0:f00:f000"),
    ] {
        assert_eq!(v6(groups).to_string(), text);
        assert_eq!(parse(text), Some(v6(groups)), "{:?}", text);
    }
    assert_eq!(parse("FE80::ABCD").unwrap().to_string(), "fe80::abcd");
    assert_eq!(parse("2001:0db8:0:0:0:0:0:0001").unwrap().to_string(), "2001:db8::1");
    assert_eq!(parse("0:0:0:0:0:0:0:0").unwrap().to_string(), "::");
    assert_eq!(parse("::2:3:4:5:6:7:8").unwrap().to_string(), "0:2:3:4:5:6:7:8");
    let x = Ipv6Address { s0: 1, s1: 0, s2: 0, s3: 0, s4: 0, s5: 0, s6: 0, s7: 2 };
    assert_eq!(x.to_chars(), chars("1::2"));
}

#[test]
fn every_octet_value_is_written_and_read_back() {
    for v in 0u16..=255 {
        let v = v as u8;
        let address = v4(v, 255 - v, v / 2, v % 10);
        let text = address.to_string();
        assert_eq!(text, format!("{}.{}.{}.{}", v, 255 - v, v / 2, v % 10));
        assert_eq!(parse(&text), Some(address));
    }
}

#[test]
fn every_group_value_is_written_and_read_back() {
    for v in 0u32..=0xffff {
        let v = v as u16;
        let address = v6([v, 0xffff - v, v / 16, v % 16, v / 256, v % 256, v / 4096, v % 4096]);
        assert_eq!(parse(&address.to_string()), Some(address));
        let mapped = v6([0, 0, 0, 0, 0, 0xffff, v, 0xffff - v]);
        assert_eq!(parse(&mapped.to_string()), Some(mapped));
        let sparse = v6([v % 2, 0, v % 3, 0, 0, v % 5, 0, v % 7]);
        assert_eq!(parse(&sparse.to_string()), Some(sparse));
    }
    assert_eq!(v6([0xabcd, 0x12, 0x3, 0x4567, 0x89, 0xa, 0xbcde, 0xf]).to_string(), "abcd:12:3:4567:89:a:bcde:f");
}

#[test]
fn octets_and_groups_come_first_to_last() {
    assert_eq!(Ipv4Address { a: 10, b: 0, c: 0, d: 5 }.octets(), [10, 0, 0, 5]);
    assert_eq!(Ipv4Address { a: 10, b: 0, c: 0, d: 5 }.to_chars(), chars("10.0.0.5"));
    let x = Ipv6Address { s0: 1, s1: 2, s2: 3, s3: 4, s4: 5, s5: 6, s6: 7, s7: 8 };
    assert_eq!(x.segments(), [1, 2, 3, 4, 5, 6, 7, 8]);
}
