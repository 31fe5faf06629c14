use protun::ip_text::{hex_string, ipv4_to_string, ipv6_to_string, OptionIpv4AddrAsString, OptionIpv6AddrAsString};
use protun::net::{Ipv4Address, Ipv6Address};
use protun::wintun::packet_chunks;

#[test]
fn ipv4_text_is_dotted_decimal() {
    assert_eq!(ipv4_to_string(Ipv4Address::new(10, 2, 0, 255)), "10.2.0.255");
    assert_eq!(Some(Ipv4Address::new(1, 2, 3, 4)).to_string_or("-"), "1.2.3.4");
    assert_eq!(None::<Ipv4Address>.to_string_or("none"), "none");
}

#[test]
fn ipv6_text_matches_std() {
    let cases: Vec<([u16; 8], &str)> = vec![
        ([0x2a07, 0xb944, 0, 0, 0, 0, 2, 1], "2a07:b944::2:1"),
        ([0, 0, 0, 0, 0, 0, 0, 0], "::"),
        ([0, 0, 0, 0, 0, 0, 0, 1], "::1"),
        ([1, 0, 0, 2, 0, 0, 0, 3], "1:0:0:2::3"),
        ([1, 0, 2, 0, 3, 0, 4, 0], "1:0:2:0:3:0:4:0"),
        ([0, 0, 0, 0, 0, 0xffff, 0xc0a8, 0x0001], "::ffff:192.168.0.1"),
        ([0xfe80, 0, 0, 0, 0xabcd, 0, 0, 0xffff], "fe80::abcd:0:0:ffff"),
        ([0x1234, 0x5678, 0x9abc, 0xdef0, 0x1, 0x2, 0x3, 0x4], "1234:5678:9abc:def0:1:2:3:4"),
        ([1, 2, 3, 4, 5, 6, 7, 0], "1:2:3:4:5:6:7:0"),
    ];
    for (s, expected) in cases {
        let ours = ipv6_to_string(Ipv6Address::new(s[0], s[1], s[2], s[3], s[4], s[5], s[6], s[7]));
        assert_eq!(ours, expected);
    }
    assert_eq!(None::<Ipv6Address>.to_string_or(""), "");
    assert_eq!(hex_string(0xbeef), "beef");
}

#[test]
fn wintun_packets_are_cut_at_the_size_limit() {
    assert_eq!(packet_chunks(0), Vec::<usize>::new());
    assert_eq!(packet_chunks(100), vec![100]);
    assert_eq!(packet_chunks(65535), vec![65535]);
    assert_eq!(packet_chunks(140000), vec![65535, 65535, 8930]);
}
