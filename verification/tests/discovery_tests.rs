use webplay::discovery::address_report;
use webplay::discovery::detection_failure_lines;
use webplay::discovery::ipv4_url;
use webplay::discovery::localhost_url;
use webplay::discovery::loopback_url;
use webplay::discovery::no_network_warning_lines;
use webplay::discovery::IpAddress;
use webplay::discovery::NetInterface;
use webplay::numfmt::u16_to_dec;

fn iface(name: &str, addr: IpAddress) -> NetInterface {
    NetInterface { name: String::from(name), addr }
}

#[test]
fn one_loopback_one_network_interface() {
    let interfaces = vec![
        iface("lo", IpAddress::V4 { a: 127, b: 0, c: 0, d: 1 }),
        iface("eth0", IpAddress::V4 { a: 192, b: 168, c: 1, d: 5 }),
    ];
    let report = address_report(&interfaces, 3000);
    assert_eq!(report.network.len(), 1);
    assert_eq!(report.network[0].url, "http://192.168.1.5:3000");
    assert_eq!(report.network[0].label, "eth0");
    assert_eq!(report.localhost_url, "http://localhost:3000");
    assert_eq!(report.loopback_url, "http://127.0.0.1:3000");
    assert!(!report.none_found);
}

#[test]
fn ipv6_addresses_are_never_advertised() {
    let interfaces = vec![
        iface("lo", IpAddress::V4 { a: 127, b: 0, c: 0, d: 1 }),
        iface("eth0", IpAddress::V6),
        iface("wlan0", IpAddress::V4 { a: 10, b: 0, c: 0, d: 7 }),
        iface("wlan0", IpAddress::V6),
    ];
    let report = address_report(&interfaces, 8080);
    assert_eq!(report.network.len(), 1);
    assert_eq!(report.network[0].url, "http://10.0.0.7:8080");
    assert_eq!(report.network[0].label, "wlan0");
}

#[test]
fn empty_interface_list_raises_warning_flag() {
    let report = address_report(&vec![], 3000);
    assert!(report.network.is_empty());
    assert!(report.none_found);
}

#[test]
fn loopback_only_list_raises_warning_flag() {
    let interfaces = vec![
        iface("lo", IpAddress::V4 { a: 127, b: 0, c: 0, d: 1 }),
        iface("lo6", IpAddress::V6),
    ];
    let report = address_report(&interfaces, 3000);
    assert!(report.network.is_empty());
    assert!(report.none_found);
}

#[test]
fn network_entries_keep_interface_order() {
    let interfaces = vec![
        iface("eth0", IpAddress::V4 { a: 192, b: 168, c: 0, d: 2 }),
        iface("eth1", IpAddress::V4 { a: 172, b: 16, c: 5, d: 9 }),
    ];
    let report = address_report(&interfaces, 80);
    assert_eq!(report.network.len(), 2);
    assert_eq!(report.network[0].url, "http://192.168.0.2:80");
    assert_eq!(report.network[1].url, "http://172.16.5.9:80");
}

#[test]
fn no_network_warning_text() {
    let lines = no_network_warning_lines();
    assert_eq!(lines, vec![
        String::from("No network interfaces found!"),
        String::from("Make sure you're connected to WiFi/Ethernet"),
    ]);
}

#[test]
fn detection_failure_text_names_localhost() {
    let lines = detection_failure_lines(3000);
    assert_eq!(lines, vec![
        String::from("Could not detect network interfaces"),
        String::from("Fallback: http://localhost:3000"),
    ]);
}

#[test]
fn url_formatting_is_exact() {
    assert_eq!(ipv4_url(10, 0, 0, 1, 8080), "http://10.0.0.1:8080");
    assert_eq!(ipv4_url(255, 255, 255, 255, 65535), "http://255.255.255.255:65535");
    assert_eq!(localhost_url(1), "http://localhost:1");
    assert_eq!(loopback_url(65535), "http://127.0.0.1:65535");
}

#[test]
fn decimal_formatting_is_exact() {
    assert_eq!(u16_to_dec(0), "0");
    assert_eq!(u16_to_dec(9), "9");
    assert_eq!(u16_to_dec(10), "10");
    assert_eq!(u16_to_dec(3000), "3000");
    assert_eq!(u16_to_dec(65535), "65535");
}
