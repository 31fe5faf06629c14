use protun::connection::ConnectivityEvent;
use protun::debouncer::{log_trigger, Debouncer, DebouncerInput, DebouncingBatch};
use protun::interfaces::{
    get_internet_interfaces, get_internet_interfaces_from_routes, get_potential_internet_interfaces, handle_debouncer_trigger,
    handle_internet_connectivity_regained, interface_metrics_fit, AdapterIdentity, AddressRow, EventParameters,
    EventType, InterfaceFinderLogMode, InterfaceStatus, InternetInterface, NetworkInterface, RouteRow,
};
use protun::net::{IpAddress, Ipv4Address, Ipv6Address};

fn route(luid: u64, index: u32, metric: u32, v4_metric: u32, is_virtual: bool) -> RouteRow {
    RouteRow {
        prefix_length: 0,
        interface_luid: luid,
        interface_index: index,
        metric,
        next_hop: Some(IpAddress::V4(Ipv4Address::new(192, 168, 0, 1))),
        adapter: AdapterIdentity::Other,
        status: Some(InterfaceStatus { is_up: true, is_virtual }),
        ipv4_metric: Some(v4_metric),
        ipv6_metric: None,
    }
}

fn addr(luid: u64, d: u8) -> AddressRow {
    AddressRow { interface_luid: luid, address: Some(IpAddress::V4(Ipv4Address::new(192, 168, 0, d))), preferred: true }
}

#[test]
fn best_interface_prefers_real_then_low_metric() {
    let routes = vec![route(1, 11, 10, 5, true), route(2, 12, 50, 5, false), route(3, 13, 20, 5, false), route(4, 14, 0, 0, false)];
    let mut down = route(5, 15, 0, 0, false);
    down.status = Some(InterfaceStatus { is_up: false, is_virtual: false });
    let mut all = routes.clone();
    all.push(down);
    let addrs = vec![addr(1, 10), addr(2, 20), addr(3, 30), AddressRow { interface_luid: 4, address: Some(IpAddress::V4(Ipv4Address::new(1, 1, 1, 1))), preferred: false }, addr(5, 50)];
    let found = get_internet_interfaces_from_routes(&all, &addrs);
    assert_eq!(found.len(), 3);
    assert!(interface_metrics_fit(&found));
    let (v4, v6) = get_internet_interfaces(&found);
    assert!(v6.is_none());
    let v4 = v4.expect("IPv4 interface expected");
    assert_eq!(v4.interface_index, 13);
    assert!(!v4.is_virtual);
    assert_eq!(v4.effective_metric(), 25);
}

#[test]
fn own_tun_and_partial_routes_are_skipped() {
    let mut tun = route(1, 11, 0, 0, false);
    tun.adapter = AdapterIdentity::OwnTun;
    let mut host = route(2, 12, 0, 0, false);
    host.prefix_length = 32;
    let mut v6_hop = route(3, 13, 0, 0, false);
    v6_hop.next_hop = Some(IpAddress::V6(Ipv6Address::new(0xfe80, 0, 0, 0, 0, 0, 0, 1)));
    let found = get_internet_interfaces_from_routes(&vec![tun, host, v6_hop], &vec![addr(1, 1), addr(2, 2), addr(3, 3)]);
    assert!(found.is_empty());
}

#[test]
fn connectivity_decisions() {
    let v4 = protun::interfaces::Ipv4InternetInterface {
        interface_metric: 1,
        default_route_metric: 1,
        local_ip: Ipv4Address::new(192, 168, 0, 2),
        interface_index: 4,
        next_hop: Ipv4Address::new(192, 168, 0, 1),
        is_virtual: false,
    };
    let current = NetworkInterface { index: 4, ip_addr: IpAddress::V4(Ipv4Address::new(192, 168, 0, 2)) };
    assert!(handle_debouncer_trigger(Some(current), Some(v4), None).is_none());
    assert!(handle_debouncer_trigger(Some(current), None, None) == Some(ConnectivityEvent::Down));
    assert!(handle_debouncer_trigger(None, None, None).is_none());
    assert!(handle_debouncer_trigger(None, Some(v4), None) == Some(ConnectivityEvent::Up));
    let other = NetworkInterface { index: 5, ip_addr: IpAddress::V4(Ipv4Address::new(10, 0, 0, 2)) };
    assert!(handle_debouncer_trigger(Some(other), Some(v4), None) == Some(ConnectivityEvent::NetworkSwitch));
    assert!(handle_internet_connectivity_regained() == ConnectivityEvent::Up);
}

#[test]
fn event_descriptions() {
    assert_eq!(EventType::Initial.describe(), "listener started");
    assert_eq!(EventParameters::new(EventType::Delete, 12).describe(), "removed (Interface index: 12)");
    assert!(matches!(InterfaceFinderLogMode::create_verbose("me"), InterfaceFinderLogMode::Verbose { caller_name } if caller_name == "me"));
}

#[test]
fn debouncer_delivers_bursts() {
    let mut d = Debouncer::start(500);
    assert_eq!(d.wait_time(0), 3_600_000);
    assert!(d.step(DebouncerInput::Event, 100).is_none());
    assert!(d.step(DebouncerInput::Event, 300).is_none());
    assert_eq!(d.wait_time(400), 400);
    let batch = d.step(DebouncerInput::Timeout, 800).expect("batch expected");
    assert!(batch == DebouncingBatch { event_count: 2, first_input_at: Some(100) });
    assert_eq!(log_trigger(&batch, 800), 700);
    assert!(d.step(DebouncerInput::Timeout, 900).is_none());
    let mut b = DebouncingBatch::new();
    b.absorb(5);
    b.absorb(9);
    assert!(b == DebouncingBatch { event_count: 2, first_input_at: Some(5) });
}

#[test]
fn potential_interfaces_are_ordered() {
    let mut v6 = route(6, 16, 0, 0, false);
    v6.next_hop = Some(IpAddress::V6(Ipv6Address::new(0xfe80, 0, 0, 0, 0, 0, 0, 1)));
    v6.ipv6_metric = Some(0);
    let routes = vec![v6, route(1, 11, 10, 5, true), route(2, 12, 50, 5, false), route(3, 13, 20, 5, false), route(7, 17, 15, 10, false)];
    let mut addrs = vec![addr(1, 10), addr(2, 20), addr(3, 30), addr(7, 70)];
    addrs.push(AddressRow { interface_luid: 6, address: Some(IpAddress::V6(Ipv6Address::new(0x2001, 0xdb8, 0, 0, 0, 0, 0, 1))), preferred: true });
    let ordered = get_potential_internet_interfaces(&routes, &addrs).expect("interfaces expected");
    let indexes: Vec<u32> = ordered
        .iter()
        .map(|i| match i {
            InternetInterface::V4(x) => x.interface_index,
            InternetInterface::V6(x) => x.interface_index,
        })
        .collect();
    // Real IPv4 by metric (25, 25 in table order, 55), then virtual IPv4, then IPv6.
    assert_eq!(indexes, vec![13, 17, 12, 11, 16]);
    assert!(get_potential_internet_interfaces(&vec![], &addrs).is_none());
}
