use protun::net::{IpAddress, Ipv4Address, Ipv6Address};
use protun::routes::{
    create_ipv4_default_route, create_ipv4_host_route, create_ipv4_server_route, create_ipv4_split_default_routes,
    create_ipv6_split_default_routes, delete_all_stored_routes, normalize_stored_routes, remove_from_stored_routes,
    with_stored_route, Ipv4Gateway, Ipv4Route, Route, RouteRegistry, StoredRouteOutcome, TunRoutes,
};

fn s(v: &[&str]) -> Vec<String> {
    v.iter().map(|x| x.to_string()).collect()
}

#[test]
fn route_builders() {
    let host = create_ipv4_host_route(Ipv4Address::new(1, 2, 3, 4), None, 7);
    assert_eq!(host.destination_prefix_length, 32);
    assert!(host.next_hop_address.is_none());
    let default = create_ipv4_default_route(7);
    assert_eq!(default.destination_prefix_length, 0);
    let split = create_ipv4_split_default_routes(7);
    assert!(split[1].destination_ip_addr == Ipv4Address::new(128, 0, 0, 0));
    assert_eq!(split[1].destination_prefix_length, 1);
    let split6 = create_ipv6_split_default_routes(7);
    assert_eq!(split6[1].destination_ip_addr.s0, 0x8000);
    let gw = Ipv4Gateway { interface_index: 3, next_hop: Ipv4Address::new(192, 168, 1, 1) };
    match create_ipv4_server_route(Ipv4Address::new(5, 6, 7, 8), &gw) {
        Route::V4(r) => {
            assert!(r.next_hop_address == Some(Ipv4Address::new(192, 168, 1, 1)));
            assert_eq!(r.interface_index, 3);
        },
        _ => panic!("IPv4 route expected"),
    }
}

#[test]
fn tun_routes_plan() {
    let (handle, routes) = TunRoutes::create(Ipv4Address::new(10, 2, 0, 1), None, 9);
    assert_eq!(handle.delete(), 9);
    assert_eq!(routes.len(), 4);
    let v6 = Ipv6Address::new(0x2a07, 0xb944, 0, 0, 0, 0, 2, 1);
    let (_, routes) = TunRoutes::create(Ipv4Address::new(10, 2, 0, 1), Some(v6), 9);
    assert_eq!(routes.len(), 8);
    assert!(routes[0] == Route::V4(Ipv4Route {
        destination_ip_addr: Ipv4Address::new(10, 2, 0, 1),
        destination_prefix_length: 32,
        next_hop_address: None,
        interface_index: 9,
    }));
    assert!(matches!(routes[4], Route::V6(r) if r.destination_ip_addr == v6 && r.destination_prefix_length == 128));
}

#[test]
fn stored_routes_are_normalized() {
    let n = normalize_stored_routes(s(&["a", "", "b", "a", "c", "b"]));
    assert_eq!(n, s(&["a", "b", "c"]));
    assert_eq!(normalize_stored_routes(n.clone()), n);
    assert!(with_stored_route(s(&["a"]), "a".to_string()).is_none());
    assert_eq!(with_stored_route(s(&["a"]), "b".to_string()), Some(s(&["a", "b"])));
}

#[test]
fn stored_route_deletion() {
    let kept = delete_all_stored_routes(
        s(&["x", "y", "z"]),
        &vec![StoredRouteOutcome::Deleted, StoredRouteOutcome::Failed, StoredRouteOutcome::Unreadable],
    );
    assert_eq!(kept, s(&["y"]));
    let r1 = Route::V4(create_ipv4_default_route(1));
    let r2 = Route::V4(create_ipv4_default_route(2));
    let kept = remove_from_stored_routes(s(&["r1", "junk", "r2"]), &vec![Some(r1), None, Some(r2)], r1);
    assert_eq!(kept, s(&["r2"]));
}

#[test]
fn server_routes_are_shared() {
    let mut reg = RouteRegistry::new();
    let a = IpAddress::V4(Ipv4Address::new(1, 1, 1, 1));
    let b = IpAddress::V4(Ipv4Address::new(2, 2, 2, 2));
    assert!(reg.acquire(a));
    assert!(!reg.acquire(a));
    assert!(reg.acquire(b));
    assert!(!reg.release(a));
    assert!(reg.release(a));
    assert!(!reg.release(a));
    assert!(reg.release(b));
    assert!(reg.acquire(a));
}
