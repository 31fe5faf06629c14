use vstd::prelude::*;
use crate::net::{IpAddress, Ipv4Address, Ipv6Address};

verus! {

/// An IPv4 route: destination prefix, next hop (none for on-link) and interface.
#[derive(Clone, Copy, PartialEq, Eq, Structural)]
pub struct Ipv4Route {
    pub destination_ip_addr: Ipv4Address,
    pub destination_prefix_length: u8,
    pub next_hop_address: Option<Ipv4Address>,
    pub interface_index: u32,
}

/// An IPv6 route: destination prefix, next hop (none for on-link) and interface.
#[derive(Clone, Copy, PartialEq, Eq, Structural)]
pub struct Ipv6Route {
    pub destination_ip_addr: Ipv6Address,
    pub destination_prefix_length: u8,
    pub next_hop_address: Option<Ipv6Address>,
    pub interface_index: u32,
}

/// A route of either family.
#[derive(Clone, Copy, PartialEq, Eq, Structural)]
pub enum Route {
    V4(Ipv4Route),
    V6(Ipv6Route),
}

/// The local interface that reaches the internet, as a server route needs it.
#[derive(Clone, Copy, PartialEq, Eq, Structural)]
pub struct Ipv4Gateway {
    pub interface_index: u32,
    pub next_hop: Ipv4Address,
}

/// The local interface that reaches the internet over IPv6.
#[derive(Clone, Copy, PartialEq, Eq, Structural)]
pub struct Ipv6Gateway {
    pub interface_index: u32,
    pub next_hop: Ipv6Address,
}

pub open spec fn v4(a: u8, b: u8, c: u8, d: u8) -> Ipv4Address {
    Ipv4Address { o0: a, o1: b, o2: c, o3: d }
}

pub open spec fn v6_zero() -> Ipv6Address {
    Ipv6Address { s0: 0, s1: 0, s2: 0, s3: 0, s4: 0, s5: 0, s6: 0, s7: 0 }
}

/// A route to one IPv4 address.
pub fn create_ipv4_host_route(server_ip: Ipv4Address, next_hop: Option<Ipv4Address>, interface_index: u32) -> (r: Ipv4Route)
    ensures
        r == (Ipv4Route {
            destination_ip_addr: server_ip,
            destination_prefix_length: 32,
            next_hop_address: next_hop,
            interface_index,
        }),
{
    Ipv4Route { destination_ip_addr: server_ip, destination_prefix_length: 32, next_hop_address: next_hop, interface_index }
}

/// The on-link route to the local agent address through the TUN interface.
pub fn create_ipv4_local_agent_route(server_ip: Ipv4Address, interface_index: u32) -> (r: Ipv4Route)
    ensures
        r == (Ipv4Route {
            destination_ip_addr: server_ip,
            destination_prefix_length: 32,
            next_hop_address: None,
            interface_index,
        }),
{
    create_ipv4_host_route(server_ip, None, interface_index)
}

/// The on-link default route 0.0.0.0/0.
pub fn create_ipv4_default_route(interface_index: u32) -> (r: Ipv4Route)
    ensures
        r == (Ipv4Route {
            destination_ip_addr: v4(0, 0, 0, 0),
            destination_prefix_length: 0,
            next_hop_address: None,
            interface_index,
        }),
{
    Ipv4Route {
        destination_ip_addr: Ipv4Address::new(0, 0, 0, 0),
        destination_prefix_length: 0,
        next_hop_address: None,
        interface_index,
    }
}

/// The two halves of the IPv4 space, 0.0.0.0/1 and 128.0.0.0/1, on-link.
pub fn create_ipv4_split_default_routes(interface_index: u32) -> (r: Vec<Ipv4Route>)
    ensures
        r@ == seq![
            Ipv4Route {
                destination_ip_addr: v4(0, 0, 0, 0),
                destination_prefix_length: 1,
                next_hop_address: None,
                interface_index,
            },
            Ipv4Route {
                destination_ip_addr: v4(128, 0, 0, 0),
                destination_prefix_length: 1,
                next_hop_address: None,
                interface_index,
            },
        ],
{
    let r = vec![
        Ipv4Route {
            destination_ip_addr: Ipv4Address::new(0, 0, 0, 0),
            destination_prefix_length: 1,
            next_hop_address: None,
            interface_index,
        },
        Ipv4Route {
            destination_ip_addr: Ipv4Address::new(128, 0, 0, 0),
            destination_prefix_length: 1,
            next_hop_address: None,
            interface_index,
        },
    ];
    assert(r@ =~= seq![r@[0], r@[1]]);
    r
}

/// A route to one IPv6 address.
pub fn create_ipv6_host_route(server_ip: Ipv6Address, next_hop: Option<Ipv6Address>, interface_index: u32) -> (r: Ipv6Route)
    ensures
        r == (Ipv6Route {
            destination_ip_addr: server_ip,
            destination_prefix_length: 128,
            next_hop_address: next_hop,
            interface_index,
        }),
{
    Ipv6Route { destination_ip_addr: server_ip, destination_prefix_length: 128, next_hop_address: next_hop, interface_index }
}

/// The on-link route to the local agent IPv6 address through the TUN interface.
pub fn create_ipv6_local_agent_route(server_ip: Ipv6Address, interface_index: u32) -> (r: Ipv6Route)
    ensures
        r == (Ipv6Route {
            destination_ip_addr: server_ip,
            destination_prefix_length: 128,
            next_hop_address: None,
            interface_index,
        }),
{
    create_ipv6_host_route(server_ip, None, interface_index)
}

/// The on-link default route ::/0.
pub fn create_ipv6_default_route(interface_index: u32) -> (r: Ipv6Route)
    ensures
        r == (Ipv6Route {
            destination_ip_addr: v6_zero(),
            destination_prefix_length: 0,
            next_hop_address: None,
            interface_index,
        }),
{
    Ipv6Route {
        destination_ip_addr: Ipv6Address::new(0, 0, 0, 0, 0, 0, 0, 0),
        destination_prefix_length: 0,
        next_hop_address: None,
        interface_index,
    }
}

/// The two halves of the IPv6 space, ::/1 and 8000::/1, on-link.
pub fn create_ipv6_split_default_routes(interface_index: u32) -> (r: Vec<Ipv6Route>)
    ensures
        r@ == seq![
            Ipv6Route {
                destination_ip_addr: v6_zero(),
                destination_prefix_length: 1,
                next_hop_address: None,
                interface_index,
            },
            Ipv6Route {
                destination_ip_addr: Ipv6Address { s0: 0x8000, ..v6_zero() },
                destination_prefix_length: 1,
                next_hop_address: None,
                interface_index,
            },
        ],
{
    let r = vec![
        Ipv6Route {
            destination_ip_addr: Ipv6Address::new(0, 0, 0, 0, 0, 0, 0, 0),
            destination_prefix_length: 1,
            next_hop_address: None,
            interface_index,
        },
        Ipv6Route {
            destination_ip_addr: Ipv6Address::new(0x8000, 0, 0, 0, 0, 0, 0, 0),
            destination_prefix_length: 1,
            next_hop_address: None,
            interface_index,
        },
    ];
    assert(r@ =~= seq![r@[0], r@[1]]);
    r
}

/// The route that sends traffic for the VPN server to the internet gateway.
pub fn create_ipv4_server_route(server_ip: Ipv4Address, internet_interface: &Ipv4Gateway) -> (r: Route)
    ensures
        r == Route::V4(
            Ipv4Route {
                destination_ip_addr: server_ip,
                destination_prefix_length: 32,
                next_hop_address: Some(internet_interface.next_hop),
                interface_index: internet_interface.interface_index,
            },
        ),
{
    Route::V4(create_ipv4_host_route(server_ip, Some(internet_interface.next_hop), internet_interface.interface_index))
}

/// The route that sends IPv6 traffic for the VPN server to the internet gateway.
pub fn create_ipv6_server_route(server_ip: Ipv6Address, internet_interface: &Ipv6Gateway) -> (r: Route)
    ensures
        r == Route::V6(
            Ipv6Route {
                destination_ip_addr: server_ip,
                destination_prefix_length: 128,
                next_hop_address: Some(internet_interface.next_hop),
                interface_index: internet_interface.interface_index,
            },
        ),
{
    Route::V6(create_ipv6_host_route(server_ip, Some(internet_interface.next_hop), internet_interface.interface_index))
}

/// The routes of the TUN interface, in the order they are added: the local
/// agent route, the default route and the split default routes, for IPv4 and,
/// when the tunnel has an IPv6 server address, for IPv6.
pub open spec fn tun_routes_spec(server_v4: Ipv4Address, server_v6: Option<Ipv6Address>, index: u32) -> Seq<Route> {
    let v4_routes = seq![
        Route::V4(Ipv4Route { destination_ip_addr: server_v4, destination_prefix_length: 32, next_hop_address: None, interface_index: index }),
        Route::V4(Ipv4Route { destination_ip_addr: v4(0, 0, 0, 0), destination_prefix_length: 0, next_hop_address: None, interface_index: index }),
        Route::V4(Ipv4Route { destination_ip_addr: v4(0, 0, 0, 0), destination_prefix_length: 1, next_hop_address: None, interface_index: index }),
        Route::V4(Ipv4Route { destination_ip_addr: v4(128, 0, 0, 0), destination_prefix_length: 1, next_hop_address: None, interface_index: index }),
    ];
    match server_v6 {
        Some(s6) => v4_routes + seq![
            Route::V6(Ipv6Route { destination_ip_addr: s6, destination_prefix_length: 128, next_hop_address: None, interface_index: index }),
            Route::V6(Ipv6Route { destination_ip_addr: v6_zero(), destination_prefix_length: 0, next_hop_address: None, interface_index: index }),
            Route::V6(Ipv6Route { destination_ip_addr: v6_zero(), destination_prefix_length: 1, next_hop_address: None, interface_index: index }),
            Route::V6(Ipv6Route { destination_ip_addr: Ipv6Address { s0: 0x8000, ..v6_zero() }, destination_prefix_length: 1, next_hop_address: None, interface_index: index }),
        ],
        None => v4_routes,
    }
}

/// The route is on-link (no next hop) through the interface.
pub open spec fn on_link_through(r: Route, index: u32) -> bool {
    match r {
        Route::V4(x) => x.next_hop_address is None && x.interface_index == index,
        Route::V6(x) => x.next_hop_address is None && x.interface_index == index,
    }
}

/// The TUN routes send all traffic into the tunnel: both halves of the IPv4
/// space (0.0.0.0/1 and 128.0.0.0/1) and the IPv4 default route are among
/// them, and with an IPv6 server address both halves of the IPv6 space (::/1
/// and 8000::/1); every route is on-link through the TUN interface, and no
/// route is added twice.
pub proof fn law_tun_routes(server_v4: Ipv4Address, server_v6: Option<Ipv6Address>, index: u32)
    ensures
        ({
            let rs = tun_routes_spec(server_v4, server_v6, index);
            &&& rs.contains(Route::V4(Ipv4Route { destination_ip_addr: Ipv4Address { o0: 0, o1: 0, o2: 0, o3: 0 }, destination_prefix_length: 1, next_hop_address: None, interface_index: index }))
            &&& rs.contains(Route::V4(Ipv4Route { destination_ip_addr: Ipv4Address { o0: 128, o1: 0, o2: 0, o3: 0 }, destination_prefix_length: 1, next_hop_address: None, interface_index: index }))
            &&& rs.contains(Route::V4(Ipv4Route { destination_ip_addr: Ipv4Address { o0: 0, o1: 0, o2: 0, o3: 0 }, destination_prefix_length: 0, next_hop_address: None, interface_index: index }))
            &&& rs.contains(Route::V4(Ipv4Route { destination_ip_addr: server_v4, destination_prefix_length: 32, next_hop_address: None, interface_index: index }))
            &&& (server_v6 is Some ==> rs.contains(Route::V6(Ipv6Route { destination_ip_addr: Ipv6Address { s0: 0, s1: 0, s2: 0, s3: 0, s4: 0, s5: 0, s6: 0, s7: 0 }, destination_prefix_length: 1, next_hop_address: None, interface_index: index })))
            &&& (server_v6 is Some ==> rs.contains(Route::V6(Ipv6Route { destination_ip_addr: Ipv6Address { s0: 0x8000, s1: 0, s2: 0, s3: 0, s4: 0, s5: 0, s6: 0, s7: 0 }, destination_prefix_length: 1, next_hop_address: None, interface_index: index })))
            &&& rs.len() == if server_v6 is Some { 8nat } else { 4nat }
            &&& forall|i: int, j: int| 0 <= i < j < rs.len() ==> rs[i] != rs[j]
            &&& forall|i: int| 0 <= i < rs.len() ==> on_link_through(#[trigger] rs[i], index)
        }),
{
    let rs = tun_routes_spec(server_v4, server_v6, index);
    assert(rs[1] == Route::V4(Ipv4Route { destination_ip_addr: Ipv4Address { o0: 0, o1: 0, o2: 0, o3: 0 }, destination_prefix_length: 0, next_hop_address: None, interface_index: index }));
    assert(rs[2] == Route::V4(Ipv4Route { destination_ip_addr: Ipv4Address { o0: 0, o1: 0, o2: 0, o3: 0 }, destination_prefix_length: 1, next_hop_address: None, interface_index: index }));
    assert(rs[3] == Route::V4(Ipv4Route { destination_ip_addr: Ipv4Address { o0: 128, o1: 0, o2: 0, o3: 0 }, destination_prefix_length: 1, next_hop_address: None, interface_index: index }));
    assert(rs[0] == Route::V4(Ipv4Route { destination_ip_addr: server_v4, destination_prefix_length: 32, next_hop_address: None, interface_index: index }));
    if server_v6 is Some {
        assert(rs[6] == Route::V6(Ipv6Route { destination_ip_addr: Ipv6Address { s0: 0, s1: 0, s2: 0, s3: 0, s4: 0, s5: 0, s6: 0, s7: 0 }, destination_prefix_length: 1, next_hop_address: None, interface_index: index }));
        assert(rs[7] == Route::V6(Ipv6Route { destination_ip_addr: Ipv6Address { s0: 0x8000, s1: 0, s2: 0, s3: 0, s4: 0, s5: 0, s6: 0, s7: 0 }, destination_prefix_length: 1, next_hop_address: None, interface_index: index }));
    }
}

/// The routes of a TUN interface, created together and deleted together
/// (all routes of the interface).
pub struct TunRoutes {
    pub interface_index: u32,
}

impl TunRoutes {
    /// The routes to add for a TUN interface (see [tun_routes_spec]), and the
    /// handle that deletes them later.
    pub fn create(server_tunnel_ipv4_addr: Ipv4Address, server_tunnel_ipv6_addr: Option<Ipv6Address>, tun_interface_index: u32) -> (r: (TunRoutes, Vec<Route>))
        ensures
            r.0.interface_index == tun_interface_index,
            r.1@ == tun_routes_spec(server_tunnel_ipv4_addr, server_tunnel_ipv6_addr, tun_interface_index),
            r.1@.contains(Route::V4(Ipv4Route { destination_ip_addr: Ipv4Address { o0: 0, o1: 0, o2: 0, o3: 0 }, destination_prefix_length: 1, next_hop_address: None, interface_index: tun_interface_index })),
            r.1@.contains(Route::V4(Ipv4Route { destination_ip_addr: Ipv4Address { o0: 128, o1: 0, o2: 0, o3: 0 }, destination_prefix_length: 1, next_hop_address: None, interface_index: tun_interface_index })),
            forall|i: int, j: int| 0 <= i < j < r.1@.len() ==> r.1@[i] != r.1@[j],
            forall|i: int| 0 <= i < r.1@.len() ==> on_link_through(#[trigger] r.1@[i], tun_interface_index),
    {
        let mut routes: Vec<Route> = Vec::new();
        routes.push(Route::V4(create_ipv4_local_agent_route(server_tunnel_ipv4_addr, tun_interface_index)));
        routes.push(Route::V4(create_ipv4_default_route(tun_interface_index)));
        let split4 = create_ipv4_split_default_routes(tun_interface_index);
        routes.push(Route::V4(split4[0]));
        routes.push(Route::V4(split4[1]));
        match server_tunnel_ipv6_addr {
            Some(s6) => {
                routes.push(Route::V6(create_ipv6_local_agent_route(s6, tun_interface_index)));
                routes.push(Route::V6(create_ipv6_default_route(tun_interface_index)));
                let split6 = create_ipv6_split_default_routes(tun_interface_index);
                routes.push(Route::V6(split6[0]));
                routes.push(Route::V6(split6[1]));
            },
            None => {},
        }
        assert(routes@ =~= tun_routes_spec(server_tunnel_ipv4_addr, server_tunnel_ipv6_addr, tun_interface_index));
        proof {
            law_tun_routes(server_tunnel_ipv4_addr, server_tunnel_ipv6_addr, tun_interface_index);
        }
        (TunRoutes { interface_index: tun_interface_index }, routes)
    }

    /// The interface whose routes are all to be deleted.
    pub fn delete(&self) -> (r: u32)
        ensures
            r == self.interface_index,
    {
        self.interface_index
    }
}

/// Whether a text occurs in a list.
pub open spec fn has_text(list: Seq<String>, s: Seq<char>) -> bool {
    exists|i: int| 0 <= i < list.len() && (#[trigger] list[i])@ == s
}

/// The stored routes kept: non-empty texts, each once, in the order of their
/// first occurrence.
pub open spec fn distinct_non_empty(list: Seq<String>) -> Seq<Seq<char>>
    decreases list.len(),
{
    if list.len() == 0 {
        Seq::empty()
    } else {
        let init = distinct_non_empty(list.drop_last());
        let s = list.last()@;
        if s.len() == 0 || init.contains(s) {
            init
        } else {
            init.push(s)
        }
    }
}

pub open spec fn texts(list: Seq<String>) -> Seq<Seq<char>> {
    Seq::new(list.len(), |i: int| list[i]@)
}

fn contains_text(list: &Vec<String>, s: &String) -> (r: bool)
    ensures
        r == texts(list@).contains(s@),
{
    let mut i: usize = 0;
    while i < list.len()
        invariant
            0 <= i <= list.len(),
            forall|j: int| 0 <= j < i ==> (#[trigger] list@[j])@ != s@,
        decreases list.len() - i,
    {
        if list[i] == *s {
            assert(texts(list@)[i as int] == s@);
            return true;
        }
        i = i + 1;
    }
    assert forall|j: int| 0 <= j < texts(list@).len() implies texts(list@)[j] != s@ by {
        assert(texts(list@)[j] == list@[j]@);
    }
    false
}

/// Stored routes as the registry keeps them: empty texts dropped, each text
/// once, first occurrences first.
pub fn normalize_stored_routes(routes: Vec<String>) -> (r: Vec<String>)
    ensures
        texts(r@) == distinct_non_empty(routes@),
{
    let mut out: Vec<String> = Vec::new();
    let mut i: usize = 0;
    assert(routes@.take(0) =~= Seq::<String>::empty());
    assert(texts(out@) =~= Seq::<Seq<char>>::empty());
    while i < routes.len()
        invariant
            0 <= i <= routes.len(),
            texts(out@) == distinct_non_empty(routes@.take(i as int)),
        decreases routes.len() - i,
    {
        let s = &routes[i];
        proof {
            assert(routes@.take(i + 1).drop_last() =~= routes@.take(i as int));
            assert(routes@.take(i + 1).last() == routes@[i as int]);
        }
        if !s.as_str().is_empty() && !contains_text(&out, s) {
            let ghost before = out@;
            out.push(s.clone());
            proof {
                assert(texts(out@) =~= texts(before).push(s@));
            }
        }
        i = i + 1;
    }
    assert(routes@.take(routes.len() as int) =~= routes@);
    out
}

proof fn lemma_distinct_non_empty_props(list: Seq<String>)
    ensures
        forall|k: int| 0 <= k < distinct_non_empty(list).len() ==> (#[trigger] distinct_non_empty(list)[k]).len() > 0,
        forall|a: int, b: int|
            0 <= a < b < distinct_non_empty(list).len() ==> distinct_non_empty(list)[a] != distinct_non_empty(list)[b],
        forall|k: int| 0 <= k < list.len() && list[k]@.len() > 0 ==> distinct_non_empty(list).contains(#[trigger] list[k]@),
        forall|k: int| 0 <= k < distinct_non_empty(list).len() ==> has_text(list, #[trigger] distinct_non_empty(list)[k]),
    decreases list.len(),
{
    if list.len() > 0 {
        let init_list = list.drop_last();
        lemma_distinct_non_empty_props(init_list);
        let init = distinct_non_empty(init_list);
        let s = list.last()@;
        let d = distinct_non_empty(list);
        assert forall|k: int| 0 <= k < list.len() && list[k]@.len() > 0 implies d.contains(#[trigger] list[k]@) by {
            if k < list.len() - 1 {
                assert(init_list[k] == list[k]);
                assert(init.contains(list[k]@));
                if !(s.len() == 0 || init.contains(s)) {
                    let j = choose|j: int| 0 <= j < init.len() && init[j] == list[k]@;
                    assert(d[j] == list[k]@);
                }
            } else {
                if !(s.len() == 0 || init.contains(s)) {
                    assert(d[init.len() as int] == s);
                }
            }
        }
        assert forall|k: int| 0 <= k < d.len() implies has_text(list, #[trigger] d[k]) by {
            if k < init.len() {
                assert(d[k] == init[k]);
                assert(has_text(init_list, init[k]));
                let j = choose|j: int| 0 <= j < init_list.len() && (#[trigger] init_list[j])@ == init[k];
                assert(list[j] == init_list[j]);
            } else {
                assert(list[list.len() - 1]@ == s);
            }
        }
    }
}

/// Normalizing stored routes twice gives what normalizing once gives, and the
/// result holds no empty text and no text twice, and holds every non-empty
/// text of the input.
pub proof fn law_stored_routes_normalized(routes: Seq<String>, again: Seq<String>)
    requires
        texts(again) == distinct_non_empty(routes),
    ensures
        distinct_non_empty(again) == distinct_non_empty(routes),
        forall|k: int|
            0 <= k < distinct_non_empty(routes).len() ==> (#[trigger] distinct_non_empty(routes)[k]).len() > 0,
        forall|a: int, b: int|
            0 <= a < b < distinct_non_empty(routes).len() ==> distinct_non_empty(routes)[a]
                != distinct_non_empty(routes)[b],
        forall|k: int|
            0 <= k < routes.len() && routes[k]@.len() > 0 ==> distinct_non_empty(routes).contains(
                #[trigger] routes[k]@,
            ),
{
    lemma_distinct_non_empty_props(routes);
    lemma_normalize_fixpoint(again, distinct_non_empty(routes));
}

/// A list of distinct non-empty texts is kept as it is.
proof fn lemma_normalize_fixpoint(list: Seq<String>, d: Seq<Seq<char>>)
    requires
        texts(list) == d,
        forall|k: int| 0 <= k < d.len() ==> (#[trigger] d[k]).len() > 0,
        forall|a: int, b: int| 0 <= a < b < d.len() ==> d[a] != d[b],
    ensures
        distinct_non_empty(list) == d,
    decreases list.len(),
{
    if list.len() > 0 {
        let init_list = list.drop_last();
        let di = d.drop_last();
        assert(texts(init_list) =~= di) by {
            assert forall|k: int| 0 <= k < di.len() implies texts(init_list)[k] == di[k] by {
                assert(texts(list)[k] == list[k]@);
            }
        }
        assert forall|a: int, b: int| 0 <= a < b < di.len() implies di[a] != di[b] by {
            assert(d[a] == di[a]);
            assert(d[b] == di[b]);
        }
        assert forall|k: int| 0 <= k < di.len() implies (#[trigger] di[k]).len() > 0 by {
            assert(d[k] == di[k]);
        }
        lemma_normalize_fixpoint(init_list, di);
        let s = list.last()@;
        assert(texts(list)[list.len() - 1] == s);
        assert(s == d.last());
        assert(!di.contains(s)) by {
            if di.contains(s) {
                let j = choose|j: int| 0 <= j < di.len() && di[j] == s;
                assert(d[j] == di[j]);
                assert(d[j] != d[d.len() - 1]);
            }
        }
        assert(d =~= di.push(s));
    } else {
        assert(d =~= Seq::<Seq<char>>::empty());
    }
}

/// The stored routes after a route was added to the routing table: its text
/// is appended unless it is stored already, in which case nothing is written.
pub fn with_stored_route(stored: Vec<String>, route_text: String) -> (r: Option<Vec<String>>)
    ensures
        texts(stored@).contains(route_text@) ==> r is None,
        !texts(stored@).contains(route_text@) ==> (r matches Some(v) && texts(v@) == texts(stored@).push(
            route_text@,
        )),
{
    if contains_text(&stored, &route_text) {
        None
    } else {
        let mut v = stored;
        let ghost before = v@;
        v.push(route_text);
        proof {
            assert(texts(v@) =~= texts(before).push(v@[before.len() as int]@));
        }
        Some(v)
    }
}

/// How deleting a stored route went.
#[derive(Clone, Copy, PartialEq, Eq, Structural)]
pub enum StoredRouteOutcome {
    /// The text is not a route; it is dropped.
    Unreadable,
    /// The route is gone from the routing table (deleted or not found).
    Deleted,
    /// Deleting failed; the route is kept to be deleted later.
    Failed,
}

/// The stored routes to keep after deleting them all: those whose deletion failed.
pub open spec fn routes_to_reinsert(stored: Seq<String>, outcomes: Seq<StoredRouteOutcome>) -> Seq<Seq<char>>
    decreases stored.len(),
{
    if stored.len() == 0 || outcomes.len() != stored.len() {
        Seq::empty()
    } else {
        let init = routes_to_reinsert(stored.drop_last(), outcomes.drop_last());
        if outcomes.last() == StoredRouteOutcome::Failed {
            init.push(stored.last()@)
        } else {
            init
        }
    }
}

/// After trying to delete every stored route (one outcome per stored text),
/// the routes to store again: those that could not be deleted, in order.
pub fn delete_all_stored_routes(stored: Vec<String>, outcomes: &Vec<StoredRouteOutcome>) -> (r: Vec<String>)
    requires
        outcomes.len() == stored.len(),
    ensures
        texts(r@) == routes_to_reinsert(stored@, outcomes@),
{
    let mut keep: Vec<String> = Vec::new();
    let mut i: usize = 0;
    assert(texts(keep@) =~= Seq::<Seq<char>>::empty());
    assert(stored@.take(0) =~= Seq::<String>::empty());
    while i < stored.len()
        invariant
            outcomes.len() == stored.len(),
            0 <= i <= stored.len(),
            texts(keep@) == routes_to_reinsert(stored@.take(i as int), outcomes@.take(i as int)),
        decreases stored.len() - i,
    {
        proof {
            assert(stored@.take(i + 1).drop_last() =~= stored@.take(i as int));
            assert(outcomes@.take(i + 1).drop_last() =~= outcomes@.take(i as int));
            assert(stored@.take(i + 1).last() == stored@[i as int]);
            assert(outcomes@.take(i + 1).last() == outcomes@[i as int]);
        }
        if outcomes[i] == StoredRouteOutcome::Failed {
            let ghost before = keep@;
            keep.push(stored[i].clone());
            proof {
                assert(texts(keep@) =~= texts(before).push(stored@[i as int]@));
            }
        }
        i = i + 1;
    }
    assert(stored@.take(stored.len() as int) =~= stored@);
    assert(outcomes@.take(outcomes.len() as int) =~= outcomes@);
    keep
}

/// The stored routes kept when a route leaves the routing table: texts that
/// read as another route. `parsed` holds what each stored text reads as.
pub open spec fn routes_without(stored: Seq<String>, parsed: Seq<Option<Route>>, route: Route) -> Seq<Seq<char>>
    decreases stored.len(),
{
    if stored.len() == 0 || parsed.len() != stored.len() {
        Seq::empty()
    } else {
        let init = routes_without(stored.drop_last(), parsed.drop_last(), route);
        if parsed.last() matches Some(p) && p != route {
            init.push(stored.last()@)
        } else {
            init
        }
    }
}

/// Removes a deleted route from the stored routes; texts that are not routes
/// are dropped as well.
pub fn remove_from_stored_routes(stored: Vec<String>, parsed: &Vec<Option<Route>>, route: Route) -> (r: Vec<String>)
    requires
        parsed.len() == stored.len(),
    ensures
        texts(r@) == routes_without(stored@, parsed@, route),
{
    let mut keep: Vec<String> = Vec::new();
    let mut i: usize = 0;
    assert(texts(keep@) =~= Seq::<Seq<char>>::empty());
    assert(stored@.take(0) =~= Seq::<String>::empty());
    while i < stored.len()
        invariant
            parsed.len() == stored.len(),
            0 <= i <= stored.len(),
            texts(keep@) == routes_without(stored@.take(i as int), parsed@.take(i as int), route),
        decreases stored.len() - i,
    {
        proof {
            assert(stored@.take(i + 1).drop_last() =~= stored@.take(i as int));
            assert(parsed@.take(i + 1).drop_last() =~= parsed@.take(i as int));
            assert(stored@.take(i + 1).last() == stored@[i as int]);
            assert(parsed@.take(i + 1).last() == parsed@[i as int]);
        }
        let keep_it = match parsed[i] {
            Some(p) => p != route,
            None => false,
        };
        if keep_it {
            let ghost before = keep@;
            keep.push(stored[i].clone());
            proof {
                assert(texts(keep@) =~= texts(before).push(stored@[i as int]@));
            }
        }
        i = i + 1;
    }
    assert(stored@.take(stored.len() as int) =~= stored@);
    assert(parsed@.take(parsed.len() as int) =~= parsed@);
    keep
}

/// Server routes shared between connections: each address has one route,
/// created by the first user and deleted when the last user leaves.
pub struct RouteRegistry {
    users: Vec<(IpAddress, u64)>,
}

impl View for RouteRegistry {
    type V = Seq<(IpAddress, u64)>;

    closed spec fn view(&self) -> Seq<(IpAddress, u64)> {
        self.users@
    }
}

/// The number of users of the route to an address.
pub open spec fn user_count(users: Seq<(IpAddress, u64)>, ip: IpAddress) -> nat
    decreases users.len(),
{
    if users.len() == 0 {
        0
    } else if users.last().0 == ip {
        users.last().1 as nat
    } else {
        user_count(users.drop_last(), ip)
    }
}

/// Each address occurs once, with at least one user.
pub open spec fn registry_wf(users: Seq<(IpAddress, u64)>) -> bool {
    &&& forall|i: int| 0 <= i < users.len() ==> (#[trigger] users[i]).1 > 0
    &&& forall|i: int, j: int| 0 <= i < j < users.len() ==> users[i].0 != users[j].0
}

proof fn lemma_user_count_index(users: Seq<(IpAddress, u64)>, ip: IpAddress, i: int)
    requires
        registry_wf(users),
        0 <= i < users.len(),
        users[i].0 == ip,
    ensures
        user_count(users, ip) == users[i].1,
    decreases users.len(),
{
    if i < users.len() - 1 {
        assert(users.last().0 != ip);
        let d = users.drop_last();
        assert(registry_wf(d)) by {
            assert forall|a: int| 0 <= a < d.len() implies (#[trigger] d[a]).1 > 0 by {
                assert(d[a] == users[a]);
            }
            assert forall|a: int, b: int| 0 <= a < b < d.len() implies d[a].0 != d[b].0 by {
                assert(d[a] == users[a]);
                assert(d[b] == users[b]);
            }
        }
        assert(d[i] == users[i]);
        lemma_user_count_index(d, ip, i);
    }
}

proof fn lemma_user_count_absent(users: Seq<(IpAddress, u64)>, ip: IpAddress)
    requires
        forall|i: int| 0 <= i < users.len() ==> (#[trigger] users[i]).0 != ip,
    ensures
        user_count(users, ip) == 0,
    decreases users.len(),
{
    if users.len() > 0 {
        let d = users.drop_last();
        assert forall|i: int| 0 <= i < d.len() implies (#[trigger] d[i]).0 != ip by {
            assert(d[i] == users[i]);
        }
        lemma_user_count_absent(d, ip);
    }
}

impl RouteRegistry {
    /// No routes in use.
    pub fn new() -> (r: RouteRegistry)
        ensures
            r@ == Seq::<(IpAddress, u64)>::empty(),
    {
        RouteRegistry { users: Vec::new() }
    }

    pub closed spec fn wf(&self) -> bool {
        registry_wf(self.users@)
    }

    fn find(&self, ip: IpAddress) -> (r: Option<usize>)
        ensures
            match r {
                Some(i) => i < self@.len() && self@[i as int].0 == ip,
                None => forall|i: int| 0 <= i < self@.len() ==> (#[trigger] self@[i]).0 != ip,
            },
    {
        let mut i: usize = 0;
        while i < self.users.len()
            invariant
                0 <= i <= self.users.len(),
                forall|j: int| 0 <= j < i ==> (#[trigger] self.users@[j]).0 != ip,
            decreases self.users.len() - i,
        {
            if self.users[i].0 == ip {
                return Some(i);
            }
            i = i + 1;
        }
        None
    }

    /// One more user of the route to `ip`; returns whether the route is to be
    /// created now (no one used it before).
    pub fn acquire(&mut self, ip: IpAddress) -> (create: bool)
        requires
            old(self).wf(),
            user_count(old(self)@, ip) < u64::MAX,
        ensures
            final(self).wf(),
            create == (user_count(old(self)@, ip) == 0),
            user_count(final(self)@, ip) == user_count(old(self)@, ip) + 1,
            forall|other: IpAddress| other != ip ==> user_count(final(self)@, other) == user_count(old(self)@, other),
    {
        match self.find(ip) {
            Some(i) => {
                proof {
                    lemma_user_count_index(self@, ip, i as int);
                }
                let (addr, n) = self.users[i];
                let ghost before = self.users@;
                self.users.set(i, (addr, n + 1));
                proof {
                    let now = self.users@;
                    assert(registry_wf(now)) by {
                        assert forall|a: int| 0 <= a < now.len() implies (#[trigger] now[a]).1 > 0 by {
                            if a != i {
                                assert(now[a] == before[a]);
                            }
                        }
                        assert forall|a: int, b: int| 0 <= a < b < now.len() implies now[a].0 != now[b].0 by {
                            assert(now[a].0 == before[a].0);
                            assert(now[b].0 == before[b].0);
                        }
                    }
                    lemma_user_count_index(now, ip, i as int);
                    assert forall|other: IpAddress| other != ip implies user_count(now, other) == user_count(
                        before,
                        other,
                    ) by {
                        lemma_user_count_same_other(before, now, i as int, other);
                    }
                }
                false
            },
            None => {
                proof {
                    lemma_user_count_absent(self@, ip);
                }
                let ghost before = self.users@;
                self.users.push((ip, 1));
                proof {
                    let now = self.users@;
                    assert(now.drop_last() =~= before);
                    assert(registry_wf(now)) by {
                        assert forall|a: int| 0 <= a < now.len() implies (#[trigger] now[a]).1 > 0 by {
                            if a < before.len() {
                                assert(now[a] == before[a]);
                            }
                        }
                        assert forall|a: int, b: int| 0 <= a < b < now.len() implies now[a].0 != now[b].0 by {
                            assert(now[a] == before[a]);
                            if b < before.len() {
                                assert(now[b] == before[b]);
                            }
                        }
                    }
                }
                true
            },
        }
    }

    /// A user of the route to `ip` leaves; returns whether the route is to be
    /// deleted now (that was the last user).
    pub fn release(&mut self, ip: IpAddress) -> (delete: bool)
        requires
            old(self).wf(),
        ensures
            final(self).wf(),
            delete == (user_count(old(self)@, ip) == 1),
            user_count(final(self)@, ip) == if user_count(old(self)@, ip) == 0 {
                0
            } else {
                (user_count(old(self)@, ip) - 1) as nat
            },
            forall|other: IpAddress| other != ip ==> user_count(final(self)@, other) == user_count(old(self)@, other),
    {
        match self.find(ip) {
            Some(i) => {
                proof {
                    lemma_user_count_index(self@, ip, i as int);
                }
                let (addr, n) = self.users[i];
                let ghost before = self.users@;
                if n == 1 {
                    self.users.remove(i);
                    proof {
                        let now = self.users@;
                        assert(now =~= before.remove(i as int));
                        assert(registry_wf(now)) by {
                            assert forall|a: int| 0 <= a < now.len() implies (#[trigger] now[a]).1 > 0 by {
                                if a < i { assert(now[a] == before[a]); } else { assert(now[a] == before[a + 1]); }
                            }
                            assert forall|a: int, b: int| 0 <= a < b < now.len() implies now[a].0 != now[b].0 by {
                                let a2 = if a < i { a } else { a + 1 };
                                let b2 = if b < i { b } else { b + 1 };
                                assert(now[a] == before[a2]);
                                assert(now[b] == before[b2]);
                            }
                        }
                        assert forall|j: int| 0 <= j < now.len() implies (#[trigger] now[j]).0 != ip by {
                            if j < i { assert(now[j] == before[j]); } else { assert(now[j] == before[j + 1]); }
                        }
                        lemma_user_count_absent(now, ip);
                        assert forall|other: IpAddress| other != ip implies user_count(now, other) == user_count(
                            before,
                            other,
                        ) by {
                            lemma_user_count_remove_other(before, i as int, other);
                        }
                    }
                    true
                } else {
                    self.users.set(i, (addr, n - 1));
                    proof {
                        let now = self.users@;
                        assert(registry_wf(now)) by {
                            assert forall|a: int| 0 <= a < now.len() implies (#[trigger] now[a]).1 > 0 by {
                                if a != i {
                                    assert(now[a] == before[a]);
                                }
                            }
                            assert forall|a: int, b: int| 0 <= a < b < now.len() implies now[a].0 != now[b].0 by {
                                assert(now[a].0 == before[a].0);
                                assert(now[b].0 == before[b].0);
                            }
                        }
                        lemma_user_count_index(now, ip, i as int);
                        assert forall|other: IpAddress| other != ip implies user_count(now, other) == user_count(
                            before,
                            other,
                        ) by {
                            lemma_user_count_same_other(before, now, i as int, other);
                        }
                    }
                    false
                }
            },
            None => {
                proof {
                    lemma_user_count_absent(self@, ip);
                }
                false
            },
        }
    }
}

proof fn lemma_user_count_same_other(before: Seq<(IpAddress, u64)>, now: Seq<(IpAddress, u64)>, i: int, other: IpAddress)
    requires
        before.len() == now.len(),
        0 <= i < before.len(),
        before[i].0 == now[i].0,
        before[i].0 != other,
        forall|j: int| 0 <= j < before.len() && j != i ==> before[j] == now[j],
    ensures
        user_count(now, other) == user_count(before, other),
    decreases before.len(),
{
    if before.len() > 0 {
        if i < before.len() - 1 {
            lemma_user_count_same_other(before.drop_last(), now.drop_last(), i, other);
        } else {
            assert(before.drop_last() =~= now.drop_last());
        }
    }
}

proof fn lemma_user_count_remove_other(before: Seq<(IpAddress, u64)>, i: int, other: IpAddress)
    requires
        0 <= i < before.len(),
        before[i].0 != other,
    ensures
        user_count(before.remove(i), other) == user_count(before, other),
    decreases before.len(),
{
    if i == before.len() - 1 {
        assert(before.remove(i) =~= before.drop_last());
    } else {
        assert(before.remove(i).drop_last() =~= before.drop_last().remove(i));
        assert(before.remove(i).last() == before.last());
        lemma_user_count_remove_other(before.drop_last(), i, other);
    }
}

/// A route acquired and released again leaves every address with the users
/// it had. `r1` is the registry after `acquire(ip)` on `r0`, as its contract
/// gives it, and `r2` the registry after `release(ip)` on `r1`.
pub proof fn law_acquire_release_restores(
    r0: Seq<(IpAddress, u64)>,
    r1: Seq<(IpAddress, u64)>,
    r2: Seq<(IpAddress, u64)>,
    ip: IpAddress,
)
    requires
        user_count(r1, ip) == user_count(r0, ip) + 1,
        forall|other: IpAddress| other != ip ==> user_count(r1, other) == user_count(r0, other),
        user_count(r2, ip) == if user_count(r1, ip) == 0 {
            0
        } else {
            (user_count(r1, ip) - 1) as nat
        },
        forall|other: IpAddress| other != ip ==> user_count(r2, other) == user_count(r1, other),
    ensures
        forall|a: IpAddress| user_count(r2, a) == user_count(r0, a),
{
}


/// One step on the registry, as the contracts of `acquire` and `release` give
/// it: `acquire` is whether the step acquires (else it releases) the route to
/// `ip`, and `flag` what the call returned (create, resp. delete).
pub open spec fn registry_step(
    before: Seq<(IpAddress, u64)>,
    after: Seq<(IpAddress, u64)>,
    acquire: bool,
    ip: IpAddress,
    flag: bool,
) -> bool {
    &&& forall|other: IpAddress| other != ip ==> user_count(after, other) == user_count(before, other)
    &&& if acquire {
        &&& flag == (user_count(before, ip) == 0)
        &&& user_count(after, ip) == user_count(before, ip) + 1
    } else {
        &&& flag == (user_count(before, ip) == 1)
        &&& user_count(after, ip) == if user_count(before, ip) == 0 {
            0
        } else {
            (user_count(before, ip) - 1) as nat
        }
    }
}

/// Routes to `ip` created minus routes to `ip` deleted over the first `k`
/// steps.
pub open spec fn live_routes(ops: Seq<(bool, IpAddress)>, flags: Seq<bool>, ip: IpAddress, k: int) -> int
    decreases k,
{
    if k <= 0 {
        0
    } else {
        let (acquire, addr) = ops[k - 1];
        live_routes(ops, flags, ip, k - 1) + if addr == ip && flags[k - 1] {
            if acquire { 1int } else { -1int }
        } else {
            0int
        }
    }
}

/// Starting from no routes, any run of acquires and releases leaves at most
/// one route to each address: one exactly while the address has users, none
/// otherwise. `rs[i]` is the registry before step `i`, `ops[i]` the step and
/// `flags[i]` what it returned.
pub proof fn law_one_route_per_address(
    rs: Seq<Seq<(IpAddress, u64)>>,
    ops: Seq<(bool, IpAddress)>,
    flags: Seq<bool>,
    ip: IpAddress,
)
    requires
        rs.len() == ops.len() + 1,
        flags.len() == ops.len(),
        forall|a: IpAddress| user_count(rs[0], a) == 0,
        forall|i: int| 0 <= i < ops.len() ==> #[trigger] registry_step(rs[i], rs[i + 1], ops[i].0, ops[i].1, flags[i]),
    ensures
        forall|k: int| 0 <= k <= ops.len() ==> #[trigger] live_routes(ops, flags, ip, k) == if user_count(rs[k], ip) > 0 {
            1int
        } else {
            0int
        },
{
    assert forall|k: int| 0 <= k <= ops.len() implies #[trigger] live_routes(ops, flags, ip, k) == if user_count(rs[k], ip) > 0 {
        1int
    } else {
        0int
    } by {
        lemma_live_routes(rs, ops, flags, ip, k);
    }
}

proof fn lemma_live_routes(
    rs: Seq<Seq<(IpAddress, u64)>>,
    ops: Seq<(bool, IpAddress)>,
    flags: Seq<bool>,
    ip: IpAddress,
    k: int,
)
    requires
        rs.len() == ops.len() + 1,
        flags.len() == ops.len(),
        0 <= k <= ops.len(),
        forall|a: IpAddress| user_count(rs[0], a) == 0,
        forall|i: int| 0 <= i < ops.len() ==> #[trigger] registry_step(rs[i], rs[i + 1], ops[i].0, ops[i].1, flags[i]),
    ensures
        live_routes(ops, flags, ip, k) == if user_count(rs[k], ip) > 0 {
            1int
        } else {
            0int
        },
    decreases k,
{
    if k > 0 {
        lemma_live_routes(rs, ops, flags, ip, k - 1);
        assert(registry_step(rs[k - 1], rs[(k - 1) + 1], ops[k - 1].0, ops[k - 1].1, flags[k - 1]));
    }
}

} // verus!
