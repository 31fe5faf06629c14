use vstd::prelude::*;
use vstd::string::StringExecFns;
use crate::connection::ConnectivityEvent;
use crate::net::{IpAddress, Ipv4Address, Ipv6Address};
use crate::text::{decimal_chars, decimal_string};

verus! {

/// An interface that reaches the internet over IPv4.
#[derive(Clone, Copy, PartialEq, Eq, Structural)]
pub struct Ipv4InternetInterface {
    pub interface_metric: u32,
    pub default_route_metric: u32,
    pub local_ip: Ipv4Address,
    pub interface_index: u32,
    pub next_hop: Ipv4Address,
    pub is_virtual: bool,
}

/// An interface that reaches the internet over IPv6.
#[derive(Clone, Copy, PartialEq, Eq, Structural)]
pub struct Ipv6InternetInterface {
    pub interface_metric: u32,
    pub default_route_metric: u32,
    pub local_ip: Ipv6Address,
    pub interface_index: u32,
    pub next_hop: Ipv6Address,
    pub is_virtual: bool,
}

/// An internet interface of either family.
#[derive(Clone, Copy, PartialEq, Eq, Structural)]
pub enum InternetInterface {
    V4(Ipv4InternetInterface),
    V6(Ipv6InternetInterface),
}

impl Ipv4InternetInterface {
    /// The metric that ranks interfaces: interface metric plus route metric.
    pub open spec fn metric_sum(self) -> int {
        self.interface_metric + self.default_route_metric
    }

    pub fn effective_metric(&self) -> (r: u32)
        requires
            self.metric_sum() <= u32::MAX,
        ensures
            r == self.metric_sum(),
    {
        self.interface_metric + self.default_route_metric
    }
}

impl Ipv6InternetInterface {
    /// The metric that ranks interfaces: interface metric plus route metric.
    pub open spec fn metric_sum(self) -> int {
        self.interface_metric + self.default_route_metric
    }

    pub fn effective_metric(&self) -> (r: u32)
        requires
            self.metric_sum() <= u32::MAX,
        ensures
            r == self.metric_sum(),
    {
        self.interface_metric + self.default_route_metric
    }
}

/// How much an interface search logs.
pub enum InterfaceFinderLogMode {
    ErrorsOnly,
    Verbose { caller_name: String },
}

impl InterfaceFinderLogMode {
    /// Verbose logging on behalf of the named caller.
    pub fn create_verbose(caller_name: &str) -> (r: InterfaceFinderLogMode)
        ensures
            r matches InterfaceFinderLogMode::Verbose { caller_name: c } && c@ == caller_name@,
    {
        InterfaceFinderLogMode::Verbose { caller_name: caller_name.to_string() }
    }
}

/// Whether the interface of a route is the library's own TUN adapter.
#[derive(Clone, Copy, PartialEq, Eq, Structural)]
pub enum AdapterIdentity {
    /// Another adapter.
    Other,
    /// The library's own TUN adapter.
    OwnTun,
    /// Its identity could not be read.
    Unknown,
}

/// Status of the interface of a route.
#[derive(Clone, Copy, PartialEq, Eq, Structural)]
pub struct InterfaceStatus {
    /// Administratively up, operationally up and connected.
    pub is_up: bool,
    pub is_virtual: bool,
}

/// A row of the routing table with what the system reports of its interface.
#[derive(Clone, Copy, PartialEq, Eq, Structural)]
pub struct RouteRow {
    pub prefix_length: u8,
    pub interface_luid: u64,
    pub interface_index: u32,
    pub metric: u32,
    /// The next hop, when it is an IPv4 or IPv6 address.
    pub next_hop: Option<IpAddress>,
    pub adapter: AdapterIdentity,
    /// The interface status, when it could be read.
    pub status: Option<InterfaceStatus>,
    /// The interface's IPv4 metric, when it could be read.
    pub ipv4_metric: Option<u32>,
    /// The interface's IPv6 metric, when it could be read.
    pub ipv6_metric: Option<u32>,
}

/// A row of the unicast address table.
#[derive(Clone, Copy, PartialEq, Eq, Structural)]
pub struct AddressRow {
    pub interface_luid: u64,
    /// The address, when it is an IPv4 or IPv6 address.
    pub address: Option<IpAddress>,
    /// Duplicate address detection is over and the address is preferred.
    pub preferred: bool,
}

/// The usable addresses of an interface: preferred ones, in table order.
pub open spec fn addresses_of(addrs: Seq<AddressRow>, luid: u64) -> Seq<IpAddress>
    decreases addrs.len(),
{
    if addrs.len() == 0 {
        Seq::empty()
    } else {
        let init = addresses_of(addrs.drop_last(), luid);
        let a = addrs.last();
        if a.preferred && a.interface_luid == luid && a.address is Some {
            init.push(a.address->0)
        } else {
            init
        }
    }
}

/// The internet interface a default route and a local address make, if the
/// next hop is of the address's family and the interface metric is known.
pub open spec fn interface_for(route: RouteRow, ip: IpAddress, is_virtual: bool) -> Option<InternetInterface> {
    match (ip, route.next_hop) {
        (IpAddress::V4(local), Some(IpAddress::V4(hop))) => match route.ipv4_metric {
            Some(m) => Some(InternetInterface::V4(Ipv4InternetInterface {
                interface_metric: m,
                default_route_metric: route.metric,
                local_ip: local,
                interface_index: route.interface_index,
                next_hop: hop,
                is_virtual,
            })),
            None => None,
        },
        (IpAddress::V6(local), Some(IpAddress::V6(hop))) => match route.ipv6_metric {
            Some(m) => Some(InternetInterface::V6(Ipv6InternetInterface {
                interface_metric: m,
                default_route_metric: route.metric,
                local_ip: local,
                interface_index: route.interface_index,
                next_hop: hop,
                is_virtual,
            })),
            None => None,
        },
        _ => None,
    }
}

/// A default route through an up interface other than the TUN adapter.
pub open spec fn route_usable(route: RouteRow) -> bool {
    &&& route.prefix_length == 0
    &&& route.adapter == AdapterIdentity::Other
    &&& route.status matches Some(st) && st.is_up
}

/// The internet interfaces of some local addresses through a route.
pub open spec fn interfaces_of(route: RouteRow, ips: Seq<IpAddress>) -> Seq<InternetInterface>
    decreases ips.len(),
{
    if ips.len() == 0 {
        Seq::empty()
    } else {
        let init = interfaces_of(route, ips.drop_last());
        match interface_for(route, ips.last(), route.status->0.is_virtual) {
            Some(i) => init.push(i),
            None => init,
        }
    }
}

/// The internet interfaces of a route.
pub open spec fn route_candidates(route: RouteRow, addrs: Seq<AddressRow>) -> Seq<InternetInterface> {
    if route_usable(route) {
        interfaces_of(route, addresses_of(addrs, route.interface_luid))
    } else {
        Seq::empty()
    }
}

/// The internet interfaces, in routing table order.
pub open spec fn candidates(routes: Seq<RouteRow>, addrs: Seq<AddressRow>) -> Seq<InternetInterface>
    decreases routes.len(),
{
    if routes.len() == 0 {
        Seq::empty()
    } else {
        candidates(routes.drop_last(), addrs) + route_candidates(routes.last(), addrs)
    }
}

/// The interface ranks before another: a real one before a virtual one, then
/// the lower metric.
pub open spec fn ranks_before(virt_a: bool, metric_a: int, virt_b: bool, metric_b: int) -> bool {
    (!virt_a && virt_b) || (virt_a == virt_b && metric_a < metric_b)
}

/// The best IPv4 interface: the first of the best ranked ones.
pub open spec fn best_v4(c: Seq<InternetInterface>) -> Option<Ipv4InternetInterface>
    decreases c.len(),
{
    if c.len() == 0 {
        None
    } else {
        let prev = best_v4(c.drop_last());
        match c.last() {
            InternetInterface::V4(x) => match prev {
                None => Some(x),
                Some(b) => if ranks_before(x.is_virtual, x.metric_sum(), b.is_virtual, b.metric_sum()) {
                    Some(x)
                } else {
                    Some(b)
                },
            },
            _ => prev,
        }
    }
}

/// The best IPv6 interface: the first of the best ranked ones.
pub open spec fn best_v6(c: Seq<InternetInterface>) -> Option<Ipv6InternetInterface>
    decreases c.len(),
{
    if c.len() == 0 {
        None
    } else {
        let prev = best_v6(c.drop_last());
        match c.last() {
            InternetInterface::V6(x) => match prev {
                None => Some(x),
                Some(b) => if ranks_before(x.is_virtual, x.metric_sum(), b.is_virtual, b.metric_sum()) {
                    Some(x)
                } else {
                    Some(b)
                },
            },
            _ => prev,
        }
    }
}

fn interface_for_exec(route: &RouteRow, ip: IpAddress, is_virtual: bool) -> (r: Option<InternetInterface>)
    ensures
        r == interface_for(*route, ip, is_virtual),
{
    match (ip, route.next_hop) {
        (IpAddress::V4(local), Some(IpAddress::V4(hop))) => match route.ipv4_metric {
            Some(m) => Some(
                InternetInterface::V4(
                    Ipv4InternetInterface {
                        interface_metric: m,
                        default_route_metric: route.metric,
                        local_ip: local,
                        interface_index: route.interface_index,
                        next_hop: hop,
                        is_virtual,
                    },
                ),
            ),
            None => None,
        },
        (IpAddress::V6(local), Some(IpAddress::V6(hop))) => match route.ipv6_metric {
            Some(m) => Some(
                InternetInterface::V6(
                    Ipv6InternetInterface {
                        interface_metric: m,
                        default_route_metric: route.metric,
                        local_ip: local,
                        interface_index: route.interface_index,
                        next_hop: hop,
                        is_virtual,
                    },
                ),
            ),
            None => None,
        },
        _ => None,
    }
}

/// The internet interfaces one default route offers, in address table order.
fn internet_interfaces_from_route(route: &RouteRow, addrs: &Vec<AddressRow>) -> (r: Vec<InternetInterface>)
    ensures
        r@ == route_candidates(*route, addrs@),
{
    let mut out: Vec<InternetInterface> = Vec::new();
    let usable = route.prefix_length == 0 && route.adapter == AdapterIdentity::Other && match route.status {
        Some(st) => st.is_up,
        None => false,
    };
    if !usable {
        assert(out@ =~= Seq::<InternetInterface>::empty());
        return out;
    }
    let is_virtual = match route.status {
        Some(st) => st.is_virtual,
        None => false,
    };
    let ghost luid = route.interface_luid;
    let ghost mut ips: Seq<IpAddress> = Seq::empty();
    let mut j: usize = 0;
    assert(addrs@.take(0) =~= Seq::<AddressRow>::empty());
    while j < addrs.len()
        invariant
            0 <= j <= addrs.len(),
            route_usable(*route),
            is_virtual == route.status->0.is_virtual,
            luid == route.interface_luid,
            ips == addresses_of(addrs@.take(j as int), luid),
            out@ == interfaces_of(*route, ips),
        decreases addrs.len() - j,
    {
        let a = addrs[j];
        proof {
            assert(addrs@.take(j + 1).drop_last() =~= addrs@.take(j as int));
            assert(addrs@.take(j + 1).last() == a);
        }
        if a.preferred && a.interface_luid == route.interface_luid {
            match a.address {
                Some(ip) => {
                    proof {
                        let next = ips.push(ip);
                        assert(next.drop_last() =~= ips);
                        ips = next;
                    }
                    match interface_for_exec(route, ip, is_virtual) {
                        Some(i) => out.push(i),
                        None => {},
                    }
                },
                None => {},
            }
        }
        j = j + 1;
    }
    assert(addrs@.take(addrs.len() as int) =~= addrs@);
    out
}

/// The internet interfaces of all default routes, in routing table order.
pub fn get_internet_interfaces_from_routes(routes: &Vec<RouteRow>, addrs: &Vec<AddressRow>) -> (r: Vec<InternetInterface>)
    ensures
        r@ == candidates(routes@, addrs@),
{
    let mut out: Vec<InternetInterface> = Vec::new();
    let mut i: usize = 0;
    assert(routes@.take(0) =~= Seq::<RouteRow>::empty());
    while i < routes.len()
        invariant
            0 <= i <= routes.len(),
            out@ == candidates(routes@.take(i as int), addrs@),
        decreases routes.len() - i,
    {
        let more = internet_interfaces_from_route(&routes[i], addrs);
        proof {
            assert(routes@.take(i + 1).drop_last() =~= routes@.take(i as int));
            assert(routes@.take(i + 1).last() == routes@[i as int]);
        }
        let mut k: usize = 0;
        let ghost start = out@;
        while k < more.len()
            invariant
                0 <= k <= more.len(),
                out@ == start + more@.take(k as int),
            decreases more.len() - k,
        {
            out.push(more[k]);
            k = k + 1;
            assert(out@ =~= start + more@.take(k as int));
        }
        assert(more@.take(more.len() as int) =~= more@);
        i = i + 1;
    }
    assert(routes@.take(routes.len() as int) =~= routes@);
    out
}

/// The family rank of an interface: IPv4 before IPv6.
pub open spec fn family_rank(i: InternetInterface) -> int {
    match i {
        InternetInterface::V4(_) => 4,
        InternetInterface::V6(_) => 6,
    }
}

/// Whether an interface is virtual.
pub open spec fn interface_is_virtual(i: InternetInterface) -> bool {
    match i {
        InternetInterface::V4(x) => x.is_virtual,
        InternetInterface::V6(x) => x.is_virtual,
    }
}

/// The effective metric of an interface, as a mathematical integer.
pub open spec fn interface_metric_sum(i: InternetInterface) -> int {
    match i {
        InternetInterface::V4(x) => x.metric_sum(),
        InternetInterface::V6(x) => x.metric_sum(),
    }
}

/// `a` may stand before `b` in the ordered list: IPv4 before IPv6, then a
/// real interface before a virtual one, then the lower effective metric.
pub open spec fn orders_no_later(a: InternetInterface, b: InternetInterface) -> bool {
    ||| family_rank(a) < family_rank(b)
    ||| family_rank(a) == family_rank(b) && !interface_is_virtual(a) && interface_is_virtual(b)
    ||| family_rank(a) == family_rank(b) && interface_is_virtual(a) == interface_is_virtual(b)
        && interface_metric_sum(a) <= interface_metric_sum(b)
}

/// `x` inserted into an ordered list before the first element it may stand
/// before.
pub open spec fn insert_ordered(x: InternetInterface, t: Seq<InternetInterface>) -> Seq<InternetInterface>
    decreases t.len(),
{
    if t.len() == 0 {
        seq![x]
    } else if orders_no_later(x, t[0]) {
        seq![x] + t
    } else {
        seq![t[0]] + insert_ordered(x, t.drop_first())
    }
}

/// The interfaces ordered by family, virtual flag and effective metric; those
/// that tie keep their order (a stable sort).
pub open spec fn ordered_interfaces(s: Seq<InternetInterface>) -> Seq<InternetInterface>
    decreases s.len(),
{
    if s.len() == 0 {
        Seq::empty()
    } else {
        insert_ordered(s[0], ordered_interfaces(s.drop_first()))
    }
}

/// Each interface may stand before the next.
pub open spec fn is_ordered(s: Seq<InternetInterface>) -> bool {
    forall|i: int| 0 <= i < s.len() - 1 ==> #[trigger] orders_no_later(s[i], s[i + 1])
}

proof fn lemma_insert_at(x: InternetInterface, t: Seq<InternetInterface>, j: int)
    requires
        0 <= j <= t.len(),
        forall|k: int| 0 <= k < j ==> !#[trigger] orders_no_later(x, t[k]),
        j < t.len() ==> orders_no_later(x, t[j]),
    ensures
        insert_ordered(x, t) == t.take(j) + seq![x] + t.skip(j),
    decreases j,
{
    if j == 0 {
        assert(t.take(0) + seq![x] + t.skip(0) =~= seq![x] + t);
        if t.len() > 0 {
            assert(orders_no_later(x, t[0]));
        }
    } else {
        assert(!orders_no_later(x, t[0]));
        let r = t.drop_first();
        assert forall|k: int| 0 <= k < j - 1 implies !#[trigger] orders_no_later(x, r[k]) by {
            assert(r[k] == t[k + 1]);
        }
        if j - 1 < r.len() {
            assert(r[j - 1] == t[j]);
        }
        lemma_insert_at(x, r, j - 1);
        assert(seq![t[0]] + (r.take(j - 1) + seq![x] + r.skip(j - 1)) =~= t.take(j) + seq![x] + t.skip(j));
    }
}

fn orders_no_later_exec(a: &InternetInterface, b: &InternetInterface) -> (r: bool)
    ensures
        r == orders_no_later(*a, *b),
{
    let (fa, va, ma): (u8, bool, u64) = match a {
        InternetInterface::V4(x) => (4, x.is_virtual, x.interface_metric as u64 + x.default_route_metric as u64),
        InternetInterface::V6(x) => (6, x.is_virtual, x.interface_metric as u64 + x.default_route_metric as u64),
    };
    let (fb, vb, mb): (u8, bool, u64) = match b {
        InternetInterface::V4(x) => (4, x.is_virtual, x.interface_metric as u64 + x.default_route_metric as u64),
        InternetInterface::V6(x) => (6, x.is_virtual, x.interface_metric as u64 + x.default_route_metric as u64),
    };
    fa < fb || (fa == fb && !va && vb) || (fa == fb && va == vb && ma <= mb)
}

/// Inserts `x` into an ordered list before the first element it may stand
/// before.
fn insert_ordered_exec(x: InternetInterface, t: &mut Vec<InternetInterface>)
    ensures
        final(t)@ == insert_ordered(x, old(t)@),
{
    let mut j: usize = 0;
    while j < t.len()
        invariant
            0 <= j <= t.len(),
            forall|k: int| 0 <= k < j ==> !#[trigger] orders_no_later(x, t@[k]),
        ensures
            0 <= j <= t.len(),
            forall|k: int| 0 <= k < j ==> !#[trigger] orders_no_later(x, t@[k]),
            j < t.len() ==> orders_no_later(x, t@[j as int]),
        decreases t.len() - j,
    {
        if orders_no_later_exec(&x, &t[j]) {
            break;
        }
        j = j + 1;
    }
    proof {
        lemma_insert_at(x, t@, j as int);
    }
    t.insert(j, x);
    assert(t@ =~= old(t)@.take(j as int) + seq![x] + old(t)@.skip(j as int));
}

/// The interfaces in the order of [ordered_interfaces].
fn order_interfaces(c: Vec<InternetInterface>) -> (r: Vec<InternetInterface>)
    ensures
        r@ == ordered_interfaces(c@),
{
    let mut out: Vec<InternetInterface> = Vec::new();
    let mut i: usize = c.len();
    assert(c@.skip(c.len() as int) =~= Seq::<InternetInterface>::empty());
    while i > 0
        invariant
            0 <= i <= c.len(),
            out@ == ordered_interfaces(c@.skip(i as int)),
        decreases i,
    {
        i = i - 1;
        proof {
            assert(c@.skip(i as int).drop_first() =~= c@.skip(i + 1));
            assert(c@.skip(i as int)[0] == c@[i as int]);
        }
        insert_ordered_exec(c[i], &mut out);
    }
    assert(c@.skip(0) =~= c@);
    out
}

/// The internet interfaces of all default routes, ordered: IPv4 before IPv6,
/// real before virtual, then the lowest effective metric, ties in routing
/// table order. `None` when there is none.
pub fn get_potential_internet_interfaces(routes: &Vec<RouteRow>, addrs: &Vec<AddressRow>) -> (r: Option<Vec<InternetInterface>>)
    ensures
        r is None <==> candidates(routes@, addrs@).len() == 0,
        r matches Some(v) ==> v@ == ordered_interfaces(candidates(routes@, addrs@)),
{
    let c = get_internet_interfaces_from_routes(routes, addrs);
    if c.len() == 0 {
        None
    } else {
        Some(order_interfaces(c))
    }
}

proof fn lemma_insert_ordered_keeps_order(x: InternetInterface, t: Seq<InternetInterface>)
    requires
        is_ordered(t),
    ensures
        is_ordered(insert_ordered(x, t)),
        insert_ordered(x, t).len() == t.len() + 1,
        insert_ordered(x, t).len() > 0 && (insert_ordered(x, t)[0] == x || (t.len() > 0
            && insert_ordered(x, t)[0] == t[0])),
        insert_ordered(x, t).to_multiset() == t.to_multiset().insert(x),
    decreases t.len(),
{
    broadcast use vstd::seq_lib::group_to_multiset_ensures;
    if t.len() == 0 {
        assert(seq![x] =~= Seq::<InternetInterface>::empty().push(x));
    } else if orders_no_later(x, t[0]) {
        let s = seq![x] + t;
        assert forall|i: int| 0 <= i < s.len() - 1 implies #[trigger] orders_no_later(s[i], s[i + 1]) by {
            if i > 0 {
                assert(s[i] == t[i - 1] && s[i + 1] == t[i]);
                assert(orders_no_later(t[i - 1], t[(i - 1) + 1]));
            }
        }
        assert(s =~= t.insert(0, x));
        t.to_multiset_ensures();
    } else {
        let r = t.drop_first();
        assert forall|i: int| 0 <= i < r.len() - 1 implies #[trigger] orders_no_later(r[i], r[i + 1]) by {
            assert(r[i] == t[i + 1] && r[i + 1] == t[i + 2]);
            assert(orders_no_later(t[i + 1], t[i + 2]));
        }
        lemma_insert_ordered_keeps_order(x, r);
        let ins = insert_ordered(x, r);
        let s = seq![t[0]] + ins;
        assert forall|i: int| 0 <= i < s.len() - 1 implies #[trigger] orders_no_later(s[i], s[i + 1]) by {
            if i == 0 {
                assert(s[1] == ins[0]);
                if ins[0] != x {
                    assert(ins[0] == r[0] && r[0] == t[1]);
                    assert(orders_no_later(t[0], t[1]));
                }
            } else {
                assert(s[i] == ins[i - 1] && s[i + 1] == ins[i]);
            }
        }
        assert(t =~= seq![t[0]] + r);
        assert(s =~= ins.insert(0, t[0]));
        assert(t =~= r.insert(0, t[0]));
        ins.to_multiset_ensures();
        r.to_multiset_ensures();
    }
}

/// The ordered interfaces are the same interfaces, each as often, and each may
/// stand before the next.
pub proof fn law_interfaces_ordered(s: Seq<InternetInterface>)
    ensures
        is_ordered(ordered_interfaces(s)),
        ordered_interfaces(s).to_multiset() == s.to_multiset(),
    decreases s.len(),
{
    broadcast use vstd::seq_lib::group_to_multiset_ensures;
    if s.len() > 0 {
        law_interfaces_ordered(s.drop_first());
        lemma_insert_ordered_keeps_order(s[0], ordered_interfaces(s.drop_first()));
        assert(s =~= s.drop_first().insert(0, s[0]));
        s.drop_first().to_multiset_ensures();
    }
}

/// `a` may stand before `b`, written out: an IPv4 interface before an IPv6
/// one; within a family a real interface before a virtual one, and among
/// equals the one with the lower or equal sum of interface and route metric.
pub open spec fn may_precede(a: InternetInterface, b: InternetInterface) -> bool {
    ||| a is V4 && b is V6
    ||| a is V4 && b is V4 && ((!a->V4_0.is_virtual && b->V4_0.is_virtual) || (a->V4_0.is_virtual == b->V4_0.is_virtual
        && a->V4_0.interface_metric + a->V4_0.default_route_metric <= b->V4_0.interface_metric
        + b->V4_0.default_route_metric))
    ||| a is V6 && b is V6 && ((!a->V6_0.is_virtual && b->V6_0.is_virtual) || (a->V6_0.is_virtual == b->V6_0.is_virtual
        && a->V6_0.interface_metric + a->V6_0.default_route_metric <= b->V6_0.interface_metric
        + b->V6_0.default_route_metric))
}

/// In the ordered interfaces, IPv4 comes before IPv6, real before virtual,
/// and lower metric sums first.
pub proof fn law_interfaces_ordered_written_out(s: Seq<InternetInterface>)
    ensures
        forall|i: int| 0 <= i < ordered_interfaces(s).len() - 1 ==> #[trigger] may_precede(
            ordered_interfaces(s)[i],
            ordered_interfaces(s)[i + 1],
        ),
{
    law_interfaces_ordered(s);
    let o = ordered_interfaces(s);
    assert forall|i: int| 0 <= i < o.len() - 1 implies #[trigger] may_precede(o[i], o[i + 1]) by {
        assert(orders_no_later(o[i], o[i + 1]));
    }
}

/// The best IPv4 interface is an IPv4 interface found, there is one exactly
/// when some IPv4 interface was found, and no IPv4 interface found beats it:
/// none is real while it is virtual, and none of the same kind has a lower
/// metric sum.
pub proof fn law_best_v4_is_best(c: Seq<InternetInterface>)
    ensures
        best_v4(c) is None <==> (forall|i: int| 0 <= i < c.len() ==> !(#[trigger] c[i] is V4)),
        best_v4(c) matches Some(b) ==> c.contains(InternetInterface::V4(b)),
        best_v4(c) is Some ==> forall|i: int| 0 <= i < c.len() && #[trigger] c[i] is V4 ==> !((
            !c[i]->V4_0.is_virtual && best_v4(c)->0.is_virtual) || (c[i]->V4_0.is_virtual == best_v4(c)->0.is_virtual
            && c[i]->V4_0.interface_metric + c[i]->V4_0.default_route_metric < best_v4(c)->0.interface_metric
            + best_v4(c)->0.default_route_metric)),
    decreases c.len(),
{
    if c.len() > 0 {
        let d = c.drop_last();
        law_best_v4_is_best(d);
        assert forall|i: int| 0 <= i < d.len() implies d[i] == c[i] by {}
        match best_v4(d) {
            Some(b) => {
                let k = choose|k: int| 0 <= k < d.len() && d[k] == InternetInterface::V4(b);
                assert(c[k] == InternetInterface::V4(b));
            },
            None => {},
        }
        assert(c[c.len() - 1] == c.last());
    }
}

/// The best IPv6 interface, as [law_best_v4_is_best] states it for IPv4.
pub proof fn law_best_v6_is_best(c: Seq<InternetInterface>)
    ensures
        best_v6(c) is None <==> (forall|i: int| 0 <= i < c.len() ==> !(#[trigger] c[i] is V6)),
        best_v6(c) matches Some(b) ==> c.contains(InternetInterface::V6(b)),
        best_v6(c) is Some ==> forall|i: int| 0 <= i < c.len() && #[trigger] c[i] is V6 ==> !((
            !c[i]->V6_0.is_virtual && best_v6(c)->0.is_virtual) || (c[i]->V6_0.is_virtual == best_v6(c)->0.is_virtual
            && c[i]->V6_0.interface_metric + c[i]->V6_0.default_route_metric < best_v6(c)->0.interface_metric
            + best_v6(c)->0.default_route_metric)),
    decreases c.len(),
{
    if c.len() > 0 {
        let d = c.drop_last();
        law_best_v6_is_best(d);
        assert forall|i: int| 0 <= i < d.len() implies d[i] == c[i] by {}
        match best_v6(d) {
            Some(b) => {
                let k = choose|k: int| 0 <= k < d.len() && d[k] == InternetInterface::V6(b);
                assert(c[k] == InternetInterface::V6(b));
            },
            None => {},
        }
        assert(c[c.len() - 1] == c.last());
    }
}

/// Metrics add up without overflow for every interface found.
pub open spec fn metrics_fit(c: Seq<InternetInterface>) -> bool {
    forall|i: int|
        0 <= i < c.len() ==> match #[trigger] c[i] {
            InternetInterface::V4(x) => x.metric_sum() <= u32::MAX,
            InternetInterface::V6(x) => x.metric_sum() <= u32::MAX,
        }
}

/// Whether the metrics of the interfaces add up within 32 bits.
pub fn interface_metrics_fit(c: &Vec<InternetInterface>) -> (r: bool)
    ensures
        r == metrics_fit(c@),
{
    let mut i: usize = 0;
    while i < c.len()
        invariant
            0 <= i <= c.len(),
            forall|j: int|
                0 <= j < i ==> match #[trigger] c@[j] {
                    InternetInterface::V4(x) => x.metric_sum() <= u32::MAX,
                    InternetInterface::V6(x) => x.metric_sum() <= u32::MAX,
                },
        decreases c.len() - i,
    {
        let ok = match &c[i] {
            InternetInterface::V4(x) => (x.interface_metric as u64) + (x.default_route_metric as u64) <= 0xffff_ffffu64,
            InternetInterface::V6(x) => (x.interface_metric as u64) + (x.default_route_metric as u64) <= 0xffff_ffffu64,
        };
        if !ok {
            return false;
        }
        i = i + 1;
    }
    true
}

/// The best interface of each family: a real interface before a virtual one,
/// then the lowest effective metric, then the first found.
pub fn get_internet_interfaces(c: &Vec<InternetInterface>) -> (r: (Option<Ipv4InternetInterface>, Option<Ipv6InternetInterface>))
    requires
        metrics_fit(c@),
    ensures
        r == (best_v4(c@), best_v6(c@)),
{
    let mut b4: Option<Ipv4InternetInterface> = None;
    let mut b6: Option<Ipv6InternetInterface> = None;
    let mut i: usize = 0;
    assert(c@.take(0) =~= Seq::<InternetInterface>::empty());
    while i < c.len()
        invariant
            0 <= i <= c.len(),
            metrics_fit(c@),
            b4 == best_v4(c@.take(i as int)),
            b6 == best_v6(c@.take(i as int)),
            b4 matches Some(b) ==> b.metric_sum() <= u32::MAX,
            b6 matches Some(b) ==> b.metric_sum() <= u32::MAX,
        decreases c.len() - i,
    {
        let x = c[i];
        proof {
            assert(c@.take(i + 1).drop_last() =~= c@.take(i as int));
            assert(c@.take(i + 1).last() == x);
            assert(match c@[i as int] {
                InternetInterface::V4(y) => y.metric_sum() <= u32::MAX,
                InternetInterface::V6(y) => y.metric_sum() <= u32::MAX,
            });
        }
        match x {
            InternetInterface::V4(v) => {
                b4 = match b4 {
                    None => Some(v),
                    Some(b) => {
                        let (mv, mb) = (v.effective_metric(), b.effective_metric());
                        if (!v.is_virtual && b.is_virtual) || (v.is_virtual == b.is_virtual && mv < mb) {
                            Some(v)
                        } else {
                            Some(b)
                        }
                    },
                };
            },
            InternetInterface::V6(v) => {
                b6 = match b6 {
                    None => Some(v),
                    Some(b) => {
                        let (mv, mb) = (v.effective_metric(), b.effective_metric());
                        if (!v.is_virtual && b.is_virtual) || (v.is_virtual == b.is_virtual && mv < mb) {
                            Some(v)
                        } else {
                            Some(b)
                        }
                    },
                };
            },
        }
        i = i + 1;
    }
    assert(c@.take(c.len() as int) =~= c@);
    (b4, b6)
}

/// The interface currently used by the VPN connection.
#[derive(Clone, Copy, PartialEq, Eq, Structural)]
pub struct NetworkInterface {
    pub index: u32,
    pub ip_addr: IpAddress,
}

/// The current interface is the IPv4 one found.
pub open spec fn is_v4_interface(current: NetworkInterface, v4: Ipv4InternetInterface) -> bool {
    current.index == v4.interface_index && current.ip_addr == IpAddress::V4(v4.local_ip)
}

/// The current interface is the IPv6 one found.
pub open spec fn is_v6_interface(current: NetworkInterface, v6: Ipv6InternetInterface) -> bool {
    current.index == v6.interface_index && current.ip_addr == IpAddress::V6(v6.local_ip)
}

/// What a settled burst of network changes means for the connection, given
/// the interface in use and the best internet interfaces now: connectivity
/// lost, regained, a switch to a better interface, or nothing.
pub open spec fn connectivity_decision(
    current: Option<NetworkInterface>,
    v4: Option<Ipv4InternetInterface>,
    v6: Option<Ipv6InternetInterface>,
) -> Option<ConnectivityEvent> {
    match current {
        None => if v4 is None && v6 is None {
            None
        } else {
            Some(ConnectivityEvent::Up)
        },
        Some(c) => if v4 is None && v6 is None {
            Some(ConnectivityEvent::Down)
        } else if (v4 matches Some(x) && is_v4_interface(c, x)) || (v6 matches Some(y) && is_v6_interface(c, y)) {
            None
        } else {
            Some(ConnectivityEvent::NetworkSwitch)
        },
    }
}

/// Connectivity is back.
pub fn handle_internet_connectivity_regained() -> (r: ConnectivityEvent)
    ensures
        r == ConnectivityEvent::Up,
{
    ConnectivityEvent::Up
}

/// No internet interface: connectivity is lost if an interface was in use.
pub fn handle_no_internet_connectivity(current: Option<NetworkInterface>) -> (r: Option<ConnectivityEvent>)
    ensures
        r == connectivity_decision(current, None, None),
{
    match current {
        Some(_) => Some(ConnectivityEvent::Down),
        None => None,
    }
}

/// Only IPv4 reaches the internet.
pub fn handle_ipv4_internet_connectivity(new_ipv4_interface: Ipv4InternetInterface, current: Option<NetworkInterface>) -> (r: Option<ConnectivityEvent>)
    ensures
        r == connectivity_decision(current, Some(new_ipv4_interface), None),
{
    match current {
        Some(c) => if c.index == new_ipv4_interface.interface_index && c.ip_addr == IpAddress::V4(
            new_ipv4_interface.local_ip,
        ) {
            None
        } else {
            Some(ConnectivityEvent::NetworkSwitch)
        },
        None => Some(handle_internet_connectivity_regained()),
    }
}

/// Only IPv6 reaches the internet.
pub fn handle_ipv6_internet_connectivity(new_ipv6_interface: Ipv6InternetInterface, current: Option<NetworkInterface>) -> (r: Option<ConnectivityEvent>)
    ensures
        r == connectivity_decision(current, None, Some(new_ipv6_interface)),
{
    match current {
        Some(c) => if c.index == new_ipv6_interface.interface_index && c.ip_addr == IpAddress::V6(
            new_ipv6_interface.local_ip,
        ) {
            None
        } else {
            Some(ConnectivityEvent::NetworkSwitch)
        },
        None => Some(handle_internet_connectivity_regained()),
    }
}

/// Both families reach the internet: the current interface stays if it is
/// either of them.
pub fn handle_ipv4_and_ipv6_internet_connectivity(
    new_ipv4_interface: Ipv4InternetInterface,
    new_ipv6_interface: Ipv6InternetInterface,
    current: Option<NetworkInterface>,
) -> (r: Option<ConnectivityEvent>)
    ensures
        r == connectivity_decision(current, Some(new_ipv4_interface), Some(new_ipv6_interface)),
{
    match current {
        Some(c) => if c.index == new_ipv4_interface.interface_index && c.ip_addr == IpAddress::V4(
            new_ipv4_interface.local_ip,
        ) {
            None
        } else if c.index == new_ipv6_interface.interface_index && c.ip_addr == IpAddress::V6(
            new_ipv6_interface.local_ip,
        ) {
            None
        } else {
            Some(ConnectivityEvent::NetworkSwitch)
        },
        None => Some(handle_internet_connectivity_regained()),
    }
}

/// What a settled burst of network changes asks of the connection, from the
/// best internet interfaces found now.
pub fn handle_debouncer_trigger(
    current: Option<NetworkInterface>,
    new_ipv4_interface: Option<Ipv4InternetInterface>,
    new_ipv6_interface: Option<Ipv6InternetInterface>,
) -> (r: Option<ConnectivityEvent>)
    ensures
        r == connectivity_decision(current, new_ipv4_interface, new_ipv6_interface),
{
    match (new_ipv4_interface, new_ipv6_interface) {
        (None, None) => handle_no_internet_connectivity(current),
        (Some(v4), None) => handle_ipv4_internet_connectivity(v4, current),
        (None, Some(v6)) => handle_ipv6_internet_connectivity(v6, current),
        (Some(v4), Some(v6)) => handle_ipv4_and_ipv6_internet_connectivity(v4, v6, current),
    }
}

/// Staying on the interface in use never asks for a switch.
pub proof fn law_current_interface_kept(c: NetworkInterface, v4: Option<Ipv4InternetInterface>, v6: Option<Ipv6InternetInterface>)
    requires
        (v4 matches Some(x) && is_v4_interface(c, x)) || (v6 matches Some(y) && is_v6_interface(c, y)),
    ensures
        connectivity_decision(Some(c), v4, v6) is None,
{
}

/// Kinds of network change notifications.
#[derive(Clone, Copy, PartialEq, Eq, Structural)]
pub enum EventType {
    Initial,
    Create,
    Delete,
    Update,
}

pub open spec fn event_type_text(t: EventType) -> Seq<char> {
    match t {
        EventType::Initial => "listener started"@,
        EventType::Create => "added"@,
        EventType::Delete => "removed"@,
        EventType::Update => "updated"@,
    }
}

impl EventType {
    /// How the change reads in logs.
    pub fn describe(&self) -> (r: String)
        ensures
            r@ == event_type_text(*self),
    {
        match self {
            EventType::Initial => "listener started".to_string(),
            EventType::Create => "added".to_string(),
            EventType::Delete => "removed".to_string(),
            EventType::Update => "updated".to_string(),
        }
    }
}

/// A network change notification: its kind and interface.
#[derive(Clone, Copy, PartialEq, Eq, Structural)]
pub struct EventParameters {
    pub event_type: EventType,
    pub interface_index: u32,
}

impl EventParameters {
    pub fn new(event_type: EventType, interface_index: u32) -> (r: EventParameters)
        ensures
            r == (EventParameters { event_type, interface_index }),
    {
        EventParameters { event_type, interface_index }
    }

    /// How the notification reads in logs: "<kind> (Interface index: <n>)".
    pub fn describe(&self) -> (r: String)
        ensures
            r@ == event_type_text(self.event_type) + " (Interface index: "@ + decimal_chars(
                self.interface_index as nat,
            ) + ")"@,
    {
        let mut s = self.event_type.describe();
        s.append(" (Interface index: ");
        let n = decimal_string(self.interface_index as u64);
        s.append(n.as_str());
        s.append(")");
        s
    }
}

/// What the network observer hears.
#[derive(Clone, Copy, PartialEq, Eq, Structural)]
pub enum NetworkObserverEvent {
    InterfaceSelected(Option<NetworkInterface>),
    RoutingTableChanged(EventParameters),
    InterfaceChanged(EventParameters),
    IpAddressChanged(EventParameters),
}

} // verus!
