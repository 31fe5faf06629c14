use vstd::prelude::*;
use crate::net::{IpAddress, Ipv4Address, Ipv6Address};

verus! {

/// Smallest ring capacity the Wintun driver accepts (128 KiB).
pub const MIN_RING_CAPACITY: u32 = 0x20000;

/// Largest ring capacity the Wintun driver accepts (64 MiB).
pub const MAX_RING_CAPACITY: u32 = 0x4000000;

/// A power of two.
pub open spec fn is_power_of_two(n: nat) -> bool
    decreases n,
{
    if n == 1 {
        true
    } else if n < 2 || n % 2 != 0 {
        false
    } else {
        is_power_of_two(n / 2)
    }
}

/// The ring capacity used for a proposed one: the proposal raised to a power
/// of two and kept within the driver's limits.
pub open spec fn valid_ring_capacity(proposed: u32, r: u32) -> bool {
    if proposed <= MIN_RING_CAPACITY {
        r == MIN_RING_CAPACITY
    } else if proposed > MAX_RING_CAPACITY {
        r == MAX_RING_CAPACITY
    } else {
        is_power_of_two(r as nat) && proposed <= r && r < 2 * proposed
    }
}

/// The ring capacity to use for a proposed one: the next power of two,
/// within [MIN_RING_CAPACITY, MAX_RING_CAPACITY].
pub fn get_valid_wintun_buffer_size(proposed_size: u32) -> (r: u32)
    ensures
        valid_ring_capacity(proposed_size, r),
        MIN_RING_CAPACITY <= r <= MAX_RING_CAPACITY,
{
    if proposed_size <= MIN_RING_CAPACITY {
        return MIN_RING_CAPACITY;
    }
    if proposed_size > MAX_RING_CAPACITY {
        return MAX_RING_CAPACITY;
    }
    let mut c: u32 = MIN_RING_CAPACITY;
    assert(is_power_of_two(0x20000nat)) by {
        reveal_with_fuel(is_power_of_two, 20);
    }
    while c < proposed_size
        invariant
            MIN_RING_CAPACITY <= c <= MAX_RING_CAPACITY,
            MIN_RING_CAPACITY < proposed_size <= MAX_RING_CAPACITY,
            is_power_of_two(c as nat),
            c < 2 * proposed_size,
        decreases MAX_RING_CAPACITY - c,
    {
        proof {
            lemma_power_of_two_below_max(c as nat);
        }
        assert(is_power_of_two((2 * c) as nat)) by {
            assert((2 * c) as nat / 2 == c as nat);
            assert((2 * c) as nat % 2 == 0);
        }
        c = c * 2;
    }
    c
}

/// A valid capacity never exceeds the largest one.
proof fn lemma_valid_within_limits(p: u32, r: u32)
    requires
        valid_ring_capacity(p, r),
    ensures
        MIN_RING_CAPACITY <= r <= MAX_RING_CAPACITY,
{
    if MIN_RING_CAPACITY < p <= MAX_RING_CAPACITY && r > MAX_RING_CAPACITY {
        assert(is_power_of_two(0x4000000nat)) by {
            reveal_with_fuel(is_power_of_two, 30);
        }
        lemma_pow2_le(0x4000000nat, r as nat);
    }
}

/// The capacity for a proposal is unique: two calls with the same proposal
/// give the same capacity.
pub proof fn law_ring_capacity_unique(p: u32, r1: u32, r2: u32)
    requires
        valid_ring_capacity(p, r1),
        valid_ring_capacity(p, r2),
    ensures
        r1 == r2,
{
    if MIN_RING_CAPACITY < p <= MAX_RING_CAPACITY && r1 != r2 {
        if r1 < r2 {
            lemma_pow2_le(r1 as nat, r2 as nat);
        } else {
            lemma_pow2_le(r2 as nat, r1 as nat);
        }
    }
}

/// Asking again for the capacity that was given gives it back, and a
/// proposal is kept exactly when it already is a power of two within the
/// limits.
pub proof fn law_ring_capacity_idempotent(p: u32, r: u32)
    requires
        valid_ring_capacity(p, r),
    ensures
        valid_ring_capacity(r, r),
        valid_ring_capacity(p, p) <==> (MIN_RING_CAPACITY <= p <= MAX_RING_CAPACITY && is_power_of_two(p as nat)),
{
    assert(is_power_of_two(0x20000nat)) by {
        reveal_with_fuel(is_power_of_two, 20);
    }
    assert(is_power_of_two(0x4000000nat)) by {
        reveal_with_fuel(is_power_of_two, 30);
    }
    lemma_valid_within_limits(p, r);
}

/// A larger proposal never gives a smaller capacity.
pub proof fn law_ring_capacity_monotone(p1: u32, r1: u32, p2: u32, r2: u32)
    requires
        p1 <= p2,
        valid_ring_capacity(p1, r1),
        valid_ring_capacity(p2, r2),
    ensures
        r1 <= r2,
{
    lemma_valid_within_limits(p1, r1);
    lemma_valid_within_limits(p2, r2);
    if MIN_RING_CAPACITY < p1 <= MAX_RING_CAPACITY && MIN_RING_CAPACITY < p2 <= MAX_RING_CAPACITY && r1 > r2 {
        lemma_pow2_le(r2 as nat, r1 as nat);
    }
}

/// A power of two below the largest capacity is at most half of it.
proof fn lemma_power_of_two_below_max(c: nat)
    requires
        is_power_of_two(c),
        c < MAX_RING_CAPACITY,
    ensures
        2 * c <= MAX_RING_CAPACITY,
{
    assert(is_power_of_two(0x4000000nat)) by {
        reveal_with_fuel(is_power_of_two, 30);
    }
    lemma_pow2_le(c, 0x4000000);
}

/// Between powers of two, a smaller one at least doubles before reaching a larger one.
proof fn lemma_pow2_le(c: nat, m: nat)
    requires
        is_power_of_two(c),
        is_power_of_two(m),
        c < m,
    ensures
        2 * c <= m,
    decreases m,
{
    if m > 1 {
        assert(m % 2 == 0);
        if c < m / 2 {
            lemma_pow2_le(c, m / 2);
        } else if c == m / 2 {
        } else {
            lemma_no_pow2_between(c, m / 2);
        }
    }
}

/// No power of two lies strictly between a power of two and its double.
proof fn lemma_no_pow2_between(c: nat, h: nat)
    requires
        is_power_of_two(h),
        h < c < 2 * h,
    ensures
        !is_power_of_two(c),
    decreases h,
{
    if h > 1 && is_power_of_two(c) {
        assert(c % 2 == 0);
        assert(h % 2 == 0);
        lemma_no_pow2_between(c / 2, h / 2);
    }
}

/// The client address of the TUN adapter in attempt `i`: 10.i.0.2.
pub fn client_ipv4_address(i: u8) -> (r: Ipv4Address)
    ensures
        r == (Ipv4Address { o0: 10, o1: i, o2: 0, o3: 2 }),
{
    Ipv4Address::new(10, i, 0, 2)
}

/// The client IPv6 address of the TUN adapter in attempt `i`: 2a07:b944::i:2.
pub fn client_ipv6_address(i: u8) -> (r: Ipv6Address)
    ensures
        r == (Ipv6Address { s0: 0x2a07, s1: 0xb944, s2: 0, s3: 0, s4: 0, s5: 0, s6: i as u16, s7: 2 }),
{
    Ipv6Address::new(0x2a07, 0xb944, 0, 0, 0, 0, i as u16, 2)
}

/// The tunnel server addresses that go with the client ones: 10.x.0.1 and
/// 2a07:b944::y:1, where x and y are the client's second octet and seventh
/// segment.
pub fn server_addresses(client_ipv4_addr: Ipv4Address, client_ipv6_addr: Option<Ipv6Address>) -> (r: (Ipv4Address, Option<Ipv6Address>))
    ensures
        r.0 == (Ipv4Address { o0: 10, o1: client_ipv4_addr.o1, o2: 0, o3: 1 }),
        r.1 == match client_ipv6_addr {
            Some(a) => Some(Ipv6Address { s0: 0x2a07, s1: 0xb944, s2: 0, s3: 0, s4: 0, s5: 0, s6: a.s6, s7: 1 }),
            None => None,
        },
{
    let v4 = Ipv4Address::new(10, client_ipv4_addr.o1, 0, 1);
    let v6 = match client_ipv6_addr {
        Some(a) => Some(Ipv6Address::new(0x2a07, 0xb944, 0, 0, 0, 0, a.s6, 1)),
        None => None,
    };
    (v4, v6)
}

pub open spec fn v4_of(ips: Seq<IpAddress>) -> Seq<Ipv4Address>
    decreases ips.len(),
{
    if ips.len() == 0 {
        Seq::empty()
    } else {
        match ips.last() {
            IpAddress::V4(a) => v4_of(ips.drop_last()).push(a),
            IpAddress::V6(_) => v4_of(ips.drop_last()),
        }
    }
}

pub open spec fn v6_of(ips: Seq<IpAddress>) -> Seq<Ipv6Address>
    decreases ips.len(),
{
    if ips.len() == 0 {
        Seq::empty()
    } else {
        match ips.last() {
            IpAddress::V6(a) => v6_of(ips.drop_last()).push(a),
            IpAddress::V4(_) => v6_of(ips.drop_last()),
        }
    }
}

/// The DNS servers of the TUN adapter: the custom ones of each family, in
/// order, then the tunnel server; IPv6 servers only when the tunnel has an
/// IPv6 server address.
pub fn dns_server_lists(custom_dns_server_ips: &Vec<IpAddress>, server_ipv4_addr: Ipv4Address, server_ipv6_addr: Option<Ipv6Address>) -> (r: (Vec<Ipv4Address>, Option<Vec<Ipv6Address>>))
    ensures
        r.0@ == v4_of(custom_dns_server_ips@).push(server_ipv4_addr),
        match server_ipv6_addr {
            Some(s6) => r.1 matches Some(l) && l@ == v6_of(custom_dns_server_ips@).push(s6),
            None => r.1 is None,
        },
{
    let mut v4: Vec<Ipv4Address> = Vec::new();
    let mut v6: Vec<Ipv6Address> = Vec::new();
    let mut i: usize = 0;
    assert(custom_dns_server_ips@.take(0) =~= Seq::<IpAddress>::empty());
    while i < custom_dns_server_ips.len()
        invariant
            0 <= i <= custom_dns_server_ips.len(),
            v4@ == v4_of(custom_dns_server_ips@.take(i as int)),
            v6@ == v6_of(custom_dns_server_ips@.take(i as int)),
        decreases custom_dns_server_ips.len() - i,
    {
        proof {
            assert(custom_dns_server_ips@.take(i + 1).drop_last() =~= custom_dns_server_ips@.take(i as int));
            assert(custom_dns_server_ips@.take(i + 1).last() == custom_dns_server_ips@[i as int]);
        }
        match custom_dns_server_ips[i] {
            IpAddress::V4(a) => v4.push(a),
            IpAddress::V6(a) => v6.push(a),
        }
        i = i + 1;
    }
    assert(custom_dns_server_ips@.take(custom_dns_server_ips.len() as int) =~= custom_dns_server_ips@);
    v4.push(server_ipv4_addr);
    match server_ipv6_addr {
        Some(s6) => {
            v6.push(s6);
            (v4, Some(v6))
        },
        None => (v4, None),
    }
}

/// Largest packet a Wintun session sends at once.
pub const MAX_SEND_PACKET: usize = 65535;

pub open spec fn sum(sizes: Seq<usize>) -> nat
    decreases sizes.len(),
{
    if sizes.len() == 0 {
        0
    } else {
        (sum(sizes.drop_last()) + sizes.last()) as nat
    }
}

/// How data written to the TUN device is cut into Wintun packets: full
/// packets of [MAX_SEND_PACKET] bytes, then what remains.
pub fn packet_chunks(total: usize) -> (r: Vec<usize>)
    ensures
        sum(r@) == total,
        forall|i: int| 0 <= i < r@.len() ==> 0 < #[trigger] r@[i] <= MAX_SEND_PACKET,
        forall|i: int| 0 <= i < r@.len() - 1 ==> #[trigger] r@[i] == MAX_SEND_PACKET,
{
    let mut out: Vec<usize> = Vec::new();
    let mut left: usize = total;
    while left > 0
        invariant
            left <= total,
            sum(out@) + left == total,
            forall|i: int| 0 <= i < out@.len() ==> 0 < #[trigger] out@[i] <= MAX_SEND_PACKET,
            forall|i: int| 0 <= i < out@.len() - 1 ==> #[trigger] out@[i] == MAX_SEND_PACKET,
            left > 0 ==> forall|i: int| 0 <= i < out@.len() ==> #[trigger] out@[i] == MAX_SEND_PACKET,
        decreases left,
    {
        let n = if left < MAX_SEND_PACKET {
            left
        } else {
            MAX_SEND_PACKET
        };
        let ghost before = out@;
        out.push(n);
        assert(out@.drop_last() =~= before);
        assert forall|i: int| 0 <= i < out@.len() - 1 implies #[trigger] out@[i] == MAX_SEND_PACKET by {
            assert(out@[i] == before[i]);
        }
        left = left - n;
    }
    out
}

} // verus!
