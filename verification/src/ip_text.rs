use vstd::prelude::*;
use vstd::string::StringExecFns;
use crate::net::{IpAddress, Ipv4Address, Ipv6Address};
use crate::text::{decimal_chars, decimal_string};

verus! {

/// Dotted decimal text of an IPv4 address.
pub open spec fn ipv4_text(a: Ipv4Address) -> Seq<char> {
    decimal_chars(a.o0 as nat) + "."@ + decimal_chars(a.o1 as nat) + "."@ + decimal_chars(a.o2 as nat) + "."@
        + decimal_chars(a.o3 as nat)
}

pub open spec fn hex_digit(d: nat) -> char {
    if d < 10 {
        crate::text::digit_char(d)
    } else if d == 10 {
        'a'
    } else if d == 11 {
        'b'
    } else if d == 12 {
        'c'
    } else if d == 13 {
        'd'
    } else if d == 14 {
        'e'
    } else {
        'f'
    }
}

/// Lower case hexadecimal text of a number, without leading zeros.
pub open spec fn hex_chars(n: nat) -> Seq<char>
    decreases n,
{
    if n < 16 {
        seq![hex_digit(n)]
    } else {
        hex_chars(n / 16).push(hex_digit(n % 16))
    }
}

/// Segments in hexadecimal, separated by colons.
pub open spec fn join_hex(segs: Seq<u16>) -> Seq<char>
    decreases segs.len(),
{
    if segs.len() == 0 {
        Seq::empty()
    } else if segs.len() == 1 {
        hex_chars(segs[0] as nat)
    } else {
        join_hex(segs.drop_last()) + ":"@ + hex_chars(segs.last() as nat)
    }
}

/// The number of zero segments from index `i` on, before a non-zero one.
pub open spec fn zeros_from(segs: Seq<u16>, i: int) -> nat
    decreases segs.len() - i,
{
    if i < 0 || i >= segs.len() || segs[i] != 0 {
        0
    } else {
        1 + zeros_from(segs, i + 1)
    }
}

/// The longest run of zero segments: its length, and its first start.
pub open spec fn is_longest_zero_run(segs: Seq<u16>, start: int, len: nat) -> bool {
    &&& 0 <= start < segs.len()
    &&& zeros_from(segs, start) == len
    &&& forall|i: int| 0 <= i < segs.len() ==> zeros_from(segs, i) <= len
    &&& forall|i: int| 0 <= i < start ==> zeros_from(segs, i) < len
}

/// The address is an IPv4 address mapped into IPv6 (::ffff:a.b.c.d).
pub open spec fn is_ipv4_mapped(a: Ipv6Address) -> bool {
    a.s0 == 0 && a.s1 == 0 && a.s2 == 0 && a.s3 == 0 && a.s4 == 0 && a.s5 == 0xffff
}

pub open spec fn mapped_ipv4(a: Ipv6Address) -> Ipv4Address {
    Ipv4Address {
        o0: (a.s6 / 256) as u8,
        o1: (a.s6 % 256) as u8,
        o2: (a.s7 / 256) as u8,
        o3: (a.s7 % 256) as u8,
    }
}

/// Text of an IPv6 address as Rust's standard library writes it: mapped IPv4
/// addresses as ::ffff:a.b.c.d; otherwise lower case hexadecimal segments,
/// the first longest run of two or more zero segments written as "::".
pub open spec fn ipv6_text_with(a: Ipv6Address, start: int, len: nat) -> Seq<char> {
    let segs = a.segments();
    if is_ipv4_mapped(a) {
        "::ffff:"@ + ipv4_text(mapped_ipv4(a))
    } else if len > 1 {
        join_hex(segs.take(start)) + "::"@ + join_hex(segs.skip(start + len))
    } else {
        join_hex(segs)
    }
}

fn digit_text(d: u64) -> (r: &'static str)
    requires
        d < 16,
    ensures
        r@ == seq![hex_digit(d as nat)],
{
    proof {
        reveal_strlit("0");
        reveal_strlit("1");
        reveal_strlit("2");
        reveal_strlit("3");
        reveal_strlit("4");
        reveal_strlit("5");
        reveal_strlit("6");
        reveal_strlit("7");
        reveal_strlit("8");
        reveal_strlit("9");
        reveal_strlit("a");
        reveal_strlit("b");
        reveal_strlit("c");
        reveal_strlit("d");
        reveal_strlit("e");
        reveal_strlit("f");
    }
    if d == 0 {
        "0"
    } else if d == 1 {
        "1"
    } else if d == 2 {
        "2"
    } else if d == 3 {
        "3"
    } else if d == 4 {
        "4"
    } else if d == 5 {
        "5"
    } else if d == 6 {
        "6"
    } else if d == 7 {
        "7"
    } else if d == 8 {
        "8"
    } else if d == 9 {
        "9"
    } else if d == 10 {
        "a"
    } else if d == 11 {
        "b"
    } else if d == 12 {
        "c"
    } else if d == 13 {
        "d"
    } else if d == 14 {
        "e"
    } else {
        "f"
    }
}

/// Lower case hexadecimal text of a number.
pub fn hex_string(n: u64) -> (r: String)
    ensures
        r@ == hex_chars(n as nat),
    decreases n,
{
    if n < 16 {
        digit_text(n).to_string()
    } else {
        let mut s = hex_string(n / 16);
        s.append(digit_text(n % 16));
        s
    }
}

/// Dotted decimal text of an IPv4 address.
pub fn ipv4_to_string(a: Ipv4Address) -> (r: String)
    ensures
        r@ == ipv4_text(a),
{
    let mut s = decimal_string(a.o0 as u64);
    s.append(".");
    let t = decimal_string(a.o1 as u64);
    s.append(t.as_str());
    s.append(".");
    let t = decimal_string(a.o2 as u64);
    s.append(t.as_str());
    s.append(".");
    let t = decimal_string(a.o3 as u64);
    s.append(t.as_str());
    s
}

fn segments_vec(a: Ipv6Address) -> (r: Vec<u16>)
    ensures
        r@ == a.segments(),
{
    let r = vec![a.s0, a.s1, a.s2, a.s3, a.s4, a.s5, a.s6, a.s7];
    assert(r@ =~= a.segments());
    r
}

/// Segments `from..to` in hexadecimal, separated by colons.
fn join_hex_range(segs: &Vec<u16>, from: usize, to: usize) -> (r: String)
    requires
        from <= to <= segs.len(),
    ensures
        r@ == join_hex(segs@.subrange(from as int, to as int)),
{
    let mut s = String::new();
    let mut i: usize = from;
    assert(segs@.subrange(from as int, from as int) =~= Seq::<u16>::empty());
    while i < to
        invariant
            from <= i <= to <= segs.len(),
            s@ == join_hex(segs@.subrange(from as int, i as int)),
        decreases to - i,
    {
        let ghost sub = segs@.subrange(from as int, i + 1);
        assert(sub.drop_last() =~= segs@.subrange(from as int, i as int));
        assert(sub.last() == segs@[i as int]);
        let h = hex_string(segs[i] as u64);
        if i > from {
            s.append(":");
        } else {
            assert(sub.len() == 1);
        }
        s.append(h.as_str());
        i = i + 1;
    }
    s
}

proof fn lemma_zeros_step(segs: Seq<u16>, i: int)
    requires
        0 <= i < segs.len(),
    ensures
        zeros_from(segs, i) == if segs[i] == 0 {
            1 + zeros_from(segs, i + 1)
        } else {
            0
        },
{
}

proof fn lemma_zeros_bound(segs: Seq<u16>, i: int)
    requires
        0 <= i,
    ensures
        zeros_from(segs, i) <= if i < segs.len() {
            segs.len() - i
        } else {
            0
        },
    decreases segs.len() - i,
{
    if 0 <= i < segs.len() && segs[i] == 0 {
        lemma_zeros_bound(segs, i + 1);
    }
}

/// The first longest run of zero segments of an eight segment address.
fn longest_zero_run(segs: &Vec<u16>) -> (r: (usize, usize))
    requires
        segs.len() == 8,
    ensures
        is_longest_zero_run(segs@, r.0 as int, r.1 as nat),
{
    let mut counts: Vec<usize> = vec![0, 0, 0, 0, 0, 0, 0, 0];
    let mut run: usize = 0;
    let mut k: usize = 8;
    while k > 0
        invariant
            0 <= k <= 8,
            segs.len() == 8,
            counts.len() == 8,
            run == zeros_from(segs@, k as int),
            run <= 8 - k,
            forall|j: int| k <= j < 8 ==> counts@[j] == zeros_from(segs@, j),
        decreases k,
    {
        k = k - 1;
        proof {
            lemma_zeros_step(segs@, k as int);
        }
        if segs[k] == 0 {
            run = run + 1;
        } else {
            run = 0;
        }
        counts.set(k, run);
    }
    let mut best_start: usize = 0;
    let mut best_len: usize = counts[0];
    let mut i: usize = 1;
    while i < 8
        invariant
            1 <= i <= 8,
            counts.len() == 8,
            segs.len() == 8,
            forall|j: int| 0 <= j < 8 ==> counts@[j] == zeros_from(segs@, j),
            0 <= best_start < i,
            best_len == zeros_from(segs@, best_start as int),
            forall|j: int| 0 <= j < i ==> zeros_from(segs@, j) <= best_len,
            forall|j: int| 0 <= j < best_start ==> zeros_from(segs@, j) < best_len,
        decreases 8 - i,
    {
        if counts[i] > best_len {
            best_start = i;
            best_len = counts[i];
        }
        i = i + 1;
    }
    (best_start, best_len)
}

/// Text of an IPv6 address as Rust's standard library writes it (see
/// [ipv6_text_with]); `start` and `len` locate the longest zero run.
pub fn ipv6_to_string(a: Ipv6Address) -> (r: String)
    ensures
        exists|start: int, len: nat| is_longest_zero_run(a.segments(), start, len) && r@ == ipv6_text_with(
            a,
            start,
            len,
        ),
{
    let segs = segments_vec(a);
    let (start, len) = longest_zero_run(&segs);
    proof {
        lemma_zeros_bound(segs@, start as int);
    }
    if a.s0 == 0 && a.s1 == 0 && a.s2 == 0 && a.s3 == 0 && a.s4 == 0 && a.s5 == 0xffff {
        let v4 = Ipv4Address::new((a.s6 / 256) as u8, (a.s6 % 256) as u8, (a.s7 / 256) as u8, (a.s7 % 256) as u8);
        let mut s = "::ffff:".to_string();
        let t = ipv4_to_string(v4);
        s.append(t.as_str());
        assert(s@ == ipv6_text_with(a, start as int, len as nat));
        s
    } else if len > 1 {
        let mut s = join_hex_range(&segs, 0, start);
        s.append("::");
        let t = join_hex_range(&segs, start + len, 8);
        s.append(t.as_str());
        assert(segs@.subrange(0, start as int) =~= segs@.take(start as int));
        assert(segs@.subrange(start + len, 8) =~= segs@.skip(start + len));
        assert(s@ == ipv6_text_with(a, start as int, len as nat));
        s
    } else {
        let s = join_hex_range(&segs, 0, 8);
        assert(segs@.subrange(0, 8) =~= segs@);
        assert(s@ == ipv6_text_with(a, start as int, len as nat));
        s
    }
}

/// Text of an optional IPv6 address, or a stand-in text when there is none.
pub trait OptionIpv6AddrAsString {
    fn to_string_or(&self, none_text: &str) -> String;
}

impl OptionIpv6AddrAsString for Option<Ipv6Address> {
    /// The address's text if there is one, otherwise `none_text`.
    fn to_string_or(&self, none_text: &str) -> (r: String)
        ensures
            match *self {
                Some(a) => exists|start: int, len: nat|
                    is_longest_zero_run(a.segments(), start, len) && r@ == ipv6_text_with(a, start, len),
                None => r@ == none_text@,
            },
    {
        match self {
            Some(a) => ipv6_to_string(*a),
            None => none_text.to_string(),
        }
    }
}

/// Text of an optional IPv4 address, or a stand-in text when there is none.
pub trait OptionIpv4AddrAsString {
    fn to_string_or(&self, none_text: &str) -> String;
}

impl OptionIpv4AddrAsString for Option<Ipv4Address> {
    /// The address's text if there is one, otherwise `none_text`.
    fn to_string_or(&self, none_text: &str) -> (r: String)
        ensures
            r@ == match *self {
                Some(a) => ipv4_text(a),
                None => none_text@,
            },
    {
        match self {
            Some(a) => ipv4_to_string(*a),
            None => none_text.to_string(),
        }
    }
}

/// The longest zero run is unique, so the text of an IPv6 address is too.
pub proof fn law_longest_zero_run_unique(segs: Seq<u16>, s1: int, l1: nat, s2: int, l2: nat)
    requires
        is_longest_zero_run(segs, s1, l1),
        is_longest_zero_run(segs, s2, l2),
    ensures
        s1 == s2,
        l1 == l2,
{
    assert(zeros_from(segs, s2) <= l1);
    assert(zeros_from(segs, s1) <= l2);
    if s1 < s2 {
        assert(zeros_from(segs, s1) < l2);
    } else if s2 < s1 {
        assert(zeros_from(segs, s2) < l1);
    }
}


/// Text of an IPv6 address as Rust's standard library writes it; the longest
/// zero run it shortens is unique (see [law_longest_zero_run_unique]).
pub open spec fn ipv6_text(a: Ipv6Address) -> Seq<char> {
    let (start, len) = choose|start: int, len: nat| is_longest_zero_run(a.segments(), start, len);
    ipv6_text_with(a, start, len)
}

/// Text of an IP address as Rust's standard library writes it.
pub open spec fn ip_address_text(ip: IpAddress) -> Seq<char> {
    match ip {
        IpAddress::V4(a) => ipv4_text(a),
        IpAddress::V6(a) => ipv6_text(a),
    }
}

/// Text of an IP address as Rust's standard library writes it.
pub fn ip_address_to_string(ip: IpAddress) -> (r: String)
    ensures
        r@ == ip_address_text(ip),
{
    match ip {
        IpAddress::V4(a) => ipv4_to_string(a),
        IpAddress::V6(a) => {
            let r = ipv6_to_string(a);
            proof {
                let (s1, l1) = choose|start: int, len: nat|
                    is_longest_zero_run(a.segments(), start, len) && r@ == ipv6_text_with(a, start, len);
                let (s2, l2) = choose|start: int, len: nat| is_longest_zero_run(a.segments(), start, len);
                law_longest_zero_run_unique(a.segments(), s1, l1, s2, l2);
            }
            r
        },
    }
}

} // verus!
