use vstd::prelude::*;
use vstd::string::StrSliceExecFns;
use vstd::string::StringExecFns;

verus! {

/// An ASCII decimal digit.
pub open spec fn is_digit(c: char) -> bool {
    '0' <= c && c <= '9'
}

pub open spec fn digit_value(c: char) -> nat {
    (c as int - '0' as int) as nat
}

pub open spec fn all_digits(s: Seq<char>) -> bool {
    forall|i: int| 0 <= i < s.len() ==> is_digit(#[trigger] s[i])
}

/// The number a string of decimal digits denotes.
pub open spec fn digits_value(s: Seq<char>) -> nat
    decreases s.len(),
{
    if s.len() == 0 {
        0
    } else {
        digits_value(s.drop_last()) * 10 + digit_value(s.last())
    }
}

/// The digits of an unsigned number text: one leading '+' is allowed.
pub open spec fn unsigned_digits(s: Seq<char>) -> Seq<char> {
    if s.len() > 0 && s[0] == '+' {
        s.drop_first()
    } else {
        s
    }
}

/// The value of an unsigned decimal text: an optional '+' and at least one digit.
pub open spec fn unsigned_text_value(s: Seq<char>) -> Option<nat> {
    let d = unsigned_digits(s);
    if d.len() > 0 && all_digits(d) {
        Some(digits_value(d))
    } else {
        None
    }
}

/// What parsing a text as `u16` gives.
pub open spec fn u16_text_value(s: Seq<char>) -> Option<u16> {
    match unsigned_text_value(s) {
        Some(v) => if v <= u16::MAX {
            Some(v as u16)
        } else {
            None
        },
        None => None,
    }
}

/// What parsing a text as `i32` gives: an optional sign and at least one digit.
pub open spec fn i32_text_value(s: Seq<char>) -> Option<i32> {
    if s.len() > 0 && s[0] == '-' {
        let d = s.drop_first();
        if d.len() > 0 && all_digits(d) && digits_value(d) <= 0x8000_0000 {
            Some((0 - digits_value(d)) as i32)
        } else {
            None
        }
    } else {
        match unsigned_text_value(s) {
            Some(v) => if v <= i32::MAX {
                Some(v as i32)
            } else {
                None
            },
            None => None,
        }
    }
}

/// The pieces of a text between commas (one piece when there is no comma).
pub open spec fn split_commas(s: Seq<char>) -> Seq<Seq<char>>
    decreases s.len(),
{
    if s.len() == 0 {
        seq![Seq::empty()]
    } else {
        let init = split_commas(s.drop_last());
        if s.last() == ',' {
            init.push(Seq::empty())
        } else {
            init.update(init.len() - 1, init.last().push(s.last()))
        }
    }
}

/// The port list a comma separated text denotes, if every piece is a port number.
pub open spec fn ports_text_value(s: Seq<char>) -> Option<Seq<u16>> {
    let pieces = split_commas(s);
    if forall|k: int| 0 <= k < pieces.len() ==> (#[trigger] u16_text_value(pieces[k])) is Some {
        Some(Seq::new(pieces.len(), |k: int| u16_text_value(pieces[k])->0))
    } else {
        None
    }
}

/// Decimal rendering of a natural number, without leading zeros.
pub open spec fn decimal_chars(n: nat) -> Seq<char>
    decreases n,
{
    if n < 10 {
        seq![digit_char(n)]
    } else {
        decimal_chars(n / 10).push(digit_char(n % 10))
    }
}

pub open spec fn digit_char(d: nat) -> char {
    if d == 0 {
        '0'
    } else if d == 1 {
        '1'
    } else if d == 2 {
        '2'
    } else if d == 3 {
        '3'
    } else if d == 4 {
        '4'
    } else if d == 5 {
        '5'
    } else if d == 6 {
        '6'
    } else if d == 7 {
        '7'
    } else if d == 8 {
        '8'
    } else {
        '9'
    }
}

proof fn lemma_split_commas_nonempty(s: Seq<char>)
    ensures
        split_commas(s).len() >= 1,
    decreases s.len(),
{
    if s.len() > 0 {
        lemma_split_commas_nonempty(s.drop_last());
    }
}

proof fn lemma_digits_value_step(s: Seq<char>, i: int)
    requires
        0 <= i < s.len(),
    ensures
        digits_value(s.take(i + 1)) == digits_value(s.take(i)) * 10 + digit_value(s[i]),
{
    assert(s.take(i + 1).drop_last() =~= s.take(i));
}

proof fn lemma_digits_value_grows(s: Seq<char>, i: int)
    requires
        0 <= i <= s.len(),
    ensures
        digits_value(s.take(i)) <= digits_value(s),
    decreases s.len() - i,
{
    if i < s.len() {
        lemma_digits_value_step(s, i);
        lemma_digits_value_grows(s, i + 1);
    } else {
        assert(s.take(i) =~= s);
    }
}

/// Text equality, character by character.
pub fn str_eq(a: &str, b: &str) -> (r: bool)
    ensures
        r == (a@ == b@),
{
    let n = a.unicode_len();
    if n != b.unicode_len() {
        return false;
    }
    let mut i: usize = 0;
    while i < n
        invariant
            n == a@.len(),
            n == b@.len(),
            0 <= i <= n,
            forall|j: int| 0 <= j < i ==> a@[j] == b@[j],
        decreases n - i,
    {
        if a.get_char(i) != b.get_char(i) {
            return false;
        }
        i = i + 1;
    }
    assert(a@ =~= b@);
    true
}

/// The text starts with the given prefix.
pub fn starts_with(s: &str, prefix: &str) -> (r: bool)
    ensures
        r == (prefix@.len() <= s@.len() && s@.take(prefix@.len() as int) == prefix@),
{
    let n = prefix.unicode_len();
    if n > s.unicode_len() {
        return false;
    }
    let mut i: usize = 0;
    while i < n
        invariant
            n == prefix@.len(),
            n <= s@.len(),
            0 <= i <= n,
            forall|j: int| 0 <= j < i ==> s@[j] == prefix@[j],
        decreases n - i,
    {
        if s.get_char(i) != prefix.get_char(i) {
            assert(s@.take(n as int)[i as int] != prefix@[i as int]);
            return false;
        }
        i = i + 1;
    }
    assert(s@.take(n as int) =~= prefix@);
    true
}

/// Value of the decimal digits `s[from..]`, when it is at most `limit`.
fn digits_value_upto(s: &str, from: usize, limit: u64) -> (r: Option<u64>)
    requires
        from <= s@.len(),
        limit <= u32::MAX,
    ensures
        r is Some <==> (all_digits(s@.skip(from as int)) && digits_value(s@.skip(from as int))
            <= limit),
        r matches Some(v) ==> v == digits_value(s@.skip(from as int)),
{
    let ghost d = s@.skip(from as int);
    let n = s.unicode_len();
    let mut acc: u64 = 0;
    let mut i: usize = from;
    while i < n
        invariant
            n == s@.len(),
            d == s@.skip(from as int),
            from <= i <= n,
            limit <= u32::MAX,
            acc <= limit,
            all_digits(d.take(i - from)),
            acc == digits_value(d.take(i - from)),
        decreases n - i,
    {
        let c = s.get_char(i);
        assert(d[i - from] == c);
        if !('0' <= c && c <= '9') {
            assert(!all_digits(d));
            return None;
        }
        let v: u64 = (c as u64) - ('0' as u64);
        proof {
            lemma_digits_value_step(d, i - from);
            assert(d.take(i - from + 1) =~= d.take(i - from).push(c));
        }
        let next: u64 = acc * 10 + v;
        if next > limit {
            proof {
                lemma_digits_value_grows(d, i - from + 1);
            }
            return None;
        }
        acc = next;
        i = i + 1;
    }
    assert(d.take(n - from) =~= d);
    Some(acc)
}

/// Parses a `u16` the way Rust's `str::parse` does: an optional '+' and
/// decimal digits, within range.
pub fn parse_u16(s: &str) -> (r: Option<u16>)
    ensures
        r == u16_text_value(s@),
{
    let n = s.unicode_len();
    let from: usize = if n > 0 && s.get_char(0) == '+' {
        1
    } else {
        0
    };
    assert(s@.skip(from as int) =~= unsigned_digits(s@));
    if from == n {
        return None;
    }
    match digits_value_upto(s, from, 0xffff) {
        Some(v) => Some(v as u16),
        None => None,
    }
}

/// Parses an `i32` the way Rust's `str::parse` does: an optional sign and
/// decimal digits, within range.
pub fn parse_i32(s: &str) -> (r: Option<i32>)
    ensures
        r == i32_text_value(s@),
{
    let n = s.unicode_len();
    if n > 0 && s.get_char(0) == '-' {
        assert(s@.skip(1) =~= s@.drop_first());
        if n == 1 {
            return None;
        }
        match digits_value_upto(s, 1, 0x8000_0000) {
            Some(v) => {
                let neg: i64 = 0i64 - (v as i64);
                Some(neg as i32)
            },
            None => None,
        }
    } else {
        let from: usize = if n > 0 && s.get_char(0) == '+' {
            1
        } else {
            0
        };
        assert(s@.skip(from as int) =~= unsigned_digits(s@));
        if from == n {
            return None;
        }
        match digits_value_upto(s, from, 0x7fff_ffff) {
            Some(v) => Some(v as i32),
            None => None,
        }
    }
}

/// Parses a comma separated list of ports; `None` when a piece is not a port.
pub fn try_parse_ports(ports: &str) -> (r: Option<Vec<u16>>)
    ensures
        match r {
            Some(v) => ports_text_value(ports@) == Some(v@),
            None => ports_text_value(ports@) is None,
        },
{
    let n = ports.unicode_len();
    let mut out: Vec<u16> = Vec::new();
    let ghost mut done: Seq<Seq<char>> = Seq::empty();
    let mut start: usize = 0;
    let mut i: usize = 0;
    assert(ports@.take(0) =~= Seq::<char>::empty());
    assert(ports@.subrange(0, 0) =~= Seq::<char>::empty());
    while i < n
        invariant
            n == ports@.len(),
            0 <= start <= i <= n,
            split_commas(ports@.take(i as int)) == done.push(ports@.subrange(start as int, i as int)),
            out@.len() == done.len(),
            forall|k: int| 0 <= k < done.len() ==> u16_text_value(#[trigger] done[k]) == Some(out@[k]),
        decreases n - i,
    {
        let c = ports.get_char(i);
        proof {
            assert(ports@.take(i + 1).drop_last() =~= ports@.take(i as int));
            assert(ports@.take(i + 1).last() == c);
        }
        if c == ',' {
            let piece = ports.substring_char(start, i);
            match parse_u16(piece) {
                Some(p) => {
                    out.push(p);
                    proof {
                        done = done.push(ports@.subrange(start as int, i as int));
                        assert(ports@.subrange(i + 1, i + 1) =~= Seq::<char>::empty());
                    }
                    start = i + 1;
                },
                None => {
                    proof {
                        let whole = ports@;
                        let upto = split_commas(whole.take(i + 1));
                        assert(upto == done.push(whole.subrange(start as int, i as int)).push(Seq::empty()));
                        lemma_split_commas_prefix(whole, i + 1);
                        let pieces = split_commas(whole);
                        assert(upto[done.len() as int] == piece@);
                        assert(pieces[done.len() as int] == upto[done.len() as int]);
                    }
                    return None;
                },
            }
        } else {
            proof {
                assert(ports@.subrange(start as int, i + 1) =~= ports@.subrange(start as int, i as int).push(c));
            }
        }
        i = i + 1;
    }
    let piece = ports.substring_char(start, n);
    assert(ports@.take(n as int) =~= ports@);
    match parse_u16(piece) {
        Some(p) => {
            out.push(p);
            proof {
                let pieces = split_commas(ports@);
                let full = done.push(ports@.subrange(start as int, n as int));
                assert(pieces == full);
                assert forall|k: int| 0 <= k < pieces.len() implies (#[trigger] u16_text_value(pieces[k])) is Some by {
                    if k < done.len() {
                        assert(pieces[k] == done[k]);
                    }
                }
                assert(out@ =~= Seq::new(pieces.len(), |k: int| u16_text_value(pieces[k])->0));
            }
            Some(out)
        },
        None => {
            proof {
                let pieces = split_commas(ports@);
                assert(pieces[done.len() as int] == piece@);
            }
            None
        },
    }
}

/// The completed pieces of a prefix ending in a comma stay pieces of the whole text.
proof fn lemma_split_commas_prefix(s: Seq<char>, i: int)
    requires
        0 < i <= s.len(),
        s[i - 1] == ',',
    ensures
        split_commas(s).len() >= split_commas(s.take(i)).len(),
        forall|k: int|
            0 <= k < split_commas(s.take(i)).len() - 1 ==> split_commas(s)[k] == #[trigger] split_commas(s.take(i))[k],
    decreases s.len() - i,
{
    if i == s.len() {
        assert(s.take(i) =~= s);
    } else {
        lemma_split_commas_prefix(s.take(s.len() - 1), i);
        assert(s.take(s.len() - 1).take(i) =~= s.take(i));
        assert(s.drop_last() =~= s.take(s.len() - 1));
        lemma_split_commas_nonempty(s.drop_last());
    }
}

/// Parses a comma separated list of ports, each a `u16` in decimal.
pub fn parse_ports(ports: &str) -> (r: Vec<u16>)
    requires
        ports_text_value(ports@) is Some,
    ensures
        ports_text_value(ports@) == Some(r@),
{
    match try_parse_ports(ports) {
        Some(v) => v,
        None => Vec::new(),
    }
}

fn digit_str(d: u64) -> (r: &'static str)
    requires
        d < 10,
    ensures
        r@ == seq![digit_char(d as nat)],
{
    proof {
        reveal_strlit("0");
        reveal_strlit("1");
        reveal_strlit("2");
        reveal_strlit("3");
        reveal_strlit("4");
        reveal_strlit("5");
        reveal_strlit("6");
        reveal_strlit("7");
        reveal_strlit("8");
        reveal_strlit("9");
    }
    if d == 0 {
        "0"
    } else if d == 1 {
        "1"
    } else if d == 2 {
        "2"
    } else if d == 3 {
        "3"
    } else if d == 4 {
        "4"
    } else if d == 5 {
        "5"
    } else if d == 6 {
        "6"
    } else if d == 7 {
        "7"
    } else if d == 8 {
        "8"
    } else {
        "9"
    }
}

/// The decimal text of a number.
pub fn decimal_string(n: u64) -> (r: String)
    ensures
        r@ == decimal_chars(n as nat),
    decreases n,
{
    if n < 10 {
        digit_str(n).to_string()
    } else {
        let mut s = decimal_string(n / 10);
        s.append(digit_str(n % 10));
        s
    }
}

} // verus!
