use vstd::prelude::*;
use vstd::string::StrSliceExecFns;
use crate::connection::{Cookie, Cookies};

verus! {

/// The code of a character with ASCII upper case letters made lower case.
pub open spec fn ascii_lower(c: char) -> u32 {
    if 'A' <= c && c <= 'Z' {
        ((c as u32) + 32) as u32
    } else {
        c as u32
    }
}

/// Two texts are equal when ASCII letter case is ignored.
pub open spec fn same_ignoring_ascii_case(a: Seq<char>, b: Seq<char>) -> bool {
    &&& a.len() == b.len()
    &&& forall|i: int| 0 <= i < a.len() ==> ascii_lower(#[trigger] a[i]) == ascii_lower(b[i])
}

fn lower(c: char) -> (r: u32)
    ensures
        r == ascii_lower(c),
{
    if 'A' <= c && c <= 'Z' {
        (c as u32) + 32
    } else {
        c as u32
    }
}

/// Text equality ignoring ASCII letter case, as `str::eq_ignore_ascii_case`.
pub fn eq_ignore_ascii_case(a: &str, b: &str) -> (r: bool)
    ensures
        r == same_ignoring_ascii_case(a@, b@),
{
    let n = a.unicode_len();
    if n != b.unicode_len() {
        return false;
    }
    let mut i: usize = 0;
    while i < n
        invariant
            n == a@.len(),
            n == b@.len(),
            0 <= i <= n,
            forall|j: int| 0 <= j < i ==> ascii_lower(#[trigger] a@[j]) == ascii_lower(b@[j]),
        decreases n - i,
    {
        if lower(a.get_char(i)) != lower(b.get_char(i)) {
            return false;
        }
        i = i + 1;
    }
    true
}

/// The cookies an API session set: the first cookie of each name (names
/// compared ignoring ASCII case) is kept.
pub struct MuonCookieStore {
    cookies: Vec<Cookie>,
}

/// The store holds a cookie whose name matches, ignoring ASCII case.
pub open spec fn has_name(cookies: Seq<Cookie>, name: Seq<char>) -> bool {
    exists|i: int| 0 <= i < cookies.len() && same_ignoring_ascii_case((#[trigger] cookies[i]).name@, name)
}

impl View for MuonCookieStore {
    type V = Seq<Cookie>;

    closed spec fn view(&self) -> Seq<Cookie> {
        self.cookies@
    }
}

impl MuonCookieStore {
    /// No cookies.
    pub fn new() -> (r: MuonCookieStore)
        ensures
            r@ == Seq::<Cookie>::empty(),
    {
        MuonCookieStore { cookies: Vec::new() }
    }

    /// Keeps the cookie unless one of the same name is kept already.
    pub fn set(&mut self, cookie: Cookie)
        ensures
            has_name(old(self)@, cookie.name@) ==> final(self)@ == old(self)@,
            !has_name(old(self)@, cookie.name@) ==> final(self)@ == old(self)@.push(cookie),
    {
        let mut i: usize = 0;
        while i < self.cookies.len()
            invariant
                0 <= i <= self.cookies.len(),
                self@ == old(self)@,
                forall|j: int| 0 <= j < i ==> !same_ignoring_ascii_case((#[trigger] self.cookies@[j]).name@, cookie.name@),
            decreases self.cookies.len() - i,
        {
            if eq_ignore_ascii_case(self.cookies[i].name.as_str(), cookie.name.as_str()) {
                return;
            }
            i = i + 1;
        }
        self.cookies.push(cookie);
    }

    /// The cookies kept, in the order they were set.
    pub fn get(&self) -> (r: Cookies)
        ensures
            r.cookies@.len() == self@.len(),
            forall|i: int| 0 <= i < self@.len() ==> (#[trigger] r.cookies@[i]).name@ == self@[i].name@ && r.cookies@[i].value@ == self@[i].value@,
    {
        let mut out: Vec<Cookie> = Vec::new();
        let mut i: usize = 0;
        while i < self.cookies.len()
            invariant
                0 <= i <= self.cookies.len(),
                out@.len() == i,
                forall|j: int| 0 <= j < i ==> (#[trigger] out@[j]).name@ == self@[j].name@ && out@[j].value@ == self@[j].value@,
            decreases self.cookies.len() - i,
        {
            out.push(Cookie { name: self.cookies[i].name.clone(), value: self.cookies[i].value.clone() });
            i = i + 1;
        }
        Cookies { cookies: out }
    }
}

/// No two cookies share a name, ignoring ASCII case.
pub open spec fn names_distinct(cookies: Seq<Cookie>) -> bool {
    forall|i: int, j: int|
        0 <= i < j < cookies.len() ==> !same_ignoring_ascii_case(cookies[i].name@, cookies[j].name@)
}

/// Setting cookies keeps names distinct (ignoring ASCII case): `after` is the
/// store after `set(cookie)` on `before`, as its contract gives it.
pub proof fn law_cookie_names_stay_distinct(before: Seq<Cookie>, after: Seq<Cookie>, cookie: Cookie)
    requires
        names_distinct(before),
        has_name(before, cookie.name@) ==> after == before,
        !has_name(before, cookie.name@) ==> after == before.push(cookie),
    ensures
        names_distinct(after),
{
    if !has_name(before, cookie.name@) {
        assert forall|i: int, j: int| 0 <= i < j < after.len() implies !same_ignoring_ascii_case(
            after[i].name@,
            after[j].name@,
        ) by {
            if j == before.len() {
                assert(after[i] == before[i]);
                assert(after[j] == cookie);
                if same_ignoring_ascii_case(before[i].name@, cookie.name@) {
                    assert(has_name(before, cookie.name@));
                }
            } else {
                assert(after[i] == before[i]);
                assert(after[j] == before[j]);
            }
        }
    }
}

} // verus!
