//! The literal route table and the exact wire format of responses.
//!
//! A request is one line of bytes, `METHOD PATH VERSION`. Routing is an
//! exact match of that line against a small table; unmatched lines fall
//! through to the fallback entry. A response is the chosen status line,
//! a `Content-Length` header carrying the body's byte length in decimal,
//! a blank line, and the body, byte for byte.

use vstd::prelude::*;

verus! {

/// How long the deliberately slow route blocks its serving worker, in
/// seconds.
pub const SLEEP_DELAY_SECS: u64 = 5;

/// The bytes of the line terminator `"\r\n"`.
pub open spec fn crlf_bytes() -> Seq<u8> {
    seq![13u8, 10u8]
}

/// The bytes of the status line `"HTTP/1.1 200 OK"`.
pub open spec fn status_ok_bytes() -> Seq<u8> {
    seq![72u8, 84u8, 84u8, 80u8, 47u8, 49u8, 46u8, 49u8, 32u8, 50u8, 48u8, 48u8, 32u8, 79u8, 75u8]
}

/// The bytes of the status line `"HTTP/1.1 404 NOT FOUND"`.
pub open spec fn status_not_found_bytes() -> Seq<u8> {
    seq![72u8, 84u8, 84u8, 80u8, 47u8, 49u8, 46u8, 49u8, 32u8, 52u8, 48u8, 52u8, 32u8, 78u8, 79u8,
        84u8, 32u8, 70u8, 79u8, 85u8, 78u8, 68u8]
}

/// The bytes of the request line `"GET / HTTP/1.1"`.
pub open spec fn root_request_bytes() -> Seq<u8> {
    seq![71u8, 69u8, 84u8, 32u8, 47u8, 32u8, 72u8, 84u8, 84u8, 80u8, 47u8, 49u8, 46u8, 49u8]
}

/// The bytes of the request line `"GET /sleep HTTP/1.1"`.
pub open spec fn sleep_request_bytes() -> Seq<u8> {
    seq![71u8, 69u8, 84u8, 32u8, 47u8, 115u8, 108u8, 101u8, 101u8, 112u8, 32u8, 72u8, 84u8, 84u8,
        80u8, 47u8, 49u8, 46u8, 49u8]
}

/// The bytes of the primary resource name `"hello.html"`.
pub open spec fn primary_resource_bytes() -> Seq<u8> {
    seq![104u8, 101u8, 108u8, 108u8, 111u8, 46u8, 104u8, 116u8, 109u8, 108u8]
}

/// The bytes of the fallback resource name `"404.html"`.
pub open spec fn fallback_resource_bytes() -> Seq<u8> {
    seq![52u8, 48u8, 52u8, 46u8, 104u8, 116u8, 109u8, 108u8]
}

/// The bytes of the header prefix `"Content-Length: "`.
pub open spec fn content_length_prefix_bytes() -> Seq<u8> {
    seq![67u8, 111u8, 110u8, 116u8, 101u8, 110u8, 116u8, 45u8, 76u8, 101u8, 110u8, 103u8, 116u8,
        104u8, 58u8, 32u8]
}

/// The decimal digits of `n`, most significant first, without leading
/// zeros (a single `0` for zero itself).
pub open spec fn decimal_digits(n: nat) -> Seq<u8>
    decreases n,
{
    if n < 10 {
        seq![(48 + n) as u8]
    } else {
        decimal_digits(n / 10).push((48 + n % 10) as u8)
    }
}

/// The number a string of decimal digits denotes.
pub open spec fn decimal_value(s: Seq<u8>) -> int
    decreases s.len(),
{
    if s.len() == 0 {
        0
    } else {
        decimal_value(s.drop_last()) * 10 + s.last() - 48
    }
}

/// The full wire format of one response: status line, `\r\n`,
/// `Content-Length: ` followed by the body length in decimal, a blank
/// line, and the body.
pub open spec fn response_bytes(status: Seq<u8>, body: Seq<u8>) -> Seq<u8> {
    status + crlf_bytes() + content_length_prefix_bytes() + decimal_digits(body.len()) + crlf_bytes()
        + crlf_bytes() + body
}

/// What the server does for one matched request line: the status line to
/// send, the name of the resource whose contents become the body, and how
/// many seconds the serving worker deliberately blocks first.
pub struct RoutePolicy {
    pub status: Vec<u8>,
    pub resource: Vec<u8>,
    pub delay_secs: u64,
}

/// One row of the route table: an exact request line and its policy.
pub struct Route {
    pub pattern: Vec<u8>,
    pub policy: RoutePolicy,
}

/// The route table: exact-match rows tried in order, and the fallback
/// policy for every request line no row matches.
pub struct RouteTable {
    pub routes: Vec<Route>,
    pub fallback: RoutePolicy,
}

/// Two policies that behave identically: same status, same resource,
/// same delay.
pub open spec fn policy_matches(a: RoutePolicy, b: RoutePolicy) -> bool {
    &&& a.status@ == b.status@
    &&& a.resource@ == b.resource@
    &&& a.delay_secs == b.delay_secs
}

/// The index of the first row at or after `i` whose pattern is exactly
/// `req`, or the table's length if none matches.
pub open spec fn chosen_index(routes: Seq<Route>, req: Seq<u8>, i: int) -> int
    decreases routes.len() - i,
{
    if i >= routes.len() {
        routes.len() as int
    } else if routes[i].pattern@ == req {
        i
    } else {
        chosen_index(routes, req, i + 1)
    }
}

/// The policy the table chooses for `req`: the first matching row's, or
/// the fallback when no row matches.
pub open spec fn route_choice(t: RouteTable, req: Seq<u8>) -> RoutePolicy {
    let k = chosen_index(t.routes@, req, 0);
    if k < t.routes@.len() {
        t.routes@[k].policy
    } else {
        t.fallback
    }
}

/// Whether two byte strings hold the same bytes.
pub fn bytes_eq(a: &Vec<u8>, b: &Vec<u8>) -> (r: bool)
    ensures
        r == (a@ == b@),
{
    if a.len() != b.len() {
        return false;
    }
    let mut i: usize = 0;
    while i < a.len()
        invariant
            i <= a@.len(),
            a@.len() == b@.len(),
            forall|j: int| 0 <= j < i ==> a@[j] == b@[j],
        decreases a@.len() - i,
    {
        if a[i] != b[i] {
            return false;
        }
        i = i + 1;
    }
    assert(a@ =~= b@);
    true
}

impl RouteTable {
    /// Chooses the policy for one request line: the first row whose
    /// pattern equals the line exactly, or the fallback if none does.
    pub fn plan<'a>(&'a self, request_line: &Vec<u8>) -> (r: &'a RoutePolicy)
        ensures
            policy_matches(*r, route_choice(*self, request_line@)),
    {
        let mut i: usize = 0;
        while i < self.routes.len()
            invariant
                i <= self.routes@.len(),
                chosen_index(self.routes@, request_line@, 0) == chosen_index(
                    self.routes@,
                    request_line@,
                    i as int,
                ),
            decreases self.routes@.len() - i,
        {
            if bytes_eq(&self.routes[i].pattern, request_line) {
                return &self.routes[i].policy;
            }
            assert(chosen_index(self.routes@, request_line@, i as int) == chosen_index(
                self.routes@,
                request_line@,
                i as int + 1,
            ));
            i = i + 1;
        }
        &self.fallback
    }
}

/// The table the server ships with: the primary resource at the
/// root, the same resource behind a deliberate delay at `/sleep`, and the
/// fallback page for everything else.
pub open spec fn is_default_table(t: RouteTable) -> bool {
    &&& t.routes@.len() == 2
    &&& t.routes@[0].pattern@ == root_request_bytes()
    &&& t.routes@[0].policy.status@ == status_ok_bytes()
    &&& t.routes@[0].policy.resource@ == primary_resource_bytes()
    &&& t.routes@[0].policy.delay_secs == 0
    &&& t.routes@[1].pattern@ == sleep_request_bytes()
    &&& t.routes@[1].policy.status@ == status_ok_bytes()
    &&& t.routes@[1].policy.resource@ == primary_resource_bytes()
    &&& t.routes@[1].policy.delay_secs == SLEEP_DELAY_SECS
    &&& t.fallback.status@ == status_not_found_bytes()
    &&& t.fallback.resource@ == fallback_resource_bytes()
    &&& t.fallback.delay_secs == 0
}

/// Builds the default route table.
pub fn default_table() -> (t: RouteTable)
    ensures
        is_default_table(t),
{
    let mut routes: Vec<Route> = Vec::new();
    routes.push(Route {
        pattern: root_request_vec(),
        policy: RoutePolicy {
            status: status_ok_vec(),
            resource: primary_resource_vec(),
            delay_secs: 0,
        },
    });
    routes.push(Route {
        pattern: sleep_request_vec(),
        policy: RoutePolicy {
            status: status_ok_vec(),
            resource: primary_resource_vec(),
            delay_secs: SLEEP_DELAY_SECS,
        },
    });
    RouteTable {
        routes,
        fallback: RoutePolicy {
            status: status_not_found_vec(),
            resource: fallback_resource_vec(),
            delay_secs: 0,
        },
    }
}

/// Appends every byte of `src` to `dst`.
fn push_bytes(dst: &mut Vec<u8>, src: &Vec<u8>)
    ensures
        final(dst)@ == old(dst)@ + src@,
{
    let ghost dst0: Seq<u8> = dst@;
    let mut i: usize = 0;
    while i < src.len()
        invariant
            i <= src@.len(),
            dst@ == dst0 + src@.subrange(0, i as int),
        decreases src@.len() - i,
    {
        dst.push(src[i]);
        assert(dst@ =~= dst0 + src@.subrange(0, i as int + 1));
        i = i + 1;
    }
    assert(dst@ =~= dst0 + src@);
}

/// Writes `n` in decimal, most significant digit first.
pub fn decimal_vec(n: usize) -> (r: Vec<u8>)
    ensures
        r@ == decimal_digits(n as nat),
    decreases n,
{
    if n < 10 {
        let mut v: Vec<u8> = Vec::new();
        v.push(48 + n as u8);
        assert(v@ =~= decimal_digits(n as nat));
        v
    } else {
        let mut v = decimal_vec(n / 10);
        v.push(48 + (n % 10) as u8);
        assert(v@ =~= decimal_digits(n as nat));
        v
    }
}

/// Builds the exact bytes written back on one connection: `status`, the
/// `Content-Length` header for `body`, a blank line, and `body` itself.
pub fn build_response(status: &Vec<u8>, body: &Vec<u8>) -> (r: Vec<u8>)
    ensures
        r@ == response_bytes(status@, body@),
{
    let mut r: Vec<u8> = Vec::new();
    push_bytes(&mut r, status);
    let crlf = crlf_vec();
    push_bytes(&mut r, &crlf);
    let prefix = content_length_prefix_vec();
    push_bytes(&mut r, &prefix);
    let digits = decimal_vec(body.len());
    push_bytes(&mut r, &digits);
    push_bytes(&mut r, &crlf);
    push_bytes(&mut r, &crlf);
    push_bytes(&mut r, body);
    assert(r@ =~= response_bytes(status@, body@));
    r
}

/// `"\r\n"`, as bytes.
pub fn crlf_vec() -> (r: Vec<u8>)
    ensures
        r@ == crlf_bytes(),
{
    let mut v: Vec<u8> = Vec::new();
    v.push(13);
    v.push(10);
    assert(v@ =~= crlf_bytes());
    v
}

/// `"HTTP/1.1 200 OK"`, as bytes.
pub fn status_ok_vec() -> (r: Vec<u8>)
    ensures
        r@ == status_ok_bytes(),
{
    let mut v: Vec<u8> = Vec::new();
    v.push(72);
    v.push(84);
    v.push(84);
    v.push(80);
    v.push(47);
    v.push(49);
    v.push(46);
    v.push(49);
    v.push(32);
    v.push(50);
    v.push(48);
    v.push(48);
    v.push(32);
    v.push(79);
    v.push(75);
    assert(v@ =~= status_ok_bytes());
    v
}

/// `"HTTP/1.1 404 NOT FOUND"`, as bytes.
pub fn status_not_found_vec() -> (r: Vec<u8>)
    ensures
        r@ == status_not_found_bytes(),
{
    let mut v: Vec<u8> = Vec::new();
    v.push(72);
    v.push(84);
    v.push(84);
    v.push(80);
    v.push(47);
    v.push(49);
    v.push(46);
    v.push(49);
    v.push(32);
    v.push(52);
    v.push(48);
    v.push(52);
    v.push(32);
    v.push(78);
    v.push(79);
    v.push(84);
    v.push(32);
    v.push(70);
    v.push(79);
    v.push(85);
    v.push(78);
    v.push(68);
    assert(v@ =~= status_not_found_bytes());
    v
}

/// `"GET / HTTP/1.1"`, as bytes.
pub fn root_request_vec() -> (r: Vec<u8>)
    ensures
        r@ == root_request_bytes(),
{
    let mut v: Vec<u8> = Vec::new();
    v.push(71);
    v.push(69);
    v.push(84);
    v.push(32);
    v.push(47);
    v.push(32);
    v.push(72);
    v.push(84);
    v.push(84);
    v.push(80);
    v.push(47);
    v.push(49);
    v.push(46);
    v.push(49);
    assert(v@ =~= root_request_bytes());
    v
}

/// `"GET /sleep HTTP/1.1"`, as bytes.
pub fn sleep_request_vec() -> (r: Vec<u8>)
    ensures
        r@ == sleep_request_bytes(),
{
    let mut v: Vec<u8> = Vec::new();
    v.push(71);
    v.push(69);
    v.push(84);
    v.push(32);
    v.push(47);
    v.push(115);
    v.push(108);
    v.push(101);
    v.push(101);
    v.push(112);
    v.push(32);
    v.push(72);
    v.push(84);
    v.push(84);
    v.push(80);
    v.push(47);
    v.push(49);
    v.push(46);
    v.push(49);
    assert(v@ =~= sleep_request_bytes());
    v
}

/// `"hello.html"`, as bytes.
pub fn primary_resource_vec() -> (r: Vec<u8>)
    ensures
        r@ == primary_resource_bytes(),
{
    let mut v: Vec<u8> = Vec::new();
    v.push(104);
    v.push(101);
    v.push(108);
    v.push(108);
    v.push(111);
    v.push(46);
    v.push(104);
    v.push(116);
    v.push(109);
    v.push(108);
    assert(v@ =~= primary_resource_bytes());
    v
}

/// `"404.html"`, as bytes.
pub fn fallback_resource_vec() -> (r: Vec<u8>)
    ensures
        r@ == fallback_resource_bytes(),
{
    let mut v: Vec<u8> = Vec::new();
    v.push(52);
    v.push(48);
    v.push(52);
    v.push(46);
    v.push(104);
    v.push(116);
    v.push(109);
    v.push(108);
    assert(v@ =~= fallback_resource_bytes());
    v
}

/// `"Content-Length: "`, as bytes.
pub fn content_length_prefix_vec() -> (r: Vec<u8>)
    ensures
        r@ == content_length_prefix_bytes(),
{
    let mut v: Vec<u8> = Vec::new();
    v.push(67);
    v.push(111);
    v.push(110);
    v.push(116);
    v.push(101);
    v.push(110);
    v.push(116);
    v.push(45);
    v.push(76);
    v.push(101);
    v.push(110);
    v.push(103);
    v.push(116);
    v.push(104);
    v.push(58);
    v.push(32);
    assert(v@ =~= content_length_prefix_bytes());
    v
}

/// Law (routing of the default table): the root line gets the primary
/// resource at once; the sleep line gets the primary resource behind the
/// fixed delay; every other request line, whatever it holds, gets the
/// fallback page with the not-found status.
pub proof fn lemma_default_routing(t: RouteTable, req: Seq<u8>)
    requires
        is_default_table(t),
    ensures
        req == root_request_bytes() ==> {
            &&& route_choice(t, req).status@ == status_ok_bytes()
            &&& route_choice(t, req).resource@ == primary_resource_bytes()
            &&& route_choice(t, req).delay_secs == 0
        },
        req == sleep_request_bytes() ==> {
            &&& route_choice(t, req).status@ == status_ok_bytes()
            &&& route_choice(t, req).resource@ == primary_resource_bytes()
            &&& route_choice(t, req).delay_secs == SLEEP_DELAY_SECS
        },
        req != root_request_bytes() && req != sleep_request_bytes() ==> {
            &&& route_choice(t, req).status@ == status_not_found_bytes()
            &&& route_choice(t, req).resource@ == fallback_resource_bytes()
            &&& route_choice(t, req).delay_secs == 0
        },
{
    assert(root_request_bytes().len() == 14);
    assert(sleep_request_bytes().len() == 19);
    assert(chosen_index(t.routes@, req, 2) == 2);
    if req == root_request_bytes() {
        assert(chosen_index(t.routes@, req, 0) == 0);
    } else if req == sleep_request_bytes() {
        assert(chosen_index(t.routes@, req, 1) == 1);
        assert(chosen_index(t.routes@, req, 0) == 1);
    } else {
        assert(chosen_index(t.routes@, req, 1) == 2);
        assert(chosen_index(t.routes@, req, 0) == 2);
    }
}

/// Law (decimal digits are digits): the length header's digit string is
/// never empty and holds ASCII digits only.
pub proof fn lemma_decimal_digits_shape(n: nat)
    ensures
        decimal_digits(n).len() >= 1,
        forall|i: int|
            0 <= i < decimal_digits(n).len() ==> 48 <= #[trigger] decimal_digits(n)[i] <= 57,
    decreases n,
{
    if n < 10 {
    } else {
        lemma_decimal_digits_shape(n / 10);
        assert(decimal_digits(n) == decimal_digits(n / 10).push((48 + n % 10) as u8));
    }
}

/// Law (the length header is exact): the digit string written for `n`
/// denotes `n` itself.
pub proof fn lemma_decimal_round_trip(n: nat)
    ensures
        decimal_value(decimal_digits(n)) == n,
    decreases n,
{
    if n < 10 {
        assert(decimal_digits(n) == seq![(48 + n) as u8]);
        assert(decimal_digits(n).drop_last() =~= Seq::<u8>::empty());
        assert(decimal_value(Seq::<u8>::empty()) == 0);
        assert(decimal_digits(n).last() == (48 + n) as u8);
    } else {
        lemma_decimal_round_trip(n / 10);
        assert(decimal_digits(n) == decimal_digits(n / 10).push((48 + n % 10) as u8));
        assert(decimal_digits(n).drop_last() =~= decimal_digits(n / 10));
        assert(decimal_digits(n).last() == (48 + n % 10) as u8);
        assert(decimal_value(decimal_digits(n)) == decimal_value(decimal_digits(n / 10)) * 10 + (48
            + n % 10) as u8 - 48);
        vstd::arithmetic::div_mod::lemma_fundamental_div_mod(n as int, 10);
    }
}

/// Law (wire format): a response starts with the status line, the header
/// region between the first `\r\n` and the blank line is exactly
/// `Content-Length: ` followed by digits denoting the body's byte length,
/// and the bytes after the blank line are the body, byte for byte.
pub proof fn lemma_response_structure(status: Seq<u8>, body: Seq<u8>)
    ensures
        response_bytes(status, body).len() == status.len() + 2 + content_length_prefix_bytes().len()
            + decimal_digits(body.len()).len() + 4 + body.len(),
        response_bytes(status, body).subrange(0, status.len() as int) == status,
        response_bytes(status, body).subrange(
            status.len() as int,
            status.len() as int + 2,
        ) == crlf_bytes(),
        response_bytes(status, body).subrange(
            status.len() as int + 2,
            status.len() as int + 2 + content_length_prefix_bytes().len() as int,
        ) == content_length_prefix_bytes(),
        response_bytes(status, body).subrange(
            status.len() as int + 2 + content_length_prefix_bytes().len() as int,
            status.len() as int + 2 + content_length_prefix_bytes().len() as int + decimal_digits(body.len()).len() as int,
        ) == decimal_digits(body.len()),
        decimal_value(decimal_digits(body.len())) == body.len(),
        response_bytes(status, body).subrange(
            response_bytes(status, body).len() - body.len(),
            response_bytes(status, body).len() as int,
        ) == body,
{
    lemma_decimal_round_trip(body.len());
    let r = response_bytes(status, body);
    assert(r.subrange(0, status.len() as int) =~= status);
    assert(r.subrange(status.len() as int, status.len() as int + 2) =~= crlf_bytes());
    assert(r.subrange(
        status.len() as int + 2,
        status.len() as int + 2 + content_length_prefix_bytes().len() as int,
    ) =~= content_length_prefix_bytes());
    assert(r.subrange(
        status.len() as int + 2 + content_length_prefix_bytes().len() as int,
        status.len() as int + 2 + content_length_prefix_bytes().len() as int + decimal_digits(body.len()).len() as int,
    ) =~= decimal_digits(body.len()));
    assert(r.subrange(r.len() - body.len(), r.len() as int) =~= body);
}

} // verus!
