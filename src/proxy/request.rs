use vstd::prelude::*;
use vstd::string::StringSliceAdditionalSpecFns;
use vstd::utf8::valid_utf8;

verus! {

/// One header line. Header names are case-insensitive: lookups compare them
/// in lower case.
pub struct Header {
    pub name: Vec<u8>,
    pub value: Vec<u8>,
}

/// The target of a request. An origin-form target (`/path?q`) has neither
/// scheme nor host; an absolute-form one has both.
pub struct Uri {
    pub scheme: Option<Vec<u8>>,
    /// The authority, `host[:port]`, as it was given.
    pub authority: Option<Vec<u8>>,
    pub path: Vec<u8>,
    pub query: Option<Vec<u8>>,
}

/// The address of the connection's remote end, as the acceptor saw it.
pub struct Peer {
    pub ip: Vec<u8>,
    pub port: u16,
}

/// The metadata of an inbound request. The body never passes through the rules,
/// so it is not part of this value.
pub struct Request {
    pub method: Vec<u8>,
    pub uri: Uri,
    pub headers: Vec<Header>,
    pub peer: Option<Peer>,
}

/// A response that the library synthesises itself.
pub struct Response {
    pub status: u16,
    pub body: Vec<u8>,
}

pub struct UriView {
    pub scheme: Option<Seq<u8>>,
    pub authority: Option<Seq<u8>>,
    pub path: Seq<u8>,
    pub query: Option<Seq<u8>>,
}

pub struct PeerView {
    pub ip: Seq<u8>,
    pub port: u16,
}

pub struct RequestView {
    pub method: Seq<u8>,
    pub uri: UriView,
    pub headers: Seq<(Seq<u8>, Seq<u8>)>,
    pub peer: Option<PeerView>,
}

pub struct ResponseView {
    pub status: u16,
    pub body: Seq<u8>,
}

pub open spec fn opt_bytes(o: Option<Vec<u8>>) -> Option<Seq<u8>> {
    match o {
        Some(v) => Some(v@),
        None => None,
    }
}

impl View for Header {
    type V = (Seq<u8>, Seq<u8>);

    open spec fn view(&self) -> (Seq<u8>, Seq<u8>) {
        (self.name@, self.value@)
    }
}

impl View for Uri {
    type V = UriView;

    open spec fn view(&self) -> UriView {
        UriView {
            scheme: opt_bytes(self.scheme),
            authority: opt_bytes(self.authority),
            path: self.path@,
            query: opt_bytes(self.query),
        }
    }
}

impl View for Peer {
    type V = PeerView;

    open spec fn view(&self) -> PeerView {
        PeerView { ip: self.ip@, port: self.port }
    }
}

pub open spec fn headers_view(hs: Seq<Header>) -> Seq<(Seq<u8>, Seq<u8>)> {
    hs.map_values(|h: Header| h@)
}

impl View for Request {
    type V = RequestView;

    open spec fn view(&self) -> RequestView {
        RequestView {
            method: self.method@,
            uri: self.uri@,
            headers: headers_view(self.headers@),
            peer: match self.peer {
                Some(p) => Some(p@),
                None => None,
            },
        }
    }
}

impl View for Response {
    type V = ResponseView;

    open spec fn view(&self) -> ResponseView {
        ResponseView { status: self.status, body: self.body@ }
    }
}

/// Whether two header names are the same name, in any case.
pub open spec fn same_name(a: Seq<u8>, b: Seq<u8>) -> bool {
    lower(a) == lower(b)
}

/// The value of the first header called `name` (in any case), if there is one.
pub open spec fn header_value(hs: Seq<(Seq<u8>, Seq<u8>)>, name: Seq<u8>) -> Option<Seq<u8>>
    decreases hs.len(),
{
    if hs.len() == 0 {
        None
    } else {
        let earlier = header_value(hs.drop_last(), name);
        if earlier is Some {
            earlier
        } else if same_name(hs.last().0, name) {
            Some(hs.last().1)
        } else {
            None
        }
    }
}

/// The headers with every line called `name` (in any case) taken out, the others in order.
pub open spec fn without_header(hs: Seq<(Seq<u8>, Seq<u8>)>, name: Seq<u8>) -> Seq<(Seq<u8>, Seq<u8>)>
    decreases hs.len(),
{
    if hs.len() == 0 {
        hs
    } else {
        let rest = without_header(hs.drop_last(), name);
        if same_name(hs.last().0, name) {
            rest
        } else {
            rest.push(hs.last())
        }
    }
}

/// Replaces every value of `name` by the one value `value`.
pub open spec fn set_header_spec(hs: Seq<(Seq<u8>, Seq<u8>)>, name: Seq<u8>, value: Seq<u8>) -> Seq<(Seq<u8>, Seq<u8>)> {
    without_header(hs, name).push((name, value))
}

/// A byte allowed in a header name.
pub open spec fn is_name_byte(b: u8) -> bool {
    (48 <= b && b <= 57) || (65 <= b && b <= 90) || (97 <= b && b <= 122) || b == 33 || (35 <= b
        && b <= 39) || b == 42 || b == 43 || b == 45 || b == 46 || (94 <= b && b <= 96) || b == 124
        || b == 126
}

/// Whether `s` can be a header name.
pub open spec fn is_header_name(s: Seq<u8>) -> bool {
    s.len() > 0 && forall|i: int| 0 <= i < s.len() ==> is_name_byte(s[i])
}

pub open spec fn lower_byte(b: u8) -> u8 {
    if 65 <= b && b <= 90 {
        (b + 32) as u8
    } else {
        b
    }
}

/// ASCII lower case of a byte string.
pub open spec fn lower(s: Seq<u8>) -> Seq<u8> {
    Seq::new(s.len(), |i: int| lower_byte(s[i]))
}

pub open spec fn starts_with(s: Seq<u8>, prefix: Seq<u8>) -> bool {
    prefix.len() <= s.len() && s.subrange(0, prefix.len() as int) == prefix
}

/// Copies the bytes of a string.
pub fn bytes_of(s: &str) -> (r: Vec<u8>)
    ensures
        r@ == s.spec_bytes(),
{
    let b = s.as_bytes();
    let mut r: Vec<u8> = Vec::new();
    let mut i: usize = 0;
    while i < b.len()
        invariant
            b@ == s.spec_bytes(),
            i <= b@.len(),
            r@ == b@.subrange(0, i as int),
        decreases b@.len() - i,
    {
        r.push(b[i]);
        i = i + 1;
        assert(r@ =~= b@.subrange(0, i as int));
    }
    assert(r@ =~= b@);
    r
}

/// A copy of a byte string.
pub fn copy_bytes(s: &Vec<u8>) -> (r: Vec<u8>)
    ensures
        r@ == s@,
{
    let mut r: Vec<u8> = Vec::new();
    let mut i: usize = 0;
    while i < s.len()
        invariant
            i <= s@.len(),
            r@ == s@.subrange(0, i as int),
        decreases s@.len() - i,
    {
        r.push(s[i]);
        i = i + 1;
        assert(r@ =~= s@.subrange(0, i as int));
    }
    assert(r@ =~= s@);
    r
}

/// `a` followed by `b`.
pub fn concat(a: &Vec<u8>, b: &Vec<u8>) -> (r: Vec<u8>)
    ensures
        r@ == a@ + b@,
{
    let mut r = copy_bytes(a);
    let mut i: usize = 0;
    while i < b.len()
        invariant
            i <= b@.len(),
            r@ == a@ + b@.subrange(0, i as int),
        decreases b@.len() - i,
    {
        r.push(b[i]);
        i = i + 1;
        assert(r@ =~= a@ + b@.subrange(0, i as int));
    }
    assert(b@.subrange(0, b@.len() as int) =~= b@);
    r
}

/// ASCII lower case of a byte string.
pub fn to_lower(s: &Vec<u8>) -> (r: Vec<u8>)
    ensures
        r@ == lower(s@),
{
    let mut r: Vec<u8> = Vec::new();
    let mut i: usize = 0;
    while i < s.len()
        invariant
            i <= s@.len(),
            r@ == lower(s@.subrange(0, i as int)),
        decreases s@.len() - i,
    {
        let b = s[i];
        let l: u8 = if 65 <= b && b <= 90 { b + 32 } else { b };
        r.push(l);
        i = i + 1;
        assert(r@ =~= lower(s@.subrange(0, i as int)));
    }
    assert(s@.subrange(0, s@.len() as int) =~= s@);
    r
}

/// Whether two header names are the same name, in any case.
pub fn names_match(a: &Vec<u8>, b: &Vec<u8>) -> (r: bool)
    ensures
        r == same_name(a@, b@),
{
    bytes_eq(&to_lower(a), &to_lower(b))
}

/// Whether two byte strings are equal.
pub fn bytes_eq(a: &Vec<u8>, b: &Vec<u8>) -> (r: bool)
    ensures
        r == (a@ == b@),
{
    if a.len() != b.len() {
        return false;
    }
    let mut i: usize = 0;
    while i < a.len()
        invariant
            a@.len() == b@.len(),
            i <= a@.len(),
            a@.subrange(0, i as int) == b@.subrange(0, i as int),
        decreases a@.len() - i,
    {
        if a[i] != b[i] {
            assert(a@[i as int] != b@[i as int]);
            return false;
        }
        i = i + 1;
        assert(a@.subrange(0, i as int) =~= a@.subrange(0, i as int - 1).push(a@[i - 1]));
        assert(b@.subrange(0, i as int) =~= b@.subrange(0, i as int - 1).push(b@[i - 1]));
    }
    assert(a@ =~= a@.subrange(0, i as int));
    assert(b@ =~= b@.subrange(0, i as int));
    true
}

/// Whether `s` begins with `prefix`.
pub fn has_prefix(s: &Vec<u8>, prefix: &Vec<u8>) -> (r: bool)
    ensures
        r == starts_with(s@, prefix@),
{
    if prefix.len() > s.len() {
        return false;
    }
    let mut i: usize = 0;
    while i < prefix.len()
        invariant
            prefix@.len() <= s@.len(),
            i <= prefix@.len(),
            forall|j: int| 0 <= j < i ==> s@[j] == prefix@[j],
        decreases prefix@.len() - i,
    {
        if s[i] != prefix[i] {
            assert(s@.subrange(0, prefix@.len() as int)[i as int] != prefix@[i as int]);
            return false;
        }
        i = i + 1;
    }
    assert(s@.subrange(0, prefix@.len() as int) =~= prefix@);
    true
}

/// Relies on std::str::from_utf8: it succeeds exactly on valid UTF-8.
#[verifier::external_body]
pub(crate) fn is_utf8(v: &Vec<u8>) -> (r: bool)
    ensures
        r == valid_utf8(v@),
{
    std::str::from_utf8(v.as_slice()).is_ok()
}

/// Looking a name up in a longer list finds what a prefix of it already had.
pub proof fn lemma_header_value_prefix(hs: Seq<(Seq<u8>, Seq<u8>)>, n: int, name: Seq<u8>)
    requires
        0 <= n <= hs.len(),
        header_value(hs.subrange(0, n), name) is Some,
    ensures
        header_value(hs, name) == header_value(hs.subrange(0, n), name),
    decreases hs.len() - n,
{
    if n < hs.len() {
        let longer = hs.subrange(0, n + 1);
        assert(longer.drop_last() =~= hs.subrange(0, n));
        lemma_header_value_prefix(hs, n + 1, name);
    } else {
        assert(hs.subrange(0, n) =~= hs);
    }
}

/// Taking out the lines of one name leaves the lookups of the other names
/// as they were and leaves none of that name.
pub proof fn lemma_without_header(hs: Seq<(Seq<u8>, Seq<u8>)>, name: Seq<u8>, other: Seq<u8>)
    ensures
        header_value(without_header(hs, name), other) == if same_name(other, name) {
            None
        } else {
            header_value(hs, other)
        },
    decreases hs.len(),
{
    if hs.len() > 0 {
        lemma_without_header(hs.drop_last(), name, other);
        let rest = without_header(hs.drop_last(), name);
        if hs.last().0 != name {
            assert(rest.push(hs.last()).drop_last() =~= rest);
        }
    }
}

/// After a header is set, it reads as the value set, and the other names read
/// as before.
pub proof fn lemma_set_header(hs: Seq<(Seq<u8>, Seq<u8>)>, name: Seq<u8>, value: Seq<u8>, other: Seq<u8>)
    ensures
        header_value(set_header_spec(hs, name, value), other) == if same_name(other, name) {
            Some(value)
        } else {
            header_value(hs, other)
        },
{
    lemma_without_header(hs, name, other);
    let w = without_header(hs, name);
    assert(w.push((name, value)).drop_last() =~= w);
}

/// The index of the first header called `name`.
pub fn find_header(headers: &Vec<Header>, name: &Vec<u8>) -> (r: Option<usize>)
    ensures
        match r {
            Some(i) => i < headers@.len() && header_value(headers_view(headers@), name@) == Some(headers@[i as int].value@),
            None => header_value(headers_view(headers@), name@) is None,
        },
{
    let ghost hv = headers_view(headers@);
    let mut i: usize = 0;
    while i < headers.len()
        invariant
            hv == headers_view(headers@),
            i <= headers@.len(),
            header_value(hv.subrange(0, i as int), name@) is None,
        decreases headers@.len() - i,
    {
        let found = names_match(&headers[i].name, name);
        assert(hv.subrange(0, i as int + 1).drop_last() =~= hv.subrange(0, i as int));
        if found {
            proof {
                lemma_header_value_prefix(hv, i as int + 1, name@);
            }
            return Some(i);
        }
        i = i + 1;
    }
    assert(hv.subrange(0, i as int) =~= hv);
    None
}

/// The value of the first header called `name`, copied.
pub fn get_header(headers: &Vec<Header>, name: &Vec<u8>) -> (r: Option<Vec<u8>>)
    ensures
        opt_bytes(r) == header_value(headers_view(headers@), name@),
{
    match find_header(headers, name) {
        Some(i) => Some(copy_bytes(&headers[i].value)),
        None => None,
    }
}

/// Replaces every line of a header by one line holding `value`.
pub fn set_header_line(headers: &mut Vec<Header>, name: &Vec<u8>, value: &Vec<u8>)
    ensures
        headers_view(final(headers)@) == set_header_spec(headers_view(old(headers)@), name@, value@),
{
    let ghost hv = headers_view(old(headers)@);
    let mut kept: Vec<Header> = Vec::new();
    let mut i: usize = 0;
    while i < headers.len()
        invariant
            hv == headers_view(headers@),
            i <= headers@.len(),
            headers_view(kept@) == without_header(hv.subrange(0, i as int), name@),
        decreases headers@.len() - i,
    {
        let same = names_match(&headers[i].name, name);
        assert(hv.subrange(0, i as int + 1).drop_last() =~= hv.subrange(0, i as int));
        if !same {
            let h = Header { name: copy_bytes(&headers[i].name), value: copy_bytes(&headers[i].value) };
            kept.push(h);
            assert(headers_view(kept@) =~= without_header(hv.subrange(0, i as int), name@).push(hv[i as int]));
        }
        i = i + 1;
    }
    assert(hv.subrange(0, i as int) =~= hv);
    let ghost before = kept@;
    kept.push(Header { name: copy_bytes(name), value: copy_bytes(value) });
    assert(headers_view(kept@) =~= headers_view(before).push((name@, value@)));
    *headers = kept;
}

/// Appends one header line, keeping the lines already there.
pub fn add_header_line(headers: &mut Vec<Header>, name: &Vec<u8>, value: &Vec<u8>)
    ensures
        headers_view(final(headers)@) == headers_view(old(headers)@).push((name@, value@)),
{
    headers.push(Header { name: copy_bytes(name), value: copy_bytes(value) });
    assert(headers_view(headers@) =~= headers_view(old(headers)@).push((name@, value@)));
}

/// The bytes of `s` from index `n` on.
pub fn bytes_from(s: &Vec<u8>, n: usize) -> (r: Vec<u8>)
    requires
        n <= s@.len(),
    ensures
        r@ == s@.subrange(n as int, s@.len() as int),
{
    let mut r: Vec<u8> = Vec::new();
    let mut i: usize = n;
    while i < s.len()
        invariant
            n <= i <= s@.len(),
            r@ == s@.subrange(n as int, i as int),
        decreases s@.len() - i,
    {
        r.push(s[i]);
        i = i + 1;
        assert(r@ =~= s@.subrange(n as int, i as int));
    }
    r
}

/// The index of the last `:` in `s`, or -1.
pub open spec fn last_colon(s: Seq<u8>) -> int
    decreases s.len(),
{
    if s.len() == 0 {
        -1
    } else if s.last() == 58 {
        s.len() - 1
    } else {
        last_colon(s.drop_last())
    }
}

pub open spec fn all_digits(s: Seq<u8>) -> bool {
    forall|i: int| 0 <= i < s.len() ==> 48 <= s[i] && s[i] <= 57
}

/// The decimal value of a run of digits, held at 65536 once it passes that.
pub open spec fn capped_value(s: Seq<u8>) -> nat
    decreases s.len(),
{
    if s.len() == 0 {
        0
    } else {
        let d: nat = if 48 <= s.last() && s.last() <= 57 { (s.last() - 48) as nat } else { 0 };
        let v = capped_value(s.drop_last()) * 10 + d;
        if v > 65536 {
            65536
        } else {
            v as nat
        }
    }
}

/// Whether `s` is the text of a port number.
pub open spec fn is_port_text(s: Seq<u8>) -> bool {
    s.len() > 0 && all_digits(s) && capped_value(s) <= 65535
}

/// Whether an authority ends in `:<port>`.
pub open spec fn has_port_suffix(a: Seq<u8>) -> bool {
    last_colon(a) >= 0 && is_port_text(a.subrange(last_colon(a) + 1, a.len() as int))
}

/// The host part of an authority `host[:port]`.
pub open spec fn authority_host(a: Seq<u8>) -> Seq<u8> {
    if has_port_suffix(a) {
        a.subrange(0, last_colon(a))
    } else {
        a
    }
}

/// Where the host part of an authority ends.
pub open spec fn host_end(a: Seq<u8>) -> int {
    if has_port_suffix(a) {
        last_colon(a)
    } else {
        a.len() as int
    }
}

/// The host that a target names, if it names one.
pub open spec fn uri_host(u: UriView) -> Option<Seq<u8>> {
    match u.authority {
        Some(a) => Some(authority_host(a)),
        None => None,
    }
}

/// The port part of an authority `host[:port]`.
pub open spec fn authority_port(a: Seq<u8>) -> Option<u16> {
    if has_port_suffix(a) {
        Some(capped_value(a.subrange(last_colon(a) + 1, a.len() as int)) as u16)
    } else {
        None
    }
}

/// Splits an authority `host[:port]` into its host and its port.
pub fn split_authority(a: &Vec<u8>) -> (r: (Vec<u8>, Option<u16>))
    ensures
        r.0@ == authority_host(a@),
        r.1 == authority_port(a@),
{
    let mut k: usize = a.len();
    assert(a@.subrange(0, a@.len() as int) =~= a@);
    while k > 0 && a[k - 1] != 58
        invariant
            k <= a@.len(),
            last_colon(a@) == last_colon(a@.subrange(0, k as int)),
        decreases k,
    {
        assert(a@.subrange(0, k as int).drop_last() =~= a@.subrange(0, k as int - 1));
        k = k - 1;
    }
    if k > 0 {
        assert(a@.subrange(0, k as int).last() == 58);
    } else {
        assert(a@.subrange(0, 0) =~= Seq::<u8>::empty());
    }
    assert(a@.subrange(0, a@.len() as int) =~= a@);
    if k == 0 || k == a.len() {
        return (copy_bytes(a), None);
    }
    let ghost suffix = a@.subrange(k as int, a@.len() as int);
    let mut value: u32 = 0;
    let mut digits = true;
    let mut i: usize = k;
    while i < a.len()
        invariant
            k <= i <= a@.len(),
            suffix == a@.subrange(k as int, a@.len() as int),
            value as nat == capped_value(a@.subrange(k as int, i as int)),
            value <= 65536,
            digits == all_digits(a@.subrange(k as int, i as int)),
        decreases a@.len() - i,
    {
        let b = a[i];
        assert(a@.subrange(k as int, i as int + 1).drop_last() =~= a@.subrange(k as int, i as int));
        if !(48 <= b && b <= 57) {
            digits = false;
        }
        let d: u32 = if 48 <= b && b <= 57 { (b - 48) as u32 } else { 0 };
        let next: u32 = value * 10 + d;
        value = if next > 65536 { 65536 } else { next };
        i = i + 1;
        assert(all_digits(a@.subrange(k as int, i as int)) == (all_digits(a@.subrange(k as int, i as int - 1)) && 48 <= b && b <= 57));
    }
    if digits && value <= 65535 {
        let host = bytes_from_to(a, k - 1);
        (host, Some(value as u16))
    } else {
        (copy_bytes(a), None)
    }
}

/// The last `:` lies within the string, if there is one.
pub proof fn lemma_last_colon_bounds(s: Seq<u8>)
    ensures
        -1 <= last_colon(s) < s.len(),
    decreases s.len(),
{
    if s.len() > 0 {
        lemma_last_colon_bounds(s.drop_last());
    }
}

/// Where the host part of an authority ends.
pub fn host_end_of(a: &Vec<u8>) -> (k: usize)
    ensures
        k == host_end(a@),
        k <= a@.len(),
        authority_host(a@) == a@.subrange(0, k as int),
{
    let (host, _) = split_authority(a);
    proof {
        lemma_last_colon_bounds(a@);
        assert(a@.subrange(0, a@.len() as int) =~= a@);
    }
    host.len()
}

/// The first `n` bytes of `s`.
pub fn bytes_from_to(s: &Vec<u8>, n: usize) -> (r: Vec<u8>)
    requires
        n <= s@.len(),
    ensures
        r@ == s@.subrange(0, n as int),
{
    let mut r: Vec<u8> = Vec::new();
    let mut i: usize = 0;
    while i < n
        invariant
            i <= n <= s@.len(),
            r@ == s@.subrange(0, i as int),
        decreases n - i,
    {
        r.push(s[i]);
        i = i + 1;
        assert(r@ =~= s@.subrange(0, i as int));
    }
    r
}

/// The decimal digits of a number.
pub open spec fn decimal(n: nat) -> Seq<u8>
    decreases n,
{
    if n < 10 {
        seq![(48 + n) as u8]
    } else {
        decimal(n / 10).push((48 + n % 10) as u8)
    }
}

/// Writes a number in decimal.
pub fn decimal_bytes(n: u16) -> (r: Vec<u8>)
    ensures
        r@ == decimal(n as nat),
    decreases n,
{
    if n < 10 {
        let v: Vec<u8> = vec![(48 + n) as u8];
        assert(v@ =~= decimal(n as nat));
        v
    } else {
        let mut v = decimal_bytes(n / 10);
        v.push((48 + n % 10) as u8);
        v
    }
}

/// A path as it goes on the wire: it always begins with `/`.
pub open spec fn rooted(path: Seq<u8>) -> Seq<u8> {
    if path.len() > 0 && path[0] == 47 {
        path
    } else {
        "/".spec_bytes() + path
    }
}

/// The request target sent upstream: `scheme://authority` for an absolute
/// target, then the rooted path, then `?query` if there is one.
pub open spec fn target_spec(u: UriView) -> Seq<u8> {
    let origin = match (u.scheme, u.authority) {
        (Some(s), Some(a)) => s + "://".spec_bytes() + a,
        _ => Seq::empty(),
    };
    let query = match u.query {
        Some(q) => "?".spec_bytes() + q,
        None => Seq::empty(),
    };
    origin + rooted(u.path) + query
}

/// Writes the request target of a URI.
pub fn target_of(uri: &Uri) -> (r: Vec<u8>)
    ensures
        r@ == target_spec(uri@),
{
    let mut out: Vec<u8> = Vec::new();
    match (&uri.scheme, &uri.authority) {
        (Some(s), Some(a)) => {
            out = concat(&concat(s, &bytes_of("://")), a);
        },
        _ => {},
    }
    let starts_rooted = uri.path.len() > 0 && uri.path[0] == 47;
    let path = if starts_rooted {
        copy_bytes(&uri.path)
    } else {
        concat(&bytes_of("/"), &uri.path)
    };
    out = concat(&out, &path);
    match &uri.query {
        Some(q) => {
            out = concat(&out, &concat(&bytes_of("?"), q));
        },
        None => {
            assert(out@ =~= out@ + Seq::<u8>::empty());
        },
    }
    assert(out@ =~= target_spec(uri@));
    out
}

} // verus!
