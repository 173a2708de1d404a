//! The request that opens a connection.
//!
//! A handshake only lends its request; [`copy_request`] makes one to keep.
use http::header::{HeaderName, HeaderValue};
use vstd::prelude::*;

verus! {

/// `http`'s request.
#[verifier::external_type_specification]
#[verifier::external_body]
#[verifier::reject_recursive_types(T)]
pub struct ExRequest<T>(http::Request<T>);

/// `http`'s builder of requests.
#[verifier::external_type_specification]
#[verifier::external_body]
pub struct ExBuilder(http::request::Builder);

/// `http`'s error.
#[verifier::external_type_specification]
#[verifier::external_body]
pub struct ExError(http::Error);

/// `http`'s name of a header.
#[verifier::external_type_specification]
#[verifier::external_body]
pub struct ExHeaderName(http::header::HeaderName);

/// `http`'s value of a header.
#[verifier::external_type_specification]
#[verifier::external_body]
pub struct ExHeaderValue(http::header::HeaderValue);

/// What a request says: its method, URI and version as they are written, and its headers, name and
/// value, in the order in which they are listed.
#[verifier::ext_equal]
pub struct RequestHead {
    pub method: Seq<char>,
    pub uri: Seq<char>,
    pub version: Seq<char>,
    pub headers: Seq<(Seq<char>, Seq<u8>)>,
}

/// What a request of `http` says, through its `method`, `uri`, `version` and `headers`.
pub uninterp spec fn request_head(request: http::Request<()>) -> RequestHead;

/// What a builder has been given so far, or nothing if it has failed.
pub uninterp spec fn builder_head(builder: http::request::Builder) -> Option<RequestHead>;

/// The text of a header's name, as `HeaderName::as_str` returns it.
pub uninterp spec fn name_text(name: HeaderName) -> Seq<char>;

/// The bytes of a header's value, as `HeaderValue::as_bytes` returns them.
pub uninterp spec fn value_bytes(value: HeaderValue) -> Seq<u8>;

/// A header of the given name is among the headers.
pub open spec fn has_name(headers: Seq<(Seq<char>, Seq<u8>)>, name: Seq<char>) -> bool {
    exists|i: int| 0 <= i < headers.len() && #[trigger] headers[i].0 == name
}

/// The place of the last header of the given name.
pub open spec fn last_place(headers: Seq<(Seq<char>, Seq<u8>)>, name: Seq<char>) -> int
    recommends
        has_name(headers, name),
{
    choose|i: int|
        {
            &&& 0 <= i < headers.len()
            &&& #[trigger] headers[i].0 == name
            &&& forall|j: int| i < j < headers.len() ==> #[trigger] headers[j].0 != name
        }
}

/// The headers with one more: after the others of its name or, without such, after all of them.
pub open spec fn with_header(
    headers: Seq<(Seq<char>, Seq<u8>)>,
    name: Seq<char>,
    value: Seq<u8>,
) -> Seq<(Seq<char>, Seq<u8>)> {
    if has_name(headers, name) {
        headers.insert(last_place(headers, name) + 1, (name, value))
    } else {
        headers.push((name, value))
    }
}

/// The names of the headers.
pub open spec fn names(headers: Seq<(Seq<char>, Seq<u8>)>) -> Set<Seq<char>> {
    headers.map_values(|header: (Seq<char>, Seq<u8>)| header.0).to_set()
}

/// The number of different names of headers that there is always room for.
pub const MAX_SURE_NAMES: usize = 6553;

/// Headers of the same name stand next to each other.
pub open spec fn grouped(headers: Seq<(Seq<char>, Seq<u8>)>) -> bool {
    forall|i: int, j: int, k: int|
        #![trigger headers[i].0, headers[j].0, headers[k].0]
        0 <= i <= j <= k < headers.len() && headers[i].0 == headers[k].0 ==> headers[j].0
            == headers[i].0
}

/// The content of a list of headers.
pub open spec fn listed(entries: Seq<(HeaderName, HeaderValue)>) -> Seq<(Seq<char>, Seq<u8>)> {
    entries.map_values(
        |entry: (HeaderName, HeaderValue)| (name_text(entry.0), value_bytes(entry.1)),
    )
}

/// `http::Request::builder`: a builder that has been given nothing yet, and so has a GET of the
/// root, in version 1.1, without headers.
#[verifier::external_body]
fn new_builder() -> (builder: http::request::Builder)
    ensures
        builder_head(builder) == Some(
            RequestHead {
                method: "GET"@,
                uri: "/"@,
                version: "HTTP/1.1"@,
                headers: Seq::empty(),
            },
        ),
{
    http::Request::builder()
}

/// `http::request::Builder::method`, with the method of a request. A builder that has failed stays
/// failed.
#[verifier::external_body]
fn with_method_of(builder: http::request::Builder, request: &http::Request<()>) -> (result:
    http::request::Builder)
    ensures
        builder_head(result) == match builder_head(builder) {
            Some(head) => Some(RequestHead { method: request_head(*request).method, ..head }),
            None => None,
        },
{
    builder.method(request.method().clone())
}

/// `http::request::Builder::uri`, with the URI of a request. A builder that has failed stays
/// failed.
#[verifier::external_body]
fn with_uri_of(builder: http::request::Builder, request: &http::Request<()>) -> (result:
    http::request::Builder)
    ensures
        builder_head(result) == match builder_head(builder) {
            Some(head) => Some(RequestHead { uri: request_head(*request).uri, ..head }),
            None => None,
        },
{
    builder.uri(request.uri().clone())
}

/// `http::request::Builder::version`, with the version of a request. A builder that has failed
/// stays failed.
#[verifier::external_body]
fn with_version_of(builder: http::request::Builder, request: &http::Request<()>) -> (result:
    http::request::Builder)
    ensures
        builder_head(result) == match builder_head(builder) {
            Some(head) => Some(RequestHead { version: request_head(*request).version, ..head }),
            None => None,
        },
{
    builder.version(request.version())
}

/// `http::HeaderMap::iter`, on the headers of a request: each of them once, those of the same name
/// next to each other.
#[verifier::external_body]
fn header_entries(request: &http::Request<()>) -> (entries: Vec<(HeaderName, HeaderValue)>)
    ensures
        listed(entries@) == request_head(*request).headers,
        grouped(listed(entries@)),
{
    request.headers().iter().map(|entry| (entry.0.clone(), entry.1.clone())).collect()
}

/// `http::request::Builder::header`: the builder with one header more, listed after the others of
/// its name or, without such, last. A builder that has failed stays failed. One can run out of
/// room, but not while it has no more than 6553 different names: the map of headers, with a slot
/// for each name, fails only where it would grow beyond 32768 slots, and grows only when three
/// quarters of its slots are taken or, with many collisions, a fifth of them. Whether one with
/// more names fails rests on how the names collide, and is left unsaid.
#[verifier::external_body]
fn add_header(
    builder: http::request::Builder,
    name: &HeaderName,
    value: &HeaderValue,
) -> (longer: http::request::Builder)
    ensures
        builder_head(longer) matches Some(head) ==> {
            &&& builder_head(builder) matches Some(before)
            &&& head == (RequestHead {
                headers: with_header(before.headers, name_text(*name), value_bytes(*value)),
                ..before
            })
        },
        builder_head(builder) matches Some(before) ==> names(before.headers).len() <= MAX_SURE_NAMES
            ==> builder_head(longer) is Some,
{
    builder.header(name, value)
}

/// `http::request::Builder::body`, without a body: the request that the builder was given, or the
/// error that made it fail.
#[verifier::external_body]
fn finish(builder: http::request::Builder) -> (result: Result<http::Request<()>, http::Error>)
    ensures
        match result {
            Ok(request) => builder_head(builder) == Some(request_head(request)),
            Err(_) => builder_head(builder) is None,
        },
{
    builder.body(())
}

/// A request has more headers than there is room for.
#[derive(Clone, Copy, Debug, PartialEq, Eq, Structural)]
pub struct TooManyHeaders;

/// The first headers have no more different names than all of them.
proof fn lemma_fewer_names(headers: Seq<(Seq<char>, Seq<u8>)>, count: int)
    requires
        0 <= count <= headers.len(),
    ensures
        names(headers.take(count)).len() <= names(headers).len(),
{
    let name_of = |header: (Seq<char>, Seq<u8>)| header.0;
    let some = headers.take(count).map_values(name_of);
    let all = headers.map_values(name_of);
    vstd::seq_lib::seq_to_set_is_finite(all);
    assert forall|name: Seq<char>| some.to_set().contains(name) implies all.to_set().contains(
        name,
    ) by {
        let i = choose|i: int| 0 <= i < some.len() && some[i] == name;
        assert(all[i] == name);
    }
    vstd::set_lib::lemma_len_subset(some.to_set(), all.to_set());
}

/// A copy of a request: the same method, URI, version and headers. Only a request whose headers
/// have more than 6553 different names may have too many for a copy.
pub fn copy_request(request: &http::Request<()>) -> (copy: Result<http::Request<()>, TooManyHeaders>)
    ensures
        copy matches Ok(copy) ==> request_head(copy) == request_head(*request),
        names(request_head(*request).headers).len() <= MAX_SURE_NAMES ==> copy is Ok,
{
    let entries = header_entries(request);
    let ghost head = request_head(*request);
    let mut builder = with_version_of(
        with_uri_of(with_method_of(new_builder(), request), request),
        request,
    );
    let mut copied: usize = 0;
    while copied < entries.len()
        invariant
            copied <= entries@.len(),
            listed(entries@) == head.headers,
            grouped(head.headers),
            names(head.headers).len() <= MAX_SURE_NAMES ==> builder_head(builder) is Some,
            builder_head(builder) matches Some(so_far) ==> so_far == (RequestHead {
                headers: head.headers.take(copied as int),
                ..head
            }),
        decreases entries.len() - copied,
    {
        let entry = &entries[copied];
        proof {
            lemma_fewer_names(head.headers, copied as int);
            let done = head.headers.take(copied as int);
            let name = name_text(entry.0);
            assert(head.headers[copied as int] == (name, value_bytes(entry.1)));
            assert(head.headers.take(copied + 1) == done.push((name, value_bytes(entry.1))));
            if has_name(done, name) {
                let i = choose|i: int| 0 <= i < done.len() && #[trigger] done[i].0 == name;
                assert(head.headers[i].0 == name && head.headers[copied as int].0 == name);
                assert(head.headers[copied - 1].0 == name);
                assert(done[copied - 1].0 == name);
                assert(last_place(done, name) == copied - 1);
                assert(done.insert(copied as int, (name, value_bytes(entry.1))) == done.push(
                    (name, value_bytes(entry.1)),
                ));
            }
        }
        builder = add_header(builder, &entry.0, &entry.1);
        copied = copied + 1;
    }
    assert(head.headers.take(copied as int) == head.headers);
    match finish(builder) {
        Ok(copy) => Ok(copy),
        Err(_) => Err(TooManyHeaders),
    }
}

/// A copy has the method, the URI, the version and the headers of its request, each of them in its
/// place. There is one wherever the names of the headers, equal ones taken once, are no more than
/// 6553: that is, wherever no more than so many texts are all the names there are.
pub proof fn copies_say_the_same(
    request: &http::Request<()>,
    copy: Result<http::Request<()>, TooManyHeaders>,
    all: Set<Seq<char>>,
)
    requires
        call_ensures(copy_request, (request,), copy),
        all.finite(),
        forall|i: int|
            0 <= i < request_head(*request).headers.len() ==> all.contains(
                (#[trigger] request_head(*request).headers[i]).0,
            ),
    ensures
        copy matches Ok(copy) ==> {
            &&& request_head(copy).method == request_head(*request).method
            &&& request_head(copy).uri == request_head(*request).uri
            &&& request_head(copy).version == request_head(*request).version
            &&& request_head(copy).headers == request_head(*request).headers
        },
        all.len() <= 6553 ==> copy is Ok,
{
    let headers = request_head(*request).headers;
    assert forall|name: Seq<char>| names(headers).contains(name) implies all.contains(name) by {
        let listed = headers.map_values(|header: (Seq<char>, Seq<u8>)| header.0);
        let i = choose|i: int| 0 <= i < listed.len() && listed[i] == name;
        assert(headers[i].0 == name);
    }
    vstd::set_lib::lemma_len_subset(names(headers), all);
}

} // verus!
