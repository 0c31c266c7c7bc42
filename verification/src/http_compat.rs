//! Operator HTTP format compatibility.
//!
//! The operator sends HTTP requests with the query and the headers as
//! `[key, value]` tuples, and the body as an array of byte values, while the
//! provider side expects a query string, named headers and a Base64 body.
//! These helpers bridge the two shapes in both directions.

use vstd::prelude::*;
use crate::codec::{b64_encode, base64_of, json_bytes_of, json_error_of, parse_json_bytes, parsed_json};
use crate::helpers::json_bytes;
use crate::json::{
    jget, jget_str, jstr, ju64, json_view, json_views, lemma_json_views, member_views, members_get,
    push_member, Json, JsonNumber, NumV, JV,
};
use crate::plan::{opt_json_view, opt_view};
use crate::text::{copy_str, join, seq_join, views};

verus! {

// ---------------------------------------------------------------------------
// Types
// ---------------------------------------------------------------------------

/// An HTTP header name/value pair.
#[derive(Debug, Clone, PartialEq, Eq)]
pub struct Header {
    pub name: String,
    pub value: String,
}

pub open spec fn header_views(h: Seq<Header>) -> Seq<(Seq<char>, Seq<char>)> {
    h.map_values(|x: Header| (x.name@, x.value@))
}

/// A normalized HTTP request.
#[derive(Debug)]
pub struct HttpInV1 {
    pub method: String,
    pub path: String,
    pub query: Option<String>,
    pub headers: Vec<Header>,
    pub body_b64: String,
    pub route_hint: Option<String>,
    pub binding_id: Option<String>,
    pub config: Option<Json>,
}

pub struct HttpInV {
    pub method: Seq<char>,
    pub path: Seq<char>,
    pub query: Option<Seq<char>>,
    pub headers: Seq<(Seq<char>, Seq<char>)>,
    pub body_b64: Seq<char>,
    pub route_hint: Option<Seq<char>>,
    pub binding_id: Option<Seq<char>>,
    pub config: Option<JV>,
}

impl View for HttpInV1 {
    type V = HttpInV;

    open spec fn view(&self) -> HttpInV {
        HttpInV {
            method: self.method@,
            path: self.path@,
            query: opt_view(self.query),
            headers: header_views(self.headers@),
            body_b64: self.body_b64@,
            route_hint: opt_view(self.route_hint),
            binding_id: opt_view(self.binding_id),
            config: opt_json_view(self.config),
        }
    }
}

/// A normalized HTTP response; each event is the JSON of an emitted message.
#[derive(Debug)]
pub struct HttpOutV1 {
    pub status: u16,
    pub headers: Vec<Header>,
    pub body_b64: String,
    pub events: Vec<Json>,
}

// ---------------------------------------------------------------------------
// Specifications
// ---------------------------------------------------------------------------

/// The bytes of a JSON array of numbers: each unsigned integer element,
/// truncated to a byte; other elements are skipped.
pub open spec fn body_bytes(arr: Seq<JV>) -> Seq<u8>
    decreases arr.len(),
{
    if arr.len() == 0 {
        Seq::empty()
    } else {
        body_bytes(arr.drop_last()) + match ju64(arr.last()) {
            Some(n) => seq![n as u8],
            None => Seq::empty(),
        }
    }
}

/// The Base64 body: `body_b64` when it is a string, else the Base64 of the
/// `body` byte array when that holds any byte, else empty.
pub open spec fn body_b64_of(val: JV) -> Seq<char> {
    match jget_str(val, "body_b64"@) {
        Some(s) => s,
        None => match jget(val, "body"@) {
            Some(JV::Array(arr)) => if body_bytes(arr).len() > 0 {
                base64_of(body_bytes(arr))
            } else {
                Seq::empty()
            },
            _ => Seq::empty(),
        },
    }
}

/// The string at position `i` of an array, if there is one.
pub open spec fn str_at(kv: Seq<JV>, i: int) -> Option<Seq<char>> {
    if 0 <= i < kv.len() {
        jstr(kv[i])
    } else {
        None
    }
}

pub open spec fn or_empty(o: Option<Seq<char>>) -> Seq<char> {
    match o {
        Some(s) => s,
        None => Seq::empty(),
    }
}

/// A `[key, value]` pair: both from a tuple whose key is a string (a missing
/// or non-string value is empty).
pub open spec fn pair_of(item: JV) -> Option<(Seq<char>, Seq<char>)> {
    match item {
        JV::Array(kv) => match str_at(kv, 0) {
            Some(k) => Some((k, or_empty(str_at(kv, 1)))),
            None => None,
        },
        _ => None,
    }
}

/// The query parts `key=value` of the tuple elements.
pub open spec fn query_parts(arr: Seq<JV>) -> Seq<Seq<char>>
    decreases arr.len(),
{
    if arr.len() == 0 {
        Seq::empty()
    } else {
        query_parts(arr.drop_last()) + match pair_of(arr.last()) {
            Some(p) => seq![p.0 + "="@ + p.1],
            None => Seq::empty(),
        }
    }
}

/// The query: a string passes through; tuples are joined with `&`, none
/// when there are no pairs.
pub open spec fn query_of(val: JV) -> Option<Seq<char>> {
    match jget(val, "query"@) {
        Some(JV::Str(s)) => Some(s),
        Some(JV::Array(arr)) => if query_parts(arr).len() == 0 {
            None
        } else {
            Some(seq_join(query_parts(arr), "&"@))
        },
        _ => None,
    }
}

/// A header from a `[name, value]` tuple or a `{name, value}` object whose
/// name is a string (a missing or non-string value is empty).
pub open spec fn header_of(item: JV) -> Option<(Seq<char>, Seq<char>)> {
    match item {
        JV::Array(_) => pair_of(item),
        JV::Object(m) => match members_get(m, "name"@) {
            Some(JV::Str(n)) => Some(
                (
                    n,
                    match members_get(m, "value"@) {
                        Some(JV::Str(v)) => v,
                        _ => Seq::empty(),
                    },
                ),
            ),
            _ => None,
        },
        _ => None,
    }
}

pub open spec fn headers_from(arr: Seq<JV>) -> Seq<(Seq<char>, Seq<char>)>
    decreases arr.len(),
{
    if arr.len() == 0 {
        Seq::empty()
    } else {
        headers_from(arr.drop_last()) + match header_of(arr.last()) {
            Some(h) => seq![h],
            None => Seq::empty(),
        }
    }
}

/// The headers of a request: those of its `headers` array.
pub open spec fn headers_of(val: JV) -> Seq<(Seq<char>, Seq<char>)> {
    match jget(val, "headers"@) {
        Some(JV::Array(arr)) => headers_from(arr),
        _ => Seq::empty(),
    }
}

/// The request read from the operator's JSON value.
pub open spec fn http_in_of(val: JV, extract_config: bool) -> HttpInV {
    HttpInV {
        method: match jget_str(val, "method"@) {
            Some(m) => m,
            None => "POST"@,
        },
        path: match jget_str(val, "path"@) {
            Some(p) => p,
            None => "/"@,
        },
        query: query_of(val),
        headers: headers_of(val),
        body_b64: body_b64_of(val),
        route_hint: jget_str(val, "route"@),
        binding_id: jget_str(val, "binding_id"@),
        config: if extract_config {
            jget(val, "config"@)
        } else {
            None
        },
    }
}

/// The result of reading an operator request: the request, or the JSON
/// error text when the input is not JSON.
pub open spec fn http_in_result(input: Seq<u8>, extract_config: bool) -> Result<HttpInV, Seq<char>> {
    match parsed_json(input) {
        Some(v) => Ok(http_in_of(v, extract_config)),
        None => Err(json_error_of(input)),
    }
}

/// `r` is the result `expected`.
pub open spec fn http_in_matches(r: Result<HttpInV1, String>, expected: Result<HttpInV, Seq<char>>) -> bool {
    match (r, expected) {
        (Ok(a), Ok(b)) => a@ == b,
        (Err(a), Err(b)) => a@ == b,
        _ => false,
    }
}

pub open spec fn tuple_jv(name: Seq<char>, value: Seq<char>) -> JV {
    JV::Array(seq![JV::Str(name), JV::Str(value)])
}

pub open spec fn http_out_members(
    status: u16,
    headers: Seq<(Seq<char>, Seq<char>)>,
    body_b64: Seq<char>,
    events: Seq<JV>,
) -> Seq<(Seq<char>, JV)> {
    seq![
        ("status"@, JV::Number(NumV::PosInt(status as u64))),
        (
            "headers"@,
            JV::Array(headers.map_values(|h: (Seq<char>, Seq<char>)| tuple_jv(h.0, h.1))),
        ),
        ("body_b64"@, JV::Str(body_b64)),
        ("events"@, JV::Array(events)),
        ("v"@, JV::Number(NumV::PosInt(1))),
    ]
}

/// The operator's response shape: the fields of the response, headers as
/// `[name, value]` tuples, and `"v": 1`.
pub open spec fn http_out_jv(out: HttpOutV1) -> JV {
    JV::Object(
        http_out_members(
            out.status,
            header_views(out.headers@),
            out.body_b64@,
            json_views(out.events@),
        ),
    )
}

// ---------------------------------------------------------------------------
// Parsing
// ---------------------------------------------------------------------------

fn str_at_exec(kv: &Vec<Json>, i: usize) -> (r: Option<&String>)
    ensures
        r is Some <==> str_at(json_views(kv@), i as int) is Some,
        r matches Some(s) ==> str_at(json_views(kv@), i as int) == Some(s@),
{
    proof {
        lemma_json_views(kv@);
    }
    if i < kv.len() {
        kv[i].as_str()
    } else {
        None
    }
}

fn pair_exec(item: &Json) -> (r: Option<(String, String)>)
    ensures
        match r {
            Some(p) => pair_of(item@) == Some((p.0@, p.1@)),
            None => pair_of(item@) is None,
        },
{
    match item {
        Json::Array(kv) => match str_at_exec(kv, 0) {
            Some(k) => {
                let v = match str_at_exec(kv, 1) {
                    Some(v) => v.clone(),
                    None => {
                        let e = String::new();
                        assert(e@ =~= Seq::<char>::empty());
                        e
                    },
                };
                Some((k.clone(), v))
            },
            None => None,
        },
        _ => None,
    }
}

fn body_b64_exec(val: &Json) -> (r: String)
    ensures
        r@ == body_b64_of(val@),
{
    match val.get_str("body_b64") {
        Some(s) => s.clone(),
        None => match val.get("body") {
            Some(Json::Array(arr)) => {
                proof {
                    lemma_json_views(arr@);
                }
                let ghost av = json_views(arr@);
                let mut bytes: Vec<u8> = Vec::new();
                let mut i: usize = 0;
                while i < arr.len()
                    invariant
                        i <= arr.len(),
                        av == json_views(arr@),
                        av.len() == arr@.len(),
                        forall|j: int| 0 <= j < arr@.len() ==> #[trigger] av[j] == json_view(arr@[j]),
                        bytes@ == body_bytes(av.take(i as int)),
                    decreases arr.len() - i,
                {
                    assert(av.take(i + 1).drop_last() == av.take(i as int));
                    assert(av.take(i + 1).last() == av[i as int]);
                    match arr[i].as_u64() {
                        Some(n) => {
                            bytes.push(n as u8);
                        },
                        None => {},
                    }
                    assert(bytes@ =~= body_bytes(av.take(i + 1)));
                    i += 1;
                }
                assert(av.take(i as int) == av);
                if bytes.len() > 0 {
                    b64_encode(bytes.as_slice())
                } else {
                    let e = String::new();
                    assert(e@ =~= Seq::<char>::empty());
                    e
                }
            },
            _ => {
                let e = String::new();
                assert(e@ =~= Seq::<char>::empty());
                e
            },
        },
    }
}

fn query_exec(val: &Json) -> (r: Option<String>)
    ensures
        opt_view(r) == query_of(val@),
{
    match val.get("query") {
        Some(Json::Str(s)) => Some(s.clone()),
        Some(Json::Array(arr)) => {
            proof {
                lemma_json_views(arr@);
            }
            let ghost av = json_views(arr@);
            let mut parts: Vec<String> = Vec::new();
            let mut i: usize = 0;
            while i < arr.len()
                invariant
                    i <= arr.len(),
                    av == json_views(arr@),
                    av.len() == arr@.len(),
                    forall|j: int| 0 <= j < arr@.len() ==> #[trigger] av[j] == json_view(arr@[j]),
                    views(parts@) == query_parts(av.take(i as int)),
                decreases arr.len() - i,
            {
                assert(av.take(i + 1).drop_last() == av.take(i as int));
                assert(av.take(i + 1).last() == av[i as int]);
                match pair_exec(&arr[i]) {
                    Some((k, v)) => {
                        let mut part = k;
                        part.append("=");
                        part.append(v.as_str());
                        let ghost before = parts@;
                        parts.push(part);
                        assert(views(parts@) =~= views(before).push(part@));
                    },
                    None => {},
                }
                assert(views(parts@) =~= query_parts(av.take(i + 1)));
                i += 1;
            }
            assert(av.take(i as int) == av);
            if parts.len() == 0 {
                None
            } else {
                Some(join(&parts, "&"))
            }
        },
        _ => None,
    }
}

fn header_exec(item: &Json) -> (r: Option<Header>)
    ensures
        match r {
            Some(h) => header_of(item@) == Some((h.name@, h.value@)),
            None => header_of(item@) is None,
        },
{
    match item {
        Json::Array(_) => match pair_exec(item) {
            Some((name, value)) => Some(Header { name, value }),
            None => None,
        },
        Json::Object(_) => match item.get("name") {
            Some(Json::Str(n)) => {
                let value = match item.get("value") {
                    Some(Json::Str(v)) => v.clone(),
                    _ => {
                        let e = String::new();
                        assert(e@ =~= Seq::<char>::empty());
                        e
                    },
                };
                Some(Header { name: n.clone(), value })
            },
            _ => None,
        },
        _ => None,
    }
}

/// The headers of a request: tuples and `{name, value}` objects whose name
/// is a string.
pub fn parse_headers(val: &Json) -> (r: Vec<Header>)
    ensures
        header_views(r@) == headers_of(val@),
{
    match val.get("headers") {
        Some(Json::Array(arr)) => {
            proof {
                lemma_json_views(arr@);
            }
            let ghost av = json_views(arr@);
            let mut out: Vec<Header> = Vec::new();
            let mut i: usize = 0;
            while i < arr.len()
                invariant
                    i <= arr.len(),
                    av == json_views(arr@),
                    av.len() == arr@.len(),
                    forall|j: int| 0 <= j < arr@.len() ==> #[trigger] av[j] == json_view(arr@[j]),
                    header_views(out@) == headers_from(av.take(i as int)),
                decreases arr.len() - i,
            {
                assert(av.take(i + 1).drop_last() == av.take(i as int));
                assert(av.take(i + 1).last() == av[i as int]);
                match header_exec(&arr[i]) {
                    Some(h) => {
                        let ghost before = out@;
                        out.push(h);
                        assert(header_views(out@) =~= header_views(before).push((h.name@, h.value@)));
                    },
                    None => {},
                }
                assert(header_views(out@) =~= headers_from(av.take(i + 1)));
                i += 1;
            }
            assert(av.take(i as int) == av);
            out
        },
        _ => {
            let out: Vec<Header> = Vec::new();
            assert(header_views(out@) =~= Seq::empty());
            out
        },
    }
}

fn opt_string(o: Option<&String>) -> (r: Option<String>)
    ensures
        opt_view(r) == match o {
            Some(s) => Some(s@),
            None => None::<Seq<char>>,
        },
{
    match o {
        Some(s) => Some(s.clone()),
        None => None,
    }
}

/// Reads the operator's request, with its `config` when `extract_config`.
pub fn parse_operator_http_in_inner(input_json: &[u8], extract_config: bool) -> (r: Result<
    HttpInV1,
    String,
>)
    ensures
        http_in_matches(r, http_in_result(input_json@, extract_config)),
{
    let val = match parse_json_bytes(input_json) {
        Ok(v) => v,
        Err(e) => return Err(e),
    };
    let method = match val.get_str("method") {
        Some(m) => m.clone(),
        None => copy_str("POST"),
    };
    let path = match val.get_str("path") {
        Some(p) => p.clone(),
        None => copy_str("/"),
    };
    let body_b64 = body_b64_exec(&val);
    let query = query_exec(&val);
    let headers = parse_headers(&val);
    let route_hint = opt_string(val.get_str("route"));
    let binding_id = opt_string(val.get_str("binding_id"));
    let config = if extract_config {
        match val.get("config") {
            Some(c) => Some(c.duplicate()),
            None => None,
        }
    } else {
        None
    };
    Ok(HttpInV1 { method, path, query, headers, body_b64, route_hint, binding_id, config })
}

/// Reads the operator's request (query and headers as tuples, body as a
/// byte array) into a normalized request; fields already in the normalized
/// shape pass through.
pub fn parse_operator_http_in(input_json: &[u8]) -> (r: Result<HttpInV1, String>)
    ensures
        http_in_matches(r, http_in_result(input_json@, false)),
{
    parse_operator_http_in_inner(input_json, false)
}

/// As [`parse_operator_http_in`], and also keeps the request's `config`.
pub fn parse_operator_http_in_with_config(input_json: &[u8]) -> (r: Result<HttpInV1, String>)
    ensures
        http_in_matches(r, http_in_result(input_json@, true)),
{
    parse_operator_http_in_inner(input_json, true)
}

// ---------------------------------------------------------------------------
// Responses
// ---------------------------------------------------------------------------

/// The response in the operator's shape, as JSON bytes.
pub fn http_out_v1_bytes(out: &HttpOutV1) -> (r: Vec<u8>)
    ensures
        r@ == json_bytes_of(http_out_jv(*out)),
{
    let ghost target = header_views(out.headers@).map_values(
        |h: (Seq<char>, Seq<char>)| tuple_jv(h.0, h.1),
    );
    let mut headers: Vec<Json> = Vec::new();
    let mut i: usize = 0;
    while i < out.headers.len()
        invariant
            i <= out.headers.len(),
            target == header_views(out.headers@).map_values(
                |h: (Seq<char>, Seq<char>)| tuple_jv(h.0, h.1),
            ),
            target.len() == out.headers@.len(),
            json_views(headers@) == target.take(i as int),
        decreases out.headers.len() - i,
    {
        let a = Json::Str(out.headers[i].name.clone());
        let b = Json::Str(out.headers[i].value.clone());
        let mut pair: Vec<Json> = Vec::new();
        pair.push(a);
        pair.push(b);
        proof {
            lemma_json_views(pair@);
            assert(pair@[0] == a && pair@[1] == b);
            assert(json_views(pair@) =~= seq![
                JV::Str(out.headers@[i as int].name@),
                JV::Str(out.headers@[i as int].value@),
            ]);
        }
        let t = Json::Array(pair);
        let ghost before = headers@;
        headers.push(t);
        assert(headers@.drop_last() == before);
        assert(json_views(headers@) == json_views(before).push(json_view(t)));
        assert(target[i as int] == json_view(t));
        assert(json_views(headers@) =~= target.take(i + 1));
        i += 1;
    }
    assert(target.take(i as int) == target);
    let mut events: Vec<Json> = Vec::new();
    let mut j: usize = 0;
    proof {
        lemma_json_views(out.events@);
    }
    while j < out.events.len()
        invariant
            j <= out.events.len(),
            json_views(out.events@).len() == out.events@.len(),
            json_views(events@) == json_views(out.events@).take(j as int),
        decreases out.events.len() - j,
    {
        let e = out.events[j].duplicate();
        let ghost before = events@;
        events.push(e);
        assert(events@.drop_last() == before);
        proof {
            lemma_json_views(out.events@);
        }
        assert(json_views(events@) =~= json_views(out.events@).take(j + 1));
        j += 1;
    }
    assert(json_views(out.events@).take(j as int) == json_views(out.events@));
    let mut m: Vec<(String, Json)> = Vec::new();
    push_member(&mut m, "status", Json::Number(JsonNumber::PosInt(out.status as u64)));
    push_member(&mut m, "headers", Json::Array(headers));
    push_member(&mut m, "body_b64", Json::Str(out.body_b64.clone()));
    push_member(&mut m, "events", Json::Array(events));
    push_member(&mut m, "v", Json::Number(JsonNumber::PosInt(1)));
    assert(member_views(m@) =~= http_out_members(
        out.status,
        header_views(out.headers@),
        out.body_b64@,
        json_views(out.events@),
    ));
    json_bytes(&Json::Object(m))
}

/// The error response: the status and the Base64 of the message, no headers
/// and no events.
pub open spec fn http_error_jv(status: u16, message: Seq<char>) -> JV {
    JV::Object(
        http_out_members(
            status,
            Seq::empty(),
            base64_of(vstd::utf8::encode_utf8(message)),
            Seq::empty(),
        ),
    )
}

/// Build an error response in the operator's shape.
pub fn http_out_error(status: u16, message: &str) -> (r: Vec<u8>)
    ensures
        r@ == json_bytes_of(http_error_jv(status, message@)),
{
    let out = HttpOutV1 {
        status,
        headers: Vec::new(),
        body_b64: b64_encode(message.as_bytes()),
        events: Vec::new(),
    };
    assert(header_views(out.headers@) =~= Seq::empty());
    assert(json_views(out.events@) =~= Seq::empty());
    http_out_v1_bytes(&out)
}


// ---------------------------------------------------------------------------
// Laws
// ---------------------------------------------------------------------------

/// Fields already in the normalized shape pass through: a string query, a
/// string Base64 body, a string method and path.
pub proof fn law_normalized_fields_pass_through(val: JV, extract_config: bool)
    ensures
        jget(val, "query"@) matches Some(JV::Str(q)) ==> http_in_of(val, extract_config).query
            == Some(q),
        jget_str(val, "body_b64"@) matches Some(b) ==> http_in_of(val, extract_config).body_b64
            == b,
        jget_str(val, "method"@) matches Some(m) ==> http_in_of(val, extract_config).method == m,
        jget_str(val, "path"@) matches Some(p) ==> http_in_of(val, extract_config).path == p,
        !extract_config ==> http_in_of(val, extract_config).config is None,
{
}

/// A response in the operator's shape carries `"v": 1` and its headers as
/// `[name, value]` tuples.
pub proof fn law_http_out_is_versioned(out: HttpOutV1)
    ensures
        crate::json::jget(http_out_jv(out), "v"@) == Some(JV::Number(NumV::PosInt(1))),
        crate::json::jget(http_out_jv(out), "headers"@) == Some(
            JV::Array(
                header_views(out.headers@).map_values(
                    |h: (Seq<char>, Seq<char>)| tuple_jv(h.0, h.1),
                ),
            ),
        ),
{
    reveal_strlit("status");
    reveal_strlit("headers");
    reveal_strlit("body_b64");
    reveal_strlit("events");
    reveal_strlit("v");
    let m = http_out_members(
        out.status,
        header_views(out.headers@),
        out.body_b64@,
        json_views(out.events@),
    );
    assert("status"@.len() == 6 && "headers"@.len() == 7 && "body_b64"@.len() == 8);
    assert("events"@.len() == 6 && "v"@.len() == 1);
    assert("status"@[0] != "events"@[0]);
    crate::json::lemma_members_get_at(m, 4, "v"@);
    crate::json::lemma_members_get_at(m, 1, "headers"@);
}

} // verus!
