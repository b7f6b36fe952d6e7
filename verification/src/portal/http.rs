//! HTTP request parsing, routing and payloads for the provisioning portal.
//!
//! One tiny HTTP/1.1 server surface: the embedded config page, a JSON API a
//! phone app can drive (`/api/config`, `/api/status`), and a captive-portal
//! redirect for every other path so OS connectivity checks land on the page.
use crate::bounded::{Bytes, Text};
use crate::decimal;
use crate::hub_config;
use crate::hub_config::{ConfigSpec, HubConfig};
use crate::hub_protocol::types::{
    CommandSpec, GatewaySettings, GatewaySpec, HubCommand, HubMode, HubStatus, MqttSettings,
    MqttSpec, StatusSpec, WifiSettings, WifiSpec,
};
use crate::json;
use crate::net::address;
use crate::octets;
use vstd::prelude::*;
use vstd::utf8::*;

verus! {

/// Largest request we accept (headers + JSON body).
pub const MAX_REQUEST: usize = 2048;

/// Response body size for the JSON endpoints.
pub const MAX_BODY: usize = 512;

/// One parsed request.
#[derive(Debug, PartialEq, Eq)]
pub struct HttpRequest<'a> {
    /// Request method.
    pub method: &'a str,
    /// Request target.
    pub path: &'a str,
    /// Request body.
    pub body: &'a [u8],
}

/// What the bytes read so far amount to.
#[derive(Debug, PartialEq, Eq)]
pub enum ParseOutcome<'a> {
    /// A full request.
    Complete(HttpRequest<'a>),
    /// Headers or body still incomplete; read more bytes.
    Incomplete,
    /// Not parseable as HTTP; drop the connection.
    Bad,
}

/// What a [`ParseOutcome`] says, in bytes.
pub enum RequestSpec {
    /// A full request: method, path and body.
    Complete(Seq<u8>, Seq<u8>, Seq<u8>),
    /// Headers or body still incomplete.
    Incomplete,
    /// Not parseable.
    Bad,
}

impl<'a> View for ParseOutcome<'a> {
    type V = RequestSpec;

    open spec fn view(&self) -> RequestSpec {
        match self {
            ParseOutcome::Complete(request) => RequestSpec::Complete(
                octets::utf8(request.method@),
                octets::utf8(request.path@),
                request.body@,
            ),
            ParseOutcome::Incomplete => RequestSpec::Incomplete,
            ParseOutcome::Bad => RequestSpec::Bad,
        }
    }
}

/// A line break.
pub open spec fn crlf() -> Seq<u8> {
    seq![13u8, 10]
}

/// An empty line: the end of the headers.
pub open spec fn blank_line() -> Seq<u8> {
    seq![13u8, 10, 13, 10]
}

/// A space.
pub open spec fn space() -> Seq<u8> {
    seq![32u8]
}

/// A colon.
pub open spec fn colon() -> Seq<u8> {
    seq![58u8]
}

/// The length of the white space character at the start of a text, if one
/// stands there, else 0.
pub open spec fn space_at_start(text: Seq<u8>) -> int {
    if text.len() >= 1 && (9 <= text[0] <= 13 || text[0] == 32) {
        1
    } else if text.len() >= 2 && wide_space(text[0], text[1]) {
        2
    } else if text.len() >= 3 && wider_space(text[0], text[1], text[2]) {
        3
    } else {
        0
    }
}

/// The length of the white space character at the end of a text, if one
/// stands there, else 0.
pub open spec fn space_at_end(text: Seq<u8>) -> int {
    let n = text.len() as int;
    if n >= 1 && (9 <= text[n - 1] <= 13 || text[n - 1] == 32) {
        1
    } else if n >= 2 && wide_space(text[n - 2], text[n - 1]) {
        2
    } else if n >= 3 && wider_space(text[n - 3], text[n - 2], text[n - 1]) {
        3
    } else {
        0
    }
}

/// White space of two bytes: U+0085 and U+00A0.
pub open spec fn wide_space(a: u8, b: u8) -> bool {
    a == 0xC2 && (b == 0x85 || b == 0xA0)
}

/// White space of three bytes: U+1680, U+2000 to U+200A, U+2028, U+2029,
/// U+202F, U+205F and U+3000.
pub open spec fn wider_space(a: u8, b: u8, c: u8) -> bool {
    ||| a == 0xE1 && b == 0x9A && c == 0x80
    ||| a == 0xE2 && b == 0x80 && (0x80 <= c <= 0x8A || c == 0xA8 || c == 0xA9 || c == 0xAF)
    ||| a == 0xE2 && b == 0x81 && c == 0x9F
    ||| a == 0xE3 && b == 0x80 && c == 0x80
}

/// A text without white space at its start.
pub open spec fn trimmed_start(text: Seq<u8>) -> Seq<u8>
    decreases text.len(),
{
    if space_at_start(text) > 0 {
        trimmed_start(text.skip(space_at_start(text)))
    } else {
        text
    }
}

/// A text without white space at its end.
pub open spec fn trimmed_end(text: Seq<u8>) -> Seq<u8>
    decreases text.len(),
{
    if space_at_end(text) > 0 {
        trimmed_end(text.take(text.len() - space_at_end(text)))
    } else {
        text
    }
}

/// An ASCII letter in lower case; any other byte as it is.
pub open spec fn lower(b: u8) -> u8 {
    if 65 <= b <= 90 {
        (b + 32) as u8
    } else {
        b
    }
}

/// Whether two names are equal but for the case of ASCII letters.
pub open spec fn same_name(a: Seq<u8>, b: Seq<u8>) -> bool {
    a.len() == b.len() && forall|i: int| 0 <= i < a.len() ==> lower(a[i]) == lower(b[i])
}

/// The body length that a header value gives: 0 where it is no number.
pub open spec fn length_value(value: Seq<u8>) -> nat {
    match decimal::parsed(trimmed_end(trimmed_start(value)), usize::MAX as nat) {
        Some(n) => n,
        None => 0,
    }
}

/// The body length that a header line gives, if it is a Content-Length.
pub open spec fn line_length(line: Seq<u8>) -> Option<nat> {
    match octets::first_at(line, colon(), 0) {
        Some(at) => if same_name(line.take(at), octets::utf8("content-length"@)) {
            Some(length_value(line.skip(at + 1)))
        } else {
            None
        },
        None => None,
    }
}

/// What follows the first line, if a line break ends it.
pub open spec fn after_line(text: Seq<u8>) -> Option<Seq<u8>> {
    match octets::first_at(text, crlf(), 0) {
        Some(at) => Some(text.skip(at + 2)),
        None => None,
    }
}

/// The body length that the last Content-Length among header lines gives, and
/// `so_far` where there is none.
pub open spec fn content_length(lines: Seq<u8>, so_far: nat) -> nat
    decreases lines.len(),
    via content_length_decreases
{
    let now = match line_length(octets::before(lines, crlf())) {
        Some(n) => n,
        None => so_far,
    };
    match after_line(lines) {
        Some(rest) => content_length(rest, now),
        None => now,
    }
}

#[via_fn]
proof fn content_length_decreases(lines: Seq<u8>, so_far: nat) {
    octets::lemma_first_at(lines, crlf(), 0);
}

/// The body length of a request with this head (request line and headers).
pub open spec fn body_length(head: Seq<u8>) -> nat {
    match after_line(head) {
        Some(lines) => content_length(lines, 0),
        None => 0,
    }
}

/// What the bytes read so far amount to.
pub open spec fn outcome(buf: Seq<u8>) -> RequestSpec {
    match octets::first_at(buf, blank_line(), 0) {
        None => if buf.len() >= MAX_REQUEST {
            RequestSpec::Bad
        } else {
            RequestSpec::Incomplete
        },
        Some(end) => {
            let head = buf.take(end);
            let line = octets::before(head, crlf());
            let n = body_length(head);
            if !valid_utf8(head) {
                RequestSpec::Bad
            } else {
                match octets::first_at(line, space(), 0) {
                    None => RequestSpec::Bad,
                    Some(at) => if n > MAX_REQUEST - end {
                        RequestSpec::Bad
                    } else if buf.len() < end + 4 + n {
                        RequestSpec::Incomplete
                    } else {
                        RequestSpec::Complete(
                            line.take(at),
                            octets::before(line.skip(at + 1), space()),
                            buf.subrange(end + 4, end + 4 + n),
                        )
                    },
                }
            }
        },
    }
}

/// The number of white space bytes at the start of a text.
fn leading_space(text: &[u8]) -> (r: usize)
    ensures
        r <= text@.len(),
        text@.skip(r as int) == trimmed_start(text@),
{
    let mut at: usize = 0;
    assert(text@.skip(0) =~= text@);
    loop
        invariant
            at <= text@.len(),
            trimmed_start(text@.skip(at as int)) == trimmed_start(text@),
        decreases text@.len() - at,
    {
        let left: usize = text.len() - at;
        let ghost rest = text@.skip(at as int);
        let step: usize = if left >= 1 && ((9 <= text[at] && text[at] <= 13) || text[at] == 32) {
            1
        } else if left >= 2 && is_wide_space(text[at], text[at + 1]) {
            2
        } else if left >= 3 && is_wider_space(text[at], text[at + 1], text[at + 2]) {
            3
        } else {
            0
        };
        assert(step == space_at_start(rest));
        if step == 0 {
            return at;
        }
        assert(rest.skip(step as int) =~= text@.skip(at + step));
        at = at + step;
    }
}

/// The length of a text without the white space at its end.
fn end_of_text(text: &[u8]) -> (r: usize)
    ensures
        r <= text@.len(),
        text@.take(r as int) == trimmed_end(text@),
{
    let mut end: usize = text.len();
    assert(text@.take(end as int) =~= text@);
    loop
        invariant
            end <= text@.len(),
            trimmed_end(text@.take(end as int)) == trimmed_end(text@),
        decreases end,
    {
        let ghost rest = text@.take(end as int);
        let step: usize = if end >= 1 && ((9 <= text[end - 1] && text[end - 1] <= 13)
            || text[end - 1] == 32) {
            1
        } else if end >= 2 && is_wide_space(text[end - 2], text[end - 1]) {
            2
        } else if end >= 3 && is_wider_space(text[end - 3], text[end - 2], text[end - 1]) {
            3
        } else {
            0
        };
        assert(step == space_at_end(rest));
        if step == 0 {
            return end;
        }
        assert(rest.take(end - step) =~= text@.take(end - step));
        end = end - step;
    }
}

fn is_wide_space(a: u8, b: u8) -> (r: bool)
    ensures
        r == wide_space(a, b),
{
    a == 0xC2 && (b == 0x85 || b == 0xA0)
}

fn is_wider_space(a: u8, b: u8, c: u8) -> (r: bool)
    ensures
        r == wider_space(a, b, c),
{
    (a == 0xE1 && b == 0x9A && c == 0x80) || (a == 0xE2 && b == 0x80 && ((0x80 <= c && c <= 0x8A)
        || c == 0xA8 || c == 0xA9 || c == 0xAF)) || (a == 0xE2 && b == 0x81 && c == 0x9F) || (a
        == 0xE3 && b == 0x80 && c == 0x80)
}

fn to_lower(b: u8) -> (r: u8)
    ensures
        r == lower(b),
{
    if 65 <= b && b <= 90 {
        b + 32
    } else {
        b
    }
}

/// Whether two names are equal but for the case of ASCII letters.
fn eq_ignore_ascii_case(a: &[u8], b: &[u8]) -> (r: bool)
    ensures
        r == same_name(a@, b@),
{
    if a.len() != b.len() {
        return false;
    }
    let mut i: usize = 0;
    while i < a.len()
        invariant
            i <= a@.len() == b@.len(),
            forall|k: int| 0 <= k < i ==> lower(a@[k]) == lower(b@[k]),
        decreases a@.len() - i,
    {
        if to_lower(a[i]) != to_lower(b[i]) {
            return false;
        }
        i = i + 1;
    }
    true
}

/// The body length that a header line gives, if it is a Content-Length.
fn header_length(line: &[u8]) -> (r: Option<usize>)
    ensures
        match r {
            Some(n) => line_length(line@) == Some(n as nat),
            None => line_length(line@) is None,
        },
{
    let mark: [u8; 1] = [58];
    assert(mark@ =~= colon());
    let at: usize = match octets::find(line, &mark, 0) {
        Some(at) => at,
        None => {
            return None;
        },
    };
    assert(line@.subrange(0, at as int) =~= line@.take(at as int));
    if !eq_ignore_ascii_case(&line[0..at], "content-length".as_bytes()) {
        return None;
    }
    let total: usize = line.len();
    let value: &[u8] = &line[at + 1..total];
    assert(value@ =~= line@.skip(at + 1));
    let from: usize = leading_space(value);
    let inner: &[u8] = &value[from..value.len()];
    assert(inner@ =~= value@.skip(from as int));
    let to: usize = end_of_text(inner);
    let number: &[u8] = &inner[0..to];
    assert(number@ =~= inner@.take(to as int));
    match decimal::parse(number, usize::MAX as u64) {
        Some(n) => Some(n as usize),
        None => Some(0),
    }
}

/// The body length that header lines give.
fn lines_length(lines: &[u8]) -> (r: usize)
    ensures
        r as nat == content_length(lines@, 0),
{
    let mark: [u8; 2] = [13, 10];
    assert(mark@ =~= crlf());
    let mut from: usize = 0;
    let mut found: usize = 0;
    assert(lines@.skip(0) =~= lines@);
    loop
        invariant
            from <= lines@.len(),
            mark@ == crlf(),
            content_length(lines@.skip(from as int), found as nat) == content_length(lines@, 0),
        decreases lines@.len() - from,
    {
        let rest: &[u8] = &lines[from..lines.len()];
        assert(rest@ =~= lines@.skip(from as int));
        let (line, next): (&[u8], Option<usize>) = match octets::find(rest, &mark, 0) {
            Some(at) => (&rest[0..at], Some(at + 2)),
            None => (rest, None),
        };
        assert(line@ =~= octets::before(rest@, crlf()));
        match header_length(line) {
            Some(n) => {
                found = n;
            },
            None => {},
        }
        match next {
            Some(step) => {
                assert(rest@.skip(step as int) =~= lines@.skip(from + step));
                from = from + step;
            },
            None => {
                return found;
            },
        }
    }
}

/// The part of valid UTF-8 before an ASCII mark is valid UTF-8.
proof fn lemma_before_valid(text: Seq<u8>, mark: Seq<u8>)
    requires
        valid_utf8(text),
        mark.len() > 0,
        mark[0] < 128,
    ensures
        valid_utf8(octets::before(text, mark)),
{
    octets::lemma_first_at(text, mark, 0);
    match octets::first_at(text, mark, 0) {
        Some(at) => {
            assert(text.subrange(at, at + mark.len())[0] == mark[0]);
            octets::lemma_cut_at_ascii(text, at);
        },
        None => {},
    }
}

/// The bytes before the first mark.
fn up_to<'a>(text: &'a [u8], mark: &[u8]) -> (r: &'a [u8])
    ensures
        r@ == octets::before(text@, mark@),
        r@.len() <= text@.len(),
{
    match octets::find(text, mark, 0) {
        Some(at) => {
            assert(text@.subrange(0, at as int) =~= text@.take(at as int));
            &text[0..at]
        },
        None => text,
    }
}

/// Try to parse one complete request from the buffered bytes.
pub fn try_parse(buf: &[u8]) -> (r: ParseOutcome<'_>)
    ensures
        r@ == outcome(buf@),
{
    proof {
        octets::lemma_first_at(buf@, blank_line(), 0);
    }
    let end_mark: [u8; 4] = [13, 10, 13, 10];
    let line_mark: [u8; 2] = [13, 10];
    let gap: [u8; 1] = [32];
    assert(end_mark@ =~= blank_line());
    assert(line_mark@ =~= crlf());
    assert(gap@ =~= space());
    let headers_end: usize = match octets::find(buf, &end_mark, 0) {
        Some(end) => end,
        None => {
            return if buf.len() >= MAX_REQUEST {
                ParseOutcome::Bad
            } else {
                ParseOutcome::Incomplete
            };
        },
    };
    let head: &[u8] = &buf[0..headers_end];
    assert(head@ =~= buf@.take(headers_end as int));
    if octets::text_of(head).is_none() {
        return ParseOutcome::Bad;
    }
    let line: &[u8] = up_to(head, &line_mark);
    let at: usize = match octets::find(line, &gap, 0) {
        Some(at) => at,
        None => {
            return ParseOutcome::Bad;
        },
    };
    let method: &[u8] = &line[0..at];
    let target: &[u8] = &line[at + 1..line.len()];
    let path: &[u8] = up_to(target, &gap);
    proof {
        lemma_before_valid(head@, crlf());
        assert(line@.subrange(at as int, at + 1)[0] == space()[0]);
        octets::lemma_cut_at_ascii(line@, at as int);
        assert(method@ =~= line@.take(at as int));
        assert(target@ =~= line@.skip(at + 1));
        lemma_before_valid(target@, space());
    }
    let content_length: usize = match octets::find(head, &line_mark, 0) {
        Some(first) => {
            let lines: &[u8] = &head[first + 2..head.len()];
            assert(lines@ =~= head@.skip(first + 2));
            lines_length(lines)
        },
        None => 0,
    };
    if headers_end > MAX_REQUEST || content_length > MAX_REQUEST - headers_end {
        return ParseOutcome::Bad;
    }
    let body_end: usize = headers_end + 4 + content_length;
    if buf.len() < body_end {
        return ParseOutcome::Incomplete;
    }
    match (octets::text_of(method), octets::text_of(path)) {
        (Some(method), Some(path)) => ParseOutcome::Complete(
            HttpRequest { method, path, body: &buf[headers_end + 4..body_end] },
        ),
        _ => ParseOutcome::Bad,
    }
}

/// A request whose head and declared body come to more than [`MAX_REQUEST`]
/// bytes is bad, however much of it has been read.
pub proof fn oversized_requests_are_bad(buf: Seq<u8>)
    requires
        octets::first_at(buf, blank_line(), 0) is Some,
        octets::first_at(buf, blank_line(), 0)->Some_0 + body_length(
            buf.take(octets::first_at(buf, blank_line(), 0)->Some_0),
        ) > MAX_REQUEST,
    ensures
        outcome(buf) is Bad,
{
}

/// Once a request is complete, further bytes do not change what it is.
pub proof fn complete_requests_are_stable(buf: Seq<u8>, more: Seq<u8>)
    requires
        outcome(buf) is Complete,
    ensures
        outcome(buf + more) == outcome(buf),
{
    let longer = buf + more;
    octets::lemma_first_at(buf, blank_line(), 0);
    octets::lemma_first_at(longer, blank_line(), 0);
    let end = octets::first_at(buf, blank_line(), 0)->Some_0;
    assert(longer.subrange(end, end + 4) =~= buf.subrange(end, end + 4));
    assert(octets::holds_at(longer, blank_line(), end));
    let other = octets::first_at(longer, blank_line(), 0)->Some_0;
    if other < end {
        assert(longer.subrange(other, other + 4) =~= buf.subrange(other, other + 4));
        assert(octets::holds_at(buf, blank_line(), other));
    }
    assert(other == end);
    assert(longer.take(end) =~= buf.take(end));
    let n = body_length(buf.take(end)) as int;
    assert(longer.subrange(end + 4, end + 4 + n) =~= buf.subrange(end + 4, end + 4 + n));
}

/// Where a request goes.
#[derive(Debug, PartialEq, Eq)]
pub enum Route<'a> {
    /// The configuration page.
    Index,
    /// Read the configuration.
    ApiConfigGet,
    /// Change the configuration: the request body.
    ApiConfigPost(&'a [u8]),
    /// Read the live status.
    ApiStatus,
    /// Everything else: captive-portal redirect to the index page.
    Redirect,
}

/// Where a request goes, by method and path.
pub open spec fn routed(method: Seq<char>, path: Seq<char>) -> Route<'static> {
    if method == "GET"@ && (path == "/"@ || path == "/index.html"@) {
        Route::Index
    } else if method == "GET"@ && path == "/api/config"@ {
        Route::ApiConfigGet
    } else if method == "GET"@ && path == "/api/status"@ {
        Route::ApiStatus
    } else {
        Route::Redirect
    }
}

/// Whether a request changes the configuration.
pub open spec fn posts_config(method: Seq<char>, path: Seq<char>) -> bool {
    method == "POST"@ && path == "/api/config"@
}

/// Routes a request by its method and path.
pub fn route<'a>(request: &HttpRequest<'a>) -> (r: Route<'a>)
    ensures
        posts_config(request.method@, request.path@) ==> r == Route::ApiConfigPost(request.body),
        !posts_config(request.method@, request.path@) ==> r == routed(
            request.method@,
            request.path@,
        ),
{
    proof {
        reveal_strlit("GET");
        reveal_strlit("POST");
        assert("GET"@.len() != "POST"@.len());
    }
    let get: bool = octets::same_text(request.method, "GET");
    let post: bool = octets::same_text(request.method, "POST");
    if get && (octets::same_text(request.path, "/") || octets::same_text(
        request.path,
        "/index.html",
    )) {
        Route::Index
    } else if get && octets::same_text(request.path, "/api/config") {
        Route::ApiConfigGet
    } else if post && octets::same_text(request.path, "/api/config") {
        Route::ApiConfigPost(request.body)
    } else if get && octets::same_text(request.path, "/api/status") {
        Route::ApiStatus
    } else {
        Route::Redirect
    }
}

/// The name of an operating mode.
pub open spec fn mode_name(mode: HubMode) -> Seq<char> {
    match mode {
        HubMode::Bridge => "bridge"@,
        HubMode::LorawanGateway => "gateway"@,
    }
}

/// The `/api/config` GET payload (no password).
pub open spec fn config_object(config: ConfigSpec) -> Seq<u8> {
    octets::utf8("{\"mode\":"@) + json::string(mode_name(config.mode)) + octets::utf8(
        ",\"wifi_ssid\":"@,
    ) + json::string(config.wifi.ssid) + octets::utf8(",\"mqtt_host\":"@) + json::string(
        config.mqtt.host,
    ) + octets::utf8(",\"mqtt_port\":"@) + decimal::digits(config.mqtt.port as nat) + octets::utf8(
        ",\"client_id\":"@,
    ) + json::string(config.mqtt.client_id) + octets::utf8(",\"gw_freq_hz\":"@) + decimal::digits(
        config.gateway.frequency_hz as nat,
    ) + octets::utf8(",\"gw_sf\":"@) + decimal::digits(config.gateway.spreading_factor as nat)
        + octets::utf8(",\"gw_bw_khz\":"@) + decimal::digits(config.gateway.bandwidth_khz as nat)
        + octets::utf8(",\"gw_cr\":"@) + decimal::digits(config.gateway.coding_rate as nat)
        + octets::utf8(",\"gw_host\":"@) + json::string(config.gateway.host) + octets::utf8(
        ",\"gw_port\":"@,
    ) + decimal::digits(config.gateway.port as nat) + octets::utf8("}"@)
}

/// A body of at most [`MAX_BODY`] bytes; an empty one in place of a longer.
fn fitted(json: &[u8]) -> (r: Bytes<512>)
    ensures
        r@ == json::capped(json@, MAX_BODY as int),
{
    match Bytes::from_slice(json) {
        Ok(body) => body,
        Err(_) => Bytes::new(),
    }
}

/// The `/api/config` GET payload. Empty when the JSON exceeds [`MAX_BODY`].
pub fn config_json(config: &HubConfig) -> (r: Bytes<512>)
    ensures
        r@ == json::capped(config_object(config@), MAX_BODY as int),
{
    let mut out: Vec<u8> = Vec::new();
    let mode: &str = match config.mode {
        HubMode::Bridge => "bridge",
        HubMode::LorawanGateway => "gateway",
    };
    octets::append_text(&mut out, "{\"mode\":");
    assert(out@ =~= octets::utf8("{\"mode\":"@));
    proof {
        reveal_strlit("bridge");
        reveal_strlit("gateway");
        is_ascii_chars_encode_utf8("bridge"@);
        is_ascii_chars_encode_utf8("gateway"@);
    }
    json::append_string(&mut out, mode);
    octets::append_text(&mut out, ",\"wifi_ssid\":");
    json::append_string(&mut out, config.wifi.ssid.as_str());
    octets::append_text(&mut out, ",\"mqtt_host\":");
    json::append_string(&mut out, config.mqtt.host.as_str());
    octets::append_text(&mut out, ",\"mqtt_port\":");
    decimal::append(&mut out, config.mqtt.port as u64);
    octets::append_text(&mut out, ",\"client_id\":");
    json::append_string(&mut out, config.mqtt.client_id.as_str());
    octets::append_text(&mut out, ",\"gw_freq_hz\":");
    decimal::append(&mut out, config.gateway.frequency_hz as u64);
    octets::append_text(&mut out, ",\"gw_sf\":");
    decimal::append(&mut out, config.gateway.spreading_factor as u64);
    octets::append_text(&mut out, ",\"gw_bw_khz\":");
    decimal::append(&mut out, config.gateway.bandwidth_khz as u64);
    octets::append_text(&mut out, ",\"gw_cr\":");
    decimal::append(&mut out, config.gateway.coding_rate as u64);
    octets::append_text(&mut out, ",\"gw_host\":");
    json::append_string(&mut out, config.gateway.host.as_str());
    octets::append_text(&mut out, ",\"gw_port\":");
    decimal::append(&mut out, config.gateway.port as u64);
    octets::append_text(&mut out, "}");
    fitted(out.as_slice())
}

/// The `/api/status` GET payload.
pub open spec fn status_object(status: StatusSpec) -> Seq<u8> {
    octets::utf8("{\"wifi_state\":"@) + decimal::digits(status.wifi_state.byte() as nat)
        + octets::utf8(",\"mqtt_state\":"@) + decimal::digits(status.mqtt_state.byte() as nat)
        + octets::utf8(",\"ip\":\""@) + address::dotted(status.ip) + octets::utf8("\",\"uplink\":"@)
        + decimal::digits(status.uplink_count as nat) + octets::utf8(",\"downlink\":"@)
        + decimal::digits(status.downlink_count as nat) + octets::utf8(",\"dropped\":"@)
        + decimal::digits(status.dropped_count as nat) + octets::utf8(",\"uptime_secs\":"@)
        + decimal::digits(status.uptime_secs as nat) + octets::utf8("}"@)
}

/// The `/api/status` GET payload. Empty when the JSON exceeds [`MAX_BODY`].
pub fn status_json(status: &HubStatus) -> (r: Bytes<512>)
    ensures
        r@ == json::capped(status_object(status@), MAX_BODY as int),
{
    let mut out: Vec<u8> = Vec::new();
    octets::append_text(&mut out, "{\"wifi_state\":");
    assert(out@ =~= octets::utf8("{\"wifi_state\":"@));
    decimal::append(&mut out, status.wifi_state.to_byte() as u64);
    octets::append_text(&mut out, ",\"mqtt_state\":");
    decimal::append(&mut out, status.mqtt_state.to_byte() as u64);
    octets::append_text(&mut out, ",\"ip\":\"");
    octets::append(&mut out, address::dotted_text(&status.ip).as_slice());
    octets::append_text(&mut out, "\",\"uplink\":");
    decimal::append(&mut out, status.uplink_count as u64);
    octets::append_text(&mut out, ",\"downlink\":");
    decimal::append(&mut out, status.downlink_count as u64);
    octets::append_text(&mut out, ",\"dropped\":");
    decimal::append(&mut out, status.dropped_count as u64);
    octets::append_text(&mut out, ",\"uptime_secs\":");
    decimal::append(&mut out, status.uptime_secs as u64);
    octets::append_text(&mut out, "}");
    fitted(out.as_slice())
}

/// The `/api/config` GET payload says nothing of the WiFi password: it is the
/// same whatever the password is.
pub proof fn config_json_hides_the_password(config: ConfigSpec, password: Seq<char>)
    ensures
        config_object(hub_config::with_password(config, password)) == config_object(config),
{
}

/// The `/api/config` POST body: every field optional so the page (which
/// posts everything) and an app (which may post one group) both work.
pub struct ConfigUpdate<'a> {
    /// WiFi network name.
    pub wifi_ssid: Option<&'a str>,
    /// WiFi password; the stored one is kept when it is absent.
    pub wifi_password: Option<&'a str>,
    /// Broker host.
    pub mqtt_host: Option<&'a str>,
    /// Broker port.
    pub mqtt_port: Option<u16>,
    /// MQTT client id.
    pub client_id: Option<&'a str>,
    /// Operating mode by name.
    pub mode: Option<&'a str>,
    /// Uplink frequency.
    pub gw_freq_hz: Option<u32>,
    /// Uplink spreading factor.
    pub gw_sf: Option<u8>,
    /// Uplink bandwidth.
    pub gw_bw_khz: Option<u32>,
    /// Uplink coding rate.
    pub gw_cr: Option<u8>,
    /// Network server host.
    pub gw_host: Option<&'a str>,
    /// Network server port.
    pub gw_port: Option<u16>,
}

/// Why an update was not turned into commands.
#[derive(Debug, Clone, Copy, PartialEq, Eq, Structural)]
pub enum UpdateError {
    /// Body is not valid JSON or a value does not fit its field.
    Bad,
    /// Valid JSON but nothing recognisable to change.
    Empty,
}

/// A text that an update gives, or the current one.
pub open spec fn text_or(given: Option<&str>, current: Seq<char>) -> Seq<char> {
    match given {
        Some(text) => text@,
        None => current,
    }
}

/// A value that an update gives, or the current one.
pub open spec fn value_or<T>(given: Option<T>, current: T) -> T {
    match given {
        Some(value) => value,
        None => current,
    }
}

/// Whether a text that an update gives fits its field.
pub open spec fn given_fits(given: Option<&str>, cap: int) -> bool {
    given matches Some(text) ==> octets::utf8(text@).len() <= cap
}

impl<'a> ConfigUpdate<'a> {
    /// Whether broker settings are given.
    pub open spec fn touches_mqtt(self) -> bool {
        self.mqtt_host is Some || self.mqtt_port is Some || self.client_id is Some
    }

    /// Whether gateway settings are given.
    pub open spec fn touches_gateway(self) -> bool {
        self.gw_freq_hz is Some || self.gw_sf is Some || self.gw_bw_khz is Some
            || self.gw_cr is Some || self.gw_host is Some || self.gw_port is Some
    }

    /// Whether nothing is given that can be changed.
    pub open spec fn changes_nothing(self) -> bool {
        self.wifi_ssid is None && !self.touches_mqtt() && !self.touches_gateway()
            && self.mode is None
    }

    /// Whether every given value that is looked at fits its field. The
    /// password is looked at only beside a network name.
    pub open spec fn fits(self) -> bool {
        &&& given_fits(self.wifi_ssid, 32)
        &&& self.wifi_ssid is Some ==> given_fits(self.wifi_password, 64)
        &&& given_fits(self.mqtt_host, 64)
        &&& given_fits(self.client_id, 32)
        &&& given_fits(self.gw_host, 64)
        &&& self.mode matches Some(name) ==> name@ == "bridge"@ || name@ == "gateway"@
    }

    /// The WiFi credentials after the update.
    pub open spec fn wifi(self, current: ConfigSpec) -> WifiSpec {
        WifiSpec {
            ssid: text_or(self.wifi_ssid, current.wifi.ssid),
            password: text_or(self.wifi_password, current.wifi.password),
        }
    }

    /// The broker settings after the update.
    pub open spec fn mqtt(self, current: ConfigSpec) -> MqttSpec {
        MqttSpec {
            host: text_or(self.mqtt_host, current.mqtt.host),
            port: value_or(self.mqtt_port, current.mqtt.port),
            client_id: text_or(self.client_id, current.mqtt.client_id),
        }
    }

    /// The gateway settings after the update.
    pub open spec fn gateway(self, current: ConfigSpec) -> GatewaySpec {
        GatewaySpec {
            frequency_hz: value_or(self.gw_freq_hz, current.gateway.frequency_hz),
            spreading_factor: value_or(self.gw_sf, current.gateway.spreading_factor),
            bandwidth_khz: value_or(self.gw_bw_khz, current.gateway.bandwidth_khz),
            coding_rate: value_or(self.gw_cr, current.gateway.coding_rate),
            host: text_or(self.gw_host, current.gateway.host),
            port: value_or(self.gw_port, current.gateway.port),
        }
    }

    /// The operating mode that the update asks for.
    pub open spec fn asked_mode(self) -> HubMode {
        if self.mode->Some_0@ == "gateway"@ {
            HubMode::LorawanGateway
        } else {
            HubMode::Bridge
        }
    }

    /// The commands that the update amounts to: WiFi, broker, gateway, mode,
    /// each of them only when it is given.
    pub open spec fn commands(self, current: ConfigSpec) -> Seq<CommandSpec> {
        let wifi = if self.wifi_ssid is Some {
            seq![CommandSpec::SetWifiConfig(self.wifi(current))]
        } else {
            Seq::empty()
        };
        let mqtt = if self.touches_mqtt() {
            wifi.push(CommandSpec::SetMqttConfig(self.mqtt(current)))
        } else {
            wifi
        };
        let gateway = if self.touches_gateway() {
            mqtt.push(CommandSpec::SetGatewayConfig(self.gateway(current)))
        } else {
            mqtt
        };
        if self.mode is Some {
            gateway.push(CommandSpec::SetMode(self.asked_mode()))
        } else {
            gateway
        }
    }
}

/// What commands say.
pub open spec fn said(commands: Seq<HubCommand>) -> Seq<CommandSpec> {
    commands.map_values(|c: HubCommand| c@)
}

/// A text that an update gives, or the current one.
fn given_text<const N: usize>(given: Option<&str>, current: &Text<N>) -> (r: Result<
    Text<N>,
    UpdateError,
>)
    ensures
        match r {
            Ok(text) => given_fits(given, N as int) && text@ == text_or(given, current@),
            Err(e) => !given_fits(given, N as int) && e == UpdateError::Bad,
        },
{
    match given {
        Some(text) => match Text::try_from(text) {
            Ok(held) => Ok(held),
            Err(_) => Err(UpdateError::Bad),
        },
        None => Ok(current.clone()),
    }
}

/// A value that an update gives, or the current one.
fn given_value<T: Copy>(given: Option<T>, current: T) -> (r: T)
    ensures
        r == value_or(given, current),
{
    match given {
        Some(value) => value,
        None => current,
    }
}

fn add_command(commands: &mut Vec<HubCommand>, command: HubCommand)
    ensures
        said(final(commands)@) == said(old(commands)@).push(command@),
{
    let ghost before = commands@;
    commands.push(command);
    assert(said(commands@) =~= said(before).push(command@));
}

/// Turn a POST body into the hub commands to apply, in order. `update` is the
/// body as read from JSON, or `None` when it could not be read.
pub fn commands_from_update(update: Option<&ConfigUpdate>, current: &HubConfig) -> (r: Result<
    Vec<HubCommand>,
    UpdateError,
>)
    ensures
        match r {
            Ok(commands) => update is Some && update->Some_0.fits()
                && !update->Some_0.changes_nothing() && said(commands@)
                == update->Some_0.commands(current@) && 1 <= commands@.len() <= 4,
            Err(UpdateError::Bad) => update is None || !update->Some_0.fits(),
            Err(UpdateError::Empty) => update is Some && update->Some_0.fits()
                && update->Some_0.changes_nothing(),
        },
{
    let update: &ConfigUpdate = match update {
        Some(update) => update,
        None => {
            return Err(UpdateError::Bad);
        },
    };
    let mut commands: Vec<HubCommand> = Vec::new();
    assert(said(commands@) =~= Seq::<CommandSpec>::empty());
    if update.wifi_ssid.is_some() {
        let wifi: WifiSettings = WifiSettings {
            ssid: given_text(update.wifi_ssid, &current.wifi.ssid)?,
            password: given_text(update.wifi_password, &current.wifi.password)?,
        };
        add_command(&mut commands, HubCommand::SetWifiConfig(wifi));
        assert(said(commands@) =~= seq![CommandSpec::SetWifiConfig(update.wifi(current@))]);
    }
    if update.mqtt_host.is_some() || update.mqtt_port.is_some() || update.client_id.is_some() {
        let mqtt: MqttSettings = MqttSettings {
            host: given_text(update.mqtt_host, &current.mqtt.host)?,
            port: given_value(update.mqtt_port, current.mqtt.port),
            client_id: given_text(update.client_id, &current.mqtt.client_id)?,
        };
        add_command(&mut commands, HubCommand::SetMqttConfig(mqtt));
    }
    let gateway_touched: bool = update.gw_freq_hz.is_some() || update.gw_sf.is_some()
        || update.gw_bw_khz.is_some() || update.gw_cr.is_some() || update.gw_host.is_some()
        || update.gw_port.is_some();
    if gateway_touched {
        let gateway: GatewaySettings = GatewaySettings {
            frequency_hz: given_value(update.gw_freq_hz, current.gateway.frequency_hz),
            spreading_factor: given_value(update.gw_sf, current.gateway.spreading_factor),
            bandwidth_khz: given_value(update.gw_bw_khz, current.gateway.bandwidth_khz),
            coding_rate: given_value(update.gw_cr, current.gateway.coding_rate),
            host: given_text(update.gw_host, &current.gateway.host)?,
            port: given_value(update.gw_port, current.gateway.port),
        };
        add_command(&mut commands, HubCommand::SetGatewayConfig(gateway));
    }
    if let Some(name) = update.mode {
        proof {
            reveal_strlit("bridge");
            reveal_strlit("gateway");
            assert("bridge"@.len() != "gateway"@.len());
        }
        let mode: HubMode = if octets::same_text(name, "bridge") {
            HubMode::Bridge
        } else if octets::same_text(name, "gateway") {
            HubMode::LorawanGateway
        } else {
            return Err(UpdateError::Bad);
        };
        add_command(&mut commands, HubCommand::SetMode { mode });
    }
    assert(said(commands@) == update.commands(current@));
    assert(said(commands@).len() == commands@.len());
    if commands.len() == 0 {
        return Err(UpdateError::Empty);
    }
    Ok(commands)
}

/// The configuration after commands were applied to it one after the other.
pub open spec fn after_commands(
    config: ConfigSpec,
    commands: Seq<CommandSpec>,
    defaults: ConfigSpec,
) -> ConfigSpec
    decreases commands.len(),
{
    if commands.len() == 0 {
        config
    } else {
        hub_config::applied(
            after_commands(config, commands.drop_last(), defaults),
            commands.last(),
            defaults,
        ).0
    }
}

proof fn lemma_one_more(
    config: ConfigSpec,
    commands: Seq<CommandSpec>,
    next: CommandSpec,
    defaults: ConfigSpec,
)
    ensures
        after_commands(config, commands.push(next), defaults) == hub_config::applied(
            after_commands(config, commands, defaults),
            next,
            defaults,
        ).0,
{
    assert(commands.push(next).drop_last() =~= commands);
}

/// Only the present fields change: applied in order to the current
/// configuration, the commands of an update give each setting its new value
/// where the update names one and leave it where it does not. Values that the
/// hub refuses are left out here: a refused command changes nothing.
pub proof fn update_changes_only_what_is_given(
    update: ConfigUpdate,
    current: ConfigSpec,
    defaults: ConfigSpec,
)
    requires
        update.fits(),
        update.touches_mqtt() ==> update.mqtt(current).port != 0,
        update.touches_gateway() ==> hub_config::gateway_valid(update.gateway(current)),
    ensures
        after_commands(current, update.commands(current), defaults) == (ConfigSpec {
            version: current.version,
            mode: if update.mode is Some {
                update.asked_mode()
            } else {
                current.mode
            },
            wifi: if update.wifi_ssid is Some {
                update.wifi(current)
            } else {
                current.wifi
            },
            mqtt: update.mqtt(current),
            gateway: update.gateway(current),
        }),
{
    let none = Seq::<CommandSpec>::empty();
    let wifi = if update.wifi_ssid is Some {
        seq![CommandSpec::SetWifiConfig(update.wifi(current))]
    } else {
        none
    };
    if update.wifi_ssid is Some {
        lemma_one_more(current, none, CommandSpec::SetWifiConfig(update.wifi(current)), defaults);
        assert(wifi =~= none.push(CommandSpec::SetWifiConfig(update.wifi(current))));
    }
    let mqtt = if update.touches_mqtt() {
        wifi.push(CommandSpec::SetMqttConfig(update.mqtt(current)))
    } else {
        wifi
    };
    lemma_one_more(current, wifi, CommandSpec::SetMqttConfig(update.mqtt(current)), defaults);
    let gateway = if update.touches_gateway() {
        mqtt.push(CommandSpec::SetGatewayConfig(update.gateway(current)))
    } else {
        mqtt
    };
    lemma_one_more(current, mqtt, CommandSpec::SetGatewayConfig(update.gateway(current)), defaults);
    lemma_one_more(current, gateway, CommandSpec::SetMode(update.asked_mode()), defaults);
}

/// After the commands of an update have been applied, every setting that the
/// update names has the value named, and every other one its current value. A
/// password counts only beside a network name.
pub proof fn named_settings_get_their_values(
    update: ConfigUpdate,
    current: ConfigSpec,
    defaults: ConfigSpec,
)
    requires
        update.fits(),
        update.touches_mqtt() ==> update.mqtt(current).port != 0,
        update.touches_gateway() ==> hub_config::gateway_valid(update.gateway(current)),
    ensures
        ({
            let after = after_commands(current, update.commands(current), defaults);
            &&& after.version == current.version
            &&& update.wifi_ssid matches Some(text) ==> after.wifi.ssid == text@
            &&& update.wifi_ssid is None ==> after.wifi == current.wifi
            &&& update.wifi_ssid is Some ==> (update.wifi_password matches Some(text)
                ==> after.wifi.password == text@)
            &&& update.wifi_password is None ==> after.wifi.password == current.wifi.password
            &&& update.mqtt_host matches Some(text) ==> after.mqtt.host == text@
            &&& update.mqtt_host is None ==> after.mqtt.host == current.mqtt.host
            &&& update.mqtt_port matches Some(port) ==> after.mqtt.port == port
            &&& update.mqtt_port is None ==> after.mqtt.port == current.mqtt.port
            &&& update.client_id matches Some(text) ==> after.mqtt.client_id == text@
            &&& update.client_id is None ==> after.mqtt.client_id == current.mqtt.client_id
            &&& update.gw_freq_hz matches Some(f) ==> after.gateway.frequency_hz == f
            &&& update.gw_freq_hz is None ==> after.gateway.frequency_hz
                == current.gateway.frequency_hz
            &&& update.gw_sf matches Some(sf) ==> after.gateway.spreading_factor == sf
            &&& update.gw_sf is None ==> after.gateway.spreading_factor
                == current.gateway.spreading_factor
            &&& update.gw_bw_khz matches Some(khz) ==> after.gateway.bandwidth_khz == khz
            &&& update.gw_bw_khz is None ==> after.gateway.bandwidth_khz
                == current.gateway.bandwidth_khz
            &&& update.gw_cr matches Some(cr) ==> after.gateway.coding_rate == cr
            &&& update.gw_cr is None ==> after.gateway.coding_rate == current.gateway.coding_rate
            &&& update.gw_host matches Some(text) ==> after.gateway.host == text@
            &&& update.gw_host is None ==> after.gateway.host == current.gateway.host
            &&& update.gw_port matches Some(port) ==> after.gateway.port == port
            &&& update.gw_port is None ==> after.gateway.port == current.gateway.port
            &&& update.mode matches Some(name) ==> (after.mode == HubMode::LorawanGateway <==> name@
                == "gateway"@)
            &&& update.mode is None ==> after.mode == current.mode
        }),
{
    update_changes_only_what_is_given(update, current, defaults);
}

/// The commands of an update are those of the groups that it names, in the order
/// WiFi, broker, gateway, mode, and each sets what the update says.
pub proof fn updates_become_commands(
    update: &ConfigUpdate,
    current: &HubConfig,
    r: Result<Vec<HubCommand>, UpdateError>,
)
    requires
        call_ensures(commands_from_update, (Some(update), current), r),
    ensures
        r is Ok ==> said(r->Ok_0@) == update.commands(current@),
        r is Ok && update.wifi_ssid is Some ==> said(r->Ok_0@)[0] is SetWifiConfig,
        r is Ok && update.mode is Some ==> said(r->Ok_0@).last() is SetMode,
        r is Ok ==> r->Ok_0@.len() == (if update.wifi_ssid is Some {
            1int
        } else {
            0
        }) + (if update.mqtt_host is Some || update.mqtt_port is Some || update.client_id is Some {
            1int
        } else {
            0
        }) + (if update.gw_freq_hz is Some || update.gw_sf is Some || update.gw_bw_khz is Some
            || update.gw_cr is Some || update.gw_host is Some || update.gw_port is Some {
            1int
        } else {
            0
        }) + (if update.mode is Some {
            1int
        } else {
            0
        }),
        r == Err::<Vec<HubCommand>, UpdateError>(UpdateError::Empty) <==> {
            &&& update.wifi_ssid is None && update.mode is None
            &&& update.mqtt_host is None && update.mqtt_port is None && update.client_id is None
            &&& update.gw_freq_hz is None && update.gw_sf is None && update.gw_bw_khz is None
            &&& update.gw_cr is None && update.gw_host is None && update.gw_port is None
        },
{
    if r is Ok {
        assert(said(r->Ok_0@).len() == r->Ok_0@.len());
    }
}

/// An update is refused as bad exactly if it could not be read, names a mode
/// that there is none of, or has a text longer than its field: 32 bytes for the
/// network name and the client id, 64 for the password and the hosts.
pub proof fn bad_updates_are_refused(
    update: Option<&ConfigUpdate>,
    current: &HubConfig,
    r: Result<Vec<HubCommand>, UpdateError>,
)
    requires
        call_ensures(commands_from_update, (update, current), r),
    ensures
        r == Err::<Vec<HubCommand>, UpdateError>(UpdateError::Bad) <==> {
            ||| update is None
            ||| update->Some_0.wifi_ssid matches Some(text) && octets::utf8(text@).len() > 32
            ||| update->Some_0.wifi_ssid is Some && (update->Some_0.wifi_password matches Some(text)
                && octets::utf8(text@).len() > 64)
            ||| update->Some_0.mqtt_host matches Some(text) && octets::utf8(text@).len() > 64
            ||| update->Some_0.client_id matches Some(text) && octets::utf8(text@).len() > 32
            ||| update->Some_0.gw_host matches Some(text) && octets::utf8(text@).len() > 64
            ||| update->Some_0.mode matches Some(name) && name@ != "bridge"@ && name@ != "gateway"@
        },
{
}

/// Each setting but the password stands in the configuration payload under its
/// own name, between the names before and after it.
pub proof fn config_json_tells_every_setting(config: ConfigSpec)
    ensures
        ({
            let json = config_object(config);
            let name = octets::utf8(
                if config.mode == HubMode::Bridge {
                    "bridge"@
                } else {
                    "gateway"@
                },
            );
            &&& octets::has(
                json,
                octets::utf8("{\"mode\":"@) + (seq![34u8] + name + seq![34u8]) + octets::utf8(
                    ",\"wifi_ssid\":"@,
                ),
            )
            &&& octets::has(
                json,
                octets::utf8(",\"wifi_ssid\":"@) + json::string(config.wifi.ssid) + octets::utf8(
                    ",\"mqtt_host\":"@,
                ),
            )
            &&& octets::has(
                json,
                octets::utf8(",\"mqtt_host\":"@) + json::string(config.mqtt.host) + octets::utf8(
                    ",\"mqtt_port\":"@,
                ),
            )
            &&& octets::has(
                json,
                octets::utf8(",\"mqtt_port\":"@) + decimal::digits(config.mqtt.port as nat)
                    + octets::utf8(",\"client_id\":"@),
            )
            &&& octets::has(
                json,
                octets::utf8(",\"client_id\":"@) + json::string(config.mqtt.client_id)
                    + octets::utf8(",\"gw_freq_hz\":"@),
            )
        }),
{
    broadcast use {octets::has_in_longer, octets::has_at_the_end, octets::has_at_the_start};

    reveal_strlit("bridge");
    reveal_strlit("gateway");
    json::plain_text_is_only_quoted(mode_name(config.mode));
}

/// So do the settings of the gateway.
pub proof fn config_json_tells_the_gateway(config: ConfigSpec)
    ensures
        ({
            let json = config_object(config);
            let gw = config.gateway;
            &&& octets::has(
                json,
                octets::utf8(",\"gw_freq_hz\":"@) + decimal::digits(gw.frequency_hz as nat)
                    + octets::utf8(",\"gw_sf\":"@),
            )
            &&& octets::has(
                json,
                octets::utf8(",\"gw_sf\":"@) + decimal::digits(gw.spreading_factor as nat)
                    + octets::utf8(",\"gw_bw_khz\":"@),
            )
            &&& octets::has(
                json,
                octets::utf8(",\"gw_bw_khz\":"@) + decimal::digits(gw.bandwidth_khz as nat)
                    + octets::utf8(",\"gw_cr\":"@),
            )
            &&& octets::has(
                json,
                octets::utf8(",\"gw_cr\":"@) + decimal::digits(gw.coding_rate as nat)
                    + octets::utf8(",\"gw_host\":"@),
            )
            &&& octets::has(
                json,
                octets::utf8(",\"gw_host\":"@) + json::string(gw.host) + octets::utf8(
                    ",\"gw_port\":"@,
                ),
            )
            &&& octets::has(
                json,
                octets::utf8(",\"gw_port\":"@) + decimal::digits(gw.port as nat) + octets::utf8(
                    "}"@,
                ),
            )
        }),
{
    broadcast use {octets::has_in_longer, octets::has_at_the_end, octets::has_at_the_start};

}

/// The status payload tells the state of both links, the address, the counters
/// and the uptime, each under its own name.
pub proof fn status_json_tells_the_status(status: StatusSpec)
    ensures
        ({
            let json = status_object(status);
            &&& octets::has(
                json,
                octets::utf8("{\"wifi_state\":"@) + decimal::digits(
                    status.wifi_state.byte() as nat,
                ) + octets::utf8(",\"mqtt_state\":"@),
            )
            &&& octets::has(
                json,
                octets::utf8(",\"mqtt_state\":"@) + decimal::digits(
                    status.mqtt_state.byte() as nat,
                ) + octets::utf8(",\"ip\":\""@),
            )
            &&& octets::has(
                json,
                octets::utf8(",\"ip\":\""@) + address::dotted(status.ip) + octets::utf8(
                    "\",\"uplink\":"@,
                ),
            )
            &&& octets::has(
                json,
                octets::utf8("\",\"uplink\":"@) + decimal::digits(status.uplink_count as nat)
                    + octets::utf8(",\"downlink\":"@),
            )
            &&& octets::has(
                json,
                octets::utf8(",\"downlink\":"@) + decimal::digits(status.downlink_count as nat)
                    + octets::utf8(",\"dropped\":"@),
            )
            &&& octets::has(
                json,
                octets::utf8(",\"dropped\":"@) + decimal::digits(status.dropped_count as nat)
                    + octets::utf8(",\"uptime_secs\":"@),
            )
            &&& octets::has(
                json,
                octets::utf8(",\"uptime_secs\":"@) + decimal::digits(status.uptime_secs as nat)
                    + octets::utf8("}"@),
            )
        }),
{
    broadcast use {octets::has_in_longer, octets::has_at_the_end, octets::has_at_the_start};

}

/// Where requests go: the page at `/` and `/index.html`, the configuration at
/// `/api/config` to read and to post, the status at `/api/status` to read, and
/// everything else back to the page.
pub proof fn requests_are_routed(request: &HttpRequest<'_>, r: Route<'_>)
    requires
        call_ensures(route, (request,), r),
    ensures
        r is Index <==> request.method@ == "GET"@ && (request.path@ == "/"@ || request.path@
            == "/index.html"@),
        r is ApiConfigGet <==> request.method@ == "GET"@ && request.path@ == "/api/config"@,
        r is ApiStatus <==> request.method@ == "GET"@ && request.path@ == "/api/status"@,
        r is ApiConfigPost <==> request.method@ == "POST"@ && request.path@ == "/api/config"@,
        r matches Route::ApiConfigPost(body) ==> body@ == request.body@,
{
    reveal_strlit("GET");
    reveal_strlit("POST");
    reveal_strlit("/");
    reveal_strlit("/index.html");
    reveal_strlit("/api/config");
    reveal_strlit("/api/status");
    assert("GET"@.len() != "POST"@.len());
    assert("/api/config"@[5] != "/api/status"@[5]);
    assert("/index.html"@[1] != "/api/config"@[1] && "/index.html"@[1] != "/api/status"@[1]);
    assert("/"@.len() != "/api/config"@.len() && "/"@.len() != "/api/status"@.len());
}

/// A complete request begins with its method, a space and its path, neither of which
/// holds a space; the path ends with a space or with its line. Its body is what stands
/// behind the first empty line, as long as the headers say, and no request reaches
/// beyond 2048 bytes and an empty line.
pub proof fn requests_are_taken_apart(buf: &[u8], request: HttpRequest, end: int)
    requires
        call_ensures(try_parse, (buf,), ParseOutcome::Complete(request)),
        octets::holds_at(buf@, seq![13u8, 10, 13, 10], end),
        forall|k: int| 0 <= k < end ==> !octets::holds_at(buf@, seq![13u8, 10, 13, 10], k),
    ensures
        ({
            let method = octets::utf8(request.method@);
            let path = octets::utf8(request.path@);
            let m = method.len() as int;
            let p = path.len() as int;
            let n = request.body@.len() as int;
            &&& m + 1 + p <= end
            &&& buf@.take(m) == method
            &&& buf@[m] == 32
            &&& buf@.subrange(m + 1, m + 1 + p) == path
            &&& buf@[m + 1 + p] == 32 || buf@[m + 1 + p] == 13
            &&& forall|i: int| 0 <= i < m ==> #[trigger] method[i] != 32
            &&& forall|i: int| 0 <= i < p ==> #[trigger] path[i] != 32
            &&& end + 4 + n <= buf@.len()
            &&& request.body@ == buf@.subrange(end + 4, end + 4 + n)
            &&& n == body_length(buf@.take(end))
            &&& end + n <= 2048
        }),
{
    octets::lemma_first_at(buf@, blank_line(), 0);
    let found = octets::first_at(buf@, blank_line(), 0);
    assert(blank_line() == seq![13u8, 10, 13, 10]);
    assert(found == Some(end));
    assert(buf@.subrange(end, end + 4)[0] == 13);
    let head = buf@.take(end);
    octets::lemma_first_at(head, crlf(), 0);
    let line = octets::before(head, crlf());
    if octets::first_at(head, crlf(), 0) is Some {
        let x = octets::first_at(head, crlf(), 0)->Some_0;
        assert(head.subrange(x, x + 2)[0] == 13);
    }
    octets::lemma_first_at(line, space(), 0);
    let at = octets::first_at(line, space(), 0)->Some_0;
    assert(line.subrange(at, at + 1)[0] == 32);
    let rest = line.skip(at + 1);
    octets::lemma_first_at(rest, space(), 0);
    let path = octets::before(rest, space());
    let p = path.len() as int;
    assert forall|i: int| 0 <= i < at implies #[trigger] line[i] != 32 by {
        if line[i] == 32 {
            assert(line.subrange(i, i + 1) =~= space());
            assert(octets::holds_at(line, space(), i));
        }
    }
    assert forall|i: int| 0 <= i < p implies #[trigger] path[i] != 32 by {
        if path[i] == 32 {
            assert(rest.subrange(i, i + 1) =~= space());
            assert(octets::holds_at(rest, space(), i));
        }
    }
    if octets::first_at(rest, space(), 0) is Some {
        assert(rest.subrange(p, p + 1)[0] == 32);
        assert(buf@[at + 1 + p] == rest[p]);
    } else {
        assert(at + 1 + p == line.len());
        assert(buf@[line.len() as int] == 13);
    }
    assert(octets::utf8(request.method@) =~= line.take(at));
    assert(buf@.take(at) =~= line.take(at));
    assert(buf@.subrange(at + 1, at + 1 + p) =~= path);
}

/// Until an empty line has come, a connection is read on, up to 2048 bytes; what has
/// reached that length without one is no request.
pub proof fn requests_need_an_empty_line(buf: &[u8], r: ParseOutcome)
    requires
        call_ensures(try_parse, (buf,), r),
        forall|k: int| 0 <= k ==> !octets::holds_at(buf@, seq![13u8, 10, 13, 10], k),
    ensures
        buf@.len() < 2048 ==> r is Incomplete,
        buf@.len() >= 2048 ==> r is Bad,
{
    assert(blank_line() == seq![13u8, 10, 13, 10]);
    octets::lemma_first_at(buf@, blank_line(), 0);
}

/// Spaces around a number do not change it.
proof fn lemma_length_value(n: nat)
    requires
        n <= usize::MAX,
    ensures
        length_value(decimal::digits(n)) == n,
        length_value(seq![32u8] + decimal::digits(n)) == n,
{
    let d = decimal::digits(n);
    decimal::lemma_digits_parsed(n);
    assert(decimal::is_digit(d[0]));
    assert(decimal::is_digit(d[d.len() - 1]));
    let spaced = seq![32u8] + d;
    assert(spaced.skip(1) =~= d);
    assert(space_at_start(d) == 0);
    assert(space_at_end(d) == 0);
    assert(space_at_start(spaced) == 1);
    assert(trimmed_start(spaced) == trimmed_start(d));
}

/// A header named `content-length`, in upper or lower case, gives the number behind its
/// colon, with or without a space before it; a header of another name gives none.
pub proof fn content_lengths_are_read(name: Seq<u8>, n: nat, value: Seq<u8>)
    requires
        n <= usize::MAX,
        forall|i: int| 0 <= i < name.len() ==> #[trigger] name[i] != 58,
    ensures
        same_name(name, octets::utf8("content-length"@)) ==> line_length(
            name + seq![58u8] + decimal::digits(n),
        ) == Some(n) && line_length(name + seq![58u8, 32] + decimal::digits(n)) == Some(n),
        !same_name(name, octets::utf8("content-length"@)) ==> line_length(
            name + seq![58u8] + value,
        ) is None,
{
    let d = decimal::digits(n);
    lemma_length_value(n);
    lemma_split_at_colon(name, d);
    lemma_split_at_colon(name, seq![32u8] + d);
    lemma_split_at_colon(name, value);
    assert(name + seq![58u8, 32] + d =~= name + seq![58u8] + (seq![32u8] + d));
}

/// The first colon ends the name.
proof fn lemma_split_at_colon(name: Seq<u8>, value: Seq<u8>)
    requires
        forall|i: int| 0 <= i < name.len() ==> #[trigger] name[i] != 58,
    ensures
        ({
            let line = name + seq![58u8] + value;
            &&& octets::first_at(line, colon(), 0) == Some(name.len() as int)
            &&& line.take(name.len() as int) == name
            &&& line.skip((name.len() + 1) as int) == value
        }),
{
    let line = name + seq![58u8] + value;
    let n = name.len() as int;
    octets::lemma_first_at(line, colon(), 0);
    assert(line.subrange(n, n + 1) =~= colon());
    assert(octets::holds_at(line, colon(), n));
    assert forall|k: int| 0 <= k < n implies !octets::holds_at(line, colon(), k) by {
        assert(line[k] == name[k]);
        assert(line.subrange(k, k + 1)[0] == name[k]);
    }
    assert(line.take(n) =~= name);
    assert(line.skip(n + 1) =~= value);
}

/// The headers begin behind the first line and are read line by line: a Content-Length
/// overrides one before it, and other lines change nothing.
pub proof fn headers_are_read_in_order(line: Seq<u8>, rest: Seq<u8>, so_far: nat)
    requires
        octets::first_at(line + seq![13u8, 10] + rest, seq![13u8, 10], 0) == Some(
            line.len() as int,
        ),
    ensures
        body_length(line + seq![13u8, 10] + rest) == content_length(rest, 0),
        line_length(line) matches Some(n) ==> content_length(
            line + seq![13u8, 10] + rest,
            so_far,
        ) == content_length(rest, n),
        line_length(line) is None ==> content_length(line + seq![13u8, 10] + rest, so_far)
            == content_length(rest, so_far),
{
    let all = line + seq![13u8, 10] + rest;
    assert(crlf() == seq![13u8, 10]);
    assert(all.take(line.len() as int) =~= line);
    assert(all.skip((line.len() + 2) as int) =~= rest);
}

/// Two letters are the same but for their case exactly when one is the capital of the
/// other; any other byte is the same only as itself.
pub proof fn names_ignore_case(a: u8, b: u8)
    ensures
        lower(a) == lower(b) <==> a == b || (65 <= a <= 90 && b == a + 32) || (65 <= b <= 90 && a
            == b + 32),
{
}

/// With the empty line there and a space in the first line, a request is bad if its head
/// and body come to more than 2048 bytes, and otherwise complete as soon as the body has
/// come. A head that is no UTF-8 is bad.
pub proof fn requests_complete_with_their_body(buf: &[u8], r: ParseOutcome, end: int, gap: int)
    requires
        call_ensures(try_parse, (buf,), r),
        octets::holds_at(buf@, seq![13u8, 10, 13, 10], end),
        forall|k: int| 0 <= k < end ==> !octets::holds_at(buf@, seq![13u8, 10, 13, 10], k),
        0 <= gap < end,
        buf@[gap] == 32,
        forall|k: int| 0 <= k < gap ==> #[trigger] buf@[k] != 13,
    ensures
        ({
            let n = body_length(buf@.take(end));
            &&& !valid_utf8(buf@.take(end)) ==> r is Bad
            &&& valid_utf8(buf@.take(end)) && end + n > 2048 ==> r is Bad
            &&& valid_utf8(buf@.take(end)) && end + n <= 2048 && buf@.len() < end + 4 + n
                ==> r is Incomplete
            &&& valid_utf8(buf@.take(end)) && end + n <= 2048 && buf@.len() >= end + 4 + n
                ==> r is Complete
        }),
{
    octets::lemma_first_at(buf@, blank_line(), 0);
    assert(blank_line() == seq![13u8, 10, 13, 10]);
    assert(octets::first_at(buf@, blank_line(), 0) == Some(end));
    let head = buf@.take(end);
    octets::lemma_first_at(head, crlf(), 0);
    let line = octets::before(head, crlf());
    if octets::first_at(head, crlf(), 0) is Some {
        let x = octets::first_at(head, crlf(), 0)->Some_0;
        assert(head.subrange(x, x + 2)[0] == 13);
        assert(buf@[x] == 13);
        assert(x > gap);
    }
    octets::lemma_first_at(line, space(), 0);
    assert(line[gap] == 32);
    assert(line.subrange(gap, gap + 1) =~= space());
    assert(octets::holds_at(line, space(), gap));
}

/// White space of one byte around a text is not part of it: the tab, the line breaks, the
/// page break and the space. A text that begins or ends with a visible ASCII character
/// keeps that.
pub proof fn blanks_are_trimmed(text: Seq<u8>, b: u8)
    ensures
        9 <= b <= 13 || b == 32 ==> trimmed_start(seq![b] + text) == trimmed_start(text)
            && trimmed_end(text + seq![b]) == trimmed_end(text),
        33 <= b <= 126 ==> trimmed_start(seq![b] + text) == seq![b] + text && trimmed_end(
            text + seq![b],
        ) == text + seq![b],
{
    assert((seq![b] + text).skip(1) =~= text);
    assert((text + seq![b]).take(text.len() as int) =~= text);
    assert((text + seq![b])[text.len() as int] == b);
}

/// White space of several bytes is trimmed too: U+0085, U+00A0, U+1680, U+2000 to U+200A,
/// U+2028, U+2029, U+202F, U+205F and U+3000.
pub proof fn wide_blanks_are_trimmed(text: Seq<u8>, k: u8)
    requires
        0x80 <= k <= 0x8A || k == 0xA8 || k == 0xA9 || k == 0xAF,
    ensures
        trimmed_start(seq![0xC2u8, 0x85] + text) == trimmed_start(text),
        trimmed_start(seq![0xC2u8, 0xA0] + text) == trimmed_start(text),
        trimmed_start(seq![0xE1u8, 0x9A, 0x80] + text) == trimmed_start(text),
        trimmed_start(seq![0xE2u8, 0x80, k] + text) == trimmed_start(text),
        trimmed_start(seq![0xE2u8, 0x81, 0x9F] + text) == trimmed_start(text),
        trimmed_start(seq![0xE3u8, 0x80, 0x80] + text) == trimmed_start(text),
        trimmed_end(text + seq![0xC2u8, 0xA0]) == trimmed_end(text),
        trimmed_end(text + seq![0xE2u8, 0x80, k]) == trimmed_end(text),
        trimmed_end(text + seq![0xE3u8, 0x80, 0x80]) == trimmed_end(text),
{
    assert((seq![0xC2u8, 0x85] + text).skip(2) =~= text);
    assert((seq![0xC2u8, 0xA0] + text).skip(2) =~= text);
    assert((seq![0xE1u8, 0x9A, 0x80] + text).skip(3) =~= text);
    assert((seq![0xE2u8, 0x80, k] + text).skip(3) =~= text);
    assert((seq![0xE2u8, 0x81, 0x9F] + text).skip(3) =~= text);
    assert((seq![0xE3u8, 0x80, 0x80] + text).skip(3) =~= text);
    assert((text + seq![0xC2u8, 0xA0]).take(text.len() as int) =~= text);
    assert((text + seq![0xE2u8, 0x80, k]).take(text.len() as int) =~= text);
    assert((text + seq![0xE3u8, 0x80, 0x80]).take(text.len() as int) =~= text);
}

} // verus!
