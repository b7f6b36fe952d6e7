//! Provisioning portal decisions: what a connection is answered, and how an
//! update goes through the hub control task.
use crate::bounded::Bytes;
use crate::decimal;
use crate::hub_config::{ConfigSpec, HubConfig};
use crate::hub_protocol::types::{
    AckStatus, CommandSpec, HubCommand, HubResponse, HubStatus, ResponseSpec, StatusSpec,
};
use crate::json;
use crate::octets;
use crate::portal::http;
use crate::portal::http::{
    commands_from_update, config_json, route, status_json, try_parse, ConfigUpdate, HttpRequest,
    ParseOutcome, RequestSpec, Route, UpdateError, MAX_BODY, MAX_REQUEST,
};
use crate::portal::page::INDEX_HTML;
use vstd::prelude::*;

verus! {

/// Port of the DHCP server.
pub const DHCP_PORT: u16 = 67;

/// Port that DHCP clients listen on.
pub const DHCP_CLIENT_PORT: u16 = 68;

/// Port of the DNS server.
pub const DNS_PORT: u16 = 53;

/// Port of the HTTP server.
pub const HTTP_PORT: u16 = 80;

/// Seconds after which an idle connection is dropped.
pub const HTTP_TIMEOUT_SECS: u64 = 10;

/// Milliseconds between closing and aborting a connection.
pub const CLOSE_PAUSE_MS: u64 = 50;

/// Milliseconds that let the response reach the phone before restarting.
pub const REBOOT_PAUSE_MS: u64 = 500;

/// What to do with a connection, given the bytes read so far.
pub enum Received<'a> {
    /// Read more bytes.
    More,
    /// Drop the connection.
    Close,
    /// Answer this request.
    Request(HttpRequest<'a>),
}

/// What to do with a connection: requests that are no HTTP or do not fit the
/// buffer are dropped.
pub fn on_received(buf: &[u8]) -> (r: Received<'_>)
    ensures
        match http::outcome(buf@) {
            RequestSpec::Incomplete => if buf@.len() >= MAX_REQUEST {
                r is Close
            } else {
                r is More
            },
            RequestSpec::Bad => r is Close,
            RequestSpec::Complete(method, path, body) => r is Request && octets::utf8(
                r->Request_0.method@,
            ) == method && octets::utf8(r->Request_0.path@) == path && r->Request_0.body@ == body,
        },
{
    match try_parse(buf) {
        ParseOutcome::Incomplete => if buf.len() >= MAX_REQUEST {
            Received::Close
        } else {
            Received::More
        },
        ParseOutcome::Bad => Received::Close,
        ParseOutcome::Complete(request) => Received::Request(request),
    }
}

/// A response: status line, headers and body.
pub open spec fn response_bytes(
    status: Seq<char>,
    content_type: Seq<char>,
    body: Seq<u8>,
) -> Seq<u8> {
    octets::utf8("HTTP/1.1 "@) + octets::utf8(status) + octets::utf8("\r\nContent-Type: "@)
        + octets::utf8(content_type) + octets::utf8("\r\nContent-Length: "@) + decimal::digits(
        body.len(),
    ) + octets::utf8("\r\nConnection: close\r\n\r\n"@) + body
}

/// A response: status line, headers and body.
fn response(status: &str, content_type: &str, body: &[u8]) -> (r: Vec<u8>)
    ensures
        r@ == response_bytes(status@, content_type@, body@),
{
    let mut out: Vec<u8> = Vec::new();
    octets::append_text(&mut out, "HTTP/1.1 ");
    assert(out@ =~= octets::utf8("HTTP/1.1 "@));
    octets::append_text(&mut out, status);
    octets::append_text(&mut out, "\r\nContent-Type: ");
    octets::append_text(&mut out, content_type);
    octets::append_text(&mut out, "\r\nContent-Length: ");
    let len: usize = body.len();
    decimal::append(&mut out, len as u64);
    octets::append_text(&mut out, "\r\nConnection: close\r\n\r\n");
    octets::append(&mut out, body);
    out
}

/// A JSON response.
pub open spec fn json_response(status: Seq<char>, body: Seq<u8>) -> Seq<u8> {
    response_bytes(status, "application/json"@, body)
}

/// The redirect to the page.
pub open spec fn redirect_bytes() -> Seq<u8> {
    octets::utf8(
        "HTTP/1.1 302 Found\r\nLocation: http://192.168.4.1/\r\nContent-Length: 0\r\nConnection: close\r\n\r\n"@,
    )
}

/// An answer on its way to the phone.
pub struct PortalReply {
    /// What to send.
    pub bytes: Vec<u8>,
    /// Whether the hub restarts afterwards to apply saved settings.
    pub reboot: bool,
}

/// What a [`PortalReply`] says.
pub struct ReplySpec {
    /// What to send.
    pub bytes: Seq<u8>,
    /// Whether the hub restarts afterwards.
    pub reboot: bool,
}

impl View for PortalReply {
    type V = ReplySpec;

    open spec fn view(&self) -> ReplySpec {
        ReplySpec { bytes: self.bytes@, reboot: self.reboot }
    }
}

/// The answer to an update that cannot be applied.
pub open spec fn update_error(error: UpdateError) -> ReplySpec {
    ReplySpec {
        bytes: json_response(
            "400 Bad Request"@,
            match error {
                UpdateError::Bad => octets::utf8("{\"ok\":false,\"error\":\"invalid values\"}"@),
                UpdateError::Empty => octets::utf8(
                    "{\"ok\":false,\"error\":\"nothing to change\"}"@,
                ),
            },
        ),
        reboot: false,
    }
}

/// The answer to an update that was refused or not stored.
pub open spec fn not_applied() -> ReplySpec {
    ReplySpec {
        bytes: json_response(
            "422 Unprocessable Entity"@,
            octets::utf8("{\"ok\":false,\"error\":\"rejected or not stored\"}"@),
        ),
        reboot: false,
    }
}

/// The answer to an update that was applied.
pub open spec fn all_applied() -> ReplySpec {
    ReplySpec {
        bytes: json_response("200 OK"@, octets::utf8("{\"ok\":true,\"rebooting\":true}"@)),
        reboot: true,
    }
}

/// The answer to a request that changes nothing.
pub open spec fn read_reply(
    method: Seq<char>,
    path: Seq<char>,
    config: ConfigSpec,
    status: StatusSpec,
) -> ReplySpec {
    ReplySpec {
        bytes: match http::routed(method, path) {
            Route::Index => response_bytes(
                "200 OK"@,
                "text/html"@,
                octets::utf8(INDEX_HTML@),
            ),
            Route::ApiConfigGet => json_response(
                "200 OK"@,
                json::capped(http::config_object(config), MAX_BODY as int),
            ),
            Route::ApiStatus => json_response(
                "200 OK"@,
                json::capped(http::status_object(status), MAX_BODY as int),
            ),
            _ => redirect_bytes(),
        },
        reboot: false,
    }
}

/// What a request leads to.
pub enum PortalStep {
    /// Send this answer.
    Reply(PortalReply),
    /// Apply these commands one after the other.
    Apply(Applying),
}

/// What answers a request. `status` is the live status, and `update` the body of
/// a request that changes the configuration, as read from JSON, or `None` when it
/// could not be read.
pub fn respond(
    request: &HttpRequest<'_>,
    config: &HubConfig,
    status: &HubStatus,
    update: Option<&ConfigUpdate>,
) -> (r: PortalStep)
    ensures
        if !http::posts_config(request.method@, request.path@) {
            r is Reply && r->Reply_0@ == read_reply(
                request.method@,
                request.path@,
                config@,
                status@,
            )
        } else if update is None || !update->Some_0.fits() {
            r is Reply && r->Reply_0@ == update_error(UpdateError::Bad)
        } else if update->Some_0.changes_nothing() {
            r is Reply && r->Reply_0@ == update_error(UpdateError::Empty)
        } else {
            r is Apply && r->Apply_0@ == update->Some_0.commands(config@)
        },
{
    let bytes: Vec<u8> = match route(request) {
        Route::Index => response("200 OK", "text/html", INDEX_HTML.as_bytes()),
        Route::ApiConfigGet => {
            let body: Bytes<512> = config_json(config);
            response("200 OK", "application/json", body.as_slice())
        },
        Route::ApiStatus => {
            let body: Bytes<512> = status_json(status);
            response("200 OK", "application/json", body.as_slice())
        },
        Route::ApiConfigPost(_) => match commands_from_update(update, config) {
            Ok(commands) => {
                return PortalStep::Apply(Applying { commands, at: 0 });
            },
            Err(UpdateError::Bad) => response(
                "400 Bad Request",
                "application/json",
                "{\"ok\":false,\"error\":\"invalid values\"}".as_bytes(),
            ),
            Err(UpdateError::Empty) => response(
                "400 Bad Request",
                "application/json",
                "{\"ok\":false,\"error\":\"nothing to change\"}".as_bytes(),
            ),
        },
        Route::Redirect => octets::copied(
            "HTTP/1.1 302 Found\r\nLocation: http://192.168.4.1/\r\nContent-Length: 0\r\nConnection: close\r\n\r\n".as_bytes(),
        ),
    };
    PortalStep::Reply(PortalReply { bytes, reboot: false })
}

/// The commands of an update that are still to be applied.
pub struct Applying {
    commands: Vec<HubCommand>,
    at: usize,
}

impl View for Applying {
    type V = Seq<CommandSpec>;

    closed spec fn view(&self) -> Seq<CommandSpec> {
        http::said(self.commands@).skip(self.at as int)
    }
}

/// What follows in an update.
pub enum ApplyStep {
    /// Round-trip this command through the hub control task.
    Send(HubCommand),
    /// Send this answer.
    Reply(PortalReply),
}

/// What an [`ApplyStep`] says.
pub enum ApplySpec {
    /// Round-trip this command.
    Send(CommandSpec),
    /// Send this answer.
    Reply(ReplySpec),
}

impl View for ApplyStep {
    type V = ApplySpec;

    open spec fn view(&self) -> ApplySpec {
        match self {
            ApplyStep::Send(command) => ApplySpec::Send(command@),
            ApplyStep::Reply(reply) => ApplySpec::Reply(reply@),
        }
    }
}

/// Whether a response to a command says that it was applied and stored.
pub open spec fn acknowledged(response: ResponseSpec) -> bool {
    response == ResponseSpec::ConfigAck(AckStatus::Success)
}

/// What follows, given the commands still to be applied and the response to the
/// last one: the update stops at the first that fails.
pub open spec fn apply_step(
    remaining: Seq<CommandSpec>,
    last: Option<ResponseSpec>,
) -> ApplySpec {
    if last is Some && !acknowledged(last->Some_0) {
        ApplySpec::Reply(not_applied())
    } else if remaining.len() == 0 {
        ApplySpec::Reply(all_applied())
    } else {
        ApplySpec::Send(remaining[0])
    }
}

impl Applying {
    #[verifier::type_invariant]
    spec fn in_range(self) -> bool {
        self.at <= self.commands@.len()
    }

    /// What follows, given the response to the command that was sent last.
    pub fn next(&mut self, last: Option<&HubResponse>) -> (r: ApplyStep)
        ensures
            r@ == apply_step(
                old(self)@,
                match last {
                    Some(response) => Some(response@),
                    None => None,
                },
            ),
            final(self)@ == (if r is Send {
                old(self)@.skip(1)
            } else {
                old(self)@
            }),
    {
        proof {
            use_type_invariant(&*self);
        }
        let ghost before = self@;
        let failed: bool = match last {
            Some(HubResponse::ConfigAck { status: AckStatus::Success }) => false,
            Some(_) => true,
            None => false,
        };
        if failed {
            let bytes: Vec<u8> = response(
                "422 Unprocessable Entity",
                "application/json",
                "{\"ok\":false,\"error\":\"rejected or not stored\"}".as_bytes(),
            );
            return ApplyStep::Reply(PortalReply { bytes, reboot: false });
        }
        if self.at == self.commands.len() {
            let bytes: Vec<u8> = response(
                "200 OK",
                "application/json",
                "{\"ok\":true,\"rebooting\":true}".as_bytes(),
            );
            return ApplyStep::Reply(PortalReply { bytes, reboot: true });
        }
        let command: HubCommand = self.commands[self.at].clone();
        self.at = self.at + 1;
        assert(self@ =~= before.skip(1));
        ApplyStep::Send(command)
    }
}

/// Whether an update ends with a restart, given the responses to its commands in
/// order.
pub open spec fn restarts(
    remaining: Seq<CommandSpec>,
    last: Option<ResponseSpec>,
    responses: Seq<ResponseSpec>,
) -> bool
    decreases responses.len(),
{
    match apply_step(remaining, last) {
        ApplySpec::Reply(reply) => reply.reboot,
        ApplySpec::Send(_) => if responses.len() == 0 {
            false
        } else {
            restarts(remaining.skip(1), Some(responses[0]), responses.skip(1))
        },
    }
}

/// The hub restarts after an update, and the phone is told so, exactly when
/// every command of the update was applied and stored.
pub proof fn restart_means_all_stored(
    remaining: Seq<CommandSpec>,
    last: Option<ResponseSpec>,
    responses: Seq<ResponseSpec>,
)
    ensures
        restarts(remaining, last, responses) <==> (last is Some ==> acknowledged(last->Some_0))
            && responses.len() >= remaining.len() && forall|i: int|
            0 <= i < remaining.len() ==> acknowledged(#[trigger] responses[i]),
    decreases responses.len(),
{
    if apply_step(remaining, last) is Send && responses.len() > 0 {
        restart_means_all_stored(remaining.skip(1), Some(responses[0]), responses.skip(1));
        let rest = responses.skip(1);
        if restarts(remaining, last, responses) {
            assert forall|i: int| 0 <= i < remaining.len() implies acknowledged(
                #[trigger] responses[i],
            ) by {
                if i > 0 {
                    assert(rest[i - 1] == responses[i]);
                }
            }
        }
        if responses.len() >= remaining.len() && (forall|i: int|
            0 <= i < remaining.len() ==> acknowledged(#[trigger] responses[i])) {
            assert(acknowledged(responses[0]));
            assert forall|i: int| 0 <= i < remaining.len() - 1 implies acknowledged(
                #[trigger] rest[i],
            ) by {
                assert(rest[i] == responses[i + 1]);
            }
        }
    }
}

/// Requests that only read never restart the hub, and say nothing of the WiFi
/// password.
pub proof fn reads_are_harmless(
    method: Seq<char>,
    path: Seq<char>,
    config: ConfigSpec,
    status: StatusSpec,
    password: Seq<char>,
)
    ensures
        !read_reply(method, path, config, status).reboot,
        read_reply(
            method,
            path,
            crate::hub_config::with_password(config, password),
            status,
        ) == read_reply(method, path, config, status),
{
    http::config_json_hides_the_password(config, password);
}

/// A connection is read until its request is complete or 2048 bytes have come without
/// one; what is no HTTP is dropped at once.
pub proof fn connections_are_read(buf: &[u8], r: Received)
    requires
        call_ensures(on_received, (buf,), r),
    ensures
        r is More <==> http::outcome(buf@) is Incomplete && buf@.len() < 2048,
        r is Request <==> http::outcome(buf@) is Complete,
        r is Close <==> http::outcome(buf@) is Bad || (http::outcome(buf@) is Incomplete
            && buf@.len() >= 2048),
{
}

/// A response is its status line, the type and the length of its body, the close of the
/// connection, an empty line and the body.
pub proof fn responses_are_laid_out(status: Seq<char>, content_type: Seq<char>, body: Seq<u8>)
    ensures
        response_bytes(status, content_type, body) == octets::utf8(
            "HTTP/1.1 "@ + status + "\r\nContent-Type: "@ + content_type
                + "\r\nContent-Length: "@,
        ) + decimal::digits(body.len()) + octets::utf8("\r\nConnection: close\r\n\r\n"@) + body,
{
    let line = "HTTP/1.1 "@ + status;
    let kind = line + "\r\nContent-Type: "@ + content_type;
    octets::lemma_utf8_concat("HTTP/1.1 "@, status);
    octets::lemma_utf8_concat(line, "\r\nContent-Type: "@);
    octets::lemma_utf8_concat(line + "\r\nContent-Type: "@, content_type);
    octets::lemma_utf8_concat(kind, "\r\nContent-Length: "@);
}

/// The page, the configuration and the status are answered with what they are, and any
/// other reading request with a redirect to the page. None of them restarts the hub.
pub proof fn pages_are_served(
    request: &HttpRequest,
    config: &HubConfig,
    status: &HubStatus,
    update: Option<&ConfigUpdate>,
    r: PortalStep,
)
    requires
        call_ensures(respond, (request, config, status, update), r),
        !http::posts_config(request.method@, request.path@),
    ensures
        r matches PortalStep::Reply(reply) && !reply.reboot && match http::routed(
            request.method@,
            request.path@,
        ) {
            Route::Index => reply.bytes@ == response_bytes(
                "200 OK"@,
                "text/html"@,
                octets::utf8(INDEX_HTML@),
            ),
            Route::ApiConfigGet => reply.bytes@ == response_bytes(
                "200 OK"@,
                "application/json"@,
                json::capped(http::config_object(config@), 512),
            ),
            Route::ApiStatus => reply.bytes@ == response_bytes(
                "200 OK"@,
                "application/json"@,
                json::capped(http::status_object(status@), 512),
            ),
            _ => reply.bytes@ == octets::utf8(
                "HTTP/1.1 302 Found\r\nLocation: http://192.168.4.1/\r\nContent-Length: 0\r\nConnection: close\r\n\r\n"@,
            ),
        },
{
}

/// An update that could not be read or does not fit is a bad request, and so is one
/// that changes nothing, each with its own error; any other is applied command by
/// command.
pub proof fn updates_are_applied_or_refused(
    request: &HttpRequest,
    config: &HubConfig,
    status: &HubStatus,
    update: Option<&ConfigUpdate>,
    r: PortalStep,
)
    requires
        call_ensures(respond, (request, config, status, update), r),
        http::posts_config(request.method@, request.path@),
    ensures
        update is None || !update->Some_0.fits() ==> (r matches PortalStep::Reply(reply)
            && !reply.reboot && reply.bytes@ == response_bytes(
            "400 Bad Request"@,
            "application/json"@,
            octets::utf8("{\"ok\":false,\"error\":\"invalid values\"}"@),
        )),
        update is Some && update->Some_0.fits() && update->Some_0.changes_nothing() ==> (
        r matches PortalStep::Reply(reply) && !reply.reboot && reply.bytes@ == response_bytes(
            "400 Bad Request"@,
            "application/json"@,
            octets::utf8("{\"ok\":false,\"error\":\"nothing to change\"}"@),
        )),
        update is Some && update->Some_0.fits() && !update->Some_0.changes_nothing() ==> (
        r matches PortalStep::Apply(applying) && applying@ == update->Some_0.commands(config@)),
{
}

/// The commands of an update go out in order, each after the one before it succeeded.
/// The first that does not ends the update without a restart; after the last one the
/// phone is told so and the hub restarts.
pub proof fn updates_go_out_in_order(
    applying: &mut Applying,
    last: Option<&HubResponse>,
    r: ApplyStep,
)
    requires
        call_ensures(Applying::next, (applying, last), r),
    ensures
        last is Some && last->Some_0@ != ResponseSpec::ConfigAck(AckStatus::Success) ==> (
        r matches ApplyStep::Reply(reply) && !reply.reboot && reply.bytes@ == response_bytes(
            "422 Unprocessable Entity"@,
            "application/json"@,
            octets::utf8("{\"ok\":false,\"error\":\"rejected or not stored\"}"@),
        )),
        last is None || last->Some_0@ == ResponseSpec::ConfigAck(AckStatus::Success) ==> if old(
            applying,
        )@.len() == 0 {
            r matches ApplyStep::Reply(reply) && reply.reboot && reply.bytes@ == response_bytes(
                "200 OK"@,
                "application/json"@,
                octets::utf8("{\"ok\":true,\"rebooting\":true}"@),
            )
        } else {
            (r matches ApplyStep::Send(command) && command@ == old(applying)@[0])
                && final(applying)@ == old(applying)@.skip(1)
        },
{
}

} // verus!
