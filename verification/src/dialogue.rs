//! The Wi-Fi module's dialogues as state machines: joining the access point, and
//! posting a request over TCP. Each step takes the state, what the last action
//! brought back (a reply, or nothing when there was no reply or the read timed
//! out) and the time, and gives the next state and the next action. The firmware
//! performs the actions on the serial line and feeds the outcomes back.

use vstd::prelude::*;
use vstd::string::StringSliceAdditionalSpecFns;
use vstd::utf8::{decode_utf8, valid_utf8};
use crate::wifi::{
    connect_command, decimal, extract_http_body, http_body_bytes, join_command, join_command_bytes, join_reply, occurs_in,
    post_request, post_request_bytes, push_ascii, send_command, JoinReply,
};

verus! {

/// The bytes of an ASCII text.
pub open spec fn ascii(t: Seq<char>) -> Seq<u8> {
    t.map_values(|c: char| c as u8)
}

/// What the firmware does next on the serial line.
#[derive(Debug, Clone, PartialEq, Eq)]
pub enum LinkAction {
    /// Write `command`, then read the reply: at most `limit` bytes, waiting at
    /// most `timeout_ms` milliseconds.
    Exchange { command: Vec<u8>, timeout_ms: u64, limit: usize },
    /// Write `bytes` and read nothing.
    Write { bytes: Vec<u8> },
    /// Read at most `limit` bytes, waiting at most `timeout_ms` milliseconds.
    Read { timeout_ms: u64, limit: usize },
    /// Wait `ms` milliseconds.
    Sleep { ms: u64 },
    /// The dialogue is over: its outcome is in the state.
    Stop,
}

/// `a` writes `command` and reads a reply of at most `limit` bytes within `timeout_ms`.
pub open spec fn exchanges(a: LinkAction, command: Seq<u8>, timeout_ms: u64, limit: usize) -> bool {
    a matches LinkAction::Exchange { command: c, timeout_ms: t, limit: l } && c@ == command && t == timeout_ms
        && l == limit
}

/// `a` writes `bytes` and reads nothing.
pub open spec fn writes(a: LinkAction, bytes: Seq<u8>) -> bool {
    a matches LinkAction::Write { bytes: b } && b@ == bytes
}

/// `a` reads at most `limit` bytes within `timeout_ms`.
pub open spec fn reads(a: LinkAction, timeout_ms: u64, limit: usize) -> bool {
    a == LinkAction::Read { timeout_ms, limit }
}

/// The view of what the last action brought back.
pub open spec fn reply_view(reply: Option<&[u8]>) -> Option<Seq<u8>> {
    match reply {
        Some(r) => Some(r@),
        None => None,
    }
}

/// A reply came back and holds `needle`.
pub open spec fn reply_holds(reply: Option<Seq<u8>>, needle: Seq<u8>) -> bool {
    reply matches Some(r) && occurs_in(r, needle)
}

/// The buffer size for a command's reply while joining.
pub const REPLY_LIMIT: usize = 128;

/// How long the module may take to join, in milliseconds.
pub const JOIN_TIMEOUT_MS: u64 = 15000;

/// Where joining the access point stands.
#[derive(Debug, Clone, Copy, PartialEq, Eq, Structural)]
pub enum ConnectState {
    /// Nothing sent yet.
    Start,
    /// Echo is being turned off.
    EchoOff,
    /// Station mode was asked for.
    StationMode,
    /// The join command was written.
    JoinSent,
    /// Waiting for the join to finish until `deadline_ms`.
    Joining { deadline_ms: u64 },
    /// Joined; the module is given a moment.
    Settling,
    /// The station address was asked for.
    AddressCheck,
    /// The firmware version was asked for.
    Firmware,
    /// Over: joined or not.
    Done(bool),
}

/// One step of joining the access point `ssid` with `password`: from `state`,
/// with `reply` brought back by the last action at time `now`, to `next` and
/// `action`. Echo is turned off first (its reply is not looked at); station mode
/// must be acknowledged with `OK` before the join command is written; the join
/// must answer `OK` before the deadline, 15 s after the join command was
/// written, and `FAIL` refuses it; after half a second the station must have an
/// address (`STAIP`); the firmware version is then asked for and the join has
/// succeeded.
pub open spec fn connect_transition(
    state: ConnectState,
    reply: Option<Seq<u8>>,
    now: u64,
    ssid: Seq<u8>,
    password: Seq<u8>,
    next: ConnectState,
    action: LinkAction,
) -> bool {
    match state {
        ConnectState::Start => next == ConnectState::EchoOff && exchanges(action, ascii("ATE0\r\n"@), 1000, 128),
        ConnectState::EchoOff => next == ConnectState::StationMode && exchanges(
            action,
            ascii("AT+CWMODE=1\r\n"@),
            3000,
            128,
        ),
        ConnectState::StationMode => if reply_holds(reply, ascii("OK"@)) {
            next == ConnectState::JoinSent && writes(action, join_command_bytes(ssid, password))
        } else {
            next == ConnectState::Done(false) && action == LinkAction::Stop
        },
        ConnectState::JoinSent => next == (ConnectState::Joining { deadline_ms: (now + 15000) as u64 }) && reads(
            action,
            3000,
            128,
        ),
        ConnectState::Joining { deadline_ms } => if reply_holds(reply, ascii("OK"@)) {
            next == ConnectState::Settling && action == (LinkAction::Sleep { ms: 500 })
        } else if reply_holds(reply, ascii("FAIL"@)) || now >= deadline_ms {
            next == ConnectState::Done(false) && action == LinkAction::Stop
        } else {
            next == state && reads(action, 3000, 128)
        },
        ConnectState::Settling => next == ConnectState::AddressCheck && exchanges(
            action,
            ascii("AT+CIFSR\r\n"@),
            5000,
            128,
        ),
        ConnectState::AddressCheck => if reply_holds(reply, ascii("STAIP"@)) {
            next == ConnectState::Firmware && exchanges(action, ascii("AT+GMR\r\n"@), 2000, 128)
        } else {
            next == ConnectState::Done(false) && action == LinkAction::Stop
        },
        ConnectState::Firmware => next == ConnectState::Done(true) && action == LinkAction::Stop,
        ConnectState::Done(ok) => next == ConnectState::Done(ok) && action == LinkAction::Stop,
    }
}

/// The join command is written only right after the module acknowledged station
/// mode with `OK`; without that acknowledgement the dialogue ends unjoined.
pub proof fn lemma_join_needs_station_mode(
    state: ConnectState,
    reply: Option<Seq<u8>>,
    now: u64,
    ssid: Seq<u8>,
    password: Seq<u8>,
    next: ConnectState,
    action: LinkAction,
)
    requires
        connect_transition(state, reply, now, ssid, password, next, action),
    ensures
        action is Write ==> state == ConnectState::StationMode && reply_holds(reply, ascii("OK"@)) && writes(
            action,
            join_command_bytes(ssid, password),
        ),
        state == ConnectState::StationMode && !reply_holds(reply, ascii("OK"@)) ==> next == ConnectState::Done(false)
            && action == LinkAction::Stop,
{
}

/// Joining succeeds only through the last step, after the station had an
/// address; a finished dialogue stays finished.
pub proof fn lemma_connect_success_path(
    state: ConnectState,
    reply: Option<Seq<u8>>,
    now: u64,
    ssid: Seq<u8>,
    password: Seq<u8>,
    next: ConnectState,
    action: LinkAction,
)
    requires
        connect_transition(state, reply, now, ssid, password, next, action),
    ensures
        next == ConnectState::Done(true) ==> state == ConnectState::Firmware || state == ConnectState::Done(true),
        state matches ConnectState::Done(ok) ==> next == state && action == LinkAction::Stop,
{
}

/// The request is written only after the module's `>` prompt for a send slot;
/// the dialogue ends, with its body, only after the connection was closed by
/// the module or by the firmware.
pub proof fn lemma_post_request_needs_prompt(
    state: PostState,
    reply: Option<Seq<u8>>,
    now: u64,
    connect: Seq<u8>,
    request: Seq<u8>,
    next: PostState,
    action: LinkAction,
)
    requires
        post_transition(state, reply, now, connect, request, next, action),
    ensures
        action is Write ==> state == PostState::SlotRequested && (reply matches Some(r) && r.contains(0x3Eu8))
            && writes(action, request),
        (next matches PostState::Finished(Some(_))) && !(state is Finished) ==> state is Closing || (
        state is Receiving && action == LinkAction::Stop),
{
}

/// The bytes of the ASCII text `t`.
fn ascii_bytes(t: &str) -> (r: Vec<u8>)
    requires
        t.is_ascii(),
    ensures
        r@ == ascii(t@),
{
    let mut out: Vec<u8> = Vec::new();
    push_ascii(&mut out, t);
    assert(out@ =~= ascii(t@));
    out
}

/// Whether a reply came back and holds the ASCII text `needle`.
fn reply_contains(reply: Option<&[u8]>, needle: &str) -> (r: bool)
    requires
        needle.is_ascii(),
        needle@.len() > 0,
    ensures
        r == reply_holds(reply_view(reply), ascii(needle@)),
{
    match reply {
        Some(chunk) => {
            let n = ascii_bytes(needle);
            crate::wifi::contains_bytes(chunk, n.as_slice())
        },
        None => false,
    }
}

/// One step of joining the access point (see [`connect_transition`]).
pub fn connect_step(state: ConnectState, reply: Option<&[u8]>, now_ms: u64, ssid: &str, password: &str) -> (r: (
    ConnectState,
    LinkAction,
))
    requires
        state == ConnectState::JoinSent ==> now_ms <= u64::MAX - JOIN_TIMEOUT_MS,
    ensures
        connect_transition(state, reply_view(reply), now_ms, ssid.spec_bytes(), password.spec_bytes(), r.0, r.1),
{
    proof {
        reveal_strlit("ATE0\r\n");
        reveal_strlit("AT+CWMODE=1\r\n");
        reveal_strlit("AT+CIFSR\r\n");
        reveal_strlit("AT+GMR\r\n");
        reveal_strlit("OK");
        reveal_strlit("FAIL");
        reveal_strlit("STAIP");
    }
    match state {
        ConnectState::Start => (
            ConnectState::EchoOff,
            LinkAction::Exchange { command: ascii_bytes("ATE0\r\n"), timeout_ms: 1000, limit: REPLY_LIMIT },
        ),
        ConnectState::EchoOff => (
            ConnectState::StationMode,
            LinkAction::Exchange { command: ascii_bytes("AT+CWMODE=1\r\n"), timeout_ms: 3000, limit: REPLY_LIMIT },
        ),
        ConnectState::StationMode => {
            if reply_contains(reply, "OK") {
                (ConnectState::JoinSent, LinkAction::Write { bytes: join_command(ssid, password) })
            } else {
                (ConnectState::Done(false), LinkAction::Stop)
            }
        },
        ConnectState::JoinSent => (
            ConnectState::Joining { deadline_ms: now_ms + JOIN_TIMEOUT_MS },
            LinkAction::Read { timeout_ms: 3000, limit: REPLY_LIMIT },
        ),
        ConnectState::Joining { deadline_ms } => {
            let answer = match reply {
                Some(chunk) => join_reply(chunk),
                None => JoinReply::Pending,
            };
            proof {
                assert(ascii("OK"@) == "OK"@.map_values(|c: char| c as u8));
                assert(ascii("FAIL"@) == "FAIL"@.map_values(|c: char| c as u8));
            }
            match answer {
                JoinReply::Joined => (ConnectState::Settling, LinkAction::Sleep { ms: 500 }),
                JoinReply::Refused => (ConnectState::Done(false), LinkAction::Stop),
                JoinReply::Pending => {
                    if now_ms >= deadline_ms {
                        (ConnectState::Done(false), LinkAction::Stop)
                    } else {
                        (state, LinkAction::Read { timeout_ms: 3000, limit: REPLY_LIMIT })
                    }
                },
            }
        },
        ConnectState::Settling => (
            ConnectState::AddressCheck,
            LinkAction::Exchange { command: ascii_bytes("AT+CIFSR\r\n"), timeout_ms: 5000, limit: REPLY_LIMIT },
        ),
        ConnectState::AddressCheck => {
            if reply_contains(reply, "STAIP") {
                (
                    ConnectState::Firmware,
                    LinkAction::Exchange { command: ascii_bytes("AT+GMR\r\n"), timeout_ms: 2000, limit: REPLY_LIMIT },
                )
            } else {
                (ConnectState::Done(false), LinkAction::Stop)
            }
        },
        ConnectState::Firmware => (ConnectState::Done(true), LinkAction::Stop),
        ConnectState::Done(ok) => (ConnectState::Done(ok), LinkAction::Stop),
    }
}

/// The buffer size for a reply while posting.
pub const POST_REPLY_LIMIT: usize = 256;

/// The most bytes of an HTTP response that are kept.
pub const RESPONSE_LIMIT: usize = 512;

/// How long the response may take to come in, in milliseconds.
pub const RESPONSE_TIMEOUT_MS: u64 = 5000;

/// Where posting a request stands.
#[derive(Debug, Clone, PartialEq, Eq)]
pub enum PostState {
    /// Nothing sent yet.
    Start,
    /// A TCP connection was asked for; `retried` on the second attempt.
    Connecting { retried: bool },
    /// The first attempt failed; waiting before the second.
    RetryWait,
    /// A send slot for the request was asked for.
    SlotRequested,
    /// No send slot: the connection is being closed.
    Aborting,
    /// The request was written.
    RequestSent,
    /// The response is coming in until `deadline_ms`; `received` holds it so far.
    Receiving { deadline_ms: u64, received: Vec<u8> },
    /// The response ended without the module closing: the connection is being closed.
    Closing { received: Vec<u8> },
    /// Over: the response body, if there was one.
    Finished(Option<String>),
}

/// The text of the JSON body in the response `data`, when it has one that is UTF-8.
pub open spec fn body_text(data: Seq<u8>) -> Option<Seq<char>> {
    match http_body_bytes(data) {
        Some(b) => if valid_utf8(b) { Some(decode_utf8(b)) } else { None },
        None => None,
    }
}

/// The command that opens the TCP connection to `host:port`.
pub open spec fn connect_command_bytes(host: Seq<u8>, port: u16) -> Seq<u8> {
    ascii("AT+CIPSTART=\"TCP\",\""@) + host + ascii("\","@) + decimal(port as nat) + ascii("\r\n"@)
}

/// The command that asks for a send slot of `len` bytes.
pub open spec fn send_command_bytes(len: nat) -> Seq<u8> {
    ascii("AT+CIPSEND="@) + decimal(len) + ascii("\r\n"@)
}

/// `s` is over with the body text `body`.
pub open spec fn finished_with(s: PostState, body: Option<Seq<char>>) -> bool {
    s matches PostState::Finished(out) && match out {
        Some(t) => body == Some(t@),
        None => body is None,
    }
}

/// `s` receives until `deadline_ms`, with `received` so far.
pub open spec fn receiving(s: PostState, deadline_ms: u64, received: Seq<u8>) -> bool {
    s matches PostState::Receiving { deadline_ms: d, received: r } && d == deadline_ms && r@ == received
}

/// `s` closes the connection after receiving `received`.
pub open spec fn closing(s: PostState, received: Seq<u8>) -> bool {
    s matches PostState::Closing { received: r } && r@ == received
}

/// The states that can be reached: a response in progress is shorter than the limit.
pub open spec fn post_state_valid(s: PostState) -> bool {
    s matches PostState::Receiving { received, .. } ==> received@.len() < RESPONSE_LIMIT
}

/// Where the response stands once `received` came in, at time `now`, before
/// `deadline_ms`: finished when the module closed the connection, closing when
/// the buffer is full or the time is up, else still receiving.
pub open spec fn after_chunk(received: Seq<u8>, now: u64, deadline_ms: u64, next: PostState, action: LinkAction) -> bool {
    if occurs_in(received, ascii("CLOSED"@)) {
        finished_with(next, body_text(received)) && action == LinkAction::Stop
    } else if received.len() >= RESPONSE_LIMIT || now >= deadline_ms {
        closing(next, received) && exchanges(action, ascii("AT+CIPCLOSE\r\n"@), 1000, 128)
    } else {
        receiving(next, deadline_ms, received) && reads(action, 1500, (RESPONSE_LIMIT - received.len()) as usize)
    }
}

/// Where the response stands when a read brought nothing after `received`:
/// finished when the module closed the connection, else closing it.
pub open spec fn after_end(received: Seq<u8>, next: PostState, action: LinkAction) -> bool {
    if occurs_in(received, ascii("CLOSED"@)) {
        finished_with(next, body_text(received)) && action == LinkAction::Stop
    } else {
        closing(next, received) && exchanges(action, ascii("AT+CIPCLOSE\r\n"@), 1000, 128)
    }
}

/// One step of posting `request` over a TCP connection to `host:port`: from
/// `state`, with `reply` brought back by the last action at time `now`, to
/// `next` and `action`. The connection is tried twice, 200 ms apart; it is open
/// when the reply holds `CONNECT` and no `ERROR`. A send slot is then asked for,
/// and the module's `>` prompt is needed to write the request, else the
/// connection is closed and there is no body. The response is read in chunks
/// until the module reports `CLOSED`, a read brings nothing, 512 bytes came in,
/// or 5 s after the request was written; the connection is closed unless the
/// module closed it; the body is the JSON body of what came in.
pub open spec fn post_transition(
    state: PostState,
    reply: Option<Seq<u8>>,
    now: u64,
    connect: Seq<u8>,
    request: Seq<u8>,
    next: PostState,
    action: LinkAction,
) -> bool {
    let opened = reply_holds(reply, ascii("CONNECT"@)) && !reply_holds(reply, ascii("ERROR"@));
    match state {
        PostState::Start => next == (PostState::Connecting { retried: false }) && exchanges(action, connect, 5000, 256),
        PostState::Connecting { retried } => if opened {
            next == PostState::SlotRequested && exchanges(action, send_command_bytes(request.len()), 3000, 256)
        } else if !retried {
            next == PostState::RetryWait && action == (LinkAction::Sleep { ms: 200 })
        } else {
            finished_with(next, None) && action == LinkAction::Stop
        },
        PostState::RetryWait => next == (PostState::Connecting { retried: true }) && exchanges(action, connect, 5000, 256),
        PostState::SlotRequested => if reply matches Some(r) && r.contains(0x3Eu8) {
            next == PostState::RequestSent && writes(action, request)
        } else {
            next == PostState::Aborting && exchanges(action, ascii("AT+CIPCLOSE\r\n"@), 1000, 128)
        },
        PostState::Aborting => finished_with(next, None) && action == LinkAction::Stop,
        PostState::RequestSent => receiving(next, (now + 5000) as u64, Seq::empty()) && reads(action, 1500, 512),
        PostState::Receiving { deadline_ms, received } => match reply {
            Some(c) => if c.len() > 0 {
                after_chunk(received@ + c, now, deadline_ms, next, action)
            } else {
                after_end(received@, next, action)
            },
            None => after_end(received@, next, action),
        },
        PostState::Closing { received } => finished_with(next, body_text(received@)) && action == LinkAction::Stop,
        PostState::Finished(out) => next == state && action == LinkAction::Stop,
    }
}

/// The response body as [`body_text`] reads it.
fn response_body(data: &[u8]) -> (r: Option<String>)
    ensures
        match r {
            Some(t) => body_text(data@) == Some(t@),
            None => body_text(data@) is None,
        },
{
    extract_http_body(data)
}

/// Whether the byte `b` occurs in `data`.
fn holds_byte(data: &[u8], b: u8) -> (r: bool)
    ensures
        r == data@.contains(b),
{
    let mut i: usize = 0;
    while i < data.len()
        invariant
            i <= data@.len(),
            forall|j: int| 0 <= j < i ==> data@[j] != b,
        decreases data.len() - i,
    {
        if data[i] == b {
            assert(data@[i as int] == b);
            return true;
        }
        i = i + 1;
    }
    false
}

/// Closes the connection and reads the module's answer.
fn close_action() -> (r: LinkAction)
    ensures
        exchanges(r, ascii("AT+CIPCLOSE\r\n"@), 1000, 128),
{
    proof {
        reveal_strlit("AT+CIPCLOSE\r\n");
    }
    LinkAction::Exchange { command: ascii_bytes("AT+CIPCLOSE\r\n"), timeout_ms: 1000, limit: REPLY_LIMIT }
}

/// One step of posting `body` as JSON to `host:port/path`, with the `X-Secret`
/// header when `secret` is not empty (see [`post_transition`]).
pub fn post_step(
    state: PostState,
    reply: Option<&[u8]>,
    now_ms: u64,
    host: &str,
    port: u16,
    path: &str,
    body: &str,
    secret: &str,
) -> (r: (PostState, LinkAction))
    requires
        post_state_valid(state),
        state == PostState::RequestSent ==> now_ms <= u64::MAX - RESPONSE_TIMEOUT_MS,
        state matches PostState::Receiving { received, .. } ==> (reply matches Some(c) ==> received@.len() + c@.len()
            <= RESPONSE_LIMIT),
    ensures
        post_state_valid(r.0),
        post_transition(
            state,
            reply_view(reply),
            now_ms,
            connect_command_bytes(host.spec_bytes(), port),
            post_request_bytes(host.spec_bytes(), port as nat, path.spec_bytes(), body.spec_bytes(), secret.spec_bytes(), body.len() as nat),
            r.0,
            r.1,
        ),
{
    proof {
        reveal_strlit("CONNECT");
        reveal_strlit("ERROR");
        reveal_strlit("CLOSED");
        reveal_strlit("AT+CIPSTART=\"TCP\",\"");
        reveal_strlit("\",");
        reveal_strlit("\r\n");
        reveal_strlit("AT+CIPSEND=");
    }
    let ghost request = post_request_bytes(host.spec_bytes(), port as nat, path.spec_bytes(), body.spec_bytes(), secret.spec_bytes(), body.len() as nat);
    match state {
        PostState::Start => (
            PostState::Connecting { retried: false },
            LinkAction::Exchange { command: connect_command(host, port), timeout_ms: 5000, limit: POST_REPLY_LIMIT },
        ),
        PostState::Connecting { retried } => {
            let opened = match reply {
                Some(r) => crate::wifi::connect_succeeded(r),
                None => false,
            };
            proof {
                assert(ascii("CONNECT"@) == "CONNECT"@.map_values(|c: char| c as u8));
                assert(ascii("ERROR"@) == "ERROR"@.map_values(|c: char| c as u8));
            }
            if opened {
                let request_bytes = post_request(host, port, path, body, secret);
                (
                    PostState::SlotRequested,
                    LinkAction::Exchange {
                        command: send_command(request_bytes.len()),
                        timeout_ms: 3000,
                        limit: POST_REPLY_LIMIT,
                    },
                )
            } else if !retried {
                (PostState::RetryWait, LinkAction::Sleep { ms: 200 })
            } else {
                (PostState::Finished(None), LinkAction::Stop)
            }
        },
        PostState::RetryWait => (
            PostState::Connecting { retried: true },
            LinkAction::Exchange { command: connect_command(host, port), timeout_ms: 5000, limit: POST_REPLY_LIMIT },
        ),
        PostState::SlotRequested => {
            let prompt = match reply {
                Some(r) => holds_byte(r, 0x3E),
                None => false,
            };
            if prompt {
                (PostState::RequestSent, LinkAction::Write { bytes: post_request(host, port, path, body, secret) })
            } else {
                (PostState::Aborting, close_action())
            }
        },
        PostState::Aborting => (PostState::Finished(None), LinkAction::Stop),
        PostState::RequestSent => (
            PostState::Receiving { deadline_ms: now_ms + RESPONSE_TIMEOUT_MS, received: Vec::new() },
            LinkAction::Read { timeout_ms: 1500, limit: RESPONSE_LIMIT },
        ),
        PostState::Receiving { deadline_ms, received } => {
            let mut received = received;
            let got = match reply {
                Some(c) => c.len() > 0,
                None => false,
            };
            let closed_tag = ascii_bytes_closed();
            if got {
                let chunk = reply.unwrap();
                let ghost before = received@;
                let mut i: usize = 0;
                while i < chunk.len()
                    invariant
                        i <= chunk@.len(),
                        received@ == before + chunk@.subrange(0, i as int),
                    decreases chunk.len() - i,
                {
                    received.push(chunk[i]);
                    proof {
                        assert(chunk@.subrange(0, i + 1) =~= chunk@.subrange(0, i as int).push(chunk@[i as int]));
                    }
                    i = i + 1;
                }
                assert(chunk@.subrange(0, chunk@.len() as int) =~= chunk@);
                if crate::wifi::contains_bytes(received.as_slice(), closed_tag.as_slice()) {
                    (PostState::Finished(response_body(received.as_slice())), LinkAction::Stop)
                } else if received.len() >= RESPONSE_LIMIT || now_ms >= deadline_ms {
                    (PostState::Closing { received }, close_action())
                } else {
                    let room = RESPONSE_LIMIT - received.len();
                    (PostState::Receiving { deadline_ms, received }, LinkAction::Read { timeout_ms: 1500, limit: room })
                }
            } else if crate::wifi::contains_bytes(received.as_slice(), closed_tag.as_slice()) {
                (PostState::Finished(response_body(received.as_slice())), LinkAction::Stop)
            } else {
                (PostState::Closing { received }, close_action())
            }
        },
        PostState::Closing { received } => (PostState::Finished(response_body(received.as_slice())), LinkAction::Stop),
        PostState::Finished(out) => (PostState::Finished(out), LinkAction::Stop),
    }
}

/// The bytes of `CLOSED`.
fn ascii_bytes_closed() -> (r: Vec<u8>)
    ensures
        r@ == ascii("CLOSED"@),
        r@.len() == 6,
{
    proof {
        reveal_strlit("CLOSED");
    }
    ascii_bytes("CLOSED")
}

} // verus!
