//! The AT-command dialogue of the clock's Wi-Fi module: the commands it sends,
//! how it reads the module's replies, and how it takes the JSON body out of an
//! HTTP response. The serial line and its timeouts stay with the firmware.

use vstd::prelude::*;
use vstd::string::StringSliceAdditionalSpecFns;
use vstd::utf8::{decode_utf8, valid_utf8};

verus! {

/// Whether `needle` occurs in `data` at index `i`.
pub open spec fn occurs_at(data: Seq<u8>, needle: Seq<u8>, i: int) -> bool {
    0 <= i && i + needle.len() <= data.len() && data.subrange(i, i + needle.len()) == needle
}

/// Whether `needle` occurs anywhere in `data`.
pub open spec fn occurs_in(data: Seq<u8>, needle: Seq<u8>) -> bool {
    exists|i: int| occurs_at(data, needle, i)
}

/// The first index at or after `from` where `needle` occurs in `data`.
pub open spec fn first_occurrence(data: Seq<u8>, needle: Seq<u8>, from: int) -> Option<int>
    decreases data.len() + 1 - from,
{
    if from < 0 || from + needle.len() > data.len() {
        None
    } else if occurs_at(data, needle, from) {
        Some(from)
    } else {
        first_occurrence(data, needle, from + 1)
    }
}

/// The last index at or after `from` (and before `to`) that holds the byte `b`.
pub open spec fn last_byte_before(data: Seq<u8>, b: u8, from: int, to: int) -> Option<int>
    decreases to - from,
{
    if to <= from {
        None
    } else if data[to - 1] == b {
        Some(to - 1)
    } else {
        last_byte_before(data, b, from, to - 1)
    }
}

/// `first_occurrence` finds an occurrence, and none before it.
proof fn lemma_first_occurrence(data: Seq<u8>, needle: Seq<u8>, from: int)
    requires
        from >= 0,
    ensures
        match first_occurrence(data, needle, from) {
            Some(i) => from <= i && occurs_at(data, needle, i) && forall|j: int| from <= j < i ==> !occurs_at(data, needle, j),
            None => forall|j: int| from <= j ==> !occurs_at(data, needle, j),
        },
    decreases data.len() + 1 - from,
{
    if from + needle.len() > data.len() {
    } else if occurs_at(data, needle, from) {
    } else {
        lemma_first_occurrence(data, needle, from + 1);
    }
}

/// `last_byte_before` finds the byte between its bounds.
proof fn lemma_last_byte_before(data: Seq<u8>, b: u8, from: int, to: int)
    ensures
        last_byte_before(data, b, from, to) matches Some(k) ==> from <= k < to && data[k] == b,
    decreases to - from,
{
    if to > from && data[to - 1] != b {
        lemma_last_byte_before(data, b, from, to - 1);
    }
}

/// The index of the first occurrence of `needle` in `data` at or after `from`.
pub fn find_from(data: &[u8], needle: &[u8], from: usize) -> (r: Option<usize>)
    ensures
        r is None <==> first_occurrence(data@, needle@, from as int) is None,
        r matches Some(k) ==> first_occurrence(data@, needle@, from as int) == Some(k as int),
{
    let n = data.len();
    let m = needle.len();
    let mut i = from;
    while i <= n && m <= n - i
        invariant
            from <= i,
            n == data@.len(),
            m == needle@.len(),
            first_occurrence(data@, needle@, from as int) == first_occurrence(data@, needle@, i as int),
        decreases n + 1 - i,
    {
        let mut k: usize = 0;
        while k < m && data[i + k] == needle[k]
            invariant
                k <= m,
                i + m <= n,
                n == data@.len(),
                m == needle@.len(),
                forall|t: int| 0 <= t < k ==> data@[i + t] == needle@[t],
            decreases m - k,
        {
            k = k + 1;
        }
        if k == m {
            assert(data@.subrange(i as int, i + m) =~= needle@);
            return Some(i);
        }
        assert(!occurs_at(data@, needle@, i as int)) by {
            if data@.subrange(i as int, i + m) == needle@ {
                assert(data@.subrange(i as int, i + m)[k as int] == data@[i + k]);
            }
        }
        i = i + 1;
    }
    None
}

/// Whether `needle` occurs in `data`, as `data.windows(needle.len()).any(..)` says.
pub fn contains_bytes(data: &[u8], needle: &[u8]) -> (r: bool)
    requires
        needle@.len() > 0,
    ensures
        r == occurs_in(data@, needle@),
{
    let found = find_from(data, needle, 0);
    proof {
        lemma_first_occurrence(data@, needle@, 0);
    }
    found.is_some()
}

/// The index of the last byte `b` in `data` at or after `from`.
pub fn rfind_byte_from(data: &[u8], b: u8, from: usize) -> (r: Option<usize>)
    requires
        from <= data@.len(),
    ensures
        r is None <==> last_byte_before(data@, b, from as int, data@.len() as int) is None,
        r matches Some(k) ==> last_byte_before(data@, b, from as int, data@.len() as int) == Some(k as int),
{
    let mut j = data.len();
    while j > from
        invariant
            from <= j <= data@.len(),
            last_byte_before(data@, b, from as int, data@.len() as int) == last_byte_before(data@, b, from as int, j as int),
        decreases j,
    {
        if data[j - 1] == b {
            return Some(j - 1);
        }
        j = j - 1;
    }
    None
}

/// The bytes of `s` escaped for a quoted AT-command field: a backslash before
/// every backslash, double quote and comma.
pub open spec fn escaped_field(s: Seq<u8>) -> Seq<u8>
    decreases s.len(),
{
    if s.len() == 0 {
        Seq::empty()
    } else {
        let c = s.last();
        let head = escaped_field(s.drop_last());
        if c == 0x5C || c == 0x22 || c == 0x2C {
            head.push(0x5C).push(c)
        } else {
            head.push(c)
        }
    }
}

/// Appends the bytes of `t`.
fn push_bytes(out: &mut Vec<u8>, t: &[u8])
    ensures
        final(out)@ == old(out)@ + t@,
{
    let mut i: usize = 0;
    while i < t.len()
        invariant
            i <= t@.len(),
            out@ == old(out)@ + t@.take(i as int),
        decreases t.len() - i,
    {
        out.push(t[i]);
        proof {
            assert(t@.take(i + 1) =~= t@.take(i as int).push(t@[i as int]));
        }
        i = i + 1;
    }
    assert(t@.take(i as int) =~= t@);
}

/// Appends `s` escaped for a quoted AT-command field.
fn push_escaped(out: &mut Vec<u8>, s: &[u8])
    ensures
        final(out)@ == old(out)@ + escaped_field(s@),
{
    let mut i: usize = 0;
    while i < s.len()
        invariant
            i <= s@.len(),
            out@ == old(out)@ + escaped_field(s@.take(i as int)),
        decreases s.len() - i,
    {
        let c = s[i];
        proof {
            assert(s@.take(i + 1).drop_last() =~= s@.take(i as int));
        }
        if c == 0x5C || c == 0x22 || c == 0x2C {
            out.push(0x5C);
        }
        out.push(c);
        i = i + 1;
    }
    assert(s@.take(i as int) =~= s@);
}

/// The decimal digits of `n`, most significant first, without leading zeros ("0" for zero).
pub open spec fn decimal(n: nat) -> Seq<u8>
    decreases n,
{
    if n < 10 {
        seq![(0x30 + n) as u8]
    } else {
        decimal(n / 10).push((0x30 + n % 10) as u8)
    }
}

/// Appends the decimal digits of `n`.
fn push_decimal(out: &mut Vec<u8>, n: usize)
    ensures
        final(out)@ == old(out)@ + decimal(n as nat),
    decreases n,
{
    if n >= 10 {
        push_decimal(out, n / 10);
    }
    out.push((0x30 + n % 10) as u8);
    proof {
        if n < 10 {
            assert(n % 10 == n);
        }
    }
}

/// The command that joins the access point `ssid` with `password`.
pub open spec fn join_command_bytes(ssid: Seq<u8>, password: Seq<u8>) -> Seq<u8> {
    "AT+CWJAP=\""@.map_values(|c: char| c as u8) + escaped_field(ssid) + "\",\""@.map_values(
        |c: char| c as u8,
    ) + escaped_field(password) + "\"\r\n"@.map_values(|c: char| c as u8)
}

/// Appends the bytes of the ASCII text `t`.
pub(crate) fn push_ascii(out: &mut Vec<u8>, t: &str)
    requires
        t.is_ascii(),
    ensures
        final(out)@ == old(out)@ + t@.map_values(|c: char| c as u8),
{
    proof {
        vstd::string::is_ascii_spec_bytes(t);
    }
    push_bytes(out, t.as_bytes());
    assert(t.spec_bytes() =~= t@.map_values(|c: char| c as u8));
}

/// The AT command that joins the access point `ssid` with `password`:
/// `AT+CWJAP="<ssid>","<password>"` and CR LF, both fields escaped.
pub fn join_command(ssid: &str, password: &str) -> (r: Vec<u8>)
    ensures
        r@ == join_command_bytes(ssid.spec_bytes(), password.spec_bytes()),
{
    let mut out: Vec<u8> = Vec::new();
    proof {
        reveal_strlit("AT+CWJAP=\"");
        reveal_strlit("\",\"");
        reveal_strlit("\"\r\n");
    }
    push_ascii(&mut out, "AT+CWJAP=\"");
    push_escaped(&mut out, ssid.as_bytes());
    push_ascii(&mut out, "\",\"");
    push_escaped(&mut out, password.as_bytes());
    push_ascii(&mut out, "\"\r\n");
    out
}

/// The AT command that opens a TCP connection: `AT+CIPSTART="TCP","<host>",<port>` and CR LF.
pub fn connect_command(host: &str, port: u16) -> (r: Vec<u8>)
    ensures
        r@ == "AT+CIPSTART=\"TCP\",\""@.map_values(|c: char| c as u8) + host.spec_bytes() + "\","@.map_values(
            |c: char| c as u8,
        ) + decimal(port as nat) + "\r\n"@.map_values(|c: char| c as u8),
{
    let mut out: Vec<u8> = Vec::new();
    proof {
        reveal_strlit("AT+CIPSTART=\"TCP\",\"");
        reveal_strlit("\",");
        reveal_strlit("\r\n");
    }
    push_ascii(&mut out, "AT+CIPSTART=\"TCP\",\"");
    push_bytes(&mut out, host.as_bytes());
    push_ascii(&mut out, "\",");
    push_decimal(&mut out, port as usize);
    push_ascii(&mut out, "\r\n");
    out
}

/// The HTTP request that posts `body` (of `content_length` bytes) to `path` on
/// `host:port`, with an `X-Secret` header when `secret` is not empty.
pub open spec fn post_request_bytes(host: Seq<u8>, port: nat, path: Seq<u8>, body: Seq<u8>, secret: Seq<u8>, content_length: nat) -> Seq<u8> {
    "POST "@.map_values(|c: char| c as u8) + path + " HTTP/1.0\r\nHost: "@.map_values(|c: char| c as u8)
        + host + ":"@.map_values(|c: char| c as u8) + decimal(port)
        + "\r\nContent-Type: application/json\r\n"@.map_values(|c: char| c as u8)
        + (if secret.len() > 0 {
        "X-Secret: "@.map_values(|c: char| c as u8) + secret + "\r\n"@.map_values(|c: char| c as u8)
    } else {
        Seq::empty()
    }) + "Content-Length: "@.map_values(|c: char| c as u8) + decimal(content_length) + "\r\n\r\n"@.map_values(
        |c: char| c as u8,
    ) + body
}

/// The HTTP/1.0 request that posts `body` as JSON (see [`post_request_bytes`]).
pub fn post_request(host: &str, port: u16, path: &str, body: &str, secret: &str) -> (r: Vec<u8>)
    ensures
        r@ == post_request_bytes(host.spec_bytes(), port as nat, path.spec_bytes(), body.spec_bytes(), secret.spec_bytes(), body.len() as nat),
{
    let mut out: Vec<u8> = Vec::new();
    proof {
        reveal_strlit("POST ");
        reveal_strlit(" HTTP/1.0\r\nHost: ");
        reveal_strlit(":");
        reveal_strlit("\r\nContent-Type: application/json\r\n");
        reveal_strlit("X-Secret: ");
        reveal_strlit("\r\n");
        reveal_strlit("Content-Length: ");
        reveal_strlit("\r\n\r\n");
    }
    push_ascii(&mut out, "POST ");
    push_bytes(&mut out, path.as_bytes());
    push_ascii(&mut out, " HTTP/1.0\r\nHost: ");
    push_bytes(&mut out, host.as_bytes());
    push_ascii(&mut out, ":");
    push_decimal(&mut out, port as usize);
    push_ascii(&mut out, "\r\nContent-Type: application/json\r\n");
    let ghost before_secret = out@;
    if !secret.is_empty() {
        push_ascii(&mut out, "X-Secret: ");
        push_bytes(&mut out, secret.as_bytes());
        push_ascii(&mut out, "\r\n");
        assert(out@ =~= before_secret + ("X-Secret: "@.map_values(|c: char| c as u8) + secret.spec_bytes()
            + "\r\n"@.map_values(|c: char| c as u8)));
    } else {
        assert(out@ =~= before_secret + Seq::<u8>::empty());
    }
    push_ascii(&mut out, "Content-Length: ");
    push_decimal(&mut out, body.len());
    push_ascii(&mut out, "\r\n\r\n");
    push_bytes(&mut out, body.as_bytes());
    assert(out@ =~= post_request_bytes(host.spec_bytes(), port as nat, path.spec_bytes(), body.spec_bytes(), secret.spec_bytes(), body.len() as nat));
    out
}

/// The AT command that asks for a send slot of `len` bytes: `AT+CIPSEND=<len>` and CR LF.
pub fn send_command(len: usize) -> (r: Vec<u8>)
    ensures
        r@ == "AT+CIPSEND="@.map_values(|c: char| c as u8) + decimal(len as nat) + "\r\n"@.map_values(
            |c: char| c as u8,
        ),
{
    let mut out: Vec<u8> = Vec::new();
    proof {
        reveal_strlit("AT+CIPSEND=");
        reveal_strlit("\r\n");
    }
    push_ascii(&mut out, "AT+CIPSEND=");
    push_decimal(&mut out, len);
    push_ascii(&mut out, "\r\n");
    out
}

/// Whether the reply to opening a connection says it is open: it holds
/// `CONNECT` and no `ERROR`.
pub fn connect_succeeded(reply: &[u8]) -> (r: bool)
    ensures
        r == (occurs_in(reply@, "CONNECT"@.map_values(|c: char| c as u8)) && !occurs_in(
            reply@,
            "ERROR"@.map_values(|c: char| c as u8),
        )),
{
    proof {
        reveal_strlit("CONNECT");
        reveal_strlit("ERROR");
    }
    let connect: [u8; 7] = [0x43, 0x4F, 0x4E, 0x4E, 0x45, 0x43, 0x54];
    let error: [u8; 5] = [0x45, 0x52, 0x52, 0x4F, 0x52];
    assert(connect@ =~= "CONNECT"@.map_values(|c: char| c as u8));
    assert(error@ =~= "ERROR"@.map_values(|c: char| c as u8));
    contains_bytes(reply, connect.as_slice()) && !contains_bytes(reply, error.as_slice())
}

/// How the module answers a join request so far.
#[derive(Debug, Clone, Copy, PartialEq, Eq, Structural)]
pub enum JoinReply {
    /// The module said `OK`: joined.
    Joined,
    /// The module said `FAIL`: the access point refused.
    Refused,
    /// Neither yet: keep reading.
    Pending,
}

/// Reads a chunk of the module's answer to a join request: `OK` means joined
/// (looked for first), `FAIL` means refused.
pub fn join_reply(chunk: &[u8]) -> (r: JoinReply)
    ensures
        occurs_in(chunk@, "OK"@.map_values(|c: char| c as u8)) ==> r == JoinReply::Joined,
        !occurs_in(chunk@, "OK"@.map_values(|c: char| c as u8)) && occurs_in(chunk@, "FAIL"@.map_values(|c: char| c as u8))
            ==> r == JoinReply::Refused,
        !occurs_in(chunk@, "OK"@.map_values(|c: char| c as u8)) && !occurs_in(chunk@, "FAIL"@.map_values(|c: char| c as u8))
            ==> r == JoinReply::Pending,
{
    proof {
        reveal_strlit("OK");
        reveal_strlit("FAIL");
    }
    let ok: [u8; 2] = [0x4F, 0x4B];
    let fail: [u8; 4] = [0x46, 0x41, 0x49, 0x4C];
    assert(ok@ =~= "OK"@.map_values(|c: char| c as u8));
    assert(fail@ =~= "FAIL"@.map_values(|c: char| c as u8));
    if contains_bytes(chunk, ok.as_slice()) {
        JoinReply::Joined
    } else if contains_bytes(chunk, fail.as_slice()) {
        JoinReply::Refused
    } else {
        JoinReply::Pending
    }
}

/// Whether a chunk of a reply holds `needle` (at least one byte long).
pub fn reply_has(chunk: &[u8], needle: &[u8]) -> (r: bool)
    requires
        needle@.len() > 0,
    ensures
        r == occurs_in(chunk@, needle@),
{
    contains_bytes(chunk, needle)
}

/// `core::str::from_utf8`: the text of `bytes` when they are UTF-8, as its
/// documentation says; `None` when they are not.
#[verifier::external_body]
fn text_from_utf8(bytes: &[u8]) -> (r: Option<String>)
    ensures
        r is Some <==> valid_utf8(bytes@),
        r matches Some(s) ==> s@ == decode_utf8(bytes@),
{
    match core::str::from_utf8(bytes) {
        Ok(s) => Some(s.to_owned()),
        Err(_) => None,
    }
}

/// The body bytes of the HTTP response in `data`: from the first `HTTP/`, past the
/// first blank line after it, up to and including the last `}`.
pub open spec fn http_body_bytes(data: Seq<u8>) -> Option<Seq<u8>> {
    match first_occurrence(data, "HTTP/"@.map_values(|c: char| c as u8), 0) {
        None => None,
        Some(h) => match first_occurrence(data, "\r\n\r\n"@.map_values(|c: char| c as u8), h) {
            None => None,
            Some(p) => match last_byte_before(data, 0x7D, p + 4, data.len() as int) {
                None => None,
                Some(e) => Some(data.subrange(p + 4, e + 1)),
            },
        },
    }
}

/// The JSON body of the HTTP response the module passed on, as text (see
/// [`http_body_bytes`]); `None` when there is none or it is not UTF-8.
pub fn extract_http_body(data: &[u8]) -> (r: Option<String>)
    ensures
        match http_body_bytes(data@) {
            None => r is None,
            Some(b) => if valid_utf8(b) {
                r matches Some(s) && s@ == decode_utf8(b)
            } else {
                r is None
            },
        },
{
    proof {
        reveal_strlit("HTTP/");
        reveal_strlit("\r\n\r\n");
    }
    let http: [u8; 5] = [0x48, 0x54, 0x54, 0x50, 0x2F];
    let blank: [u8; 4] = [0x0D, 0x0A, 0x0D, 0x0A];
    assert(http@ =~= "HTTP/"@.map_values(|c: char| c as u8));
    assert(blank@ =~= "\r\n\r\n"@.map_values(|c: char| c as u8));
    let data_len = data.len();
    let http_s = http.as_slice();
    let blank_s = blank.as_slice();
    assert(http_s@ =~= "HTTP/"@.map_values(|c: char| c as u8));
    assert(blank_s@ =~= "\r\n\r\n"@.map_values(|c: char| c as u8));
    let http_start = match find_from(data, http_s, 0) {
        Some(h) => h,
        None => return None,
    };
    let p = match find_from(data, blank_s, http_start) {
        Some(p) => p,
        None => return None,
    };
    proof {
        lemma_first_occurrence(data@, blank_s@, http_start as int);
        assert(blank_s@.len() == 4);
        assert(p + 4 <= data_len);
    }
    let body_start = p + 4;
    let json_end = match rfind_byte_from(data, 0x7D, body_start) {
        Some(e) => {
            proof {
                lemma_last_byte_before(data@, 0x7D, body_start as int, data@.len() as int);
            }
            e + 1
        },
        None => return None,
    };
    let mut body: Vec<u8> = Vec::new();
    let mut i = body_start;
    while i < json_end
        invariant
            body_start <= i <= json_end <= data@.len(),
            body@ == data@.subrange(body_start as int, i as int),
        decreases json_end - i,
    {
        body.push(data[i]);
        proof {
            assert(data@.subrange(body_start as int, i + 1) =~= data@.subrange(body_start as int, i as int).push(data@[i as int]));
        }
        i = i + 1;
    }
    text_from_utf8(body.as_slice())
}

/// `last_byte_before` finds the last such byte: none comes after it, and none at
/// all when it finds nothing.
proof fn lemma_last_byte_is_last(data: Seq<u8>, b: u8, from: int, to: int)
    requires
        0 <= from,
        to <= data.len(),
    ensures
        match last_byte_before(data, b, from, to) {
            Some(k) => from <= k < to && data[k] == b && forall|j: int| k < j < to ==> data[j] != b,
            None => forall|j: int| from <= j < to ==> data[j] != b,
        },
    decreases to - from,
{
    if to > from && data[to - 1] != b {
        lemma_last_byte_is_last(data, b, from, to - 1);
    }
}

/// The body of an HTTP response: it starts right after the first blank line
/// (`\r\n\r\n`) that follows the first `HTTP/`, and runs to the last `}` of the
/// data, which it ends with; no `}` comes after it. There is one exactly when
/// the data holds an `HTTP/`, a blank line after it, and a `}` after that.
pub proof fn lemma_http_body_runs_to_last_brace(data: Seq<u8>)
    ensures
        http_body_bytes(data) matches Some(body) ==> exists|h: int, p: int, e: int|
            #![trigger data.subrange(h, h + 5), data.subrange(p, p + 4), data[e]]
            {
                &&& 0 <= h <= p && p + 4 <= e < data.len()
                &&& data.subrange(h, h + 5) == seq![0x48u8, 0x54u8, 0x54u8, 0x50u8, 0x2Fu8]
                &&& forall|j: int| 0 <= j < h ==> #[trigger] data.subrange(j, j + 5) != seq![0x48u8, 0x54u8, 0x54u8, 0x50u8, 0x2Fu8]
                &&& data.subrange(p, p + 4) == seq![0x0Du8, 0x0Au8, 0x0Du8, 0x0Au8]
                &&& forall|j: int| h <= j < p ==> #[trigger] data.subrange(j, j + 4) != seq![0x0Du8, 0x0Au8, 0x0Du8, 0x0Au8]
                &&& data[e] == 0x7D
                &&& forall|j: int| e < j < data.len() ==> data[j] != 0x7D
                &&& body == data.subrange(p + 4, e + 1)
            },
        forall|h: int, p: int, e: int|
            #![trigger data.subrange(h, h + 5), data.subrange(p, p + 4), data[e]]
            0 <= h <= p && p + 4 <= e < data.len() && h + 5 <= data.len() && data.subrange(h, h + 5) == seq![
                0x48u8,
                0x54u8,
                0x54u8,
                0x50u8,
                0x2Fu8,
            ] && data.subrange(p, p + 4) == seq![0x0Du8, 0x0Au8, 0x0Du8, 0x0Au8] && data[e] == 0x7D
                ==> http_body_bytes(data) is Some,
{
    reveal_strlit("HTTP/");
    reveal_strlit("\r\n\r\n");
    let http = "HTTP/"@.map_values(|c: char| c as u8);
    let blank = "\r\n\r\n"@.map_values(|c: char| c as u8);
    assert(http =~= seq![0x48u8, 0x54u8, 0x54u8, 0x50u8, 0x2Fu8]);
    assert(blank =~= seq![0x0Du8, 0x0Au8, 0x0Du8, 0x0Au8]);
    lemma_first_occurrence(data, http, 0);
    match first_occurrence(data, http, 0) {
        Some(h) => {
            lemma_first_occurrence(data, blank, h);
            match first_occurrence(data, blank, h) {
                Some(p) => {
                    lemma_last_byte_is_last(data, 0x7D, p + 4, data.len() as int);
                    match last_byte_before(data, 0x7D, p + 4, data.len() as int) {
                        Some(e) => {
                            assert forall|j: int| 0 <= j < h implies #[trigger] data.subrange(j, j + 5) != seq![0x48u8, 0x54u8, 0x54u8, 0x50u8, 0x2Fu8] by {
                                assert(!occurs_at(data, http, j));
                            }
                            assert forall|j: int| h <= j < p implies #[trigger] data.subrange(j, j + 4) != seq![0x0Du8, 0x0Au8, 0x0Du8, 0x0Au8] by {
                                assert(!occurs_at(data, blank, j));
                            }
                            assert(data.subrange(h, h + 5) == seq![0x48u8, 0x54u8, 0x54u8, 0x50u8, 0x2Fu8]);
                            assert(data.subrange(p, p + 4) == seq![0x0Du8, 0x0Au8, 0x0Du8, 0x0Au8]);
                            assert(data[e] == 0x7D);
                        },
                        None => {
                            assert forall|h2: int, p2: int, e2: int|
                                #![trigger data.subrange(h2, h2 + 5), data.subrange(p2, p2 + 4), data[e2]]
                                0 <= h2 <= p2 && p2 + 4 <= e2 < data.len() && h2 + 5 <= data.len() && data.subrange(h2, h2 + 5)
                                    == seq![0x48u8, 0x54u8, 0x54u8, 0x50u8, 0x2Fu8] && data.subrange(p2, p2 + 4) == seq![
                                    0x0Du8,
                                    0x0Au8,
                                    0x0Du8,
                                    0x0Au8,
                                ] && data[e2] == 0x7D implies false by {
                                assert(occurs_at(data, http, h2));
                                assert(occurs_at(data, blank, p2));
                                if p2 < h {
                                    assert(h2 < h);
                                }
                            }
                        },
                    }
                },
                None => {
                    assert forall|h2: int, p2: int, e2: int|
                        #![trigger data.subrange(h2, h2 + 5), data.subrange(p2, p2 + 4), data[e2]]
                        0 <= h2 <= p2 && p2 + 4 <= e2 < data.len() && h2 + 5 <= data.len() && data.subrange(h2, h2 + 5)
                            == seq![0x48u8, 0x54u8, 0x54u8, 0x50u8, 0x2Fu8] && data.subrange(p2, p2 + 4) == seq![
                            0x0Du8,
                            0x0Au8,
                            0x0Du8,
                            0x0Au8,
                        ] && data[e2] == 0x7D implies false by {
                        assert(occurs_at(data, http, h2));
                        assert(occurs_at(data, blank, p2));
                    }
                },
            }
        },
        None => {
            assert forall|h2: int, p2: int, e2: int|
                #![trigger data.subrange(h2, h2 + 5), data.subrange(p2, p2 + 4), data[e2]]
                0 <= h2 <= p2 && p2 + 4 <= e2 < data.len() && h2 + 5 <= data.len() && data.subrange(h2, h2 + 5) == seq![
                    0x48u8,
                    0x54u8,
                    0x54u8,
                    0x50u8,
                    0x2Fu8,
                ] && data.subrange(p2, p2 + 4) == seq![0x0Du8, 0x0Au8, 0x0Du8, 0x0Au8] && data[e2] == 0x7D implies false by {
                assert(occurs_at(data, http, h2));
            }
        },
    }
}

} // verus!
