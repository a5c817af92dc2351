use taptime::dialogue::{connect_step, post_step, ConnectState, LinkAction, PostState};
use taptime::wifi::{join_command, post_request};

fn exchange(command: &[u8], timeout_ms: u64, limit: usize) -> LinkAction {
    LinkAction::Exchange { command: command.to_vec(), timeout_ms, limit }
}

#[test]
fn connect_dialogue_joins() {
    let (s, a) = connect_step(ConnectState::Start, None, 0, "net", "pw");
    assert_eq!(s, ConnectState::EchoOff);
    assert_eq!(a, exchange(b"ATE0\r\n", 1000, 128));
    let (s, a) = connect_step(s, None, 10, "net", "pw");
    assert_eq!(s, ConnectState::StationMode);
    assert_eq!(a, exchange(b"AT+CWMODE=1\r\n", 3000, 128));
    let (s, a) = connect_step(s, Some(b"\r\nOK\r\n"), 20, "net", "pw");
    assert_eq!(s, ConnectState::JoinSent);
    assert_eq!(a, LinkAction::Write { bytes: join_command("net", "pw") });
    assert_eq!(join_command("net", "pw"), b"AT+CWJAP=\"net\",\"pw\"\r\n".to_vec());
    let (s, a) = connect_step(s, None, 100, "net", "pw");
    assert_eq!(s, ConnectState::Joining { deadline_ms: 15100 });
    assert_eq!(a, LinkAction::Read { timeout_ms: 3000, limit: 128 });
    let (s, a) = connect_step(s, Some(b"WIFI CONNECTED\r\n"), 3100, "net", "pw");
    assert_eq!(s, ConnectState::Joining { deadline_ms: 15100 });
    assert_eq!(a, LinkAction::Read { timeout_ms: 3000, limit: 128 });
    let (s, a) = connect_step(s, None, 6100, "net", "pw");
    assert_eq!(s, ConnectState::Joining { deadline_ms: 15100 });
    assert_eq!(a, LinkAction::Read { timeout_ms: 3000, limit: 128 });
    let (s, a) = connect_step(s, Some(b"WIFI GOT IP\r\n\r\nOK\r\n"), 7000, "net", "pw");
    assert_eq!(s, ConnectState::Settling);
    assert_eq!(a, LinkAction::Sleep { ms: 500 });
    let (s, a) = connect_step(s, None, 7500, "net", "pw");
    assert_eq!(s, ConnectState::AddressCheck);
    assert_eq!(a, exchange(b"AT+CIFSR\r\n", 5000, 128));
    let (s, a) = connect_step(s, Some(b"+CIFSR:STAIP,\"10.0.0.7\"\r\nOK\r\n"), 7600, "net", "pw");
    assert_eq!(s, ConnectState::Firmware);
    assert_eq!(a, exchange(b"AT+GMR\r\n", 2000, 128));
    let (s, a) = connect_step(s, None, 7700, "net", "pw");
    assert_eq!(s, ConnectState::Done(true));
    assert_eq!(a, LinkAction::Stop);
}

#[test]
fn connect_stops_without_station_mode() {
    let (s, a) = connect_step(ConnectState::StationMode, Some(b"ERROR\r\n"), 0, "net", "pw");
    assert_eq!(s, ConnectState::Done(false));
    assert_eq!(a, LinkAction::Stop);
    let (s, a) = connect_step(ConnectState::StationMode, None, 0, "net", "pw");
    assert_eq!(s, ConnectState::Done(false));
    assert_eq!(a, LinkAction::Stop);
}

#[test]
fn connect_join_refused_or_timed_out() {
    let joining = ConnectState::Joining { deadline_ms: 15000 };
    let (s, a) = connect_step(joining, Some(b"+CWJAP:1\r\nFAIL\r\n"), 1000, "n", "p");
    assert_eq!(s, ConnectState::Done(false));
    assert_eq!(a, LinkAction::Stop);
    let (s, _) = connect_step(joining, None, 15000, "n", "p");
    assert_eq!(s, ConnectState::Done(false));
    let (s, _) = connect_step(joining, Some(b"busy p...\r\n"), 14999, "n", "p");
    assert_eq!(s, joining);
    let (s, _) = connect_step(ConnectState::AddressCheck, Some(b"+CIFSR:APIP\r\nOK\r\n"), 0, "n", "p");
    assert_eq!(s, ConnectState::Done(false));
}

#[test]
fn post_dialogue_reads_the_body() {
    let request = post_request("h", 80, "/p", "{}", "");
    let (s, a) = post_step(PostState::Start, None, 0, "h", 80, "/p", "{}", "");
    assert_eq!(s, PostState::Connecting { retried: false });
    assert_eq!(a, exchange(b"AT+CIPSTART=\"TCP\",\"h\",80\r\n", 5000, 256));
    let (s, a) = post_step(s, Some(b"CONNECT\r\n\r\nOK\r\n"), 10, "h", 80, "/p", "{}", "");
    assert_eq!(s, PostState::SlotRequested);
    assert_eq!(a, exchange(format!("AT+CIPSEND={}\r\n", request.len()).as_bytes(), 3000, 256));
    let (s, a) = post_step(s, Some(b"OK\r\n> "), 20, "h", 80, "/p", "{}", "");
    assert_eq!(s, PostState::RequestSent);
    assert_eq!(a, LinkAction::Write { bytes: request });
    let (s, a) = post_step(s, None, 30, "h", 80, "/p", "{}", "");
    assert_eq!(s, PostState::Receiving { deadline_ms: 5030, received: vec![] });
    assert_eq!(a, LinkAction::Read { timeout_ms: 1500, limit: 512 });
    let first: &[u8] = b"SEND OK\r\n+IPD,40:HTTP/1.0 200 OK\r\n";
    let (s, a) = post_step(s, Some(first), 40, "h", 80, "/p", "{}", "");
    assert_eq!(s, PostState::Receiving { deadline_ms: 5030, received: first.to_vec() });
    assert_eq!(a, LinkAction::Read { timeout_ms: 1500, limit: 512 - first.len() });
    let (s, a) = post_step(s, Some(b"\r\n{\"ok\":true}CLOSED\r\n"), 50, "h", 80, "/p", "{}", "");
    assert_eq!(s, PostState::Finished(Some("{\"ok\":true}".to_string())));
    assert_eq!(a, LinkAction::Stop);
}

#[test]
fn post_retries_once_then_gives_up() {
    let (s, a) = post_step(PostState::Connecting { retried: false }, Some(b"ERROR\r\n"), 0, "h", 80, "/", "", "");
    assert_eq!(s, PostState::RetryWait);
    assert_eq!(a, LinkAction::Sleep { ms: 200 });
    let (s, a) = post_step(s, None, 200, "h", 80, "/", "", "");
    assert_eq!(s, PostState::Connecting { retried: true });
    assert_eq!(a, exchange(b"AT+CIPSTART=\"TCP\",\"h\",80\r\n", 5000, 256));
    let (s, a) = post_step(s, Some(b"CONNECT\r\nERROR\r\n"), 300, "h", 80, "/", "", "");
    assert_eq!(s, PostState::Finished(None));
    assert_eq!(a, LinkAction::Stop);
}

#[test]
fn post_closes_without_prompt_or_close() {
    let (s, a) = post_step(PostState::SlotRequested, Some(b"busy\r\n"), 0, "h", 80, "/", "", "");
    assert_eq!(s, PostState::Aborting);
    assert_eq!(a, exchange(b"AT+CIPCLOSE\r\n", 1000, 128));
    let (s, a) = post_step(s, Some(b"OK\r\n"), 0, "h", 80, "/", "", "");
    assert_eq!(s, PostState::Finished(None));
    assert_eq!(a, LinkAction::Stop);

    let data = b"HTTP/1.0 200 OK\r\n\r\n{\"a\":1}".to_vec();
    let receiving = PostState::Receiving { deadline_ms: 100, received: data.clone() };
    let (s, a) = post_step(receiving.clone(), None, 50, "h", 80, "/", "", "");
    assert_eq!(s, PostState::Closing { received: data.clone() });
    assert_eq!(a, exchange(b"AT+CIPCLOSE\r\n", 1000, 128));
    let (s, _) = post_step(s, None, 60, "h", 80, "/", "", "");
    assert_eq!(s, PostState::Finished(Some("{\"a\":1}".to_string())));

    let (s, _) = post_step(receiving, Some(b" "), 100, "h", 80, "/", "", "");
    let mut more = data;
    more.push(b' ');
    assert_eq!(s, PostState::Closing { received: more });
}
