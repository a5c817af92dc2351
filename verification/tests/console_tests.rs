//! Tests of the administration console: list moves, confirmation words, keys.

use taptime::console::{
    active_label, ban_kind_label, ban_subject, move_index, Action, BanKind, BanRecord, Console, Effect, Key, Mode,
    Tab,
};
use taptime::schema::ProtoUuid;

#[test]
fn move_index_clamps_to_valid_range() {
    assert_eq!(move_index(0, 0, 1), 0);
    assert_eq!(move_index(0, 3, -1), 0);
    assert_eq!(move_index(1, 3, 1), 2);
    assert_eq!(move_index(2, 3, 1), 2);
}

#[test]
fn confirmation_words_match_plan() {
    assert_eq!(Action::DeleteData(ProtoUuid::default()).expected(), "DELETE DATA");
    assert_eq!(Action::DeleteAccount(ProtoUuid::default()).expected(), "DELETE ACCOUNT");
    assert_eq!(Action::BanIp("127.0.0.1".into()).expected(), "BAN IP");
}

fn ban(kind: BanKind, user: Option<ProtoUuid>, ip: &str, active: bool) -> BanRecord {
    BanRecord {
        id: Some(ProtoUuid { most_significant_bits: 7, least_significant_bits: 9 }),
        kind,
        user_id: user,
        ip_cidr: ip.to_string(),
        reason: "spam".to_string(),
        active,
    }
}

#[test]
fn ban_labels_name_kind_subject_and_state() {
    let id = ProtoUuid::from_u128(0x0123456789abcdef0123456789abcdef);
    let user_ban = ban(BanKind::User, Some(id), "", true);
    assert_eq!(ban_kind_label(&user_ban), "USER");
    assert_eq!(ban_subject(&user_ban), "01234567-89ab-cdef-0123-456789abcdef");
    assert_eq!(active_label(&user_ban), "active");

    let ip_ban = ban(BanKind::Ip, None, "10.0.0.0/24", false);
    assert_eq!(ban_kind_label(&ip_ban), "IP");
    assert_eq!(ban_subject(&ip_ban), "10.0.0.0/24");
    assert_eq!(active_label(&ip_ban), "inactive");

    let other = ban(BanKind::Unspecified, None, "x", true);
    assert_eq!(ban_kind_label(&other), "BAN");
    assert_eq!(ban_subject(&other), "-");
    let missing_user = ban(BanKind::User, None, "", true);
    assert_eq!(ban_subject(&missing_user), "-");
}

fn console_with_users() -> Console {
    let mut console = Console::new();
    let ids = vec![Some(ProtoUuid::from_u128(1)), Some(ProtoUuid::from_u128(2)), None];
    let bans = vec![ban(BanKind::Ip, None, "10.0.0.1", true)];
    console.apply_refresh(ids, bans);
    console
}

fn type_text(console: &mut Console, text: &str) {
    for c in text.chars() {
        assert!(matches!(console.handle_key(Key::Char(c)), Effect::Nothing));
    }
}

#[test]
fn confirmation_runs_the_action_only_on_the_exact_words() {
    let mut console = console_with_users();
    assert!(matches!(console.handle_key(Key::Char('d')), Effect::Nothing));
    assert!(matches!(console.mode, Mode::Confirm { .. }));
    type_text(&mut console, "DELETE DAT");
    assert!(matches!(console.handle_key(Key::Enter), Effect::Nothing));
    assert_eq!(console.status, "Confirmation must be exactly DELETE DATA");
    type_text(&mut console, "A");
    match console.handle_key(Key::Enter) {
        Effect::Perform(Action::DeleteData(id)) => assert_eq!(id.to_u128(), 1),
        other => panic!("expected the deletion, got {:?}", other),
    }
    assert!(matches!(console.mode, Mode::Normal));
}

#[test]
fn escape_closes_a_dialog_without_acting() {
    let mut console = console_with_users();
    console.handle_key(Key::Char('x'));
    type_text(&mut console, "DELETE ACCOUNT");
    assert!(matches!(console.handle_key(Key::Esc), Effect::Nothing));
    assert!(matches!(console.mode, Mode::Normal));
}

#[test]
fn search_trims_the_query_and_refreshes() {
    let mut console = console_with_users();
    console.handle_key(Key::Char('/'));
    type_text(&mut console, "  jane ");
    console.handle_key(Key::Backspace);
    assert!(matches!(console.handle_key(Key::Enter), Effect::Refresh));
    assert_eq!(console.query, "jane");
}

#[test]
fn ban_ip_dialog_needs_text() {
    let mut console = console_with_users();
    console.handle_key(Key::Char('p'));
    type_text(&mut console, "   ");
    console.handle_key(Key::Enter);
    assert!(matches!(console.mode, Mode::BanIp { .. }));
    type_text(&mut console, "10.1.2.3 ");
    console.handle_key(Key::Enter);
    match &console.mode {
        Mode::Confirm { action: Action::BanIp(ip), input } => {
            assert_eq!(ip, "10.1.2.3");
            assert!(input.is_empty());
        },
        _ => panic!("expected the ban confirmation"),
    }
}

#[test]
fn selection_moves_stay_in_the_lists() {
    let mut console = console_with_users();
    assert!(matches!(console.handle_key(Key::Up), Effect::LoadDetail));
    assert_eq!(console.selected_user, 0);
    console.handle_key(Key::Down);
    console.handle_key(Key::Down);
    console.handle_key(Key::Down);
    assert_eq!(console.selected_user, 2);
    assert_eq!(console.selected_user_id(), None);
    assert!(matches!(console.handle_key(Key::Char('b')), Effect::Nothing));
    assert!(matches!(console.mode, Mode::Normal));
    console.handle_key(Key::Tab);
    assert_eq!(console.tab, Tab::Bans);
    assert!(matches!(console.handle_key(Key::Down), Effect::Nothing));
    assert_eq!(console.selected_ban, 0);
    console.handle_key(Key::Char('u'));
    assert!(matches!(console.mode, Mode::Confirm { action: Action::RevokeBan(BanKind::Ip, _), .. }));
}

#[test]
fn refresh_pulls_selections_back_into_shorter_lists() {
    let mut console = console_with_users();
    console.selected_user = 2;
    console.apply_refresh(vec![Some(ProtoUuid::from_u128(5))], Vec::new());
    assert_eq!(console.selected_user, 0);
    assert_eq!(console.selected_ban, 0);
    assert_eq!(console.status, "Refreshed");
    assert!(matches!(console.handle_key(Key::Char('q')), Effect::Nothing));
    assert!(console.should_quit);
}

#[test]
fn done_messages_name_the_action() {
    let mut console = Console::new();
    assert_eq!(console.status, "Ready");
    console.action_done(&Action::BanUser(ProtoUuid::default()));
    assert_eq!(console.status, "User banned");
    assert_eq!(Action::RevokeBan(BanKind::User, ProtoUuid::default()).label(), "Revoke selected ban");
}

#[test]
fn backspace_removes_the_last_character() {
    let mut console = console_with_users();
    console.handle_key(Key::Char('/'));
    type_text(&mut console, "abc");
    console.handle_key(Key::Backspace);
    assert!(matches!(console.handle_key(Key::Enter), Effect::Refresh));
    assert_eq!(console.query, "ab");
    console.handle_key(Key::Char('/'));
    match &console.mode {
        Mode::Search { input } => assert_eq!(input, "ab"),
        _ => panic!("expected the search box"),
    }
    console.handle_key(Key::Backspace);
    console.handle_key(Key::Backspace);
    console.handle_key(Key::Backspace);
    console.handle_key(Key::Enter);
    assert_eq!(console.query, "");
}
