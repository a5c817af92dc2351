//! The administration console: its state, how it answers each key, and the
//! labels it shows for bans. The terminal and the server calls stay outside;
//! the console hands back what is to be done.

use vstd::prelude::*;
use crate::password::{PasswordError, hash_any_password, is_hash_of, phc_parses, argon2_accepts};
use crate::schema::ProtoUuid;
use crate::text::{push_str, same_text, string_pop, string_push, trim, trimmed};
use crate::token::{uuid_text, uuid_to_text};
use vstd::string::StringSliceAdditionalSpecFns;

verus! {

/// The kind of a ban.
#[derive(Debug, Clone, Copy, PartialEq, Eq, Structural)]
pub enum BanKind {
    Unspecified,
    User,
    Ip,
}

/// A ban as the console lists it.
#[derive(Debug, Clone)]
pub struct BanRecord {
    pub id: Option<ProtoUuid>,
    pub kind: BanKind,
    pub user_id: Option<ProtoUuid>,
    pub ip_cidr: String,
    pub reason: String,
    pub active: bool,
}

/// The label of a ban's kind.
pub open spec fn kind_label(kind: BanKind) -> Seq<char> {
    match kind {
        BanKind::User => seq!['U', 'S', 'E', 'R'],
        BanKind::Ip => seq!['I', 'P'],
        BanKind::Unspecified => seq!['B', 'A', 'N'],
    }
}

/// The label of a ban's kind: `USER`, `IP`, or `BAN` when unspecified.
pub fn ban_kind_label(ban: &BanRecord) -> (r: &'static str)
    ensures
        r@ == kind_label(ban.kind),
{
    proof {
        reveal_strlit("USER");
        reveal_strlit("IP");
        reveal_strlit("BAN");
    }
    match ban.kind {
        BanKind::User => "USER",
        BanKind::Ip => "IP",
        BanKind::Unspecified => "BAN",
    }
}

/// What a ban is on: the user's id as UUID text, the banned address or network,
/// or `-` when unknown.
pub open spec fn subject_text(ban: BanRecord) -> Seq<char> {
    match ban.kind {
        BanKind::User => match ban.user_id {
            Some(id) => uuid_text(id.value() as u128),
            None => seq!['-'],
        },
        BanKind::Ip => ban.ip_cidr@,
        BanKind::Unspecified => seq!['-'],
    }
}

/// What a ban is on (see [`subject_text`]).
pub fn ban_subject(ban: &BanRecord) -> (r: String)
    ensures
        r@ == subject_text(*ban),
{
    let mut dash = String::new();
    string_push(&mut dash, '-');
    assert(dash@ =~= seq!['-']);
    match ban.kind {
        BanKind::User => match ban.user_id {
            Some(id) => uuid_to_text(id.to_u128()),
            None => dash,
        },
        BanKind::Ip => ban.ip_cidr.clone(),
        BanKind::Unspecified => dash,
    }
}

/// Whether a ban is in force, as a label.
pub fn active_label(ban: &BanRecord) -> (r: &'static str)
    ensures
        r@ == (if ban.active { seq!['a', 'c', 't', 'i', 'v', 'e'] } else { seq!['i', 'n', 'a', 'c', 't', 'i', 'v', 'e'] }),
{
    proof {
        reveal_strlit("active");
        reveal_strlit("inactive");
    }
    if ban.active {
        "active"
    } else {
        "inactive"
    }
}

/// The index `delta` steps from `current` in a list of `len` items, kept inside the list.
pub open spec fn moved_index(current: int, len: int, delta: int) -> int {
    if len == 0 {
        0
    } else if current + delta < 0 {
        0
    } else if current + delta > len - 1 {
        len - 1
    } else {
        current + delta
    }
}

/// Moves a selection by `delta`, clamped to the list; 0 for an empty list. The
/// selection is read as a signed index.
pub fn move_index(current: usize, len: usize, delta: isize) -> (r: usize)
    requires
        len > 0 ==> len <= isize::MAX && isize::MIN <= (current as isize) + delta <= isize::MAX,
    ensures
        r == moved_index((current as isize) as int, len as int, delta as int),
{
    if len == 0 {
        return 0;
    }
    let target = current as isize + delta;
    let last = len as isize - 1;
    if target < 0 {
        0
    } else if target > last {
        last as usize
    } else {
        target as usize
    }
}

/// A confirmed action of the console.
#[derive(Debug)]
pub enum Action {
    BanUser(ProtoUuid),
    BanIp(String),
    RevokeBan(BanKind, ProtoUuid),
    DeleteData(ProtoUuid),
    DeleteAccount(ProtoUuid),
}

/// An action, with its text by its characters.
pub enum ActionView {
    BanUser(ProtoUuid),
    BanIp(Seq<char>),
    RevokeBan(BanKind, ProtoUuid),
    DeleteData(ProtoUuid),
    DeleteAccount(ProtoUuid),
}

impl View for Action {
    type V = ActionView;

    open spec fn view(&self) -> ActionView {
        match self {
            Action::BanUser(id) => ActionView::BanUser(*id),
            Action::BanIp(ip) => ActionView::BanIp(ip@),
            Action::RevokeBan(kind, id) => ActionView::RevokeBan(*kind, *id),
            Action::DeleteData(id) => ActionView::DeleteData(*id),
            Action::DeleteAccount(id) => ActionView::DeleteAccount(*id),
        }
    }
}

impl Clone for Action {
    fn clone(&self) -> (r: Action)
        ensures
            r@ == self@,
    {
        match self {
            Action::BanUser(id) => Action::BanUser(*id),
            Action::BanIp(ip) => Action::BanIp(ip.clone()),
            Action::RevokeBan(kind, id) => Action::RevokeBan(*kind, *id),
            Action::DeleteData(id) => Action::DeleteData(*id),
            Action::DeleteAccount(id) => Action::DeleteAccount(*id),
        }
    }
}

/// The status line once an action is done.
pub open spec fn done_words(a: ActionView) -> Seq<char> {
    match a {
        ActionView::BanUser(_) => "User banned"@,
        ActionView::BanIp(_) => "IP/CIDR banned"@,
        ActionView::RevokeBan(_, _) => "Ban revoked"@,
        ActionView::DeleteData(_) => "Time data deleted"@,
        ActionView::DeleteAccount(_) => "Account deleted"@,
    }
}

/// The words that confirm an action.
pub open spec fn expected_words(a: ActionView) -> Seq<char> {
    match a {
        ActionView::BanUser(_) => seq!['B', 'A', 'N', ' ', 'U', 'S', 'E', 'R'],
        ActionView::BanIp(_) => seq!['B', 'A', 'N', ' ', 'I', 'P'],
        ActionView::RevokeBan(_, _) => seq!['R', 'E', 'V', 'O', 'K', 'E', ' ', 'B', 'A', 'N'],
        ActionView::DeleteData(_) => seq!['D', 'E', 'L', 'E', 'T', 'E', ' ', 'D', 'A', 'T', 'A'],
        ActionView::DeleteAccount(_) => seq!['D', 'E', 'L', 'E', 'T', 'E', ' ', 'A', 'C', 'C', 'O', 'U', 'N', 'T'],
    }
}

impl Action {
    /// The words the administrator types to confirm the action.
    pub fn expected(&self) -> (r: &'static str)
        ensures
            r@ == expected_words(self@),
    {
        proof {
            reveal_strlit("BAN USER");
            reveal_strlit("BAN IP");
            reveal_strlit("REVOKE BAN");
            reveal_strlit("DELETE DATA");
            reveal_strlit("DELETE ACCOUNT");
        }
        match self {
            Action::BanUser(_) => "BAN USER",
            Action::BanIp(_) => "BAN IP",
            Action::RevokeBan(_, _) => "REVOKE BAN",
            Action::DeleteData(_) => "DELETE DATA",
            Action::DeleteAccount(_) => "DELETE ACCOUNT",
        }
    }

    /// The title of the confirmation dialog.
    pub fn label(&self) -> (r: &'static str)
        ensures
            r@ == match self@ {
                ActionView::BanUser(_) => "Ban selected user"@,
                ActionView::BanIp(_) => "Ban IP/CIDR"@,
                ActionView::RevokeBan(_, _) => "Revoke selected ban"@,
                ActionView::DeleteData(_) => "Delete selected user's time data"@,
                ActionView::DeleteAccount(_) => "Delete selected user account"@,
            },
    {
        match self {
            Action::BanUser(_) => "Ban selected user",
            Action::BanIp(_) => "Ban IP/CIDR",
            Action::RevokeBan(_, _) => "Revoke selected ban",
            Action::DeleteData(_) => "Delete selected user's time data",
            Action::DeleteAccount(_) => "Delete selected user account",
        }
    }

    /// The status line once the action is done.
    pub fn done_message(&self) -> (r: &'static str)
        ensures
            r@ == done_words(self@),
    {
        match self {
            Action::BanUser(_) => "User banned",
            Action::BanIp(_) => "IP/CIDR banned",
            Action::RevokeBan(_, _) => "Ban revoked",
            Action::DeleteData(_) => "Time data deleted",
            Action::DeleteAccount(_) => "Account deleted",
        }
    }
}

/// The list the console shows.
#[derive(Debug, Clone, Copy, PartialEq, Eq, Structural)]
pub enum Tab {
    Users,
    Bans,
}

/// What the keys go to: the lists, or a text being typed.
#[derive(Debug, Clone)]
pub enum Mode {
    Normal,
    Search { input: String },
    BanIp { input: String },
    Confirm { action: Action, input: String },
}

/// A mode, with its texts by their characters.
pub enum ModeView {
    Normal,
    Search(Seq<char>),
    BanIp(Seq<char>),
    Confirm(ActionView, Seq<char>),
}

impl View for Mode {
    type V = ModeView;

    open spec fn view(&self) -> ModeView {
        match self {
            Mode::Normal => ModeView::Normal,
            Mode::Search { input } => ModeView::Search(input@),
            Mode::BanIp { input } => ModeView::BanIp(input@),
            Mode::Confirm { action, input } => ModeView::Confirm(action@, input@),
        }
    }
}

/// A key the administrator pressed.
#[derive(Debug, Clone, Copy, PartialEq, Eq, Structural)]
pub enum Key {
    Esc,
    Enter,
    Backspace,
    Tab,
    Up,
    Down,
    Char(char),
    Other,
}

/// What the console asks to be done after a key.
#[derive(Debug)]
pub enum Effect {
    /// Nothing.
    Nothing,
    /// Reload the lists with the current query.
    Refresh,
    /// Load the details of the selected user.
    LoadDetail,
    /// Carry out the confirmed action, then reload.
    Perform(Action),
}

/// An effect, with its action by its view.
pub enum EffectView {
    Nothing,
    Refresh,
    LoadDetail,
    Perform(ActionView),
}

impl View for Effect {
    type V = EffectView;

    open spec fn view(&self) -> EffectView {
        match self {
            Effect::Nothing => EffectView::Nothing,
            Effect::Refresh => EffectView::Refresh,
            Effect::LoadDetail => EffectView::LoadDetail,
            Effect::Perform(a) => EffectView::Perform(a@),
        }
    }
}

/// The state of the console.
pub struct Console {
    pub tab: Tab,
    pub mode: Mode,
    /// The search text the user list is filtered by.
    pub query: String,
    pub selected_user: usize,
    pub selected_ban: usize,
    pub status: String,
    pub should_quit: bool,
    /// The ids of the listed users, in list order.
    pub user_ids: Vec<Option<ProtoUuid>>,
    pub bans: Vec<BanRecord>,
}

/// The state of the console, with its texts and lists by their views.
pub struct ConsoleView {
    pub tab: Tab,
    pub mode: ModeView,
    pub query: Seq<char>,
    pub selected_user: usize,
    pub selected_ban: usize,
    pub status: Seq<char>,
    pub should_quit: bool,
    pub user_ids: Seq<Option<ProtoUuid>>,
    pub bans: Seq<BanRecord>,
}

impl View for Console {
    type V = ConsoleView;

    open spec fn view(&self) -> ConsoleView {
        ConsoleView {
            tab: self.tab,
            mode: self.mode@,
            query: self.query@,
            selected_user: self.selected_user,
            selected_ban: self.selected_ban,
            status: self.status@,
            should_quit: self.should_quit,
            user_ids: self.user_ids@,
            bans: self.bans@,
        }
    }
}

/// The id of the selected user, if the selection names a user with an id.
pub open spec fn selected_user_id_of(s: ConsoleView) -> Option<ProtoUuid> {
    if s.selected_user < s.user_ids.len() {
        s.user_ids[s.selected_user as int]
    } else {
        None
    }
}

/// The status shown after a wrong confirmation.
pub open spec fn mismatch_status(a: ActionView) -> Seq<char> {
    "Confirmation must be exactly "@ + expected_words(a)
}

/// Whether the selections lie in their lists (or are 0 for an empty list).
pub open spec fn selections_in_range(s: ConsoleView) -> bool {
    &&& (s.user_ids.len() == 0 ==> s.selected_user == 0)
    &&& (s.user_ids.len() > 0 ==> s.selected_user < s.user_ids.len())
    &&& (s.bans.len() == 0 ==> s.selected_ban == 0)
    &&& (s.bans.len() > 0 ==> s.selected_ban < s.bans.len())
}

/// Whether moving the selection with `key` stays clear of overflow: on Up or
/// Down in the lists, when the list shown is not empty, it is no longer than
/// `isize::MAX` (as every `Vec` is) and its selection, read as a signed index,
/// can step by one.
pub open spec fn key_fits(s: ConsoleView, key: Key) -> bool {
    s.mode == ModeView::Normal && (key == Key::Up || key == Key::Down) ==> {
        let delta: int = if key == Key::Up { -1 } else { 1 };
        if s.tab == Tab::Users {
            s.user_ids.len() > 0 ==> s.user_ids.len() <= isize::MAX && isize::MIN <= (s.selected_user as isize)
                + delta <= isize::MAX
        } else {
            s.bans.len() > 0 ==> s.bans.len() <= isize::MAX && isize::MIN <= (s.selected_ban as isize) + delta
                <= isize::MAX
        }
    }
}

/// How the console answers a key in the lists.
pub open spec fn normal_step(s: ConsoleView, key: Key) -> (ConsoleView, EffectView) {
    match key {
        Key::Char('q') => (ConsoleView { should_quit: true, ..s }, EffectView::Nothing),
        Key::Tab => (ConsoleView { tab: if s.tab == Tab::Users { Tab::Bans } else { Tab::Users }, ..s }, EffectView::Nothing),
        Key::Char('/') => (ConsoleView { mode: ModeView::Search(s.query), ..s }, EffectView::Nothing),
        Key::Char('p') => (ConsoleView { mode: ModeView::BanIp(Seq::empty()), ..s }, EffectView::Nothing),
        Key::Char('r') => (s, EffectView::Refresh),
        Key::Enter if s.tab == Tab::Users => (s, EffectView::LoadDetail),
        Key::Char('b') if s.tab == Tab::Users => match selected_user_id_of(s) {
            Some(id) => (ConsoleView { mode: ModeView::Confirm(ActionView::BanUser(id), Seq::empty()), ..s }, EffectView::Nothing),
            None => (s, EffectView::Nothing),
        },
        Key::Char('d') if s.tab == Tab::Users => match selected_user_id_of(s) {
            Some(id) => (ConsoleView { mode: ModeView::Confirm(ActionView::DeleteData(id), Seq::empty()), ..s }, EffectView::Nothing),
            None => (s, EffectView::Nothing),
        },
        Key::Char('x') if s.tab == Tab::Users => match selected_user_id_of(s) {
            Some(id) => (ConsoleView { mode: ModeView::Confirm(ActionView::DeleteAccount(id), Seq::empty()), ..s }, EffectView::Nothing),
            None => (s, EffectView::Nothing),
        },
        Key::Char('u') if s.tab == Tab::Bans => if s.selected_ban < s.bans.len() && s.bans[s.selected_ban as int].id is Some {
            let ban = s.bans[s.selected_ban as int];
            (ConsoleView { mode: ModeView::Confirm(ActionView::RevokeBan(ban.kind, ban.id->0), Seq::empty()), ..s }, EffectView::Nothing)
        } else {
            (s, EffectView::Nothing)
        },
        Key::Up => moved(s, -1),
        Key::Down => moved(s, 1),
        _ => (s, EffectView::Nothing),
    }
}

/// Moving the selection of the shown list by `delta`.
pub open spec fn moved(s: ConsoleView, delta: int) -> (ConsoleView, EffectView) {
    if s.tab == Tab::Users {
        (ConsoleView { selected_user: moved_index((s.selected_user as isize) as int, s.user_ids.len() as int, delta) as usize, ..s }, EffectView::LoadDetail)
    } else {
        (ConsoleView { selected_ban: moved_index((s.selected_ban as isize) as int, s.bans.len() as int, delta) as usize, ..s }, EffectView::Nothing)
    }
}

/// How a text being typed changes with a key that edits it.
pub open spec fn edited(input: Seq<char>, key: Key) -> Seq<char> {
    match key {
        Key::Backspace => if input.len() > 0 { input.drop_last() } else { input },
        Key::Char(c) => input.push(c),
        _ => input,
    }
}

/// How the console answers a key.
pub open spec fn step(s: ConsoleView, key: Key) -> (ConsoleView, EffectView) {
    match s.mode {
        ModeView::Normal => normal_step(s, key),
        ModeView::Search(input) => match key {
            Key::Esc => (ConsoleView { mode: ModeView::Normal, ..s }, EffectView::Nothing),
            Key::Enter => (ConsoleView { query: trimmed(input), mode: ModeView::Normal, ..s }, EffectView::Refresh),
            _ => (ConsoleView { mode: ModeView::Search(edited(input, key)), ..s }, EffectView::Nothing),
        },
        ModeView::BanIp(input) => match key {
            Key::Esc => (ConsoleView { mode: ModeView::Normal, ..s }, EffectView::Nothing),
            Key::Enter => if trimmed(input).len() > 0 {
                (ConsoleView { mode: ModeView::Confirm(ActionView::BanIp(trimmed(input)), Seq::empty()), ..s }, EffectView::Nothing)
            } else {
                (s, EffectView::Nothing)
            },
            _ => (ConsoleView { mode: ModeView::BanIp(edited(input, key)), ..s }, EffectView::Nothing),
        },
        ModeView::Confirm(action, input) => match key {
            Key::Esc => (ConsoleView { mode: ModeView::Normal, ..s }, EffectView::Nothing),
            Key::Enter => if input == expected_words(action) {
                (ConsoleView { mode: ModeView::Normal, ..s }, EffectView::Perform(action))
            } else {
                (ConsoleView { status: mismatch_status(action), ..s }, EffectView::Nothing)
            },
            _ => (ConsoleView { mode: ModeView::Confirm(action, edited(input, key)), ..s }, EffectView::Nothing),
        },
    }
}

/// Edits a text being typed with a key: Backspace removes the last character, a
/// character is appended, other keys leave it.
fn edit_input(input: &mut String, key: Key)
    ensures
        final(input)@ == edited(old(input)@, key),
{
    match key {
        Key::Backspace => {
            let _ = string_pop(input);
        },
        Key::Char(ch) => string_push(input, ch),
        _ => {},
    }
}

impl Console {
    /// A console with empty lists on the user tab.
    pub fn new() -> (r: Console)
        ensures
            r.tab == Tab::Users,
            r.mode@ == ModeView::Normal,
            r.query@ == Seq::<char>::empty(),
            r.selected_user == 0,
            r.selected_ban == 0,
            r.status@ == "Ready"@,
            !r.should_quit,
            r.user_ids@.len() == 0,
            r.bans@.len() == 0,
    {
        let mut status = String::new();
        push_str(&mut status, "Ready");
        Console {
            tab: Tab::Users,
            mode: Mode::Normal,
            query: String::new(),
            selected_user: 0,
            selected_ban: 0,
            status,
            should_quit: false,
            user_ids: Vec::new(),
            bans: Vec::new(),
        }
    }

    /// The id of the selected user, if any.
    pub fn selected_user_id(&self) -> (r: Option<ProtoUuid>)
        ensures
            r == selected_user_id_of(self@),
    {
        if self.selected_user < self.user_ids.len() {
            self.user_ids[self.selected_user]
        } else {
            None
        }
    }

    /// The selected ban, if any.
    pub fn selected_ban(&self) -> (r: Option<&BanRecord>)
        ensures
            self.selected_ban < self.bans@.len() ==> r == Some(&self.bans@[self.selected_ban as int]),
            self.selected_ban >= self.bans@.len() ==> r is None,
    {
        if self.selected_ban < self.bans.len() {
            Some(&self.bans[self.selected_ban])
        } else {
            None
        }
    }

    /// Takes the lists as reloaded: selections past the end move to the last item,
    /// and the status says so.
    pub fn apply_refresh(&mut self, user_ids: Vec<Option<ProtoUuid>>, bans: Vec<BanRecord>)
        ensures
            final(self).user_ids@ == user_ids@,
            final(self).bans@ == bans@,
            final(self).selected_user == (if old(self).selected_user >= user_ids@.len() {
                if user_ids@.len() == 0 { 0 } else { (user_ids@.len() - 1) as usize }
            } else {
                old(self).selected_user
            }),
            final(self).selected_ban == (if old(self).selected_ban >= bans@.len() {
                if bans@.len() == 0 { 0 } else { (bans@.len() - 1) as usize }
            } else {
                old(self).selected_ban
            }),
            final(self).status@ == "Refreshed"@,
            final(self).tab == old(self).tab,
            final(self).mode@ == old(self).mode@,
            final(self).query@ == old(self).query@,
            final(self).should_quit == old(self).should_quit,
    {
        self.user_ids = user_ids;
        if self.selected_user >= self.user_ids.len() {
            self.selected_user = if self.user_ids.len() == 0 { 0 } else { self.user_ids.len() - 1 };
        }
        self.bans = bans;
        if self.selected_ban >= self.bans.len() {
            self.selected_ban = if self.bans.len() == 0 { 0 } else { self.bans.len() - 1 };
        }
        let mut status = String::new();
        push_str(&mut status, "Refreshed");
        self.status = status;
    }

    /// Records that `action` was carried out.
    pub fn action_done(&mut self, action: &Action)
        ensures
            final(self).status@ == done_words(action@),
    {
        let mut status = String::new();
        push_str(&mut status, action.done_message());
        self.status = status;
    }

    /// Moves the selection of the shown list by `delta`; on the user list the
    /// details of the newly selected user are to be loaded.
    pub fn move_selection(&mut self, delta: isize) -> (r: Effect)
        requires
            old(self).tab == Tab::Users && old(self).user_ids@.len() > 0 ==> old(self).user_ids@.len() <= isize::MAX
                && isize::MIN <= (old(self).selected_user as isize) + delta <= isize::MAX,
            old(self).tab == Tab::Bans && old(self).bans@.len() > 0 ==> old(self).bans@.len() <= isize::MAX
                && isize::MIN <= (old(self).selected_ban as isize) + delta <= isize::MAX,
        ensures
            (final(self)@, r@) == moved(old(self)@, delta as int),
    {
        match self.tab {
            Tab::Users => {
                self.selected_user = move_index(self.selected_user, self.user_ids.len(), delta);
                Effect::LoadDetail
            },
            Tab::Bans => {
                self.selected_ban = move_index(self.selected_ban, self.bans.len(), delta);
                Effect::Nothing
            },
        }
    }

    /// Answers a key in the lists.
    fn handle_normal_key(&mut self, key: Key) -> (r: Effect)
        requires
            old(self).mode@ == ModeView::Normal,
            key_fits(old(self)@, key),
        ensures
            (final(self)@, r@) == normal_step(old(self)@, key),
    {
        match key {
            Key::Char('q') => {
                self.should_quit = true;
                Effect::Nothing
            },
            Key::Tab => {
                self.tab = if self.tab == Tab::Users { Tab::Bans } else { Tab::Users };
                Effect::Nothing
            },
            Key::Char('/') => {
                self.mode = Mode::Search { input: self.query.clone() };
                Effect::Nothing
            },
            Key::Char('p') => {
                self.mode = Mode::BanIp { input: String::new() };
                Effect::Nothing
            },
            Key::Char('r') => Effect::Refresh,
            Key::Enter if self.tab == Tab::Users => Effect::LoadDetail,
            Key::Char('b') if self.tab == Tab::Users => {
                if let Some(user_id) = self.selected_user_id() {
                    self.mode = Mode::Confirm { action: Action::BanUser(user_id), input: String::new() };
                }
                Effect::Nothing
            },
            Key::Char('d') if self.tab == Tab::Users => {
                if let Some(user_id) = self.selected_user_id() {
                    self.mode = Mode::Confirm { action: Action::DeleteData(user_id), input: String::new() };
                }
                Effect::Nothing
            },
            Key::Char('x') if self.tab == Tab::Users => {
                if let Some(user_id) = self.selected_user_id() {
                    self.mode = Mode::Confirm { action: Action::DeleteAccount(user_id), input: String::new() };
                }
                Effect::Nothing
            },
            Key::Char('u') if self.tab == Tab::Bans => {
                if self.selected_ban < self.bans.len() {
                    let kind = self.bans[self.selected_ban].kind;
                    if let Some(ban_id) = self.bans[self.selected_ban].id {
                        self.mode = Mode::Confirm { action: Action::RevokeBan(kind, ban_id), input: String::new() };
                    }
                }
                Effect::Nothing
            },
            Key::Up => self.move_selection(-1),
            Key::Down => self.move_selection(1),
            _ => Effect::Nothing,
        }
    }

    /// Answers a key: edits the text being typed, closes or confirms a dialog, or
    /// acts on the lists (see [`step`]).
    pub fn handle_key(&mut self, key: Key) -> (r: Effect)
        requires
            key_fits(old(self)@, key),
        ensures
            (final(self)@, r@) == step(old(self)@, key),
    {
        let mut mode = Mode::Normal;
        std::mem::swap(&mut mode, &mut self.mode);
        match mode {
            Mode::Normal => self.handle_normal_key(key),
            Mode::Search { mut input } => match key {
                Key::Esc => Effect::Nothing,
                Key::Enter => {
                    self.query = trim(input.as_str());
                    Effect::Refresh
                },
                _ => {
                    edit_input(&mut input, key);
                    self.mode = Mode::Search { input };
                    Effect::Nothing
                },
            },
            Mode::BanIp { mut input } => match key {
                Key::Esc => Effect::Nothing,
                Key::Enter => {
                    let ip = trim(input.as_str());
                    if ip.as_str().unicode_len() > 0 {
                        self.mode = Mode::Confirm { action: Action::BanIp(ip), input: String::new() };
                    } else {
                        self.mode = Mode::BanIp { input };
                    }
                    Effect::Nothing
                },
                _ => {
                    edit_input(&mut input, key);
                    self.mode = Mode::BanIp { input };
                    Effect::Nothing
                },
            },
            Mode::Confirm { action, mut input } => match key {
                Key::Esc => Effect::Nothing,
                Key::Enter => {
                    if same_text(input.as_str(), action.expected()) {
                        Effect::Perform(action)
                    } else {
                        let mut status = String::new();
                        push_str(&mut status, "Confirmation must be exactly ");
                        push_str(&mut status, action.expected());
                        self.status = status;
                        self.mode = Mode::Confirm { action, input };
                        Effect::Nothing
                    }
                },
                _ => {
                    edit_input(&mut input, key);
                    self.mode = Mode::Confirm { action, input };
                    Effect::Nothing
                },
            },
        }
    }
}

/// A confirmed action runs only from its dialog, on Enter, when the typed text
/// is exactly its confirmation words; and the action is the one the dialog showed.
pub proof fn lemma_perform_needs_confirmation(s: ConsoleView, key: Key)
    requires
        step(s, key).1 is Perform,
    ensures
        key == Key::Enter,
        s.mode matches ModeView::Confirm(action, input) && input == expected_words(action)
            && step(s, key).1 == EffectView::Perform(action),
{
}

/// Every key keeps the selections inside their lists.
pub proof fn lemma_step_keeps_selections(s: ConsoleView, key: Key)
    requires
        selections_in_range(s),
    ensures
        selections_in_range(step(s, key).0),
        step(s, key).0.user_ids == s.user_ids,
        step(s, key).0.bans == s.bans,
{
}

/// In the user list, each key of a dangerous action opens the confirmation of
/// its own action on the selected user: `b` banning the user, `d` deleting the
/// user's time data, `x` deleting the account; the typed text starts empty and
/// nothing is carried out yet. In the ban list, `u` opens the revocation of the
/// selected ban.
pub proof fn lemma_action_keys_open_their_dialogs(s: ConsoleView, u: ProtoUuid)
    requires
        s.mode == ModeView::Normal,
    ensures
        s.tab == Tab::Users && s.selected_user < s.user_ids.len() && s.user_ids[s.selected_user as int] == Some(u)
            ==> {
            &&& step(s, Key::Char('b')) == (ConsoleView {
                mode: ModeView::Confirm(ActionView::BanUser(u), Seq::empty()),
                ..s
            }, EffectView::Nothing)
            &&& step(s, Key::Char('d')) == (ConsoleView {
                mode: ModeView::Confirm(ActionView::DeleteData(u), Seq::empty()),
                ..s
            }, EffectView::Nothing)
            &&& step(s, Key::Char('x')) == (ConsoleView {
                mode: ModeView::Confirm(ActionView::DeleteAccount(u), Seq::empty()),
                ..s
            }, EffectView::Nothing)
        },
        s.tab == Tab::Bans && s.selected_ban < s.bans.len() && s.bans[s.selected_ban as int].id == Some(u) ==> step(
            s,
            Key::Char('u'),
        ) == (ConsoleView {
            mode: ModeView::Confirm(ActionView::RevokeBan(s.bans[s.selected_ban as int].kind, u), Seq::empty()),
            ..s
        }, EffectView::Nothing),
{
}

/// Hashes the administrator's password for the server's configuration, with a
/// fresh random salt.
///
/// # Errors
///
/// `Hashing` when the hasher refuses, which it does exactly for a password of
/// more than `0xFFFF_FFFF` bytes.
pub fn hash_password(password: &str) -> (r: Result<String, PasswordError>)
    ensures
        r matches Ok(h) ==> is_hash_of(password.spec_bytes(), h@) && phc_parses(h@) && argon2_accepts(
            password.spec_bytes(),
            h@,
        ),
        r is Err <==> password.spec_bytes().len() > 0xFFFF_FFFF,
        r matches Err(e) ==> e == PasswordError::Hashing,
{
    hash_any_password(password)
}

} // verus!
