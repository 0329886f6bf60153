//! The terminal interface as a state machine: keys and the outcomes of outside
//! work come in, the next state and the work to perform go out.
use vstd::prelude::*;
use crate::model::registry::{Registry, registry_upsert, registry_remove};
use crate::model::token::{BackendType, TokenMeta, TokenMetaView, fresh_meta};
use crate::text::{
    has_substring, lowercase, push_char, pop_char, to_lowercase, contains_str,
};

verus! {

/// What a confirmation asks for.
#[derive(Clone, Copy, Debug, PartialEq, Eq, Structural)]
pub enum ConfirmAction {
    Delete(usize),
}

/// Which screen is active.
#[derive(Clone, Copy, Debug, PartialEq, Eq, Structural)]
pub enum Screen {
    Unlock,
    List,
    Detail(usize),
    Add,
    Confirm(ConfirmAction),
    Search,
}

/// Clipboard status message, shown until `expires` (Unix milliseconds).
#[derive(Debug)]
pub struct ClipStatus {
    pub message: String,
    pub expires: i64,
}

/// A key as the interface sees it.
#[derive(Clone, Copy, Debug, PartialEq, Eq, Structural)]
pub enum Key {
    Char(char),
    Enter,
    Esc,
    Backspace,
    Tab,
    BackTab,
    Up,
    Down,
    Other,
}

/// A key press, with whether Control was held.
#[derive(Clone, Copy, Debug, PartialEq, Eq, Structural)]
pub struct KeyInput {
    pub code: Key,
    pub ctrl: bool,
}

/// Outside work a key asks for; its outcome is handed back to the `App`.
#[derive(Debug)]
pub enum Effect {
    Nothing,
    /// Unlock the encrypted vault with this password; then `unlock_finished`.
    Unlock { password: String },
    /// Store this secret in the backend; then `store_finished`.
    Store { service: String, key: String, value: String, backend: BackendType, label: String },
    /// Delete this secret from the backend; then `delete_finished`.
    Delete { service: String, key: String, backend: BackendType },
    /// Read this secret for display; then `secret_loaded`.
    LoadSecret { service: String, key: String, backend: BackendType },
    /// Read this secret and copy it to the clipboard under `label`; then
    /// `read_failed` or `clipboard_finished`.
    CopySecret { service: String, key: String, backend: BackendType, label: String },
    /// Copy this value to the clipboard under `label`; then `clipboard_finished`.
    CopyValue { value: String, label: String },
}

pub enum EffectView {
    Nothing,
    Unlock { password: Seq<char> },
    Store { service: Seq<char>, key: Seq<char>, value: Seq<char>, backend: BackendType, label: Seq<char> },
    Delete { service: Seq<char>, key: Seq<char>, backend: BackendType },
    LoadSecret { service: Seq<char>, key: Seq<char>, backend: BackendType },
    CopySecret { service: Seq<char>, key: Seq<char>, backend: BackendType, label: Seq<char> },
    CopyValue { value: Seq<char>, label: Seq<char> },
}

impl View for Effect {
    type V = EffectView;

    open spec fn view(&self) -> EffectView {
        match self {
            Effect::Nothing => EffectView::Nothing,
            Effect::Unlock { password } => EffectView::Unlock { password: password@ },
            Effect::Store { service, key, value, backend, label } => EffectView::Store {
                service: service@,
                key: key@,
                value: value@,
                backend: *backend,
                label: label@,
            },
            Effect::Delete { service, key, backend } => EffectView::Delete {
                service: service@,
                key: key@,
                backend: *backend,
            },
            Effect::LoadSecret { service, key, backend } => EffectView::LoadSecret {
                service: service@,
                key: key@,
                backend: *backend,
            },
            Effect::CopySecret { service, key, backend, label } => EffectView::CopySecret {
                service: service@,
                key: key@,
                backend: *backend,
                label: label@,
            },
            Effect::CopyValue { value, label } => EffectView::CopyValue { value: value@, label: label@ },
        }
    }
}

/// What handling a key gives: whether to redraw, and the outside work to do.
pub struct KeyOutcome {
    pub redraw: bool,
    pub effect: Effect,
}

/// How a clipboard copy went.
#[derive(Clone, Copy, Debug, PartialEq, Eq, Structural)]
pub enum ClipOutcome {
    Copied,
    SetFailed,
    Unavailable,
}

/// Main interface state.
pub struct App {
    pub screen: Screen,
    pub should_quit: bool,
    pub registry: Registry,
    pub entries: Vec<TokenMeta>,
    pub file_unlocked: bool,
    pub selected: Option<usize>,
    pub password_input: String,
    pub unlock_error: Option<String>,
    pub add_service: String,
    pub add_key: String,
    pub add_value: String,
    pub add_backend: BackendType,
    pub add_label: String,
    /// Focused field of the add form: 0 service, 1 key, 2 value, 3 backend, 4 label.
    pub add_field_idx: usize,
    pub reveal_secret: bool,
    pub secret_cache: Option<String>,
    pub search_query: String,
    pub filtered_indices: Vec<usize>,
    pub clip_status: Option<ClipStatus>,
    pub status_message: Option<String>,
}

/// The mathematical value of the interface state.
pub struct AppView {
    pub screen: Screen,
    pub should_quit: bool,
    pub registry: Seq<TokenMetaView>,
    pub registry_path: Seq<char>,
    pub entries: Seq<TokenMetaView>,
    pub file_unlocked: bool,
    pub selected: Option<usize>,
    pub password_input: Seq<char>,
    pub unlock_error: Option<Seq<char>>,
    pub add_service: Seq<char>,
    pub add_key: Seq<char>,
    pub add_value: Seq<char>,
    pub add_backend: BackendType,
    pub add_label: Seq<char>,
    pub add_field_idx: usize,
    pub reveal_secret: bool,
    pub secret_cache: Option<Seq<char>>,
    pub search_query: Seq<char>,
    pub filtered_indices: Seq<usize>,
    pub clip_status: Option<(Seq<char>, i64)>,
    pub status_message: Option<Seq<char>>,
}

impl View for App {
    type V = AppView;

    open spec fn view(&self) -> AppView {
        AppView {
            screen: self.screen,
            should_quit: self.should_quit,
            registry: self.registry@,
            registry_path: self.registry.spec_path(),
            entries: self.entries@.map_values(|m: TokenMeta| m@),
            file_unlocked: self.file_unlocked,
            selected: self.selected,
            password_input: self.password_input@,
            unlock_error: self.unlock_error.deep_view(),
            add_service: self.add_service@,
            add_key: self.add_key@,
            add_value: self.add_value@,
            add_backend: self.add_backend,
            add_label: self.add_label@,
            add_field_idx: self.add_field_idx,
            reveal_secret: self.reveal_secret,
            secret_cache: self.secret_cache.deep_view(),
            search_query: self.search_query@,
            filtered_indices: self.filtered_indices@,
            clip_status: match self.clip_status {
                Some(c) => Some((c.message@, c.expires)),
                None => None,
            },
            status_message: self.status_message.deep_view(),
        }
    }
}

/// The state after a key: the new state, whether to redraw, the work to do.
pub struct Step {
    pub app: AppView,
    pub redraw: bool,
    pub effect: EffectView,
}

/// The state invariant: search results point into the entries, the add form
/// focuses one of its five fields, and a selection can be moved past.
pub open spec fn app_wf(a: AppView) -> bool {
    &&& forall|j: int| 0 <= j < a.filtered_indices.len() ==> #[trigger] a.filtered_indices[j] < a.entries.len()
    &&& a.add_field_idx < 5
    &&& (a.selected matches Some(i) ==> i < usize::MAX)
}

/// Positions into `entries` of the rows on screen: the search results while a
/// search query is typed, otherwise every entry.
pub open spec fn visible(a: AppView) -> Seq<usize> {
    if a.screen == Screen::Search && a.search_query.len() > 0 {
        a.filtered_indices
    } else {
        Seq::new(a.entries.len(), |i: int| i as usize)
    }
}

/// The entry position of the selected row, if a row is selected.
pub open spec fn selected_real(a: AppView) -> Option<usize> {
    match a.selected {
        Some(i) => if i < visible(a).len() {
            Some(visible(a)[i as int])
        } else {
            None
        },
        None => None,
    }
}

/// The selected entry, if any.
pub open spec fn selected_meta(a: AppView) -> Option<TokenMetaView> {
    match selected_real(a) {
        Some(r) => if r < a.entries.len() {
            Some(a.entries[r as int])
        } else {
            None
        },
        None => None,
    }
}

pub open spec fn same(a: AppView, redraw: bool) -> Step {
    Step { app: a, redraw, effect: EffectView::Nothing }
}

pub open spec fn quit(a: AppView) -> Step {
    Step { app: AppView { should_quit: true, ..a }, redraw: true, effect: EffectView::Nothing }
}

pub open spec fn without_last(s: Seq<char>) -> Seq<char> {
    if s.len() == 0 {
        s
    } else {
        s.drop_last()
    }
}

pub open spec fn sel_or_zero(a: AppView) -> usize {
    match a.selected {
        Some(i) => i,
        None => 0,
    }
}

/// Moves the selection one row down, wrapping around, among `len` rows.
pub open spec fn move_down(a: AppView, len: nat) -> Step {
    if len > 0 {
        same(AppView { selected: Some(((sel_or_zero(a) + 1) % (len as int)) as usize), ..a }, true)
    } else {
        same(a, true)
    }
}

/// Moves the selection one row up, wrapping around, among `len` rows.
pub open spec fn move_up(a: AppView, len: nat) -> Step {
    if len > 0 {
        let i = sel_or_zero(a);
        same(
            AppView {
                selected: Some(
                    if i == 0 {
                        (len - 1) as usize
                    } else {
                        (i - 1) as usize
                    },
                ),
                ..a
            },
            true,
        )
    } else {
        same(a, true)
    }
}

/// Keys on the unlock screen.
pub open spec fn unlock_step(a: AppView, k: KeyInput) -> Step {
    match k.code {
        Key::Enter => Step {
            app: AppView { password_input: Seq::empty(), ..a },
            redraw: true,
            effect: EffectView::Unlock { password: a.password_input },
        },
        Key::Char(c) => same(AppView { password_input: a.password_input.push(c), ..a }, true),
        Key::Backspace => same(AppView { password_input: without_last(a.password_input), ..a }, true),
        Key::Esc => quit(a),
        _ => same(a, false),
    }
}

/// The add form, emptied, with key `token` and the file backend.
pub open spec fn open_add(a: AppView) -> AppView {
    AppView {
        add_service: Seq::empty(),
        add_key: "token"@,
        add_value: Seq::empty(),
        add_backend: BackendType::EncryptedFile,
        add_label: Seq::empty(),
        add_field_idx: 0,
        screen: Screen::Add,
        ..a
    }
}

/// Copies the selected entry's secret to the clipboard under its service name.
pub open spec fn copy_selected(a: AppView) -> EffectView {
    match selected_meta(a) {
        Some(m) => EffectView::CopySecret { service: m.service, key: m.key, backend: m.backend, label: m.service },
        None => EffectView::Nothing,
    }
}

/// Keys on the list screen.
pub open spec fn list_step(a: AppView, k: KeyInput) -> Step {
    let len = visible(a).len();
    match k.code {
        Key::Char(c) => if c == 'q' {
            quit(a)
        } else if c == 'j' {
            move_down(a, len)
        } else if c == 'k' {
            move_up(a, len)
        } else if c == 'a' {
            same(open_add(a), true)
        } else if c == 'd' {
            match selected_real(a) {
                Some(idx) => same(AppView { screen: Screen::Confirm(ConfirmAction::Delete(idx)), ..a }, true),
                None => same(a, true),
            }
        } else if c == 'c' {
            Step { app: a, redraw: true, effect: copy_selected(a) }
        } else if c == '/' {
            same(
                AppView {
                    search_query: Seq::empty(),
                    filtered_indices: Seq::new(a.entries.len(), |i: int| i as usize),
                    screen: Screen::Search,
                    selected: if a.entries.len() > 0 {
                        Some(0)
                    } else {
                        a.selected
                    },
                    ..a
                },
                true,
            )
        } else {
            same(a, false)
        },
        Key::Down => move_down(a, len),
        Key::Up => move_up(a, len),
        Key::Enter => match selected_real(a) {
            Some(idx) => same(AppView { reveal_secret: false, secret_cache: None, screen: Screen::Detail(idx), ..a }, true),
            None => same(a, true),
        },
        _ => same(a, false),
    }
}

/// The clipboard label on the detail screen of entry `idx`: its service, or `token`.
pub open spec fn detail_label(a: AppView, idx: usize) -> Seq<char> {
    if idx < a.entries.len() {
        a.entries[idx as int].service
    } else {
        "token"@
    }
}

/// Keys on the detail screen of entry `idx`.
pub open spec fn detail_step(a: AppView, k: KeyInput, idx: usize) -> Step {
    match k.code {
        Key::Esc => same(AppView { reveal_secret: false, secret_cache: None, screen: Screen::List, ..a }, true),
        Key::Char(c) => if c == 'q' {
            same(AppView { reveal_secret: false, secret_cache: None, screen: Screen::List, ..a }, true)
        } else if c == 'v' {
            if a.reveal_secret {
                same(AppView { reveal_secret: false, secret_cache: None, ..a }, true)
            } else {
                Step {
                    app: AppView { reveal_secret: true, ..a },
                    redraw: true,
                    effect: match selected_meta(a) {
                        Some(m) => EffectView::LoadSecret { service: m.service, key: m.key, backend: m.backend },
                        None => EffectView::Nothing,
                    },
                }
            }
        } else if c == 'c' {
            Step {
                app: a,
                redraw: true,
                effect: match a.secret_cache {
                    Some(v) => EffectView::CopyValue { value: v, label: detail_label(a, idx) },
                    None => match selected_meta(a) {
                        Some(m) => EffectView::CopySecret {
                            service: m.service,
                            key: m.key,
                            backend: m.backend,
                            label: detail_label(a, idx),
                        },
                        None => EffectView::Nothing,
                    },
                },
            }
        } else {
            same(a, false)
        },
        _ => same(a, false),
    }
}

/// The add form with `c` typed into the focused field (the backend field
/// types into the label).
pub open spec fn field_push(a: AppView, c: char) -> AppView {
    if a.add_field_idx == 0 {
        AppView { add_service: a.add_service.push(c), ..a }
    } else if a.add_field_idx == 1 {
        AppView { add_key: a.add_key.push(c), ..a }
    } else if a.add_field_idx == 2 {
        AppView { add_value: a.add_value.push(c), ..a }
    } else {
        AppView { add_label: a.add_label.push(c), ..a }
    }
}

/// The add form with the last character of the focused field erased.
pub open spec fn field_pop(a: AppView) -> AppView {
    if a.add_field_idx == 0 {
        AppView { add_service: without_last(a.add_service), ..a }
    } else if a.add_field_idx == 1 {
        AppView { add_key: without_last(a.add_key), ..a }
    } else if a.add_field_idx == 2 {
        AppView { add_value: without_last(a.add_value), ..a }
    } else {
        AppView { add_label: without_last(a.add_label), ..a }
    }
}

/// The other backend.
pub open spec fn toggled(b: BackendType) -> BackendType {
    match b {
        BackendType::Keychain => BackendType::EncryptedFile,
        BackendType::EncryptedFile => BackendType::Keychain,
    }
}

/// Submitting the add form: a service and a value are required; otherwise the
/// secret is to be stored and the typed value is cleared.
pub open spec fn submit_step(a: AppView) -> Step {
    if a.add_service.len() == 0 {
        same(AppView { status_message: Some("Service name is required"@), ..a }, true)
    } else if a.add_value.len() == 0 {
        same(AppView { status_message: Some("Value is required"@), ..a }, true)
    } else {
        Step {
            app: AppView { add_value: Seq::empty(), ..a },
            redraw: true,
            effect: EffectView::Store {
                service: a.add_service,
                key: a.add_key,
                value: a.add_value,
                backend: a.add_backend,
                label: a.add_label,
            },
        }
    }
}

/// Keys on the add screen.
pub open spec fn add_step(a: AppView, k: KeyInput) -> Step {
    let i = a.add_field_idx;
    match k.code {
        Key::Esc => same(AppView { screen: Screen::List, ..a }, true),
        Key::Tab => same(AppView { add_field_idx: ((i + 1) % 5) as usize, ..a }, true),
        Key::BackTab => same(
            AppView {
                add_field_idx: if i == 0 {
                    4
                } else {
                    (i - 1) as usize
                },
                ..a
            },
            true,
        ),
        Key::Enter => if i == 3 {
            same(AppView { add_backend: toggled(a.add_backend), ..a }, true)
        } else if k.ctrl || i == 4 {
            submit_step(a)
        } else {
            same(AppView { add_field_idx: ((i + 1) % 5) as usize, ..a }, true)
        },
        Key::Char(c) => same(field_push(a, c), true),
        Key::Backspace => same(field_pop(a), true),
        _ => same(a, false),
    }
}

/// Keys on the confirmation screen.
pub open spec fn confirm_step(a: AppView, k: KeyInput, action: ConfirmAction) -> Step {
    let ConfirmAction::Delete(idx) = action;
    match k.code {
        Key::Char(c) => if c == 'y' || c == 'Y' {
            Step {
                app: AppView { screen: Screen::List, ..a },
                redraw: true,
                effect: if idx < a.entries.len() {
                    EffectView::Delete {
                        service: a.entries[idx as int].service,
                        key: a.entries[idx as int].key,
                        backend: a.entries[idx as int].backend,
                    }
                } else {
                    EffectView::Nothing
                },
            }
        } else if c == 'n' || c == 'N' {
            same(AppView { screen: Screen::List, ..a }, true)
        } else {
            same(a, false)
        },
        Key::Esc => same(AppView { screen: Screen::List, ..a }, true),
        _ => same(a, false),
    }
}

/// The optional text, or the empty text.
pub open spec fn or_empty(o: Option<Seq<char>>) -> Seq<char> {
    match o {
        Some(s) => s,
        None => Seq::empty(),
    }
}

/// The entry matches a (lowercased) search query: in its service, key,
/// label or one of its tags, compared in lowercase.
pub open spec fn meta_matches_query(m: TokenMetaView, q: Seq<char>) -> bool {
    ||| has_substring(lowercase(m.service), q)
    ||| has_substring(lowercase(m.key), q)
    ||| has_substring(lowercase(or_empty(m.label)), q)
    ||| exists|t: int| 0 <= t < m.tags.len() && has_substring(lowercase(#[trigger] m.tags[t]), q)
}

/// Positions of the entries that match the query, in order.
pub open spec fn matching_indices(entries: Seq<TokenMetaView>, q: Seq<char>) -> Seq<usize> {
    Seq::new(entries.len(), |i: int| i as usize).filter(|i: usize| meta_matches_query(entries[i as int], q))
}

/// The search results recomputed for the current query, selecting the first.
pub open spec fn refilter(a: AppView) -> AppView {
    let f = matching_indices(a.entries, lowercase(a.search_query));
    AppView {
        filtered_indices: f,
        selected: if f.len() == 0 {
            None
        } else {
            Some(0)
        },
        ..a
    }
}

/// Keys on the search screen.
pub open spec fn search_step(a: AppView, k: KeyInput) -> Step {
    match k.code {
        Key::Esc => same(
            AppView {
                search_query: Seq::empty(),
                screen: Screen::List,
                selected: if a.entries.len() > 0 {
                    Some(0)
                } else {
                    a.selected
                },
                ..a
            },
            true,
        ),
        Key::Enter => same(AppView { screen: Screen::List, ..a }, true),
        Key::Char(c) => same(refilter(AppView { search_query: a.search_query.push(c), ..a }), true),
        Key::Backspace => same(refilter(AppView { search_query: without_last(a.search_query), ..a }), true),
        Key::Down => move_down(a, a.filtered_indices.len()),
        Key::Up => move_up(a, a.filtered_indices.len()),
        _ => same(a, false),
    }
}

/// Control-C quits from any screen.
pub open spec fn is_quit_key(k: KeyInput) -> bool {
    k.ctrl && k.code == Key::Char('c')
}

/// Whether a key is Control-C, which quits from any screen.
pub fn is_quit(key: &KeyInput) -> (r: bool)
    ensures
        r == is_quit_key(*key),
{
    key.ctrl && key.code == Key::Char('c')
}

/// Whether a key is Escape.
pub fn is_escape(key: &KeyInput) -> (r: bool)
    ensures
        r == (key.code == Key::Esc),
{
    key.code == Key::Esc
}

/// What a key does.
pub open spec fn key_step(a: AppView, k: KeyInput) -> Step {
    if is_quit_key(k) {
        quit(a)
    } else {
        match a.screen {
            Screen::Unlock => unlock_step(a, k),
            Screen::List => list_step(a, k),
            Screen::Detail(idx) => detail_step(a, k, idx),
            Screen::Add => add_step(a, k),
            Screen::Confirm(action) => confirm_step(a, k, action),
            Screen::Search => search_step(a, k),
        }
    }
}

/// The entries reloaded from the registry `reg`: the selection is kept inside
/// the list and search results that no longer point into it are dropped.
pub open spec fn refreshed(a: AppView, reg: Seq<TokenMetaView>) -> AppView {
    AppView {
        registry: reg,
        entries: reg,
        selected: if reg.len() == 0 {
            None
        } else {
            match a.selected {
                Some(i) => if i >= reg.len() {
                    Some((reg.len() - 1) as usize)
                } else {
                    Some(i)
                },
                None => None,
            }
        },
        filtered_indices: a.filtered_indices.filter(|i: usize| i < reg.len()),
        ..a
    }
}

/// The record a stored add form makes at time `now`: with its label when one was typed.
pub open spec fn added_meta(a: AppView, now: i64) -> TokenMetaView {
    let m = fresh_meta(a.add_service, a.add_key, a.add_backend, now);
    if a.add_label.len() > 0 {
        TokenMetaView { label: Some(a.add_label), ..m }
    } else {
        m
    }
}


/// The state a new interface starts in, over the registry `reg` kept at
/// `path`: locked when the vault exists, with the first row selected.
pub open spec fn initial_app(reg: Seq<TokenMetaView>, path: Seq<char>, vault_exists: bool) -> AppView {
    AppView {
        screen: if vault_exists {
            Screen::Unlock
        } else {
            Screen::List
        },
        should_quit: false,
        registry: reg,
        registry_path: path,
        entries: reg,
        file_unlocked: !vault_exists,
        selected: if reg.len() > 0 {
            Some(0)
        } else {
            None
        },
        password_input: Seq::empty(),
        unlock_error: None,
        add_service: Seq::empty(),
        add_key: "token"@,
        add_value: Seq::empty(),
        add_backend: BackendType::EncryptedFile,
        add_label: Seq::empty(),
        add_field_idx: 0,
        reveal_secret: false,
        secret_cache: None,
        search_query: Seq::empty(),
        filtered_indices: Seq::empty(),
        clip_status: None,
        status_message: None,
    }
}

/// The state after an unlock attempt.
pub open spec fn after_unlock(a: AppView, ok: bool, err: Seq<char>) -> AppView {
    if ok {
        AppView { file_unlocked: true, unlock_error: None, screen: Screen::List, ..a }
    } else {
        AppView { unlock_error: Some("Wrong password: "@ + err), ..a }
    }
}

/// The state after storing the add form's secret at time `now`.
pub open spec fn after_store(a: AppView, ok: bool, err: Seq<char>, now: i64) -> AppView {
    if ok {
        AppView {
            status_message: Some("Added "@ + a.add_service + ":"@ + a.add_key),
            screen: Screen::List,
            ..refreshed(a, registry_upsert(a.registry, added_meta(a, now)))
        }
    } else {
        AppView { status_message: Some("Error: "@ + err), ..a }
    }
}

/// The state after deleting the secret of `service:key`.
pub open spec fn after_delete(a: AppView, service: Seq<char>, key: Seq<char>, ok: bool, err: Seq<char>) -> AppView {
    if ok {
        AppView {
            status_message: Some("Deleted "@ + service + ":"@ + key),
            ..refreshed(a, registry_remove(a.registry, service, key))
        }
    } else {
        AppView { status_message: Some("Delete failed: "@ + err), ..a }
    }
}

/// The state after a clipboard copy under `label` at time `now`: a status
/// that lasts thirty seconds, or a failure message.
pub open spec fn after_clipboard(a: AppView, outcome: ClipOutcome, label: Seq<char>, now: i64) -> AppView {
    match outcome {
        ClipOutcome::Copied => AppView {
            clip_status: Some(("Copied "@ + label + " to clipboard"@, (now + 30000) as i64)),
            ..a
        },
        ClipOutcome::SetFailed => AppView { status_message: Some("Failed to copy to clipboard"@), ..a },
        ClipOutcome::Unavailable => AppView { status_message: Some("Clipboard not available"@), ..a },
    }
}

/// The state after the secret of the selected record was read for display
/// (`Ok`), or could not be read (`Err`).
pub open spec fn after_secret(a: AppView, result: Result<Seq<char>, Seq<char>>) -> AppView {
    match result {
        Ok(v) => AppView { secret_cache: Some(v), ..a },
        Err(e) => AppView { status_message: Some("Failed to read secret: "@ + e), ..a },
    }
}

/// The state after a secret to copy could not be read.
pub open spec fn after_read_failed(a: AppView, error: Seq<char>) -> AppView {
    AppView { status_message: Some("Failed to read: "@ + error), ..a }
}

/// The state with the registry `reg`, kept at `path`, loaded anew.
pub open spec fn reloaded(a: AppView, reg: Seq<TokenMetaView>, path: Seq<char>) -> AppView {
    refreshed(AppView { registry_path: path, ..a }, reg)
}

/// The state at time `now`: the clipboard status is gone once it has expired.
pub open spec fn after_tick(a: AppView, now: i64) -> AppView {
    match a.clip_status {
        Some((_, expires)) => if now > expires {
            AppView { clip_status: None, ..a }
        } else {
            a
        },
        None => a,
    }
}

/// The key outcome `r` and state `after` are those of `s`.
pub open spec fn outcome_is(after: AppView, r: KeyOutcome, s: Step) -> bool {
    &&& after == s.app
    &&& r.redraw == s.redraw
    &&& r.effect@ == s.effect
}

/// Copies of the registry's records.
fn copy_entries(reg: &Registry) -> (r: Vec<TokenMeta>)
    ensures
        r@.map_values(|m: TokenMeta| m@) == reg@,
{
    let list = reg.list();
    let mut r: Vec<TokenMeta> = Vec::new();
    let n = list.len();
    assert(reg@.len() == n);
    for i in 0..n
        invariant
            n == list@.len(),
            reg@.len() == n,
            list@.map_values(|m: TokenMeta| m@) == reg@,
            r@.map_values(|m: TokenMeta| m@) == reg@.take(i as int),
    {
        let ghost mi = list@[i as int]@;
        assert(mi == reg@[i as int]);
        let d = list[i].duplicate();
        assert(d@ == mi);
        let ghost before = r@;
        r.push(d);
        assert(r@.map_values(|m: TokenMeta| m@) =~= before.map_values(|m: TokenMeta| m@).push(mi));
        assert(reg@.take(i + 1) =~= reg@.take(i as int).push(mi));
    }
    assert(reg@.take(n as int) =~= reg@);
    r
}

/// The positions `0..n`.
fn range_vec(n: usize) -> (r: Vec<usize>)
    ensures
        r@ == Seq::new(n as nat, |i: int| i as usize),
{
    let mut r: Vec<usize> = Vec::new();
    for i in 0..n
        invariant
            r@ == Seq::new(i as nat, |k: int| k as usize),
    {
        r.push(i);
        assert(r@ =~= Seq::new((i + 1) as nat, |k: int| k as usize));
    }
    r
}

/// A copy of a list of positions.
fn copy_indices(v: &Vec<usize>) -> (r: Vec<usize>)
    ensures
        r@ == v@,
{
    let mut r: Vec<usize> = Vec::new();
    for i in 0..v.len()
        invariant
            r@ == v@.take(i as int),
    {
        r.push(v[i]);
        assert(r@ =~= v@.take(i + 1));
    }
    assert(v@.take(v.len() as int) =~= v@);
    r
}

impl App {
    /// A new interface over `registry`; `vault_exists` tells whether an
    /// encrypted vault was found, which has to be unlocked first.
    pub fn new(registry: Registry, vault_exists: bool) -> (r: App)
        ensures
            r@ == initial_app(registry@, registry.spec_path(), vault_exists),
            app_wf(r@),
    {
        let entries = copy_entries(&registry);
        let selected = if entries.len() > 0 {
            Some(0)
        } else {
            None
        };
        let r = App {
            screen: if vault_exists {
                Screen::Unlock
            } else {
                Screen::List
            },
            should_quit: false,
            registry,
            entries,
            file_unlocked: !vault_exists,
            selected,
            password_input: String::new(),
            unlock_error: None,
            add_service: String::new(),
            add_key: String::from_str("token"),
            add_value: String::new(),
            add_backend: BackendType::EncryptedFile,
            add_label: String::new(),
            add_field_idx: 0,
            reveal_secret: false,
            secret_cache: None,
            search_query: String::new(),
            filtered_indices: Vec::new(),
            clip_status: None,
            status_message: None,
        };
        assert(r@.filtered_indices =~= Seq::<usize>::empty());
        r
    }

    /// Positions into the entries of the rows on screen.
    pub fn visible_indices(&self) -> (r: Vec<usize>)
        ensures
            r@ == visible(self@),
    {
        if self.screen == Screen::Search && !self.search_query.as_str().is_empty() {
            copy_indices(&self.filtered_indices)
        } else {
            range_vec(self.entries.len())
        }
    }

    /// The rows on screen: each entry with its position.
    pub fn visible_entries(&self) -> (r: Vec<(usize, &TokenMeta)>)
        requires
            app_wf(self@),
        ensures
            r@.len() == visible(self@).len(),
            forall|j: int| 0 <= j < r@.len() ==> (#[trigger] r@[j]).0 == visible(self@)[j] && r@[j].1@ == self@.entries[r@[j].0 as int],
    {
        let idx = self.visible_indices();
        let mut r: Vec<(usize, &TokenMeta)> = Vec::new();
        for j in 0..idx.len()
            invariant
                idx@ == visible(self@),
                app_wf(self@),
                r@.len() == j,
                forall|k: int| 0 <= k < j ==> (#[trigger] r@[k]).0 == visible(self@)[k] && r@[k].1@ == self@.entries[r@[k].0 as int],
        {
            let i = idx[j];
            assert(i < self.entries@.len()) by {
                if self.screen == Screen::Search && self.search_query@.len() > 0 {
                    assert(self@.filtered_indices[j as int] < self@.entries.len());
                }
            }
            r.push((i, &self.entries[i]));
        }
        r
    }

    /// The entry position of the selected row.
    pub fn selected_real_index(&self) -> (r: Option<usize>)
        ensures
            r == selected_real(self@),
    {
        let vis = self.visible_indices();
        match self.selected {
            Some(i) => if i < vis.len() {
                Some(vis[i])
            } else {
                None
            },
            None => None,
        }
    }

    /// The selected entry.
    pub fn selected_entry(&self) -> (r: Option<&TokenMeta>)
        ensures
            match r {
                Some(m) => selected_meta(self@) == Some(m@),
                None => selected_meta(self@) is None,
            },
    {
        match self.selected_real_index() {
            Some(i) => if i < self.entries.len() {
                Some(&self.entries[i])
            } else {
                None
            },
            None => None,
        }
    }

    fn quit_now(&mut self) -> (r: KeyOutcome)
        ensures
            outcome_is(final(self)@, r, quit(old(self)@)),
    {
        self.should_quit = true;
        KeyOutcome { redraw: true, effect: Effect::Nothing }
    }

    fn unchanged(&self, redraw: bool) -> (r: KeyOutcome)
        ensures
            outcome_is(self@, r, same(self@, redraw)),
    {
        KeyOutcome { redraw, effect: Effect::Nothing }
    }

    fn move_down(&mut self, len: usize) -> (r: KeyOutcome)
        requires
            app_wf(old(self)@),
        ensures
            outcome_is(final(self)@, r, move_down(old(self)@, len as nat)),
            app_wf(final(self)@),
    {
        if len > 0 {
            let i = match self.selected {
                Some(i) => i,
                None => 0,
            };
            self.selected = Some((i + 1) % len);
        }
        KeyOutcome { redraw: true, effect: Effect::Nothing }
    }

    fn move_up(&mut self, len: usize) -> (r: KeyOutcome)
        requires
            app_wf(old(self)@),
        ensures
            outcome_is(final(self)@, r, move_up(old(self)@, len as nat)),
            app_wf(final(self)@),
    {
        if len > 0 {
            let i = match self.selected {
                Some(i) => i,
                None => 0,
            };
            let prev = if i == 0 {
                len - 1
            } else {
                i - 1
            };
            self.selected = Some(prev);
        }
        KeyOutcome { redraw: true, effect: Effect::Nothing }
    }

    /// Handles a key: updates the state and tells whether to redraw and what
    /// outside work to do.
    pub fn handle_key(&mut self, key: KeyInput) -> (r: KeyOutcome)
        requires
            app_wf(old(self)@),
        ensures
            outcome_is(final(self)@, r, key_step(old(self)@, key)),
            app_wf(final(self)@),
    {
        if is_quit(&key) {
            return self.quit_now();
        }
        match self.screen {
            Screen::Unlock => self.handle_unlock_key(key),
            Screen::List => self.handle_list_key(key),
            Screen::Detail(idx) => self.handle_detail_key(key, idx),
            Screen::Add => self.handle_add_key(key),
            Screen::Confirm(action) => self.handle_confirm_key(key, action),
            Screen::Search => self.handle_search_key(key),
        }
    }

    fn handle_unlock_key(&mut self, key: KeyInput) -> (r: KeyOutcome)
        requires
            app_wf(old(self)@),
        ensures
            outcome_is(final(self)@, r, unlock_step(old(self)@, key)),
            app_wf(final(self)@),
    {
        match key.code {
            Key::Enter => {
                let password = self.password_input.clone();
                self.password_input = String::new();
                KeyOutcome { redraw: true, effect: Effect::Unlock { password } }
            },
            Key::Char(c) => {
                push_char(&mut self.password_input, c);
                KeyOutcome { redraw: true, effect: Effect::Nothing }
            },
            Key::Backspace => {
                pop_char(&mut self.password_input);
                KeyOutcome { redraw: true, effect: Effect::Nothing }
            },
            Key::Esc => self.quit_now(),
            _ => self.unchanged(false),
        }
    }

    fn copy_selected_effect(&self) -> (r: Effect)
        ensures
            r@ == copy_selected(self@),
    {
        match self.selected_entry() {
            Some(m) => Effect::CopySecret {
                service: m.service.clone(),
                key: m.key.clone(),
                backend: m.backend,
                label: m.service.clone(),
            },
            None => Effect::Nothing,
        }
    }

    fn handle_list_key(&mut self, key: KeyInput) -> (r: KeyOutcome)
        requires
            app_wf(old(self)@),
            old(self).screen == Screen::List,
        ensures
            outcome_is(final(self)@, r, list_step(old(self)@, key)),
            app_wf(final(self)@),
    {
        let len = self.visible_indices().len();
        match key.code {
            Key::Char(c) => {
                if c == 'q' {
                    self.quit_now()
                } else if c == 'j' {
                    self.move_down(len)
                } else if c == 'k' {
                    self.move_up(len)
                } else if c == 'a' {
                    self.add_service = String::new();
                    self.add_key = String::from_str("token");
                    self.add_value = String::new();
                    self.add_backend = BackendType::EncryptedFile;
                    self.add_label = String::new();
                    self.add_field_idx = 0;
                    self.screen = Screen::Add;
                    KeyOutcome { redraw: true, effect: Effect::Nothing }
                } else if c == 'd' {
                    match self.selected_real_index() {
                        Some(idx) => {
                            self.screen = Screen::Confirm(ConfirmAction::Delete(idx));
                        },
                        None => {},
                    }
                    KeyOutcome { redraw: true, effect: Effect::Nothing }
                } else if c == 'c' {
                    let effect = self.copy_selected_effect();
                    KeyOutcome { redraw: true, effect }
                } else if c == '/' {
                    self.search_query = String::new();
                    self.filtered_indices = range_vec(self.entries.len());
                    self.screen = Screen::Search;
                    if self.entries.len() > 0 {
                        self.selected = Some(0);
                    }
                    KeyOutcome { redraw: true, effect: Effect::Nothing }
                } else {
                    self.unchanged(false)
                }
            },
            Key::Down => self.move_down(len),
            Key::Up => self.move_up(len),
            Key::Enter => {
                match self.selected_real_index() {
                    Some(idx) => {
                        self.reveal_secret = false;
                        self.secret_cache = None;
                        self.screen = Screen::Detail(idx);
                    },
                    None => {},
                }
                KeyOutcome { redraw: true, effect: Effect::Nothing }
            },
            _ => self.unchanged(false),
        }
    }

    fn detail_label(&self, idx: usize) -> (r: String)
        ensures
            r@ == detail_label(self@, idx),
    {
        if idx < self.entries.len() {
            self.entries[idx].service.clone()
        } else {
            String::from_str("token")
        }
    }

    fn handle_detail_key(&mut self, key: KeyInput, idx: usize) -> (r: KeyOutcome)
        requires
            app_wf(old(self)@),
        ensures
            outcome_is(final(self)@, r, detail_step(old(self)@, key, idx)),
            app_wf(final(self)@),
    {
        match key.code {
            Key::Esc => {
                self.reveal_secret = false;
                self.secret_cache = None;
                self.screen = Screen::List;
                KeyOutcome { redraw: true, effect: Effect::Nothing }
            },
            Key::Char(c) => {
                if c == 'q' {
                    self.reveal_secret = false;
                    self.secret_cache = None;
                    self.screen = Screen::List;
                    KeyOutcome { redraw: true, effect: Effect::Nothing }
                } else if c == 'v' {
                    if self.reveal_secret {
                        self.reveal_secret = false;
                        self.secret_cache = None;
                        KeyOutcome { redraw: true, effect: Effect::Nothing }
                    } else {
                        let effect = match self.selected_entry() {
                            Some(m) => Effect::LoadSecret {
                                service: m.service.clone(),
                                key: m.key.clone(),
                                backend: m.backend,
                            },
                            None => Effect::Nothing,
                        };
                        self.reveal_secret = true;
                        KeyOutcome { redraw: true, effect }
                    }
                } else if c == 'c' {
                    let effect = match &self.secret_cache {
                        Some(v) => Effect::CopyValue { value: v.clone(), label: self.detail_label(idx) },
                        None => match self.selected_entry() {
                            Some(m) => Effect::CopySecret {
                                service: m.service.clone(),
                                key: m.key.clone(),
                                backend: m.backend,
                                label: self.detail_label(idx),
                            },
                            None => Effect::Nothing,
                        },
                    };
                    KeyOutcome { redraw: true, effect }
                } else {
                    self.unchanged(false)
                }
            },
            _ => self.unchanged(false),
        }
    }

    fn submit_add(&mut self) -> (r: KeyOutcome)
        requires
            app_wf(old(self)@),
        ensures
            outcome_is(final(self)@, r, submit_step(old(self)@)),
            app_wf(final(self)@),
    {
        if self.add_service.as_str().is_empty() {
            self.status_message = Some(String::from_str("Service name is required"));
            return KeyOutcome { redraw: true, effect: Effect::Nothing };
        }
        if self.add_value.as_str().is_empty() {
            self.status_message = Some(String::from_str("Value is required"));
            return KeyOutcome { redraw: true, effect: Effect::Nothing };
        }
        let effect = Effect::Store {
            service: self.add_service.clone(),
            key: self.add_key.clone(),
            value: self.add_value.clone(),
            backend: self.add_backend,
            label: self.add_label.clone(),
        };
        self.add_value = String::new();
        KeyOutcome { redraw: true, effect }
    }

    fn handle_add_key(&mut self, key: KeyInput) -> (r: KeyOutcome)
        requires
            app_wf(old(self)@),
        ensures
            outcome_is(final(self)@, r, add_step(old(self)@, key)),
            app_wf(final(self)@),
    {
        let i = self.add_field_idx;
        match key.code {
            Key::Esc => {
                self.screen = Screen::List;
                KeyOutcome { redraw: true, effect: Effect::Nothing }
            },
            Key::Tab => {
                self.add_field_idx = (i + 1) % 5;
                KeyOutcome { redraw: true, effect: Effect::Nothing }
            },
            Key::BackTab => {
                self.add_field_idx = if i == 0 {
                    4
                } else {
                    i - 1
                };
                KeyOutcome { redraw: true, effect: Effect::Nothing }
            },
            Key::Enter => {
                if i == 3 {
                    self.add_backend = match self.add_backend {
                        BackendType::Keychain => BackendType::EncryptedFile,
                        BackendType::EncryptedFile => BackendType::Keychain,
                    };
                    KeyOutcome { redraw: true, effect: Effect::Nothing }
                } else if key.ctrl || i == 4 {
                    self.submit_add()
                } else {
                    self.add_field_idx = (i + 1) % 5;
                    KeyOutcome { redraw: true, effect: Effect::Nothing }
                }
            },
            Key::Char(c) => {
                if i == 0 {
                    push_char(&mut self.add_service, c);
                } else if i == 1 {
                    push_char(&mut self.add_key, c);
                } else if i == 2 {
                    push_char(&mut self.add_value, c);
                } else {
                    push_char(&mut self.add_label, c);
                }
                KeyOutcome { redraw: true, effect: Effect::Nothing }
            },
            Key::Backspace => {
                if i == 0 {
                    pop_char(&mut self.add_service);
                } else if i == 1 {
                    pop_char(&mut self.add_key);
                } else if i == 2 {
                    pop_char(&mut self.add_value);
                } else {
                    pop_char(&mut self.add_label);
                }
                KeyOutcome { redraw: true, effect: Effect::Nothing }
            },
            _ => self.unchanged(false),
        }
    }

    fn handle_confirm_key(&mut self, key: KeyInput, action: ConfirmAction) -> (r: KeyOutcome)
        requires
            app_wf(old(self)@),
        ensures
            outcome_is(final(self)@, r, confirm_step(old(self)@, key, action)),
            app_wf(final(self)@),
    {
        let idx = match action {
            ConfirmAction::Delete(i) => i,
        };
        match key.code {
            Key::Char(c) => {
                if c == 'y' || c == 'Y' {
                    let effect = if idx < self.entries.len() {
                        let e = &self.entries[idx];
                        Effect::Delete { service: e.service.clone(), key: e.key.clone(), backend: e.backend }
                    } else {
                        Effect::Nothing
                    };
                    self.screen = Screen::List;
                    KeyOutcome { redraw: true, effect }
                } else if c == 'n' || c == 'N' {
                    self.screen = Screen::List;
                    KeyOutcome { redraw: true, effect: Effect::Nothing }
                } else {
                    self.unchanged(false)
                }
            },
            Key::Esc => {
                self.screen = Screen::List;
                KeyOutcome { redraw: true, effect: Effect::Nothing }
            },
            _ => self.unchanged(false),
        }
    }

    /// Whether entry `i` matches the lowercased query `q`.
    fn entry_matches(&self, i: usize, q: &str) -> (r: bool)
        requires
            i < self@.entries.len(),
        ensures
            r == meta_matches_query(self@.entries[i as int], q@),
    {
        let m = &self.entries[i];
        let ghost mv = self@.entries[i as int];
        assert(mv == m@);
        if contains_str(to_lowercase(m.service.as_str()).as_str(), q) {
            return true;
        }
        if contains_str(to_lowercase(m.key.as_str()).as_str(), q) {
            return true;
        }
        let label_lower = match &m.label {
            Some(l) => to_lowercase(l.as_str()),
            None => {
                let empty = String::new();
                to_lowercase(empty.as_str())
            },
        };
        assert(label_lower@ == lowercase(or_empty(mv.label)));
        if contains_str(label_lower.as_str(), q) {
            return true;
        }
        let n = m.tags.len();
        for t in 0..n
            invariant
                n == m.tags@.len(),
                mv == m@,
                i < self@.entries.len(),
                mv == self@.entries[i as int],
                forall|j: int| 0 <= j < t ==> !has_substring(lowercase(#[trigger] mv.tags[j]), q@),
        {
            assert(mv.tags[t as int] == m.tags@[t as int]@);
            if contains_str(to_lowercase(m.tags[t].as_str()).as_str(), q) {
                assert(0 <= t < mv.tags.len() && has_substring(lowercase(mv.tags[t as int]), q@));
                return true;
            }
        }
        false
    }

    /// Recomputes the search results for the current query and selects the first.
    fn update_search_filter(&mut self)
        requires
            app_wf(old(self)@),
        ensures
            final(self)@ == refilter(old(self)@),
            app_wf(final(self)@),
    {
        let q = to_lowercase(self.search_query.as_str());
        let ghost ev = self@.entries;
        let ghost qv = q@;
        let ghost pred = |i: usize| meta_matches_query(ev[i as int], qv);
        let ghost all = Seq::new(ev.len(), |i: int| i as usize);
        let n = self.entries.len();
        let mut f: Vec<usize> = Vec::new();
        for i in 0..n
            invariant
                n == ev.len(),
                ev == self@.entries,
                qv == q@,
                pred == (|i: usize| meta_matches_query(ev[i as int], qv)),
                all == Seq::new(ev.len(), |i: int| i as usize),
                f@ == all.take(i as int).filter(pred),
                forall|j: int| 0 <= j < f@.len() ==> #[trigger] f@[j] < n,
        {
            proof {
                all.take(i as int).lemma_filter_push(all[i as int], pred);
                assert(all.take(i + 1) =~= all.take(i as int).push(all[i as int]));
            }
            if self.entry_matches(i, q.as_str()) {
                f.push(i);
            }
        }
        assert(all.take(n as int) =~= all);
        let empty = f.len() == 0;
        self.filtered_indices = f;
        if empty {
            self.selected = None;
        } else {
            self.selected = Some(0);
        }
    }

    fn handle_search_key(&mut self, key: KeyInput) -> (r: KeyOutcome)
        requires
            app_wf(old(self)@),
        ensures
            outcome_is(final(self)@, r, search_step(old(self)@, key)),
            app_wf(final(self)@),
    {
        match key.code {
            Key::Esc => {
                self.search_query = String::new();
                self.screen = Screen::List;
                if self.entries.len() > 0 {
                    self.selected = Some(0);
                }
                KeyOutcome { redraw: true, effect: Effect::Nothing }
            },
            Key::Enter => {
                self.screen = Screen::List;
                KeyOutcome { redraw: true, effect: Effect::Nothing }
            },
            Key::Char(c) => {
                push_char(&mut self.search_query, c);
                self.update_search_filter();
                KeyOutcome { redraw: true, effect: Effect::Nothing }
            },
            Key::Backspace => {
                pop_char(&mut self.search_query);
                self.update_search_filter();
                KeyOutcome { redraw: true, effect: Effect::Nothing }
            },
            Key::Down => {
                let len = self.filtered_indices.len();
                self.move_down(len)
            },
            Key::Up => {
                let len = self.filtered_indices.len();
                self.move_up(len)
            },
            _ => self.unchanged(false),
        }
    }

    /// Reloads the entries from the registry: the selection is kept inside the
    /// list and search results that no longer point into it are dropped.
    fn refresh(&mut self)
        requires
            app_wf(old(self)@),
        ensures
            final(self)@ == refreshed(old(self)@, old(self)@.registry),
            app_wf(final(self)@),
    {
        self.entries = copy_entries(&self.registry);
        let n = self.entries.len();
        if n == 0 {
            self.selected = None;
        } else {
            match self.selected {
                Some(i) => if i >= n {
                    self.selected = Some(n - 1);
                },
                None => {},
            }
        }
        let ghost old_f = self.filtered_indices@;
        let ghost keep = |i: usize| i < n;
        let mut f: Vec<usize> = Vec::new();
        let m = self.filtered_indices.len();
        for j in 0..m
            invariant
                m == old_f.len(),
                old_f == self.filtered_indices@,
                keep == (|i: usize| i < n),
                f@ == old_f.take(j as int).filter(keep),
                forall|k: int| 0 <= k < f@.len() ==> #[trigger] f@[k] < n,
        {
            proof {
                old_f.take(j as int).lemma_filter_push(old_f[j as int], keep);
                assert(old_f.take(j + 1) =~= old_f.take(j as int).push(old_f[j as int]));
            }
            let x = self.filtered_indices[j];
            if x < n {
                f.push(x);
            }
        }
        assert(old_f.take(m as int) =~= old_f);
        self.filtered_indices = f;
    }

    /// Replaces the registry with a freshly loaded one and reloads the entries.
    pub fn reload_entries(&mut self, registry: Registry)
        requires
            app_wf(old(self)@),
        ensures
            final(self)@ == reloaded(old(self)@, registry@, registry.spec_path()),
            app_wf(final(self)@),
    {
        self.registry = registry;
        self.refresh();
    }

    /// Takes the outcome of unlocking the vault.
    pub fn unlock_finished(&mut self, result: Result<(), String>)
        requires
            app_wf(old(self)@),
        ensures
            final(self)@ == match result {
                Ok(()) => after_unlock(old(self)@, true, Seq::empty()),
                Err(e) => after_unlock(old(self)@, false, e@),
            },
            app_wf(final(self)@),
    {
        match result {
            Ok(()) => {
                self.file_unlocked = true;
                self.unlock_error = None;
                self.screen = Screen::List;
            },
            Err(e) => {
                self.unlock_error = Some(String::from_str("Wrong password: ").concat(e.as_str()));
            },
        }
    }

    /// Takes the outcome of storing the add form's secret; on success the
    /// registry gets a record for it made at time `now`.
    pub fn store_finished(&mut self, result: Result<(), String>, now: i64)
        requires
            app_wf(old(self)@),
        ensures
            final(self)@ == match result {
                Ok(()) => after_store(old(self)@, true, Seq::empty(), now),
                Err(e) => after_store(old(self)@, false, e@, now),
            },
            app_wf(final(self)@),
    {
        match result {
            Ok(()) => {
                let mut meta = TokenMeta::new_at(self.add_service.as_str(), self.add_key.as_str(), self.add_backend, now);
                if !self.add_label.as_str().is_empty() {
                    meta.label = Some(self.add_label.clone());
                }
                assert(meta@ == added_meta(old(self)@, now));
                self.registry.upsert(meta);
                self.refresh();
                let msg = String::from_str("Added ").concat(self.add_service.as_str()).concat(":").concat(
                    self.add_key.as_str(),
                );
                self.status_message = Some(msg);
                self.screen = Screen::List;
            },
            Err(e) => {
                self.status_message = Some(String::from_str("Error: ").concat(e.as_str()));
            },
        }
    }

    /// Takes the outcome of deleting the secret of `service:key`; on success
    /// its records leave the registry.
    pub fn delete_finished(&mut self, service: &str, key: &str, result: Result<(), String>)
        requires
            app_wf(old(self)@),
        ensures
            final(self)@ == match result {
                Ok(()) => after_delete(old(self)@, service@, key@, true, Seq::empty()),
                Err(e) => after_delete(old(self)@, service@, key@, false, e@),
            },
            app_wf(final(self)@),
    {
        match result {
            Ok(()) => {
                self.registry.remove(service, key);
                self.refresh();
                let msg = String::from_str("Deleted ").concat(service).concat(":").concat(key);
                self.status_message = Some(msg);
            },
            Err(e) => {
                self.status_message = Some(String::from_str("Delete failed: ").concat(e.as_str()));
            },
        }
    }

    /// Takes the secret read for display, or the reason it could not be read.
    pub fn secret_loaded(&mut self, result: Result<String, String>)
        requires
            app_wf(old(self)@),
        ensures
            final(self)@ == after_secret(old(self)@, match result {
                Ok(v) => Ok(v@),
                Err(e) => Err(e@),
            }),
            app_wf(final(self)@),
    {
        match result {
            Ok(v) => {
                self.secret_cache = Some(v);
            },
            Err(e) => {
                self.status_message = Some(String::from_str("Failed to read secret: ").concat(e.as_str()));
            },
        }
    }

    /// Takes the reason a secret to copy could not be read.
    pub fn read_failed(&mut self, error: &str)
        requires
            app_wf(old(self)@),
        ensures
            final(self)@ == after_read_failed(old(self)@, error@),
            app_wf(final(self)@),
    {
        self.status_message = Some(String::from_str("Failed to read: ").concat(error));
    }

    /// Takes the outcome of a clipboard copy made at time `now` under `label`.
    pub fn clipboard_finished(&mut self, outcome: ClipOutcome, label: &str, now: i64)
        requires
            app_wf(old(self)@),
            now <= i64::MAX - 30000,
        ensures
            final(self)@ == after_clipboard(old(self)@, outcome, label@, now),
            app_wf(final(self)@),
    {
        match outcome {
            ClipOutcome::Copied => {
                let message = String::from_str("Copied ").concat(label).concat(" to clipboard");
                self.clip_status = Some(ClipStatus { message, expires: now + 30000 });
            },
            ClipOutcome::SetFailed => {
                self.status_message = Some(String::from_str("Failed to copy to clipboard"));
            },
            ClipOutcome::Unavailable => {
                self.status_message = Some(String::from_str("Clipboard not available"));
            },
        }
    }

    /// Clears the clipboard status once it has expired at time `now`.
    pub fn tick(&mut self, now: i64)
        requires
            app_wf(old(self)@),
        ensures
            final(self)@ == after_tick(old(self)@, now),
            app_wf(final(self)@),
    {
        let expired = match &self.clip_status {
            Some(clip) => now > clip.expires,
            None => false,
        };
        if expired {
            self.clip_status = None;
        }
    }
}

/// The registry keeps metadata only: what it holds after a token is stored
/// does not depend on the token's secret.
pub proof fn law_registry_ignores_secret(a: AppView, secret: Seq<char>, err: Seq<char>, now: i64)
    ensures
        after_store((AppView { add_value: secret, ..a }), true, err, now).registry == after_store(
            a,
            true,
            err,
            now,
        ).registry,
{
    assert(added_meta((AppView { add_value: secret, ..a }), now) == added_meta(a, now));
}

/// On the list, moving down and then up gives back the state, the selection
/// included, wrapping around at either end.
pub proof fn law_list_down_then_up(a: AppView, down: KeyInput, up: KeyInput)
    requires
        app_wf(a),
        a.screen == Screen::List,
        a.selected matches Some(i) && i < visible(a).len(),
        visible(a).len() <= usize::MAX,
        down.code == Key::Char('j') || down.code == Key::Down,
        up.code == Key::Char('k') || up.code == Key::Up,
    ensures
        key_step(key_step(a, down).app, up).app == a,
        key_step(a, down).redraw && key_step(key_step(a, down).app, up).redraw,
{
    let len = visible(a).len();
    let i = a.selected->0;
    if i + 1 < len {
        vstd::arithmetic::div_mod::lemma_small_mod((i + 1) as nat, len);
    } else {
        assert((i + 1) % (len as int) == 0) by (nonlinear_arith)
            requires
                i + 1 == len,
                len > 0,
        ;
    }
    let b = key_step(a, down).app;
    assert(!is_quit_key(down));
    assert(key_step(a, down) == move_down(a, len));
    assert(b == AppView { selected: Some(((i + 1) % (len as int)) as usize), ..a });
    assert(visible(b) =~= visible(a));
    assert(!is_quit_key(up));
    assert(key_step(b, up) == move_up(b, len));
    assert(key_step(b, up).app.selected == Some(i));
    assert(key_step(b, up).app =~~= a);
}

/// On the list, moving up and then down gives back the state, the selection
/// included, wrapping around at either end.
pub proof fn law_list_up_then_down(a: AppView, up: KeyInput, down: KeyInput)
    requires
        app_wf(a),
        a.screen == Screen::List,
        a.selected matches Some(i) && i < visible(a).len(),
        visible(a).len() <= usize::MAX,
        down.code == Key::Char('j') || down.code == Key::Down,
        up.code == Key::Char('k') || up.code == Key::Up,
    ensures
        key_step(key_step(a, up).app, down).app == a,
        key_step(a, up).redraw && key_step(key_step(a, up).app, down).redraw,
{
    let len = visible(a).len();
    let i = a.selected->0;
    let j: int = if i == 0 { len - 1 } else { i - 1 };
    if j + 1 < len {
        vstd::arithmetic::div_mod::lemma_small_mod((j + 1) as nat, len);
    } else {
        assert((j + 1) % (len as int) == 0) by (nonlinear_arith)
            requires
                j + 1 == len,
                len > 0,
        ;
    }
    let b = key_step(a, up).app;
    assert(!is_quit_key(up));
    assert(key_step(a, up) == move_up(a, len));
    assert(b == AppView { selected: Some(j as usize), ..a });
    assert(visible(b) =~= visible(a));
    assert(!is_quit_key(down));
    assert(key_step(b, down) == move_down(b, len));
    assert(key_step(b, down).app.selected == Some(i));
    assert(key_step(b, down).app =~~= a);
}

/// On the add form, Tab and then BackTab give back the state: the focus
/// returns to the same field, one of the five.
pub proof fn law_add_tab_then_backtab(a: AppView, tab: KeyInput, back: KeyInput)
    requires
        a.screen == Screen::Add,
        a.add_field_idx < 5,
        tab.code == Key::Tab,
        back.code == Key::BackTab,
    ensures
        key_step(a, tab).app.add_field_idx < 5,
        key_step(key_step(a, tab).app, back).app == a,
{
}

/// On the add form, BackTab and then Tab give back the state.
pub proof fn law_add_backtab_then_tab(a: AppView, tab: KeyInput, back: KeyInput)
    requires
        a.screen == Screen::Add,
        a.add_field_idx < 5,
        tab.code == Key::Tab,
        back.code == Key::BackTab,
    ensures
        key_step(a, back).app.add_field_idx < 5,
        key_step(key_step(a, back).app, tab).app == a,
{
}

} // verus!
