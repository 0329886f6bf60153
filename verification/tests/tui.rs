use tkm::model::registry::Registry;
use tkm::model::token::{BackendType, TokenMeta};
use tkm::tui::app::{is_escape, is_quit, App, ClipOutcome, ConfirmAction, Effect, Key, KeyInput, Screen};
use tkm::tui::view::Tone;

fn key(code: Key) -> KeyInput {
    KeyInput { code, ctrl: false }
}

fn ch(c: char) -> KeyInput {
    key(Key::Char(c))
}

fn registry() -> Registry {
    let mut reg = Registry::new("/tmp/reg.toml");
    let mut a = TokenMeta::new_at("github", "token", BackendType::EncryptedFile, 0);
    a.tags = vec!["vcs".into()];
    reg.upsert(a);
    reg.upsert(TokenMeta::new_at("npm", "token", BackendType::Keychain, 0));
    reg.upsert(TokenMeta::new_at("docker-hub", "password", BackendType::EncryptedFile, 0));
    reg
}

#[test]
fn starts_locked_when_the_vault_exists() {
    let app = App::new(registry(), true);
    assert_eq!(app.screen, Screen::Unlock);
    assert!(!app.file_unlocked);
    assert_eq!(app.selected, Some(0));
    assert_eq!(app.add_key, "token");
    let open = App::new(Registry::new("r"), false);
    assert_eq!(open.screen, Screen::List);
    assert_eq!(open.selected, None);
}

#[test]
fn quit_keys() {
    assert!(is_quit(&KeyInput { code: Key::Char('c'), ctrl: true }));
    assert!(!is_quit(&ch('c')));
    assert!(is_escape(&key(Key::Esc)));
    let mut app = App::new(registry(), false);
    let out = app.handle_key(KeyInput { code: Key::Char('c'), ctrl: true });
    assert!(out.redraw);
    assert!(app.should_quit);
}

#[test]
fn unlock_screen_collects_the_password() {
    let mut app = App::new(registry(), true);
    app.handle_key(ch('p'));
    app.handle_key(ch('w'));
    app.handle_key(ch('x'));
    app.handle_key(key(Key::Backspace));
    assert_eq!(app.password_input, "pw");
    assert_eq!(app.password_dots(), "●●");
    let out = app.handle_key(key(Key::Enter));
    match out.effect {
        Effect::Unlock { password } => assert_eq!(password, "pw"),
        _ => panic!("expected an unlock"),
    }
    assert_eq!(app.password_input, "");
    app.unlock_finished(Err("decryption failed".to_string()));
    assert_eq!(app.unlock_error.as_deref(), Some("Wrong password: decryption failed"));
    assert_eq!(app.screen, Screen::Unlock);
    app.unlock_finished(Ok(()));
    assert_eq!(app.screen, Screen::List);
    assert!(app.file_unlocked);
    assert_eq!(app.unlock_error, None);
}

#[test]
fn list_navigation_wraps() {
    let mut app = App::new(registry(), false);
    app.handle_key(key(Key::Up));
    assert_eq!(app.selected, Some(2));
    app.handle_key(ch('j'));
    assert_eq!(app.selected, Some(0));
    app.handle_key(key(Key::Down));
    assert_eq!(app.selected, Some(1));
    assert_eq!(app.selected_entry().unwrap().service, "npm");
    assert_eq!(app.selected_real_index(), Some(1));
    let out = app.handle_key(ch('z'));
    assert!(!out.redraw);
}

#[test]
fn list_opens_detail_and_copies() {
    let mut app = App::new(registry(), false);
    let out = app.handle_key(ch('c'));
    match out.effect {
        Effect::CopySecret { service, key, backend, label } => {
            assert_eq!(service, "github");
            assert_eq!(key, "token");
            assert_eq!(backend, BackendType::EncryptedFile);
            assert_eq!(label, "github");
        },
        _ => panic!("expected a copy"),
    }
    app.handle_key(key(Key::Enter));
    assert_eq!(app.screen, Screen::Detail(0));
    let out = app.handle_key(ch('v'));
    assert!(app.reveal_secret);
    match out.effect {
        Effect::LoadSecret { service, .. } => assert_eq!(service, "github"),
        _ => panic!("expected a load"),
    }
    app.secret_loaded(Ok("ghp_1".to_string()));
    assert_eq!(app.secret_cache.as_deref(), Some("ghp_1"));
    let out = app.handle_key(ch('c'));
    match out.effect {
        Effect::CopyValue { value, label } => {
            assert_eq!(value, "ghp_1");
            assert_eq!(label, "github");
        },
        _ => panic!("expected a copy of the cached value"),
    }
    app.handle_key(key(Key::Esc));
    assert_eq!(app.screen, Screen::List);
    assert!(!app.reveal_secret);
    assert_eq!(app.secret_cache, None);
}

#[test]
fn add_form_submits_a_store() {
    let mut app = App::new(registry(), false);
    app.handle_key(ch('a'));
    assert_eq!(app.screen, Screen::Add);
    let out = app.handle_key(KeyInput { code: Key::Enter, ctrl: true });
    assert!(matches!(out.effect, Effect::Nothing));
    assert_eq!(app.status_message.as_deref(), Some("Service name is required"));
    for c in "gitlab".chars() {
        app.handle_key(ch(c));
    }
    app.handle_key(key(Key::Tab));
    app.handle_key(key(Key::Tab));
    app.handle_key(KeyInput { code: Key::Enter, ctrl: true });
    assert_eq!(app.status_message.as_deref(), Some("Value is required"));
    for c in "glpat".chars() {
        app.handle_key(ch(c));
    }
    app.handle_key(key(Key::Tab));
    assert_eq!(app.add_field_idx, 3);
    app.handle_key(key(Key::Enter));
    assert_eq!(app.add_backend, BackendType::Keychain);
    app.handle_key(key(Key::BackTab));
    app.handle_key(key(Key::BackTab));
    app.handle_key(key(Key::BackTab));
    app.handle_key(key(Key::BackTab));
    app.handle_key(key(Key::BackTab));
    assert_eq!(app.add_field_idx, 3);
    app.handle_key(key(Key::Tab));
    app.handle_key(ch('L'));
    let out = app.handle_key(key(Key::Enter));
    match out.effect {
        Effect::Store { service, key, value, backend, label } => {
            assert_eq!(service, "gitlab");
            assert_eq!(key, "token");
            assert_eq!(value, "glpat");
            assert_eq!(backend, BackendType::Keychain);
            assert_eq!(label, "L");
        },
        _ => panic!("expected a store"),
    }
    assert_eq!(app.add_value, "");
    app.store_finished(Ok(()), 42);
    assert_eq!(app.screen, Screen::List);
    assert_eq!(app.status_message.as_deref(), Some("Added gitlab:token"));
    assert_eq!(app.entries.len(), 4);
    let added = app.registry.get_exact("gitlab", "token").unwrap();
    assert_eq!(added.label.as_deref(), Some("L"));
    assert_eq!(added.created_at, 42);
    assert_eq!(added.backend, BackendType::Keychain);
}

#[test]
fn failed_store_keeps_the_form() {
    let mut app = App::new(registry(), false);
    app.handle_key(ch('a'));
    app.store_finished(Err("keychain locked".to_string()), 1);
    assert_eq!(app.screen, Screen::Add);
    assert_eq!(app.status_message.as_deref(), Some("Error: keychain locked"));
    assert_eq!(app.entries.len(), 3);
}

#[test]
fn delete_asks_then_deletes() {
    let mut app = App::new(registry(), false);
    app.handle_key(ch('j'));
    app.handle_key(ch('d'));
    assert_eq!(app.screen, Screen::Confirm(ConfirmAction::Delete(1)));
    assert_eq!(app.confirm_message(ConfirmAction::Delete(1)), "Delete npm:token from keychain?");
    assert_eq!(app.confirm_message(ConfirmAction::Delete(9)), "Delete this entry?");
    let out = app.handle_key(ch('y'));
    match out.effect {
        Effect::Delete { service, key, backend } => {
            assert_eq!(service, "npm");
            assert_eq!(key, "token");
            assert_eq!(backend, BackendType::Keychain);
        },
        _ => panic!("expected a delete"),
    }
    assert_eq!(app.screen, Screen::List);
    app.delete_finished("npm", "token", Ok(()));
    assert_eq!(app.entries.len(), 2);
    assert_eq!(app.status_message.as_deref(), Some("Deleted npm:token"));
    app.delete_finished("x", "y", Err("gone".to_string()));
    assert_eq!(app.status_message.as_deref(), Some("Delete failed: gone"));
}

#[test]
fn deleting_the_last_row_moves_the_selection() {
    let mut app = App::new(registry(), false);
    app.handle_key(key(Key::Up));
    assert_eq!(app.selected, Some(2));
    app.delete_finished("docker-hub", "password", Ok(()));
    assert_eq!(app.selected, Some(1));
}

#[test]
fn search_filters_in_lowercase() {
    let mut app = App::new(registry(), false);
    app.handle_key(ch('/'));
    assert_eq!(app.screen, Screen::Search);
    assert_eq!(app.filtered_indices, vec![0, 1, 2]);
    app.handle_key(ch('V'));
    app.handle_key(ch('C'));
    assert_eq!(app.search_query, "VC");
    assert_eq!(app.filtered_indices, vec![0]);
    assert_eq!(app.list_title(), " tkm — 1 results ");
    app.handle_key(key(Key::Backspace));
    app.handle_key(key(Key::Backspace));
    app.handle_key(ch('p'));
    assert_eq!(app.filtered_indices, vec![1, 2]);
    app.handle_key(key(Key::Down));
    assert_eq!(app.selected, Some(1));
    assert_eq!(app.selected_entry().unwrap().service, "docker-hub");
    app.handle_key(ch('q'));
    assert_eq!(app.filtered_indices, Vec::<usize>::new());
    assert_eq!(app.selected, None);
    app.handle_key(key(Key::Esc));
    assert_eq!(app.screen, Screen::List);
    assert_eq!(app.search_query, "");
    assert_eq!(app.selected, Some(0));
    assert_eq!(app.list_title(), " tkm — 3 tokens ");
}

#[test]
fn clipboard_status_expires() {
    let mut app = App::new(registry(), false);
    app.clipboard_finished(ClipOutcome::Copied, "github", 1_000);
    let status = app.list_status(2_500);
    assert_eq!(status.len(), 1);
    assert_eq!(status[0].text, " Copied github to clipboard (28s) ");
    assert_eq!(status[0].tone, Tone::Success);
    app.tick(31_000);
    assert!(app.clip_status.is_some());
    app.tick(31_001);
    assert!(app.clip_status.is_none());
    app.clipboard_finished(ClipOutcome::Unavailable, "x", 0);
    assert_eq!(app.status_message.as_deref(), Some("Clipboard not available"));
    app.clipboard_finished(ClipOutcome::SetFailed, "x", 0);
    assert_eq!(app.status_message.as_deref(), Some("Failed to copy to clipboard"));
    app.read_failed("locked");
    assert_eq!(app.status_message.as_deref(), Some("Failed to read: locked"));
}

#[test]
fn list_hints_and_rows() {
    let app = App::new(registry(), false);
    let status = app.list_status(0);
    let texts: Vec<&str> = status.iter().map(|p| p.text.as_str()).collect();
    assert_eq!(
        texts,
        vec!["[a]", " add", " ", "[d]", " delete", " ", "[c]", " copy", " ", "[Enter]", " detail", " ", "[/]", " search", " ", "[q]", " quit"]
    );
    assert_eq!(app.search_bar(), "/");
    let mut m = TokenMeta::new_at("svc", "k", BackendType::Keychain, 0);
    let cells = tkm::tui::view::row_cells_of(&m, 0);
    assert_eq!(cells[3].text, "—");
    m.expires_at = Some(0);
    let cells = tkm::tui::view::row_cells_of(&m, 5);
    assert_eq!(cells[3].text, "1970-01-01 !");
    assert_eq!(cells[3].tone, Tone::Error);
    assert_eq!(cells[2].text, "keychain");
}

#[test]
fn detail_and_add_screens() {
    let mut app = App::new(registry(), false);
    let lines = app.detail_lines(0);
    let texts: Vec<String> = lines.iter().map(|l| l.iter().map(|p| p.text.clone()).collect::<String>()).collect();
    assert_eq!(texts[0], "");
    assert_eq!(texts[1], "  Service:    github");
    assert_eq!(texts[4], "  Tags:       vcs");
    assert_eq!(texts[5], "  Created:    1970-01-01 00:00");
    assert_eq!(texts[7], "  Expires:    never");
    assert_eq!(texts[9], "  Value:      ●●●●●●●●●●●●  [v] reveal");
    let status: String = app.detail_status(0).iter().map(|p| p.text.clone()).collect();
    assert_eq!(status, "[v] reveal  [c] copy  [Esc] back");
    app.handle_key(ch('a'));
    for c in "s".chars() {
        app.handle_key(ch(c));
    }
    app.handle_key(key(Key::Tab));
    app.handle_key(key(Key::Tab));
    app.handle_key(ch('x'));
    app.handle_key(ch('é'));
    let form = app.add_lines();
    assert_eq!(form.len(), 11);
    let value_line: String = form[5].iter().map(|p| p.text.clone()).collect();
    assert_eq!(value_line, "▶ Value     ●●●▎");
    let backend_line: String = form[7].iter().map(|p| p.text.clone()).collect();
    assert_eq!(backend_line, "  Backend   keychain / [file]");
    let add_status: String = app.add_status().iter().map(|p| p.text.clone()).collect();
    assert_eq!(add_status, "[Tab] next field  [Ctrl+Enter] save  [Esc] cancel");
}

#[test]
fn reload_keeps_the_selection_inside_the_list() {
    let mut app = App::new(registry(), false);
    app.handle_key(key(Key::Up));
    let mut small = Registry::new("/tmp/other.toml");
    small.upsert(TokenMeta::new_at("only", "token", BackendType::Keychain, 0));
    app.reload_entries(small);
    assert_eq!(app.entries.len(), 1);
    assert_eq!(app.selected, Some(0));
    assert_eq!(app.registry.path(), "/tmp/other.toml");
    app.reload_entries(Registry::new("/tmp/empty.toml"));
    assert_eq!(app.selected, None);
}

#[test]
fn down_then_up_restores_the_selection() {
    let mut app = App::new(registry(), false);
    for start in 0..3usize {
        while app.selected != Some(start) {
            app.handle_key(key(Key::Down));
        }
        app.handle_key(ch('j'));
        app.handle_key(ch('k'));
        assert_eq!(app.selected, Some(start));
        app.handle_key(key(Key::Up));
        app.handle_key(key(Key::Down));
        assert_eq!(app.selected, Some(start));
    }
}

#[test]
fn tab_then_backtab_restores_the_field() {
    let mut app = App::new(registry(), false);
    app.handle_key(ch('a'));
    for _ in 0..5 {
        let i = app.add_field_idx;
        app.handle_key(key(Key::Tab));
        assert!(app.add_field_idx < 5);
        app.handle_key(key(Key::BackTab));
        assert_eq!(app.add_field_idx, i);
        app.handle_key(key(Key::BackTab));
        app.handle_key(key(Key::Tab));
        assert_eq!(app.add_field_idx, i);
        app.handle_key(key(Key::Tab));
    }
}
