//! What the command-line commands decide and print: paths, backend names,
//! the metadata `set` records, the `list` table, the `env` exports and the
//! bookkeeping of `import`. Prompts, files and the keychain are the caller's.
use vstd::prelude::*;
use crate::model::token::{
    BackendType, TokenMeta, TokenMetaView, backend_display, expired_at, fresh_meta, utc_text, in_calendar,
    date_text, copy_opt, copy_strings,
};
use crate::model::registry::{Registry, meta_is, service_is, registry_upsert};
use crate::model::lookup::find_first;
use crate::text::{
    str_eq, path_join, join_path, pad_right, pad, repeat_char, repeat_string, uppercase, to_uppercase, push_char,
    chars_of, decimal, decimal_string,
};

verus! {

/// The directory tkm keeps its files in: `.tkm` in the home directory.
pub fn tkm_dir(home: &str) -> (r: String)
    ensures
        r@ == path_join(home@, ".tkm"@),
{
    join_path(home, ".tkm")
}

/// The registry file: `registry.toml` in tkm's directory.
pub fn registry_path(tkm_dir: &str) -> (r: String)
    ensures
        r@ == path_join(tkm_dir@, "registry.toml"@),
{
    join_path(tkm_dir, "registry.toml")
}

/// The record `get` and `rm` work on: the registry's record for
/// `service:key`, or the error that none is registered.
pub fn registered<'a>(registry: &'a Registry, service: &str, key: &str) -> (r: Result<&'a TokenMeta, String>)
    ensures
        match r {
            Ok(m) => find_first(registry@, meta_is(service@, key@)) == Some(m@),
            Err(e) => find_first(registry@, meta_is(service@, key@)) is None && e@ == "no token registered for "@
                + service@ + ":"@ + key@,
        },
{
    match registry.get_exact(service, key) {
        Some(m) => Ok(m),
        None => Err(String::from_str("no token registered for ").concat(service).concat(":").concat(key)),
    }
}

/// The backend a name on the command line stands for.
pub open spec fn backend_named(s: Seq<char>) -> Option<BackendType> {
    if s == "keychain"@ || s == "kc"@ {
        Some(BackendType::Keychain)
    } else if s == "file"@ || s == "encrypted_file"@ || s == "ef"@ {
        Some(BackendType::EncryptedFile)
    } else {
        None
    }
}

/// The error for a backend name that stands for none.
pub open spec fn unknown_backend_text(s: Seq<char>) -> Seq<char> {
    "unknown backend: "@ + s + " (use 'keychain' or 'file')"@
}

/// Reads a backend name: `keychain` or `kc`; `file`, `encrypted_file` or `ef`.
pub fn parse_backend_type(s: &str) -> (r: Result<BackendType, String>)
    ensures
        match r {
            Ok(b) => backend_named(s@) == Some(b),
            Err(m) => backend_named(s@) is None && m@ == unknown_backend_text(s@),
        },
{
    if str_eq(s, "keychain") || str_eq(s, "kc") {
        Ok(BackendType::Keychain)
    } else if str_eq(s, "file") || str_eq(s, "encrypted_file") || str_eq(s, "ef") {
        Ok(BackendType::EncryptedFile)
    } else {
        Err(String::from_str("unknown backend: ").concat(s).concat(" (use 'keychain' or 'file')"))
    }
}

/// A password typed at a prompt: refused when empty.
pub fn check_password(password: String) -> (r: Result<String, String>)
    ensures
        password@.len() > 0 ==> (r matches Ok(p) && p@ == password@),
        password@.len() == 0 ==> (r matches Err(m) && m@ == "password cannot be empty"@),
{
    if password.as_str().unicode_len() == 0 {
        Err(String::from_str("password cannot be empty"))
    } else {
        Ok(password)
    }
}

/// A new password and its confirmation: refused when they differ.
pub fn check_confirmation(password: &str, confirm: &str) -> (r: Result<(), String>)
    ensures
        password@ == confirm@ ==> r is Ok,
        password@ != confirm@ ==> (r matches Err(m) && m@ == "passwords do not match"@),
{
    if str_eq(password, confirm) {
        Ok(())
    } else {
        Err(String::from_str("passwords do not match"))
    }
}

/// The text with each single quote written as `'\''`.
pub open spec fn escape_quotes(s: Seq<char>) -> Seq<char>
    decreases s.len(),
{
    if s.len() == 0 {
        Seq::empty()
    } else {
        escape_quotes(s.drop_last()) + if s.last() == '\'' {
            seq!['\'', '\\', '\'', '\'']
        } else {
            seq![s.last()]
        }
    }
}

/// The text quoted for a POSIX shell: in single quotes, each single quote
/// closing the quotes, escaped, and reopening them.
pub open spec fn shell_quoted(s: Seq<char>) -> Seq<char> {
    seq!['\''] + escape_quotes(s) + seq!['\'']
}

/// Where a POSIX shell reader stands: outside quotes, inside single quotes,
/// or right after a backslash outside quotes.
#[derive(PartialEq, Eq, Structural)]
pub enum QuoteMode {
    Bare,
    Quoted,
    Escaped,
}

/// One character read by a POSIX shell, for words made of single-quoted
/// parts and backslash escapes: the text read so far and where the reader
/// stands.
pub open spec fn shell_step(st: (Seq<char>, QuoteMode), c: char) -> (Seq<char>, QuoteMode) {
    let (out, mode) = st;
    match mode {
        QuoteMode::Bare => if c == '\'' {
            (out, QuoteMode::Quoted)
        } else if c == '\\' {
            (out, QuoteMode::Escaped)
        } else {
            (out.push(c), QuoteMode::Bare)
        },
        QuoteMode::Quoted => if c == '\'' {
            (out, QuoteMode::Bare)
        } else {
            (out.push(c), QuoteMode::Quoted)
        },
        QuoteMode::Escaped => (out.push(c), QuoteMode::Bare),
    }
}

/// The reader's state after reading a word from its start.
pub open spec fn shell_scan(t: Seq<char>) -> (Seq<char>, QuoteMode)
    decreases t.len(),
{
    if t.len() == 0 {
        (Seq::empty(), QuoteMode::Bare)
    } else {
        shell_step(shell_scan(t.drop_last()), t.last())
    }
}

/// The value a POSIX shell reads from a word, when the word is complete
/// (no quote left open, no backslash left dangling).
pub open spec fn shell_value(t: Seq<char>) -> Option<Seq<char>> {
    let (out, mode) = shell_scan(t);
    if mode == QuoteMode::Bare {
        Some(out)
    } else {
        None
    }
}

proof fn lemma_scan_quoted_body(s: Seq<char>)
    ensures
        shell_scan(seq!['\''] + escape_quotes(s)) == (s, QuoteMode::Quoted),
    decreases s.len(),
{
    if s.len() == 0 {
        assert(seq!['\''] + escape_quotes(s) =~= seq!['\'']);
        assert(seq!['\''].drop_last() =~= Seq::<char>::empty());
        assert(shell_scan(seq!['\'']) == shell_step(shell_scan(Seq::<char>::empty()), '\''));
        assert(s =~= Seq::<char>::empty());
    } else {
        let w = s.drop_last();
        let c = s.last();
        lemma_scan_quoted_body(w);
        let a = seq!['\''] + escape_quotes(w);
        assert(w.push(c) =~= s);
        if c == '\'' {
            let t1 = a.push('\'');
            let t2 = t1.push('\\');
            let t3 = t2.push('\'');
            let t4 = t3.push('\'');
            assert(seq!['\''] + escape_quotes(s) =~= t4);
            assert(t1.drop_last() =~= a);
            assert(t2.drop_last() =~= t1);
            assert(t3.drop_last() =~= t2);
            assert(t4.drop_last() =~= t3);
            assert(shell_scan(t1) == (w, QuoteMode::Bare));
            assert(shell_scan(t2) == (w, QuoteMode::Escaped));
            assert(shell_scan(t3) == (w.push('\''), QuoteMode::Bare));
            assert(shell_scan(t4) == (w.push('\''), QuoteMode::Quoted));
        } else {
            let t = a.push(c);
            assert(seq!['\''] + escape_quotes(s) =~= t);
            assert(t.drop_last() =~= a);
            assert(shell_scan(t) == (w.push(c), QuoteMode::Quoted));
        }
    }
}

/// A quoted value reads back, in a POSIX shell, as exactly the value.
pub proof fn law_shell_quoted_reads_back(s: Seq<char>)
    ensures
        shell_value(shell_quoted(s)) == Some(s),
{
    lemma_scan_quoted_body(s);
    let a = seq!['\''] + escape_quotes(s);
    assert(shell_quoted(s) =~= a.push('\''));
    assert(a.push('\'').drop_last() =~= a);
}

/// Quotes a value for a POSIX shell (see `shell_quoted`).
pub fn shell_escape(s: &str) -> (r: String)
    ensures
        r@ == shell_quoted(s@),
{
    let c = chars_of(s);
    let mut body = String::new();
    for i in 0..c.len()
        invariant
            c@ == s@,
            body@ == escape_quotes(s@.take(i as int)),
    {
        assert(s@.take(i + 1).drop_last() =~= s@.take(i as int));
        if c[i] == '\'' {
            push_char(&mut body, '\'');
            push_char(&mut body, '\\');
            push_char(&mut body, '\'');
            push_char(&mut body, '\'');
        } else {
            push_char(&mut body, c[i]);
        }
        assert(body@ =~= escape_quotes(s@.take(i + 1)));
    }
    assert(s@.take(c.len() as int) =~= s@);
    let mut r = String::new();
    push_char(&mut r, '\'');
    r.append(body.as_str());
    push_char(&mut r, '\'');
    assert(r@ =~= shell_quoted(s@));
    r
}

/// The text with each `-` turned into `_`.
pub open spec fn dashes_to_underscores(s: Seq<char>) -> Seq<char> {
    Seq::new(s.len(), |i: int| if s[i] == '-' { '_' } else { s[i] })
}

/// The environment variable for `service:key`: `SERVICE_KEY` in upper case,
/// with dashes as underscores.
pub open spec fn env_var(service: Seq<char>, key: Seq<char>) -> Seq<char> {
    dashes_to_underscores(uppercase(service + "_"@ + key))
}

/// The environment variable for `service:key` (see `env_var`).
pub fn env_var_name(service: &str, key: &str) -> (r: String)
    ensures
        r@ == env_var(service@, key@),
{
    let joined = String::from_str(service).concat("_").concat(key);
    let up = to_uppercase(joined.as_str());
    let c = chars_of(up.as_str());
    let mut r = String::new();
    for i in 0..c.len()
        invariant
            c@ == uppercase(joined@),
            joined@ == service@ + "_"@ + key@,
            r@ == dashes_to_underscores(c@).take(i as int),
    {
        if c[i] == '-' {
            push_char(&mut r, '_');
        } else {
            push_char(&mut r, c[i]);
        }
        assert(r@ =~= dashes_to_underscores(c@).take(i + 1));
    }
    assert(dashes_to_underscores(c@).take(c.len() as int) =~= dashes_to_underscores(c@));
    r
}

/// The statement `env` prints for a secret: `export NAME='value'`.
pub open spec fn export_statement(service: Seq<char>, key: Seq<char>, value: Seq<char>) -> Seq<char> {
    "export "@ + env_var(service, key) + "="@ + shell_quoted(value)
}

/// The statement `env` prints for the secret of `service:key`.
pub fn export_line(service: &str, key: &str, value: &str) -> (r: String)
    ensures
        r@ == export_statement(service@, key@, value@),
{
    String::from_str("export ").concat(env_var_name(service, key).as_str()).concat("=").concat(
        shell_escape(value).as_str(),
    )
}

/// An optional string as a plain value.
pub open spec fn opt_view(o: Option<&str>) -> Option<Seq<char>> {
    match o {
        Some(s) => Some(s@),
        None => None,
    }
}

/// The record `set` writes for `service:key` at time `now`: the given label,
/// username and URL; when the registry already holds the pair, its creation
/// time is kept, and so are its label, username, URL and tags where none is
/// given.
pub open spec fn set_record(
    service: Seq<char>,
    key: Seq<char>,
    backend: BackendType,
    label: Option<Seq<char>>,
    username: Option<Seq<char>>,
    url: Option<Seq<char>>,
    now: i64,
    existing: Option<TokenMetaView>,
) -> TokenMetaView {
    let m = TokenMetaView { label, username, url, ..fresh_meta(service, key, backend, now) };
    match existing {
        None => m,
        Some(e) => TokenMetaView {
            created_at: e.created_at,
            label: if label is None { e.label } else { label },
            username: if username is None { e.username } else { username },
            url: if url is None { e.url } else { url },
            tags: e.tags,
            ..m
        },
    }
}

/// The record `set` writes, given the registry's record for the pair, if any.
pub fn set_meta(
    service: &str,
    key: &str,
    backend: BackendType,
    label: Option<String>,
    username: Option<String>,
    url: Option<String>,
    now: i64,
    existing: Option<&TokenMeta>,
) -> (r: TokenMeta)
    ensures
        r@ == set_record(
            service@,
            key@,
            backend,
            label.deep_view(),
            username.deep_view(),
            url.deep_view(),
            now,
            match existing { Some(e) => Some(e@), None => None },
        ),
{
    let mut meta = TokenMeta::new_at(service, key, backend, now);
    meta.label = label;
    meta.username = username;
    meta.url = url;
    match existing {
        Some(e) => {
            meta.created_at = e.created_at;
            if meta.label.is_none() {
                meta.label = copy_opt(&e.label);
            }
            if meta.username.is_none() {
                meta.username = copy_opt(&e.username);
            }
            if meta.url.is_none() {
                meta.url = copy_opt(&e.url);
            }
            if meta.tags.len() == 0 {
                meta.tags = copy_strings(&e.tags);
            }
        },
        None => {},
    }
    let ghost want = set_record(
        service@,
        key@,
        backend,
        label.deep_view(),
        username.deep_view(),
        url.deep_view(),
        now,
        match existing { Some(e) => Some(e@), None => None },
    );
    assert(meta@.service == want.service);
    assert(meta@.label == want.label);
    assert(meta@.username == want.username);
    assert(meta@.url == want.url);
    assert(meta@.tags =~= want.tags);
    assert(meta@.created_at == want.created_at);
    meta
}

/// An environment variable name holds no dash.
pub proof fn law_env_var_has_no_dash(service: Seq<char>, key: Seq<char>)
    ensures
        !env_var(service, key).contains('-'),
{
    let v = env_var(service, key);
    if v.contains('-') {
        let i = choose|i: int| 0 <= i < v.len() && v[i] == '-';
        assert(v[i] == '-');
    }
}

/// Setting a registered `service:key` again keeps its creation time, and its
/// tags.
pub proof fn law_set_keeps_created(
    service: Seq<char>,
    key: Seq<char>,
    backend: BackendType,
    label: Option<Seq<char>>,
    username: Option<Seq<char>>,
    url: Option<Seq<char>>,
    now: i64,
    existing: TokenMetaView,
)
    ensures
        set_record(service, key, backend, label, username, url, now, Some(existing)).created_at == existing.created_at,
        set_record(service, key, backend, label, username, url, now, Some(existing)).tags == existing.tags,
        set_record(service, key, backend, label, username, url, now, Some(existing)).updated_at == now,
{
}

/// What `set` is given on the command line wins: a label, username or URL
/// that is given is the one recorded, whatever the registry held; one that is
/// not given is taken over from the registered record, if any, and is absent
/// otherwise. The record is for the given `service:key` and backend, updated
/// at `now`.
pub proof fn law_set_given_fields_replace(
    service: Seq<char>,
    key: Seq<char>,
    backend: BackendType,
    label: Option<Seq<char>>,
    username: Option<Seq<char>>,
    url: Option<Seq<char>>,
    now: i64,
    existing: Option<TokenMetaView>,
)
    ensures
        ({
            let r = set_record(service, key, backend, label, username, url, now, existing);
            &&& r.service == service
            &&& r.key == key
            &&& r.backend == backend
            &&& r.updated_at == now
            &&& (label matches Some(l) ==> r.label == Some(l))
            &&& (username matches Some(u) ==> r.username == Some(u))
            &&& (url matches Some(u) ==> r.url == Some(u))
            &&& (label is None ==> r.label == (match existing {
                Some(e) => e.label,
                None => None,
            }))
            &&& (username is None ==> r.username == (match existing {
                Some(e) => e.username,
                None => None,
            }))
            &&& (url is None ==> r.url == (match existing {
                Some(e) => e.url,
                None => None,
            }))
            &&& (existing is None ==> r.created_at == now && r.tags.len() == 0)
        }),
{
}

/// `list` shows a record: it carries the tag asked for, if any, and has
/// expired by `now` when only expired records are asked for.
pub open spec fn list_keeps(m: TokenMetaView, tag: Option<Seq<char>>, expired_only: bool, now: i64) -> bool {
    &&& (tag matches Some(t) ==> m.tags.contains(t))
    &&& (expired_only ==> expired_at(m, now))
}

/// Whether `tags` holds `tag`.
fn has_tag(tags: &Vec<String>, tag: &str) -> (r: bool)
    ensures
        r == tags.deep_view().contains(tag@),
{
    let mut i: usize = 0;
    while i < tags.len()
        invariant
            i <= tags.len(),
            forall|j: int| 0 <= j < i ==> tags.deep_view()[j] != tag@,
        decreases tags.len() - i,
    {
        if str_eq(tags[i].as_str(), tag) {
            assert(tags.deep_view()[i as int] == tag@);
            return true;
        }
        i = i + 1;
    }
    false
}

/// The records `list` shows, in order.
pub fn list_filter<'a>(entries: &'a [TokenMeta], tag: Option<&str>, expired_only: bool, now: i64) -> (r: Vec<
    &'a TokenMeta,
>)
    ensures
        r@.map_values(|m: &TokenMeta| m@) == entries@.map_values(|m: TokenMeta| m@).filter(
            |m: TokenMetaView| list_keeps(m, opt_view(tag), expired_only, now),
        ),
{
    let ghost all = entries@.map_values(|m: TokenMeta| m@);
    let ghost keep = |m: TokenMetaView| list_keeps(m, opt_view(tag), expired_only, now);
    let mut r: Vec<&TokenMeta> = Vec::new();
    for i in 0..entries.len()
        invariant
            all == entries@.map_values(|m: TokenMeta| m@),
            keep == (|m: TokenMetaView| list_keeps(m, opt_view(tag), expired_only, now)),
            r@.map_values(|m: &TokenMeta| m@) == all.take(i as int).filter(keep),
    {
        let e = &entries[i];
        proof {
            all.take(i as int).lemma_filter_push(all[i as int], keep);
            assert(all.take(i + 1) =~= all.take(i as int).push(all[i as int]));
        }
        let tag_ok = match tag {
            Some(t) => has_tag(&e.tags, t),
            None => true,
        };
        let time_ok = !expired_only || e.is_expired_at(now);
        if tag_ok && time_ok {
            r.push(e);
            assert(r@.map_values(|m: &TokenMeta| m@) =~= all.take(i as int).filter(keep).push(all[i as int]));
        }
    }
    assert(all.take(entries.len() as int) =~= all);
    r
}

/// The `list` table's expiry column: the date, or `never`.
pub open spec fn list_expires(m: TokenMetaView) -> Seq<char> {
    match m.expires_at {
        Some(e) => utc_text(e, false),
        None => "never"@,
    }
}

/// A row of the `list` table: service, key, backend and expiry in columns of
/// 20, 12, 12 and 12 characters, then the label.
pub open spec fn table_row(
    service: Seq<char>,
    key: Seq<char>,
    backend: Seq<char>,
    expires: Seq<char>,
    label: Seq<char>,
) -> Seq<char> {
    pad_right(service, 20) + " "@ + pad_right(key, 12) + " "@ + pad_right(backend, 12) + " "@ + pad_right(expires, 12)
        + " "@ + label
}

/// The row `list` prints for a record.
pub open spec fn list_row(m: TokenMetaView) -> Seq<char> {
    table_row(
        m.service,
        m.key,
        backend_display(m.backend),
        list_expires(m),
        match m.label {
            Some(l) => l,
            None => Seq::empty(),
        },
    )
}

/// The header row of the `list` table.
pub fn list_header() -> (r: String)
    ensures
        r@ == table_row("SERVICE"@, "KEY"@, "BACKEND"@, "EXPIRES"@, "LABEL"@),
{
    pad("SERVICE", 20).concat(" ").concat(pad("KEY", 12).as_str()).concat(" ").concat(pad("BACKEND", 12).as_str()).concat(
        " ",
    ).concat(pad("EXPIRES", 12).as_str()).concat(" ").concat("LABEL")
}

/// The rule under the header of the `list` table: 72 dashes.
pub fn list_rule() -> (r: String)
    ensures
        r@ == repeat_char('-', 72),
{
    repeat_string('-', 72)
}

/// The row `list` prints for a record.
pub fn list_line(m: &TokenMeta) -> (r: String)
    requires
        m@.expires_at matches Some(e) ==> in_calendar(e),
    ensures
        r@ == list_row(m@),
{
    let expires = match m.expires_at {
        Some(e) => date_text(e, false),
        None => String::from_str("never"),
    };
    let label = match &m.label {
        Some(l) => l.clone(),
        None => String::new(),
    };
    pad(m.service.as_str(), 20).concat(" ").concat(pad(m.key.as_str(), 12).as_str()).concat(" ").concat(
        pad(m.backend.display_name().as_str(), 12).as_str(),
    ).concat(" ").concat(pad(expires.as_str(), 12).as_str()).concat(" ").concat(label.as_str())
}

/// What `env` works on for the services asked for: the registry's first
/// record of each, split into those in the encrypted file and those in the
/// keychain, each in the order asked; or the error for the first service the
/// registry does not hold, or for an empty request.
pub open spec fn env_plan_of(reg: Seq<TokenMetaView>, services: Seq<Seq<char>>) -> Result<
    (Seq<TokenMetaView>, Seq<TokenMetaView>),
    Seq<char>,
> {
    if services.len() == 0 {
        Err("specify at least one service: tkm env github nexus-maven ..."@)
    } else {
        env_split(reg, services)
    }
}

/// The records of the services, split by backend (see `env_plan_of`).
pub open spec fn env_split(reg: Seq<TokenMetaView>, services: Seq<Seq<char>>) -> Result<
    (Seq<TokenMetaView>, Seq<TokenMetaView>),
    Seq<char>,
>
    decreases services.len(),
{
    if services.len() == 0 {
        Ok((Seq::empty(), Seq::empty()))
    } else {
        match env_split(reg, services.drop_last()) {
            Err(m) => Err(m),
            Ok((files, keys)) => {
                let svc = services.last();
                match find_first(reg, service_is(svc)) {
                    None => Err("no token registered for "@ + svc),
                    Some(m) => match m.backend {
                        BackendType::EncryptedFile => Ok((files.push(m), keys)),
                        BackendType::Keychain => Ok((files, keys.push(m))),
                    },
                }
            },
        }
    }
}

/// The plain value of a pair of record lists.
pub open spec fn plan_view(r: Result<(Vec<TokenMeta>, Vec<TokenMeta>), String>) -> Result<
    (Seq<TokenMetaView>, Seq<TokenMetaView>),
    Seq<char>,
> {
    match r {
        Ok((a, b)) => Ok((a@.map_values(|m: TokenMeta| m@), b@.map_values(|m: TokenMeta| m@))),
        Err(m) => Err(m@),
    }
}

/// The request of `env` names at least one service; otherwise its error.
pub fn check_env_services(services: &Vec<String>) -> (r: Result<(), String>)
    ensures
        services@.len() > 0 <==> r is Ok,
        r matches Err(m) ==> m@ == "specify at least one service: tkm env github nexus-maven ..."@,
{
    if services.len() == 0 {
        Err(String::from_str("specify at least one service: tkm env github nexus-maven ..."))
    } else {
        Ok(())
    }
}

/// The records `env` exports for the services asked for (see `env_plan_of`).
pub fn env_plan(registry: &Registry, services: &Vec<String>) -> (r: Result<(Vec<TokenMeta>, Vec<TokenMeta>), String>)
    ensures
        plan_view(r) == env_plan_of(registry@, services.deep_view()),
{
    check_env_services(services)?;
    let ghost sv = services.deep_view();
    let mut files: Vec<TokenMeta> = Vec::new();
    let mut keys: Vec<TokenMeta> = Vec::new();
    assert(sv.take(0) =~= Seq::<Seq<char>>::empty());
    assert(files@.map_values(|m: TokenMeta| m@) =~= Seq::<TokenMetaView>::empty());
    assert(keys@.map_values(|m: TokenMeta| m@) =~= Seq::<TokenMetaView>::empty());
    let mut i: usize = 0;
    while i < services.len()
        invariant
            i <= services.len(),
            sv == services.deep_view(),
            sv.len() == services.len(),
            env_split(registry@, sv.take(i as int)) == Ok::<(Seq<TokenMetaView>, Seq<TokenMetaView>), Seq<char>>(
                (files@.map_values(|m: TokenMeta| m@), keys@.map_values(|m: TokenMeta| m@)),
            ),
        decreases services.len() - i,
    {
        assert(sv.take(i + 1).drop_last() =~= sv.take(i as int));
        assert(sv.take(i + 1).last() == services@[i as int]@);
        let svc = services[i].as_str();
        match registry.get(svc) {
            None => {
                let m = String::from_str("no token registered for ").concat(svc);
                assert(sv.take(services.len() as int) =~= sv);
                proof {
                    lemma_env_split_fails(registry@, sv, (i + 1) as int, m@);
                }
                return Err(m);
            },
            Some(meta) => {
                let c = meta.duplicate();
                match c.backend {
                    BackendType::EncryptedFile => {
                        files.push(c);
                        assert(files@.map_values(|m: TokenMeta| m@) =~= env_split(
                            registry@,
                            sv.take(i as int),
                        )->Ok_0.0.push(meta@));
                    },
                    BackendType::Keychain => {
                        keys.push(c);
                        assert(keys@.map_values(|m: TokenMeta| m@) =~= env_split(
                            registry@,
                            sv.take(i as int),
                        )->Ok_0.1.push(meta@));
                    },
                }
            },
        }
        i = i + 1;
    }
    assert(sv.take(services.len() as int) =~= sv);
    Ok((files, keys))
}

/// Once a prefix of the services fails, all of them fail the same way.
proof fn lemma_env_split_fails(reg: Seq<TokenMetaView>, services: Seq<Seq<char>>, k: int, m: Seq<char>)
    requires
        0 <= k <= services.len(),
        env_split(reg, services.take(k)) == Err::<(Seq<TokenMetaView>, Seq<TokenMetaView>), Seq<char>>(m),
    ensures
        env_split(reg, services) == Err::<(Seq<TokenMetaView>, Seq<TokenMetaView>), Seq<char>>(m),
    decreases services.len() - k,
{
    if k < services.len() {
        assert(services.take(k + 1).drop_last() =~= services.take(k));
        lemma_env_split_fails(reg, services, k + 1, m);
    } else {
        assert(services.take(k) =~= services);
    }
}

/// A tool tokens can be imported from.
#[derive(Clone, Copy, Debug, PartialEq, Eq, Structural)]
pub enum ImportSource {
    Gh,
    Glab,
    Docker,
    Gradle,
    Pencil,
}

/// The tool a source name stands for, aliases included.
pub open spec fn source_named(name: Seq<char>) -> Option<ImportSource> {
    if name == "gh"@ || name == "github"@ {
        Some(ImportSource::Gh)
    } else if name == "glab"@ || name == "gitlab"@ {
        Some(ImportSource::Glab)
    } else if name == "docker"@ {
        Some(ImportSource::Docker)
    } else if name == "gradle"@ || name == "maven"@ {
        Some(ImportSource::Gradle)
    } else if name == "pencil"@ {
        Some(ImportSource::Pencil)
    } else {
        None
    }
}

/// The source names an `import` request covers: the five tools for `all`,
/// otherwise the name itself.
pub open spec fn sources_of(source: Seq<char>) -> Seq<Seq<char>> {
    if source == "all"@ {
        seq!["gh"@, "glab"@, "docker"@, "gradle"@, "pencil"@]
    } else {
        seq![source]
    }
}

/// The source names an `import` request covers (see `sources_of`).
pub fn import_sources(source: &str) -> (r: Vec<String>)
    ensures
        r.deep_view() == sources_of(source@),
{
    let r = if str_eq(source, "all") {
        vec![
            String::from_str("gh"),
            String::from_str("glab"),
            String::from_str("docker"),
            String::from_str("gradle"),
            String::from_str("pencil"),
        ]
    } else {
        vec![String::from_str(source)]
    };
    assert(r.deep_view() =~= sources_of(source@));
    r
}

/// The tool a source name stands for (see `source_named`).
pub fn import_source(name: &str) -> (r: Option<ImportSource>)
    ensures
        r == source_named(name@),
{
    if str_eq(name, "gh") || str_eq(name, "github") {
        Some(ImportSource::Gh)
    } else if str_eq(name, "glab") || str_eq(name, "gitlab") {
        Some(ImportSource::Glab)
    } else if str_eq(name, "docker") {
        Some(ImportSource::Docker)
    } else if str_eq(name, "gradle") || str_eq(name, "maven") {
        Some(ImportSource::Gradle)
    } else if str_eq(name, "pencil") {
        Some(ImportSource::Pencil)
    } else {
        None
    }
}

/// What `import` prints as it starts scanning a tool.
pub open spec fn scanning_text(s: ImportSource) -> Seq<char> {
    match s {
        ImportSource::Gh => "Scanning GitHub CLI... "@,
        ImportSource::Glab => "Scanning GitLab CLI... "@,
        ImportSource::Docker => "Scanning Docker... "@,
        ImportSource::Gradle => "Scanning Gradle properties... "@,
        ImportSource::Pencil => "Scanning Pencil... "@,
    }
}

impl ImportSource {
    /// What `import` prints as it starts scanning this tool.
    pub fn scanning(&self) -> (r: String)
        ensures
            r@ == scanning_text(*self),
    {
        match self {
            ImportSource::Gh => String::from_str("Scanning GitHub CLI... "),
            ImportSource::Glab => String::from_str("Scanning GitLab CLI... "),
            ImportSource::Docker => String::from_str("Scanning Docker... "),
            ImportSource::Gradle => String::from_str("Scanning Gradle properties... "),
            ImportSource::Pencil => String::from_str("Scanning Pencil... "),
        }
    }
}

/// What `import` prints for a source name that stands for no tool.
pub fn unknown_source_message(name: &str) -> (r: String)
    ensures
        r@ == "Unknown source: "@ + name@ + ". Available: gh, glab, docker, gradle, pencil, all"@,
{
    String::from_str("Unknown source: ").concat(name).concat(". Available: gh, glab, docker, gradle, pencil, all")
}

/// What `import` prints after scanning a tool that had `n` tokens.
pub fn found_message(n: usize) -> (r: String)
    ensures
        n == 0 ==> r@ == "no tokens found"@,
        n > 0 ==> r@ == decimal(n as nat) + " token(s) found"@,
{
    if n == 0 {
        String::from_str("no tokens found")
    } else {
        decimal_string(n as u64).concat(" token(s) found")
    }
}

/// What `import` prints at the end, after importing `total` tokens.
pub fn summary_message(total: usize) -> (r: String)
    ensures
        r@ == "\nImported "@ + decimal(total as nat) + " token(s)."@,
{
    String::from_str("\nImported ").concat(decimal_string(total as u64).as_str()).concat(" token(s).")
}

/// Whether the registry already holds a record for the found token's
/// `service:key`; such a token is not imported again.
pub fn is_registered(registry: &Registry, meta: &TokenMeta) -> (r: bool)
    ensures
        r == find_first(registry@, meta_is(meta@.service, meta@.key)) is Some,
{
    registry.get_exact(meta.service.as_str(), meta.key.as_str()).is_some()
}

/// What `import` does with a found token.
#[derive(Clone, Copy, Debug, PartialEq, Eq, Structural)]
pub enum ImportAction {
    /// The pair is registered already: nothing is written to any backend.
    Skip,
    /// The secret is to be stored in the token's backend, then recorded.
    Store,
}

/// What `import` does with a found token: a `service:key` the registry
/// already holds is skipped, so it is never written to a backend; any other
/// is stored.
pub fn import_step(registry: &Registry, meta: &TokenMeta) -> (r: ImportAction)
    ensures
        r == (if find_first(registry@, meta_is(meta@.service, meta@.key)) is Some {
            ImportAction::Skip
        } else {
            ImportAction::Store
        }),
{
    if is_registered(registry, meta) {
        ImportAction::Skip
    } else {
        ImportAction::Store
    }
}

/// What `import` prints for a token it passes over as already registered.
pub fn skip_message(meta: &TokenMeta) -> (r: String)
    ensures
        r@ == "  skip "@ + meta@.service + ":"@ + meta@.key + " (already exists)"@,
{
    String::from_str("  skip ").concat(meta.service.as_str()).concat(":").concat(meta.key.as_str()).concat(
        " (already exists)",
    )
}

/// The import line for a found token whose secret was stored (`Ok`) or not.
pub open spec fn import_line(meta: TokenMetaView, stored: Result<(), Seq<char>>) -> Seq<char> {
    match stored {
        Ok(()) => "  imported "@ + meta.service + ":"@ + meta.key + " -> "@ + backend_display(meta.backend),
        Err(e) => "  failed "@ + meta.service + ":"@ + meta.key + ": "@ + e,
    }
}

/// Records the outcome of storing a found token's secret: when it was
/// stored, its record goes into the registry and the count of imported
/// tokens grows by one. Returns the new count and the line to print.
pub fn record_import(registry: &mut Registry, meta: TokenMeta, stored: Result<(), String>, total: usize) -> (r: (
    usize,
    String,
))
    requires
        total < usize::MAX,
    ensures
        stored is Ok ==> final(registry)@ == registry_upsert(old(registry)@, meta@) && r.0 == total + 1,
        stored is Err ==> final(registry)@ == old(registry)@ && r.0 == total,
        final(registry).spec_path() == old(registry).spec_path(),
        r.1@ == import_line(
            meta@,
            match stored { Ok(()) => Ok(()), Err(e) => Err(e@) },
        ),
{
    let head = String::from_str(meta.service.as_str()).concat(":").concat(meta.key.as_str());
    match stored {
        Ok(()) => {
            let line = String::from_str("  imported ").concat(head.as_str()).concat(" -> ").concat(
                meta.backend.display_name().as_str(),
            );
            registry.upsert(meta);
            (total + 1, line)
        },
        Err(e) => {
            let line = String::from_str("  failed ").concat(head.as_str()).concat(": ").concat(e.as_str());
            (total, line)
        },
    }
}

/// A found token that the registry does not hold yet is appended to it:
/// importing never replaces a registered record.
pub proof fn law_import_appends(v: Seq<TokenMetaView>, m: TokenMetaView)
    requires
        find_first(v, meta_is(m.service, m.key)) is None,
    ensures
        registry_upsert(v, m) == v.push(m),
{
    crate::model::lookup::lemma_first_index(v, meta_is(m.service, m.key));
}

} // verus!
