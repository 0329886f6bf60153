//! What each screen shows: its lines as pieces of text with a tone. Drawing
//! them, and the colours of the tones, are the caller's.
use vstd::prelude::*;
use crate::model::token::{
    BackendType, TokenMeta, TokenMetaView, backend_display, expired_at, utc_text, in_calendar, meta_in_calendar,
    date_text,
};
use crate::tui::app::{App, AppView, Screen, ConfirmAction, visible};
use vstd::utf8::encode_utf8;
use crate::text::{decimal, decimal_string, pad, pad_right, repeat_char, repeat_string};

verus! {

/// How a piece of text is shown.
#[derive(Clone, Copy, Debug, PartialEq, Eq, Structural)]
pub enum Tone {
    Plain,
    Title,
    Header,
    Dim,
    Success,
    Warning,
    Error,
    KeyHint,
    Mask,
    Blink,
}

/// A piece of text and its tone.
#[derive(Debug)]
pub struct Piece {
    pub text: String,
    pub tone: Tone,
}

pub struct PieceView {
    pub text: Seq<char>,
    pub tone: Tone,
}

impl View for Piece {
    type V = PieceView;

    open spec fn view(&self) -> PieceView {
        PieceView { text: self.text@, tone: self.tone }
    }
}

/// A line of pieces as plain values.
pub open spec fn line_view(l: Seq<Piece>) -> Seq<PieceView> {
    l.map_values(|p: Piece| p@)
}

/// Lines of pieces as plain values.
pub open spec fn lines_view(ls: Seq<Vec<Piece>>) -> Seq<Seq<PieceView>> {
    ls.map_values(|l: Vec<Piece>| line_view(l@))
}

/// A piece with the text of `text`.
pub open spec fn pv(text: Seq<char>, tone: Tone) -> PieceView {
    PieceView { text, tone }
}

fn piece(text: &str, tone: Tone) -> (r: Piece)
    ensures
        r@ == pv(text@, tone),
{
    Piece { text: String::from_str(text), tone }
}

/// The title of the list: the number of search results while searching,
/// otherwise the number of tokens.
pub open spec fn list_title_text(a: AppView) -> Seq<char> {
    if a.screen == Screen::Search {
        " tkm — "@ + decimal(visible(a).len()) + " results "@
    } else {
        " tkm — "@ + decimal(a.entries.len()) + " tokens "@
    }
}

/// The text of the search bar: `/` and the query.
pub open spec fn search_bar_text(a: AppView) -> Seq<char> {
    "/"@ + a.search_query
}

/// The expiry cell of a row: the date, marked ` !` once expired, or `—`.
pub open spec fn expiry_cell(m: TokenMetaView, now: i64) -> Seq<char> {
    match m.expires_at {
        Some(e) => if expired_at(m, now) {
            utc_text(e, false) + " !"@
        } else {
            utc_text(e, false)
        },
        None => "—"@,
    }
}

/// The cells of a row of the list: service, key, backend, expiry (in the
/// error tone once expired) and label.
pub open spec fn row_cells(m: TokenMetaView, now: i64) -> Seq<PieceView> {
    seq![
        pv(m.service, Tone::Plain),
        pv(m.key, Tone::Plain),
        pv(backend_display(m.backend), Tone::Plain),
        pv(expiry_cell(m, now), if expired_at(m, now) { Tone::Error } else { Tone::Plain }),
        pv(
            match m.label {
                Some(l) => l,
                None => Seq::empty(),
            },
            Tone::Plain,
        ),
    ]
}

/// Whole seconds left before `expires`, counting nothing once it has passed.
pub open spec fn seconds_left(expires: i64, now: i64) -> nat {
    if expires > now {
        ((expires - now) / 1000) as nat
    } else {
        0
    }
}

/// The clipboard status piece: the message and the seconds it has left.
pub open spec fn clip_piece(message: Seq<char>, expires: i64, now: i64) -> PieceView {
    pv(" "@ + message + " ("@ + decimal(seconds_left(expires, now)) + "s) "@, Tone::Success)
}

/// Key hints as pieces: each key in brackets, then its action, with a space
/// between hints.
pub open spec fn hint_pieces(hints: Seq<(Seq<char>, Seq<char>)>) -> Seq<PieceView>
    decreases hints.len(),
{
    if hints.len() == 0 {
        Seq::empty()
    } else {
        let rest = hint_pieces(hints.drop_last());
        let (k, d) = hints.last();
        let sep = if hints.len() > 1 {
            seq![pv(" "@, Tone::Plain)]
        } else {
            Seq::empty()
        };
        rest + sep + seq![pv("["@ + k + "]"@, Tone::KeyHint), pv(" "@ + d, Tone::Plain)]
    }
}

/// The key hints of the list, and of the list while searching.
pub open spec fn list_hints(searching: bool) -> Seq<(Seq<char>, Seq<char>)> {
    if searching {
        seq![("Esc"@, "cancel"@), ("Enter"@, "confirm"@), ("↑↓"@, "navigate"@)]
    } else {
        seq![
            ("a"@, "add"@),
            ("d"@, "delete"@),
            ("c"@, "copy"@),
            ("Enter"@, "detail"@),
            ("/"@, "search"@),
            ("q"@, "quit"@),
        ]
    }
}

/// The status bar of the list: the clipboard status, else the status
/// message, else the key hints.
pub open spec fn list_status_pieces(a: AppView, now: i64) -> Seq<PieceView> {
    match a.clip_status {
        Some((m, e)) => seq![clip_piece(m, e, now)],
        None => match a.status_message {
            Some(m) => seq![pv(" "@ + m + " "@, Tone::Warning)],
            None => hint_pieces(list_hints(a.screen == Screen::Search)),
        },
    }
}

/// A labelled line of the detail screen.
pub open spec fn field_line(label: Seq<char>, value: Seq<char>) -> Seq<PieceView> {
    seq![pv("  "@ + pad_right(label, 12), Tone::Header), pv(value, Tone::Plain)]
}

/// The tags joined by `, `.
pub open spec fn join_tags(tags: Seq<Seq<char>>) -> Seq<char>
    decreases tags.len(),
{
    if tags.len() == 0 {
        Seq::empty()
    } else if tags.len() == 1 {
        tags[0]
    } else {
        join_tags(tags.drop_last()) + ", "@ + tags.last()
    }
}

/// The lines of the detail screen that describe the record: service, key,
/// backend, then username, URL and tags when present, then creation,
/// update and expiry.
pub open spec fn meta_lines(m: TokenMetaView) -> Seq<Seq<PieceView>> {
    seq![
        Seq::<PieceView>::empty(),
        field_line("Service:"@, m.service),
        field_line("Key:"@, m.key),
        field_line("Backend:"@, backend_display(m.backend)),
    ] + match m.username {
        Some(u) => seq![field_line("Username:"@, u)],
        None => Seq::empty(),
    } + match m.url {
        Some(u) => seq![field_line("URL:"@, u)],
        None => Seq::empty(),
    } + if m.tags.len() > 0 {
        seq![field_line("Tags:"@, join_tags(m.tags))]
    } else {
        Seq::empty()
    } + seq![
        field_line("Created:"@, utc_text(m.created_at, true)),
        field_line("Updated:"@, utc_text(m.updated_at, true)),
        field_line(
            "Expires:"@,
            match m.expires_at {
                Some(e) => utc_text(e, false),
                None => "never"@,
            },
        ),
    ]
}

/// The lines of the detail screen about the secret: shown when revealed
/// (or a note that it could not be read), masked otherwise; then the notes.
pub open spec fn secret_lines(a: AppView, m: TokenMetaView) -> Seq<Seq<PieceView>> {
    seq![
        Seq::<PieceView>::empty(),
        if a.reveal_secret {
            seq![
                pv("  Value:      "@, Tone::Header),
                pv(
                    match a.secret_cache {
                        Some(s) => s,
                        None => "<failed to load>"@,
                    },
                    Tone::Plain,
                ),
            ]
        } else {
            seq![
                pv("  Value:      "@, Tone::Header),
                pv("●●●●●●●●●●●●"@, Tone::Mask),
                pv("  [v] reveal"@, Tone::Dim),
            ]
        },
    ] + match m.notes {
        Some(n) => seq![Seq::<PieceView>::empty(), field_line("Notes:"@, n)],
        None => Seq::empty(),
    }
}

/// The lines of the detail screen for the entry at `idx`.
pub open spec fn detail_lines_of(a: AppView, idx: int) -> Seq<Seq<PieceView>> {
    meta_lines(a.entries[idx]) + secret_lines(a, a.entries[idx])
}

/// The status bar of the detail screen: the clipboard status, or the hints.
pub open spec fn detail_status_pieces(a: AppView, now: i64) -> Seq<PieceView> {
    match a.clip_status {
        Some((m, e)) => seq![clip_piece(m, e, now)],
        None => seq![
            pv("[v]"@, Tone::KeyHint),
            pv(if a.reveal_secret { " hide"@ } else { " reveal"@ }, Tone::Plain),
            pv("  "@, Tone::Plain),
            pv("[c]"@, Tone::KeyHint),
            pv(" copy"@, Tone::Plain),
            pv("  "@, Tone::Plain),
            pv("[Esc]"@, Tone::KeyHint),
            pv(" back"@, Tone::Plain),
        ],
    }
}

/// The question of the confirmation screen.
pub open spec fn confirm_text(a: AppView, action: ConfirmAction) -> Seq<char> {
    match action {
        ConfirmAction::Delete(idx) => if idx < a.entries.len() {
            "Delete "@ + a.entries[idx as int].service + ":"@ + a.entries[idx as int].key + " from "@
                + backend_display(a.entries[idx as int].backend) + "?"@
        } else {
            "Delete this entry?"@
        },
    }
}

/// The backend field of the add form, shown as a toggle.
pub open spec fn backend_toggle(b: BackendType) -> Seq<char> {
    match b {
        BackendType::Keychain => "[keychain] / file"@,
        BackendType::EncryptedFile => "keychain / [file]"@,
    }
}

/// The label, value and masking of field `i` of the add form.
pub open spec fn add_field(a: AppView, i: int) -> (Seq<char>, Seq<char>, bool) {
    if i == 0 {
        ("Service"@, a.add_service, false)
    } else if i == 1 {
        ("Key"@, a.add_key, false)
    } else if i == 2 {
        ("Value"@, a.add_value, true)
    } else if i == 3 {
        ("Backend"@, backend_display(a.add_backend), false)
    } else {
        ("Label"@, a.add_label, false)
    }
}

/// A masked value of `n` bytes: one dot per byte.
pub open spec fn dots(n: nat) -> Seq<char> {
    repeat_char('●', n)
}

/// The line of field `i` of the add form: a marker on the focused field, the
/// label, the value (dots for a masked one, a toggle for the backend) and a
/// cursor on a focused text field. `value_bytes` is the value's length in
/// bytes.
pub open spec fn add_line(a: AppView, i: int, value_bytes: nat) -> Seq<PieceView> {
    let (label, value, masked) = add_field(a, i);
    let focused = i == a.add_field_idx;
    let shown = if masked && value.len() > 0 {
        dots(value_bytes)
    } else if i == 3 {
        backend_toggle(a.add_backend)
    } else {
        value
    };
    seq![
        pv(if focused { "▶ "@ } else { "  "@ }, Tone::Plain),
        pv(pad_right(label, 10), if focused { Tone::Title } else { Tone::Header }),
        pv(shown, if masked { Tone::Mask } else { Tone::Plain }),
        pv(if focused && i != 3 { "▎"@ } else { Seq::empty() }, Tone::Blink),
    ]
}

/// The status bar of the add form: the status message, or the hints.
pub open spec fn add_status_pieces(a: AppView) -> Seq<PieceView> {
    match a.status_message {
        Some(m) => seq![pv(" "@ + m + " "@, Tone::Warning)],
        None => seq![
            pv("[Tab]"@, Tone::KeyHint),
            pv(" next field  "@, Tone::Plain),
            pv("[Ctrl+Enter]"@, Tone::KeyHint),
            pv(" save  "@, Tone::Plain),
            pv("[Esc]"@, Tone::KeyHint),
            pv(" cancel"@, Tone::Plain),
        ],
    }
}

/// The lines of the add form: a blank line, then each field's line followed
/// by a blank line. `value_bytes` is the length in bytes of the typed value.
pub open spec fn add_lines_of(a: AppView, value_bytes: nat) -> Seq<Seq<PieceView>> {
    let blank = Seq::<PieceView>::empty();
    seq![
        blank,
        add_line(a, 0, value_bytes),
        blank,
        add_line(a, 1, value_bytes),
        blank,
        add_line(a, 2, value_bytes),
        blank,
        add_line(a, 3, value_bytes),
        blank,
        add_line(a, 4, value_bytes),
        blank,
    ]
}

/// The tags joined by `, `.
pub fn join_tag_list(tags: &Vec<String>) -> (r: String)
    ensures
        r@ == join_tags(tags.deep_view()),
{
    let ghost tv = tags.deep_view();
    let mut r = String::new();
    let mut i: usize = 0;
    while i < tags.len()
        invariant
            i <= tags.len(),
            tv == tags.deep_view(),
            r@ == join_tags(tv.take(i as int)),
        decreases tags.len() - i,
    {
        assert(tv.take(i + 1).drop_last() =~= tv.take(i as int));
        if i > 0 {
            r.append(", ");
        } else {
            assert(tv.take(1)[0] == tv[0]);
            assert(r@ =~= Seq::<char>::empty());
        }
        r.append(tags[i].as_str());
        assert(r@ =~= join_tags(tv.take(i + 1)));
        i = i + 1;
    }
    assert(tv.take(tags.len() as int) =~= tv);
    r
}

/// The cells of a row of the list at time `now`.
pub fn row_cells_of(m: &TokenMeta, now: i64) -> (r: Vec<Piece>)
    requires
        m@.expires_at matches Some(e) ==> in_calendar(e),
    ensures
        line_view(r@) == row_cells(m@, now),
{
    let expired = m.is_expired_at(now);
    let expires = match m.expires_at {
        Some(e) => {
            let d = date_text(e, false);
            if expired {
                d.concat(" !")
            } else {
                d
            }
        },
        None => String::from_str("—"),
    };
    let label = match &m.label {
        Some(l) => l.clone(),
        None => String::new(),
    };
    let r = vec![
        Piece { text: m.service.clone(), tone: Tone::Plain },
        Piece { text: m.key.clone(), tone: Tone::Plain },
        Piece { text: m.backend.display_name(), tone: Tone::Plain },
        Piece { text: expires, tone: if expired { Tone::Error } else { Tone::Plain } },
        Piece { text: label, tone: Tone::Plain },
    ];
    assert(line_view(r@) =~= row_cells(m@, now));
    r
}

fn field_line_of(label: &str, value: String) -> (r: Vec<Piece>)
    ensures
        line_view(r@) == field_line(label@, value@),
{
    let r = vec![
        Piece { text: String::from_str("  ").concat(pad(label, 12).as_str()), tone: Tone::Header },
        Piece { text: value, tone: Tone::Plain },
    ];
    assert(line_view(r@) =~= field_line(label@, value@));
    r
}

/// Whole seconds left before `expires` at time `now`.
pub fn seconds_until(expires: i64, now: i64) -> (r: u64)
    ensures
        r == seconds_left(expires, now),
{
    if expires > now {
        let d: i128 = (expires as i128) - (now as i128);
        let s: i128 = d / 1000;
        assert(0 <= s < 0x1_0000_0000_0000_0000) by (nonlinear_arith)
            requires
                d == expires - now,
                s == d / 1000,
                expires > now,
                expires <= i64::MAX,
                now >= i64::MIN,
        ;
        s as u64
    } else {
        0
    }
}

fn clip_line(message: &str, expires: i64, now: i64) -> (r: Piece)
    ensures
        r@ == clip_piece(message@, expires, now),
{
    let text = String::from_str(" ").concat(message).concat(" (").concat(
        decimal_string(seconds_until(expires, now)).as_str(),
    ).concat("s) ");
    Piece { text, tone: Tone::Success }
}

fn push_hints(out: &mut Vec<Piece>, hints: &Vec<(&str, &str)>)
    ensures
        line_view(final(out)@) == line_view(old(out)@) + hint_pieces(
            hints@.map_values(|h: (&str, &str)| (h.0@, h.1@)),
        ),
{
    let ghost hv = hints@.map_values(|h: (&str, &str)| (h.0@, h.1@));
    let ghost start = line_view(out@);
    let mut i: usize = 0;
    while i < hints.len()
        invariant
            i <= hints.len(),
            hv == hints@.map_values(|h: (&str, &str)| (h.0@, h.1@)),
            line_view(out@) == start + hint_pieces(hv.take(i as int)),
        decreases hints.len() - i,
    {
        assert(hv.take(i + 1).drop_last() =~= hv.take(i as int));
        assert(hv.take(i + 1).last() == (hints@[i as int].0@, hints@[i as int].1@));
        let ghost before = line_view(out@);
        let (k, d) = hints[i];
        let ghost sep: Seq<PieceView> = if i > 0 {
            seq![pv(" "@, Tone::Plain)]
        } else {
            Seq::empty()
        };
        if i > 0 {
            out.push(piece(" ", Tone::Plain));
        }
        assert(line_view(out@) =~= before + sep);
        let ghost mid = line_view(out@);
        out.push(Piece { text: String::from_str("[").concat(k).concat("]"), tone: Tone::KeyHint });
        assert(line_view(out@) =~= mid.push(pv("["@ + k@ + "]"@, Tone::KeyHint)));
        let ghost mid2 = line_view(out@);
        out.push(Piece { text: String::from_str(" ").concat(d), tone: Tone::Plain });
        assert(line_view(out@) =~= mid2.push(pv(" "@ + d@, Tone::Plain)));
        assert(hint_pieces(hv.take(i + 1)) == hint_pieces(hv.take(i as int)) + sep + seq![
            pv("["@ + k@ + "]"@, Tone::KeyHint),
            pv(" "@ + d@, Tone::Plain),
        ]);
        assert(line_view(out@) =~= start + hint_pieces(hv.take(i + 1)));
        i = i + 1;
    }
    assert(hv.take(hints.len() as int) =~= hv);
}

impl App {
    /// The title of the list.
    pub fn list_title(&self) -> (r: String)
        ensures
            r@ == list_title_text(self@),
    {
        if self.screen == Screen::Search {
            let n = self.visible_indices().len();
            String::from_str(" tkm — ").concat(decimal_string(n as u64).as_str()).concat(" results ")
        } else {
            String::from_str(" tkm — ").concat(decimal_string(self.entries.len() as u64).as_str()).concat(" tokens ")
        }
    }

    /// The text of the search bar.
    pub fn search_bar(&self) -> (r: String)
        ensures
            r@ == search_bar_text(self@),
    {
        String::from_str("/").concat(self.search_query.as_str())
    }

    /// The status bar of the list at time `now`.
    pub fn list_status(&self, now: i64) -> (r: Vec<Piece>)
        ensures
            line_view(r@) == list_status_pieces(self@, now),
    {
        let mut out: Vec<Piece> = Vec::new();
        match &self.clip_status {
            Some(c) => {
                out.push(clip_line(c.message.as_str(), c.expires, now));
            },
            None => match &self.status_message {
                Some(m) => {
                    out.push(Piece { text: String::from_str(" ").concat(m.as_str()).concat(" "), tone: Tone::Warning });
                },
                None => {
                    let hints: Vec<(&str, &str)> = if self.screen == Screen::Search {
                        vec![("Esc", "cancel"), ("Enter", "confirm"), ("↑↓", "navigate")]
                    } else {
                        vec![("a", "add"), ("d", "delete"), ("c", "copy"), ("Enter", "detail"), ("/", "search"), ("q", "quit")]
                    };
                    assert(hints@.map_values(|h: (&str, &str)| (h.0@, h.1@)) =~= list_hints(self.screen == Screen::Search));
                    push_hints(&mut out, &hints);
                    assert(line_view(out@) =~= list_status_pieces(self@, now));
                },
            },
        }
        assert(line_view(out@) =~= list_status_pieces(self@, now));
        out
    }

    /// The status bar of the detail screen at time `now`.
    pub fn detail_status(&self, now: i64) -> (r: Vec<Piece>)
        ensures
            line_view(r@) == detail_status_pieces(self@, now),
    {
        let r = match &self.clip_status {
            Some(c) => vec![clip_line(c.message.as_str(), c.expires, now)],
            None => vec![
                piece("[v]", Tone::KeyHint),
                piece(if self.reveal_secret { " hide" } else { " reveal" }, Tone::Plain),
                piece("  ", Tone::Plain),
                piece("[c]", Tone::KeyHint),
                piece(" copy", Tone::Plain),
                piece("  ", Tone::Plain),
                piece("[Esc]", Tone::KeyHint),
                piece(" back", Tone::Plain),
            ],
        };
        assert(line_view(r@) =~= detail_status_pieces(self@, now));
        r
    }

    /// The status bar of the add form.
    pub fn add_status(&self) -> (r: Vec<Piece>)
        ensures
            line_view(r@) == add_status_pieces(self@),
    {
        let r = match &self.status_message {
            Some(m) => vec![Piece { text: String::from_str(" ").concat(m.as_str()).concat(" "), tone: Tone::Warning }],
            None => vec![
                piece("[Tab]", Tone::KeyHint),
                piece(" next field  ", Tone::Plain),
                piece("[Ctrl+Enter]", Tone::KeyHint),
                piece(" save  ", Tone::Plain),
                piece("[Esc]", Tone::KeyHint),
                piece(" cancel", Tone::Plain),
            ],
        };
        assert(line_view(r@) =~= add_status_pieces(self@));
        r
    }

    /// The question of the confirmation screen.
    pub fn confirm_message(&self, action: ConfirmAction) -> (r: String)
        ensures
            r@ == confirm_text(self@, action),
    {
        match action {
            ConfirmAction::Delete(idx) => {
                if idx < self.entries.len() {
                    let e = &self.entries[idx];
                    String::from_str("Delete ").concat(e.service.as_str()).concat(":").concat(e.key.as_str()).concat(
                        " from ",
                    ).concat(e.backend.display_name().as_str()).concat("?")
                } else {
                    String::from_str("Delete this entry?")
                }
            },
        }
    }

    /// The lines of the detail screen for the entry at `idx`.
    pub fn detail_lines(&self, idx: usize) -> (r: Vec<Vec<Piece>>)
        requires
            idx < self@.entries.len(),
            meta_in_calendar(self@.entries[idx as int]),
        ensures
            lines_view(r@) == detail_lines_of(self@, idx as int),
    {
        let e = &self.entries[idx];
        assert(e@ == self@.entries[idx as int]);
        let mut out: Vec<Vec<Piece>> = Vec::new();
        out.push(Vec::new());
        out.push(field_line_of("Service:", e.service.clone()));
        out.push(field_line_of("Key:", e.key.clone()));
        out.push(field_line_of("Backend:", e.backend.display_name()));
        let ghost l1 = lines_view(out@);
        assert(l1 =~~= seq![
            Seq::<PieceView>::empty(),
            field_line("Service:"@, e@.service),
            field_line("Key:"@, e@.key),
            field_line("Backend:"@, backend_display(e@.backend)),
        ]);
        match &e.username {
            Some(u) => {
                out.push(field_line_of("Username:", u.clone()));
            },
            None => {},
        }
        let ghost l2 = lines_view(out@);
        assert(l2 =~= l1 + match e@.username {
            Some(u) => seq![field_line("Username:"@, u)],
            None => Seq::<Seq<PieceView>>::empty(),
        });
        match &e.url {
            Some(u) => {
                out.push(field_line_of("URL:", u.clone()));
            },
            None => {},
        }
        let ghost l3 = lines_view(out@);
        assert(l3 =~= l2 + match e@.url {
            Some(u) => seq![field_line("URL:"@, u)],
            None => Seq::<Seq<PieceView>>::empty(),
        });
        if e.tags.len() > 0 {
            out.push(field_line_of("Tags:", join_tag_list(&e.tags)));
        }
        let ghost l4 = lines_view(out@);
        assert(l4 =~= l3 + if e@.tags.len() > 0 {
            seq![field_line("Tags:"@, join_tags(e@.tags))]
        } else {
            Seq::<Seq<PieceView>>::empty()
        });
        out.push(field_line_of("Created:", date_text(e.created_at, true)));
        out.push(field_line_of("Updated:", date_text(e.updated_at, true)));
        let expires = match e.expires_at {
            Some(x) => date_text(x, false),
            None => String::from_str("never"),
        };
        out.push(field_line_of("Expires:", expires));
        assert(lines_view(out@) =~= meta_lines(e@));
        let ghost l5 = lines_view(out@);
        out.push(Vec::new());
        let value_line = if self.reveal_secret {
            let shown = match &self.secret_cache {
                Some(s) => s.clone(),
                None => String::from_str("<failed to load>"),
            };
            vec![piece("  Value:      ", Tone::Header), Piece { text: shown, tone: Tone::Plain }]
        } else {
            vec![piece("  Value:      ", Tone::Header), piece("●●●●●●●●●●●●", Tone::Mask), piece("  [v] reveal", Tone::Dim)]
        };
        assert(line_view(value_line@) =~= secret_lines(self@, e@)[1]);
        out.push(value_line);
        assert(lines_view(out@) =~= l5 + secret_lines(self@, e@).take(2));
        match &e.notes {
            Some(n) => {
                out.push(Vec::new());
                out.push(field_line_of("Notes:", n.clone()));
            },
            None => {},
        }
        assert(lines_view(out@) =~= l5 + secret_lines(self@, e@));
        out
    }

    /// The lines of the add form.
    pub fn add_lines(&self) -> (r: Vec<Vec<Piece>>)
        ensures
            lines_view(r@) == add_lines_of(self@, (encode_utf8(self.add_value@).len() as usize) as nat),
    {
        let ghost vb = (encode_utf8(self.add_value@).len() as usize) as nat;
        let r = vec![
            Vec::new(),
            self.add_line_of(0),
            Vec::new(),
            self.add_line_of(1),
            Vec::new(),
            self.add_line_of(2),
            Vec::new(),
            self.add_line_of(3),
            Vec::new(),
            self.add_line_of(4),
            Vec::new(),
        ];
        assert(lines_view(r@) =~~= add_lines_of(self@, vb));
        r
    }

    fn add_line_of(&self, i: usize) -> (r: Vec<Piece>)
        requires
            i < 5,
        ensures
            line_view(r@) == add_line(self@, i as int, (encode_utf8(self.add_value@).len() as usize) as nat),
    {
        let focused = i == self.add_field_idx;
        let masked = i == 2;
        let label = if i == 0 {
            "Service"
        } else if i == 1 {
            "Key"
        } else if i == 2 {
            "Value"
        } else if i == 3 {
            "Backend"
        } else {
            "Label"
        };
        let shown = if i == 0 {
            self.add_service.clone()
        } else if i == 1 {
            self.add_key.clone()
        } else if i == 2 {
            if self.add_value.as_str().unicode_len() > 0 {
                repeat_string('●', self.add_value.as_str().len())
            } else {
                self.add_value.clone()
            }
        } else if i == 3 {
            match self.add_backend {
                BackendType::Keychain => String::from_str("[keychain] / file"),
                BackendType::EncryptedFile => String::from_str("keychain / [file]"),
            }
        } else {
            self.add_label.clone()
        };
        proof {
            reveal_strlit("");
            assert(""@ =~= Seq::<char>::empty());
        }
        let r = vec![
            piece(if focused { "▶ " } else { "  " }, Tone::Plain),
            Piece { text: pad(label, 10), tone: if focused { Tone::Title } else { Tone::Header } },
            Piece { text: shown, tone: if masked { Tone::Mask } else { Tone::Plain } },
            piece(if focused && i != 3 { "▎" } else { "" }, Tone::Blink),
        ];
        let ghost want = add_line(self@, i as int, (encode_utf8(self.add_value@).len() as usize) as nat);
        assert(line_view(r@) =~= want);
        r
    }

    /// The dots standing for the typed password: one per byte.
    pub fn password_dots(&self) -> (r: String)
        ensures
            r@ == dots((encode_utf8(self.password_input@).len() as usize) as nat),
    {
        let s = self.password_input.as_str();
        let n = s.len();
        repeat_string('●', n)
    }
}

} // verus!
