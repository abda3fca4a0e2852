//! Tables of the administration console: the cursor of a scrollable table (which
//! row is selected, which row is shown first, how tall rows are drawn) and the
//! texts shown in a row for each kind of record.
use vstd::prelude::*;
use crate::models::user::{strings_view, User};
use crate::models::target_secret::{Secret, SecretInfo, TargetSecret};
use crate::models::target::{Target, TargetInfo};
use unicode_width::UnicodeWidthStr;
use crate::models::masked;
use crate::common::{shortenable, shortened};
use crate::text::{chars_to_string, decimal, decimal_of, push_all};
use crate::tui::{DisplayMode, Key};
use crate::database::Log;
use crate::roles::{CasbinRule, Role};

verus! {

broadcast use vstd::string::group_string_axioms;

/// The state a table keeps between key presses. `size` is the area it was last
/// drawn in (columns, rows); one row of it holds the header.
pub struct AdminTable {
    /// The first row shown.
    pub offset: usize,
    /// The selected row.
    pub selected: Option<usize>,
    /// The position of the scroll bar, in lines.
    pub scroll_position: usize,
    /// The length of the scroll bar's content, in lines.
    pub scroll_content_length: usize,
    /// How many lines each row takes.
    pub row_height: usize,
    pub size: (u16, u16),
}

/// The smallest and largest row heights.
pub open spec fn row_height_ok(h: usize) -> bool {
    1 <= h <= 20
}

/// The number of rows that fit below the header.
pub open spec fn page_rows(t: AdminTable) -> int {
    (t.size.1 - 1) / (t.row_height as int)
}

/// The row selected after a page up.
pub open spec fn page_up_row(selected: Option<usize>, rows: int) -> int {
    match selected {
        Some(i) => if i < rows {
            i as int
        } else {
            i - rows
        },
        None => 0,
    }
}

/// Whether a page down moves the first shown row (it does unless that would pass
/// the end of the table).
pub open spec fn page_down_moves(t: AdminTable, len: int) -> bool {
    t.offset + page_rows(t) <= len
}

/// The row selected after a page down.
pub open spec fn page_down_row(t: AdminTable, len: int) -> int {
    let rows = page_rows(t);
    match t.selected {
        Some(i) => if !page_down_moves(t, len) {
            i as int
        } else if i >= len - rows {
            t.offset + rows
        } else {
            i + rows
        },
        None => 0,
    }
}

/// The row selected after moving down one row (from the last row to the first).
pub open spec fn next_row_index(selected: Option<usize>, len: int) -> int {
    match selected {
        Some(i) => if i >= len - 1 {
            0
        } else {
            i + 1
        },
        None => 0,
    }
}

/// The row selected after moving up one row (from the first row to the last).
pub open spec fn previous_row_index(selected: Option<usize>, len: int) -> int {
    match selected {
        Some(i) => if i == 0 {
            len - 1
        } else {
            i - 1
        },
        None => 0,
    }
}

/// The table drawn with the same area and row height, with row `i` selected and the
/// scroll bar following it.
pub open spec fn with_selection(t: AdminTable, offset: int, i: int) -> AdminTable {
    AdminTable {
        offset: offset as usize,
        selected: Some(i as usize),
        scroll_position: (i * t.row_height) as usize,
        ..t
    }
}

/// A table of `len` rows as it starts: the first row selected and shown first, rows
/// two lines tall, not drawn yet.
pub open spec fn new_table(len: int) -> AdminTable {
    AdminTable {
        offset: 0,
        selected: Some(0usize),
        scroll_position: 0,
        scroll_content_length: ((if len == 0 {
            0
        } else {
            len - 1
        }) * 2) as usize,
        row_height: 2,
        size: (0u16, 0u16),
    }
}

impl AdminTable {
    /// A table of `len` rows with the first row selected, rows two lines tall, not
    /// drawn yet.
    pub fn new(len: usize) -> (t: Self)
        requires
            len <= usize::MAX / 2,
        ensures
            t.offset == 0,
            t.selected == Some(0usize),
            t.scroll_position == 0,
            t.scroll_content_length == (if len == 0 {
                0
            } else {
                len - 1
            }) * 2,
            t.row_height == 2,
            t.size == (0u16, 0u16),
            t == new_table(len as int),
    {
        let n: usize = if len == 0 {
            0
        } else {
            len - 1
        };
        AdminTable {
            offset: 0,
            selected: Some(0),
            scroll_position: 0,
            scroll_content_length: n * 2,
            row_height: 2,
            size: (0, 0),
        }
    }

    /// Page up: the first shown row and the selection move up by a screenful,
    /// stopping at the top.
    pub fn previous_page(&mut self)
        requires
            old(self).size.1 >= 1,
            row_height_ok(old(self).row_height),
            page_up_row(old(self).selected, page_rows(*old(self))) * old(self).row_height
                <= usize::MAX,
        ensures
            *final(self) == with_selection(
                *old(self),
                if old(self).offset < page_rows(*old(self)) {
                    0
                } else {
                    old(self).offset - page_rows(*old(self))
                },
                page_up_row(old(self).selected, page_rows(*old(self))),
            ),
    {
        let rows: usize = (self.size.1 as usize - 1) / self.row_height;
        self.offset = if self.offset < rows {
            0
        } else {
            self.offset - rows
        };
        let i: usize = match self.selected {
            Some(i) => {
                if i < rows {
                    i
                } else {
                    i - rows
                }
            },
            None => 0,
        };
        self.selected = Some(i);
        self.scroll_position = i * self.row_height;
    }

    /// Page down in a table of `len` rows: the first shown row moves down by a
    /// screenful unless that passes the end; the selection follows, and jumps to the
    /// new first row when it would pass the end.
    pub fn next_page(&mut self, len: usize)
        requires
            old(self).size.1 >= 1,
            row_height_ok(old(self).row_height),
            old(self).offset + page_rows(*old(self)) <= usize::MAX,
            page_down_row(*old(self), len as int) * old(self).row_height <= usize::MAX,
        ensures
            *final(self) == with_selection(
                *old(self),
                if page_down_moves(*old(self), len as int) {
                    old(self).offset + page_rows(*old(self))
                } else {
                    old(self).offset as int
                },
                page_down_row(*old(self), len as int),
            ),
    {
        let rows: usize = (self.size.1 as usize - 1) / self.row_height;
        let mut is_offset = false;
        if self.offset + rows <= len {
            self.offset = self.offset + rows;
        } else {
            is_offset = true;
        }
        let i: usize = match self.selected {
            Some(i) => {
                if is_offset {
                    i
                } else if i >= len - rows {
                    self.offset
                } else {
                    i + rows
                }
            },
            None => 0,
        };
        self.selected = Some(i);
        self.scroll_position = i * self.row_height;
    }

    /// One row down in a table of `len` rows, wrapping from the last row to the first.
    pub fn next_row(&mut self, len: usize)
        requires
            old(self).selected is Some ==> len >= 1,
            next_row_index(old(self).selected, len as int) * old(self).row_height <= usize::MAX,
        ensures
            *final(self) == with_selection(
                *old(self),
                old(self).offset as int,
                next_row_index(old(self).selected, len as int),
            ),
    {
        let i: usize = match self.selected {
            Some(i) => {
                if i >= len - 1 {
                    0
                } else {
                    i + 1
                }
            },
            None => 0,
        };
        self.selected = Some(i);
        self.scroll_position = i * self.row_height;
    }

    /// One row up in a table of `len` rows, wrapping from the first row to the last.
    pub fn previous_row(&mut self, len: usize)
        requires
            old(self).selected == Some(0usize) ==> len >= 1,
            previous_row_index(old(self).selected, len as int) * old(self).row_height
                <= usize::MAX,
        ensures
            *final(self) == with_selection(
                *old(self),
                old(self).offset as int,
                previous_row_index(old(self).selected, len as int),
            ),
    {
        let i: usize = match self.selected {
            Some(i) => {
                if i == 0 {
                    len - 1
                } else {
                    i - 1
                }
            },
            None => 0,
        };
        self.selected = Some(i);
        self.scroll_position = i * self.row_height;
    }

    /// Rows one line taller, at most 20.
    pub fn zoom_in(&mut self)
        ensures
            *final(self) == (AdminTable {
                row_height: if old(self).row_height >= 20 {
                    20
                } else {
                    (old(self).row_height + 1) as usize
                },
                ..*old(self)
            }),
    {
        let h = self.row_height.saturating_add(1);
        self.row_height = if h < 20 {
            h
        } else {
            20
        };
    }

    /// Rows one line shorter, at least 1.
    pub fn zoom_out(&mut self)
        ensures
            *final(self) == (AdminTable {
                row_height: if old(self).row_height <= 2 {
                    1
                } else {
                    (old(self).row_height - 1) as usize
                },
                ..*old(self)
            }),
    {
        let h = self.row_height.saturating_sub(1);
        self.row_height = if h > 1 {
            h
        } else {
            1
        };
    }
}

/// The moves of a table's cursor that keys can ask for.
#[derive(Clone, Copy, Debug, PartialEq, Eq, Structural)]
pub enum TableMove {
    ZoomIn,
    ZoomOut,
    NextPage,
    PreviousPage,
    NextRow,
    PreviousRow,
}

/// The move a key asks of a table that picks a row: `+`/`-` zoom, the page keys (or
/// Ctrl+F/Ctrl+B) turn a page, the arrows (or `j`/`k`) move a row.
pub open spec fn table_move_spec(key: Key, ctrl: bool) -> Option<TableMove> {
    match key {
        Key::Char('+') => Some(TableMove::ZoomIn),
        Key::Char('-') => Some(TableMove::ZoomOut),
        Key::PageDown => Some(TableMove::NextPage),
        Key::PageUp => Some(TableMove::PreviousPage),
        Key::Char('f') if ctrl => Some(TableMove::NextPage),
        Key::Char('b') if ctrl => Some(TableMove::PreviousPage),
        Key::Down | Key::Char('j') => Some(TableMove::NextRow),
        Key::Up | Key::Char('k') => Some(TableMove::PreviousRow),
        _ => None,
    }
}

/// The move a key asks of a table that picks a row, if any.
pub fn table_move(key: Key, ctrl: bool) -> (r: Option<TableMove>)
    ensures
        r == table_move_spec(key, ctrl),
{
    match key {
        Key::Char('+') => Some(TableMove::ZoomIn),
        Key::Char('-') => Some(TableMove::ZoomOut),
        Key::PageDown => Some(TableMove::NextPage),
        Key::PageUp => Some(TableMove::PreviousPage),
        Key::Char('f') if ctrl => Some(TableMove::NextPage),
        Key::Char('b') if ctrl => Some(TableMove::PreviousPage),
        Key::Down | Key::Char('j') => Some(TableMove::NextRow),
        Key::Up | Key::Char('k') => Some(TableMove::PreviousRow),
        _ => None,
    }
}

/// A table's cursor over `len` rows as the console keeps it: rows between 1 and 20
/// lines tall, the first shown row and the selected row within the table (the
/// selection may stand just past the last row, where a page down can leave it), and
/// few enough rows that no line count overflows.
pub open spec fn table_wf(t: AdminTable, len: int) -> bool {
    &&& row_height_ok(t.row_height)
    &&& 0 <= len <= usize::MAX / 32
    &&& t.offset <= len
    &&& t.selected matches Some(i) && i <= len
}

/// Whether a move can be made: a page needs the table to have been drawn (so that it
/// knows its height), and moving a row down, or up from the first row, needs a row.
pub open spec fn move_ok(t: AdminTable, m: TableMove, len: int) -> bool {
    match m {
        TableMove::NextPage | TableMove::PreviousPage => t.size.1 >= 1,
        TableMove::NextRow => t.selected is Some ==> len >= 1,
        TableMove::PreviousRow => t.selected == Some(0usize) ==> len >= 1,
        _ => true,
    }
}

/// The table after a move over `len` rows.
pub open spec fn moved(t: AdminTable, m: TableMove, len: int) -> AdminTable {
    match m {
        TableMove::ZoomIn => AdminTable {
            row_height: if t.row_height >= 20 {
                20
            } else {
                (t.row_height + 1) as usize
            },
            ..t
        },
        TableMove::ZoomOut => AdminTable {
            row_height: if t.row_height <= 2 {
                1
            } else {
                (t.row_height - 1) as usize
            },
            ..t
        },
        TableMove::NextPage => with_selection(
            t,
            if page_down_moves(t, len) {
                t.offset + page_rows(t)
            } else {
                t.offset as int
            },
            page_down_row(t, len),
        ),
        TableMove::PreviousPage => with_selection(
            t,
            if t.offset < page_rows(t) {
                0
            } else {
                t.offset - page_rows(t)
            },
            page_up_row(t.selected, page_rows(t)),
        ),
        TableMove::NextRow => with_selection(t, t.offset as int, next_row_index(t.selected, len)),
        TableMove::PreviousRow => with_selection(t, t.offset as int, previous_row_index(t.selected, len)),
    }
}

proof fn lemma_page_rows_bounds(t: AdminTable)
    requires
        t.size.1 >= 1,
        row_height_ok(t.row_height),
    ensures
        0 <= page_rows(t) <= t.size.1 - 1,
{
    let n: int = t.size.1 - 1;
    let d: int = t.row_height as int;
    assert(0 <= n / d <= n) by (nonlinear_arith)
        requires
            n >= 0,
            d >= 1,
    ;
}

impl AdminTable {
    /// Makes a move over a table of `len` rows.
    pub fn apply_move(&mut self, m: TableMove, len: usize)
        requires
            table_wf(*old(self), len as int),
            move_ok(*old(self), m, len as int),
        ensures
            *final(self) == moved(*old(self), m, len as int),
            table_wf(*final(self), len as int),
    {
        let ghost t0 = *self;
        match m {
            TableMove::ZoomIn => self.zoom_in(),
            TableMove::ZoomOut => self.zoom_out(),
            TableMove::NextPage => {
                proof {
                    lemma_page_rows_bounds(t0);
                    let r = page_down_row(t0, len as int);
                    assert(0 <= r <= len);
                    assert(r * t0.row_height <= len * 20) by (nonlinear_arith)
                        requires
                            0 <= r <= len,
                            1 <= t0.row_height <= 20,
                    ;
                }
                self.next_page(len);
            },
            TableMove::PreviousPage => {
                proof {
                    lemma_page_rows_bounds(t0);
                    let r = page_up_row(t0.selected, page_rows(t0));
                    assert(0 <= r <= len);
                    assert(r * t0.row_height <= len * 20) by (nonlinear_arith)
                        requires
                            0 <= r <= len,
                            1 <= t0.row_height <= 20,
                    ;
                }
                self.previous_page();
            },
            TableMove::NextRow => {
                proof {
                    let r = next_row_index(t0.selected, len as int);
                    assert(0 <= r <= len);
                    assert(r * t0.row_height <= len * 20) by (nonlinear_arith)
                        requires
                            0 <= r <= len,
                            1 <= t0.row_height <= 20,
                    ;
                }
                self.next_row(len);
            },
            TableMove::PreviousRow => {
                proof {
                    let r = previous_row_index(t0.selected, len as int);
                    assert(0 <= r <= len);
                    assert(r * t0.row_height <= len * 20) by (nonlinear_arith)
                        requires
                            0 <= r <= len,
                            1 <= t0.row_height <= 20,
                    ;
                }
                self.previous_row(len);
            },
        }
    }
}

/// Moving down one row and then up one row, in a table of `len` rows, selects the
/// same row again; so does moving up and then down.
pub proof fn law_row_round_trip(i: usize, len: usize)
    requires
        i < len,
    ensures
        previous_row_index(Some(next_row_index(Some(i), len as int) as usize), len as int) == i,
        next_row_index(Some(previous_row_index(Some(i), len as int) as usize), len as int) == i,
{
}

/// Zooming keeps the row height between 1 and 20, whatever it was before.
pub proof fn law_zoom_bounds(h: usize)
    requires
        row_height_ok(h),
    ensures
        row_height_ok(if h >= 20 {
            20
        } else {
            (h + 1) as usize
        }),
        row_height_ok(if h <= 2 {
            1
        } else {
            (h - 1) as usize
        }),
{
}

/// A page up never selects a row below the one selected before, and never shows a
/// first row below the one shown before.
pub proof fn law_page_up_moves_up(t: AdminTable)
    requires
        t.size.1 >= 1,
        row_height_ok(t.row_height),
    ensures
        page_up_row(t.selected, page_rows(t)) >= 0,
        t.selected matches Some(i) ==> page_up_row(t.selected, page_rows(t)) <= i,
{
    let n: int = t.size.1 - 1;
    let d: int = t.row_height as int;
    assert(n / d >= 0) by (nonlinear_arith)
        requires
            n >= 0,
            d >= 1,
    ;
}


// ---------------------------------------------------------------------------
// Row texts
// ---------------------------------------------------------------------------

/// `true` or `false`, as `bool::to_string` writes it.
pub open spec fn bool_text(b: bool) -> Seq<char> {
    if b {
        "true"@
    } else {
        "false"@
    }
}

/// The decimal notation of an integer, with `-` before a negative one.
pub open spec fn int_text(n: int) -> Seq<char> {
    if n < 0 {
        seq!['-'] + decimal((-n) as nat)
    } else {
        decimal(n as nat)
    }
}

fn bool_string(b: bool) -> (s: String)
    ensures
        s@ == bool_text(b),
{
    if b {
        "true".to_string()
    } else {
        "false".to_string()
    }
}

fn i64_string(n: i64) -> (s: String)
    ensures
        s@ == int_text(n as int),
{
    if n < 0 {
        let m: u64 = (0i128 - (n as i128)) as u64;
        let mut v = vec!['-'];
        push_all(&mut v, &decimal_of(m));
        chars_to_string(&v)
    } else {
        chars_to_string(&decimal_of(n as u64))
    }
}

pub open spec fn opt_or_empty(s: Option<String>) -> Seq<char> {
    match s {
        Some(t) => t@,
        None => Seq::empty(),
    }
}

fn clone_or_empty(s: &Option<String>) -> (r: String)
    ensures
        r@ == opt_or_empty(*s),
{
    match s {
        Some(t) => t.clone(),
        None => String::new(),
    }
}

/// A record shown as a row of a table.
pub trait FieldsToArray {
    /// Whether the record can be shown in that mode.
    spec fn can_show(&self, mode: DisplayMode) -> bool;

    /// The texts of the row.
    spec fn row(&self, mode: DisplayMode) -> Seq<Seq<char>>;

    /// The texts of the row, one per column.
    fn to_array(&self, mode: DisplayMode) -> (r: Vec<String>)
        requires
            self.can_show(mode),
        ensures
            strings_view(r@) == self.row(mode),
    ;
}

impl FieldsToArray for User {
    open spec fn can_show(&self, mode: DisplayMode) -> bool {
        true
    }

    /// With every column: id, name, e-mail, password and keys (masked), whether a new
    /// password is due, whether active, who changed it last and when. For managing:
    /// the same without the id and the last change.
    open spec fn row(&self, mode: DisplayMode) -> Seq<Seq<char>> {
        let common = seq![
            self.username@,
            opt_or_empty(self.email),
            masked(self.password_hash is Some),
            masked(self.authorized_keys is Some),
            bool_text(self.force_init_pass),
            bool_text(self.is_active),
        ];
        match mode {
            DisplayMode::Full => seq![self.id@] + common + seq![
                self.updated_by@,
                int_text(self.updated_at as int),
            ],
            DisplayMode::Manage => common,
        }
    }

    fn to_array(&self, mode: DisplayMode) -> (r: Vec<String>) {
        let mut r: Vec<String> = Vec::new();
        if let DisplayMode::Full = mode {
            r.push(self.id.clone());
        }
        r.push(self.username.clone());
        r.push(clone_or_empty(&self.email));
        r.push(self.print_password());
        r.push(self.print_authorized_keys());
        r.push(bool_string(self.force_init_pass));
        r.push(bool_string(self.is_active));
        if let DisplayMode::Full = mode {
            r.push(self.updated_by.clone());
            r.push(i64_string(self.updated_at));
        }
        proof {
            assert(strings_view(r@) =~= self.row(mode));
        }
        r
    }
}

impl FieldsToArray for Secret {
    open spec fn can_show(&self, mode: DisplayMode) -> bool {
        self.public_key matches Some(p) ==> shortenable(p@)
    }

    /// With every column: id, name, account, password and private key (masked), the
    /// public key shortened, whether active, who changed it last and when. For
    /// managing: the same without the id and the last change.
    open spec fn row(&self, mode: DisplayMode) -> Seq<Seq<char>> {
        let public = match self.public_key {
            Some(p) => shortened(p@),
            None => Seq::empty(),
        };
        let common = seq![
            self.name@,
            self.user@,
            masked(self.password is Some),
            masked(self.private_key is Some),
            public,
            bool_text(self.is_active),
        ];
        match mode {
            DisplayMode::Full => seq![self.id@] + common + seq![
                self.updated_by@,
                int_text(self.updated_at as int),
            ],
            DisplayMode::Manage => common,
        }
    }

    fn to_array(&self, mode: DisplayMode) -> (r: Vec<String>) {
        let mut r: Vec<String> = Vec::new();
        if let DisplayMode::Full = mode {
            r.push(self.id.clone());
        }
        r.push(self.name.clone());
        r.push(self.user.clone());
        r.push(self.print_password());
        r.push(self.print_private_key());
        r.push(self.print_public_key());
        r.push(bool_string(self.is_active));
        if let DisplayMode::Full = mode {
            r.push(self.updated_by.clone());
            r.push(i64_string(self.updated_at));
        }
        proof {
            assert(strings_view(r@) =~= self.row(mode));
        }
        r
    }
}

impl FieldsToArray for TargetSecret {
    /// Bindings are only listed in full.
    open spec fn can_show(&self, mode: DisplayMode) -> bool {
        mode == DisplayMode::Full
    }

    /// Id, target id, secret id, whether active, who changed it last and when.
    open spec fn row(&self, mode: DisplayMode) -> Seq<Seq<char>> {
        seq![
            self.id@,
            self.target_id@,
            self.secret_id@,
            bool_text(self.is_active),
            self.updated_by@,
            int_text(self.updated_at as int),
        ]
    }

    fn to_array(&self, mode: DisplayMode) -> (r: Vec<String>) {
        let mut r: Vec<String> = Vec::new();
        r.push(self.id.clone());
        r.push(self.target_id.clone());
        r.push(self.secret_id.clone());
        r.push(bool_string(self.is_active));
        r.push(self.updated_by.clone());
        r.push(i64_string(self.updated_at));
        proof {
            assert(strings_view(r@) =~= self.row(mode));
        }
        r
    }
}


impl FieldsToArray for Log {
    /// Logs are only listed in full.
    open spec fn can_show(&self, mode: DisplayMode) -> bool {
        mode == DisplayMode::Full
    }

    /// Connection, kind, user, detail and time.
    open spec fn row(&self, mode: DisplayMode) -> Seq<Seq<char>> {
        seq![
            self.connection_id@,
            self.log_type@,
            self.user_id@,
            self.detail@,
            int_text(self.created_at as int),
        ]
    }

    fn to_array(&self, mode: DisplayMode) -> (r: Vec<String>) {
        let mut r: Vec<String> = Vec::new();
        r.push(self.connection_id.clone());
        r.push(self.log_type.clone());
        r.push(self.user_id.clone());
        r.push(self.detail.clone());
        r.push(i64_string(self.created_at));
        proof {
            assert(strings_view(r@) =~= self.row(mode));
        }
        r
    }
}

impl FieldsToArray for CasbinRule {
    /// Rules are only listed in full.
    open spec fn can_show(&self, mode: DisplayMode) -> bool {
        mode == DisplayMode::Full
    }

    /// Id, kind, the six values (an absent action is empty), who changed it last and
    /// when.
    open spec fn row(&self, mode: DisplayMode) -> Seq<Seq<char>> {
        seq![
            self.id@,
            self.ptype@,
            self.v0@,
            self.v1@,
            opt_or_empty(self.v2),
            self.v3@,
            self.v4@,
            self.v5@,
            self.updated_by@,
            int_text(self.updated_at as int),
        ]
    }

    fn to_array(&self, mode: DisplayMode) -> (r: Vec<String>) {
        let mut r: Vec<String> = Vec::new();
        r.push(self.id.clone());
        r.push(self.ptype.clone());
        r.push(self.v0.clone());
        r.push(self.v1.clone());
        r.push(clone_or_empty(&self.v2));
        r.push(self.v3.clone());
        r.push(self.v4.clone());
        r.push(self.v5.clone());
        r.push(self.updated_by.clone());
        r.push(i64_string(self.updated_at));
        proof {
            assert(strings_view(r@) =~= self.row(mode));
        }
        r
    }
}

impl FieldsToArray for Target {
    open spec fn can_show(&self, mode: DisplayMode) -> bool {
        shortenable(self.server_public_key@)
    }

    /// With every column: id, name, host name, port, server key (shortened),
    /// description, whether active, who changed it last and when. For managing: the
    /// same without the id and the last change.
    open spec fn row(&self, mode: DisplayMode) -> Seq<Seq<char>> {
        let common = seq![
            self.name@,
            self.hostname@,
            decimal(self.port as nat),
            shortened(self.server_public_key@),
            opt_or_empty(self.description),
            bool_text(self.is_active),
        ];
        match mode {
            DisplayMode::Full => seq![self.id@] + common + seq![
                self.updated_by@,
                int_text(self.updated_at as int),
            ],
            DisplayMode::Manage => common,
        }
    }

    fn to_array(&self, mode: DisplayMode) -> (r: Vec<String>) {
        let mut r: Vec<String> = Vec::new();
        if let DisplayMode::Full = mode {
            r.push(self.id.clone());
        }
        r.push(self.name.clone());
        r.push(self.hostname.clone());
        r.push(chars_to_string(&decimal_of(self.port as u64)));
        r.push(self.print_server_key());
        r.push(clone_or_empty(&self.description));
        r.push(bool_string(self.is_active));
        if let DisplayMode::Full = mode {
            r.push(self.updated_by.clone());
            r.push(i64_string(self.updated_at));
        }
        proof {
            assert(strings_view(r@) =~= self.row(mode));
        }
        r
    }
}

impl FieldsToArray for SecretInfo {
    /// Listed only for managing bindings.
    open spec fn can_show(&self, mode: DisplayMode) -> bool {
        mode == DisplayMode::Manage
    }

    /// Whether bound (`[X]` or `[ ]`), the name and the account.
    open spec fn row(&self, mode: DisplayMode) -> Seq<Seq<char>> {
        seq![if self.is_bound {
            "[X]"@
        } else {
            "[ ]"@
        }, self.name@, self.user@]
    }

    fn to_array(&self, mode: DisplayMode) -> (r: Vec<String>) {
        let mut r: Vec<String> = Vec::new();
        r.push(if self.is_bound {
            "[X]".to_string()
        } else {
            "[ ]".to_string()
        });
        r.push(self.name.clone());
        r.push(self.user.clone());
        proof {
            assert(strings_view(r@) =~= self.row(mode));
        }
        r
    }
}

impl FieldsToArray for TargetInfo {
    /// Listed only for managing bindings.
    open spec fn can_show(&self, mode: DisplayMode) -> bool {
        mode == DisplayMode::Manage
    }

    /// The name, the host name and the port.
    open spec fn row(&self, mode: DisplayMode) -> Seq<Seq<char>> {
        seq![self.name@, self.hostname@, decimal(self.port as nat)]
    }

    fn to_array(&self, mode: DisplayMode) -> (r: Vec<String>) {
        let mut r: Vec<String> = Vec::new();
        r.push(self.name.clone());
        r.push(self.hostname.clone());
        r.push(chars_to_string(&decimal_of(self.port as u64)));
        proof {
            assert(strings_view(r@) =~= self.row(mode));
        }
        r
    }
}

impl FieldsToArray for Role {
    /// Listed only for managing a user's roles.
    open spec fn can_show(&self, mode: DisplayMode) -> bool {
        mode == DisplayMode::Manage
    }

    /// Whether held (`[X]` or `[ ]`) and the role's name.
    open spec fn row(&self, mode: DisplayMode) -> Seq<Seq<char>> {
        seq![if self.is_bound {
            "[X]"@
        } else {
            "[ ]"@
        }, self.role@]
    }

    fn to_array(&self, mode: DisplayMode) -> (r: Vec<String>) {
        let mut r: Vec<String> = Vec::new();
        r.push(if self.is_bound {
            "[X]".to_string()
        } else {
            "[ ]".to_string()
        });
        r.push(self.role.clone());
        proof {
            assert(strings_view(r@) =~= self.row(mode));
        }
        r
    }
}

// ---------------------------------------------------------------------------
// Column widths
// ---------------------------------------------------------------------------

/// The number of terminal columns a text takes (`UnicodeWidthStr::width`: wide
/// characters take two, combining marks none, and so on).
pub uninterp spec fn spec_display_width(s: Seq<char>) -> usize;

/// `UnicodeWidthStr::width`. Claimed: the named width.
#[verifier::external_body]
pub(crate) fn display_width(s: &str) -> (w: usize)
    ensures
        w == spec_display_width(s@),
{
    UnicodeWidthStr::width(s)
}

/// The widest of the first `n` texts, or `floor` if that is wider.
pub open spec fn widest(texts: Seq<Seq<char>>, n: int, floor: usize) -> usize
    decreases n,
{
    if n <= 0 {
        floor
    } else {
        let w = spec_display_width(texts[n - 1]);
        let rest = widest(texts, n - 1, floor);
        if w > rest {
            w
        } else {
            rest
        }
    }
}

pub open spec fn secret_names(data: Seq<SecretInfo>) -> Seq<Seq<char>> {
    data.map_values(|s: SecretInfo| s.name@)
}

pub open spec fn secret_users(data: Seq<SecretInfo>) -> Seq<Seq<char>> {
    data.map_values(|s: SecretInfo| s.user@)
}

/// The widths of the columns listing secrets: the check mark, the name and the
/// account, each column as wide as its widest text and at least as wide as its
/// header; a width is cut to 16 bits.
pub fn secret_len_calculator(data: &Vec<SecretInfo>) -> (r: Vec<u16>)
    ensures
        r@ == seq![
            4u16,
            widest(secret_names(data@), data@.len() as int, 4) as u16,
            widest(secret_users(data@), data@.len() as int, 4) as u16,
        ],
{
    let mut name_len: usize = 4;
    let mut user_len: usize = 4;
    let mut i: usize = 0;
    while i < data.len()
        invariant
            i <= data.len(),
            name_len == widest(secret_names(data@), i as int, 4),
            user_len == widest(secret_users(data@), i as int, 4),
        decreases data.len() - i,
    {
        let w = display_width(data[i].name.as_str());
        assert(secret_names(data@)[i as int] == data@[i as int].name@);
        if w > name_len {
            name_len = w;
        }
        let u = display_width(data[i].user.as_str());
        assert(secret_users(data@)[i as int] == data@[i as int].user@);
        if u > user_len {
            user_len = u;
        }
        i = i + 1;
    }
    vec![4, name_len as u16, user_len as u16]
}

/// A column is at least as wide as its header and as each of its texts.
pub proof fn law_widest_bounds(texts: Seq<Seq<char>>, n: int, floor: usize)
    requires
        0 <= n <= texts.len(),
    ensures
        widest(texts, n, floor) >= floor,
        forall|i: int| 0 <= i < n ==> widest(texts, n, floor) >= spec_display_width(#[trigger] texts[i]),
        widest(texts, n, floor) == floor || exists|i: int| 0 <= i < n && widest(texts, n, floor)
            == spec_display_width(#[trigger] texts[i]),
    decreases n,
{
    if n > 0 {
        law_widest_bounds(texts, n - 1, floor);
    }
}

} // verus!
