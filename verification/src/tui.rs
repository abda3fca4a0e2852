//! The administration console's own state: which tab, field or table has the
//! focus, and the messages shown in dialogs.
use vstd::prelude::*;

verus! {

// ---------------------------------------------------------------------------
// Keys
// ---------------------------------------------------------------------------

/// A key pressed on the console, as the screens of the console tell keys apart.
#[derive(Clone, Copy, Debug, PartialEq, Eq, Structural)]
pub enum Key {
    Char(char),
    Enter,
    Esc,
    Tab,
    BackTab,
    Up,
    Down,
    Left,
    Right,
    PageUp,
    PageDown,
    Home,
    End,
    Backspace,
    Delete,
    /// Any other key.
    Other,
}

// ---------------------------------------------------------------------------
// Tabs of the management screen
// ---------------------------------------------------------------------------

/// The tabs of the management screen, in the order they are shown.
#[derive(Clone, Copy, Debug, PartialEq, Eq, Structural)]
pub enum SelectedTab {
    Users,
    Targets,
    Secrets,
    Bind,
    Permissions,
    CasbinNames,
    RoleHierarchy,
    TargetGroup,
    ActionGroup,
}

/// The position of a tab, from 0.
pub open spec fn tab_index(t: SelectedTab) -> nat {
    match t {
        SelectedTab::Users => 0,
        SelectedTab::Targets => 1,
        SelectedTab::Secrets => 2,
        SelectedTab::Bind => 3,
        SelectedTab::Permissions => 4,
        SelectedTab::CasbinNames => 5,
        SelectedTab::RoleHierarchy => 6,
        SelectedTab::TargetGroup => 7,
        SelectedTab::ActionGroup => 8,
    }
}

/// The tab at position `i` (taken modulo the number of tabs).
pub open spec fn tab_at(i: nat) -> SelectedTab {
    let k = i % 9;
    if k == 0 {
        SelectedTab::Users
    } else if k == 1 {
        SelectedTab::Targets
    } else if k == 2 {
        SelectedTab::Secrets
    } else if k == 3 {
        SelectedTab::Bind
    } else if k == 4 {
        SelectedTab::Permissions
    } else if k == 5 {
        SelectedTab::CasbinNames
    } else if k == 6 {
        SelectedTab::RoleHierarchy
    } else if k == 7 {
        SelectedTab::TargetGroup
    } else {
        SelectedTab::ActionGroup
    }
}

/// The tab after `t`; after the last comes the first.
pub open spec fn next_tab(t: SelectedTab) -> SelectedTab {
    tab_at(tab_index(t) + 1)
}

/// The tab before `t`; before the first comes the last.
pub open spec fn previous_tab(t: SelectedTab) -> SelectedTab {
    tab_at(tab_index(t) + 8)
}

/// `next_tab` applied `n` times.
pub open spec fn advance_tab(t: SelectedTab, n: nat) -> SelectedTab
    decreases n,
{
    if n == 0 {
        t
    } else {
        advance_tab(next_tab(t), (n - 1) as nat)
    }
}

impl SelectedTab {
    /// The next tab, wrapping around to the first.
    pub fn next(&self) -> (r: Self)
        ensures
            r == next_tab(*self),
    {
        match self {
            SelectedTab::Users => SelectedTab::Targets,
            SelectedTab::Targets => SelectedTab::Secrets,
            SelectedTab::Secrets => SelectedTab::Bind,
            SelectedTab::Bind => SelectedTab::Permissions,
            SelectedTab::Permissions => SelectedTab::CasbinNames,
            SelectedTab::CasbinNames => SelectedTab::RoleHierarchy,
            SelectedTab::RoleHierarchy => SelectedTab::TargetGroup,
            SelectedTab::TargetGroup => SelectedTab::ActionGroup,
            SelectedTab::ActionGroup => SelectedTab::Users,
        }
    }

    /// The previous tab, wrapping around to the last.
    pub fn previous(&self) -> (r: Self)
        ensures
            r == previous_tab(*self),
    {
        match self {
            SelectedTab::Users => SelectedTab::ActionGroup,
            SelectedTab::Targets => SelectedTab::Users,
            SelectedTab::Secrets => SelectedTab::Targets,
            SelectedTab::Bind => SelectedTab::Secrets,
            SelectedTab::Permissions => SelectedTab::Bind,
            SelectedTab::CasbinNames => SelectedTab::Permissions,
            SelectedTab::RoleHierarchy => SelectedTab::CasbinNames,
            SelectedTab::TargetGroup => SelectedTab::RoleHierarchy,
            SelectedTab::ActionGroup => SelectedTab::TargetGroup,
        }
    }
}

/// Going to the next tab and back, or back and then forward, returns to the same tab.
pub proof fn law_tab_next_previous(t: SelectedTab)
    ensures
        previous_tab(next_tab(t)) == t,
        next_tab(previous_tab(t)) == t,
{
}

/// Pressing "next tab" once per tab visits every tab and comes back to the start.
pub proof fn law_tab_cycle(t: SelectedTab)
    ensures
        advance_tab(t, 9) == t,
        forall|i: nat, j: nat| i < j < 9 ==> advance_tab(t, i) != advance_tab(t, j),
{
    assert(advance_tab(t, 9) == t) by {
        lemma_advance_index(t, 9);
        assert((tab_index(t) + 9) % 9 == tab_index(t));
        lemma_tab_index_injective(advance_tab(t, 9), t);
    }
    assert forall|i: nat, j: nat| i < j < 9 implies advance_tab(t, i) != advance_tab(t, j) by {
        lemma_advance_index(t, i);
        lemma_advance_index(t, j);
        lemma_mod_distinct(tab_index(t), i, j);
        lemma_tab_index_injective(advance_tab(t, i), advance_tab(t, j));
    }
}

proof fn lemma_tab_index_injective(u: SelectedTab, v: SelectedTab)
    ensures
        tab_index(u) == tab_index(v) ==> u == v,
{
}

proof fn lemma_mod_distinct(a: nat, i: nat, j: nat)
    requires
        a < 9,
        i < j < 9,
    ensures
        (a + i) % 9 != (a + j) % 9,
{
    if a + i < 9 && a + j < 9 {
    } else if a + i < 9 {
        assert((a + j) % 9 == a + j - 9);
    } else {
        assert((a + i) % 9 == a + i - 9);
        assert((a + j) % 9 == a + j - 9);
    }
}

proof fn lemma_advance_index(t: SelectedTab, n: nat)
    ensures
        tab_index(advance_tab(t, n)) == (tab_index(t) + n) % 9,
    decreases n,
{
    if n > 0 {
        let u = next_tab(t);
        lemma_advance_index(u, (n - 1) as nat);
        let a = tab_index(t) as int;
        assert(tab_index(u) == (a + 1) % 9) by {
            lemma_index_of_tab_at((a + 1) as nat);
        }
        assert(((n - 1) as int + (a + 1) % 9) % 9 == ((n - 1) as int + (a + 1)) % 9) by {
            vstd::arithmetic::div_mod::lemma_add_mod_noop_right((n - 1) as int, a + 1, 9);
        }
    }
}

proof fn lemma_index_of_tab_at(i: nat)
    ensures
        tab_index(tab_at(i)) == i % 9,
{
}

// ---------------------------------------------------------------------------
// Fields of the permission editor
// ---------------------------------------------------------------------------

/// The input fields of the permission editor, in tab order.
#[derive(Clone, Copy, Debug, PartialEq, Eq, Structural)]
pub enum InputField {
    User,
    Target,
    Action,
    ExtendPolicy,
}

pub open spec fn field_index(f: InputField) -> nat {
    match f {
        InputField::User => 0,
        InputField::Target => 1,
        InputField::Action => 2,
        InputField::ExtendPolicy => 3,
    }
}

pub open spec fn field_at(i: nat) -> InputField {
    let k = i % 4;
    if k == 0 {
        InputField::User
    } else if k == 1 {
        InputField::Target
    } else if k == 2 {
        InputField::Action
    } else {
        InputField::ExtendPolicy
    }
}

impl InputField {
    /// The next field, wrapping around to the first.
    pub fn next(&self) -> (r: Self)
        ensures
            r == field_at(field_index(*self) + 1),
    {
        match self {
            InputField::User => InputField::Target,
            InputField::Target => InputField::Action,
            InputField::Action => InputField::ExtendPolicy,
            InputField::ExtendPolicy => InputField::User,
        }
    }

    /// The previous field, wrapping around to the last.
    pub fn previous(&self) -> (r: Self)
        ensures
            r == field_at(field_index(*self) + 3),
    {
        match self {
            InputField::User => InputField::ExtendPolicy,
            InputField::Target => InputField::User,
            InputField::Action => InputField::Target,
            InputField::ExtendPolicy => InputField::Action,
        }
    }
}

/// Moving to the next field and back returns to the same field, and so does the
/// reverse.
pub proof fn law_field_next_previous(f: InputField)
    ensures
        field_at(field_index(field_at(field_index(f) + 1)) + 3) == f,
        field_at(field_index(field_at(field_index(f) + 3)) + 1) == f,
{
}

// ---------------------------------------------------------------------------
// The two tables of the binding editor
// ---------------------------------------------------------------------------

/// Which of the two tables of the binding editor has the focus.
#[derive(Clone, Copy, Debug, PartialEq, Eq, Structural)]
pub enum FocusedTable {
    /// The targets.
    Left,
    /// The secrets.
    Right,
}

pub open spec fn other_table(t: FocusedTable) -> FocusedTable {
    match t {
        FocusedTable::Left => FocusedTable::Right,
        FocusedTable::Right => FocusedTable::Left,
    }
}

impl FocusedTable {
    /// The other table.
    pub fn next(&self) -> (r: Self)
        ensures
            r == other_table(*self),
            r != *self,
    {
        match self {
            FocusedTable::Left => FocusedTable::Right,
            FocusedTable::Right => FocusedTable::Left,
        }
    }
}

/// Switching tables twice gives the focus back to the first table.
pub proof fn law_focus_toggle(t: FocusedTable)
    ensures
        other_table(other_table(t)) == t,
{
}

// ---------------------------------------------------------------------------
// Dialog messages
// ---------------------------------------------------------------------------

/// A message shown in a dialog, with its severity.
pub enum Message {
    Info(Vec<String>),
    Warning(Vec<String>),
    Error(Vec<String>),
    Success(Vec<String>),
}

/// The lines of a message, whatever its severity.
pub open spec fn message_lines(m: &Message) -> Seq<String> {
    match m {
        Message::Info(lines) => lines@,
        Message::Warning(lines) => lines@,
        Message::Error(lines) => lines@,
        Message::Success(lines) => lines@,
    }
}

/// The severity of a message.
#[derive(Clone, Copy, Debug, PartialEq, Eq, Structural)]
pub enum MessageKind {
    Info,
    Warning,
    Error,
    Success,
}

/// A message as it is shown: its severity and the texts of its lines.
pub struct ShownMessage {
    pub kind: MessageKind,
    pub lines: Seq<Seq<char>>,
}

/// How a message is shown.
pub open spec fn shown(m: &Message) -> ShownMessage {
    ShownMessage {
        kind: match m {
            Message::Info(_) => MessageKind::Info,
            Message::Warning(_) => MessageKind::Warning,
            Message::Error(_) => MessageKind::Error,
            Message::Success(_) => MessageKind::Success,
        },
        lines: message_lines(m).map_values(|s: String| s@),
    }
}

/// How an optional message is shown.
pub open spec fn shown_opt(m: Option<Message>) -> Option<ShownMessage> {
    match m {
        Some(m) => Some(shown(&m)),
        None => None,
    }
}

impl Message {
    /// The lines of the message.
    pub fn lines(&self) -> (r: &[String])
        ensures
            r@ == message_lines(self),
    {
        match self {
            Message::Info(lines) => lines.as_slice(),
            Message::Warning(lines) => lines.as_slice(),
            Message::Error(lines) => lines.as_slice(),
            Message::Success(lines) => lines.as_slice(),
        }
    }

    /// The number of lines.
    pub fn len(&self) -> (n: usize)
        ensures
            n == message_lines(self).len(),
    {
        match self {
            Message::Info(lines) => lines.len(),
            Message::Warning(lines) => lines.len(),
            Message::Error(lines) => lines.len(),
            Message::Success(lines) => lines.len(),
        }
    }
}

/// Which columns a table row shows: all of them, or those an administrator edits.
#[derive(Clone, Copy, Debug, PartialEq, Eq, Structural)]
pub enum DisplayMode {
    Full,
    Manage,
}

/// How a console screen ended: with the exit status sent to the client.
#[derive(Clone, Copy, Debug, PartialEq, Eq, Structural)]
pub enum Status {
    Terminate(u32),
}

// ---------------------------------------------------------------------------
// Scrolling back through a played recording
// ---------------------------------------------------------------------------

/// How many lines a played recording keeps above the screen.
pub const SCROLLBACK_LEN: usize = 1000;

/// How far the player has scrolled back, and by how much one step scrolls (a
/// screenful).
pub struct Scrollback {
    pub scroll_position: usize,
    pub scroll_size: usize,
}

impl Scrollback {
    /// One step back, stopping at the oldest kept line.
    pub fn increase_scroll_position(&mut self)
        requires
            old(self).scroll_position + old(self).scroll_size <= usize::MAX,
        ensures
            final(self).scroll_size == old(self).scroll_size,
            final(self).scroll_position == if old(self).scroll_position + old(self).scroll_size
                > SCROLLBACK_LEN {
                SCROLLBACK_LEN as int
            } else {
                old(self).scroll_position + old(self).scroll_size
            },
    {
        self.scroll_position = self.scroll_position + self.scroll_size;
        if self.scroll_position > SCROLLBACK_LEN {
            self.scroll_position = SCROLLBACK_LEN;
        }
    }

    /// One step forward, stopping at the live screen.
    pub fn decrease_scroll_position(&mut self)
        ensures
            final(self).scroll_size == old(self).scroll_size,
            final(self).scroll_position == if old(self).scroll_position < old(self).scroll_size {
                0
            } else {
                old(self).scroll_position - old(self).scroll_size
            },
    {
        self.scroll_position = self.scroll_position.saturating_sub(self.scroll_size);
    }
}

/// Scrolling stays within the kept lines: starting inside them, a step back or
/// forward ends inside them.
pub proof fn law_scroll_within_kept(position: usize, size: usize)
    requires
        position <= SCROLLBACK_LEN,
        size <= SCROLLBACK_LEN,
    ensures
        (if position + size > SCROLLBACK_LEN {
            SCROLLBACK_LEN as int
        } else {
            position + size
        }) <= SCROLLBACK_LEN,
        (if position < size {
            0
        } else {
            position - size
        }) <= position,
{
}

// ---------------------------------------------------------------------------
// Multi-line text fields
// ---------------------------------------------------------------------------

/// What a multi-line text field does with a key press.
#[derive(Clone, Copy, Debug, PartialEq, Eq, Structural)]
pub enum MultiLineAction {
    /// Hand the focus back to the form.
    Leave,
    /// Stop editing, keeping each line trimmed and dropping the empty ones.
    Commit,
    /// Delete the line under the cursor.
    DeleteLine,
    /// Open a new line below the last one and start editing it.
    OpenLine,
    MoveUp,
    MoveDown,
    /// Start editing, the cursor at the start of the line (for `i`) or at its end.
    StartEditing { at_head: bool },
    /// Type the key into the text.
    Type(Key),
    /// Nothing.
    Ignore,
}

/// The action of a key on a multi-line text field, edited or not. While it is not
/// edited: Esc or `q` leave, `d` deletes a line, `o` opens one, the arrows (or `j`,
/// `k`) move, and Enter, `i` or `a` start editing. While it is edited: Esc commits
/// and every other key is typed.
pub open spec fn multi_line_spec(editing: bool, key: Key) -> MultiLineAction {
    if !editing {
        if key == Key::Esc || key == Key::Char('q') {
            MultiLineAction::Leave
        } else if key == Key::Char('d') {
            MultiLineAction::DeleteLine
        } else if key == Key::Char('o') {
            MultiLineAction::OpenLine
        } else if key == Key::Up || key == Key::Char('k') {
            MultiLineAction::MoveUp
        } else if key == Key::Down || key == Key::Char('j') {
            MultiLineAction::MoveDown
        } else if key == Key::Enter || key == Key::Char('i') || key == Key::Char('a') {
            MultiLineAction::StartEditing { at_head: key == Key::Char('i') }
        } else {
            MultiLineAction::Ignore
        }
    } else if key == Key::Esc {
        MultiLineAction::Commit
    } else {
        MultiLineAction::Type(key)
    }
}

/// Whether the field is edited after an action.
pub open spec fn editing_after(editing: bool, a: MultiLineAction) -> bool {
    match a {
        MultiLineAction::Commit => false,
        MultiLineAction::OpenLine | MultiLineAction::StartEditing { .. } => true,
        _ => editing,
    }
}

/// The action of a key on a multi-line text field, and whether it is edited after.
pub fn multi_line_action(editing: bool, key: Key) -> (r: (MultiLineAction, bool))
    ensures
        r.0 == multi_line_spec(editing, key),
        r.1 == editing_after(editing, r.0),
{
    let a = if !editing {
        if key == Key::Esc || key == Key::Char('q') {
            MultiLineAction::Leave
        } else if key == Key::Char('d') {
            MultiLineAction::DeleteLine
        } else if key == Key::Char('o') {
            MultiLineAction::OpenLine
        } else if key == Key::Up || key == Key::Char('k') {
            MultiLineAction::MoveUp
        } else if key == Key::Down || key == Key::Char('j') {
            MultiLineAction::MoveDown
        } else if key == Key::Enter || key == Key::Char('i') || key == Key::Char('a') {
            MultiLineAction::StartEditing { at_head: key == Key::Char('i') }
        } else {
            MultiLineAction::Ignore
        }
    } else if key == Key::Esc {
        MultiLineAction::Commit
    } else {
        MultiLineAction::Type(key)
    };
    let after = match a {
        MultiLineAction::Commit => false,
        MultiLineAction::OpenLine | MultiLineAction::StartEditing { .. } => true,
        _ => editing,
    };
    (a, after)
}

/// Every key typed while a multi-line field is edited reaches the text, except Esc,
/// which ends the editing; and a field that is not edited never types a key.
pub proof fn law_multi_line_typing(editing: bool, key: Key)
    ensures
        editing ==> (multi_line_spec(editing, key) is Type <==> key != Key::Esc),
        !editing ==> !(multi_line_spec(editing, key) is Type),
        editing_after(editing, multi_line_spec(editing, key)) == (if editing {
            key != Key::Esc
        } else {
            multi_line_spec(editing, key) is OpenLine || multi_line_spec(editing, key) is StartEditing
        }),
{
}

} // verus!
