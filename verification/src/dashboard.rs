//! The interactive dashboard as a state machine: two lists of entries (the
//! preserved items and the history), a selection in each, the active pane,
//! the open view, the chosen theme and a status line. Keys and the results
//! of outside work (restores, purges, reloads from the database) move it
//! from state to state; the caller draws it, reads keys and does the work
//! that a step asks for.

use vstd::prelude::*;
use crate::records::{EntryRecord, LINK_SYMLINK, STATUS_EXCLUDED, STATUS_PURGED, STATUS_RESTORED};
use crate::text::str_eq;
use crate::text::{chars_of, concat3};
use crate::theme::{theme_name_at, theme_names, THEME_COUNT};

verus! {

/// What the dashboard shows on top of the two lists.
#[derive(Debug, Clone, Copy, PartialEq, Eq, Structural)]
pub enum ViewMode {
    Browsing,
    ActionMenu,
    InspectModal,
    ExclusionModal,
}

/// The list that the cursor keys move in.
#[derive(Debug, Clone, Copy, PartialEq, Eq, Structural)]
pub enum ActivePane {
    Preserved,
    History,
}

/// A key press, as far as the dashboard tells keys apart.
#[derive(Debug, Clone, Copy, PartialEq, Eq, Structural)]
pub enum Key {
    /// A character key; `ctrl` when Control was held.
    Char { c: char, ctrl: bool },
    Tab,
    BackTab,
    Left,
    Right,
    Up,
    Down,
    Enter,
    Esc,
    F5,
    /// Any other key.
    Other,
}

/// The outside work that a key asks for.
#[derive(Debug, Clone, Copy, PartialEq, Eq, Structural)]
pub enum Command {
    /// Nothing to do but draw again.
    Stay,
    /// Leave the dashboard.
    Quit,
    /// Remember the theme at this position in the configuration.
    SaveTheme(usize),
    /// Restore the preserved entry at `index` (keeping the vault copy when
    /// `keep_vault`), then report back with `complete`.
    Restore { index: usize, keep_vault: bool, from_menu: bool },
    /// Purge the preserved entry at `index`, then report back with
    /// `complete`.
    Purge { index: usize, from_menu: bool },
}

/// The number of entries in the action menu.
pub const MENU_ITEMS: usize = 5;

/// The dashboard's state.
pub struct Dashboard {
    pub preserved: Vec<EntryRecord>,
    pub history: Vec<EntryRecord>,
    pub selected: Option<usize>,
    pub history_selected: Option<usize>,
    pub theme: usize,
    pub pane: ActivePane,
    pub mode: ViewMode,
    pub action: usize,
    pub status: Option<String>,
    pub data_version: i64,
}

/// The dashboard's state, with its texts as character sequences.
#[verifier::ext_equal]
pub struct DashModel {
    pub preserved: Seq<EntryRecord>,
    pub history: Seq<EntryRecord>,
    pub selected: Option<usize>,
    pub history_selected: Option<usize>,
    pub theme: usize,
    pub pane: ActivePane,
    pub mode: ViewMode,
    pub action: usize,
    pub status: Option<Seq<char>>,
    pub version: i64,
}

impl View for Dashboard {
    type V = DashModel;

    open spec fn view(&self) -> DashModel {
        DashModel {
            preserved: self.preserved@,
            history: self.history@,
            selected: self.selected,
            history_selected: self.history_selected,
            theme: self.theme,
            pane: self.pane,
            mode: self.mode,
            action: self.action,
            status: match self.status {
                Some(s) => Some(s@),
                None => None,
            },
            version: self.data_version,
        }
    }
}

/// The lists read back from the database after a restore or a purge, and
/// the data version when it was read again.
pub struct Reloaded {
    pub preserved: Vec<EntryRecord>,
    pub history: Vec<EntryRecord>,
    pub version: Option<i64>,
}

/// The state is sound: a non-empty preserved list has a selected row within
/// it, the menu cursor is on one of its entries and the theme exists.
pub open spec fn well_formed(m: DashModel) -> bool {
    &&& (m.preserved.len() > 0 ==> (m.selected matches Some(i) && i < m.preserved.len()))
    &&& m.action < MENU_ITEMS
    &&& m.theme < THEME_COUNT
}

/// The state at start: the first row of each non-empty list selected, the
/// preserved pane active, nothing open.
pub open spec fn initial(preserved: Seq<EntryRecord>, history: Seq<EntryRecord>, theme: usize, version: i64) -> DashModel {
    DashModel {
        preserved,
        history,
        selected: if preserved.len() > 0 { Some(0usize) } else { None },
        history_selected: if history.len() > 0 { Some(0usize) } else { None },
        theme,
        pane: ActivePane::Preserved,
        mode: ViewMode::Browsing,
        action: 0,
        status: None,
        version,
    }
}

/// The row below `sel` in a list of `len > 0` rows, staying on the last.
pub open spec fn row_below(sel: Option<usize>, len: nat) -> Option<usize> {
    let cur = match sel {
        Some(i) => i as int,
        None => 0,
    };
    Some((if cur + 1 < len { cur + 1 } else { len - 1 }) as usize)
}

/// The row above `sel`, staying on the first.
pub open spec fn row_above(sel: Option<usize>) -> Option<usize> {
    let cur = match sel {
        Some(i) => i as int,
        None => 0,
    };
    Some((if cur > 0 { cur - 1 } else { 0 }) as usize)
}

/// Moves to the history pane when it has entries (selecting its first row
/// if none is), else says that there is no history yet.
pub open spec fn to_history(m: DashModel) -> DashModel {
    if m.history.len() > 0 {
        DashModel {
            pane: ActivePane::History,
            history_selected: if m.history_selected is None { Some(0usize) } else { m.history_selected },
            status: None,
            ..m
        }
    } else {
        DashModel { status: Some("No records in history yet"@), ..m }
    }
}

/// Moves to the preserved pane.
pub open spec fn to_preserved(m: DashModel) -> DashModel {
    DashModel { pane: ActivePane::Preserved, status: None, ..m }
}

/// Moves the cursor of the active pane one row down.
pub open spec fn cursor_down(m: DashModel) -> DashModel {
    match m.pane {
        ActivePane::Preserved => if m.preserved.len() > 0 {
            DashModel { selected: row_below(m.selected, m.preserved.len()), status: None, ..m }
        } else {
            m
        },
        ActivePane::History => if m.history.len() > 0 {
            DashModel { history_selected: row_below(m.history_selected, m.history.len()), status: None, ..m }
        } else {
            m
        },
    }
}

/// Moves the cursor of the active pane one row up.
pub open spec fn cursor_up(m: DashModel) -> DashModel {
    match m.pane {
        ActivePane::Preserved => if m.preserved.len() > 0 {
            DashModel { selected: row_above(m.selected), status: None, ..m }
        } else {
            m
        },
        ActivePane::History => if m.history.len() > 0 {
            DashModel { history_selected: row_above(m.history_selected), status: None, ..m }
        } else {
            m
        },
    }
}

/// Enter opens the action menu on a preserved entry, or inspects a history
/// entry.
pub open spec fn open_view(m: DashModel) -> DashModel {
    match m.pane {
        ActivePane::Preserved => if m.preserved.len() > 0 {
            DashModel { mode: ViewMode::ActionMenu, action: 0, ..m }
        } else {
            m
        },
        ActivePane::History => if m.history.len() > 0 {
            DashModel { mode: ViewMode::InspectModal, ..m }
        } else {
            m
        },
    }
}

/// Asks for a reload at the next refresh.
pub open spec fn forced_refresh(m: DashModel) -> DashModel {
    DashModel { version: -1i64, status: Some("Refreshed"@), ..m }
}

/// The selected preserved row, when it is within the list.
pub open spec fn selected_row(m: DashModel) -> Option<usize> {
    match m.selected {
        Some(i) => if i < m.preserved.len() { Some(i) } else { None },
        None => None,
    }
}

/// The quick restore (`r`) or purge (`x`) of the selected preserved entry.
pub open spec fn quick_command(m: DashModel, purge: bool) -> Command {
    if m.pane == ActivePane::Preserved {
        match selected_row(m) {
            Some(i) => if purge {
                Command::Purge { index: i, from_menu: false }
            } else {
                Command::Restore { index: i, keep_vault: false, from_menu: false }
            },
            None => Command::Stay,
        }
    } else {
        Command::Stay
    }
}

/// One key while browsing the lists.
pub open spec fn browse_step(m: DashModel, k: Key) -> (DashModel, Command) {
    match k {
        Key::Char { c, ctrl } => if c == 'q' {
            (m, Command::Quit)
        } else if c == 't' {
            let t = ((m.theme + 1) % (THEME_COUNT as int)) as usize;
            (DashModel { theme: t, status: Some("Switched theme to "@ + theme_names()[t as int]), ..m }, Command::SaveTheme(t))
        } else if c == 'l' {
            (if m.pane == ActivePane::Preserved { to_history(m) } else { m }, Command::Stay)
        } else if c == 'h' {
            (if m.pane == ActivePane::History { to_preserved(m) } else { m }, Command::Stay)
        } else if c == 'j' {
            (cursor_down(m), Command::Stay)
        } else if c == 'k' {
            (cursor_up(m), Command::Stay)
        } else if c == 'r' && ctrl {
            (forced_refresh(m), Command::Stay)
        } else if c == 'r' {
            (m, quick_command(m, false))
        } else if c == 'x' {
            (m, quick_command(m, true))
        } else if c == 'e' {
            (DashModel { mode: ViewMode::ExclusionModal, ..m }, Command::Stay)
        } else {
            (m, Command::Stay)
        },
        Key::Tab | Key::BackTab => (
            if m.pane == ActivePane::Preserved { to_history(m) } else { to_preserved(m) },
            Command::Stay,
        ),
        Key::Right => (if m.pane == ActivePane::Preserved { to_history(m) } else { m }, Command::Stay),
        Key::Left => (if m.pane == ActivePane::History { to_preserved(m) } else { m }, Command::Stay),
        Key::Down => (cursor_down(m), Command::Stay),
        Key::Up => (cursor_up(m), Command::Stay),
        Key::Enter => (open_view(m), Command::Stay),
        Key::F5 => (forced_refresh(m), Command::Stay),
        _ => (m, Command::Stay),
    }
}

/// Runs the menu entry under the cursor on the selected preserved entry:
/// restore (consuming or keeping the vault copy), inspect, purge, or show
/// the original path. Without a selected entry nothing happens.
pub open spec fn run_action(m: DashModel) -> (DashModel, Command) {
    match selected_row(m) {
        None => (m, Command::Stay),
        Some(i) => if m.action == 0 {
            (m, Command::Restore { index: i, keep_vault: false, from_menu: true })
        } else if m.action == 1 {
            (m, Command::Restore { index: i, keep_vault: true, from_menu: true })
        } else if m.action == 2 {
            (DashModel { mode: ViewMode::InspectModal, ..m }, Command::Stay)
        } else if m.action == 3 {
            (m, Command::Purge { index: i, from_menu: true })
        } else if m.action == 4 {
            (
                DashModel {
                    status: Some("Path: "@ + m.preserved[i as int].original_path@),
                    mode: ViewMode::Browsing,
                    ..m
                },
                Command::Stay,
            )
        } else {
            (m, Command::Stay)
        },
    }
}

/// One key in the action menu.
pub open spec fn menu_step(m: DashModel, k: Key) -> (DashModel, Command) {
    match k {
        Key::Esc => (DashModel { mode: ViewMode::Browsing, ..m }, Command::Stay),
        Key::Char { c, ctrl } => if c == 'q' {
            (DashModel { mode: ViewMode::Browsing, ..m }, Command::Stay)
        } else if c == 'j' {
            (DashModel { action: if m.action + 1 < MENU_ITEMS { (m.action + 1) as usize } else { 4usize }, ..m }, Command::Stay)
        } else if c == 'k' {
            (DashModel { action: if m.action > 0 { (m.action - 1) as usize } else { 0usize }, ..m }, Command::Stay)
        } else if '1' <= c && c <= '5' {
            run_action(DashModel { action: ((c as u32) - ('1' as u32)) as usize, ..m })
        } else {
            (m, Command::Stay)
        },
        Key::Down => (DashModel { action: if m.action + 1 < MENU_ITEMS { (m.action + 1) as usize } else { 4usize }, ..m }, Command::Stay),
        Key::Up => (DashModel { action: if m.action > 0 { (m.action - 1) as usize } else { 0usize }, ..m }, Command::Stay),
        Key::Enter => run_action(m),
        _ => (m, Command::Stay),
    }
}

/// One key: the open view decides what it means. Inspection closes on
/// Esc, `q` or Enter; the rules view also on `e`.
pub open spec fn key_step(m: DashModel, k: Key) -> (DashModel, Command) {
    match m.mode {
        ViewMode::Browsing => browse_step(m, k),
        ViewMode::ActionMenu => menu_step(m, k),
        ViewMode::InspectModal => if k == Key::Esc || k == Key::Enter || k matches Key::Char { c: 'q', .. } {
            (DashModel { mode: ViewMode::Browsing, ..m }, Command::Stay)
        } else {
            (m, Command::Stay)
        },
        ViewMode::ExclusionModal => if k == Key::Esc || k == Key::Enter || k matches Key::Char { c: 'q', .. }
            || k matches Key::Char { c: 'e', .. } {
            (DashModel { mode: ViewMode::Browsing, ..m }, Command::Stay)
        } else {
            (m, Command::Stay)
        },
    }
}

/// The lists read back, with their entries as they are.
pub struct ReloadModel {
    pub preserved: Seq<EntryRecord>,
    pub history: Seq<EntryRecord>,
    pub version: Option<i64>,
}

impl View for Reloaded {
    type V = ReloadModel;

    open spec fn view(&self) -> ReloadModel {
        ReloadModel { preserved: self.preserved@, history: self.history@, version: self.version }
    }
}

/// After the lists were read again: they replace the shown ones, the
/// history gets its first row selected if it had none, a preserved selection
/// past the end moves to the last row, and the data version read with them
/// is taken when `take_version`.
pub open spec fn after_reload(m: DashModel, index: usize, r: ReloadModel, take_version: bool) -> DashModel {
    DashModel {
        preserved: r.preserved,
        history: r.history,
        history_selected: if m.history_selected is None && r.history.len() > 0 { Some(0usize) } else { m.history_selected },
        selected: if index >= r.preserved.len() && r.preserved.len() > 0 {
            Some((r.preserved.len() - 1) as usize)
        } else {
            m.selected
        },
        version: if take_version {
            match r.version {
                Some(v) => v,
                None => m.version,
            }
        } else {
            m.version
        },
        ..m
    }
}

/// Applies a reload when there is one.
pub open spec fn maybe_reload(m: DashModel, index: usize, r: Option<ReloadModel>, take_version: bool) -> DashModel {
    match r {
        Some(r) => after_reload(m, index, r, take_version),
        None => m,
    }
}

/// What the dashboard shows once the work that `cmd` asked for is done:
/// `error` is the message of a failed restore, `reload` the lists read
/// afterwards. A restore that keeps the vault copy changes no list. Work
/// started from the menu closes it, and leaves the data version to the next
/// refresh.
pub open spec fn completion(m: DashModel, cmd: Command, error: Option<Seq<char>>, reload: Option<ReloadModel>) -> DashModel {
    match cmd {
        Command::Restore { index, keep_vault, from_menu } => {
            let name = m.preserved[index as int].filename@;
            let done = match error {
                Some(e) => DashModel { status: Some("Restore error: "@ + e), ..m },
                None => if keep_vault {
                    DashModel { status: Some("Restored '"@ + name + "' (vault copy kept)"@), ..m }
                } else if from_menu {
                    maybe_reload(
                        DashModel { status: Some("Restored '"@ + name + "' (consumed from vault)"@), ..m },
                        index,
                        reload,
                        false,
                    )
                } else {
                    maybe_reload(
                        DashModel { status: Some("Restored '"@ + name + "' to original path"@), ..m },
                        index,
                        reload,
                        true,
                    )
                },
            };
            if from_menu { DashModel { mode: ViewMode::Browsing, ..done } } else { done }
        },
        Command::Purge { index, from_menu } => {
            let name = m.preserved[index as int].filename@;
            let done = maybe_reload(DashModel { status: Some("Purged '"@ + name + "'"@), ..m }, index, reload, !from_menu);
            if from_menu { DashModel { mode: ViewMode::Browsing, ..done } } else { done }
        },
        _ => m,
    }
}

/// The first position at or after `k` of an entry with this id.
pub open spec fn first_index_of_id(s: Seq<EntryRecord>, id: i64, k: int) -> Option<int>
    decreases s.len() - k,
{
    if k < 0 || k >= s.len() {
        None
    } else if s[k].id == id {
        Some(k)
    } else {
        first_index_of_id(s, id, k + 1)
    }
}

/// The id of the selected row, when it is within the list.
pub open spec fn selected_id(list: Seq<EntryRecord>, sel: Option<usize>) -> Option<i64> {
    match sel {
        Some(i) => if i < list.len() { Some(list[i as int].id) } else { None },
        None => None,
    }
}

/// The selection in a list that was read again: none in an empty list;
/// the row of the entry that was selected when it is still there, else the
/// old position moved back into the list; `unselected` when no entry was
/// selected before.
pub open spec fn reselect(
    old_list: Seq<EntryRecord>,
    old_sel: Option<usize>,
    new_list: Seq<EntryRecord>,
    unselected: Option<usize>,
) -> Option<usize> {
    if new_list.len() == 0 {
        None
    } else {
        match selected_id(old_list, old_sel) {
            Some(t) => match first_index_of_id(new_list, t, 0) {
                Some(p) => Some(p as usize),
                None => {
                    let cur = match old_sel {
                        Some(i) => i as int,
                        None => 0,
                    };
                    Some((if cur < new_list.len() - 1 { cur } else { new_list.len() - 1 }) as usize)
                },
            },
            None => unselected,
        }
    }
}

/// The refresh made when the database changed under the dashboard: the
/// lists that could be read replace the shown ones and keep the selected
/// entries selected where they can. An emptied preserved list closes the
/// menu and the inspection. Nothing changes when the data version is the
/// one seen last.
pub open spec fn refreshed(m: DashModel, current: i64, active: Option<Seq<EntryRecord>>, history: Option<Seq<EntryRecord>>) -> DashModel {
    if current == m.version {
        m
    } else {
        let m1 = match active {
            Some(list) => DashModel {
                preserved: list,
                selected: reselect(m.preserved, m.selected, list, Some(0usize)),
                mode: if list.len() == 0 && (m.mode == ViewMode::ActionMenu || m.mode == ViewMode::InspectModal) {
                    ViewMode::Browsing
                } else {
                    m.mode
                },
                version: current,
                ..m
            },
            None => DashModel { version: current, ..m },
        };
        match history {
            Some(list) => DashModel {
                history: list,
                history_selected: reselect(
                    m.history,
                    m.history_selected,
                    list,
                    if m.pane == ActivePane::History { Some(0usize) } else { m.history_selected },
                ),
                ..m1
            },
            None => m1,
        }
    }
}

/// The data version that a refresh compares: the one read, or the last one
/// seen when it could not be read.
pub open spec fn observed(m: DashModel, read: Option<i64>) -> i64 {
    match read {
        Some(v) => v,
        None => m.version,
    }
}

fn text(s: &str) -> (r: String)
    ensures
        r@ == s@,
{
    s.to_owned()
}

fn quoted(before: &str, name: &String, after: &str) -> (r: String)
    ensures
        r@ == before@ + name@ + after@,
{
    let n = chars_of(name.as_str());
    concat3(before, n.as_slice(), after)
}

fn find_id(list: &Vec<EntryRecord>, id: i64) -> (r: Option<usize>)
    ensures
        match r {
            Some(p) => first_index_of_id(list@, id, 0) == Some(p as int),
            None => first_index_of_id(list@, id, 0) is None,
        },
{
    let mut k: usize = 0;
    while k < list.len()
        invariant
            k <= list.len(),
            first_index_of_id(list@, id, 0) == first_index_of_id(list@, id, k as int),
        decreases list.len() - k,
    {
        if list[k].id == id {
            return Some(k);
        }
        k += 1;
    }
    None
}

fn selected_id_of(list: &Vec<EntryRecord>, sel: Option<usize>) -> (r: Option<i64>)
    ensures
        r == selected_id(list@, sel),
{
    match sel {
        Some(i) => if i < list.len() { Some(list[i].id) } else { None },
        None => None,
    }
}

fn reselect_in(old_id: Option<i64>, old_sel: Option<usize>, new_list: &Vec<EntryRecord>, unselected: Option<usize>) -> (r: Option<usize>)
    ensures
        new_list@.len() == 0 ==> r is None,
        new_list@.len() > 0 ==> r == (match old_id {
            Some(t) => match first_index_of_id(new_list@, t, 0) {
                Some(p) => Some(p as usize),
                None => {
                    let cur = match old_sel {
                        Some(i) => i as int,
                        None => 0,
                    };
                    Some((if cur < new_list@.len() - 1 { cur } else { new_list@.len() - 1 }) as usize)
                },
            },
            None => unselected,
        }),
{
    if new_list.len() == 0 {
        return None;
    }
    match old_id {
        Some(t) => match find_id(new_list, t) {
            Some(p) => Some(p),
            None => {
                let cur = match old_sel {
                    Some(i) => i,
                    None => 0,
                };
                Some(if cur < new_list.len() - 1 { cur } else { new_list.len() - 1 })
            },
        },
        None => unselected,
    }
}

impl Dashboard {
    /// The dashboard at start (see `initial`).
    pub fn new(preserved: Vec<EntryRecord>, history: Vec<EntryRecord>, theme: usize, version: i64) -> (d: Dashboard)
        ensures
            d@ == initial(preserved@, history@, theme, version),
    {
        let sel = if preserved.len() > 0 { Some(0) } else { None };
        let hsel = if history.len() > 0 { Some(0) } else { None };
        Dashboard {
            preserved,
            history,
            selected: sel,
            history_selected: hsel,
            theme,
            pane: ActivePane::Preserved,
            mode: ViewMode::Browsing,
            action: 0,
            status: None,
            data_version: version,
        }
    }

    fn go_history(&mut self)
        ensures
            final(self)@ == to_history(old(self)@),
    {
        if self.history.len() > 0 {
            self.pane = ActivePane::History;
            if self.history_selected.is_none() {
                self.history_selected = Some(0);
            }
            self.status = None;
        } else {
            self.status = Some(text("No records in history yet"));
        }
    }

    fn go_preserved(&mut self)
        ensures
            final(self)@ == to_preserved(old(self)@),
    {
        self.pane = ActivePane::Preserved;
        self.status = None;
    }

    fn down(&mut self)
        ensures
            final(self)@ == cursor_down(old(self)@),
    {
        match self.pane {
            ActivePane::Preserved => if self.preserved.len() > 0 {
                let cur = match self.selected {
                    Some(i) => i,
                    None => 0,
                };
                let last = self.preserved.len() - 1;
                self.selected = Some(if cur < last { cur + 1 } else { last });
                self.status = None;
            },
            ActivePane::History => if self.history.len() > 0 {
                let cur = match self.history_selected {
                    Some(i) => i,
                    None => 0,
                };
                let last = self.history.len() - 1;
                self.history_selected = Some(if cur < last { cur + 1 } else { last });
                self.status = None;
            },
        }
    }

    fn up(&mut self)
        ensures
            final(self)@ == cursor_up(old(self)@),
    {
        match self.pane {
            ActivePane::Preserved => if self.preserved.len() > 0 {
                let cur = match self.selected {
                    Some(i) => i,
                    None => 0,
                };
                self.selected = Some(if cur > 0 { cur - 1 } else { 0 });
                self.status = None;
            },
            ActivePane::History => if self.history.len() > 0 {
                let cur = match self.history_selected {
                    Some(i) => i,
                    None => 0,
                };
                self.history_selected = Some(if cur > 0 { cur - 1 } else { 0 });
                self.status = None;
            },
        }
    }

    fn open_view(&mut self)
        ensures
            final(self)@ == open_view(old(self)@),
    {
        match self.pane {
            ActivePane::Preserved => if self.preserved.len() > 0 {
                self.mode = ViewMode::ActionMenu;
                self.action = 0;
            },
            ActivePane::History => if self.history.len() > 0 {
                self.mode = ViewMode::InspectModal;
            },
        }
    }

    fn refresh_now(&mut self)
        ensures
            final(self)@ == forced_refresh(old(self)@),
    {
        self.data_version = -1;
        self.status = Some(text("Refreshed"));
    }

    fn quick(&self, purge: bool) -> (cmd: Command)
        ensures
            cmd == quick_command(self@, purge),
    {
        if self.pane == ActivePane::Preserved {
            match self.selected {
                Some(i) => if i < self.preserved.len() {
                    if purge {
                        Command::Purge { index: i, from_menu: false }
                    } else {
                        Command::Restore { index: i, keep_vault: false, from_menu: false }
                    }
                } else {
                    Command::Stay
                },
                None => Command::Stay,
            }
        } else {
            Command::Stay
        }
    }

    fn next_theme(&mut self) -> (cmd: Command)
        requires
            old(self).theme < THEME_COUNT,
        ensures
            (final(self)@, cmd) == browse_step(old(self)@, Key::Char { c: 't', ctrl: false }),
    {
        let t = (self.theme + 1) % THEME_COUNT;
        let name = chars_of(theme_name_at(t));
        proof {
            reveal_strlit("");
        }
        self.theme = t;
        self.status = Some(concat3("Switched theme to ", name.as_slice(), ""));
        Command::SaveTheme(t)
    }

    fn browse_key(&mut self, key: Key) -> (cmd: Command)
        requires
            old(self).theme < THEME_COUNT,
        ensures
            (final(self)@, cmd) == browse_step(old(self)@, key),
    {
        match key {
            Key::Char { c, ctrl } => {
                if c == 'q' {
                    Command::Quit
                } else if c == 't' {
                    self.next_theme()
                } else if c == 'l' {
                    if self.pane == ActivePane::Preserved {
                        self.go_history();
                    }
                    Command::Stay
                } else if c == 'h' {
                    if self.pane == ActivePane::History {
                        self.go_preserved();
                    }
                    Command::Stay
                } else if c == 'j' {
                    self.down();
                    Command::Stay
                } else if c == 'k' {
                    self.up();
                    Command::Stay
                } else if c == 'r' && ctrl {
                    self.refresh_now();
                    Command::Stay
                } else if c == 'r' {
                    self.quick(false)
                } else if c == 'x' {
                    self.quick(true)
                } else if c == 'e' {
                    self.mode = ViewMode::ExclusionModal;
                    Command::Stay
                } else {
                    Command::Stay
                }
            },
            Key::Tab | Key::BackTab => {
                if self.pane == ActivePane::Preserved {
                    self.go_history();
                } else {
                    self.go_preserved();
                }
                Command::Stay
            },
            Key::Right => {
                if self.pane == ActivePane::Preserved {
                    self.go_history();
                }
                Command::Stay
            },
            Key::Left => {
                if self.pane == ActivePane::History {
                    self.go_preserved();
                }
                Command::Stay
            },
            Key::Down => {
                self.down();
                Command::Stay
            },
            Key::Up => {
                self.up();
                Command::Stay
            },
            Key::Enter => {
                self.open_view();
                Command::Stay
            },
            Key::F5 => {
                self.refresh_now();
                Command::Stay
            },
            _ => Command::Stay,
        }
    }

    fn run_action(&mut self) -> (cmd: Command)
        ensures
            (final(self)@, cmd) == run_action(old(self)@),
    {
        let i = match self.selected {
            Some(i) => i,
            None => {
                return Command::Stay;
            },
        };
        if i >= self.preserved.len() {
            return Command::Stay;
        }
        if self.action == 0 {
            Command::Restore { index: i, keep_vault: false, from_menu: true }
        } else if self.action == 1 {
            Command::Restore { index: i, keep_vault: true, from_menu: true }
        } else if self.action == 2 {
            self.mode = ViewMode::InspectModal;
            Command::Stay
        } else if self.action == 3 {
            Command::Purge { index: i, from_menu: true }
        } else if self.action == 4 {
            proof {
                reveal_strlit("");
            }
            let msg = quoted("Path: ", &self.preserved[i].original_path, "");
            self.status = Some(msg);
            self.mode = ViewMode::Browsing;
            Command::Stay
        } else {
            Command::Stay
        }
    }

    fn menu_key(&mut self, key: Key) -> (cmd: Command)
        ensures
            (final(self)@, cmd) == menu_step(old(self)@, key),
    {
        match key {
            Key::Esc => {
                self.mode = ViewMode::Browsing;
                Command::Stay
            },
            Key::Char { c, ctrl } => {
                if c == 'q' {
                    self.mode = ViewMode::Browsing;
                    Command::Stay
                } else if c == 'j' {
                    self.action = if self.action < 4 { self.action + 1 } else { 4 };
                    Command::Stay
                } else if c == 'k' {
                    self.action = if self.action > 0 { self.action - 1 } else { 0 };
                    Command::Stay
                } else if '1' <= c && c <= '5' {
                    self.action = ((c as u32) - ('1' as u32)) as usize;
                    self.run_action()
                } else {
                    Command::Stay
                }
            },
            Key::Down => {
                self.action = if self.action < 4 { self.action + 1 } else { 4 };
                Command::Stay
            },
            Key::Up => {
                self.action = if self.action > 0 { self.action - 1 } else { 0 };
                Command::Stay
            },
            Key::Enter => self.run_action(),
            _ => Command::Stay,
        }
    }

    /// Handles one key press (see `key_step`) and says what outside work it
    /// asks for.
    pub fn handle_key(&mut self, key: Key) -> (cmd: Command)
        requires
            old(self).theme < THEME_COUNT,
        ensures
            (final(self)@, cmd) == key_step(old(self)@, key),
    {
        match self.mode {
            ViewMode::Browsing => self.browse_key(key),
            ViewMode::ActionMenu => self.menu_key(key),
            ViewMode::InspectModal => {
                let close = match key {
                    Key::Esc | Key::Enter => true,
                    Key::Char { c, ctrl } => c == 'q',
                    _ => false,
                };
                if close {
                    self.mode = ViewMode::Browsing;
                }
                Command::Stay
            },
            ViewMode::ExclusionModal => {
                let close = match key {
                    Key::Esc | Key::Enter => true,
                    Key::Char { c, ctrl } => c == 'q' || c == 'e',
                    _ => false,
                };
                if close {
                    self.mode = ViewMode::Browsing;
                }
                Command::Stay
            },
        }
    }

    fn apply_reload(&mut self, index: usize, r: Reloaded, take_version: bool)
        ensures
            final(self)@ == after_reload(old(self)@, index, r@, take_version),
    {
        let ghost rv = r@;
        self.preserved = r.preserved;
        self.history = r.history;
        if take_version {
            match r.version {
                Some(v) => {
                    self.data_version = v;
                },
                None => {},
            }
        }
        if self.history_selected.is_none() && self.history.len() > 0 {
            self.history_selected = Some(0);
        }
        if index >= self.preserved.len() && self.preserved.len() > 0 {
            self.selected = Some(self.preserved.len() - 1);
        }
        assert(self@ =~= after_reload(old(self)@, index, rv, take_version));
    }

    fn reload_if(&mut self, index: usize, reload: Option<Reloaded>, take_version: bool)
        ensures
            final(self)@ == maybe_reload(old(self)@, index, opt_reload(reload), take_version),
    {
        match reload {
            Some(r) => self.apply_reload(index, r, take_version),
            None => {},
        }
    }

    /// Takes in the result of the work that `cmd` asked for (see
    /// `completion`): the error message of a failed restore, and the lists
    /// read again afterwards.
    pub fn complete(&mut self, cmd: Command, error: Option<String>, reload: Option<Reloaded>)
        requires
            match cmd {
                Command::Restore { index, .. } => old(self).selected == Some(index) && index < old(self).preserved@.len(),
                Command::Purge { index, .. } => old(self).selected == Some(index) && index < old(self).preserved@.len(),
                _ => true,
            },
        ensures
            final(self)@ == completion(old(self)@, cmd, opt_text(error), opt_reload(reload)),
    {
        match cmd {
            Command::Restore { index, keep_vault, from_menu } => {
                let name = self.preserved[index].filename.clone();
                match error {
                    Some(e) => {
                        proof {
                            reveal_strlit("");
                        }
                        let msg = quoted("Restore error: ", &e, "");
                        self.status = Some(msg);
                    },
                    None => {
                        if keep_vault {
                            self.status = Some(quoted("Restored '", &name, "' (vault copy kept)"));
                        } else if from_menu {
                            self.status = Some(quoted("Restored '", &name, "' (consumed from vault)"));
                            self.reload_if(index, reload, false);
                        } else {
                            self.status = Some(quoted("Restored '", &name, "' to original path"));
                            self.reload_if(index, reload, true);
                        }
                    },
                }
                if from_menu {
                    self.mode = ViewMode::Browsing;
                }
            },
            Command::Purge { index, from_menu } => {
                let name = self.preserved[index].filename.clone();
                self.status = Some(quoted("Purged '", &name, "'"));
                self.reload_if(index, reload, !from_menu);
                if from_menu {
                    self.mode = ViewMode::Browsing;
                }
            },
            _ => {},
        }
    }

    /// The data version to compare: the one read, or the last one seen.
    pub fn observed_version(&self, read: Option<i64>) -> (v: i64)
        ensures
            v == observed(self@, read),
    {
        match read {
            Some(v) => v,
            None => self.data_version,
        }
    }

    /// The database changed since it was last read.
    pub fn needs_refresh(&self, current: i64) -> (r: bool)
        ensures
            r == (current != self@.version),
    {
        current != self.data_version
    }

    /// Takes in the lists read after the database changed (see
    /// `refreshed`); a list that could not be read is `None`.
    pub fn refresh(&mut self, current: i64, active: Option<Vec<EntryRecord>>, history: Option<Vec<EntryRecord>>)
        ensures
            final(self)@ == refreshed(old(self)@, current, opt_list(active), opt_list(history)),
    {
        if current == self.data_version {
            return;
        }
        let ghost m = self@;
        let prev_id = selected_id_of(&self.preserved, self.selected);
        let prev_hid = selected_id_of(&self.history, self.history_selected);
        let old_sel = self.selected;
        let old_hsel = self.history_selected;
        self.data_version = current;
        match active {
            Some(list) => {
                let sel = reselect_in(prev_id, old_sel, &list, Some(0));
                let emptied = list.len() == 0;
                self.preserved = list;
                self.selected = sel;
                if emptied && (self.mode == ViewMode::ActionMenu || self.mode == ViewMode::InspectModal) {
                    self.mode = ViewMode::Browsing;
                }
            },
            None => {},
        }
        match history {
            Some(list) => {
                let fallback = if self.pane == ActivePane::History { Some(0) } else { old_hsel };
                let hsel = reselect_in(prev_hid, old_hsel, &list, fallback);
                self.history = list;
                self.history_selected = hsel;
            },
            None => {},
        }
        assert(self@ =~= refreshed(m, current, opt_list(active), opt_list(history)));
    }
}

/// The text of an optional message.
pub open spec fn opt_text(o: Option<String>) -> Option<Seq<char>> {
    match o {
        Some(s) => Some(s@),
        None => None,
    }
}

/// The contents of an optional reload.
pub open spec fn opt_reload(o: Option<Reloaded>) -> Option<ReloadModel> {
    match o {
        Some(r) => Some(r@),
        None => None,
    }
}

/// The entries of an optional list.
pub open spec fn opt_list(o: Option<Vec<EntryRecord>>) -> Option<Seq<EntryRecord>> {
    match o {
        Some(v) => Some(v@),
        None => None,
    }
}

/// The dashboard starts sound when its theme exists.
pub proof fn initial_state_is_well_formed(preserved: Seq<EntryRecord>, history: Seq<EntryRecord>, theme: usize, version: i64)
    requires
        theme < THEME_COUNT,
    ensures
        well_formed(initial(preserved, history, theme, version)),
{
}

proof fn lemma_first_index_of_id(s: Seq<EntryRecord>, id: i64, k: int)
    requires
        0 <= k,
    ensures
        first_index_of_id(s, id, k) matches Some(p) ==> k <= p < s.len() && s[p].id == id,
        (exists|j: int| k <= j < s.len() && s[j].id == id) ==> first_index_of_id(s, id, k) is Some,
    decreases s.len() - k,
{
    if k < s.len() && s[k].id != id {
        lemma_first_index_of_id(s, id, k + 1);
        if exists|j: int| k <= j < s.len() && s[j].id == id {
            let j = choose|j: int| k <= j < s.len() && s[j].id == id;
            assert(k + 1 <= j);
        }
    }
}

/// Every key keeps the dashboard sound: a non-empty preserved list always
/// has a selected row within it, the menu cursor stays on one of the five
/// entries, and the theme stays one of those that exist.
pub proof fn keys_keep_the_dashboard_sound(m: DashModel, k: Key)
    requires
        well_formed(m),
    ensures
        well_formed(key_step(m, k).0),
{
}

/// The work that a key asks for is always done on the selected row of the
/// preserved list, and only while that row exists.
pub proof fn work_is_done_on_the_selected_entry(m: DashModel, k: Key)
    ensures
        key_step(m, k).1 matches Command::Restore { index, .. } ==> m.selected == Some(index) && index < m.preserved.len(),
        key_step(m, k).1 matches Command::Purge { index, .. } ==> m.selected == Some(index) && index < m.preserved.len(),
        key_step(m, k).1 matches Command::SaveTheme(t) ==> t == key_step(m, k).0.theme,
{
}

/// Only `q` while browsing leaves the dashboard: in the menu and the
/// inspection and rules views it closes the view instead.
pub proof fn only_browsing_quits(m: DashModel, k: Key)
    ensures
        key_step(m, k).1 == Command::Quit ==> m.mode == ViewMode::Browsing && k matches Key::Char { c: 'q', .. },
        (m.mode != ViewMode::Browsing && (k matches Key::Char { c: 'q', .. })) ==> key_step(m, k).0.mode == ViewMode::Browsing,
{
}

/// Taking in the result of the work keeps the dashboard sound.
pub proof fn completion_keeps_the_dashboard_sound(m: DashModel, cmd: Command, error: Option<Seq<char>>, reload: Option<ReloadModel>)
    requires
        well_formed(m),
        cmd matches Command::Restore { index, .. } ==> m.selected == Some(index) && index < m.preserved.len(),
        cmd matches Command::Purge { index, .. } ==> m.selected == Some(index) && index < m.preserved.len(),
    ensures
        well_formed(completion(m, cmd, error, reload)),
{
}

/// A refresh keeps the dashboard sound.
pub proof fn refresh_keeps_the_dashboard_sound(m: DashModel, current: i64, active: Option<Seq<EntryRecord>>, history: Option<Seq<EntryRecord>>)
    requires
        well_formed(m),
    ensures
        well_formed(refreshed(m, current, active, history)),
{
    if current != m.version {
        if let Some(list) = active {
            if list.len() > 0 {
                if let Some(t) = selected_id(m.preserved, m.selected) {
                    lemma_first_index_of_id(list, t, 0);
                }
            }
        }
    }
}

/// When the database changes, the entry that was selected stays selected
/// as long as it is still in the list read again.
pub proof fn refresh_follows_the_selected_entry(m: DashModel, current: i64, list: Seq<EntryRecord>, history: Option<Seq<EntryRecord>>, j: int)
    requires
        current != m.version,
        selected_id(m.preserved, m.selected) is Some,
        list.len() <= usize::MAX,
        0 <= j < list.len(),
        list[j].id == selected_id(m.preserved, m.selected)->0,
    ensures
        refreshed(m, current, Some(list), history).selected matches Some(p)
            && p < list.len()
            && list[p as int].id == list[j].id,
{
    let t = selected_id(m.preserved, m.selected)->0;
    lemma_first_index_of_id(list, t, 0);
    assert(exists|i: int| 0 <= i < list.len() && list[i].id == t) by {
        assert(0 <= j < list.len() && list[j].id == t);
    }
    let p = first_index_of_id(list, t, 0)->0;
    assert(reselect(m.preserved, m.selected, list, Some(0usize)) == Some(p as usize));
}

/// The kind of item an entry is, as the details pane names it.
pub open spec fn kind_of(e: EntryRecord) -> Seq<char> {
    if e.is_directory {
        "DIR"@
    } else if e.link_type@ == LINK_SYMLINK@ {
        "SYMLINK"@
    } else {
        "FILE"@
    }
}

/// The kind of item an entry is (see `kind_of`).
pub fn entry_kind(e: &EntryRecord) -> (r: &'static str)
    ensures
        r@ == kind_of(*e),
{
    if e.is_directory {
        "DIR"
    } else if str_eq(e.link_type.as_str(), LINK_SYMLINK) {
        "SYMLINK"
    } else {
        "FILE"
    }
}

/// The history event an entry records: its status when it was restored,
/// purged or excluded.
pub open spec fn event_of(status: Seq<char>) -> Option<Seq<char>> {
    if status == STATUS_RESTORED@ || status == STATUS_PURGED@ || status == STATUS_EXCLUDED@ {
        Some(status)
    } else {
        None
    }
}

/// The history event an entry records (see `event_of`).
pub fn history_event(status: &str) -> (r: Option<&'static str>)
    ensures
        match r {
            Some(t) => event_of(status@) == Some(t@),
            None => event_of(status@) is None,
        },
{
    if str_eq(status, STATUS_RESTORED) {
        Some(STATUS_RESTORED)
    } else if str_eq(status, STATUS_PURGED) {
        Some(STATUS_PURGED)
    } else if str_eq(status, STATUS_EXCLUDED) {
        Some(STATUS_EXCLUDED)
    } else {
        None
    }
}

/// The time a history row shows: when the item was restored or purged (its
/// removal time when that is missing), otherwise when it was removed.
pub open spec fn shown_time(e: EntryRecord) -> Seq<char> {
    if e.status@ == STATUS_RESTORED@ {
        match e.restored_at {
            Some(t) => t@,
            None => e.deleted_at@,
        }
    } else if e.status@ == STATUS_PURGED@ {
        match e.purged_at {
            Some(t) => t@,
            None => e.deleted_at@,
        }
    } else {
        e.deleted_at@
    }
}

/// The time a history row shows (see `shown_time`).
pub fn history_time(e: &EntryRecord) -> (r: String)
    ensures
        r@ == shown_time(*e),
{
    if str_eq(e.status.as_str(), STATUS_RESTORED) {
        match &e.restored_at {
            Some(t) => t.clone(),
            None => e.deleted_at.clone(),
        }
    } else if str_eq(e.status.as_str(), STATUS_PURGED) {
        match &e.purged_at {
            Some(t) => t.clone(),
            None => e.deleted_at.clone(),
        }
    } else {
        e.deleted_at.clone()
    }
}

/// Where the details pane says the item is stored: nowhere for an excluded
/// item.
pub fn vault_display(e: &EntryRecord) -> (r: String)
    ensures
        r@ == (if e.status@ == STATUS_EXCLUDED@ { "(none - excluded by rule)"@ } else { e.vault_path@ }),
{
    if str_eq(e.status.as_str(), STATUS_EXCLUDED) {
        "(none - excluded by rule)".to_owned()
    } else {
        e.vault_path.clone()
    }
}

/// The time format and column width of the history table: month and day
/// too when the pane is at least 46 columns wide.
pub fn history_time_column(pane_width: u16) -> (r: (&'static str, u16))
    ensures
        r.0@ == (if pane_width >= 46 { "%m-%d %H:%M"@ } else { "%H:%M"@ }),
        r.1 == (if pane_width >= 46 { 11u16 } else { 5u16 }),
{
    if pane_width >= 46 {
        ("%m-%d %H:%M", 11)
    } else {
        ("%H:%M", 5)
    }
}

} // verus!
