//! The navigation engine: a current entry list with a selection cursor and a
//! back-stack of previous lists, resolving static menus and live catalog
//! queries into a uniform entry list and dispatching the selected entry's
//! action. Everything here is specified over `NavView`, the engine's
//! mathematical state, through pure transition functions.

use vstd::prelude::*;
use crate::keymap::Action;
use crate::menu_config::{ActionView, MenuConfig, MenuConfigView, MenuEntry, MenuEntryAction,
    MenuEntryDetail, MenuEntryView, Query, QueryView, clone_entries, entries_view, entry_eq,
    lookup_menu, rom_entry_view, view_opt, view_opt_vec};
use crate::rom_library::{Rom, RomLibrary, distinct_categories, favourites_filter,
    most_played_filter, roms_filter, take_at_most, toggle_all, inc_all, opt_string_view};
use crate::order::{SortOrder, sort_with};

verus! {

/// How the engine answered an input event; the caller drives the event loop
/// with it.
pub enum EventReply {
    /// The event was consumed.
    Handled,
    /// The event was not for the engine.
    Unhandled,
    /// The application should terminate.
    Exit,
}

/// A navigation failure.
pub enum NavigationError {
    /// An entry referred to a submenu name that is not configured.
    UnknownMenu,
}

impl Clone for NavigationError {
    fn clone(&self) -> (r: Self)
        ensures
            r == *self,
    {
        match self {
            NavigationError::UnknownMenu => NavigationError::UnknownMenu,
        }
    }
}

/// What the caller must still do after a selection was dispatched. Spawning
/// processes is the caller's business; the engine decides, the caller acts.
pub enum SelectOutcome {
    /// Nothing is left to do.
    Handled,
    /// The application should terminate.
    Exit,
    /// Spawn this command without waiting for it.
    RunCommand { command: String, args: Option<Vec<String>> },
    /// Run the configured emulator on this rom, blocking until it exits; the
    /// rom's play count has already been incremented.
    LaunchRom { rom: String, params: Option<String> },
}

/// Mathematical view of a dispatch outcome.
#[verifier::ext_equal]
pub enum OutcomeView {
    Handled,
    Exit,
    RunCommand { command: Seq<char>, args: Option<Seq<Seq<char>>> },
    LaunchRom { rom: Seq<char>, params: Option<Seq<char>> },
}

impl View for SelectOutcome {
    type V = OutcomeView;

    open spec fn view(&self) -> OutcomeView {
        match self {
            SelectOutcome::Handled => OutcomeView::Handled,
            SelectOutcome::Exit => OutcomeView::Exit,
            SelectOutcome::RunCommand { command, args } => OutcomeView::RunCommand {
                command: command@,
                args: view_opt_vec(*args),
            },
            SelectOutcome::LaunchRom { rom, params } => OutcomeView::LaunchRom {
                rom: rom@,
                params: view_opt(*params),
            },
        }
    }
}

/// The view of a dispatch result.
pub open spec fn result_view(r: Result<SelectOutcome, NavigationError>) -> Result<
    OutcomeView,
    NavigationError,
> {
    match r {
        Ok(o) => Ok(o@),
        Err(e) => Err(e),
    }
}

/// Mathematical state of the navigation engine.
#[verifier::ext_equal]
pub struct NavView {
    /// The static menu tree.
    pub config: MenuConfigView,
    /// The entries currently shown.
    pub entries: Seq<MenuEntryView>,
    /// The selection cursor.
    pub index: int,
    /// The back-stack: each frame is a previous entry list with its cursor.
    pub history: Seq<(Seq<MenuEntryView>, int)>,
}

/// The cursor is valid for the list: inside a non-empty list, zero on an
/// empty one.
pub open spec fn cursor_ok(entries: Seq<MenuEntryView>, index: int) -> bool {
    if entries.len() == 0 {
        index == 0
    } else {
        0 <= index < entries.len()
    }
}

/// The engine's invariant: the cursor is valid for the current list and for
/// every stacked frame.
pub open spec fn nav_wf(v: NavView) -> bool {
    cursor_ok(v.entries, v.index) && forall|i: int|
        0 <= i < v.history.len() ==> cursor_ok(
            (#[trigger] v.history[i]).0,
            v.history[i].1,
        )
}

/// Opening a list: the current list and cursor are pushed onto the stack,
/// the new list is shown, and the cursor resets to the top.
pub open spec fn spec_open(v: NavView, es: Seq<MenuEntryView>) -> NavView {
    NavView { entries: es, index: 0, history: v.history.push((v.entries, v.index)), ..v }
}

/// Going back: the most recent frame, if any, is popped and restored; on an
/// empty stack nothing changes.
pub open spec fn spec_back(v: NavView) -> NavView {
    if v.history.len() == 0 {
        v
    } else {
        NavView {
            entries: v.history.last().0,
            index: v.history.last().1,
            history: v.history.drop_last(),
            ..v
        }
    }
}

/// Moving the cursor: the step is taken exactly when it lands inside the
/// list; otherwise nothing changes — the cursor neither clamps nor wraps.
pub open spec fn spec_move(v: NavView, delta: int) -> NavView {
    if 0 <= v.index + delta < v.entries.len() {
        NavView { index: v.index + delta, ..v }
    } else {
        v
    }
}

/// The view of the entry list a query produces: one entry per category
/// label, or one catalog-derived entry per record, in the listing's order.
pub open spec fn query_result_views(q: QueryView, lib: Seq<Rom>) -> Seq<MenuEntryView> {
    match q {
        QueryView::Categories => distinct_categories(lib).map_values(
            |c: String| category_entry_view(c@),
        ),
        QueryView::Roms { genre } => sort_with(roms_filter(lib, genre), SortOrder::Title)
            .map_values(|r: Rom| rom_entry_view(r)),
        QueryView::Favourites { count } => take_at_most(
            sort_with(favourites_filter(lib), SortOrder::Title),
            count as int,
        ).map_values(|r: Rom| rom_entry_view(r)),
        QueryView::Popular { count } => take_at_most(
            sort_with(most_played_filter(lib), SortOrder::MostPlayed),
            count as int,
        ).map_values(|r: Rom| rom_entry_view(r)),
    }
}

/// The view of the entry for one category label: selecting it queries the
/// roms of that category.
pub open spec fn category_entry_view(c: Seq<char>) -> MenuEntryView {
    MenuEntryView {
        title: c,
        action: ActionView::Query(QueryView::Roms { genre: Option::Some(c) }),
        screenshot: Option::None,
        details: Option::None,
    }
}

/// The action of the selected entry, when an entry is selected.
pub open spec fn selected_action(v: NavView) -> Option<ActionView> {
    if 0 <= v.index < v.entries.len() {
        Option::Some(v.entries[v.index].action)
    } else {
        Option::None
    }
}

/// The rom name of the selected entry, when the selected entry launches one.
pub open spec fn selected_rom_name(v: NavView) -> Option<Seq<char>> {
    match selected_action(v) {
        Option::Some(ActionView::Rom { rom, .. }) => Option::Some(rom),
        _ => Option::None,
    }
}

/// The query recorded on the frame below the current list, when that frame's
/// selected entry was a query: the query that produced the current list.
pub open spec fn frame_query(v: NavView) -> Option<QueryView> {
    if v.history.len() > 0 && 0 <= v.history.last().1 < v.history.last().0.len() {
        match v.history.last().0[v.history.last().1].action {
            ActionView::Query(q) => Option::Some(q),
            _ => Option::None,
        }
    } else {
        Option::None
    }
}

/// Refreshing after a catalog mutation: when the current list came from a
/// recorded query, that query is re-run against the catalog as it now is and
/// the cursor resets to the top (record positions may have shifted);
/// otherwise nothing changes.
pub open spec fn spec_refresh(v: NavView, lib: Seq<Rom>) -> NavView {
    match frame_query(v) {
        Option::Some(q) => NavView { entries: query_result_views(q, lib), index: 0, ..v },
        Option::None => v,
    }
}

/// How a toggle of the selected entry's favourite flag changes engine and
/// catalog: with a rom entry selected, that rom's flag flips in the catalog
/// and the engine refreshes; otherwise both stay as they were.
pub open spec fn toggle_transition(
    pre: NavView,
    lib0: Seq<Rom>,
    post: NavView,
    lib1: Seq<Rom>,
) -> bool {
    match selected_rom_name(pre) {
        Option::Some(n) => lib1 == toggle_all(lib0, n) && post == spec_refresh(pre, lib1),
        Option::None => post == pre && lib1 == lib0,
    }
}

/// How dispatching the selected entry changes engine, catalog, and result:
/// an exhaustive case split over the selected action.
pub open spec fn select_transition(
    pre: NavView,
    lib0: Seq<Rom>,
    post: NavView,
    lib1: Seq<Rom>,
    r: Result<OutcomeView, NavigationError>,
) -> bool {
    match selected_action(pre) {
        Option::None => r == Ok::<OutcomeView, NavigationError>(OutcomeView::Handled) && post
            == pre && lib1 == lib0,
        Option::Some(a) => match a {
            ActionView::Menu { menu } => match lookup_menu(pre.config.menus, menu) {
                Option::Some(es) => r == Ok::<OutcomeView, NavigationError>(OutcomeView::Handled)
                    && post == spec_open(pre, es) && lib1 == lib0,
                Option::None => r == Err::<OutcomeView, NavigationError>(
                    NavigationError::UnknownMenu,
                ) && post == pre && lib1 == lib0,
            },
            ActionView::BuiltIn(_) => r == Ok::<OutcomeView, NavigationError>(OutcomeView::Exit)
                && post == pre && lib1 == lib0,
            ActionView::Query(q) => r == Ok::<OutcomeView, NavigationError>(OutcomeView::Handled)
                && post == spec_open(pre, query_result_views(q, lib0)) && lib1 == lib0,
            ActionView::Exec { command, args } => r == Ok::<OutcomeView, NavigationError>(
                OutcomeView::RunCommand { command, args },
            ) && post == pre && lib1 == lib0,
            ActionView::Rom { rom, params } => r == Ok::<OutcomeView, NavigationError>(
                OutcomeView::LaunchRom { rom, params },
            ) && post == pre && lib1 == inc_all(lib0, rom),
        },
    }
}

/// The navigation engine's state.
pub struct LemonMenu {
    config: MenuConfig,
    entries: Vec<MenuEntry>,
    index: usize,
    history: Vec<(Vec<MenuEntry>, usize)>,
}

impl View for LemonMenu {
    type V = NavView;

    closed spec fn view(&self) -> NavView {
        NavView {
            config: self.config@,
            entries: entries_view(self.entries@),
            index: self.index as int,
            history: self.history@.map_values(
                |f: (Vec<MenuEntry>, usize)| (entries_view(f.0@), f.1 as int),
            ),
        }
    }
}

impl LemonMenu {
    /// A fresh engine showing the configured root menu.
    pub fn new(config: MenuConfig) -> (r: Self)
        ensures
            r@ == (NavView {
                config: config@,
                entries: config@.main,
                index: 0,
                history: Seq::empty(),
            }),
            nav_wf(r@),
    {
        let entries = clone_entries(&config.main.entries);
        let r = LemonMenu { config, entries, index: 0, history: Vec::new() };
        proof {
            assert(r@.history =~= Seq::<(Seq<MenuEntryView>, int)>::empty());
            assert(r@ =~= NavView {
                config: r.config@,
                entries: r.config@.main,
                index: 0,
                history: Seq::empty(),
            });
        }
        r
    }

    /// The selected entry, when the cursor is inside the list.
    pub fn selected(&self) -> (r: Option<&MenuEntry>)
        ensures
            match r {
                Option::Some(e) => 0 <= self@.index < self@.entries.len() && e@
                    == self@.entries[self@.index],
                Option::None => self@.index >= self@.entries.len(),
            },
    {
        if self.index < self.entries.len() {
            Option::Some(&self.entries[self.index])
        } else {
            Option::None
        }
    }

    /// The selected entry's screenshot path, when there is one.
    pub fn selected_screenshot(&self) -> (r: Option<&String>)
        ensures
            match r {
                Option::Some(p) => 0 <= self@.index < self@.entries.len()
                    && self@.entries[self@.index].screenshot == Option::Some(p@),
                Option::None => self@.index >= self@.entries.len()
                    || self@.entries[self@.index].screenshot is None,
            },
    {
        match self.selected() {
            Option::Some(e) => e.screenshot.as_ref(),
            Option::None => Option::None,
        }
    }

    /// The selected entry's catalog detail, when there is one.
    pub fn selected_detail(&self) -> (r: Option<&MenuEntryDetail>)
        ensures
            match r {
                Option::Some(d) => 0 <= self@.index < self@.entries.len()
                    && self@.entries[self@.index].details == Option::Some(d@),
                Option::None => self@.index >= self@.entries.len()
                    || self@.entries[self@.index].details is None,
            },
    {
        match self.selected() {
            Option::Some(e) => e.details.as_ref(),
            Option::None => Option::None,
        }
    }

    /// Whether the given entry reads the same as the selected one.
    pub fn is_selected(&self, entry: &MenuEntry) -> (r: bool)
        ensures
            r == (0 <= self@.index < self@.entries.len() && self@.entries[self@.index] == entry@),
    {
        match self.selected() {
            Option::Some(e) => entry_eq(e, entry),
            Option::None => false,
        }
    }

    /// Shows a new list, stacking the current one.
    fn set_entries(&mut self, entries: Vec<MenuEntry>)
        ensures
            final(self)@ == spec_open(old(self)@, entries_view(entries@)),
    {
        let mut prev = entries;
        core::mem::swap(&mut self.entries, &mut prev);
        self.history.push((prev, self.index));
        self.index = 0;
        proof {
            assert(final(self)@.history =~= old(self)@.history.push(
                (old(self)@.entries, old(self)@.index),
            ));
            assert(final(self)@ =~= spec_open(old(self)@, final(self)@.entries));
        }
    }

    /// Switches to the named static menu, stacking the current list; fails,
    /// changing nothing, exactly when no menu of that name is configured.
    pub fn open_menu(&mut self, menu_name: &str) -> (r: Result<(), NavigationError>)
        ensures
            match r {
                Ok(()) => lookup_menu(old(self)@.config.menus, menu_name@) is Some && final(self)@
                    == spec_open(
                    old(self)@,
                    lookup_menu(old(self)@.config.menus, menu_name@).unwrap(),
                ),
                Err(NavigationError::UnknownMenu) => lookup_menu(
                    old(self)@.config.menus,
                    menu_name@,
                ) is None && final(self)@ == old(self)@,
            },
    {
        let entries = match self.config.get_menu(menu_name) {
            Option::Some(m) => clone_entries(&m.entries),
            Option::None => {
                return Err(NavigationError::UnknownMenu);
            },
        };
        self.set_entries(entries);
        Ok(())
    }

    /// Shows the live result of a catalog query, stacking the current list.
    pub fn open_query(&mut self, query: &Query, lib: &RomLibrary)
        ensures
            final(self)@ == spec_open(old(self)@, query_result_views(query@, lib@)),
    {
        let entries = query.run(lib);
        self.set_entries(entries);
    }

    /// Pops the most recent frame and restores it; on an empty stack this is
    /// a no-op, not an error — resting at the root menu is valid.
    pub fn back(&mut self)
        ensures
            final(self)@ == spec_back(old(self)@),
    {
        match self.history.pop() {
            Option::Some(frame) => {
                self.entries = frame.0;
                self.index = frame.1;
                proof {
                    assert(old(self)@.history.len() > 0);
                    assert(final(self)@.history =~= old(self)@.history.drop_last());
                    assert(final(self)@ =~= spec_back(old(self)@));
                }
            },
            Option::None => {
                proof {
                    assert(final(self)@ =~= spec_back(old(self)@));
                }
            },
        }
    }

    /// Steps the cursor by `inc` when the step stays inside the list;
    /// otherwise leaves it where it was.
    pub fn move_cursor(&mut self, inc: i32)
        ensures
            final(self)@ == spec_move(old(self)@, inc as int),
    {
        let new_index: i128 = self.index as i128 + inc as i128;
        if 0 <= new_index && new_index < self.entries.len() as i128 {
            self.index = new_index as usize;
        }
        proof {
            assert(final(self)@ =~= spec_move(old(self)@, inc as int));
        }
    }

    /// Up to `count` entries from the selected one onward, for rendering
    /// below-and-including the selection.
    pub fn iter_fwd(&self, count: usize) -> (r: Vec<MenuEntry>)
        ensures
            entries_view(r@) == fwd_window(self@, count as int),
    {
        let mut out: Vec<MenuEntry> = Vec::new();
        let n = self.entries.len();
        let mut i: usize = self.index;
        if i > n {
            proof {
                assert(entries_view(out@) =~= fwd_window(self@, count as int));
            }
            return out;
        }
        while i < n && i - self.index < count
            invariant
                n == self.entries@.len(),
                self.index <= i <= n,
                i - self.index <= count,
                out@.len() == i - self.index,
                forall|j: int|
                    0 <= j < out@.len() ==> out@[j]@ == #[trigger] entries_view(self.entries@)[
                    self.index + j],
            decreases n - i,
        {
            out.push(self.entries[i].clone());
            i = i + 1;
        }
        proof {
            let w = fwd_window(self@, count as int);
            assert(out@.len() == w.len());
            assert forall|j: int| 0 <= j < w.len() implies entries_view(out@)[j] == w[j] by {
                assert(out@[j]@ == entries_view(self.entries@)[self@.index + j]);
            }
            assert(entries_view(out@) =~= w);
        }
        out
    }

    /// Up to `count` entries before the selected one, nearest first, for
    /// rendering above the selection.
    pub fn iter_rev(&self, count: usize) -> (r: Vec<MenuEntry>)
        ensures
            entries_view(r@) == rev_window(self@, count as int),
    {
        let mut out: Vec<MenuEntry> = Vec::new();
        let n = self.entries.len();
        if self.index > n {
            proof {
                assert(entries_view(out@) =~= rev_window(self@, count as int));
            }
            return out;
        }
        let mut k: usize = 0;
        while k < self.index && k < count
            invariant
                n == self.entries@.len(),
                self.index <= n,
                k <= self.index,
                k <= count,
                out@.len() == k,
                forall|j: int|
                    0 <= j < k ==> out@[j]@ == #[trigger] entries_view(self.entries@)[self.index - 1
                        - j],
            decreases self.index - k,
        {
            out.push(self.entries[self.index - 1 - k].clone());
            k = k + 1;
        }
        proof {
            let w = rev_window(self@, count as int);
            assert(out@.len() == w.len());
            assert forall|j: int| 0 <= j < w.len() implies entries_view(out@)[j] == w[j] by {
                assert(out@[j]@ == entries_view(self.entries@)[self@.index - 1 - j]);
                assert(w[j] == self@.entries.take(self@.index).reverse()[j]);
            }
            assert(entries_view(out@) =~= w);
        }
        out
    }

    /// Flips the selected rom's favourite flag in the catalog and refreshes
    /// a query-backed list; with no rom entry selected this is a no-op.
    pub fn toggle_favourite(&mut self, lib: &mut RomLibrary)
        ensures
            toggle_transition(old(self)@, old(lib)@, final(self)@, final(lib)@),
    {
        let mut rom_name: Option<String> = Option::None;
        if self.index < self.entries.len() {
            if let MenuEntryAction::Rom { rom, .. } = &self.entries[self.index].action {
                rom_name = Option::Some(rom.clone());
            }
        }
        match rom_name {
            Option::Some(n) => {
                lib.toggle_favourite(n.as_str());
                self.refresh(lib);
            },
            Option::None => {},
        }
    }

    /// Re-runs the query recorded below the current list, when there is one,
    /// against the catalog as it now is.
    fn refresh(&mut self, lib: &RomLibrary)
        ensures
            final(self)@ == spec_refresh(old(self)@, lib@),
    {
        let mut to_run: Option<Query> = Option::None;
        let depth = self.history.len();
        if depth > 0 {
            let frame = &self.history[depth - 1];
            if frame.1 < frame.0.len() {
                if let MenuEntryAction::Query(q) = &frame.0[frame.1].action {
                    to_run = Option::Some(q.clone());
                }
            }
        }
        match to_run {
            Option::Some(q) => {
                proof {
                    assert(frame_query(old(self)@) == Option::Some(q@));
                }
                self.entries = q.run(lib);
                self.index = 0;
                proof {
                    assert(final(self)@ =~= spec_refresh(old(self)@, lib@));
                }
            },
            Option::None => {
                proof {
                    assert(frame_query(old(self)@) is None);
                    assert(final(self)@ =~= spec_refresh(old(self)@, lib@));
                }
            },
        }
    }

    /// Dispatches the selected entry's action; the returned outcome tells
    /// the caller what outside work remains.
    pub fn handle_select(&mut self, lib: &mut RomLibrary) -> (r: Result<
        SelectOutcome,
        NavigationError,
    >)
        ensures
            select_transition(old(self)@, old(lib)@, final(self)@, final(lib)@, result_view(r)),
    {
        let action: Option<MenuEntryAction> = if self.index < self.entries.len() {
            Option::Some(self.entries[self.index].action.clone())
        } else {
            Option::None
        };
        match action {
            Option::None => Ok(SelectOutcome::Handled),
            Option::Some(MenuEntryAction::Menu { menu }) => {
                match self.open_menu(menu.as_str()) {
                    Ok(()) => Ok(SelectOutcome::Handled),
                    Err(e) => Err(e),
                }
            },
            Option::Some(MenuEntryAction::BuiltIn(_)) => Ok(SelectOutcome::Exit),
            Option::Some(MenuEntryAction::Query(q)) => {
                self.open_query(&q, lib);
                Ok(SelectOutcome::Handled)
            },
            Option::Some(MenuEntryAction::Exec { command, args }) => {
                Ok(SelectOutcome::RunCommand { command, args })
            },
            Option::Some(MenuEntryAction::Rom { rom, params }) => {
                lib.inc_play_count(rom.as_str());
                Ok(SelectOutcome::LaunchRom { rom, params })
            },
        }
    }

    /// Maps one user action onto the engine: cursor steps and pages, select,
    /// back, and favourite. `row_count` is the viewport page size the
    /// rendering collaborator supplies.
    pub fn handle_action(&mut self, lib: &mut RomLibrary, action: &Action, row_count: i32) -> (r:
        Result<SelectOutcome, NavigationError>)
        requires
            row_count >= 0,
        ensures
            *action == Action::CursorUp ==> final(self)@ == spec_move(old(self)@, -1) && final(lib)@
                == old(lib)@ && result_view(r) == Ok::<OutcomeView, NavigationError>(
                OutcomeView::Handled,
            ),
            *action == Action::CursorDown ==> final(self)@ == spec_move(old(self)@, 1) && final(lib)@ == old(lib)@ && result_view(r) == Ok::<OutcomeView, NavigationError>(
                OutcomeView::Handled,
            ),
            *action == Action::PageUp ==> final(self)@ == spec_move(old(self)@, -row_count as int)
                && final(lib)@ == old(lib)@ && result_view(r) == Ok::<
                OutcomeView,
                NavigationError,
            >(OutcomeView::Handled),
            *action == Action::PageDown ==> final(self)@ == spec_move(old(self)@, row_count as int)
                && final(lib)@ == old(lib)@ && result_view(r) == Ok::<
                OutcomeView,
                NavigationError,
            >(OutcomeView::Handled),
            *action == Action::Select ==> select_transition(
                old(self)@,
                old(lib)@,
                final(self)@,
                final(lib)@,
                result_view(r),
            ),
            *action == Action::Back ==> final(self)@ == spec_back(old(self)@) && final(lib)@ == old(lib)@ && result_view(r) == Ok::<OutcomeView, NavigationError>(OutcomeView::Handled),
            *action == Action::Favourite ==> toggle_transition(
                old(self)@,
                old(lib)@,
                final(self)@,
                final(lib)@,
            ) && result_view(r) == Ok::<OutcomeView, NavigationError>(OutcomeView::Handled),
    {
        match action {
            Action::CursorUp => {
                self.move_cursor(-1);
                Ok(SelectOutcome::Handled)
            },
            Action::CursorDown => {
                self.move_cursor(1);
                Ok(SelectOutcome::Handled)
            },
            Action::PageUp => {
                self.move_cursor(-row_count);
                Ok(SelectOutcome::Handled)
            },
            Action::PageDown => {
                self.move_cursor(row_count);
                Ok(SelectOutcome::Handled)
            },
            Action::Select => self.handle_select(lib),
            Action::Back => {
                self.back();
                Ok(SelectOutcome::Handled)
            },
            Action::Favourite => {
                self.toggle_favourite(lib);
                Ok(SelectOutcome::Handled)
            },
        }
    }
}

/// The window of entry views from the cursor onward, at most `n` long.
pub open spec fn fwd_window(v: NavView, n: int) -> Seq<MenuEntryView> {
    let tail = if 0 <= v.index <= v.entries.len() {
        v.entries.skip(v.index)
    } else {
        Seq::<MenuEntryView>::empty()
    };
    if n <= tail.len() {
        tail.take(n)
    } else {
        tail
    }
}

/// The window of entry views before the cursor, nearest first, at most `n`
/// long.
pub open spec fn rev_window(v: NavView, n: int) -> Seq<MenuEntryView> {
    let head = if 0 <= v.index <= v.entries.len() {
        v.entries.take(v.index).reverse()
    } else {
        Seq::<MenuEntryView>::empty()
    };
    if n <= head.len() {
        head.take(n)
    } else {
        head
    }
}

impl Query {
    /// Resolves the query against the catalog into an entry list: one entry
    /// per category label for `Categories`, one launchable entry per record
    /// for the rest, in the listing's order.
    pub fn run(&self, lib: &RomLibrary) -> (r: Vec<MenuEntry>)
        ensures
            entries_view(r@) == query_result_views(self@, lib@),
    {
        match self {
            Query::Categories => {
                let cats = lib.list_categories();
                let n = cats.len();
                let mut out: Vec<MenuEntry> = Vec::new();
                let mut i: usize = 0;
                while i < n
                    invariant
                        n == cats@.len(),
                        i <= n,
                        out@.len() == i,
                        forall|j: int|
                            0 <= j < i ==> out@[j]@ == category_entry_view(
                                (#[trigger] cats@[j])@,
                            ),
                    decreases n - i,
                {
                    let c = &cats[i];
                    out.push(
                        MenuEntry {
                            title: c.clone(),
                            action: MenuEntryAction::Query(
                                Query::Roms { genre: Option::Some(c.clone()) },
                            ),
                            screenshot: Option::None,
                            details: Option::None,
                        },
                    );
                    i = i + 1;
                }
                proof {
                    assert(entries_view(out@) =~= query_result_views(self@, lib@));
                }
                out
            },
            Query::Roms { genre } => {
                let genre_ref = genre.as_ref();
                let roms = lib.list_roms(genre_ref);
                proof {
                    assert(opt_string_view(genre_ref) == view_opt(*genre));
                }
                entries_from_roms(&roms)
            },
            Query::Favourites { count } => {
                let roms = lib.list_favourites(*count);
                entries_from_roms(&roms)
            },
            Query::Popular { count } => {
                let roms = lib.list_most_played(*count);
                entries_from_roms(&roms)
            },
        }
    }
}

/// One catalog-derived entry per record, in order.
fn entries_from_roms(roms: &Vec<Rom>) -> (r: Vec<MenuEntry>)
    ensures
        entries_view(r@) == roms@.map_values(|x: Rom| rom_entry_view(x)),
{
    let n = roms.len();
    let mut out: Vec<MenuEntry> = Vec::new();
    let mut i: usize = 0;
    while i < n
        invariant
            n == roms@.len(),
            i <= n,
            out@.len() == i,
            forall|j: int| 0 <= j < i ==> out@[j]@ == rom_entry_view(#[trigger] roms@[j]),
        decreases n - i,
    {
        out.push(MenuEntry::from_rom(&roms[i]));
        i = i + 1;
    }
    proof {
        assert(entries_view(out@) =~= roms@.map_values(|x: Rom| rom_entry_view(x)));
    }
    out
}

/// Stepping the cursor out of the list's range changes nothing: the
/// selection neither clamps nor wraps.
pub proof fn lemma_move_out_of_range_is_noop(v: NavView, delta: int)
    requires
        !(0 <= v.index + delta < v.entries.len()),
    ensures
        spec_move(v, delta) == v,
{
}

/// Opening a list and going back restores exactly the prior state — entry
/// list, cursor, and the rest of the stack — whatever the nesting depth.
pub proof fn lemma_open_then_back(v: NavView, es: Seq<MenuEntryView>)
    ensures
        spec_back(spec_open(v, es)) == v,
{
    assert(spec_open(v, es).history.drop_last() =~= v.history);
    assert(spec_back(spec_open(v, es)) =~= v);
}

/// Going back on an empty stack is a no-op and does not error.
pub proof fn lemma_back_on_empty_history(v: NavView)
    requires
        v.history.len() == 0,
    ensures
        spec_back(v) == v,
{
}

/// Every transition preserves the engine's invariant: inside a non-empty
/// list the cursor stays inside it, and on an empty list it rests at the
/// top, on the current list and on every stacked frame alike.
pub proof fn lemma_transitions_preserve_wf(
    v: NavView,
    es: Seq<MenuEntryView>,
    delta: int,
    lib: Seq<Rom>,
)
    requires
        nav_wf(v),
    ensures
        nav_wf(spec_open(v, es)),
        nav_wf(spec_back(v)),
        nav_wf(spec_move(v, delta)),
        nav_wf(spec_refresh(v, lib)),
{
    assert forall|i: int|
        0 <= i < spec_open(v, es).history.len() implies cursor_ok(
        (#[trigger] spec_open(v, es).history[i]).0,
        spec_open(v, es).history[i].1,
    ) by {
        if i < v.history.len() {
            assert(cursor_ok(v.history[i].0, v.history[i].1));
        }
    }
}

} // verus!
