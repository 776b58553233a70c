//! The menu data model: entries the user can see and select, the actions
//! they dispatch, the typed catalog queries, and the static menu-tree
//! configuration. Each type carries a mathematical view in which strings
//! are character sequences, so contracts can relate entries across the
//! clones the navigation engine makes.

use vstd::prelude::*;
use crate::rom_library::Rom;

verus! {

/// One menu row the user can see and select.
pub struct MenuEntry {
    /// Display text.
    pub title: String,
    /// What selecting the row does.
    pub action: MenuEntryAction,
    /// Screenshot image path for the side panel, when one applies.
    pub screenshot: Option<String>,
    /// Catalog detail, present only for catalog-derived entries.
    pub details: Option<MenuEntryDetail>,
}

/// What selecting an entry does.
pub enum MenuEntryAction {
    /// A fixed built-in behaviour.
    BuiltIn(BuiltInAction),
    /// Switch to the named static menu.
    Menu { menu: String },
    /// Spawn an external command without waiting for it.
    Exec { command: String, args: Option<Vec<String>> },
    /// Increment the rom's play count, then run the emulator on it,
    /// blocking until it exits.
    Rom { rom: String, params: Option<String> },
    /// Replace the current list with the live result of a catalog query.
    Query(Query),
}

/// The built-in actions.
pub enum BuiltInAction {
    /// Terminate the application.
    Exit,
}

/// A typed catalog query.
pub enum Query {
    /// One entry per distinct category label.
    Categories,
    /// Non-clone records, optionally restricted to one genre.
    Roms { genre: Option<String> },
    /// Non-clone favourites, capped.
    Favourites { count: u32 },
    /// Non-clone records played at least once, capped.
    Popular { count: u32 },
}

/// Catalog detail shown beside a catalog-derived entry.
pub struct MenuEntryDetail {
    pub is_favourite: bool,
    pub year: Option<String>,
    pub manufacturer: Option<String>,
}

/// A named list of entries from the static configuration.
pub struct Menu {
    pub entries: Vec<MenuEntry>,
}

/// The static menu tree: the root menu and the named menus it can open.
pub struct MenuConfig {
    pub main: Menu,
    /// Named menus; names are expected to be distinct, and the first match
    /// wins on lookup.
    pub menus: Vec<(String, Menu)>,
}

/// The view of an optional string.
pub open spec fn view_opt(o: Option<String>) -> Option<Seq<char>> {
    match o {
        Option::None => Option::None,
        Option::Some(s) => Option::Some(s@),
    }
}

/// The view of an optional list of strings.
pub open spec fn view_opt_vec(o: Option<Vec<String>>) -> Option<Seq<Seq<char>>> {
    match o {
        Option::None => Option::None,
        Option::Some(v) => Option::Some(v@.map_values(|s: String| s@)),
    }
}

/// Mathematical view of a menu entry.
#[verifier::ext_equal]
pub struct MenuEntryView {
    pub title: Seq<char>,
    pub action: ActionView,
    pub screenshot: Option<Seq<char>>,
    pub details: Option<DetailView>,
}

/// Mathematical view of an entry's action.
#[verifier::ext_equal]
pub enum ActionView {
    BuiltIn(BuiltInAction),
    Menu { menu: Seq<char> },
    Exec { command: Seq<char>, args: Option<Seq<Seq<char>>> },
    Rom { rom: Seq<char>, params: Option<Seq<char>> },
    Query(QueryView),
}

/// Mathematical view of a query.
#[verifier::ext_equal]
pub enum QueryView {
    Categories,
    Roms { genre: Option<Seq<char>> },
    Favourites { count: u32 },
    Popular { count: u32 },
}

/// Mathematical view of an entry's catalog detail.
#[verifier::ext_equal]
pub struct DetailView {
    pub is_favourite: bool,
    pub year: Option<Seq<char>>,
    pub manufacturer: Option<Seq<char>>,
}

impl View for Query {
    type V = QueryView;

    open spec fn view(&self) -> QueryView {
        match self {
            Query::Categories => QueryView::Categories,
            Query::Roms { genre } => QueryView::Roms { genre: view_opt(*genre) },
            Query::Favourites { count } => QueryView::Favourites { count: *count },
            Query::Popular { count } => QueryView::Popular { count: *count },
        }
    }
}

impl View for MenuEntryAction {
    type V = ActionView;

    open spec fn view(&self) -> ActionView {
        match self {
            MenuEntryAction::BuiltIn(b) => ActionView::BuiltIn(*b),
            MenuEntryAction::Menu { menu } => ActionView::Menu { menu: menu@ },
            MenuEntryAction::Exec { command, args } => ActionView::Exec {
                command: command@,
                args: view_opt_vec(*args),
            },
            MenuEntryAction::Rom { rom, params } => ActionView::Rom {
                rom: rom@,
                params: view_opt(*params),
            },
            MenuEntryAction::Query(q) => ActionView::Query(q@),
        }
    }
}

impl View for MenuEntryDetail {
    type V = DetailView;

    open spec fn view(&self) -> DetailView {
        DetailView {
            is_favourite: self.is_favourite,
            year: view_opt(self.year),
            manufacturer: view_opt(self.manufacturer),
        }
    }
}

impl View for MenuEntry {
    type V = MenuEntryView;

    open spec fn view(&self) -> MenuEntryView {
        MenuEntryView {
            title: self.title@,
            action: self.action@,
            screenshot: view_opt(self.screenshot),
            details: match self.details {
                Option::None => Option::None,
                Option::Some(d) => Option::Some(d@),
            },
        }
    }
}

/// The views of a sequence of entries.
pub open spec fn entries_view(s: Seq<MenuEntry>) -> Seq<MenuEntryView> {
    s.map_values(|e: MenuEntry| e@)
}

impl View for Menu {
    type V = Seq<MenuEntryView>;

    open spec fn view(&self) -> Seq<MenuEntryView> {
        entries_view(self.entries@)
    }
}

/// Mathematical view of the whole configuration.
#[verifier::ext_equal]
pub struct MenuConfigView {
    pub main: Seq<MenuEntryView>,
    pub menus: Seq<(Seq<char>, Seq<MenuEntryView>)>,
}

impl View for MenuConfig {
    type V = MenuConfigView;

    open spec fn view(&self) -> MenuConfigView {
        MenuConfigView {
            main: self.main@,
            menus: self.menus@.map_values(|m: (String, Menu)| (m.0@, m.1@)),
        }
    }
}

/// The entries of the first menu of the given name, when one is configured.
pub open spec fn lookup_menu(menus: Seq<(Seq<char>, Seq<MenuEntryView>)>, name: Seq<char>) -> Option<
    Seq<MenuEntryView>,
>
    decreases menus.len(),
{
    if menus.len() == 0 {
        Option::None
    } else if menus[0].0 == name {
        Option::Some(menus[0].1)
    } else {
        lookup_menu(menus.drop_first(), name)
    }
}

impl Clone for BuiltInAction {
    fn clone(&self) -> (r: Self)
        ensures
            r == *self,
    {
        match self {
            BuiltInAction::Exit => BuiltInAction::Exit,
        }
    }
}

impl Clone for Query {
    fn clone(&self) -> (r: Self)
        ensures
            r == *self,
    {
        match self {
            Query::Categories => Query::Categories,
            Query::Roms { genre } => Query::Roms {
                genre: crate::rom_library::clone_opt_string(genre),
            },
            Query::Favourites { count } => Query::Favourites { count: *count },
            Query::Popular { count } => Query::Popular { count: *count },
        }
    }
}

impl Clone for MenuEntryDetail {
    fn clone(&self) -> (r: Self)
        ensures
            r == *self,
    {
        MenuEntryDetail {
            is_favourite: self.is_favourite,
            year: crate::rom_library::clone_opt_string(&self.year),
            manufacturer: crate::rom_library::clone_opt_string(&self.manufacturer),
        }
    }
}

/// Clones a list of strings, preserving each string value.
pub fn clone_string_vec(v: &Vec<String>) -> (r: Vec<String>)
    ensures
        r@ == v@,
{
    let n = v.len();
    let mut out: Vec<String> = Vec::new();
    let mut i: usize = 0;
    while i < n
        invariant
            n == v@.len(),
            i <= n,
            out@ == v@.take(i as int),
        decreases n - i,
    {
        out.push(v[i].clone());
        proof {
            assert(out@ =~= v@.take(i + 1));
        }
        i = i + 1;
    }
    proof {
        assert(v@.take(n as int) =~= v@);
    }
    out
}

impl Clone for MenuEntryAction {
    fn clone(&self) -> (r: Self)
        ensures
            r@ == self@,
    {
        match self {
            MenuEntryAction::BuiltIn(b) => MenuEntryAction::BuiltIn(b.clone()),
            MenuEntryAction::Menu { menu } => MenuEntryAction::Menu { menu: menu.clone() },
            MenuEntryAction::Exec { command, args } => MenuEntryAction::Exec {
                command: command.clone(),
                args: match args {
                    Option::None => Option::None,
                    Option::Some(a) => Option::Some(clone_string_vec(a)),
                },
            },
            MenuEntryAction::Rom { rom, params } => MenuEntryAction::Rom {
                rom: rom.clone(),
                params: crate::rom_library::clone_opt_string(params),
            },
            MenuEntryAction::Query(q) => MenuEntryAction::Query(q.clone()),
        }
    }
}

impl Clone for MenuEntry {
    fn clone(&self) -> (r: Self)
        ensures
            r@ == self@,
    {
        MenuEntry {
            title: self.title.clone(),
            action: self.action.clone(),
            screenshot: crate::rom_library::clone_opt_string(&self.screenshot),
            details: match &self.details {
                Option::None => Option::None,
                Option::Some(d) => Option::Some(d.clone()),
            },
        }
    }
}

/// Clones a list of entries, preserving its view.
pub fn clone_entries(v: &Vec<MenuEntry>) -> (r: Vec<MenuEntry>)
    ensures
        entries_view(r@) == entries_view(v@),
{
    let n = v.len();
    let mut out: Vec<MenuEntry> = Vec::new();
    let mut i: usize = 0;
    while i < n
        invariant
            n == v@.len(),
            i <= n,
            out@.len() == i,
            forall|j: int| 0 <= j < i ==> out@[j]@ == #[trigger] v@[j]@,
        decreases n - i,
    {
        out.push(v[i].clone());
        i = i + 1;
    }
    proof {
        assert(entries_view(out@) =~= entries_view(v@));
    }
    out
}

impl Clone for Menu {
    fn clone(&self) -> (r: Self)
        ensures
            r@ == self@,
    {
        Menu { entries: clone_entries(&self.entries) }
    }
}

/// The view of the catalog-derived entry for one record: the record's title,
/// a launch action on its name, a screenshot path computed from its name,
/// and its detail fields.
pub open spec fn rom_entry_view(r: Rom) -> MenuEntryView {
    MenuEntryView {
        title: r.title@,
        action: ActionView::Rom { rom: r.name@, params: Option::None },
        screenshot: Option::Some(r.name@ + ".png"@),
        details: Option::Some(
            DetailView {
                is_favourite: r.is_favourite,
                year: view_opt(r.year),
                manufacturer: view_opt(r.manufacturer),
            },
        ),
    }
}

impl MenuEntry {
    /// The catalog-derived entry for one record.
    pub fn from_rom(r: &Rom) -> (e: MenuEntry)
        ensures
            e@ == rom_entry_view(*r),
    {
        let screenshot = r.name.clone().concat(".png");
        MenuEntry {
            title: r.title.clone(),
            action: MenuEntryAction::Rom { rom: r.name.clone(), params: Option::None },
            screenshot: Option::Some(screenshot),
            details: Option::Some(
                MenuEntryDetail {
                    is_favourite: r.is_favourite,
                    year: crate::rom_library::clone_opt_string(&r.year),
                    manufacturer: crate::rom_library::clone_opt_string(&r.manufacturer),
                },
            ),
        }
    }
}

/// Decides view equality of optional strings.
pub fn opt_string_eq(a: &Option<String>, b: &Option<String>) -> (r: bool)
    ensures
        r == (view_opt(*a) == view_opt(*b)),
{
    match (a, b) {
        (Option::None, Option::None) => true,
        (Option::Some(x), Option::Some(y)) => crate::text::str_eq(x.as_str(), y.as_str()),
        _ => false,
    }
}

/// Decides view equality of string lists.
pub fn string_vec_eq(a: &Vec<String>, b: &Vec<String>) -> (r: bool)
    ensures
        r == (a@.map_values(|s: String| s@) == b@.map_values(|s: String| s@)),
{
    let n = a.len();
    if n != b.len() {
        proof {
            assert(a@.map_values(|s: String| s@).len() == a@.len());
            assert(b@.map_values(|s: String| s@).len() == b@.len());
        }
        return false;
    }
    let mut i: usize = 0;
    while i < n
        invariant
            n == a@.len(),
            n == b@.len(),
            i <= n,
            forall|j: int| 0 <= j < i ==> a@[j]@ == #[trigger] b@[j]@,
        decreases n - i,
    {
        if !crate::text::str_eq(a[i].as_str(), b[i].as_str()) {
            proof {
                assert(a@.map_values(|s: String| s@)[i as int] != b@.map_values(
                    |s: String| s@,
                )[i as int]);
            }
            return false;
        }
        i = i + 1;
    }
    proof {
        assert(a@.map_values(|s: String| s@) =~= b@.map_values(|s: String| s@));
    }
    true
}

/// Decides view equality of queries.
pub fn query_eq(a: &Query, b: &Query) -> (r: bool)
    ensures
        r == (a@ == b@),
{
    match (a, b) {
        (Query::Categories, Query::Categories) => true,
        (Query::Roms { genre: g1 }, Query::Roms { genre: g2 }) => opt_string_eq(g1, g2),
        (Query::Favourites { count: c1 }, Query::Favourites { count: c2 }) => c1 == c2,
        (Query::Popular { count: c1 }, Query::Popular { count: c2 }) => c1 == c2,
        _ => false,
    }
}

/// Decides view equality of actions.
pub fn action_eq(a: &MenuEntryAction, b: &MenuEntryAction) -> (r: bool)
    ensures
        r == (a@ == b@),
{
    match (a, b) {
        (MenuEntryAction::BuiltIn(BuiltInAction::Exit), MenuEntryAction::BuiltIn(
            BuiltInAction::Exit,
        )) => true,
        (MenuEntryAction::Menu { menu: m1 }, MenuEntryAction::Menu { menu: m2 }) => {
            crate::text::str_eq(m1.as_str(), m2.as_str())
        },
        (
            MenuEntryAction::Exec { command: c1, args: a1 },
            MenuEntryAction::Exec { command: c2, args: a2 },
        ) => {
            let cmd_eq = crate::text::str_eq(c1.as_str(), c2.as_str());
            let args_eq = match (a1, a2) {
                (Option::None, Option::None) => true,
                (Option::Some(v1), Option::Some(v2)) => string_vec_eq(v1, v2),
                _ => false,
            };
            cmd_eq && args_eq
        },
        (
            MenuEntryAction::Rom { rom: r1, params: p1 },
            MenuEntryAction::Rom { rom: r2, params: p2 },
        ) => crate::text::str_eq(r1.as_str(), r2.as_str()) && opt_string_eq(p1, p2),
        (MenuEntryAction::Query(q1), MenuEntryAction::Query(q2)) => query_eq(q1, q2),
        _ => false,
    }
}

/// Decides view equality of details.
pub fn detail_eq(a: &MenuEntryDetail, b: &MenuEntryDetail) -> (r: bool)
    ensures
        r == (a@ == b@),
{
    a.is_favourite == b.is_favourite && opt_string_eq(&a.year, &b.year) && opt_string_eq(
        &a.manufacturer,
        &b.manufacturer,
    )
}

/// Decides view equality of menu entries.
pub fn entry_eq(a: &MenuEntry, b: &MenuEntry) -> (r: bool)
    ensures
        r == (a@ == b@),
{
    let details_eq = match (&a.details, &b.details) {
        (Option::None, Option::None) => true,
        (Option::Some(d1), Option::Some(d2)) => detail_eq(d1, d2),
        _ => false,
    };
    crate::text::str_eq(a.title.as_str(), b.title.as_str()) && action_eq(&a.action, &b.action)
        && opt_string_eq(&a.screenshot, &b.screenshot) && details_eq
}

impl MenuConfig {
    /// The first configured menu of the given name.
    pub fn get_menu(&self, name: &str) -> (r: Option<&Menu>)
        ensures
            match r {
                Option::Some(m) => lookup_menu(self@.menus, name@) == Option::Some(m@),
                Option::None => lookup_menu(self@.menus, name@) is None,
            },
    {
        let n = self.menus.len();
        let mut i: usize = 0;
        proof {
            assert(self@.menus.skip(0) =~= self@.menus);
        }
        while i < n
            invariant
                n == self.menus@.len(),
                i <= n,
                lookup_menu(self@.menus, name@) == lookup_menu(
                    self@.menus.skip(i as int),
                    name@,
                ),
                forall|j: int| 0 <= j < i ==> #[trigger] self.menus@[j].0@ != name@,
            decreases n - i,
        {
            if crate::text::str_eq(self.menus[i].0.as_str(), name) {
                return Option::Some(&self.menus[i].1);
            }
            proof {
                assert(self@.menus.skip(i as int).drop_first() =~= self@.menus.skip(i + 1));
            }
            i = i + 1;
        }
        Option::None
    }
}

} // verus!
