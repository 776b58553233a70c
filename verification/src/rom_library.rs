//! The catalog store: one record per rom, with the two pieces of mutable
//! session state (favourite flag, play count), plus the mutating operations.
//! The store is rebuilt wholesale by the ingest pipeline and queried by the
//! query layer.

use vstd::prelude::*;

verus! {

/// One physical rom tracked by the catalog.
pub struct Rom {
    /// Unique identifier; matches the installed file's stem.
    pub name: String,
    /// Display name.
    pub title: String,
    /// Genre label.
    pub category: String,
    /// Parent rom name for clone variants; clones are excluded from listings.
    pub clone_of: Option<String>,
    /// User-mutable favourite flag.
    pub is_favourite: bool,
    /// User-mutable play count; starts at zero.
    pub play_count: u64,
    pub year: Option<String>,
    pub manufacturer: Option<String>,
}

/// Clones an optional string, preserving the value exactly.
pub fn clone_opt_string(o: &Option<String>) -> (r: Option<String>)
    ensures
        r == *o,
{
    match o {
        Option::None => Option::None,
        Option::Some(s) => Option::Some(s.clone()),
    }
}

impl Clone for Rom {
    fn clone(&self) -> (r: Self)
        ensures
            r == *self,
    {
        Rom {
            name: self.name.clone(),
            title: self.title.clone(),
            category: self.category.clone(),
            clone_of: clone_opt_string(&self.clone_of),
            is_favourite: self.is_favourite,
            play_count: self.play_count,
            year: clone_opt_string(&self.year),
            manufacturer: clone_opt_string(&self.manufacturer),
        }
    }
}

/// A failure of the catalog store. The in-memory table enforces one
/// constraint: rom names are unique.
pub enum StorageError {
    /// A batch of records held two records with the same name.
    DuplicateName,
}

/// Rom names identify records uniquely.
pub open spec fn unique_names(s: Seq<Rom>) -> bool {
    forall|i: int, j: int| 0 <= i < j < s.len() ==> s[i].name@ != s[j].name@
}

/// The record after one play-count increment; the count saturates at the
/// machine limit rather than wrapping.
pub open spec fn inc_rom(r: Rom) -> Rom {
    Rom {
        play_count: if r.play_count < u64::MAX {
            (r.play_count + 1) as u64
        } else {
            r.play_count
        },
        ..r
    }
}

/// The record with its favourite flag flipped.
pub open spec fn toggle_rom(r: Rom) -> Rom {
    Rom { is_favourite: !r.is_favourite, ..r }
}

/// The table after an increment of every record of the given name.
pub open spec fn inc_all(s: Seq<Rom>, name: Seq<char>) -> Seq<Rom> {
    s.map_values(
        |r: Rom|
            if r.name@ == name {
                inc_rom(r)
            } else {
                r
            },
    )
}

/// The table after a favourite toggle of every record of the given name.
pub open spec fn toggle_all(s: Seq<Rom>, name: Seq<char>) -> Seq<Rom> {
    s.map_values(
        |r: Rom|
            if r.name@ == name {
                toggle_rom(r)
            } else {
                r
            },
    )
}

/// The catalog store. Its abstract value is the sequence of records it
/// holds, in insertion order.
pub struct RomLibrary {
    roms: Vec<Rom>,
}

impl View for RomLibrary {
    type V = Seq<Rom>;

    closed spec fn view(&self) -> Seq<Rom> {
        self.roms@
    }
}

impl RomLibrary {
    /// An empty catalog.
    pub fn new() -> (r: Self)
        ensures
            r@ == Seq::<Rom>::empty(),
    {
        RomLibrary { roms: Vec::new() }
    }

    /// Every record the catalog holds, clones included, in insertion order.
    pub fn records(&self) -> (r: &Vec<Rom>)
        ensures
            r@ == self@,
    {
        &self.roms
    }

    /// Discards every record and installs the given batch; all-or-nothing.
    /// Fails, leaving the store untouched, exactly when the batch violates
    /// the name-uniqueness constraint.
    pub fn replace_all(&mut self, records: Vec<Rom>) -> (r: Result<(), StorageError>)
        ensures
            match r {
                Ok(()) => unique_names(records@) && final(self)@ == records@,
                Err(StorageError::DuplicateName) => !unique_names(records@) && final(self)@
                    == old(self)@,
            },
    {
        let n = records.len();
        let mut i: usize = 0;
        while i < n
            invariant
                n == records@.len(),
                i <= n,
                forall|p: int, q: int| 0 <= p < q < i ==> records@[p].name@ != records@[q].name@,
                forall|p: int, q: int|
                    0 <= p < i && p < q < n ==> records@[p].name@ != records@[q].name@,
            decreases n - i,
        {
            let mut j: usize = i + 1;
            while j < n
                invariant
                    i < j <= n,
                    n == records@.len(),
                    forall|q: int| i < q < j ==> records@[i as int].name@ != records@[q].name@,
                decreases n - j,
            {
                if crate::text::str_eq(records[i].name.as_str(), records[j].name.as_str()) {
                    return Err(StorageError::DuplicateName);
                }
                j = j + 1;
            }
            i = i + 1;
        }
        self.roms = records;
        Ok(())
    }

    /// Atomically increments the play count of the named rom; doing so on a
    /// name the catalog does not hold is a no-op, not an error.
    pub fn inc_play_count(&mut self, rom_name: &str)
        ensures
            final(self)@ == inc_all(old(self)@, rom_name@),
    {
        let n = self.roms.len();
        let mut out: Vec<Rom> = Vec::new();
        let mut i: usize = 0;
        while i < n
            invariant
                n == self.roms@.len(),
                i <= n,
                out@.len() == i,
                forall|j: int|
                    0 <= j < i ==> out@[j] == (if self.roms@[j].name@ == rom_name@ {
                        inc_rom(self.roms@[j])
                    } else {
                        self.roms@[j]
                    }),
            decreases n - i,
        {
            let r = &self.roms[i];
            if crate::text::str_eq(r.name.as_str(), rom_name) {
                let mut c = r.clone();
                if c.play_count < u64::MAX {
                    c.play_count = c.play_count + 1;
                }
                out.push(c);
            } else {
                out.push(r.clone());
            }
            i = i + 1;
        }
        proof {
            assert(out@ =~= inc_all(self.roms@, rom_name@));
        }
        self.roms = out;
    }

    /// Flips the favourite flag of the named rom; a no-op, not an error, on
    /// a name the catalog does not hold.
    pub fn toggle_favourite(&mut self, rom_name: &str)
        ensures
            final(self)@ == toggle_all(old(self)@, rom_name@),
    {
        let n = self.roms.len();
        let mut out: Vec<Rom> = Vec::new();
        let mut i: usize = 0;
        while i < n
            invariant
                n == self.roms@.len(),
                i <= n,
                out@.len() == i,
                forall|j: int|
                    0 <= j < i ==> out@[j] == (if self.roms@[j].name@ == rom_name@ {
                        toggle_rom(self.roms@[j])
                    } else {
                        self.roms@[j]
                    }),
            decreases n - i,
        {
            let r = &self.roms[i];
            if crate::text::str_eq(r.name.as_str(), rom_name) {
                let mut c = r.clone();
                c.is_favourite = !c.is_favourite;
                out.push(c);
            } else {
                out.push(r.clone());
            }
            i = i + 1;
        }
        proof {
            assert(out@ =~= toggle_all(self.roms@, rom_name@));
        }
        self.roms = out;
    }

    /// Discards every record.
    pub fn clear(&mut self)
        ensures
            final(self)@ == Seq::<Rom>::empty(),
    {
        self.roms = Vec::new();
    }

    /// Appends a batch of records without clearing first; fails, leaving the
    /// store untouched, when the combined table would violate the
    /// name-uniqueness constraint.
    pub fn add_roms(&mut self, roms: Vec<Rom>) -> (r: Result<(), StorageError>)
        ensures
            match r {
                Ok(()) => unique_names(old(self)@ + roms@) && final(self)@ == old(self)@ + roms@,
                Err(StorageError::DuplicateName) => !unique_names(old(self)@ + roms@)
                    && final(self)@ == old(self)@,
            },
    {
        let mut combined: Vec<Rom> = Vec::new();
        let n0 = self.roms.len();
        let mut i: usize = 0;
        while i < n0
            invariant
                n0 == self.roms@.len(),
                i <= n0,
                combined@ == self.roms@.take(i as int),
            decreases n0 - i,
        {
            combined.push(self.roms[i].clone());
            proof {
                assert(combined@ =~= self.roms@.take(i + 1));
            }
            i = i + 1;
        }
        let n1 = roms.len();
        let mut j: usize = 0;
        while j < n1
            invariant
                n1 == roms@.len(),
                j <= n1,
                combined@ == self.roms@ + roms@.take(j as int),
            decreases n1 - j,
        {
            combined.push(roms[j].clone());
            proof {
                assert(combined@ =~= self.roms@ + roms@.take(j + 1));
            }
            j = j + 1;
        }
        proof {
            assert(self.roms@.take(n0 as int) =~= self.roms@);
            assert(combined@ =~= self.roms@ + roms@);
        }
        self.replace_all(combined)
    }
}

/// The records `list_roms` selects: non-clones, filtered by genre when one
/// is given.
pub open spec fn roms_filter(s: Seq<Rom>, genre: Option<Seq<char>>) -> Seq<Rom> {
    s.filter(
        |r: Rom| r.clone_of is None && (genre is None || r.category@ == genre->Some_0),
    )
}

/// The records `list_favourites` selects: non-clone favourites.
pub open spec fn favourites_filter(s: Seq<Rom>) -> Seq<Rom> {
    s.filter(|r: Rom| r.clone_of is None && r.is_favourite)
}

/// The records `list_most_played` selects: non-clones played at least once.
pub open spec fn most_played_filter(s: Seq<Rom>) -> Seq<Rom> {
    s.filter(|r: Rom| r.clone_of is None && r.play_count > 0)
}

/// The first `n` records, or all of them when fewer than `n` remain.
pub open spec fn take_at_most(s: Seq<Rom>, n: int) -> Seq<Rom> {
    if n <= s.len() {
        s.take(n)
    } else {
        s
    }
}

/// The distinct category labels over the non-clone records, each at its
/// first occurrence.
pub open spec fn distinct_categories(s: Seq<Rom>) -> Seq<String>
    decreases s.len(),
{
    if s.len() == 0 {
        Seq::<String>::empty()
    } else {
        let prev = distinct_categories(s.drop_last());
        if s.last().clone_of is None && !contains_category(prev, s.last().category@) {
            prev.push(s.last().category)
        } else {
            prev
        }
    }
}

/// Whether some label in the sequence reads the same as the given one.
pub open spec fn contains_category(cats: Seq<String>, c: Seq<char>) -> bool {
    exists|i: int| 0 <= i < cats.len() && cats[i]@ == c
}

/// The view of an optional borrowed string.
pub open spec fn opt_string_view(o: Option<&String>) -> Option<Seq<char>> {
    match o {
        Option::None => Option::None,
        Option::Some(s) => Option::Some(s@),
    }
}

/// Decides `contains_category`.
fn vec_contains_str(cats: &Vec<String>, c: &str) -> (r: bool)
    ensures
        r == contains_category(cats@, c@),
{
    let n = cats.len();
    let mut i: usize = 0;
    while i < n
        invariant
            n == cats@.len(),
            i <= n,
            forall|j: int| 0 <= j < i ==> cats@[j]@ != c@,
        decreases n - i,
    {
        if crate::text::str_eq(cats[i].as_str(), c) {
            return true;
        }
        i = i + 1;
    }
    false
}

impl RomLibrary {
    /// The distinct category labels over non-clone records, in order of
    /// first appearance. The catalog presents these as a plain sequence;
    /// only which labels appear is meaningful.
    pub fn list_categories(&self) -> (r: Vec<String>)
        ensures
            r@ == distinct_categories(self@),
    {
        let n = self.roms.len();
        let mut out: Vec<String> = Vec::new();
        let mut i: usize = 0;
        proof {
            assert(self.roms@.take(0) =~= Seq::<Rom>::empty());
        }
        while i < n
            invariant
                n == self.roms@.len(),
                i <= n,
                out@ == distinct_categories(self.roms@.take(i as int)),
            decreases n - i,
        {
            let r = &self.roms[i];
            proof {
                assert(self.roms@.take(i + 1).drop_last() =~= self.roms@.take(i as int));
                assert(self.roms@.take(i + 1).last() == self.roms@[i as int]);
            }
            if r.clone_of.is_none() {
                if !vec_contains_str(&out, r.category.as_str()) {
                    out.push(r.category.clone());
                }
            }
            i = i + 1;
        }
        proof {
            assert(self.roms@.take(n as int) =~= self.roms@);
        }
        out
    }

    /// The non-clone records, filtered by category when one is given,
    /// ordered by title ascending.
    pub fn list_roms(&self, category: Option<&String>) -> (r: Vec<Rom>)
        ensures
            r@ == crate::order::sort_with(
                roms_filter(self@, opt_string_view(category)),
                crate::order::SortOrder::Title,
            ),
    {
        let n = self.roms.len();
        let mut kept: Vec<Rom> = Vec::new();
        let mut i: usize = 0;
        proof {
            assert(self.roms@.take(0) =~= Seq::<Rom>::empty());
            reveal(Seq::filter);
            assert(roms_filter(self.roms@.take(0), opt_string_view(category)) =~= Seq::<
                Rom,
            >::empty());
        }
        while i < n
            invariant
                n == self.roms@.len(),
                i <= n,
                kept@ == roms_filter(self.roms@.take(i as int), opt_string_view(category)),
            decreases n - i,
        {
            let r = &self.roms[i];
            proof {
                reveal(Seq::filter);
                assert(self.roms@.take(i + 1).drop_last() =~= self.roms@.take(i as int));
                assert(self.roms@.take(i + 1).last() == self.roms@[i as int]);
            }
            if r.clone_of.is_none() {
                let matches_genre = match category {
                    Option::None => true,
                    Option::Some(c) => crate::text::str_eq(r.category.as_str(), c.as_str()),
                };
                if matches_genre {
                    kept.push(r.clone());
                }
            }
            i = i + 1;
        }
        proof {
            assert(self.roms@.take(n as int) =~= self.roms@);
        }
        crate::order::sort_roms(kept, &crate::order::SortOrder::Title)
    }

    /// The non-clone favourites, ordered by title ascending, capped at
    /// `count`.
    pub fn list_favourites(&self, count: u32) -> (r: Vec<Rom>)
        ensures
            r@ == take_at_most(
                crate::order::sort_with(favourites_filter(self@), crate::order::SortOrder::Title),
                count as int,
            ),
    {
        let n = self.roms.len();
        let mut kept: Vec<Rom> = Vec::new();
        let mut i: usize = 0;
        proof {
            assert(self.roms@.take(0) =~= Seq::<Rom>::empty());
            reveal(Seq::filter);
            assert(favourites_filter(self.roms@.take(0)) =~= Seq::<Rom>::empty());
        }
        while i < n
            invariant
                n == self.roms@.len(),
                i <= n,
                kept@ == favourites_filter(self.roms@.take(i as int)),
            decreases n - i,
        {
            let r = &self.roms[i];
            proof {
                assert(self.roms@.take(i + 1).drop_last() =~= self.roms@.take(i as int));
                assert(self.roms@.take(i + 1).last() == self.roms@[i as int]);
            }
            proof {
                reveal(Seq::filter);
            }
            if r.clone_of.is_none() && r.is_favourite {
                kept.push(r.clone());
            }
            i = i + 1;
        }
        proof {
            assert(self.roms@.take(n as int) =~= self.roms@);
        }
        let mut sorted = crate::order::sort_roms(kept, &crate::order::SortOrder::Title);
        let cap = count as usize;
        sorted.truncate(cap);
        sorted
    }

    /// The non-clone records played at least once, ordered by play count
    /// descending then title ascending, capped at `count`.
    pub fn list_most_played(&self, count: u32) -> (r: Vec<Rom>)
        ensures
            r@ == take_at_most(
                crate::order::sort_with(
                    most_played_filter(self@),
                    crate::order::SortOrder::MostPlayed,
                ),
                count as int,
            ),
    {
        let n = self.roms.len();
        let mut kept: Vec<Rom> = Vec::new();
        let mut i: usize = 0;
        proof {
            assert(self.roms@.take(0) =~= Seq::<Rom>::empty());
            reveal(Seq::filter);
            assert(most_played_filter(self.roms@.take(0)) =~= Seq::<Rom>::empty());
        }
        while i < n
            invariant
                n == self.roms@.len(),
                i <= n,
                kept@ == most_played_filter(self.roms@.take(i as int)),
            decreases n - i,
        {
            let r = &self.roms[i];
            proof {
                assert(self.roms@.take(i + 1).drop_last() =~= self.roms@.take(i as int));
                assert(self.roms@.take(i + 1).last() == self.roms@[i as int]);
            }
            proof {
                reveal(Seq::filter);
            }
            if r.clone_of.is_none() && r.play_count > 0 {
                kept.push(r.clone());
            }
            i = i + 1;
        }
        proof {
            assert(self.roms@.take(n as int) =~= self.roms@);
        }
        let mut sorted = crate::order::sort_roms(kept, &crate::order::SortOrder::MostPlayed);
        let cap = count as usize;
        sorted.truncate(cap);
        sorted
    }
}

/// Some non-clone record of the table carries the given category label.
pub open spec fn category_of_some_non_clone(s: Seq<Rom>, c: Seq<char>) -> bool {
    exists|k: int| 0 <= k < s.len() && (#[trigger] s[k]).clone_of is None && s[k].category@ == c
}

/// The categories listing is exact: its labels are pairwise distinct, every
/// label is the category of some non-clone record, and every non-clone
/// record's category appears.
pub proof fn lemma_distinct_categories_exact(s: Seq<Rom>)
    ensures
        forall|i: int, j: int|
            0 <= i < j < distinct_categories(s).len() ==> distinct_categories(s)[i]@
                != distinct_categories(s)[j]@,
        forall|i: int|
            0 <= i < distinct_categories(s).len() ==> category_of_some_non_clone(
                s,
                (#[trigger] distinct_categories(s)[i])@,
            ),
        forall|k: int|
            0 <= k < s.len() && (#[trigger] s[k]).clone_of is None ==> contains_category(
                distinct_categories(s),
                s[k].category@,
            ),
    decreases s.len(),
{
    if s.len() > 0 {
        lemma_distinct_categories_exact(s.drop_last());
        let prev = distinct_categories(s.drop_last());
        let dc = distinct_categories(s);
        let last = s.last();
        assert forall|i: int|
            0 <= i < dc.len() implies category_of_some_non_clone(s, (#[trigger] dc[i])@) by {
            if i < prev.len() {
                let k = choose|k: int|
                    0 <= k < s.drop_last().len() && (#[trigger] s.drop_last()[k]).clone_of is None
                        && s.drop_last()[k].category@ == prev[i]@;
                assert(0 <= k < s.len() && s[k].clone_of is None && s[k].category@ == dc[i]@);
            } else {
                assert(s[s.len() - 1].clone_of is None && s[s.len() - 1].category@ == dc[i]@);
            }
        }
        assert forall|k: int|
            0 <= k < s.len() && (#[trigger] s[k]).clone_of is None implies contains_category(
            dc,
            s[k].category@,
        ) by {
            if k < s.len() - 1 {
                let i = choose|i: int|
                    0 <= i < prev.len() && prev[i]@ == s.drop_last()[k].category@;
                assert(dc[i]@ == s[k].category@);
            } else {
                if contains_category(prev, last.category@) {
                    let i = choose|i: int| 0 <= i < prev.len() && prev[i]@ == last.category@;
                    assert(dc[i]@ == s[k].category@);
                } else {
                    assert(dc[dc.len() - 1]@ == s[k].category@);
                }
            }
        }
    }
}

/// No clone record ever appears in a title or play-count listing: every
/// record the three list queries return has no `clone_of`.
pub proof fn lemma_listings_exclude_clones(s: Seq<Rom>, genre: Option<Seq<char>>, n: int)
    requires
        0 <= n,
    ensures
        forall|i: int|
            0 <= i < take_at_most(
                crate::order::sort_with(roms_filter(s, genre), crate::order::SortOrder::Title),
                n,
            ).len() ==> take_at_most(
                crate::order::sort_with(roms_filter(s, genre), crate::order::SortOrder::Title),
                n,
            )[i].clone_of is None,
        forall|i: int|
            0 <= i < take_at_most(
                crate::order::sort_with(favourites_filter(s), crate::order::SortOrder::Title),
                n,
            ).len() ==> take_at_most(
                crate::order::sort_with(favourites_filter(s), crate::order::SortOrder::Title),
                n,
            )[i].clone_of is None,
        forall|i: int|
            0 <= i < take_at_most(
                crate::order::sort_with(
                    most_played_filter(s),
                    crate::order::SortOrder::MostPlayed,
                ),
                n,
            ).len() ==> take_at_most(
                crate::order::sort_with(
                    most_played_filter(s),
                    crate::order::SortOrder::MostPlayed,
                ),
                n,
            )[i].clone_of is None,
{
    lemma_filters_keep_no_clones(s, genre);
    lemma_sorted_filter_pred(roms_filter(s, genre), crate::order::SortOrder::Title, n);
    lemma_sorted_filter_pred(favourites_filter(s), crate::order::SortOrder::Title, n);
    lemma_sorted_filter_pred(most_played_filter(s), crate::order::SortOrder::MostPlayed, n);
}

/// Helper: each record of a capped, sorted listing comes from the filtered
/// sequence that was sorted, so it keeps the filter's defining property.
proof fn lemma_sorted_filter_pred(f: Seq<Rom>, o: crate::order::SortOrder, n: int)
    requires
        0 <= n,
        forall|k: int| 0 <= k < f.len() ==> f[k].clone_of is None,
    ensures
        forall|i: int|
            0 <= i < take_at_most(crate::order::sort_with(f, o), n).len() ==> take_at_most(
                crate::order::sort_with(f, o),
                n,
            )[i].clone_of is None,
{
    let sorted = crate::order::sort_with(f, o);
    assert forall|i: int|
        0 <= i < take_at_most(sorted, n).len() implies take_at_most(sorted, n)[i].clone_of
        is None by {
        assert(take_at_most(sorted, n)[i] == sorted[i]);
        crate::order::lemma_sort_with_membership(f, o, i);
    }
}

/// The three filters only keep non-clone records.
pub proof fn lemma_filters_keep_no_clones(s: Seq<Rom>, genre: Option<Seq<char>>)
    ensures
        forall|k: int|
            0 <= k < roms_filter(s, genre).len() ==> roms_filter(s, genre)[k].clone_of is None,
        forall|k: int|
            0 <= k < favourites_filter(s).len() ==> favourites_filter(s)[k].clone_of is None,
        forall|k: int|
            0 <= k < most_played_filter(s).len() ==> most_played_filter(s)[k].clone_of is None,
{
    broadcast use vstd::seq_lib::group_filter_ensures;

}

/// Toggling a favourite twice restores the record exactly.
pub proof fn lemma_toggle_rom_involutive(r: Rom)
    ensures
        toggle_rom(toggle_rom(r)) == r,
{
}

/// Toggling the same name twice restores the whole table exactly; in
/// particular a toggle of a name the table does not hold is a no-op.
pub proof fn lemma_toggle_twice_identity(s: Seq<Rom>, name: Seq<char>)
    ensures
        toggle_all(toggle_all(s, name), name) == s,
{
    assert(toggle_all(toggle_all(s, name), name) =~= s);
}

/// A toggle of a name the table does not hold leaves the table unchanged.
pub proof fn lemma_toggle_absent_identity(s: Seq<Rom>, name: Seq<char>)
    requires
        forall|i: int| 0 <= i < s.len() ==> s[i].name@ != name,
    ensures
        toggle_all(s, name) == s,
{
    assert(toggle_all(s, name) =~= s);
}

/// An increment of a name the table does not hold leaves the table
/// unchanged.
pub proof fn lemma_inc_absent_identity(s: Seq<Rom>, name: Seq<char>)
    requires
        forall|i: int| 0 <= i < s.len() ==> s[i].name@ != name,
    ensures
        inc_all(s, name) == s,
{
    assert(inc_all(s, name) =~= s);
}

/// The table after `k` increments of the same name.
pub open spec fn inc_all_n(s: Seq<Rom>, name: Seq<char>, k: nat) -> Seq<Rom>
    decreases k,
{
    if k == 0 {
        s
    } else {
        inc_all(inc_all_n(s, name, (k - 1) as nat), name)
    }
}

/// Play counting is monotonic and exact: as long as no count saturates,
/// `k` increments of one name add exactly `k` to every record of that name
/// and leave every other record untouched. Starting from a fresh record
/// with count zero, `k` increments yield count `k`.
pub proof fn lemma_inc_n_exact(s: Seq<Rom>, name: Seq<char>, k: nat)
    requires
        forall|i: int|
            0 <= i < s.len() && s[i].name@ == name ==> s[i].play_count + k <= u64::MAX,
    ensures
        inc_all_n(s, name, k).len() == s.len(),
        forall|i: int|
            0 <= i < s.len() ==> #[trigger] inc_all_n(s, name, k)[i] == (if s[i].name@ == name {
                Rom { play_count: (s[i].play_count + k) as u64, ..s[i] }
            } else {
                s[i]
            }),
    decreases k,
{
    if k > 0 {
        lemma_inc_n_exact(s, name, (k - 1) as nat);
        assert forall|i: int| 0 <= i < s.len() implies #[trigger] inc_all_n(s, name, k)[i] == (
        if s[i].name@ == name {
            Rom { play_count: (s[i].play_count + k) as u64, ..s[i] }
        } else {
            s[i]
        }) by {
            let prev = inc_all_n(s, name, (k - 1) as nat);
            assert(inc_all_n(s, name, k) == inc_all(prev, name));
            assert(inc_all(prev, name)[i] == (if prev[i].name@ == name {
                inc_rom(prev[i])
            } else {
                prev[i]
            }));
        }
    }
}

} // verus!
