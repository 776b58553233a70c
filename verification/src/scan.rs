//! The ingest pipeline's join: reconcile the machine-metadata source, the
//! category-membership source, and the installed-file listing into the
//! record set a fresh catalog is built from, reporting what was skipped.
//! Reading the three sources is the caller's business; the join itself is
//! pure.

use vstd::prelude::*;
use crate::mame_xml::{Machine, MachineMap, machine_lookup};
use crate::rom_library::{Rom, clone_opt_string};

verus! {

/// One non-fatal finding of an ingest run; each reduces the resulting
/// catalog but stops nothing.
pub enum IngestWarning {
    /// A category lists this rom, but the metadata source does not know it.
    MetadataNotFound { rom: String },
    /// This rom is installed, but no category entry with metadata was found
    /// for it.
    NoMetadataForFile { rom: String },
}

/// The record the join builds for one rom: the name and category it was
/// reached by, and the machine's metadata. Favourites and play counts start
/// clear: ingest rebuilds the catalog from scratch.
pub open spec fn rom_of_machine(name: String, category: String, m: Machine) -> Rom {
    Rom {
        name: name,
        title: m.description,
        category: category,
        clone_of: m.clone_of,
        is_favourite: false,
        play_count: 0,
        year: m.year,
        manufacturer: m.manufacturer,
    }
}

/// The metadata-by-name map after one category's rom list, in list order;
/// a later entry for the same name overwrites an earlier one.
pub open spec fn meta_after_category(
    machines: Seq<Machine>,
    category: String,
    roms: Seq<String>,
    m0: Map<Seq<char>, Rom>,
) -> Map<Seq<char>, Rom>
    decreases roms.len(),
{
    if roms.len() == 0 {
        m0
    } else {
        let m = meta_after_category(machines, category, roms.drop_last(), m0);
        match machine_lookup(machines, roms.last()@) {
            Option::Some(mac) => m.insert(
                roms.last()@,
                rom_of_machine(roms.last(), category, mac),
            ),
            Option::None => m,
        }
    }
}

/// The metadata-by-name map over all categories, in source order; on a name
/// listed under several categories the last write wins.
pub open spec fn meta_map(machines: Seq<Machine>, cats: Seq<(String, Vec<String>)>) -> Map<
    Seq<char>,
    Rom,
>
    decreases cats.len(),
{
    if cats.len() == 0 {
        Map::<Seq<char>, Rom>::empty()
    } else {
        meta_after_category(
            machines,
            cats.last().0,
            cats.last().1@,
            meta_map(machines, cats.drop_last()),
        )
    }
}

/// The warnings one category's rom list produces: one per rom the metadata
/// source does not know, in list order.
pub open spec fn meta_warnings_category(
    machines: Seq<Machine>,
    roms: Seq<String>,
    w0: Seq<IngestWarning>,
) -> Seq<IngestWarning>
    decreases roms.len(),
{
    if roms.len() == 0 {
        w0
    } else {
        let w = meta_warnings_category(machines, roms.drop_last(), w0);
        if machine_lookup(machines, roms.last()@) is None {
            w.push(IngestWarning::MetadataNotFound { rom: roms.last() })
        } else {
            w
        }
    }
}

/// The warnings the metadata join produces over all categories.
pub open spec fn meta_warnings(machines: Seq<Machine>, cats: Seq<(String, Vec<String>)>) -> Seq<
    IngestWarning,
>
    decreases cats.len(),
{
    if cats.len() == 0 {
        Seq::<IngestWarning>::empty()
    } else {
        meta_warnings_category(machines, cats.last().1@, meta_warnings(machines, cats.drop_last()))
    }
}

/// The final record set: for each installed rom, in listing order, the
/// joined record of its name, when the join knows one.
pub open spec fn installed_selection(meta: Map<Seq<char>, Rom>, files: Seq<String>) -> Seq<Rom>
    decreases files.len(),
{
    if files.len() == 0 {
        Seq::<Rom>::empty()
    } else {
        let prev = installed_selection(meta, files.drop_last());
        if meta.dom().contains(files.last()@) {
            prev.push(meta[files.last()@])
        } else {
            prev
        }
    }
}

/// The warnings the installed-file pass produces: one per installed rom the
/// join does not know, in listing order.
pub open spec fn installed_warnings(meta: Map<Seq<char>, Rom>, files: Seq<String>) -> Seq<
    IngestWarning,
>
    decreases files.len(),
{
    if files.len() == 0 {
        Seq::<IngestWarning>::empty()
    } else {
        let prev = installed_warnings(meta, files.drop_last());
        if meta.dom().contains(files.last()@) {
            prev
        } else {
            prev.push(IngestWarning::NoMetadataForFile { rom: files.last() })
        }
    }
}

/// A name-to-record map realized as a record list: the map that inserts each
/// record in turn under its name, so a later record of a name shadows an
/// earlier one.
pub open spec fn as_meta(s: Seq<Rom>) -> Map<Seq<char>, Rom>
    decreases s.len(),
{
    if s.len() == 0 {
        Map::<Seq<char>, Rom>::empty()
    } else {
        as_meta(s.drop_last()).insert(s.last().name@, s.last())
    }
}

/// The last record of the given name in the list, when there is one.
pub open spec fn rom_lookup(s: Seq<Rom>, name: Seq<char>) -> Option<Rom>
    decreases s.len(),
{
    if s.len() == 0 {
        Option::None
    } else if s.last().name@ == name {
        Option::Some(s.last())
    } else {
        rom_lookup(s.drop_last(), name)
    }
}

/// The list-as-map and the last-match lookup agree.
proof fn lemma_as_meta_lookup(s: Seq<Rom>, name: Seq<char>)
    ensures
        as_meta(s).dom().contains(name) == (rom_lookup(s, name) is Some),
        rom_lookup(s, name) is Some ==> as_meta(s)[name] == rom_lookup(s, name).unwrap(),
    decreases s.len(),
{
    if s.len() > 0 {
        lemma_as_meta_lookup(s.drop_last(), name);
    }
}

/// The last record of the given name, looked up in a record list.
fn meta_get<'a>(v: &'a Vec<Rom>, name: &str) -> (r: Option<&'a Rom>)
    ensures
        match r {
            Option::Some(m) => rom_lookup(v@, name@) == Option::Some(*m),
            Option::None => rom_lookup(v@, name@) is None,
        },
{
    let mut i: usize = v.len();
    proof {
        assert(v@.take(v@.len() as int) =~= v@);
    }
    while i > 0
        invariant
            i <= v@.len(),
            rom_lookup(v@, name@) == rom_lookup(v@.take(i as int), name@),
        decreases i,
    {
        i = i - 1;
        proof {
            assert(v@.take(i + 1).drop_last() =~= v@.take(i as int));
            assert(v@.take(i + 1).last() == v@[i as int]);
        }
        if crate::text::str_eq(v[i].name.as_str(), name) {
            return Option::Some(&v[i]);
        }
    }
    Option::None
}

/// What an ingest run found: the record set to install, and the non-fatal
/// findings, join warnings first, then installed-file warnings.
pub struct ScanOutcome {
    pub roms: Vec<Rom>,
    pub warnings: Vec<IngestWarning>,
}

/// Joins the three sources: for each category's rom, take the machine's
/// metadata when the metadata source knows the name (reporting it when not);
/// then keep, of the installed roms, those the join knows (reporting those
/// it does not). Only records that are installed, categorized, and known to
/// the metadata source make it into the outcome.
pub fn scan(
    machines: &MachineMap,
    categories: &Vec<(String, Vec<String>)>,
    installed: &Vec<String>,
) -> (r: ScanOutcome)
    ensures
        r.roms@ == installed_selection(meta_map(machines@, categories@), installed@),
        r.warnings@ == meta_warnings(machines@, categories@) + installed_warnings(
            meta_map(machines@, categories@),
            installed@,
        ),
{
    let mut meta: Vec<Rom> = Vec::new();
    let mut warnings: Vec<IngestWarning> = Vec::new();
    let n_cats = categories.len();
    let mut i: usize = 0;
    proof {
        assert(categories@.take(0) =~= Seq::<(String, Vec<String>)>::empty());
    }
    while i < n_cats
        invariant
            n_cats == categories@.len(),
            i <= n_cats,
            as_meta(meta@) == meta_map(machines@, categories@.take(i as int)),
            warnings@ == meta_warnings(machines@, categories@.take(i as int)),
        decreases n_cats - i,
    {
        let pair = &categories[i];
        let n_roms = pair.1.len();
        let mut j: usize = 0;
        proof {
            assert(pair.1@.take(0) =~= Seq::<String>::empty());
        }
        while j < n_roms
            invariant
                n_cats == categories@.len(),
                i < n_cats,
                *pair == categories@[i as int],
                n_roms == pair.1@.len(),
                j <= n_roms,
                as_meta(meta@) == meta_after_category(
                    machines@,
                    pair.0,
                    pair.1@.take(j as int),
                    meta_map(machines@, categories@.take(i as int)),
                ),
                warnings@ == meta_warnings_category(
                    machines@,
                    pair.1@.take(j as int),
                    meta_warnings(machines@, categories@.take(i as int)),
                ),
            decreases n_roms - j,
        {
            let rom_name = &pair.1[j];
            proof {
                assert(pair.1@.take(j + 1).drop_last() =~= pair.1@.take(j as int));
                assert(pair.1@.take(j + 1).last() == pair.1@[j as int]);
            }
            match machines.get(rom_name.as_str()) {
                Option::Some(mac) => {
                    let record = Rom {
                        name: rom_name.clone(),
                        title: mac.description.clone(),
                        category: pair.0.clone(),
                        clone_of: clone_opt_string(&mac.clone_of),
                        is_favourite: false,
                        play_count: 0,
                        year: clone_opt_string(&mac.year),
                        manufacturer: clone_opt_string(&mac.manufacturer),
                    };
                    proof {
                        assert(machine_lookup(machines@, pair.1@[j as int]@) == Option::Some(
                            *mac,
                        ));
                        assert(record == rom_of_machine(pair.1@[j as int], pair.0, *mac));
                    }
                    let ghost meta_snap = meta@;
                    meta.push(record);
                    proof {
                        assert(meta@.drop_last() =~= meta_snap);
                    }
                },
                Option::None => {
                    warnings.push(IngestWarning::MetadataNotFound { rom: rom_name.clone() });
                },
            }
            j = j + 1;
        }
        proof {
            assert(pair.1@.take(n_roms as int) =~= pair.1@);
            assert(categories@.take(i + 1).drop_last() =~= categories@.take(i as int));
            assert(categories@.take(i + 1).last() == categories@[i as int]);
        }
        i = i + 1;
    }
    proof {
        assert(categories@.take(n_cats as int) =~= categories@);
    }
    let mut roms: Vec<Rom> = Vec::new();
    let n_files = installed.len();
    let mut k: usize = 0;
    proof {
        assert(installed@.take(0) =~= Seq::<String>::empty());
    }
    while k < n_files
        invariant
            n_files == installed@.len(),
            k <= n_files,
            as_meta(meta@) == meta_map(machines@, categories@),
            roms@ == installed_selection(meta_map(machines@, categories@), installed@.take(
                k as int,
            )),
            warnings@ == meta_warnings(machines@, categories@) + installed_warnings(
                meta_map(machines@, categories@),
                installed@.take(k as int),
            ),
        decreases n_files - k,
    {
        let file = &installed[k];
        proof {
            assert(installed@.take(k + 1).drop_last() =~= installed@.take(k as int));
            assert(installed@.take(k + 1).last() == installed@[k as int]);
            lemma_as_meta_lookup(meta@, installed@[k as int]@);
        }
        match meta_get(&meta, file.as_str()) {
            Option::Some(m) => {
                roms.push(m.clone());
            },
            Option::None => {
                warnings.push(IngestWarning::NoMetadataForFile { rom: file.clone() });
            },
        }
        k = k + 1;
    }
    proof {
        assert(installed@.take(n_files as int) =~= installed@);
    }
    ScanOutcome { roms, warnings }
}

} // verus!
