//! The machine-metadata source: one record per machine from the emulator's
//! machine list, and a by-name lookup over them. Reading and decoding the
//! XML file is the caller's business; the model here starts at the decoded
//! records.

use vstd::prelude::*;

verus! {

/// One machine's metadata.
pub struct Machine {
    /// The machine's rom name; the join key of the ingest pipeline.
    pub name: String,
    /// Parent rom name for clone variants.
    pub clone_of: Option<String>,
    pub rom_of: Option<String>,
    pub is_mechanical: Option<String>,
    pub is_device: Option<String>,
    /// Display title.
    pub description: String,
    pub year: Option<String>,
    pub manufacturer: Option<String>,
}

impl Clone for Machine {
    fn clone(&self) -> (r: Self)
        ensures
            r == *self,
    {
        Machine {
            name: self.name.clone(),
            clone_of: crate::rom_library::clone_opt_string(&self.clone_of),
            rom_of: crate::rom_library::clone_opt_string(&self.rom_of),
            is_mechanical: crate::rom_library::clone_opt_string(&self.is_mechanical),
            is_device: crate::rom_library::clone_opt_string(&self.is_device),
            description: self.description.clone(),
            year: crate::rom_library::clone_opt_string(&self.year),
            manufacturer: crate::rom_library::clone_opt_string(&self.manufacturer),
        }
    }
}

/// The decoded machine list, in file order.
pub struct Mame {
    pub machines: Vec<Machine>,
}

/// A machine list indexed by name. Its abstract value is the underlying
/// record sequence; lookups resolve a name to the last record carrying it,
/// as a later record shadows an earlier one of the same name.
pub struct MachineMap {
    entries: Vec<Machine>,
}

impl View for MachineMap {
    type V = Seq<Machine>;

    closed spec fn view(&self) -> Seq<Machine> {
        self.entries@
    }
}

/// The last machine of the given name, when the list holds one.
pub open spec fn machine_lookup(s: Seq<Machine>, name: Seq<char>) -> Option<Machine>
    decreases s.len(),
{
    if s.len() == 0 {
        Option::None
    } else if s.last().name@ == name {
        Option::Some(s.last())
    } else {
        machine_lookup(s.drop_last(), name)
    }
}

impl Mame {
    /// Indexes the machine list by name.
    pub fn load_xml_map(self) -> (r: MachineMap)
        ensures
            r@ == self.machines@,
    {
        MachineMap { entries: self.machines }
    }
}

impl MachineMap {
    /// The machine of the given name, when the list holds one; with
    /// duplicate names the last record wins.
    pub fn get(&self, name: &str) -> (r: Option<&Machine>)
        ensures
            match r {
                Option::Some(m) => machine_lookup(self@, name@) == Option::Some(*m),
                Option::None => machine_lookup(self@, name@) is None,
            },
    {
        let mut i: usize = self.entries.len();
        proof {
            assert(self@.take(self@.len() as int) =~= self@);
        }
        while i > 0
            invariant
                i <= self@.len(),
                machine_lookup(self@, name@) == machine_lookup(self@.take(i as int), name@),
            decreases i,
        {
            i = i - 1;
            proof {
                assert(self@.take(i + 1).drop_last() =~= self@.take(i as int));
                assert(self@.take(i + 1).last() == self@[i as int]);
            }
            if crate::text::str_eq(self.entries[i].name.as_str(), name) {
                return Option::Some(&self.entries[i]);
            }
        }
        Option::None
    }
}

} // verus!
