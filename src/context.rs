use vstd::prelude::*;
use crate::descriptor::FieldDescriptorProto;

verus! {

/// Which of the two schema dialects a file is written in.
#[derive(Clone, Copy, Debug, PartialEq, Eq, Structural)]
pub enum Syntax {
    Proto2,
    Proto3,
}

/// A synthetic map-entry message: the key and value fields of a map field.
#[derive(Clone, Debug, PartialEq, Eq)]
pub struct MapEntryType {
    /// Fully-qualified name of the entry message.
    pub name: String,
    pub key: FieldDescriptorProto,
    pub value: FieldDescriptorProto,
}

/// What every field compilation of one file reads: the file's syntax and the
/// registry of map-entry types. Built once, never changed by field compilation.
#[derive(Clone, Debug, PartialEq, Eq)]
pub struct Context {
    pub syntax: Syntax,
    pub map_types: Vec<MapEntryType>,
}

/// Position of the entry registered under `name`; a later registration of the
/// same name shadows an earlier one.
pub open spec fn entry_index(entries: Seq<MapEntryType>, name: Seq<char>) -> Option<int>
    decreases entries.len(),
{
    if entries.len() == 0 {
        None
    } else if entries.last().name@ == name {
        Some(entries.len() - 1)
    } else {
        entry_index(entries.drop_last(), name)
    }
}

pub proof fn lemma_entry_index_bounds(entries: Seq<MapEntryType>, name: Seq<char>)
    ensures
        entry_index(entries, name) matches Some(i) ==> 0 <= i < entries.len()
            && entries[i].name@ == name,
    decreases entries.len(),
{
    if entries.len() > 0 && entries.last().name@ != name {
        lemma_entry_index_bounds(entries.drop_last(), name);
    }
}

impl Context {
    pub fn new(syntax: Syntax) -> (r: Context)
        ensures
            r.syntax == syntax,
            r.map_types@ == Seq::<MapEntryType>::empty(),
    {
        Context { syntax, map_types: Vec::new() }
    }

    /// Registers a map-entry type; it shadows any earlier one of the same name.
    pub fn add_map_type(&mut self, entry: MapEntryType)
        ensures
            final(self).syntax == old(self).syntax,
            final(self).map_types@ == old(self).map_types@.push(entry),
    {
        self.map_types.push(entry);
    }

    /// The map-entry type registered under `name`, if any.
    pub open spec fn spec_map_type(&self, name: Seq<char>) -> Option<MapEntryType> {
        match entry_index(self.map_types@, name) {
            Some(i) => Some(self.map_types@[i]),
            None => None,
        }
    }

    /// Index into `map_types` of the entry registered under `name`.
    pub fn map_type_index(&self, name: &String) -> (r: Option<usize>)
        ensures
            match r {
                Some(i) => entry_index(self.map_types@, name@) == Some(i as int),
                None => entry_index(self.map_types@, name@) is None,
            },
    {
        let mut i: usize = self.map_types.len();
        assert(self.map_types@.take(i as int) == self.map_types@);
        while i > 0
            invariant
                i <= self.map_types@.len(),
                entry_index(self.map_types@, name@) == entry_index(
                    self.map_types@.take(i as int),
                    name@,
                ),
            decreases i,
        {
            let ghost prefix = self.map_types@.take(i as int);
            assert(prefix.drop_last() == self.map_types@.take(i - 1));
            if self.map_types[i - 1].name == *name {
                return Some(i - 1);
            }
            i = i - 1;
        }
        None
    }
}

} // verus!
