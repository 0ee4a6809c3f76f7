//! An in-memory catalog: named schemas holding named entries.

use crate::database::entry::{CatalogEntry, CatalogEntryView};
use crate::text::str_eq;
use vstd::prelude::*;

verus! {

#[derive(Debug, PartialEq, Eq)]
pub struct MemorySchema {
    pub name: String,
    pub entries: Vec<CatalogEntry>,
}

/// A catalog held in memory. A read-only catalog accepts no new entries.
#[derive(Debug, PartialEq, Eq)]
pub struct MemoryCatalog {
    pub read_only: bool,
    pub schemas: Vec<MemorySchema>,
}

/// The first entry with the given name among the first `upto` entries.
pub open spec fn find_entry(entries: Seq<CatalogEntry>, name: Seq<char>, upto: nat) -> Option<
    CatalogEntryView,
>
    decreases upto,
{
    if upto == 0 || upto > entries.len() {
        None
    } else {
        match find_entry(entries, name, (upto - 1) as nat) {
            Some(e) => Some(e),
            None => if entries[upto - 1].name@ == name {
                Some(entries[upto - 1]@)
            } else {
                None
            },
        }
    }
}

/// The entry with the given name in the first schema with the given name
/// among the first `upto` schemas.
pub open spec fn find_in_schemas(
    schemas: Seq<MemorySchema>,
    schema: Seq<char>,
    name: Seq<char>,
    upto: nat,
) -> Option<CatalogEntryView>
    decreases upto,
{
    if upto == 0 || upto > schemas.len() {
        None
    } else if exists|k: int| 0 <= k < upto - 1 && (#[trigger] schemas[k]).name@ == schema {
        find_in_schemas(schemas, schema, name, (upto - 1) as nat)
    } else if schemas[upto - 1].name@ == schema {
        find_entry(schemas[upto - 1].entries@, name, schemas[upto - 1].entries@.len())
    } else {
        None
    }
}

impl MemorySchema {
    /// The first entry with the given name.
    pub fn get_entry(&self, name: &str) -> (r: Option<&CatalogEntry>)
        ensures
            match find_entry(self.entries@, name@, self.entries@.len()) {
                Some(e) => r matches Some(found) && found@ == e,
                None => r is None,
            },
    {
        let mut i: usize = 0;
        while i < self.entries.len()
            invariant
                i <= self.entries.len(),
                find_entry(self.entries@, name@, i as nat) is None,
            decreases self.entries.len() - i,
        {
            if str_eq(self.entries[i].name.as_str(), name) {
                proof {
                    lemma_find_entry_stable(self.entries@, name@, (i + 1) as nat, self.entries@.len());
                }
                return Some(&self.entries[i]);
            }
            i += 1;
        }
        None
    }
}

/// Once an entry is found among the first entries, it stays the one found
/// among more.
pub proof fn lemma_find_entry_stable(
    entries: Seq<CatalogEntry>,
    name: Seq<char>,
    upto: nat,
    more: nat,
)
    requires
        upto <= more <= entries.len(),
        find_entry(entries, name, upto) is Some,
    ensures
        find_entry(entries, name, more) == find_entry(entries, name, upto),
    decreases more,
{
    if more > upto {
        lemma_find_entry_stable(entries, name, upto, (more - 1) as nat);
    }
}

impl MemoryCatalog {
    /// The entry a schema name and an entry name lead to, if any.
    pub open spec fn spec_get_entry(&self, schema: Seq<char>, name: Seq<char>) -> Option<
        CatalogEntryView,
    > {
        find_in_schemas(self.schemas@, schema, name, self.schemas@.len())
    }

    /// A writable catalog with one empty schema.
    pub fn new_with_schema(schema: &str) -> (c: Self)
        ensures
            !c.read_only,
            c.schemas@.len() == 1,
            c.schemas@[0].name@ == schema@,
            c.schemas@[0].entries@.len() == 0,
    {
        let mut schemas: Vec<MemorySchema> = Vec::new();
        schemas.push(MemorySchema { name: schema.to_owned(), entries: Vec::new() });
        MemoryCatalog { read_only: false, schemas }
    }

    /// The read-only catalog of built-in objects, with the one empty schema
    /// `glare_catalog`.
    pub fn new_system() -> (c: Self)
        ensures
            c.read_only,
            c.schemas@.len() == 1,
            c.schemas@[0].name@ == "glare_catalog"@,
            c.schemas@[0].entries@.len() == 0,
    {
        let mut schemas: Vec<MemorySchema> = Vec::new();
        schemas.push(MemorySchema { name: "glare_catalog".to_owned(), entries: Vec::new() });
        MemoryCatalog { read_only: true, schemas }
    }

    /// The entry with the given name in the schema with the given name.
    pub fn get_entry(&self, schema: &str, name: &str) -> (r: Option<&CatalogEntry>)
        ensures
            match self.spec_get_entry(schema@, name@) {
                Some(e) => r matches Some(found) && found@ == e,
                None => r is None,
            },
    {
        let mut i: usize = 0;
        while i < self.schemas.len()
            invariant
                i <= self.schemas.len(),
                forall|k: int| 0 <= k < i ==> (#[trigger] self.schemas@[k]).name@ != schema@,
                find_in_schemas(self.schemas@, schema@, name@, i as nat) is None,
            decreases self.schemas.len() - i,
        {
            if str_eq(self.schemas[i].name.as_str(), schema) {
                let found = self.schemas[i].get_entry(name);
                proof {
                    lemma_find_in_schemas_stable(
                        self.schemas@,
                        schema@,
                        name@,
                        i as int,
                        self.schemas@.len(),
                    );
                }
                return found;
            }
            i += 1;
        }
        None
    }
}

/// The first schema with the given name decides what is found, however many
/// schemas follow it.
pub proof fn lemma_find_in_schemas_stable(
    schemas: Seq<MemorySchema>,
    schema: Seq<char>,
    name: Seq<char>,
    first: int,
    more: nat,
)
    requires
        0 <= first < more <= schemas.len(),
        schemas[first].name@ == schema,
        forall|k: int| 0 <= k < first ==> (#[trigger] schemas[k]).name@ != schema,
    ensures
        find_in_schemas(schemas, schema, name, more) == find_entry(
            schemas[first].entries@,
            name,
            schemas[first].entries@.len(),
        ),
    decreases more,
{
    if more > first + 1 {
        assert(schemas[first].name@ == schema);
        lemma_find_in_schemas_stable(schemas, schema, name, first, (more - 1) as nat);
    }
}

} // verus!
