//! The root of all accessible catalogs.

pub mod catalog;
pub mod entry;

use crate::database::catalog::MemoryCatalog;
use crate::error::{fails_with, RayexecError};
use crate::scalar::ScalarValue;
use crate::text::str_eq;
use vstd::prelude::*;

verus! {

/// An option of an attach request.
#[derive(Debug, PartialEq, Eq)]
pub struct AttachOption {
    pub key: String,
    pub value: ScalarValue,
}

/// How to attach a catalog: the data source and its options, which are
/// keyed: no two options have the same key.
#[derive(Debug, PartialEq, Eq)]
pub struct AttachInfo {
    datasource: String,
    options: Vec<AttachOption>,
}

pub ghost struct AttachOptionView {
    pub key: Seq<char>,
    pub value: ScalarValue,
}

/// What an attach request holds, as plain values.
pub ghost struct AttachInfoView {
    pub datasource: Seq<char>,
    pub options: Seq<AttachOptionView>,
}

impl View for AttachOption {
    type V = AttachOptionView;

    open spec fn view(&self) -> AttachOptionView {
        AttachOptionView { key: self.key@, value: self.value }
    }
}

/// The views of a list of options.
pub open spec fn option_views(options: Seq<AttachOption>) -> Seq<AttachOptionView> {
    Seq::new(options.len(), |i: int| options[i]@)
}

/// Whether every key occurs once among the first `upto` options.
pub open spec fn keys_occur_once(options: Seq<AttachOptionView>, upto: int) -> bool {
    forall|i: int, j: int|
        0 <= i < j < upto ==> (#[trigger] options[i]).key != (#[trigger] options[j]).key
}

/// The message of the error for options that share a key.
pub open spec fn duplicate_option_text() -> Seq<char> {
    "Duplicate option key"@
}

/// Whether every key occurs once in a list of options.
pub fn keys_are_distinct(options: &Vec<AttachOption>) -> (r: bool)
    ensures
        r == keys_occur_once(option_views(options@), options@.len() as int),
{
    let ghost views = option_views(options@);
    let mut j: usize = 0;
    while j < options.len()
        invariant
            j <= options.len(),
            views == option_views(options@),
            keys_occur_once(views, j as int),
        decreases options.len() - j,
    {
        let mut i: usize = 0;
        while i < j
            invariant
                i <= j,
                j < options.len(),
                views == option_views(options@),
                forall|k: int| 0 <= k < i ==> (#[trigger] views[k]).key != views[j as int].key,
            decreases j - i,
        {
            if str_eq(options[i].key.as_str(), options[j].key.as_str()) {
                assert(views[i as int].key == views[j as int].key);
                return false;
            }
            i += 1;
        }
        j += 1;
    }
    true
}

impl View for AttachInfo {
    type V = AttachInfoView;

    closed spec fn view(&self) -> AttachInfoView {
        AttachInfoView { datasource: self.datasource@, options: option_views(self.options@) }
    }
}

impl AttachInfo {
    #[verifier::type_invariant]
    spec fn well_formed(self) -> bool {
        keys_occur_once(option_views(self.options@), self.options@.len() as int)
    }

    /// An attach request for a data source with the given options. Fails
    /// when two options have the same key.
    pub fn try_new(datasource: String, options: Vec<AttachOption>) -> (r: Result<
        Self,
        RayexecError,
    >)
        ensures
            keys_occur_once(option_views(options@), options@.len() as int) ==> (r matches Ok(a)
                && a@ == (AttachInfoView {
                datasource: datasource@,
                options: option_views(options@),
            })),
            !keys_occur_once(option_views(options@), options@.len() as int) ==> fails_with(
                r,
                duplicate_option_text(),
            ),
    {
        if !keys_are_distinct(&options) {
            return Err(RayexecError::new("Duplicate option key"));
        }
        Ok(AttachInfo { datasource, options })
    }

    pub fn datasource(&self) -> (r: &String)
        ensures
            r@ == self@.datasource,
    {
        &self.datasource
    }

    /// The options, in the order they were given in. No two have the same
    /// key.
    pub fn options(&self) -> (r: &Vec<AttachOption>)
        ensures
            option_views(r@) == self@.options,
            keys_occur_once(self@.options, self@.options.len() as int),
    {
        proof {
            use_type_invariant(self);
        }
        &self.options
    }
}

/// A catalog under the name it was attached with.
#[derive(Debug)]
pub struct AttachedCatalog {
    pub name: String,
    pub catalog: MemoryCatalog,
}

/// Root of all accessible catalogs: a mapping from name to catalog. No two
/// attachments have the same name.
#[derive(Debug)]
pub struct DatabaseContext {
    catalogs: Vec<AttachedCatalog>,
}

/// Whether every name occurs once in a list of attachments.
pub open spec fn names_occur_once(catalogs: Seq<AttachedCatalog>) -> bool {
    forall|i: int, j: int|
        0 <= i < j < catalogs.len() ==> (#[trigger] catalogs[i]).name@ != (#[trigger] catalogs[j]).name@
}

/// The catalog attached under a name among the first `upto` attachments:
/// the first one with that name.
pub open spec fn find_catalog(catalogs: Seq<AttachedCatalog>, name: Seq<char>, upto: nat) -> Option<
    MemoryCatalog,
>
    decreases upto,
{
    if upto == 0 || upto > catalogs.len() {
        None
    } else {
        match find_catalog(catalogs, name, (upto - 1) as nat) {
            Some(c) => Some(c),
            None => if catalogs[upto - 1].name@ == name {
                Some(catalogs[upto - 1].catalog)
            } else {
                None
            },
        }
    }
}

proof fn lemma_find_catalog_stable(
    catalogs: Seq<AttachedCatalog>,
    name: Seq<char>,
    upto: nat,
    more: nat,
)
    requires
        upto <= more <= catalogs.len(),
        find_catalog(catalogs, name, upto) is Some,
    ensures
        find_catalog(catalogs, name, more) == find_catalog(catalogs, name, upto),
    decreases more,
{
    if more > upto {
        lemma_find_catalog_stable(catalogs, name, upto, (more - 1) as nat);
    }
}

proof fn lemma_find_catalog_prefix(
    a: Seq<AttachedCatalog>,
    b: Seq<AttachedCatalog>,
    name: Seq<char>,
    upto: nat,
)
    requires
        upto <= a.len(),
        upto <= b.len(),
        forall|k: int| 0 <= k < upto ==> a[k] == b[k],
    ensures
        find_catalog(a, name, upto) == find_catalog(b, name, upto),
    decreases upto,
{
    if upto > 0 {
        lemma_find_catalog_prefix(a, b, name, (upto - 1) as nat);
    }
}

proof fn lemma_find_catalog_remove(
    catalogs: Seq<AttachedCatalog>,
    i: int,
    name: Seq<char>,
    upto: nat,
)
    requires
        0 <= i < catalogs.len(),
        upto <= catalogs.len() - 1,
        catalogs[i].name@ != name,
    ensures
        find_catalog(catalogs.remove(i), name, upto) == find_catalog(
            catalogs,
            name,
            if upto <= i {
                upto
            } else {
                upto + 1
            },
        ),
    decreases upto,
{
    if upto > 0 {
        lemma_find_catalog_remove(catalogs, i, name, (upto - 1) as nat);
        if upto - 1 == i {
            assert(find_catalog(catalogs, name, (i + 1) as nat) == find_catalog(
                catalogs,
                name,
                i as nat,
            ));
        }
    }
}

/// Whether a catalog holds one schema of the given name and nothing in it.
pub open spec fn is_empty_catalog(c: MemoryCatalog, read_only: bool, schema: Seq<char>) -> bool {
    &&& c.read_only == read_only
    &&& c.schemas@.len() == 1
    &&& c.schemas@[0].name@ == schema
    &&& c.schemas@[0].entries@.len() == 0
}

/// The message of the error for attaching under a name in use.
pub open spec fn already_attached_text(name: Seq<char>) -> Seq<char> {
    "Catalog with name '"@ + name + "' already attached"@
}

/// The message of the error for detaching a name not in use.
pub open spec fn not_attached_text(name: Seq<char>) -> Seq<char> {
    "Catalog with name '"@ + name + "' doesn't exist"@
}

/// The message of the error for looking up a name not in use.
pub open spec fn missing_catalog_text(name: Seq<char>) -> Seq<char> {
    "Missing catalog '"@ + name + "'"@
}

proof fn lemma_find_catalog_absent(catalogs: Seq<AttachedCatalog>, name: Seq<char>, upto: nat)
    requires
        upto <= catalogs.len(),
        forall|k: int| 0 <= k < upto ==> (#[trigger] catalogs[k]).name@ != name,
    ensures
        find_catalog(catalogs, name, upto) is None,
    decreases upto,
{
    if upto > 0 {
        lemma_find_catalog_absent(catalogs, name, (upto - 1) as nat);
    }
}

impl DatabaseContext {
    #[verifier::type_invariant]
    spec fn well_formed(self) -> bool {
        names_occur_once(self.catalogs@)
    }

    /// The catalog attached under a name, if any.
    pub closed spec fn catalog(&self, name: Seq<char>) -> Option<MemoryCatalog> {
        find_catalog(self.catalogs@, name, self.catalogs@.len())
    }

    /// A context holding the given system catalog under the name `system`
    /// and nothing else.
    pub fn new(system_catalog: MemoryCatalog) -> (ctx: Self)
        ensures
            forall|name: Seq<char>| #[trigger]
                ctx.catalog(name) == if name == "system"@ {
                    Some(system_catalog)
                } else {
                    None
                },
    {
        let mut catalogs: Vec<AttachedCatalog> = Vec::new();
        catalogs.push(AttachedCatalog { name: "system".to_owned(), catalog: system_catalog });
        proof {
            reveal_with_fuel(find_catalog, 2);
        }
        DatabaseContext { catalogs }
    }

    /// Creates a new database context containing a built-in `system`
    /// catalog, and a `temp` catalog for temporary database items.
    ///
    /// By itself, this context cannot be used to persist data. Additional
    /// catalogs need to be attached via `attach_catalog`.
    pub fn new_with_temp() -> (ctx: Self)
        ensures
            forall|name: Seq<char>|
                name != "system"@ && name != "temp"@ ==> #[trigger] ctx.catalog(name) is None,
            ctx.catalog("system"@) matches Some(c) && is_empty_catalog(c, true, "glare_catalog"@),
            ctx.catalog("temp"@) matches Some(c) && is_empty_catalog(c, false, "temp"@),
    {
        let mut catalogs: Vec<AttachedCatalog> = Vec::new();
        catalogs.push(
            AttachedCatalog { name: "system".to_owned(), catalog: MemoryCatalog::new_system() },
        );
        catalogs.push(
            AttachedCatalog {
                name: "temp".to_owned(),
                catalog: MemoryCatalog::new_with_schema("temp"),
            },
        );
        proof {
            reveal_with_fuel(find_catalog, 3);
            reveal_strlit("system");
            reveal_strlit("temp");
            assert("system"@ != "temp"@) by {
                assert("system"@.len() == 6);
                assert("temp"@.len() == 4);
            }
        }
        DatabaseContext { catalogs }
    }

    fn position(&self, name: &str) -> (r: Option<usize>)
        ensures
            match r {
                Some(i) => i < self.catalogs@.len() && self.catalogs@[i as int].name@ == name@
                    && self.catalog(name@) == Some(self.catalogs@[i as int].catalog) && forall|
                    k: int,
                |
                    0 <= k < i ==> (#[trigger] self.catalogs@[k]).name@ != name@,
                None => self.catalog(name@) is None && forall|k: int|
                    0 <= k < self.catalogs@.len() ==> (#[trigger] self.catalogs@[k]).name@ != name@,
            },
    {
        let mut i: usize = 0;
        while i < self.catalogs.len()
            invariant
                i <= self.catalogs.len(),
                find_catalog(self.catalogs@, name@, i as nat) is None,
                forall|k: int| 0 <= k < i ==> (#[trigger] self.catalogs@[k]).name@ != name@,
            decreases self.catalogs.len() - i,
        {
            if str_eq(self.catalogs[i].name.as_str(), name) {
                proof {
                    lemma_find_catalog_stable(
                        self.catalogs@,
                        name@,
                        (i + 1) as nat,
                        self.catalogs@.len(),
                    );
                }
                return Some(i);
            }
            i += 1;
        }
        None
    }

    /// The catalog attached as `system`.
    pub fn system_catalog(&self) -> (r: Result<&MemoryCatalog, RayexecError>)
        ensures
            match self.catalog("system"@) {
                Some(c) => r matches Ok(found) && *found == c,
                None => fails_with(r, "Missing system catalog"@),
            },
    {
        match self.position("system") {
            Some(i) => Ok(&self.catalogs[i].catalog),
            None => Err(RayexecError::new("Missing system catalog")),
        }
    }

    /// Whether a catalog is attached under the name.
    pub fn catalog_exists(&self, name: &str) -> (r: bool)
        ensures
            r == self.catalog(name@) is Some,
    {
        self.position(name).is_some()
    }

    /// The catalog attached under a name.
    pub fn get_catalog(&self, name: &str) -> (r: Result<&MemoryCatalog, RayexecError>)
        ensures
            match self.catalog(name@) {
                Some(c) => r matches Ok(found) && *found == c,
                None => fails_with(r, missing_catalog_text(name@)),
            },
    {
        match self.position(name) {
            Some(i) => Ok(&self.catalogs[i].catalog),
            None => {
                let mut msg = String::from_str("Missing catalog '");
                msg.append(name);
                msg.append("'");
                Err(RayexecError::new(msg.as_str()))
            },
        }
    }

    /// Attaches a catalog under a name. Fails, changing nothing, when the
    /// name is in use.
    pub fn attach_catalog(&mut self, name: String, catalog: MemoryCatalog) -> (r: Result<
        (),
        RayexecError,
    >)
        ensures
            old(self).catalog(name@) is Some ==> fails_with(r, already_attached_text(name@))
                && forall|other: Seq<char>| #[trigger]
                final(self).catalog(other) == old(self).catalog(other),
            old(self).catalog(name@) is None ==> r is Ok && forall|other: Seq<char>| #[trigger]
                final(self).catalog(other) == if other == name@ {
                    Some(catalog)
                } else {
                    old(self).catalog(other)
                },
    {
        if self.position(name.as_str()).is_some() {
            let mut msg = String::from_str("Catalog with name '");
            msg.append(name.as_str());
            msg.append("' already attached");
            return Err(RayexecError::new(msg.as_str()));
        }
        proof {
            use_type_invariant(&*self);
        }
        let ghost before = self.catalogs@;
        let mut taken = DatabaseContext { catalogs: Vec::new() };
        std::mem::swap(self, &mut taken);
        let DatabaseContext { catalogs } = taken;
        let mut catalogs = catalogs;
        catalogs.push(AttachedCatalog { name, catalog });
        *self = DatabaseContext { catalogs };
        proof {
            assert forall|other: Seq<char>| #[trigger]
                self.catalog(other) == if other == name@ {
                    Some(catalog)
                } else {
                    old(self).catalog(other)
                } by {
                lemma_find_catalog_prefix(self.catalogs@, before, other, before.len());
            }
        }
        Ok(())
    }

    /// Detaches the catalog attached under a name, which is attached once.
    /// Fails, changing nothing, when the name is not in use.
    pub fn detach_catalog(&mut self, name: &str) -> (r: Result<(), RayexecError>)
        ensures
            old(self).catalog(name@) is None ==> fails_with(r, not_attached_text(name@))
                && forall|other: Seq<char>| #[trigger]
                final(self).catalog(other) == old(self).catalog(other),
            old(self).catalog(name@) is Some ==> r is Ok && forall|other: Seq<char>| #[trigger]
                final(self).catalog(other) == if other == name@ {
                    None
                } else {
                    old(self).catalog(other)
                },
    {
        if self.position(name).is_none() {
            let mut msg = String::from_str("Catalog with name '");
            msg.append(name);
            msg.append("' doesn't exist");
            return Err(RayexecError::new(msg.as_str()));
        }
        let i = self.position(name).unwrap();
        proof {
            use_type_invariant(&*self);
        }
        let ghost before = self.catalogs@;
        let mut taken = DatabaseContext { catalogs: Vec::new() };
        std::mem::swap(self, &mut taken);
        let DatabaseContext { catalogs } = taken;
        let mut catalogs = catalogs;
        catalogs.remove(i);
        *self = DatabaseContext { catalogs };
        proof {
            assert(self.catalogs@ == before.remove(i as int));
            assert forall|k: int| 0 <= k < self.catalogs@.len() implies (#[trigger] self.catalogs@[k]).name@
                != name@ by {
                if k < i {
                    assert(before[k].name@ != before[i as int].name@);
                } else {
                    assert(before[i as int].name@ != before[k + 1].name@);
                }
            }
            lemma_find_catalog_absent(self.catalogs@, name@, self.catalogs@.len());
            assert forall|other: Seq<char>| other != name@ implies #[trigger] self.catalog(other) == old(
                self,
            ).catalog(other) by {
                lemma_find_catalog_remove(before, i as int, other, (before.len() - 1) as nat);
                if i == before.len() - 1 {
                    assert(find_catalog(before, other, before.len()) == find_catalog(
                        before,
                        other,
                        (before.len() - 1) as nat,
                    ));
                }
            }
        }
        Ok(())
    }
}

impl Default for DatabaseContext {
    fn default() -> (ctx: Self)
        ensures
            forall|name: Seq<char>|
                name != "system"@ && name != "temp"@ ==> #[trigger] ctx.catalog(name) is None,
            ctx.catalog("system"@) matches Some(c) && is_empty_catalog(c, true, "glare_catalog"@),
            ctx.catalog("temp"@) matches Some(c) && is_empty_catalog(c, false, "temp"@),
    {
        Self::new_with_temp()
    }
}

} // verus!
