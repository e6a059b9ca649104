//! A table of named entries with one name marked active.
//!
//! Names are kept in the order in which they were first registered. The first name to be
//! registered becomes active by itself; after that only an explicit selection moves the mark.
use vstd::prelude::*;

verus! {

/// What a catalog is, mathematically: the registered names in the order of their first
/// registration, the entry held under each, and the active name if there is one.
pub struct CatalogView<T> {
    pub names: Seq<Seq<char>>,
    pub items: Seq<T>,
    pub active: Option<Seq<char>>,
}

impl<T> CatalogView<T> {
    /// Every name has its entry, no name occurs twice, and a name is active exactly when
    /// something has been registered; the active name is a registered one.
    pub open spec fn wf(self) -> bool {
        &&& self.names.len() == self.items.len()
        &&& self.names.no_duplicates()
        &&& self.active is None <==> self.names.len() == 0
        &&& self.active is Some ==> self.names.contains(self.active.unwrap())
    }

    pub open spec fn empty() -> CatalogView<T> {
        CatalogView { names: Seq::empty(), items: Seq::empty(), active: None }
    }

    pub open spec fn contains(self, name: Seq<char>) -> bool {
        self.names.contains(name)
    }

    /// The entry registered under `name`.
    pub open spec fn lookup(self, name: Seq<char>) -> Option<T> {
        if self.names.contains(name) {
            Some(self.items[self.names.index_of(name)])
        } else {
            None
        }
    }

    /// The entry registered under the active name.
    pub open spec fn active_item(self) -> Option<T> {
        match self.active {
            Some(name) => self.lookup(name),
            None => None,
        }
    }

    /// Registering under a known name replaces the entry held under it; under a new name it adds
    /// the entry at the end. The name becomes active only if none was.
    pub open spec fn register(self, name: Seq<char>, item: T) -> CatalogView<T> {
        CatalogView {
            names: if self.names.contains(name) {
                self.names
            } else {
                self.names.push(name)
            },
            items: if self.names.contains(name) {
                self.items.update(self.names.index_of(name), item)
            } else {
                self.items.push(item)
            },
            active: match self.active {
                Some(current) => Some(current),
                None => Some(name),
            },
        }
    }

    /// A registered name becomes active; an unknown name changes nothing.
    pub open spec fn select(self, name: Seq<char>) -> CatalogView<T> {
        if self.names.contains(name) {
            CatalogView { active: Some(name), ..self }
        } else {
            self
        }
    }
}

/// Registration and selection keep a catalog well formed.
pub proof fn lemma_catalog_stays_well_formed<T>(catalog: CatalogView<T>, name: Seq<char>, item: T)
    requires
        catalog.wf(),
    ensures
        CatalogView::<T>::empty().wf(),
        catalog.register(name, item).wf(),
        catalog.select(name).wf(),
{
    let after = catalog.register(name, item);
    if catalog.names.contains(name) {
        assert(after.names.contains(name));
    } else {
        assert(after.names[catalog.names.len() as int] == name);
        assert forall|i: int, j: int|
            0 <= i < after.names.len() && 0 <= j < after.names.len() && i != j implies after.names[i]
            != after.names[j] by {
            if i < catalog.names.len() {
                assert(catalog.names.contains(after.names[i]));
            }
            if j < catalog.names.len() {
                assert(catalog.names.contains(after.names[j]));
            }
        }
        if catalog.active is Some {
            let current = catalog.active.unwrap();
            let k = catalog.names.index_of(current);
            assert(after.names[k] == current);
        }
    }
}

/// What was registered last under a name is what a lookup of that name finds, and lookups of
/// other names are not affected.
pub proof fn lemma_register_then_lookup<T>(
    catalog: CatalogView<T>,
    name: Seq<char>,
    item: T,
    other: Seq<char>,
)
    requires
        catalog.wf(),
    ensures
        catalog.register(name, item).lookup(name) == Some(item),
        other != name ==> catalog.register(name, item).lookup(other) == catalog.lookup(other),
        catalog.register(name, item).contains(other) <==> other == name || catalog.contains(other),
{
    lemma_catalog_stays_well_formed(catalog, name, item);
    let after = catalog.register(name, item);
    if catalog.names.contains(name) {
        assert(after.names.contains(name));
    } else {
        assert(after.names[catalog.names.len() as int] == name);
        assert(after.names.index_of(name) == catalog.names.len());
    }
    if other != name {
        if catalog.names.contains(other) {
            let k = catalog.names.index_of(other);
            assert(after.names[k] == other);
            assert(after.names.index_of(other) == k);
        } else if after.names.contains(other) {
            let k = after.names.index_of(other);
            if k < catalog.names.len() {
                assert(catalog.names[k] == other);
            }
        }
    }
}

/// The first registration decides the active name; later registrations never move it. Only
/// the selection of a registered name does.
pub proof fn lemma_active_name_policy<T>(catalog: CatalogView<T>, name: Seq<char>, item: T)
    requires
        catalog.wf(),
    ensures
        catalog.active is None ==> catalog.register(name, item).active == Some(name),
        catalog.active is Some ==> catalog.register(name, item).active == catalog.active,
        catalog.contains(name) ==> catalog.select(name).active == Some(name),
        !catalog.contains(name) ==> catalog.select(name) == catalog,
        catalog.names.len() == 0 ==> catalog.active_item() is None,
        catalog.names.len() > 0 ==> catalog.active_item() is Some,
{
}

/// A table of entries of type `T`, each registered under a name, with one name marked active.
pub struct Catalog<T> {
    names: Vec<String>,
    items: Vec<T>,
    active: Option<String>,
}

/// The texts of a run of strings, in the same order.
pub open spec fn texts(strings: Seq<String>) -> Seq<Seq<char>> {
    Seq::new(strings.len(), |i: int| strings[i]@)
}

impl<T> View for Catalog<T> {
    type V = CatalogView<T>;

    closed spec fn view(&self) -> CatalogView<T> {
        CatalogView {
            names: texts(self.names@),
            items: self.items@,
            active: match self.active {
                Some(name) => Some(name@),
                None => None,
            },
        }
    }
}

impl<T> Catalog<T> {
    /// Every catalog that this module hands out is well formed, and its methods keep it so.
    pub open spec fn wf(&self) -> bool {
        self@.wf()
    }

    pub fn new() -> (catalog: Self)
        ensures
            catalog.wf(),
            catalog@ == CatalogView::<T>::empty(),
    {
        let catalog = Catalog { names: Vec::new(), items: Vec::new(), active: None };
        assert(catalog@.names =~= Seq::<Seq<char>>::empty());
        catalog
    }

    /// Where `name` stands among the registered names.
    pub fn position(&self, name: &str) -> (found: Option<usize>)
        requires
            self.wf(),
        ensures
            found is Some <==> self@.contains(name@),
            found is Some ==> found.unwrap() == self@.names.index_of(name@),
            found is Some ==> found.unwrap() < self@.names.len(),
    {
        let wanted = name.to_owned();
        let mut index: usize = 0;
        while index < self.names.len()
            invariant
                self.wf(),
                wanted@ == name@,
                index <= self.names.len(),
                forall|i: int| 0 <= i < index ==> (#[trigger] self@.names[i]) != name@,
            decreases self.names.len() - index,
        {
            if self.names[index] == wanted {
                proof {
                    let first = self@.names.index_of(name@);
                    assert(self@.names[index as int] == name@);
                    assert(self@.names[first] == name@);
                }
                return Some(index);
            }
            index += 1;
        }
        None
    }

    /// Registers `item` under `name`.
    pub fn register(&mut self, name: String, item: T)
        requires
            old(self).wf(),
        ensures
            final(self).wf(),
            final(self)@ == old(self)@.register(name@, item),
            final(self)@.lookup(name@) == Some(item),
            old(self)@.active is Some ==> final(self)@.active == old(self)@.active,
            old(self)@.active is None ==> final(self)@.active == Some(name@),
    {
        proof {
            lemma_catalog_stays_well_formed(self@, name@, item);
            lemma_register_then_lookup(self@, name@, item, name@);
        }
        match self.position(name.as_str()) {
            Some(index) => {
                self.items[index] = item;
                if self.active.is_none() {
                    self.active = Some(name);
                }
            },
            None => {
                if self.active.is_none() {
                    self.active = Some(name.clone());
                }
                self.names.push(name);
                self.items.push(item);
                assert(self@.names =~= old(self)@.names.push(name@));
            },
        }
    }

    /// Marks `name` active if it is registered, and says whether it is.
    pub fn select(&mut self, name: &str) -> (known: bool)
        requires
            old(self).wf(),
        ensures
            final(self).wf(),
            known == old(self)@.contains(name@),
            final(self)@ == old(self)@.select(name@),
            !known ==> final(self)@ == old(self)@,
    {
        if self.position(name).is_some() {
            self.active = Some(name.to_owned());
            true
        } else {
            false
        }
    }

    pub fn active_name(&self) -> (name: Option<&str>)
        ensures
            match name {
                Some(name) => self@.active == Some(name@),
                None => self@.active is None,
            },
    {
        match &self.active {
            Some(name) => Some(name.as_str()),
            None => None,
        }
    }

    /// The entry registered under the active name.
    pub fn active_item(&self) -> (item: Option<&T>)
        requires
            self.wf(),
        ensures
            match item {
                Some(item) => self@.active_item() == Some(*item),
                None => self@.active_item() is None,
            },
    {
        match &self.active {
            Some(name) => match self.position(name.as_str()) {
                Some(index) => Some(&self.items[index]),
                None => None,
            },
            None => None,
        }
    }

    /// The registered names, in the order of their first registration.
    pub fn names(&self) -> (names: Vec<&str>)
        ensures
            names@.len() == self@.names.len(),
            forall|i: int| 0 <= i < names@.len() ==> (#[trigger] names@[i])@ == self@.names[i],
    {
        let mut names: Vec<&str> = Vec::new();
        let mut index: usize = 0;
        while index < self.names.len()
            invariant
                index <= self.names.len(),
                names@.len() == index,
                forall|i: int| 0 <= i < index ==> (#[trigger] names@[i])@ == self@.names[i],
            decreases self.names.len() - index,
        {
            names.push(self.names[index].as_str());
            index += 1;
        }
        names
    }

    /// Copies of the registered names, in the order of their first registration.
    pub fn owned_names(&self) -> (names: Vec<String>)
        ensures
            texts(names@) == self@.names,
    {
        let mut names: Vec<String> = Vec::new();
        let mut index: usize = 0;
        while index < self.names.len()
            invariant
                index <= self.names.len(),
                names@.len() == index,
                forall|i: int| 0 <= i < index ==> (#[trigger] names@[i])@ == self@.names[i],
            decreases self.names.len() - index,
        {
            names.push(self.names[index].clone());
            index += 1;
        }
        assert(texts(names@) =~= self@.names);
        names
    }
}

} // verus!
