//! The controller registry: a table from controller names to the
//! constructors that build a fresh controller for a seat.
//!
//! A name is registered once; a later registration under the same name
//! fails and leaves the first constructor in place. Process-wide sharing
//! and locking of the registry belong to its owner.

use vstd::prelude::*;

verus! {

/// The table that a list of names and a list of constructors, registered
/// in that order, stand for.
pub open spec fn registry_map<C>(names: Seq<Seq<char>>, constructors: Seq<C>) -> Map<
    Seq<char>,
    C,
>
    decreases names.len(),
{
    if names.len() == 0 || constructors.len() == 0 {
        Map::empty()
    } else {
        registry_map(names.drop_last(), constructors.drop_last()).insert(
            names.last(),
            constructors.last(),
        )
    }
}

/// The table after registering `constructor` under `name`: unchanged when
/// the name is already taken.
pub open spec fn registered<C>(table: Map<Seq<char>, C>, name: Seq<char>, constructor: C) -> Map<
    Seq<char>,
    C,
> {
    if table.contains_key(name) {
        table
    } else {
        table.insert(name, constructor)
    }
}

/// For names without repeats, the table holds exactly the listed names, each
/// with the constructor at the same position, and as many entries as names.
proof fn lemma_registry_map<C>(names: Seq<Seq<char>>, constructors: Seq<C>)
    requires
        names.len() == constructors.len(),
        names.no_duplicates(),
    ensures
        registry_map(names, constructors).dom() == names.to_set(),
        forall|i: int|
            0 <= i < names.len() ==> registry_map(names, constructors)[#[trigger] names[i]]
                == constructors[i],
        registry_map(names, constructors).dom().len() == names.len(),
    decreases names.len(),
{
    if names.len() > 0 {
        let rest = names.drop_last();
        assert(rest.no_duplicates());
        lemma_registry_map(rest, constructors.drop_last());
        assert(registry_map(names, constructors).dom() =~= names.to_set()) by {
            assert(forall|k: Seq<char>| names.to_set().contains(k) <==> (rest.to_set().contains(k)
                || k == names.last())) by {
                assert forall|k: Seq<char>| names.to_set().contains(k) implies (rest.to_set().contains(
                    k,
                ) || k == names.last()) by {
                    let i = choose|i: int| 0 <= i < names.len() && names[i] == k;
                    if i < names.len() - 1 {
                        assert(rest[i] == k);
                    }
                }
                assert forall|k: Seq<char>| rest.to_set().contains(k) implies names.to_set().contains(
                    k,
                ) by {
                    let i = choose|i: int| 0 <= i < rest.len() && rest[i] == k;
                    assert(names[i] == k);
                }
                assert(names[names.len() - 1] == names.last());
            }
        }
        assert forall|i: int| 0 <= i < names.len() implies registry_map(names, constructors)[
            #[trigger] names[i]] == constructors[i] by {
            if i < names.len() - 1 {
                assert(rest[i] == names[i]);
                assert(names[i] != names.last());
            }
        }
    }
    names.unique_seq_to_set();
}

/// A table of controller constructors of type `C`, keyed by name.
pub struct ControllerManagerImpl<C> {
    names: Vec<String>,
    constructors: Vec<C>,
}

impl<C> ControllerManagerImpl<C> {
    spec fn name_views(&self) -> Seq<Seq<char>> {
        self.names@.map_values(|s: String| s@)
    }

    /// One constructor per name, and no name twice.
    pub closed spec fn well_formed(&self) -> bool {
        &&& self.names@.len() == self.constructors@.len()
        &&& self.name_views().no_duplicates()
    }

    /// The registered names, each with its constructor.
    pub closed spec fn table(&self) -> Map<Seq<char>, C> {
        registry_map(self.name_views(), self.constructors@)
    }

    /// An empty registry.
    pub fn new() -> (r: Self)
        ensures
            r.well_formed(),
            r.table() == Map::<Seq<char>, C>::empty(),
    {
        let r = Self { names: Vec::new(), constructors: Vec::new() };
        assert(r.name_views() =~= Seq::<Seq<char>>::empty());
        r
    }

    /// The position of `name` among the registered names, if it is there.
    fn position_of(&self, name: &str) -> (r: Option<usize>)
        requires
            self.well_formed(),
        ensures
            match r {
                Some(i) => i < self.names@.len() && self.names@[i as int]@ == name@,
                None => !self.name_views().contains(name@),
            },
    {
        let key = name.to_owned();
        let mut i: usize = 0;
        while i < self.names.len()
            invariant
                key@ == name@,
                i <= self.names@.len(),
                forall|j: int| 0 <= j < i ==> self.names@[j]@ != name@,
            decreases self.names@.len() - i,
        {
            if self.names[i] == key {
                return Some(i);
            }
            i = i + 1;
        }
        assert forall|j: int| 0 <= j < self.name_views().len() implies self.name_views()[j]
            != name@ by {
            assert(self.name_views()[j] == self.names@[j]@);
        }
        None
    }

    /// The names registered so far, each once, in no promised order.
    pub fn get_available_controllers(&self) -> (r: Vec<String>)
        requires
            self.well_formed(),
        ensures
            r@.len() == self.table().dom().len(),
            r@.map_values(|s: String| s@).to_set() == self.table().dom(),
            r@.map_values(|s: String| s@).no_duplicates(),
    {
        proof {
            lemma_registry_map(self.name_views(), self.constructors@);
        }
        let mut r: Vec<String> = Vec::new();
        let mut i: usize = 0;
        while i < self.names.len()
            invariant
                i <= self.names@.len(),
                r@.len() == i,
                r@.map_values(|s: String| s@) == self.name_views().subrange(0, i as int),
            decreases self.names@.len() - i,
        {
            let name = self.names[i].clone();
            let ghost before = r@;
            r.push(name);
            assert(r@ == before.push(name));
            assert(name@ == self.names@[i as int]@);
            assert(self.name_views()[i as int] == self.names@[i as int]@);
            assert forall|j: int| 0 <= j < i implies #[trigger] r@[j]@ == self.name_views()[j] by {
                assert(r@[j] == before[j]);
                assert(before.map_values(|s: String| s@)[j] == self.name_views().subrange(0, i as int)[j]);
            }
            i = i + 1;
            assert(r@.map_values(|s: String| s@) =~= self.name_views().subrange(0, i as int));
        }
        assert(self.name_views().subrange(0, i as int) =~= self.name_views());
        r
    }

    /// The constructor registered under `controller`, if any.
    pub fn new_controller(&self, controller: &str) -> (r: Option<&C>)
        requires
            self.well_formed(),
        ensures
            r is Some <==> self.table().contains_key(controller@),
            r matches Some(c) ==> *c == self.table()[controller@],
    {
        proof {
            lemma_registry_map(self.name_views(), self.constructors@);
        }
        match self.position_of(controller) {
            Some(i) => {
                assert(self.name_views()[i as int] == controller@);
                Some(&self.constructors[i])
            },
            None => None,
        }
    }

    /// Registers `constructor` under `name`. Fails, changing nothing, when
    /// the name is already registered: the first registration wins.
    pub fn register_controller(&mut self, constructor: C, name: &str) -> (r: bool)
        requires
            old(self).well_formed(),
        ensures
            final(self).well_formed(),
            r == !old(self).table().contains_key(name@),
            final(self).table() == registered(old(self).table(), name@, constructor),
    {
        proof {
            lemma_registry_map(self.name_views(), self.constructors@);
        }
        match self.position_of(name) {
            Some(i) => {
                assert(self.name_views()[i as int] == name@);
                return false;
            },
            None => {},
        }
        let ghost old_names = self.name_views();
        let ghost old_constructors = self.constructors@;
        self.names.push(name.to_owned());
        self.constructors.push(constructor);
        proof {
            assert(self.name_views() =~= old_names.push(name@));
            assert(self.name_views().drop_last() =~= old_names);
            assert(self.constructors@.drop_last() =~= old_constructors);
            assert forall|a: int, b: int|
                0 <= a < b < self.name_views().len() implies self.name_views()[a]
                != self.name_views()[b] by {
                if b == old_names.len() {
                    assert(old_names[a] == self.name_views()[a]);
                }
            }
        }
        true
    }
}

/// Registering a name a second time fails and changes nothing: the table
/// keeps its size, and when the name was new before the first registration
/// it still resolves to the first constructor.
pub proof fn lemma_first_registration_wins<C>(
    table: Map<Seq<char>, C>,
    name: Seq<char>,
    first: C,
    second: C,
)
    ensures
        registered(table, name, first).contains_key(name),
        registered(registered(table, name, first), name, second) == registered(table, name, first),
        registered(registered(table, name, first), name, second).dom().len() == registered(
            table,
            name,
            first,
        ).dom().len(),
        !table.contains_key(name) ==> registered(registered(table, name, first), name, second)[name]
            == first,
{
}

} // verus!
