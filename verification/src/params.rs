//! The query parameters of a request: named text values, one per name, kept in
//! the order in which the names were first set.

use vstd::prelude::*;
use vstd::string::StringExecFns;

verus! {

/// Some pair of the sequence carries the name `name`.
pub open spec fn has_name(pairs: Seq<(Seq<char>, Seq<char>)>, name: Seq<char>) -> bool {
    exists|i: int| #![trigger pairs[i]] 0 <= i < pairs.len() && pairs[i].0 == name
}

/// A position at which `name` stands, if it stands anywhere.
pub open spec fn position_of(pairs: Seq<(Seq<char>, Seq<char>)>, name: Seq<char>) -> int {
    choose|i: int| #![trigger pairs[i]] 0 <= i < pairs.len() && pairs[i].0 == name
}

/// No name stands at two positions.
pub open spec fn distinct_names(pairs: Seq<(Seq<char>, Seq<char>)>) -> bool {
    forall|i: int, j: int|
        #![trigger pairs[i], pairs[j]]
        0 <= i < j < pairs.len() ==> pairs[i].0 != pairs[j].0
}

/// Setting `name` to `value`: an existing pair keeps its position and takes
/// the new value, a new name goes to the end.
pub open spec fn upsert(pairs: Seq<(Seq<char>, Seq<char>)>, name: Seq<char>, value: Seq<char>) -> Seq<
    (Seq<char>, Seq<char>),
> {
    if has_name(pairs, name) {
        pairs.update(position_of(pairs, name), (name, value))
    } else {
        pairs.push((name, value))
    }
}

/// The mapping from names to values that the pairs describe.
pub open spec fn to_map(pairs: Seq<(Seq<char>, Seq<char>)>) -> Map<Seq<char>, Seq<char>> {
    Map::new(
        |name: Seq<char>| has_name(pairs, name),
        |name: Seq<char>| pairs[position_of(pairs, name)].1,
    )
}

/// With distinct names, the position of a name is the one place where it stands.
pub proof fn lemma_position_unique(pairs: Seq<(Seq<char>, Seq<char>)>, name: Seq<char>, i: int)
    requires
        distinct_names(pairs),
        0 <= i < pairs.len(),
        pairs[i].0 == name,
    ensures
        has_name(pairs, name),
        position_of(pairs, name) == i,
{
    let j = position_of(pairs, name);
    assert(0 <= j < pairs.len() && pairs[j].0 == name);
    if j < i {
        assert(pairs[j].0 != pairs[i].0);
    } else if i < j {
        assert(pairs[i].0 != pairs[j].0);
    }
}

/// Setting a name keeps the names distinct.
pub proof fn lemma_upsert_distinct(
    pairs: Seq<(Seq<char>, Seq<char>)>,
    name: Seq<char>,
    value: Seq<char>,
)
    requires
        distinct_names(pairs),
    ensures
        distinct_names(upsert(pairs, name, value)),
        has_name(upsert(pairs, name, value), name),
{
    let next = upsert(pairs, name, value);
    if has_name(pairs, name) {
        let at = position_of(pairs, name);
        assert(next[at].0 == name);
        assert forall|i: int, j: int| 0 <= i < j < next.len() implies next[i].0 != next[j].0 by {
            assert(next[i].0 == pairs[i].0);
            assert(next[j].0 == pairs[j].0);
        }
    } else {
        assert(next[pairs.len() as int].0 == name);
        assert forall|i: int, j: int| 0 <= i < j < next.len() implies next[i].0 != next[j].0 by {
            assert(next[i] == pairs[i]);
            if j < pairs.len() {
                assert(next[j] == pairs[j]);
            }
        }
    }
}

/// On the mapping, setting a name is `Map::insert`.
pub proof fn lemma_upsert_is_insert(
    pairs: Seq<(Seq<char>, Seq<char>)>,
    name: Seq<char>,
    value: Seq<char>,
)
    requires
        distinct_names(pairs),
    ensures
        to_map(upsert(pairs, name, value)) == to_map(pairs).insert(name, value),
{
    let next = upsert(pairs, name, value);
    let target = to_map(pairs).insert(name, value);
    lemma_upsert_distinct(pairs, name, value);
    assert forall|other: Seq<char>| to_map(next).dom().contains(other) <==> target.dom().contains(
        other,
    ) by {
        if has_name(next, other) {
            let i = position_of(next, other);
            if other != name {
                assert(pairs[i].0 == other);
            }
        }
        if has_name(pairs, other) {
            let i = position_of(pairs, other);
            assert(next[i].0 == other);
        }
    }
    assert forall|other: Seq<char>| to_map(next).dom().contains(other) implies to_map(next)[other]
        == target[other] by {
        let i = position_of(next, other);
        assert(0 <= i < next.len() && next[i].0 == other);
        if other == name {
            if has_name(pairs, name) {
                lemma_position_unique(next, name, position_of(pairs, name));
            } else {
                lemma_position_unique(next, name, pairs.len() as int);
            }
        } else {
            assert(pairs[i].0 == other);
            lemma_position_unique(pairs, other, i);
        }
    }
    assert(to_map(next) =~= target);
}

/// Setting two different names gives the same mapping in either order.
pub proof fn lemma_upsert_commutes(
    pairs: Seq<(Seq<char>, Seq<char>)>,
    first: Seq<char>,
    first_value: Seq<char>,
    second: Seq<char>,
    second_value: Seq<char>,
)
    requires
        distinct_names(pairs),
        first != second,
    ensures
        to_map(upsert(upsert(pairs, first, first_value), second, second_value)) == to_map(
            upsert(upsert(pairs, second, second_value), first, first_value),
        ),
{
    lemma_upsert_distinct(pairs, first, first_value);
    lemma_upsert_distinct(pairs, second, second_value);
    lemma_upsert_is_insert(pairs, first, first_value);
    lemma_upsert_is_insert(pairs, second, second_value);
    lemma_upsert_is_insert(upsert(pairs, first, first_value), second, second_value);
    lemma_upsert_is_insert(upsert(pairs, second, second_value), first, first_value);
    assert(to_map(pairs).insert(first, first_value).insert(second, second_value) =~= to_map(
        pairs,
    ).insert(second, second_value).insert(first, first_value));
}

/// The pairs that a vector of owned strings stands for.
pub open spec fn pairs_of(entries: Seq<(String, String)>) -> Seq<(Seq<char>, Seq<char>)> {
    entries.map_values(|entry: (String, String)| (entry.0@, entry.1@))
}

/// Query parameters: at most one value for each name.
#[derive(Debug)]
pub struct Parameters {
    entries: Vec<(String, String)>,
}

impl View for Parameters {
    type V = Map<Seq<char>, Seq<char>>;

    /// The mapping from names to values.
    closed spec fn view(&self) -> Map<Seq<char>, Seq<char>> {
        to_map(self.pairs())
    }
}

impl Parameters {
    #[verifier::type_invariant]
    spec fn names_are_distinct(&self) -> bool {
        distinct_names(pairs_of(self.entries@))
    }

    /// The parameters in the order in which their names were first set.
    pub closed spec fn pairs(&self) -> Seq<(Seq<char>, Seq<char>)> {
        pairs_of(self.entries@)
    }

    /// The view is the mapping of the pairs.
    pub proof fn lemma_view(&self)
        ensures
            self@ == to_map(self.pairs()),
    {
    }

    /// No parameters.
    pub fn new() -> (parameters: Self)
        ensures
            parameters.pairs() == Seq::<(Seq<char>, Seq<char>)>::empty(),
            parameters@ == Map::<Seq<char>, Seq<char>>::empty(),
    {
        let parameters = Parameters { entries: Vec::new() };
        assert(parameters.pairs() =~= Seq::<(Seq<char>, Seq<char>)>::empty());
        assert(parameters@ =~= Map::<Seq<char>, Seq<char>>::empty());
        parameters
    }

    /// Where `name` stands, if it is set.
    fn find(&self, name: &str) -> (found: Option<usize>)
        ensures
            match found {
                Some(i) => i < self.pairs().len() && self.pairs()[i as int].0 == name@
                    && has_name(self.pairs(), name@) && position_of(self.pairs(), name@) == i,
                None => !has_name(self.pairs(), name@),
            },
    {
        proof {
            use_type_invariant(self);
        }
        let wanted = String::from_str(name);
        let mut i: usize = 0;
        while i < self.entries.len()
            invariant
                i <= self.entries@.len(),
                wanted@ == name@,
                distinct_names(self.pairs()),
                forall|j: int| 0 <= j < i ==> (#[trigger] self.pairs()[j]).0 != name@,
            decreases self.entries@.len() - i,
        {
            if self.entries[i].0 == wanted {
                proof {
                    lemma_position_unique(self.pairs(), name@, i as int);
                }
                return Some(i);
            }
            i = i + 1;
        }
        None
    }

    /// Sets `name` to `value`, in place of an earlier value of that name.
    pub fn insert(self, name: &str, value: &str) -> (parameters: Self)
        ensures
            parameters.pairs() == upsert(self.pairs(), name@, value@),
            parameters@ == self@.insert(name@, value@),
            distinct_names(parameters.pairs()),
    {
        let found = self.find(name);
        proof {
            use_type_invariant(&self);
            lemma_upsert_distinct(self.pairs(), name@, value@);
            lemma_upsert_is_insert(self.pairs(), name@, value@);
        }
        let ghost before = self.pairs();
        let mut entries = self.entries;
        let entry = (String::from_str(name), String::from_str(value));
        match found {
            Some(i) => {
                entries.set(i, entry);
            },
            None => {
                entries.push(entry);
            },
        }
        assert(pairs_of(entries@) =~= upsert(before, name@, value@));
        Parameters { entries }
    }

    /// The value of `name`, if it is set.
    pub fn get(&self, name: &str) -> (value: Option<&str>)
        ensures
            match value {
                Some(text) => self@.contains_key(name@) && text@ == self@[name@],
                None => !self@.contains_key(name@),
            },
    {
        match self.find(name) {
            Some(i) => Some(self.entries[i].1.as_str()),
            None => None,
        }
    }

    /// How many names are set.
    pub fn len(&self) -> (count: usize)
        ensures
            count == self.pairs().len(),
    {
        self.entries.len()
    }

    /// A copy with the same parameters in the same order.
    pub fn duplicate(&self) -> (copy: Self)
        ensures
            copy.pairs() == self.pairs(),
            copy@ == self@,
    {
        proof {
            use_type_invariant(self);
        }
        let mut entries: Vec<(String, String)> = Vec::new();
        let mut i: usize = 0;
        while i < self.entries.len()
            invariant
                i <= self.entries@.len(),
                entries@.len() == i,
                forall|j: int|
                    0 <= j < i ==> (#[trigger] entries@[j]).0@ == self.entries@[j].0@
                        && entries@[j].1@ == self.entries@[j].1@,
            decreases self.entries@.len() - i,
        {
            let entry = &self.entries[i];
            entries.push((entry.0.clone(), entry.1.clone()));
            i = i + 1;
        }
        assert(pairs_of(entries@) =~= pairs_of(self.entries@));
        Parameters { entries }
    }

    /// The names and values, in order.
    pub fn entries(&self) -> (entries: &Vec<(String, String)>)
        ensures
            pairs_of(entries@) == self.pairs(),
            distinct_names(self.pairs()),
    {
        proof {
            use_type_invariant(self);
        }
        &self.entries
    }
}

impl Clone for Parameters {
    fn clone(&self) -> (copy: Self)
        ensures
            copy.pairs() == self.pairs(),
            copy@ == self@,
    {
        self.duplicate()
    }
}

} // verus!
