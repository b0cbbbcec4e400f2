//! A set of names that remembers the order in which its names arrived.

use crate::text::texts;
use vstd::prelude::*;
use vstd::string::*;

verus! {

/// The names of `names` with `name` added: unchanged where `name` is already
/// among them, with `name` at the end otherwise.
pub open spec fn with_name(names: Seq<Seq<char>>, name: Seq<char>) -> Seq<Seq<char>> {
    if names.contains(name) {
        names
    } else {
        names.push(name)
    }
}

/// How often `name` occurs in `names`.
pub open spec fn occurrences(names: Seq<Seq<char>>, name: Seq<char>) -> nat
    decreases names.len(),
{
    if names.len() == 0 {
        0
    } else {
        occurrences(names.drop_last(), name) + if names.last() == name {
            1nat
        } else {
            0nat
        }
    }
}

/// A name that is not among `names` occurs there no time at all.
pub proof fn lemma_absent_occurs_never(names: Seq<Seq<char>>, name: Seq<char>)
    requires
        !names.contains(name),
    ensures
        occurrences(names, name) == 0,
    decreases names.len(),
{
    if names.len() > 0 {
        assert(names.last() == names[names.len() - 1]);
        assert forall|i: int| 0 <= i < names.drop_last().len() implies names.drop_last()[i]
            != name by {
            assert(names.drop_last()[i] == names[i]);
        }
        lemma_absent_occurs_never(names.drop_last(), name);
    }
}

/// Among names of which none is repeated, each one occurs exactly once.
pub proof fn lemma_member_occurs_once(names: Seq<Seq<char>>, name: Seq<char>)
    requires
        names.no_duplicates(),
        names.contains(name),
    ensures
        occurrences(names, name) == 1,
    decreases names.len(),
{
    let front = names.drop_last();
    assert(front.no_duplicates());
    if names.last() == name {
        assert forall|i: int| 0 <= i < front.len() implies front[i] != name by {
            assert(front[i] == names[i]);
        }
        lemma_absent_occurs_never(front, name);
    } else {
        let i = choose|i: int| 0 <= i < names.len() && names[i] == name;
        assert(front[i] == name);
        lemma_member_occurs_once(front, name);
    }
}

/// Adding a name keeps the names free of repetitions and makes the name a
/// member that occurs exactly once.
pub proof fn lemma_with_name_once(names: Seq<Seq<char>>, name: Seq<char>)
    requires
        names.no_duplicates(),
    ensures
        with_name(names, name).no_duplicates(),
        with_name(names, name).contains(name),
        occurrences(with_name(names, name), name) == 1,
        with_name(names, name).to_set() == names.to_set().insert(name),
{
    let grown = with_name(names, name);
    if !names.contains(name) {
        assert(grown[names.len() as int] == name);
        assert forall|i: int, j: int| 0 <= i < grown.len() && 0 <= j < grown.len() && i != j implies grown[i] != grown[j] by {
            if i < names.len() {
                assert(names.contains(grown[i]));
            }
            if j < names.len() {
                assert(names.contains(grown[j]));
            }
        }
    }
    lemma_member_occurs_once(grown, name);
    assert forall|n: Seq<char>| grown.to_set().contains(n) <==> names.to_set().insert(name).contains(n) by {
        if grown.contains(n) {
            let i = choose|i: int| 0 <= i < grown.len() && grown[i] == n;
            if i < names.len() {
                assert(names.contains(n));
            }
        }
        if names.contains(n) {
            let i = choose|i: int| 0 <= i < names.len() && names[i] == n;
            assert(grown[i] == n);
        }
    }
    assert(grown.to_set() =~= names.to_set().insert(name));
}

/// Adding a name a second time changes nothing.
pub proof fn lemma_with_name_idempotent(names: Seq<Seq<char>>, name: Seq<char>)
    ensures
        with_name(with_name(names, name), name) == with_name(names, name),
{
    if !names.contains(name) {
        assert(names.push(name)[names.len() as int] == name);
    }
}

/// A set of names. No name is held twice, and the names keep the order in
/// which they first arrived.
pub struct NameSet {
    names: Vec<String>,
}

impl View for NameSet {
    type V = Set<Seq<char>>;

    /// The names as a set.
    open spec fn view(&self) -> Set<Seq<char>> {
        self.order().to_set()
    }
}

impl NameSet {
    /// The names in the order of their first insertion.
    pub closed spec fn order(&self) -> Seq<Seq<char>> {
        texts(self.names@)
    }

    /// No name is held twice.
    #[verifier::type_invariant]
    pub open spec fn wf(&self) -> bool {
        self.order().no_duplicates()
    }

    /// The empty set.
    pub fn new() -> (set: Self)
        ensures
            set.wf(),
            set.order() == Seq::<Seq<char>>::empty(),
            set@ == Set::<Seq<char>>::empty(),
    {
        let set = NameSet { names: Vec::new() };
        assert(set.order() =~= Seq::<Seq<char>>::empty());
        assert(set@ =~= Set::<Seq<char>>::empty());
        set
    }

    /// The number of names.
    pub fn len(&self) -> (n: usize)
        ensures
            n == self.order().len(),
            n == self@.len(),
    {
        proof {
            use_type_invariant(self);
            self.order().unique_seq_to_set();
        }
        self.names.len()
    }

    /// Whether the set holds no name.
    pub fn is_empty(&self) -> (empty: bool)
        ensures
            empty == (self.order().len() == 0),
            empty == (self@ == Set::<Seq<char>>::empty()),
    {
        proof {
            if self.order().len() == 0 {
                assert(self@ =~= Set::<Seq<char>>::empty());
            } else {
                assert(self@.contains(self.order()[0]));
            }
        }
        self.names.len() == 0
    }

    /// Whether `name` is in the set.
    pub fn contains(&self, name: &str) -> (found: bool)
        ensures
            found == self@.contains(name@),
            found == self.order().contains(name@),
    {
        let wanted = name.to_owned();
        let mut i: usize = 0;
        while i < self.names.len()
            invariant
                i <= self.names.len(),
                wanted@ == name@,
                forall|j: int| 0 <= j < i ==> self.names[j]@ != name@,
            decreases self.names.len() - i,
        {
            if self.names[i] == wanted {
                assert(self.order()[i as int] == name@);
                return true;
            }
            i += 1;
        }
        false
    }

    /// Puts `name` into the set and tells whether it was new. A name that
    /// the set already holds leaves it as it was.
    pub fn insert(&mut self, name: &str) -> (fresh: bool)
        ensures
            final(self).wf(),
            fresh == !old(self)@.contains(name@),
            final(self)@ == old(self)@.insert(name@),
            final(self).order() == with_name(old(self).order(), name@),
            occurrences(final(self).order(), name@) == 1,
    {
        proof {
            use_type_invariant(&*self);
            lemma_with_name_once(self.order(), name@);
        }
        if self.contains(name) {
            false
        } else {
            let mut names: Vec<String> = Vec::new();
            std::mem::swap(&mut names, &mut self.names);
            names.push(name.to_owned());
            assert(texts(names@) =~= old(self).order().push(name@));
            self.names = names;
            true
        }
    }

    /// The names as strings, in the order of their first insertion.
    pub fn names(&self) -> (names: &Vec<String>)
        ensures
            texts(names@) == self.order(),
            self.wf(),
    {
        proof {
            use_type_invariant(self);
        }
        &self.names
    }
}

impl Clone for NameSet {
    /// A copy that holds the same names in the same order.
    fn clone(&self) -> (copy: Self)
        ensures
            copy.order() == self.order(),
            copy@ == self@,
            copy.wf(),
    {
        proof {
            use_type_invariant(self);
        }
        let mut names: Vec<String> = Vec::new();
        let mut i: usize = 0;
        while i < self.names.len()
            invariant
                i <= self.names.len(),
                names.len() == i,
                texts(names@) == texts(self.names@).take(i as int),
                texts(self.names@).no_duplicates(),
            decreases self.names.len() - i,
        {
            let ghost before = names@;
            names.push(self.names[i].clone());
            proof {
                let grown = texts(names@);
                let wanted = texts(self.names@).take(i + 1);
                assert forall|j: int| 0 <= j < grown.len() implies grown[j] == wanted[j] by {
                    if j < i {
                        assert(names@[j] == before[j]);
                        assert(texts(before)[j] == texts(self.names@).take(i as int)[j]);
                    }
                }
                assert(grown =~= wanted);
            }
            i += 1;
        }
        assert(texts(self.names@).take(self.names.len() as int) =~= texts(self.names@));
        NameSet { names }
    }
}

} // verus!
