//! A set of names that keeps the order in which the names came.

use vstd::prelude::*;

use crate::text::{join, join_from, same_text, texts};

verus! {

/// Names, each held once, oldest first.
pub struct NameSet {
    names: Vec<String>,
}

/// The names with one more: a name that is there already stays where it is.
pub open spec fn with_name(names: Seq<Seq<char>>, name: Seq<char>) -> Seq<Seq<char>> {
    if names.contains(name) {
        names
    } else {
        names.push(name)
    }
}

/// A set of names is modelled as a set; where their order matters, see [`NameSet::order`].
impl View for NameSet {
    type V = Set<Seq<char>>;

    open spec fn view(&self) -> Set<Seq<char>> {
        self.order().to_set()
    }
}

impl NameSet {
    /// The names in the order in which they came.
    pub closed spec fn order(&self) -> Seq<Seq<char>> {
        texts(self.names@)
    }

    /// No name occurs twice.
    pub open spec fn wf(&self) -> bool {
        self.order().no_duplicates()
    }

    /// No names.
    pub fn new() -> (set: NameSet)
        ensures
            set.wf(),
            set.order() == Seq::<Seq<char>>::empty(),
            set@ == Set::<Seq<char>>::empty(),
    {
        let set = NameSet { names: Vec::new() };
        assert(set.order() == Seq::<Seq<char>>::empty());
        assert(set@ == Set::<Seq<char>>::empty());
        set
    }

    /// Where the name stands, `None` if it is not there.
    fn position(&self, name: &str) -> (position: Option<usize>)
        ensures
            position is Some <==> self.order().contains(name@),
            position matches Some(i) ==> i < self.order().len() && self.order()[i as int] == name@,
            self.order().len() == self.names.len(),
    {
        let mut i: usize = 0;
        while i < self.names.len()
            invariant
                i <= self.names.len(),
                forall|j: int| 0 <= j < i ==> #[trigger] self.order()[j] != name@,
            decreases self.names.len() - i,
        {
            if same_text(self.names[i].as_str(), name) {
                assert(self.order()[i as int] == name@);
                return Some(i);
            }
            i = i + 1;
        }
        None
    }

    /// Whether the name is in the set.
    pub fn contains(&self, name: &str) -> (found: bool)
        ensures
            found == self@.contains(name@),
            found == self.order().contains(name@),
    {
        self.position(name).is_some()
    }

    /// Puts the name in; says whether it is new.
    pub fn insert(&mut self, name: String) -> (new: bool)
        requires
            old(self).wf(),
        ensures
            final(self).wf(),
            final(self).order() == with_name(old(self).order(), name@),
            final(self)@ == old(self)@.insert(name@),
            new == !old(self)@.contains(name@),
    {
        if self.contains(name.as_str()) {
            assert(self@ == old(self)@.insert(name@));
            false
        } else {
            let ghost text = name@;
            self.names.push(name);
            proof {
                let order = old(self).order();
                assert(self.order() == order.push(text));
                assert forall|i: int, j: int|
                    0 <= i < j < self.order().len() implies self.order()[i] != self.order()[j] by {
                    if j == order.len() {
                        assert(order.contains(order[i]));
                    }
                }
                order.lemma_push_to_set_commute(text);
            }
            true
        }
    }

    /// Takes the name out; says whether it was there.
    pub fn remove(&mut self, name: &str) -> (found: bool)
        requires
            old(self).wf(),
        ensures
            final(self).wf(),
            final(self)@ == old(self)@.remove(name@),
            found == old(self)@.contains(name@),
    {
        match self.position(name) {
            Some(i) => {
                self.names.remove(i);
                proof {
                    let order = old(self).order();
                    assert(self.order() == order.remove(i as int));
                    lemma_remove_to_set(order, i as int);
                }
                true
            },
            None => {
                assert(self@ == old(self)@.remove(name@));
                false
            },
        }
    }

    /// The names in order, with a separator between neighbours.
    pub fn join(&self, separator: &str) -> (joined: String)
        ensures
            joined@ == join(self.order(), separator@),
    {
        assert(texts(self.names@).skip(0) == texts(self.names@));
        join_from(&self.names, 0, separator)
    }
}

proof fn lemma_remove_to_set(names: Seq<Seq<char>>, i: int)
    requires
        names.no_duplicates(),
        0 <= i < names.len(),
    ensures
        names.remove(i).no_duplicates(),
        names.remove(i).to_set() == names.to_set().remove(names[i]),
{
    let left = names.remove(i);
    assert forall|n: Seq<char>| left.contains(n) implies names.contains(n) && n != names[i] by {
        let j = choose|j: int| 0 <= j < left.len() && left[j] == n;
        if j < i {
            assert(names[j] == n);
        } else {
            assert(names[j + 1] == n);
        }
    }
    assert forall|n: Seq<char>| names.contains(n) && n != names[i] implies left.contains(n) by {
        let j = choose|j: int| 0 <= j < names.len() && names[j] == n;
        if j < i {
            assert(left[j] == n);
        } else {
            assert(left[j - 1] == n);
        }
    }
    assert(left.to_set() =~= names.to_set().remove(names[i]));
}

/// A name that is put in is there, the names that were there stay where they are, no other name
/// comes, and none is there twice.
pub proof fn law_name_is_put_in_once(names: Seq<Seq<char>>, name: Seq<char>)
    requires
        names.no_duplicates(),
    ensures
        names.is_prefix_of(with_name(names, name)),
        forall|n: Seq<char>| #[trigger]
            with_name(names, name).contains(n) <==> names.contains(n) || n == name,
        with_name(names, name).no_duplicates(),
        names.contains(name) ==> with_name(names, name) == names,
{
    let more = with_name(names, name);
    assert forall|n: Seq<char>| #[trigger] more.contains(n) <==> names.contains(n) || n == name by {
        if !names.contains(name) {
            assert(more.to_set() == names.to_set().insert(name)) by {
                names.lemma_push_to_set_commute(name);
            }
            assert(more.to_set().contains(n) == more.contains(n));
            assert(names.to_set().contains(n) == names.contains(n));
        }
    }
    assert forall|i: int, j: int| 0 <= i < more.len() && 0 <= j < more.len() && i != j implies more[i]
        != more[j] by {
        if !names.contains(name) {
            assert(i < names.len() ==> names.contains(names[i]));
            assert(j < names.len() ==> names.contains(names[j]));
        }
    }
}

} // verus!
