//! Values kept by peer id.
use vstd::prelude::*;

verus! {

/// Values kept by the text of a peer id; no id has two.
pub struct PeerTable<V> {
    entries: Vec<(String, V)>,
}

/// An id stands at this place of the entries.
spec fn stands_at<V>(entries: Seq<(String, V)>, id: Seq<char>, place: int) -> bool {
    0 <= place < entries.len() && entries[place].0@ == id
}

/// No id stands at two places.
spec fn distinct<V>(entries: Seq<(String, V)>) -> bool {
    forall|i: int, j: int|
        #![trigger entries[i], entries[j]]
        0 <= i < j < entries.len() ==> entries[i].0@ != entries[j].0@
}

/// The entries as a map.
spec fn as_map<V>(entries: Seq<(String, V)>) -> Map<Seq<char>, V> {
    Map::new(
        |id: Seq<char>| exists|place: int| stands_at(entries, id, place),
        |id: Seq<char>| entries[choose|place: int| stands_at(entries, id, place)].1,
    )
}

impl<V> View for PeerTable<V> {
    type V = Map<Seq<char>, V>;

    closed spec fn view(&self) -> Map<Seq<char>, V> {
        as_map(self.entries@)
    }
}

/// Where an id stands, there is its value.
proof fn lemma_stands_at<V>(entries: Seq<(String, V)>, id: Seq<char>, place: int)
    requires
        distinct(entries),
        stands_at(entries, id, place),
    ensures
        as_map(entries).contains_key(id),
        as_map(entries)[id] == entries[place].1,
{
    let chosen = choose|other: int| stands_at(entries, id, other);
    assert(stands_at(entries, id, chosen));
    assert(entries[chosen].0@ == entries[place].0@);
}

impl<V> PeerTable<V> {
    #[verifier::type_invariant]
    spec fn well_formed(self) -> bool {
        distinct(self.entries@)
    }

    /// A table of no peer.
    pub fn new() -> (table: Self)
        ensures
            table@ == Map::<Seq<char>, V>::empty(),
    {
        let table = PeerTable { entries: Vec::new() };
        proof {
            assert(table@ =~= Map::<Seq<char>, V>::empty());
        }
        table
    }

    /// The place at which an id stands.
    fn place_of(entries: &Vec<(String, V)>, id: &String) -> (place: Option<usize>)
        ensures
            match place {
                Some(place) => stands_at(entries@, id@, place as int),
                None => forall|other: int| !stands_at(entries@, id@, other),
            },
    {
        let mut place: usize = 0;
        while place < entries.len()
            invariant
                place <= entries.len(),
                forall|other: int| 0 <= other < place ==> !stands_at(entries@, id@, other),
            decreases entries.len() - place,
        {
            if entries[place].0 == *id {
                return Some(place);
            }
            place += 1;
        }
        None
    }

    /// Keeps a value for an id, in place of the one that was there.
    pub fn insert(&mut self, id: String, value: V)
        ensures
            final(self)@ == old(self)@.insert(id@, value),
    {
        proof {
            use_type_invariant(&*self);
        }
        let mut entries: Vec<(String, V)> = Vec::new();
        std::mem::swap(&mut entries, &mut self.entries);
        let ghost before = entries@;
        let ghost key = id@;
        match Self::place_of(&entries, &id) {
            Some(place) => {
                entries.set(place, (id, value));
                proof {
                    lemma_same_place(before, entries@, place as int);
                }
            },
            None => {
                entries.push((id, value));
                proof {
                    assert forall|i: int| 0 <= i < before.len() implies before[i].0@ != key by {
                        assert(!stands_at(before, key, i));
                    }
                    lemma_new_place(before, entries@);
                }
            },
        }
        self.entries = entries;
    }

    /// The value kept for an id.
    pub fn get(&self, id: &String) -> (value: Option<&V>)
        ensures
            value == if self@.contains_key(id@) {
                Some(&self@[id@])
            } else {
                None
            },
    {
        proof {
            use_type_invariant(self);
        }
        match Self::place_of(&self.entries, id) {
            Some(place) => {
                proof {
                    lemma_stands_at(self.entries@, id@, place as int);
                }
                Some(&self.entries[place].1)
            },
            None => None,
        }
    }
}

/// Replacing the value at one place changes the value of the id that stands there, and no other.
proof fn lemma_same_place<V>(before: Seq<(String, V)>, after: Seq<(String, V)>, place: int)
    requires
        distinct(before),
        0 <= place < before.len(),
        after == before.update(place, after[place]),
        after[place].0@ == before[place].0@,
    ensures
        distinct(after),
        as_map(after) == as_map(before).insert(after[place].0@, after[place].1),
{
    let expected = as_map(before).insert(after[place].0@, after[place].1);
    assert forall|i: int| 0 <= i < after.len() implies after[i].0@ == before[i].0@ by {}
    lemma_stands_at(after, after[place].0@, place);
    assert forall|id: Seq<char>|
        #![trigger as_map(after).dom().contains(id)]
        #![trigger expected.dom().contains(id)]
        #![trigger as_map(after)[id]]
        as_map(after).dom().contains(id) == expected.dom().contains(id) && (
        as_map(after).dom().contains(id) ==> as_map(after)[id] == expected[id]) by {
        if as_map(before).dom().contains(id) {
            let there = choose|other: int| stands_at(before, id, other);
            assert(stands_at(before, id, there));
            assert(stands_at(after, id, there));
            lemma_stands_at(before, id, there);
            lemma_stands_at(after, id, there);
        } else if as_map(after).dom().contains(id) {
            let there = choose|other: int| stands_at(after, id, other);
            assert(stands_at(before, id, there));
        }
    }
    assert(as_map(after).dom() =~= expected.dom());
    assert(as_map(after) =~= expected);
}

/// Adding an id that stands nowhere yet gives it its value, and changes no other.
proof fn lemma_new_place<V>(before: Seq<(String, V)>, after: Seq<(String, V)>)
    requires
        distinct(before),
        after == before.push(after.last()),
        forall|i: int| 0 <= i < before.len() ==> before[i].0@ != after.last().0@,
    ensures
        distinct(after),
        as_map(after) == as_map(before).insert(after.last().0@, after.last().1),
{
    let expected = as_map(before).insert(after.last().0@, after.last().1);
    let last = after.len() - 1;
    assert forall|i: int| 0 <= i < before.len() implies before[i] == after[i] by {}
    lemma_stands_at(after, after.last().0@, last);
    assert forall|id: Seq<char>|
        #![trigger as_map(after).dom().contains(id)]
        #![trigger expected.dom().contains(id)]
        #![trigger as_map(after)[id]]
        as_map(after).dom().contains(id) == expected.dom().contains(id) && (
        as_map(after).dom().contains(id) ==> as_map(after)[id] == expected[id]) by {
        if as_map(before).dom().contains(id) {
            let there = choose|other: int| stands_at(before, id, other);
            assert(stands_at(before, id, there));
            assert(stands_at(after, id, there));
            lemma_stands_at(before, id, there);
            lemma_stands_at(after, id, there);
        } else if as_map(after).dom().contains(id) {
            let there = choose|other: int| stands_at(after, id, other);
            if there != last {
                assert(stands_at(before, id, there));
            }
        }
    }
    assert(as_map(after).dom() =~= expected.dom());
    assert(as_map(after) =~= expected);
}

} // verus!
