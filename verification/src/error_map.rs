//! A map from field names to one message each.

use vstd::prelude::*;

verus! {

/// Field names paired with their messages, as plain sequences.
pub type Pairs = Seq<(Seq<char>, Seq<char>)>;

/// The map that a list of pairs stands for: later pairs win.
pub open spec fn map_of(pairs: Pairs) -> Map<Seq<char>, Seq<char>>
    decreases pairs.len(),
{
    if pairs.len() == 0 {
        Map::empty()
    } else {
        map_of(pairs.drop_last()).insert(pairs.last().0, pairs.last().1)
    }
}

/// No field name occurs twice among the pairs.
pub open spec fn distinct_fields(pairs: Pairs) -> bool {
    forall|i: int, j: int|
        0 <= i < j < pairs.len() ==> (#[trigger] pairs[i]).0 != (#[trigger] pairs[j]).0
}

/// A field that no pair names is not in the map.
pub proof fn lemma_map_of_absent(pairs: Pairs, field: Seq<char>)
    requires
        forall|i: int| 0 <= i < pairs.len() ==> (#[trigger] pairs[i]).0 != field,
    ensures
        !map_of(pairs).contains_key(field),
    decreases pairs.len(),
{
    if pairs.len() > 0 {
        lemma_map_of_absent(pairs.drop_last(), field);
    }
}

/// With distinct fields, each pair is an entry of the map, and the map has
/// as many entries as there are pairs.
pub proof fn lemma_map_of_distinct(pairs: Pairs)
    requires
        distinct_fields(pairs),
    ensures
        forall|i: int|
            0 <= i < pairs.len() ==> map_of(pairs).contains_key((#[trigger] pairs[i]).0) && map_of(
                pairs,
            )[pairs[i].0] == pairs[i].1,
        map_of(pairs).dom().finite(),
        map_of(pairs).dom().len() == pairs.len(),
    decreases pairs.len(),
{
    if pairs.len() > 0 {
        let front = pairs.drop_last();
        lemma_map_of_distinct(front);
        lemma_map_of_absent(front, pairs.last().0);
        assert forall|i: int| 0 <= i < pairs.len() implies map_of(pairs).contains_key(
            (#[trigger] pairs[i]).0,
        ) && map_of(pairs)[pairs[i].0] == pairs[i].1 by {
            if i < pairs.len() - 1 {
                assert(front[i] == pairs[i]);
            }
        }
    }
}

/// Replacing the message of a field in place is an insertion into the map.
pub proof fn lemma_map_of_update(pairs: Pairs, at: int, message: Seq<char>)
    requires
        0 <= at < pairs.len(),
        distinct_fields(pairs),
    ensures
        map_of(pairs.update(at, (pairs[at].0, message))) == map_of(pairs).insert(
            pairs[at].0,
            message,
        ),
    decreases pairs.len(),
{
    let field = pairs[at].0;
    let changed = pairs.update(at, (field, message));
    let front = pairs.drop_last();
    if at == pairs.len() - 1 {
        assert(changed.drop_last() =~= front);
        assert(map_of(changed) =~= map_of(pairs).insert(field, message));
    } else {
        lemma_map_of_update(front, at, message);
        assert(front[at] == pairs[at]);
        assert(changed.drop_last() =~= front.update(at, (field, message)));
        assert(changed.last() == pairs.last());
        assert(map_of(changed) =~= map_of(pairs).insert(field, message));
    }
}

/// Field names with one message each, in the order in which the fields were
/// first given a message.
pub struct ErrorMap {
    entries: Vec<(String, String)>,
}

impl ErrorMap {
    /// The entries in order, as plain pairs.
    pub closed spec fn pairs(&self) -> Pairs {
        self.entries@.map_values(|e: (String, String)| (e.0@, e.1@))
    }

    /// The message of each field that has one.
    pub open spec fn view(&self) -> Map<Seq<char>, Seq<char>> {
        map_of(self.pairs())
    }

    /// No field has two entries.
    pub open spec fn wf(&self) -> bool {
        distinct_fields(self.pairs())
    }

    /// A map without entries.
    pub fn new() -> (m: ErrorMap)
        ensures
            m.wf(),
            m.pairs() == Pairs::empty(),
            m@ == Map::<Seq<char>, Seq<char>>::empty(),
    {
        let m = ErrorMap { entries: Vec::new() };
        assert(m.pairs() =~= Pairs::empty());
        m
    }

    /// The number of fields that have a message.
    pub fn len(&self) -> (n: usize)
        requires
            self.wf(),
        ensures
            n == self.pairs().len(),
            n == self@.dom().len(),
    {
        proof {
            lemma_map_of_distinct(self.pairs());
        }
        self.entries.len()
    }

    /// Gives `field` the message `message`, in place of the one it had.
    pub fn insert(&mut self, field: String, message: String)
        requires
            old(self).wf(),
        ensures
            final(self).wf(),
            final(self)@ == old(self)@.insert(field@, message@),
            forall|i: int|
                0 <= i < old(self).pairs().len() && old(self).pairs()[i].0 == field@
                    ==> final(self).pairs() == old(self).pairs().update(i, (field@, message@)),
            !old(self)@.contains_key(field@)
                ==> final(self).pairs() == old(self).pairs().push((field@, message@)),
    {
        let ghost before = self.pairs();
        let mut i: usize = 0;
        while i < self.entries.len()
            invariant
                i <= self.entries.len(),
                self.pairs() == before,
                before == old(self).pairs(),
                distinct_fields(before),
                forall|j: int| 0 <= j < i ==> (#[trigger] before[j]).0 != field@,
            decreases self.entries.len() - i,
        {
            if self.entries[i].0 == field {
                assert(before[i as int].0 == field@);
                self.entries[i] = (field, message);
                proof {
                    assert(self.pairs() =~= before.update(i as int, (field@, message@)));
                    lemma_map_of_update(before, i as int, message@);
                    lemma_map_of_distinct(before);
                    assert forall|j: int| 0 <= j < before.len() && before[j].0 == field@ implies j
                        == i by {
                        if j != i {
                            if j < i {
                                assert(before[j].0 != before[i as int].0);
                            } else {
                                assert(before[i as int].0 != before[j].0);
                            }
                        }
                    }
                }
                return ;
            }
            assert(before[i as int].0 != field@);
            i = i + 1;
        }
        self.entries.push((field, message));
        proof {
            assert(self.pairs() =~= before.push((field@, message@)));
            assert(self.pairs().drop_last() =~= before);
            lemma_map_of_absent(before, field@);
        }
    }

    /// The message of `field`, if it has one.
    pub fn get(&self, field: &String) -> (message: Option<String>)
        requires
            self.wf(),
        ensures
            match message {
                Some(m) => self@.contains_key(field@) && self@[field@] == m@,
                None => !self@.contains_key(field@),
            },
    {
        let mut i: usize = 0;
        while i < self.entries.len()
            invariant
                i <= self.entries.len(),
                self.wf(),
                forall|j: int| 0 <= j < i ==> (#[trigger] self.pairs()[j]).0 != field@,
            decreases self.entries.len() - i,
        {
            if self.entries[i].0 == *field {
                proof {
                    lemma_map_of_distinct(self.pairs());
                    assert(self.pairs()[i as int].0 == field@);
                }
                return Some(self.entries[i].1.clone());
            }
            assert(self.pairs()[i as int].0 != field@);
            i = i + 1;
        }
        proof {
            lemma_map_of_absent(self.pairs(), field@);
        }
        None
    }

    /// The messages, one for each field, in the order of the entries.
    pub fn messages(&self) -> (out: Vec<String>)
        ensures
            out@.len() == self.pairs().len(),
            forall|i: int| 0 <= i < out@.len() ==> (#[trigger] out@[i])@ == self.pairs()[i].1,
    {
        let mut out: Vec<String> = Vec::new();
        let mut i: usize = 0;
        while i < self.entries.len()
            invariant
                i <= self.entries.len(),
                out@.len() == i,
                forall|j: int| 0 <= j < i ==> (#[trigger] out@[j])@ == self.pairs()[j].1,
            decreases self.entries.len() - i,
        {
            out.push(self.entries[i].1.clone());
            i = i + 1;
        }
        out
    }
}

} // verus!
