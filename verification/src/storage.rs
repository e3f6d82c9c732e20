//! Where variables live while a construct is lowered: a stack of scopes from
//! names to slots, and the recorded sizes of interned strings.
use vstd::prelude::*;
use crate::symbol_table::{bind, leave, lemma_resolve_skips, resolve};

verus! {

/// The map that results from recording `entries` in order, a later entry
/// replacing an earlier one with the same key.
pub open spec fn assoc_map<V>(entries: Seq<(Seq<char>, V)>) -> Map<Seq<char>, V>
    decreases entries.len(),
{
    if entries.len() == 0 {
        Map::empty()
    } else {
        assoc_map(entries.drop_last()).insert(entries.last().0, entries.last().1)
    }
}

/// A key's last entry decides what the map holds for it.
pub proof fn lemma_assoc_last_wins<V>(entries: Seq<(Seq<char>, V)>, key: Seq<char>, i: int)
    requires
        0 <= i < entries.len(),
        entries[i].0 == key,
        forall|j: int| i < j < entries.len() ==> (#[trigger] entries[j]).0 != key,
    ensures
        assoc_map(entries).contains_key(key),
        assoc_map(entries)[key] == entries[i].1,
    decreases entries.len(),
{
    if i < entries.len() - 1 {
        assert(entries.last() == entries[entries.len() - 1]);
        lemma_assoc_last_wins(entries.drop_last(), key, i);
    }
}

/// A key with no entry is not in the map.
pub proof fn lemma_assoc_absent<V>(entries: Seq<(Seq<char>, V)>, key: Seq<char>)
    requires
        forall|j: int| 0 <= j < entries.len() ==> (#[trigger] entries[j]).0 != key,
    ensures
        !assoc_map(entries).contains_key(key),
    decreases entries.len(),
{
    if entries.len() > 0 {
        assert(entries.last() == entries[entries.len() - 1]);
        lemma_assoc_absent(entries.drop_last(), key);
    }
}

/// The entries of one storage scope, as text.
pub open spec fn slot_entries(entries: Seq<(String, String)>) -> Seq<(Seq<char>, Seq<char>)> {
    Seq::new(entries.len(), |i: int| (entries[i].0@, entries[i].1@))
}

/// The stack of storage scopes: which slot each visible variable lives in.
#[derive(Debug)]
pub struct StorageScopes {
    scopes: Vec<Vec<(String, String)>>,
}

impl View for StorageScopes {
    type V = Seq<Map<Seq<char>, Seq<char>>>;

    closed spec fn view(&self) -> Seq<Map<Seq<char>, Seq<char>>> {
        Seq::new(self.scopes@.len(), |i: int| assoc_map(slot_entries(self.scopes@[i]@)))
    }
}

impl StorageScopes {
    /// A stack with one empty scope.
    pub fn new() -> (s: Self)
        ensures
            s@ == seq![Map::<Seq<char>, Seq<char>>::empty()],
    {
        let mut scopes: Vec<Vec<(String, String)>> = Vec::new();
        scopes.push(Vec::new());
        let s = StorageScopes { scopes };
        assert(slot_entries(s.scopes@[0]@) =~= Seq::empty());
        assert(s@ =~= seq![Map::<Seq<char>, Seq<char>>::empty()]);
        s
    }

    /// How many scopes are open.
    pub fn depth(&self) -> (d: usize)
        ensures
            d == self@.len(),
    {
        self.scopes.len()
    }

    pub fn enter_scope(&mut self)
        ensures
            final(self)@ == old(self)@.push(Map::empty()),
    {
        self.scopes.push(Vec::new());
        assert(slot_entries(self.scopes@[self.scopes@.len() - 1]@) =~= Seq::empty());
        assert(self@ =~= old(self)@.push(Map::empty()));
    }

    pub fn exit_scope(&mut self)
        ensures
            final(self)@ == leave(old(self)@),
    {
        self.scopes.pop();
        assert(self@ =~= leave(old(self)@));
    }

    /// Gives `name` the slot `slot` in the innermost scope.
    pub fn declare(&mut self, name: String, slot: String)
        ensures
            final(self)@ == bind(old(self)@, name@, slot@),
    {
        let n = self.scopes.len();
        if n > 0 {
            let mut scope = self.scopes.pop().unwrap();
            let ghost before = scope@;
            scope.push((name, slot));
            assert(slot_entries(scope@).drop_last() =~= slot_entries(before));
            self.scopes.push(scope);
            assert(self@ =~= bind(old(self)@, name@, slot@));
        }
    }

    /// The slot of `name` in the innermost scope that has one.
    pub fn lookup(&self, name: &str) -> (r: Option<&String>)
        ensures
            match r {
                Some(slot) => resolve(self@, name@) == Some(slot@),
                None => resolve(self@, name@) is None,
            },
    {
        let wanted = name.to_owned();
        let mut i: usize = self.scopes.len();
        while i > 0
            invariant
                i <= self.scopes.len(),
                wanted@ == name@,
                forall|j: int| i <= j < self@.len() ==> !(#[trigger] self@[j]).contains_key(name@),
            decreases i,
        {
            i -= 1;
            let scope = &self.scopes[i];
            let ghost entries = slot_entries(scope@);
            let mut k: usize = scope.len();
            while k > 0
                invariant
                    k <= scope.len(),
                    wanted@ == name@,
                    i < self.scopes.len(),
                    scope == &self.scopes[i as int],
                    entries == slot_entries(scope@),
                    forall|j: int| k <= j < entries.len() ==> (#[trigger] entries[j]).0 != name@,
                    forall|j: int|
                        i < j < self@.len() ==> !(#[trigger] self@[j]).contains_key(name@),
                decreases k,
            {
                k -= 1;
                if scope[k].0 == wanted {
                    proof {
                        lemma_assoc_last_wins(entries, name@, k as int);
                        lemma_resolve_skips(self@, name@, i + 1);
                        assert(self@.take(i + 1).last() == self@[i as int]);
                    }
                    return Some(&scope[k].1);
                }
            }
            proof {
                lemma_assoc_absent(entries, name@);
            }
        }
        proof {
            lemma_resolve_skips(self@, name@, 0);
        }
        None
    }
}

/// The recorded sizes, as text and numbers.
pub open spec fn size_entries(entries: Seq<(String, usize)>) -> Seq<(Seq<char>, nat)> {
    Seq::new(entries.len(), |i: int| (entries[i].0@, entries[i].1 as nat))
}

/// The byte length of each interned string constant, by label.
#[derive(Debug)]
pub struct StringSizes {
    entries: Vec<(String, usize)>,
}

impl View for StringSizes {
    type V = Map<Seq<char>, nat>;

    closed spec fn view(&self) -> Map<Seq<char>, nat> {
        assoc_map(size_entries(self.entries@))
    }
}

impl StringSizes {
    pub fn new() -> (s: Self)
        ensures
            s@ == Map::<Seq<char>, nat>::empty(),
    {
        let s = StringSizes { entries: Vec::new() };
        assert(size_entries(s.entries@) =~= Seq::empty());
        s
    }

    /// Records that the constant `label` is `len` bytes long.
    pub fn record(&mut self, label: String, len: usize)
        ensures
            final(self)@ == old(self)@.insert(label@, len as nat),
    {
        let ghost before = self.entries@;
        self.entries.push((label, len));
        assert(size_entries(self.entries@).drop_last() =~= size_entries(before));
    }

    /// The length recorded for `label`, if one is.
    pub fn get(&self, label: &str) -> (r: Option<usize>)
        ensures
            match r {
                Some(len) => self@.contains_key(label@) && self@[label@] == len,
                None => !self@.contains_key(label@),
            },
    {
        let wanted = label.to_owned();
        let ghost entries = size_entries(self.entries@);
        let mut k: usize = self.entries.len();
        while k > 0
            invariant
                k <= self.entries.len(),
                wanted@ == label@,
                entries == size_entries(self.entries@),
                forall|j: int| k <= j < entries.len() ==> (#[trigger] entries[j]).0 != label@,
            decreases k,
        {
            k -= 1;
            if self.entries[k].0 == wanted {
                proof {
                    lemma_assoc_last_wins(entries, label@, k as int);
                }
                return Some(self.entries[k].1);
            }
        }
        proof {
            lemma_assoc_absent(entries, label@);
        }
        None
    }
}

} // verus!
