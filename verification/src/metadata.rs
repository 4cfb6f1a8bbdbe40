use vstd::prelude::*;

verus! {

/// No key occurs twice among the pairs.
pub open spec fn unique_keys(pairs: Seq<(String, serde_json::Value)>) -> bool {
    forall|i: int, j: int|
        0 <= i < pairs.len() && 0 <= j < pairs.len() && i != j ==> #[trigger] pairs[i].0@
            != #[trigger] pairs[j].0@
}

/// Some pair carries the key.
pub open spec fn has_key(pairs: Seq<(String, serde_json::Value)>, key: Seq<char>) -> bool {
    exists|i: int| 0 <= i < pairs.len() && #[trigger] pairs[i].0@ == key
}

/// The map that a sequence of pairs with distinct keys stands for.
pub open spec fn pairs_map(pairs: Seq<(String, serde_json::Value)>) -> Map<
    Seq<char>,
    serde_json::Value,
> {
    Map::new(
        |k: Seq<char>| has_key(pairs, k),
        |k: Seq<char>| pairs[choose|i: int| 0 <= i < pairs.len() && #[trigger] pairs[i].0@ == k].1,
    )
}

/// The map after inserting the pairs one after another: a later pair replaces
/// an earlier one with the same key.
pub open spec fn insert_all(
    m: Map<Seq<char>, serde_json::Value>,
    pairs: Seq<(String, serde_json::Value)>,
) -> Map<Seq<char>, serde_json::Value>
    decreases pairs.len(),
{
    if pairs.len() == 0 {
        m
    } else {
        insert_all(m, pairs.drop_last()).insert(pairs.last().0@, pairs.last().1)
    }
}

/// Lookup law of successive inserts: after inserting pairs one after another
/// into a map, a key is present iff it was present before or some pair carries
/// it; a key that no pair carries keeps its value; a key that some pair
/// carries has the value of the last pair that carries it.
pub proof fn lemma_insert_all_lookup(
    m: Map<Seq<char>, serde_json::Value>,
    pairs: Seq<(String, serde_json::Value)>,
    k: Seq<char>,
)
    ensures
        insert_all(m, pairs).dom().contains(k) <==> (m.dom().contains(k) || has_key(pairs, k)),
        !has_key(pairs, k) ==> insert_all(m, pairs)[k] == m[k],
        forall|i: int|
            0 <= i < pairs.len() && #[trigger] pairs[i].0@ == k && (forall|j: int|
                i < j < pairs.len() ==> pairs[j].0@ != k) ==> insert_all(m, pairs)[k] == pairs[i].1,
    decreases pairs.len(),
{
    if pairs.len() > 0 {
        let prefix = pairs.drop_last();
        lemma_insert_all_lookup(m, prefix, k);
        let n = pairs.len() - 1;
        assert forall|q: Seq<char>| has_key(pairs, q) <==> (has_key(prefix, q) || pairs[n].0@ == q) by {
            if has_key(pairs, q) {
                let i = choose|i: int| 0 <= i < pairs.len() && #[trigger] pairs[i].0@ == q;
                if i < n {
                    assert(prefix[i].0@ == q);
                }
            }
            if has_key(prefix, q) {
                let i = choose|i: int| 0 <= i < prefix.len() && #[trigger] prefix[i].0@ == q;
                assert(pairs[i].0@ == q);
            }
            if pairs[n].0@ == q {
                assert(pairs[n].0@ == q);
            }
        }
        assert forall|i: int|
            0 <= i < pairs.len() && #[trigger] pairs[i].0@ == k && (forall|j: int|
                i < j < pairs.len() ==> pairs[j].0@ != k) implies insert_all(m, pairs)[k] == pairs[i].1 by {
            if i < n {
                assert(pairs[n].0@ != k);
                assert(prefix[i].0@ == k);
                assert(forall|j: int| i < j < prefix.len() ==> prefix[j] == pairs[j]);
            }
        }
    }
}

/// Inserting pairs with distinct keys one after another lays the map they
/// stand for over the starting map.
pub proof fn lemma_insert_all_is_union(
    m: Map<Seq<char>, serde_json::Value>,
    pairs: Seq<(String, serde_json::Value)>,
)
    requires
        unique_keys(pairs),
    ensures
        insert_all(m, pairs) == m.union_prefer_right(pairs_map(pairs)),
{
    let lhs = insert_all(m, pairs);
    let rhs = m.union_prefer_right(pairs_map(pairs));
    assert forall|k: Seq<char>| lhs.dom().contains(k) <==> rhs.dom().contains(k) by {
        lemma_insert_all_lookup(m, pairs, k);
    }
    assert forall|k: Seq<char>| #[trigger] lhs.dom().contains(k) implies lhs[k] == rhs[k] by {
        lemma_insert_all_lookup(m, pairs, k);
        if has_key(pairs, k) {
            let i = choose|i: int| 0 <= i < pairs.len() && #[trigger] pairs[i].0@ == k;
            lemma_lookup(pairs, i);
            assert forall|j: int| i < j < pairs.len() implies pairs[j].0@ != k by {
                assert(pairs[j].0@ != pairs[i].0@);
            }
        }
    }
    assert(lhs =~= rhs);
}

/// Key-value metadata of a log entry: a map from field name to JSON value.
#[derive(Debug)]
pub struct Metadata {
    items: Vec<(String, serde_json::Value)>,
}

impl View for Metadata {
    type V = Map<Seq<char>, serde_json::Value>;

    closed spec fn view(&self) -> Map<Seq<char>, serde_json::Value> {
        pairs_map(self.items@)
    }
}

impl Metadata {
    #[verifier::type_invariant]
    spec fn distinct(self) -> bool {
        unique_keys(self.items@)
    }

    /// Empty metadata.
    pub fn new() -> (m: Metadata)
        ensures
            m@ == Map::<Seq<char>, serde_json::Value>::empty(),
    {
        let m = Metadata { items: Vec::new() };
        assert(m@ =~= Map::<Seq<char>, serde_json::Value>::empty());
        m
    }

    /// The position of the pair with the given key, if there is one.
    fn position(&self, key: &String) -> (r: Option<usize>)
        ensures
            match r {
                Some(i) => i < self.items@.len() && self.items@[i as int].0@ == key@,
                None => !has_key(self.items@, key@),
            },
    {
        let mut i: usize = 0;
        while i < self.items.len()
            invariant
                i <= self.items@.len(),
                forall|j: int| 0 <= j < i ==> self.items@[j].0@ != key@,
            decreases self.items@.len() - i,
        {
            if self.items[i].0 == *key {
                return Some(i);
            }
            i = i + 1;
        }
        None
    }

    /// The value stored under `key`, if any.
    pub fn get(&self, key: &String) -> (r: Option<&serde_json::Value>)
        ensures
            r.is_some() == self@.dom().contains(key@),
            r matches Some(v) ==> *v == self@[key@],
    {
        proof {
            use_type_invariant(self);
        }
        match self.position(key) {
            Some(i) => {
                proof {
                    lemma_lookup(self.items@, i as int);
                }
                Some(&self.items[i].1)
            },
            None => None,
        }
    }

    /// Whether some value is stored under `key`.
    pub fn contains_key(&self, key: &String) -> (b: bool)
        ensures
            b == self@.dom().contains(key@),
    {
        self.get(key).is_some()
    }

    /// The stored pairs, each key once.
    pub fn entries(&self) -> (r: &Vec<(String, serde_json::Value)>)
        ensures
            unique_keys(r@),
            pairs_map(r@) == self@,
    {
        proof {
            use_type_invariant(self);
        }
        &self.items
    }

    /// Set `key` to `value`, replacing any value it had.
    pub fn insert(&mut self, key: String, value: serde_json::Value)
        ensures
            final(self)@ == old(self)@.insert(key@, value),
    {
        proof {
            use_type_invariant(&*self);
        }
        let ghost old_items = self.items@;
        let found = self.position(&key);
        let mut items: Vec<(String, serde_json::Value)> = Vec::new();
        std::mem::swap(&mut items, &mut self.items);
        match found {
            Some(i) => {
                proof {
                    lemma_replace_keeps_unique(old_items, i as int, key, value);
                }
                let ghost k = key@;
                items.set(i, (key, value));
                proof {
                    lemma_replace_is_insert(old_items, i as int, k, value, items@);
                }
                self.items = items;
            },
            None => {
                proof {
                    lemma_push_keeps_unique(old_items, key, value);
                }
                let ghost k = key@;
                items.push((key, value));
                proof {
                    lemma_push_is_insert(old_items, k, value, items@);
                }
                self.items = items;
            },
        }
    }
}

impl Clone for Metadata {
    fn clone(&self) -> (c: Metadata)
        ensures
            c@ == self@,
    {
        proof {
            use_type_invariant(self);
        }
        Metadata { items: clone_pairs(&self.items) }
    }
}

/// A copy of a list of key-value pairs, pair for pair.
pub fn clone_pairs(pairs: &Vec<(String, serde_json::Value)>) -> (c: Vec<(String, serde_json::Value)>)
    ensures
        c@ == pairs@,
{
    let mut out: Vec<(String, serde_json::Value)> = Vec::new();
    let mut i: usize = 0;
    while i < pairs.len()
        invariant
            i <= pairs@.len(),
            out@ == pairs@.subrange(0, i as int),
        decreases pairs@.len() - i,
    {
        let (k, v) = &pairs[i];
        out.push((k.clone(), v.clone()));
        proof {
            assert(out@ =~= pairs@.subrange(0, i + 1));
        }
        i = i + 1;
    }
    proof {
        assert(out@ =~= pairs@);
    }
    out
}

/// In a sequence with distinct keys, each pair is what its key maps to.
pub proof fn lemma_lookup(pairs: Seq<(String, serde_json::Value)>, i: int)
    requires
        unique_keys(pairs),
        0 <= i < pairs.len(),
    ensures
        pairs_map(pairs).dom().contains(pairs[i].0@),
        pairs_map(pairs)[pairs[i].0@] == pairs[i].1,
{
    let k = pairs[i].0@;
    assert(has_key(pairs, k));
    let j = choose|j: int| 0 <= j < pairs.len() && #[trigger] pairs[j].0@ == k;
    assert(j == i);
}

proof fn lemma_replace_keeps_unique(
    pairs: Seq<(String, serde_json::Value)>,
    i: int,
    key: String,
    value: serde_json::Value,
)
    requires
        unique_keys(pairs),
        0 <= i < pairs.len(),
        pairs[i].0@ == key@,
    ensures
        unique_keys(pairs.update(i, (key, value))),
{
    let new_pairs = pairs.update(i, (key, value));
    assert forall|a: int, b: int|
        0 <= a < new_pairs.len() && 0 <= b < new_pairs.len() && a != b implies #[trigger] new_pairs[a].0@
        != #[trigger] new_pairs[b].0@ by {
        assert(pairs[a].0@ != pairs[b].0@);
    }
}

proof fn lemma_push_keeps_unique(
    pairs: Seq<(String, serde_json::Value)>,
    key: String,
    value: serde_json::Value,
)
    requires
        unique_keys(pairs),
        !has_key(pairs, key@),
    ensures
        unique_keys(pairs.push((key, value))),
{
    let new_pairs = pairs.push((key, value));
    assert forall|a: int, b: int|
        0 <= a < new_pairs.len() && 0 <= b < new_pairs.len() && a != b implies #[trigger] new_pairs[a].0@
        != #[trigger] new_pairs[b].0@ by {
        if a < pairs.len() && b < pairs.len() {
            assert(pairs[a].0@ != pairs[b].0@);
        } else if a < pairs.len() {
            assert(pairs[a].0@ == new_pairs[a].0@);
        } else {
            assert(pairs[b].0@ == new_pairs[b].0@);
        }
    }
}

proof fn lemma_replace_is_insert(
    pairs: Seq<(String, serde_json::Value)>,
    i: int,
    key: Seq<char>,
    value: serde_json::Value,
    new_pairs: Seq<(String, serde_json::Value)>,
)
    requires
        unique_keys(pairs),
        unique_keys(new_pairs),
        0 <= i < pairs.len(),
        pairs[i].0@ == key,
        new_pairs.len() == pairs.len(),
        new_pairs[i].0@ == key,
        new_pairs[i].1 == value,
        forall|j: int| 0 <= j < pairs.len() && j != i ==> new_pairs[j] == pairs[j],
    ensures
        pairs_map(new_pairs) == pairs_map(pairs).insert(key, value),
{
    let old_map = pairs_map(pairs);
    let new_map = pairs_map(new_pairs);
    lemma_lookup(pairs, i);
    lemma_lookup(new_pairs, i);
    assert forall|q: Seq<char>| new_map.dom().contains(q) <==> old_map.insert(key, value).dom().contains(q) by {
        if has_key(pairs, q) {
            let j = choose|j: int| 0 <= j < pairs.len() && #[trigger] pairs[j].0@ == q;
            if j == i {
                assert(new_pairs[i].0@ == q);
            } else {
                assert(new_pairs[j].0@ == q);
            }
        }
        if has_key(new_pairs, q) {
            let j = choose|j: int| 0 <= j < new_pairs.len() && #[trigger] new_pairs[j].0@ == q;
            if j == i {
                assert(pairs[i].0@ == q);
            } else {
                assert(pairs[j].0@ == q);
            }
        }
    }
    assert forall|q: Seq<char>| #[trigger] new_map.dom().contains(q) implies new_map[q] == old_map.insert(key, value)[q] by {
        if q != key {
            let j = choose|j: int| 0 <= j < pairs.len() && #[trigger] pairs[j].0@ == q;
            assert(j != i);
            lemma_lookup(pairs, j);
            assert(new_pairs[j] == pairs[j]);
            lemma_lookup(new_pairs, j);
        }
    }
    assert(new_map =~= old_map.insert(key, value));
}

proof fn lemma_push_is_insert(
    pairs: Seq<(String, serde_json::Value)>,
    key: Seq<char>,
    value: serde_json::Value,
    new_pairs: Seq<(String, serde_json::Value)>,
)
    requires
        unique_keys(pairs),
        unique_keys(new_pairs),
        new_pairs.len() == pairs.len() + 1,
        new_pairs.last().0@ == key,
        new_pairs.last().1 == value,
        forall|j: int| 0 <= j < pairs.len() ==> new_pairs[j] == pairs[j],
    ensures
        pairs_map(new_pairs) == pairs_map(pairs).insert(key, value),
{
    let old_map = pairs_map(pairs);
    let new_map = pairs_map(new_pairs);
    let n = pairs.len() as int;
    lemma_lookup(new_pairs, n);
    assert forall|q: Seq<char>| new_map.dom().contains(q) <==> old_map.insert(key, value).dom().contains(q) by {
        if has_key(pairs, q) {
            let j = choose|j: int| 0 <= j < pairs.len() && #[trigger] pairs[j].0@ == q;
            assert(new_pairs[j].0@ == q);
        }
        if has_key(new_pairs, q) && q != key {
            let j = choose|j: int| 0 <= j < new_pairs.len() && #[trigger] new_pairs[j].0@ == q;
            assert(j != n);
            assert(pairs[j].0@ == q);
        }
    }
    assert forall|q: Seq<char>| #[trigger] new_map.dom().contains(q) implies new_map[q] == old_map.insert(key, value)[q] by {
        if q != key {
            let j = choose|j: int| 0 <= j < pairs.len() && #[trigger] pairs[j].0@ == q;
            lemma_lookup(pairs, j);
            assert(new_pairs[j] == pairs[j]);
            lemma_lookup(new_pairs, j);
        }
    }
    assert(new_map =~= old_map.insert(key, value));
}

} // verus!
