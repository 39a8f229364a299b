//! Lists of optional values, and maps that remember the order of their keys.

use vstd::prelude::*;

use crate::text::chars;

verus! {

/// The values that are there, in order.
pub open spec fn keep_some<T>(s: Seq<Option<T>>) -> Seq<T>
    decreases s.len(),
{
    if s.len() == 0 {
        Seq::empty()
    } else {
        let rest = keep_some(s.drop_last());
        match s.last() {
            Some(x) => rest.push(x),
            None => rest,
        }
    }
}

/// One more element of a list of optional values.
pub proof fn lemma_keep_some_step<T>(s: Seq<Option<T>>, i: int)
    requires
        0 <= i < s.len(),
    ensures
        keep_some(s.take(i + 1)) == match s[i] {
            Some(x) => keep_some(s.take(i)).push(x),
            None => keep_some(s.take(i)),
        },
{
    assert(s.take(i + 1).drop_last() =~= s.take(i));
}

/// A list in which every value is there.
pub proof fn lemma_keep_all<T>(s: Seq<Option<T>>, values: Seq<T>)
    requires
        s.len() == values.len(),
        forall|i: int| 0 <= i < s.len() ==> #[trigger] s[i] == Some(values[i]),
    ensures
        keep_some(s) == values,
    decreases s.len(),
{
    if s.len() > 0 {
        assert(s[s.len() - 1] == Some(values[s.len() - 1]));
        lemma_keep_all(s.drop_last(), values.drop_last());
        assert(values.drop_last().push(values.last()) =~= values);
    } else {
        assert(keep_some(s) =~= values);
    }
}

/// One more element of a filtered list.
pub proof fn lemma_filter_step<T>(s: Seq<T>, p: spec_fn(T) -> bool, i: int)
    requires
        0 <= i < s.len(),
    ensures
        s.take(i + 1).filter(p) == if p(s[i]) {
            s.take(i).filter(p).push(s[i])
        } else {
            s.take(i).filter(p)
        },
{
    reveal(Seq::filter);
    assert(s.take(i + 1).drop_last() =~= s.take(i));
}

/// What can stand as a key of a map.
pub trait Keyed: Sized {
    /// What a key stands for.
    type Key;

    /// What this key stands for.
    spec fn key(&self) -> Self::Key;

    /// Whether both stand for the same.
    fn same_key(&self, other: &Self) -> (r: bool)
        ensures
            r == (self.key() == other.key()),
    ;

    /// Another key that stands for the same.
    fn copy_key(&self) -> (r: Self)
        ensures
            r.key() == self.key(),
    ;
}

impl Keyed for String {
    type Key = Seq<char>;

    open spec fn key(&self) -> Seq<char> {
        self@
    }

    fn same_key(&self, other: &String) -> (r: bool) {
        *self == *other
    }

    fn copy_key(&self) -> (r: String) {
        self.clone()
    }
}

impl Keyed for u16 {
    type Key = u16;

    open spec fn key(&self) -> u16 {
        *self
    }

    fn same_key(&self, other: &u16) -> (r: bool) {
        *self == *other
    }

    fn copy_key(&self) -> (r: u16) {
        *self
    }
}

impl Keyed for u32 {
    type Key = u32;

    open spec fn key(&self) -> u32 {
        *self
    }

    fn same_key(&self, other: &u32) -> (r: bool) {
        *self == *other
    }

    fn copy_key(&self) -> (r: u32) {
        *self
    }
}

/// A map, kept as a list of entries in which no key stands twice.
pub struct Table<K: Keyed, V> {
    entries: Vec<(K, V)>,
}

/// A map with string keys.
pub type StrMap<V> = Table<String, V>;

/// A map whose keys are ports.
pub type PortMap<V> = Table<u16, V>;

/// What a list of keys stands for.
pub open spec fn key_views<K: Keyed>(keys: Seq<K>) -> Seq<K::Key> {
    keys.map_values(|k: K| k.key())
}

/// The keys of a list of entries.
pub closed spec fn entry_keys<K: Keyed, V>(entries: Seq<(K, V)>) -> Seq<K::Key> {
    entries.map_values(|e: (K, V)| e.0.key())
}

/// The map that a list of entries without double keys stands for.
pub closed spec fn entry_map<K: Keyed, V>(entries: Seq<(K, V)>) -> Map<K::Key, V> {
    Map::new(
        |k: K::Key| entry_keys(entries).contains(k),
        |k: K::Key| entries[entry_keys(entries).index_of(k)].1,
    )
}

proof fn lemma_entry<K: Keyed, V>(entries: Seq<(K, V)>, i: int)
    requires
        entry_keys(entries).no_duplicates(),
        0 <= i < entries.len(),
    ensures
        entry_map(entries).dom().contains(entries[i].0.key()),
        entry_map(entries)[entries[i].0.key()] == entries[i].1,
        entry_keys(entries)[i] == entries[i].0.key(),
{
    let keys = entry_keys(entries);
    assert(keys[i] == entries[i].0.key());
    assert(keys.contains(keys[i]));
    let j = keys.index_of(keys[i]);
    assert(keys[j] == keys[i]);
}

/// The entries of a map that a test lets through.
pub open spec fn kept<A, V>(m: Map<A, V>, test: spec_fn(A, V) -> bool) -> Map<A, V> {
    Map::new(|k: A| m.dom().contains(k) && test(k, m[k]), |k: A| m[k])
}

impl<K: Keyed, V> View for Table<K, V> {
    type V = Map<K::Key, V>;

    closed spec fn view(&self) -> Map<K::Key, V> {
        entry_map(self.entries@)
    }
}

impl<K: Keyed, V> Table<K, V> {
    #[verifier::type_invariant]
    spec fn no_double_keys(self) -> bool {
        entry_keys(self.entries@).no_duplicates()
    }

    /// The keys in the order in which they came in.
    pub closed spec fn keys(&self) -> Seq<K::Key> {
        entry_keys(self.entries@)
    }

    /// The empty map.
    pub fn new() -> (m: Table<K, V>)
        ensures
            m@ == Map::<K::Key, V>::empty(),
            m.keys() == Seq::<K::Key>::empty(),
    {
        let m = Table { entries: Vec::new() };
        assert(m.keys() =~= Seq::<K::Key>::empty());
        assert(m@ =~= Map::<K::Key, V>::empty());
        m
    }

    /// The number of keys. No key stands twice, and the keys are those of the
    /// map.
    pub fn len(&self) -> (n: usize)
        ensures
            n == self.keys().len(),
            n == self@.dom().len(),
            self@.dom().finite(),
            self.keys().no_duplicates(),
            self@.dom() == self.keys().to_set(),
    {
        proof {
            use_type_invariant(self);
            let keys = self.keys();
            keys.unique_seq_to_set();
            assert(self@.dom() =~= keys.to_set());
            vstd::seq_lib::seq_to_set_is_finite(keys);
        }
        self.entries.len()
    }

    /// Whether the map has no key.
    pub fn is_empty(&self) -> (r: bool)
        ensures
            r == (self@ == Map::<K::Key, V>::empty()),
            r == (self.keys().len() == 0),
    {
        let n = self.len();
        proof {
            if n == 0 {
                assert(self@ =~= Map::<K::Key, V>::empty());
            } else {
                assert(self.keys().contains(self.keys()[0]));
                assert(self@.dom().contains(self.keys()[0]));
            }
        }
        n == 0
    }

    /// The key at position `i`.
    pub fn key_at(&self, i: usize) -> (k: &K)
        requires
            i < self.keys().len(),
        ensures
            k.key() == self.keys()[i as int],
            self@.dom().contains(k.key()),
    {
        proof {
            use_type_invariant(self);
            lemma_entry(self.entries@, i as int);
        }
        &self.entries[i].0
    }

    /// The value of the key at position `i`.
    pub fn value_at(&self, i: usize) -> (v: &V)
        requires
            i < self.keys().len(),
        ensures
            self@.dom().contains(self.keys()[i as int]),
            *v == self@[self.keys()[i as int]],
    {
        proof {
            use_type_invariant(self);
            lemma_entry(self.entries@, i as int);
        }
        &self.entries[i].1
    }

    /// The position of `key`, or the number of keys where it is absent.
    fn position(&self, key: &K) -> (i: usize)
        ensures
            i <= self.entries@.len(),
            self@.dom().contains(key.key()) <==> i < self.entries@.len(),
            i < self.entries@.len() ==> self.entries@[i as int].0.key() == key.key()
                && self@[key.key()] == self.entries@[i as int].1,
    {
        let mut i: usize = 0;
        while i < self.entries.len()
            invariant
                i <= self.entries@.len(),
                forall|j: int| 0 <= j < i ==> entry_keys(self.entries@)[j] != key.key(),
            decreases self.entries@.len() - i,
        {
            if self.entries[i].0.same_key(key) {
                proof {
                    use_type_invariant(self);
                    lemma_entry(self.entries@, i as int);
                }
                return i;
            }
            i = i + 1;
        }
        i
    }

    /// Whether `key` is in the map.
    pub fn has_key(&self, key: &K) -> (r: bool)
        ensures
            r == self@.dom().contains(key.key()),
    {
        self.position(key) < self.entries.len()
    }

    /// The value of `key`.
    pub fn value_of(&self, key: &K) -> (r: Option<&V>)
        ensures
            r is Some <==> self@.dom().contains(key.key()),
            r matches Some(v) ==> *v == self@[key.key()],
    {
        let i = self.position(key);
        if i < self.entries.len() {
            Some(&self.entries[i].1)
        } else {
            None
        }
    }

    /// Removes `key` and gives its value back.
    pub fn take_out(&mut self, key: &K) -> (r: Option<V>)
        ensures
            final(self)@ == old(self)@.remove(key.key()),
            r is Some <==> old(self)@.dom().contains(key.key()),
            r matches Some(v) ==> v == old(self)@[key.key()],
    {
        proof {
            use_type_invariant(&*self);
        }
        let i = self.position(key);
        if i >= self.entries.len() {
            assert(self@ =~= old(self)@.remove(key.key()));
            return None;
        }
        let ghost before = self.entries@;
        let mut entries: Vec<(K, V)> = Vec::new();
        std::mem::swap(&mut entries, &mut self.entries);
        let entry = entries.remove(i);
        proof {
            lemma_without(before, i as int, key.key());
        }
        self.entries = entries;
        Some(entry.1)
    }

    /// Removes every one of `keys`.
    pub fn remove_each(&mut self, keys: &Vec<K>)
        ensures
            final(self)@ == old(self)@.remove_keys(key_views(keys@).to_set()),
    {
        let ghost before = self@;
        let ghost gone = key_views(keys@);
        let mut i: usize = 0;
        assert(before =~= before.remove_keys(gone.take(0).to_set()));
        while i < keys.len()
            invariant
                i <= keys@.len(),
                gone == key_views(keys@),
                self@ == before.remove_keys(gone.take(i as int).to_set()),
            decreases keys@.len() - i,
        {
            self.take_out(&keys[i]);
            proof {
                let less = gone.take(i as int);
                let more = gone.take(i + 1);
                let k = keys@[i as int].key();
                assert(more =~= less.push(k));
                assert forall|x: K::Key| more.to_set().contains(x) <==> (less.to_set().contains(
                    x,
                ) || x == k) by {
                    if less.contains(x) {
                        let j = less.index_of(x);
                        assert(more[j] == x);
                    }
                    if x == k {
                        assert(more[i as int] == x);
                    }
                    if more.contains(x) && x != k {
                        let j = more.index_of(x);
                        assert(less[j] == x);
                    }
                }
                assert(self@ =~= before.remove_keys(more.to_set()));
            }
            i = i + 1;
        }
        assert(gone.take(gone.len() as int) =~= gone);
    }

    /// Keeps the keys whose position is marked and removes the others, where
    /// the marks are those of a test.
    pub(crate) fn retain_marked(
        &mut self,
        marks: &Vec<bool>,
        Ghost(test): Ghost<spec_fn(K::Key, V) -> bool>,
    )
        requires
            marks@.len() == old(self).keys().len(),
            forall|i: int|
                0 <= i < marks@.len() ==> #[trigger] marks@[i] == test(
                    old(self).keys()[i],
                    old(self)@[old(self).keys()[i]],
                ),
        ensures
            final(self)@ == kept(old(self)@, test),
    {
        let n = self.len();
        let ghost keys = self.keys();
        let ghost before = self@;
        let mut dead: Vec<K> = Vec::new();
        let mut i: usize = 0;
        while i < n
            invariant
                n == keys.len(),
                n == marks@.len(),
                i <= n,
                keys == self.keys(),
                before == self@,
                forall|k: K::Key| #[trigger]
                    key_views(dead@).contains(k) <==> exists|j: int|
                        0 <= j < i && #[trigger] keys[j] == k && !marks@[j],
            decreases n - i,
        {
            let ghost fewer = key_views(dead@);
            if !marks[i] {
                let key = self.key_at(i).copy_key();
                dead.push(key);
                assert(key_views(dead@) =~= fewer.push(keys[i as int]));
            }
            proof {
                lemma_one_more_dead(keys, marks@, fewer, key_views(dead@), i as int);
            }
            i = i + 1;
        }
        self.remove_each(&dead);
        proof {
            assert forall|k: K::Key| self@.dom().contains(k) <==> kept(
                before,
                test,
            ).dom().contains(k) by {
                if before.dom().contains(k) {
                    assert(keys.to_set().contains(k));
                    let j = keys.index_of(k);
                    assert(keys[j] == k);
                    assert(marks@[j] == test(k, before[k]));
                }
            }
            assert(self@ =~= kept(before, test));
        }
    }

    /// Sets the value of `key`, in the old place where the key was there.
    pub fn insert(&mut self, key: K, value: V)
        ensures
            final(self)@ == old(self)@.insert(key.key(), value),
            final(self).keys() == if old(self)@.dom().contains(key.key()) {
                old(self).keys()
            } else {
                old(self).keys().push(key.key())
            },
    {
        proof {
            use_type_invariant(&*self);
        }
        let i = self.position(&key);
        let ghost before = self.entries@;
        let mut entries: Vec<(K, V)> = Vec::new();
        std::mem::swap(&mut entries, &mut self.entries);
        if i < entries.len() {
            entries.set(i, (key, value));
            proof {
                lemma_with(before, i as int, (key, value));
            }
        } else {
            entries.push((key, value));
            proof {
                lemma_more(before, (key, value));
            }
        }
        self.entries = entries;
    }
}

impl<V> Table<String, V> {
    /// The keys in the order in which they came in.
    pub fn names(&self) -> (r: Vec<String>)
        ensures
            chars::views(r@) == self.keys(),
            self.keys().no_duplicates(),
            self.keys().to_set() == self@.dom(),
    {
        let n = self.len();
        let ghost keys = self.keys();
        let mut r: Vec<String> = Vec::new();
        let mut i: usize = 0;
        while i < n
            invariant
                n == keys.len(),
                i <= n,
                keys == self.keys(),
                r@.len() == i,
                forall|j: int| 0 <= j < i ==> (#[trigger] r@[j])@ == keys[j],
            decreases n - i,
        {
            r.push(self.key_at(i).clone());
            i = i + 1;
        }
        assert(chars::views(r@) =~= keys);
        r
    }

    /// Whether `key` is in the map.
    pub fn contains_key(&self, key: &str) -> (r: bool)
        ensures
            r == self@.dom().contains(key@),
    {
        let wanted = key.to_owned();
        self.has_key(&wanted)
    }

    /// The value of `key`.
    pub fn get(&self, key: &str) -> (r: Option<&V>)
        ensures
            r is Some <==> self@.dom().contains(key@),
            r matches Some(v) ==> *v == self@[key@],
    {
        let wanted = key.to_owned();
        self.value_of(&wanted)
    }

    /// Removes `key` and gives its value back.
    pub fn remove(&mut self, key: &str) -> (r: Option<V>)
        ensures
            final(self)@ == old(self)@.remove(key@),
            r is Some <==> old(self)@.dom().contains(key@),
            r matches Some(v) ==> v == old(self)@[key@],
    {
        let wanted = key.to_owned();
        self.take_out(&wanted)
    }
}

proof fn lemma_one_more_dead<A>(
    keys: Seq<A>,
    marks: Seq<bool>,
    fewer: Seq<A>,
    more: Seq<A>,
    i: int,
)
    requires
        0 <= i < keys.len(),
        keys.len() == marks.len(),
        more == if marks[i] {
            fewer
        } else {
            fewer.push(keys[i])
        },
        forall|k: A| #[trigger]
            fewer.contains(k) <==> exists|j: int|
                0 <= j < i && #[trigger] keys[j] == k && !marks[j],
    ensures
        forall|k: A| #[trigger]
            more.contains(k) <==> exists|j: int|
                0 <= j < i + 1 && #[trigger] keys[j] == k && !marks[j],
{
    assert forall|k: A| #[trigger] more.contains(k) <==> exists|j: int|
        0 <= j < i + 1 && #[trigger] keys[j] == k && !marks[j] by {
        if more.contains(k) {
            if fewer.contains(k) {
                let j = choose|j: int| 0 <= j < i && #[trigger] keys[j] == k && !marks[j];
                assert(keys[j] == k);
            } else {
                assert(keys[i] == k);
            }
        }
        if exists|j: int| 0 <= j < i + 1 && #[trigger] keys[j] == k && !marks[j] {
            let j = choose|j: int| 0 <= j < i + 1 && #[trigger] keys[j] == k && !marks[j];
            if j < i {
                assert(fewer.contains(k));
                assert(more[fewer.index_of(k)] == k);
            } else {
                assert(more[more.len() - 1] == k);
            }
        }
    }
}

proof fn lemma_without<K: Keyed, V>(entries: Seq<(K, V)>, i: int, key: K::Key)
    requires
        entry_keys(entries).no_duplicates(),
        0 <= i < entries.len(),
        entries[i].0.key() == key,
    ensures
        entry_keys(entries.remove(i)).no_duplicates(),
        entry_map(entries.remove(i)) == entry_map(entries).remove(key),
{
    let less = entries.remove(i);
    let keys = entry_keys(entries);
    let lkeys = entry_keys(less);
    assert forall|a: int, b: int| 0 <= a < lkeys.len() && 0 <= b < lkeys.len() && a != b implies
        lkeys[a] != lkeys[b] by {
        let a2 = if a < i { a } else { a + 1 };
        let b2 = if b < i { b } else { b + 1 };
        assert(lkeys[a] == keys[a2]);
        assert(lkeys[b] == keys[b2]);
    }
    let m = entry_map(entries).remove(key);
    assert forall|k: K::Key| entry_map(less).dom().contains(k) <==> m.dom().contains(k) by {
        if lkeys.contains(k) {
            let j = lkeys.index_of(k);
            let j2 = if j < i { j } else { j + 1 };
            assert(keys[j2] == k);
            assert(keys[i] == key);
        }
        if keys.contains(k) && k != key {
            let j = keys.index_of(k);
            assert(keys[i] == key);
            let j2 = if j < i { j } else { j - 1 };
            assert(lkeys[j2] == k);
        }
    }
    assert forall|k: K::Key| entry_map(less).dom().contains(k) implies entry_map(less)[k]
        == m[k] by {
        let j = lkeys.index_of(k);
        let j2 = if j < i { j } else { j + 1 };
        assert(lkeys[j] == k);
        lemma_entry(less, j);
        lemma_entry(entries, j2);
        lemma_entry(entries, i);
        assert(less[j] == entries[j2]);
        assert(keys[j2] == k && keys[i] == key);
    }
    assert(entry_map(less) =~= m);
}

proof fn lemma_with<K: Keyed, V>(entries: Seq<(K, V)>, i: int, e: (K, V))
    requires
        entry_keys(entries).no_duplicates(),
        0 <= i < entries.len(),
        entries[i].0.key() == e.0.key(),
    ensures
        entry_keys(entries.update(i, e)) == entry_keys(entries),
        entry_map(entries.update(i, e)) == entry_map(entries).insert(e.0.key(), e.1),
{
    let more = entries.update(i, e);
    assert(entry_keys(more) =~= entry_keys(entries));
    lemma_entry(more, i);
    lemma_entry(entries, i);
    let m = entry_map(entries).insert(e.0.key(), e.1);
    assert forall|k: K::Key| entry_map(more).dom().contains(k) implies entry_map(more)[k]
        == m[k] by {
        let j = entry_keys(more).index_of(k);
        lemma_entry(more, j);
        lemma_entry(entries, j);
    }
    assert(entry_map(more) =~= m);
}

proof fn lemma_more<K: Keyed, V>(entries: Seq<(K, V)>, e: (K, V))
    requires
        entry_keys(entries).no_duplicates(),
        !entry_map(entries).dom().contains(e.0.key()),
    ensures
        entry_keys(entries.push(e)) == entry_keys(entries).push(e.0.key()),
        entry_keys(entries.push(e)).no_duplicates(),
        entry_map(entries.push(e)) == entry_map(entries).insert(e.0.key(), e.1),
{
    let more = entries.push(e);
    let keys = entry_keys(entries);
    let mkeys = entry_keys(more);
    assert(mkeys =~= keys.push(e.0.key()));
    assert(!keys.contains(e.0.key()));
    assert forall|a: int, b: int| 0 <= a < mkeys.len() && 0 <= b < mkeys.len() && a != b implies
        mkeys[a] != mkeys[b] by {
        if a < keys.len() {
            assert(keys.contains(keys[a]));
        }
        if b < keys.len() {
            assert(keys.contains(keys[b]));
        }
    }
    let m = entry_map(entries).insert(e.0.key(), e.1);
    lemma_entry(more, entries.len() as int);
    assert forall|k: K::Key| entry_map(more).dom().contains(k) <==> m.dom().contains(k) by {
        if keys.contains(k) {
            let j = keys.index_of(k);
            assert(mkeys[j] == k);
        }
        if mkeys.contains(k) && k != e.0.key() {
            let j = mkeys.index_of(k);
            assert(keys[j] == k);
        }
    }
    assert forall|k: K::Key| entry_map(more).dom().contains(k) implies entry_map(more)[k]
        == m[k] by {
        let j = mkeys.index_of(k);
        lemma_entry(more, j);
        if j < entries.len() {
            lemma_entry(entries, j);
        }
    }
    assert(entry_map(more) =~= m);
}

} // verus!
