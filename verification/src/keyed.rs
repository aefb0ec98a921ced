//! Small keyed collections of the explorer's tree state: a set of keys and a
//! map from keys to lists of names. Keys are host names or (host, schema) pairs.
//! They are kept in vectors: vstd specifies `HashSet` and `HashMap` only for
//! key types with a key model, and `String` has none, so hash collections
//! keyed by names would carry no usable contract.
use vstd::prelude::*;

verus! {

/// A key compared by its view.
pub trait TextKey: View + Sized {
    fn key_eq(&self, other: &Self) -> (r: bool)
        ensures
            r == (self@ == other@),
    ;

    fn key_clone(&self) -> (r: Self)
        ensures
            r@ == self@,
    ;
}

/// Compares two strings character by character.
pub fn str_eq(a: &str, b: &str) -> (r: bool)
    ensures
        r == (a@ == b@),
{
    let va = crate::text::chars_of(a);
    let vb = crate::text::chars_of(b);
    if va.len() != vb.len() {
        return false;
    }
    let mut i: usize = 0;
    while i < va.len()
        invariant
            va@ == a@,
            vb@ == b@,
            va.len() == vb.len(),
            i <= va.len(),
            forall|k: int| 0 <= k < i ==> va@[k] == vb@[k],
        decreases va.len() - i,
    {
        if va[i] != vb[i] {
            return false;
        }
        i = i + 1;
    }
    assert(a@ =~= b@);
    true
}

impl TextKey for String {
    fn key_eq(&self, other: &Self) -> (r: bool) {
        str_eq(self.as_str(), other.as_str())
    }

    fn key_clone(&self) -> (r: Self) {
        self.clone()
    }
}

impl TextKey for (String, String) {
    fn key_eq(&self, other: &Self) -> (r: bool) {
        str_eq(self.0.as_str(), other.0.as_str()) && str_eq(self.1.as_str(), other.1.as_str())
    }

    fn key_clone(&self) -> (r: Self) {
        (self.0.clone(), self.1.clone())
    }
}

/// Copies a list of strings.
pub fn clone_strings(v: &Vec<String>) -> (r: Vec<String>)
    ensures
        r@ == v@,
{
    let mut r: Vec<String> = Vec::new();
    let mut i: usize = 0;
    while i < v.len()
        invariant
            i <= v.len(),
            r@ == v@.take(i as int),
        decreases v.len() - i,
    {
        r.push(v[i].clone());
        assert(v@.take(i + 1) =~= v@.take(i as int).push(v@[i as int]));
        i = i + 1;
    }
    assert(v@.take(v.len() as int) =~= v@);
    r
}

// ------------------------------------------------------------------------
// Sets of keys
// ------------------------------------------------------------------------

/// The set of the views of the items of `s`.
pub open spec fn key_set_view<K: View>(s: Seq<K>) -> Set<K::V> {
    Set::new(|k: K::V| exists|i: int| 0 <= i < s.len() && #[trigger] s[i]@ == k)
}

/// A finite set of keys.
pub struct KeySet<K> {
    items: Vec<K>,
}

impl<K: View> View for KeySet<K> {
    type V = Set<K::V>;

    closed spec fn view(&self) -> Set<K::V> {
        key_set_view(self.items@)
    }
}

impl<K: TextKey> KeySet<K> {
    pub fn new() -> (r: Self)
        ensures
            r@ == Set::<K::V>::empty(),
    {
        let r = KeySet { items: Vec::new() };
        assert(r@ =~= Set::<K::V>::empty());
        r
    }

    pub fn contains(&self, k: &K) -> (r: bool)
        ensures
            r == self@.contains(k@),
    {
        let mut i: usize = 0;
        while i < self.items.len()
            invariant
                i <= self.items.len(),
                forall|j: int| 0 <= j < i ==> self.items@[j]@ != k@,
            decreases self.items.len() - i,
        {
            if self.items[i].key_eq(k) {
                assert(self.items@[i as int]@ == k@);
                return true;
            }
            i = i + 1;
        }
        false
    }

    pub fn insert(&mut self, k: K)
        ensures
            final(self)@ == old(self)@.insert(k@),
    {
        if !self.contains(&k) {
            let ghost old_items = self.items@;
            self.items.push(k);
            assert(self@ =~= old(self)@.insert(k@)) by {
                assert(self.items@.last() == k);
                assert forall|x: K::V| old(self)@.contains(x) implies self@.contains(x) by {
                    let i = choose|i: int| 0 <= i < old_items.len() && #[trigger] old_items[i]@ == x;
                    assert(self.items@[i] == old_items[i]);
                }
                assert forall|x: K::V| self@.contains(x) implies old(self)@.insert(k@).contains(x) by {
                    let i = choose|i: int| 0 <= i < self.items@.len() && #[trigger] self.items@[i]@ == x;
                    if i < old_items.len() {
                        assert(old_items[i] == self.items@[i]);
                    }
                }
            }
        } else {
            assert(old(self)@.insert(k@) =~= old(self)@);
        }
    }

    /// Keeps the keys for which `keep` holds of their view; `keep` is decided by `decide`.
    fn retain_by(&mut self, decide: &impl Fn(&K) -> bool, keep: Ghost<spec_fn(K::V) -> bool>)
        requires
            forall|k: &K| call_requires(decide, (k,)),
            forall|k: &K, r: bool| call_ensures(decide, (k,), r) ==> r == keep@(k@),
        ensures
            final(self)@ == old(self)@.filter(keep@),
    {
        let mut kept: Vec<K> = Vec::new();
        let mut old_items: Vec<K> = Vec::new();
        std::mem::swap(&mut old_items, &mut self.items);
        let ghost src = old_items@;
        let n = old_items.len();
        let mut i: usize = 0;
        while i < n
            invariant
                n == src.len(),
                i <= n,
                old_items@ == src.subrange(i as int, n as int),
                forall|k: &K| call_requires(decide, (k,)),
                forall|k: &K, r: bool| call_ensures(decide, (k,), r) ==> r == keep@(k@),
                key_set_view(kept@) == key_set_view(src.take(i as int)).filter(keep@),
            decreases n - i,
        {
            let ghost before = kept@;
            let item = old_items.remove(0);
            assert(item == src[i as int]);
            let b = decide(&item);
            assert(src.take(i + 1) =~= src.take(i as int).push(item));
            proof {
                lemma_key_set_push(src.take(i as int), item);
            }
            if b {
                kept.push(item);
                proof {
                    lemma_key_set_push(before, item);
                    assert(kept@ =~= before.push(item));
                    assert(key_set_view(kept@) =~= key_set_view(src.take(i + 1)).filter(keep@));
                }
            } else {
                assert(key_set_view(kept@) =~= key_set_view(src.take(i + 1)).filter(keep@));
            }
            assert(old_items@ =~= src.subrange(i + 1, n as int));
            i = i + 1;
        }
        assert(src.take(n as int) =~= src);
        self.items = kept;
    }

    pub fn remove(&mut self, k: &K)
        ensures
            final(self)@ == old(self)@.remove(k@),
    {
        let decide = |x: &K| -> (r: bool)
            ensures
                r == (x@ != k@),
            { !x.key_eq(k) };
        let ghost kv = k@;
        self.retain_by(&decide, Ghost(|x: K::V| x != kv));
        assert(final(self)@ =~= old(self)@.remove(k@));
    }
}

proof fn lemma_key_set_push<K: View>(s: Seq<K>, x: K)
    ensures
        key_set_view(s.push(x)) == key_set_view(s).insert(x@),
{
    let t = s.push(x);
    assert forall|y: K::V| key_set_view(s).contains(y) implies key_set_view(t).contains(y) by {
        let i = choose|i: int| 0 <= i < s.len() && #[trigger] s[i]@ == y;
        assert(t[i] == s[i]);
    }
    assert forall|y: K::V| key_set_view(t).contains(y) implies key_set_view(s).insert(x@).contains(
        y,
    ) by {
        let i = choose|i: int| 0 <= i < t.len() && #[trigger] t[i]@ == y;
        if i < s.len() {
            assert(s[i] == t[i]);
        }
    }
    assert(key_set_view(t).contains(x@)) by {
        assert(t[s.len() as int] == x);
    }
    assert(key_set_view(s.push(x)) =~= key_set_view(s).insert(x@));
}

impl KeySet<String> {
    /// Removes every key that starts with `prefix`.
    pub fn remove_with_prefix(&mut self, prefix: &str)
        ensures
            final(self)@ == old(self)@.filter(|k: Seq<char>| !crate::keyed::is_prefix(prefix@, k)),
    {
        let decide = |x: &String| -> (r: bool)
            ensures
                r == !is_prefix(prefix@, x@),
            { !starts_with(x.as_str(), prefix) };
        self.retain_by(&decide, Ghost(|k: Seq<char>| !is_prefix(prefix@, k)));
    }
}

impl KeySet<(String, String)> {
    /// Removes every pair whose first component is `first`.
    pub fn remove_first(&mut self, first: &String)
        ensures
            final(self)@ == old(self)@.filter(
                |k: (Seq<char>, Seq<char>)| k.0 != first@,
            ),
    {
        let decide = |x: &(String, String)| -> (r: bool)
            ensures
                r == (x@.0 != first@),
            { !x.0.key_eq(first) };
        self.retain_by(&decide, Ghost(|k: (Seq<char>, Seq<char>)| k.0 != first@));
    }
}

/// Whether `p` is a prefix of `s`.
pub open spec fn is_prefix(p: Seq<char>, s: Seq<char>) -> bool {
    p.len() <= s.len() && s.take(p.len() as int) == p
}

/// Whether `s` starts with `p` (`str::starts_with` with a string pattern).
pub fn starts_with(s: &str, p: &str) -> (r: bool)
    ensures
        r == is_prefix(p@, s@),
{
    let vs = crate::text::chars_of(s);
    let vp = crate::text::chars_of(p);
    if vp.len() > vs.len() {
        return false;
    }
    let mut i: usize = 0;
    while i < vp.len()
        invariant
            vs@ == s@,
            vp@ == p@,
            vp.len() <= vs.len(),
            i <= vp.len(),
            forall|k: int| 0 <= k < i ==> vs@[k] == vp@[k],
        decreases vp.len() - i,
    {
        if vs[i] != vp[i] {
            assert(s@.take(p@.len() as int)[i as int] != p@[i as int]);
            return false;
        }
        i = i + 1;
    }
    assert(s@.take(p@.len() as int) =~= p@);
    true
}

// ------------------------------------------------------------------------
// Maps from keys to lists of names
// ------------------------------------------------------------------------

/// The map that a list of entries describes; a later entry for a key replaces an earlier one.
pub open spec fn lists_view<K: View>(s: Seq<(K, Vec<String>)>) -> Map<K::V, Seq<String>>
    decreases s.len(),
{
    if s.len() == 0 {
        Map::empty()
    } else {
        lists_view(s.drop_last()).insert(s.last().0@, s.last().1@)
    }
}

/// A finite map from keys to lists of names.
pub struct KeyedLists<K> {
    entries: Vec<(K, Vec<String>)>,
}

impl<K: View> View for KeyedLists<K> {
    type V = Map<K::V, Seq<String>>;

    closed spec fn view(&self) -> Map<K::V, Seq<String>> {
        lists_view(self.entries@)
    }
}

/// Entries after position `i` that do not carry key `k` leave the value of `k` as it was.
proof fn lemma_lists_suffix<K: View>(s: Seq<(K, Vec<String>)>, i: int, k: K::V)
    requires
        0 <= i <= s.len(),
        forall|j: int| i <= j < s.len() ==> (#[trigger] s[j]).0@ != k,
    ensures
        lists_view(s).contains_key(k) == lists_view(s.take(i)).contains_key(k),
        lists_view(s).contains_key(k) ==> lists_view(s)[k] == lists_view(s.take(i))[k],
    decreases s.len() - i,
{
    if i == s.len() {
        assert(s.take(i) =~= s);
    } else {
        let t = s.drop_last();
        assert forall|j: int| i <= j < t.len() implies (#[trigger] t[j]).0@ != k by {
            assert(t[j] == s[j]);
        }
        lemma_lists_suffix(t, i, k);
        assert(t.take(i) =~= s.take(i));
        assert(s.last() == s[s.len() - 1]);
    }
}

proof fn lemma_lists_push<K: View>(s: Seq<(K, Vec<String>)>, e: (K, Vec<String>))
    ensures
        lists_view(s.push(e)) == lists_view(s).insert(e.0@, e.1@),
{
    assert(s.push(e).drop_last() =~= s);
}

impl<K: TextKey> KeyedLists<K> {
    pub fn new() -> (r: Self)
        ensures
            r@ == Map::<K::V, Seq<String>>::empty(),
    {
        KeyedLists { entries: Vec::new() }
    }

    /// A copy of the list stored under `k`, if any.
    pub fn get(&self, k: &K) -> (r: Option<Vec<String>>)
        ensures
            r is Some == self@.contains_key(k@),
            r matches Some(v) ==> v@ == self@[k@],
    {
        let mut i: usize = self.entries.len();
        while i > 0
            invariant
                i <= self.entries.len(),
                forall|j: int| i <= j < self.entries@.len() ==> (#[trigger] self.entries@[j]).0@ != k@,
            decreases i,
        {
            if self.entries[i - 1].0.key_eq(k) {
                proof {
                    let s = self.entries@;
                    lemma_lists_suffix(s, i as int, k@);
                    assert(s.take(i as int).drop_last() =~= s.take(i - 1));
                    assert(s.take(i as int).last() == s[i - 1]);
                }
                return Some(clone_strings(&self.entries[i - 1].1));
            }
            i = i - 1;
        }
        proof {
            lemma_lists_suffix(self.entries@, 0, k@);
            assert(self.entries@.take(0) =~= Seq::<(K, Vec<String>)>::empty());
        }
        None
    }

    pub fn contains_key(&self, k: &K) -> (r: bool)
        ensures
            r == self@.contains_key(k@),
    {
        self.get(k).is_some()
    }

    /// Keeps the entries whose key view satisfies `keep`, as `decide` decides.
    fn retain_by(&mut self, decide: &impl Fn(&K) -> bool, keep: Ghost<spec_fn(K::V) -> bool>)
        requires
            forall|k: &K| call_requires(decide, (k,)),
            forall|k: &K, r: bool| call_ensures(decide, (k,), r) ==> r == keep@(k@),
        ensures
            final(self)@ == old(self)@.restrict(old(self)@.dom().filter(keep@)),
    {
        let mut kept: Vec<(K, Vec<String>)> = Vec::new();
        let mut old_entries: Vec<(K, Vec<String>)> = Vec::new();
        std::mem::swap(&mut old_entries, &mut self.entries);
        let ghost src = old_entries@;
        let n = old_entries.len();
        let mut i: usize = 0;
        while i < n
            invariant
                n == src.len(),
                i <= n,
                old_entries@ == src.subrange(i as int, n as int),
                forall|k: &K| call_requires(decide, (k,)),
                forall|k: &K, r: bool| call_ensures(decide, (k,), r) ==> r == keep@(k@),
                lists_view(kept@) == lists_view(src.take(i as int)).restrict(
                    lists_view(src.take(i as int)).dom().filter(keep@),
                ),
            decreases n - i,
        {
            let ghost before = kept@;
            let ghost prev = lists_view(src.take(i as int));
            let entry = old_entries.remove(0);
            assert(entry == src[i as int]);
            let b = decide(&entry.0);
            assert(src.take(i + 1) =~= src.take(i as int).push(entry));
            proof {
                lemma_lists_push(src.take(i as int), entry);
            }
            let ghost next = lists_view(src.take(i + 1));
            assert(next == prev.insert(entry.0@, entry.1@));
            if b {
                kept.push(entry);
                proof {
                    lemma_lists_push(before, entry);
                    assert(kept@ =~= before.push(entry));
                    assert(lists_view(kept@) =~= next.restrict(next.dom().filter(keep@)));
                }
            } else {
                assert(lists_view(kept@) =~= next.restrict(next.dom().filter(keep@)));
            }
            assert(old_entries@ =~= src.subrange(i + 1, n as int));
            i = i + 1;
        }
        assert(src.take(n as int) =~= src);
        self.entries = kept;
    }

    pub fn remove(&mut self, k: &K)
        ensures
            final(self)@ == old(self)@.remove(k@),
    {
        let decide = |x: &K| -> (r: bool)
            ensures
                r == (x@ != k@),
            { !x.key_eq(k) };
        let ghost kv = k@;
        self.retain_by(&decide, Ghost(|x: K::V| x != kv));
        assert(final(self)@ =~= old(self)@.remove(k@));
    }

    pub fn insert(&mut self, k: K, v: Vec<String>)
        ensures
            final(self)@ == old(self)@.insert(k@, v@),
    {
        self.remove(&k);
        let ghost before = self.entries@;
        self.entries.push((k, v));
        proof {
            lemma_lists_push(before, (k, v));
        }
        assert(final(self)@ =~= old(self)@.insert(k@, v@));
    }
}

impl KeyedLists<(String, String)> {
    /// Removes every entry whose key's first component is `first`.
    pub fn remove_first(&mut self, first: &String)
        ensures
            final(self)@ == old(self)@.restrict(
                old(self)@.dom().filter(|k: (Seq<char>, Seq<char>)| k.0 != first@),
            ),
    {
        let decide = |x: &(String, String)| -> (r: bool)
            ensures
                r == (x@.0 != first@),
            { !x.0.key_eq(first) };
        self.retain_by(&decide, Ghost(|k: (Seq<char>, Seq<char>)| k.0 != first@));
    }
}

} // verus!
