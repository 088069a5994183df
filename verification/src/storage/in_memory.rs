use vstd::prelude::*;

use crate::app::generate_url::GenerateShortUrlRepository;
use crate::app::get_full_url::GetFullUrlRepository;
use crate::storage::error::StorageError;

verus! {

/// The mapping that a list of `(identifier, url)` entries denotes: each entry
/// is inserted in order, so a later entry for a key overwrites an earlier one.
spec fn entries_map(s: Seq<(String, String)>) -> Map<Seq<char>, Seq<char>>
    decreases s.len(),
{
    if s.len() == 0 {
        Map::empty()
    } else {
        entries_map(s.drop_last()).insert(s.last().0@, s.last().1@)
    }
}

/// No two entries carry the same identifier.
spec fn unique_keys(s: Seq<(String, String)>) -> bool {
    forall|i: int, j: int| 0 <= i < j < s.len() ==> s[i].0@ != s[j].0@
}

proof fn lemma_unique_keys_drop_last(s: Seq<(String, String)>)
    requires
        unique_keys(s),
        s.len() > 0,
    ensures
        unique_keys(s.drop_last()),
{
    assert forall|i: int, j: int|
        0 <= i < j < s.drop_last().len() implies s.drop_last()[i].0@ != s.drop_last()[j].0@ by {
        assert(s.drop_last()[i] == s[i]);
        assert(s.drop_last()[j] == s[j]);
    }
}

/// A key is in the denoted mapping exactly when some entry carries it.
proof fn lemma_entries_map_contains(s: Seq<(String, String)>, k: Seq<char>)
    ensures
        entries_map(s).contains_key(k) <==> exists|i: int| 0 <= i < s.len() && s[i].0@ == k,
    decreases s.len(),
{
    if s.len() > 0 {
        lemma_entries_map_contains(s.drop_last(), k);
        if s.last().0@ == k {
            assert(s[s.len() - 1].0@ == k);
        } else {
            if exists|i: int| 0 <= i < s.len() && s[i].0@ == k {
                let i = choose|i: int| 0 <= i < s.len() && s[i].0@ == k;
                assert(s.drop_last()[i] == s[i]);
            }
            if exists|i: int| 0 <= i < s.drop_last().len() && s.drop_last()[i].0@ == k {
                let i = choose|i: int| 0 <= i < s.drop_last().len() && s.drop_last()[i].0@ == k;
                assert(s.drop_last()[i] == s[i]);
            }
        }
    }
}

/// With unique keys, the mapping sends each entry's key to that entry's URL.
proof fn lemma_entries_map_index(s: Seq<(String, String)>, i: int)
    requires
        unique_keys(s),
        0 <= i < s.len(),
    ensures
        entries_map(s).contains_key(s[i].0@),
        entries_map(s)[s[i].0@] == s[i].1@,
    decreases s.len(),
{
    if i < s.len() - 1 {
        lemma_unique_keys_drop_last(s);
        lemma_entries_map_index(s.drop_last(), i);
        assert(s.drop_last()[i] == s[i]);
        assert(s[i].0@ != s.last().0@);
    }
}

proof fn lemma_entries_map_finite(s: Seq<(String, String)>)
    ensures
        entries_map(s).dom().finite(),
    decreases s.len(),
{
    if s.len() > 0 {
        lemma_entries_map_finite(s.drop_last());
    }
}

/// With unique keys, the mapping has exactly one element per entry.
proof fn lemma_entries_map_len(s: Seq<(String, String)>)
    requires
        unique_keys(s),
    ensures
        entries_map(s).len() == s.len(),
    decreases s.len(),
{
    if s.len() == 0 {
        assert(entries_map(s).dom() =~= Set::<Seq<char>>::empty());
    } else {
        lemma_unique_keys_drop_last(s);
        lemma_entries_map_len(s.drop_last());
        lemma_entries_map_finite(s.drop_last());
        lemma_entries_map_contains(s.drop_last(), s.last().0@);
        assert forall|i: int| 0 <= i < s.drop_last().len() implies s.drop_last()[i].0@
            != s.last().0@ by {
            assert(s.drop_last()[i] == s[i]);
        }
        assert(!entries_map(s.drop_last()).contains_key(s.last().0@));
        vstd::set::axiom_set_insert_len(entries_map(s.drop_last()).dom(), s.last().0@);
        assert(entries_map(s).dom() =~= entries_map(s.drop_last()).dom().insert(s.last().0@));
    }
}

/// Overwriting the URL of the entry that already carries a key denotes the
/// same mapping as inserting the pair.
proof fn lemma_entries_map_update(s: Seq<(String, String)>, i: int, v: (String, String))
    requires
        unique_keys(s),
        0 <= i < s.len(),
        s[i].0@ == v.0@,
    ensures
        entries_map(s.update(i, v)) == entries_map(s).insert(v.0@, v.1@),
    decreases s.len(),
{
    let t = s.update(i, v);
    assert(t.len() == s.len());
    if i == s.len() - 1 {
        assert(t.drop_last() =~= s.drop_last());
        assert(t.last() == v);
        assert(entries_map(t) =~= entries_map(s).insert(v.0@, v.1@));
    } else {
        lemma_unique_keys_drop_last(s);
        assert(t.drop_last() =~= s.drop_last().update(i, v));
        assert(t.last() == s.last());
        assert(s.drop_last()[i] == s[i]);
        lemma_entries_map_update(s.drop_last(), i, v);
        assert(s[i].0@ != s.last().0@);
        assert(entries_map(t) =~= entries_map(s).insert(v.0@, v.1@));
    }
}

/// The in-memory store: an append-only list of entries with pairwise distinct
/// identifiers, owned outright. Callers that share it across threads wrap it
/// in a lock of their own; each operation here is one atomic step on the
/// mapping.
pub struct InMemoryRepository {
    store: Vec<(String, String)>,
}

impl View for InMemoryRepository {
    type V = Map<Seq<char>, Seq<char>>;

    closed spec fn view(&self) -> Map<Seq<char>, Seq<char>> {
        entries_map(self.store@)
    }
}

impl InMemoryRepository {
    /// The store's invariant: identifiers are unique within the store.
    pub closed spec fn wf(&self) -> bool {
        unique_keys(self.store@)
    }

    /// A fresh, empty store.
    pub fn new() -> (r: Self)
        ensures
            r.wf(),
            r@ == Map::<Seq<char>, Seq<char>>::empty(),
    {
        InMemoryRepository { store: Vec::new() }
    }

    /// How many identifiers the store currently holds.
    pub fn len(&self) -> (n: usize)
        requires
            self.wf(),
        ensures
            n == self@.len(),
    {
        proof {
            lemma_entries_map_len(self.store@);
        }
        self.store.len()
    }

    /// The store always denotes a finite mapping.
    pub proof fn lemma_view_finite(&self)
        ensures
            self@.dom().finite(),
    {
        lemma_entries_map_finite(self.store@);
    }
}

impl GenerateShortUrlRepository for InMemoryRepository {
    open spec fn inv(&self) -> bool {
        self.wf()
    }

    open spec fn stored(&self) -> Map<Seq<char>, Seq<char>> {
        self@
    }

    open spec fn save_total(&self) -> bool {
        true
    }

    fn save(&mut self, short_url: String, full_url: String) -> (r: Result<(), StorageError>) {
        let n = self.store.len();
        let mut i: usize = 0;
        while i < n
            invariant
                self == old(self),
                self.wf(),
                n == self.store@.len(),
                i <= n,
                forall|j: int| 0 <= j < i ==> self.store@[j].0@ != short_url@,
            decreases n - i,
        {
            if self.store[i].0 == short_url {
                proof {
                    let pre = self.store@;
                    lemma_entries_map_update(pre, i as int, (pre[i as int].0, full_url));
                }
                self.store[i].1 = full_url;
                proof {
                    let pre = old(self).store@;
                    assert(self.store@ == pre.update(i as int, (pre[i as int].0, full_url)));
                    assert forall|x: int, y: int|
                        0 <= x < y < self.store@.len() implies self.store@[x].0@
                        != self.store@[y].0@ by {
                        assert(self.store@[x].0@ == pre[x].0@);
                        assert(self.store@[y].0@ == pre[y].0@);
                    }
                }
                return Ok(());
            }
            i += 1;
        }
        proof {
            let pre = old(self).store@;
            lemma_entries_map_contains(pre, short_url@);
        }
        self.store.push((short_url, full_url));
        proof {
            let pre = old(self).store@;
            assert(self.store@.drop_last() =~= pre);
            assert forall|x: int, y: int|
                0 <= x < y < self.store@.len() implies self.store@[x].0@
                != self.store@[y].0@ by {
                if y < self.store@.len() - 1 {
                    assert(self.store@[x] == pre[x]);
                    assert(self.store@[y] == pre[y]);
                } else {
                    assert(self.store@[x] == pre[x]);
                }
            }
        }
        Ok(())
    }
}

impl GetFullUrlRepository for InMemoryRepository {
    open spec fn inv(&self) -> bool {
        self.wf()
    }

    open spec fn entries(&self) -> Map<Seq<char>, Seq<char>> {
        self@
    }

    open spec fn lookup_total(&self) -> bool {
        true
    }

    fn get(&self, short_url: &str) -> (r: Result<String, StorageError>) {
        let key = short_url.to_owned();
        let n = self.store.len();
        let mut i: usize = 0;
        while i < n
            invariant
                key@ == short_url@,
                n == self.store@.len(),
                i <= n,
                self.wf(),
                forall|j: int| 0 <= j < i ==> self.store@[j].0@ != short_url@,
            decreases n - i,
        {
            if self.store[i].0 == key {
                let full_url = self.store[i].1.clone();
                proof {
                    lemma_entries_map_index(self.store@, i as int);
                }
                return Ok(full_url);
            }
            i += 1;
        }
        proof {
            lemma_entries_map_contains(self.store@, short_url@);
        }
        Err(StorageError::NotFound)
    }
}

} // verus!
