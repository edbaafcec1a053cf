//! The conditional-fetch cache: an in-memory map from a resource URL to the
//! cache-validation token (entity tag) last returned for that URL by a
//! successful response. It is consulted before every request, overwritten
//! only by successful responses, never evicted, and lost on restart.

use vstd::prelude::*;

verus! {

/// Map from URL to last-seen validation token, viewed as a
/// `Map<Seq<char>, Seq<char>>`. The table holds one entry per configured
/// resource, so a linear scan over a vector of pairs is enough.
pub struct EtagCache {
    entries: Vec<(String, String)>,
}

/// The association the entry list denotes: later entries win, though the
/// cache keeps its keys distinct so the order never matters.
spec fn entry_map(s: Seq<(String, String)>) -> Map<Seq<char>, Seq<char>>
    decreases s.len(),
{
    if s.len() == 0 {
        Map::empty()
    } else {
        entry_map(s.drop_last()).insert(s.last().0@, s.last().1@)
    }
}

spec fn distinct_keys(s: Seq<(String, String)>) -> bool {
    forall|i: int, j: int| 0 <= i < j < s.len() ==> s[i].0@ != s[j].0@
}

proof fn lemma_entry_map_absent(s: Seq<(String, String)>, k: Seq<char>)
    requires
        forall|i: int| 0 <= i < s.len() ==> s[i].0@ != k,
    ensures
        !entry_map(s).contains_key(k),
    decreases s.len(),
{
    if s.len() > 0 {
        lemma_entry_map_absent(s.drop_last(), k);
    }
}

proof fn lemma_entry_map_found(s: Seq<(String, String)>, i: int, k: Seq<char>)
    requires
        distinct_keys(s),
        0 <= i < s.len(),
        s[i].0@ == k,
    ensures
        entry_map(s).contains_key(k),
        entry_map(s)[k] == s[i].1@,
    decreases s.len(),
{
    if i == s.len() - 1 {
    } else {
        lemma_entry_map_found(s.drop_last(), i, k);
    }
}

proof fn lemma_entry_map_update(s: Seq<(String, String)>, i: int, p: (String, String))
    requires
        distinct_keys(s),
        0 <= i < s.len(),
        p.0@ == s[i].0@,
    ensures
        entry_map(s.update(i, p)) == entry_map(s).insert(p.0@, p.1@),
    decreases s.len(),
{
    let su = s.update(i, p);
    if i == s.len() - 1 {
        assert(su.drop_last() =~= s.drop_last());
        assert(entry_map(su) =~= entry_map(s).insert(p.0@, p.1@));
    } else {
        assert(su.drop_last() =~= s.drop_last().update(i, p));
        lemma_entry_map_update(s.drop_last(), i, p);
        assert(s.last().0@ != p.0@);
        assert(entry_map(su) =~= entry_map(s).insert(p.0@, p.1@));
    }
}

impl View for EtagCache {
    type V = Map<Seq<char>, Seq<char>>;

    closed spec fn view(&self) -> Map<Seq<char>, Seq<char>> {
        entry_map(self.entries@)
    }
}

impl EtagCache {
    #[verifier::type_invariant]
    spec fn wf(&self) -> bool {
        distinct_keys(self.entries@)
    }

    /// The cold cache every process starts from: no URL has a token.
    pub fn new() -> (r: EtagCache)
        ensures
            r@ == Map::<Seq<char>, Seq<char>>::empty(),
    {
        let r = EtagCache { entries: Vec::new() };
        proof {
            assert(r@ =~= Map::<Seq<char>, Seq<char>>::empty());
        }
        r
    }

    /// The token stored for `url`, if a successful response has supplied one.
    pub fn get<'a>(&'a self, url: &String) -> (r: Option<&'a String>)
        ensures
            match r {
                Some(t) => self@.contains_key(url@) && t@ == self@[url@],
                None => !self@.contains_key(url@),
            },
    {
        proof {
            use_type_invariant(self);
        }
        let n = self.entries.len();
        let mut i: usize = 0;
        while i < n
            invariant
                n == self.entries.len(),
                i <= n,
                distinct_keys(self.entries@),
                forall|j: int| 0 <= j < i ==> self.entries@[j].0@ != url@,
            decreases n - i,
        {
            if self.entries[i].0 == *url {
                proof {
                    lemma_entry_map_found(self.entries@, i as int, url@);
                }
                return Some(&self.entries[i].1);
            }
            i += 1;
        }
        proof {
            lemma_entry_map_absent(self.entries@, url@);
        }
        None
    }

    /// Store `token` for `url`, overwriting whatever was there.
    pub fn put(&mut self, url: &String, token: String)
        ensures
            final(self)@ == old(self)@.insert(url@, token@),
    {
        proof {
            use_type_invariant(&*self);
        }
        let mut entries: Vec<(String, String)> = Vec::new();
        core::mem::swap(&mut entries, &mut self.entries);
        let ghost s0 = entries@;
        let n = entries.len();
        let mut i: usize = 0;
        while i < n
            invariant
                n == entries.len(),
                i <= n,
                entries@ == s0,
                old(self).entries@ == s0,
                distinct_keys(s0),
                forall|j: int| 0 <= j < i ==> s0[j].0@ != url@,
            decreases n - i,
        {
            if entries[i].0 == *url {
                let p = (url.clone(), token);
                proof {
                    lemma_entry_map_update(s0, i as int, p);
                }
                entries.set(i, p);
                proof {
                    assert(distinct_keys(entries@));
                }
                self.entries = entries;
                return;
            }
            i += 1;
        }
        let p = (url.clone(), token);
        entries.push(p);
        proof {
            assert(entries@.drop_last() =~= s0);
            assert(entries@.last() == p);
            assert(entry_map(entries@) == entry_map(s0).insert(url@, token@));
            assert forall|a: int, b: int| 0 <= a < b < entries@.len() implies entries@[a].0@
                != entries@[b].0@ by {
                if b == entries@.len() - 1 {
                    assert(entries@[a].0@ != url@);
                }
            }
        }
        self.entries = entries;
    }
}

} // verus!
