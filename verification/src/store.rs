use vstd::prelude::*;

use crate::errors::ErrorCode;
use crate::listing::Listing;
use crate::listing::ListingKey;

verus! {

/// At most one active listing per key: terminal records may pile up, but
/// a key identifies an active listing uniquely.
pub open spec fn store_wf(s: Seq<Listing>) -> bool {
    forall|i: int, j: int|
        0 <= i < s.len() && 0 <= j < s.len() && i != j && #[trigger] s[i].spec_is_active()
            && #[trigger] s[j].spec_is_active() ==> s[i].spec_key() != s[j].spec_key()
}

/// Whether some active listing is held under the key.
pub open spec fn has_active(s: Seq<Listing>, k: ListingKey) -> bool {
    exists|i: int| 0 <= i < s.len() && #[trigger] s[i].spec_is_active() && s[i].spec_key() == k
}

/// The position of the active listing under the key (meaningful when
/// `has_active` holds; unique by `store_wf`).
pub open spec fn active_index(s: Seq<Listing>, k: ListingKey) -> int {
    choose|i: int| 0 <= i < s.len() && #[trigger] s[i].spec_is_active() && s[i].spec_key() == k
}

/// The active listing under the key (meaningful when `has_active` holds).
pub open spec fn active_listing(s: Seq<Listing>, k: ListingKey) -> Listing {
    s[active_index(s, k)]
}

/// In a well-formed store, any position holding an active listing with
/// key `k` is the position `active_index` picks: the active listing under
/// a key is unique.
pub proof fn lemma_active_index_unique(s: Seq<Listing>, k: ListingKey, i: int)
    requires
        store_wf(s),
        0 <= i < s.len(),
        s[i].spec_is_active(),
        s[i].spec_key() == k,
    ensures
        has_active(s, k),
        active_index(s, k) == i,
        active_listing(s, k) == s[i],
{
    assert(has_active(s, k));
    let j = active_index(s, k);
    assert(0 <= j < s.len() && s[j].spec_is_active() && s[j].spec_key() == k);
    if i != j {
        assert(s[i].spec_key() != s[j].spec_key());
    }
}

/// Whether `x` is one of the active listings `s` holds.
pub open spec fn from_active(s: Seq<Listing>, x: Listing) -> bool {
    exists|j: int| 0 <= j < s.len() && x == #[trigger] s[j] && s[j].spec_is_active()
}

/// The active listings of `s`, in their original order.
pub open spec fn active_only(s: Seq<Listing>) -> Seq<Listing> {
    s.filter(|l: Listing| l.spec_is_active())
}

/// Keeping exactly the active listings of a well-formed store keeps it
/// well-formed, and yields only listings the store already held.
pub proof fn lemma_filter_active_wf(s: Seq<Listing>)
    requires
        store_wf(s),
    ensures
        store_wf(active_only(s)),
        forall|p: int|
            0 <= p < active_only(s).len() ==> from_active(s, #[trigger] active_only(s)[p]),
    decreases s.len(),
{
    reveal(Seq::filter);
    let out = active_only(s);
    if s.len() > 0 {
        let d = s.drop_last();
        assert forall|i: int, j: int|
            0 <= i < d.len() && 0 <= j < d.len() && i != j && #[trigger] d[i].spec_is_active()
                && #[trigger] d[j].spec_is_active() implies d[i].spec_key() != d[j].spec_key() by {
            assert(d[i] == s[i] && d[j] == s[j]);
        }
        lemma_filter_active_wf(d);
        let fd = active_only(d);
        let last = s.last();
        assert forall|p: int| 0 <= p < out.len() implies from_active(s, #[trigger] out[p]) by {
            if last.spec_is_active() && p == out.len() - 1 {
                assert(out[p] == s[s.len() - 1] && s[s.len() - 1].spec_is_active());
            } else {
                assert(out[p] == fd[p]);
                assert(from_active(d, fd[p]));
                let j = choose|j: int| 0 <= j < d.len() && fd[p] == d[j] && d[j].spec_is_active();
                assert(out[p] == s[j] && s[j].spec_is_active());
            }
        }
        assert forall|p: int, q: int|
            0 <= p < out.len() && 0 <= q < out.len() && p != q
                && #[trigger] out[p].spec_is_active()
                && #[trigger] out[q].spec_is_active() implies out[p].spec_key()
            != out[q].spec_key() by {
            if last.spec_is_active() {
                if p < fd.len() && q < fd.len() {
                    assert(fd[p].spec_is_active() && fd[q].spec_is_active());
                } else if q == fd.len() {
                    assert(from_active(d, fd[p]));
                    let j = choose|j: int|
                        0 <= j < d.len() && fd[p] == d[j] && d[j].spec_is_active();
                    assert(d[j] == s[j]);
                    assert(s[j].spec_key() != s[s.len() - 1].spec_key());
                } else {
                    assert(from_active(d, fd[q]));
                    let j = choose|j: int|
                        0 <= j < d.len() && fd[q] == d[j] && d[j].spec_is_active();
                    assert(d[j] == s[j]);
                    assert(s[j].spec_key() != s[s.len() - 1].spec_key());
                }
            } else {
                assert(fd[p].spec_is_active() && fd[q].spec_is_active());
            }
        }
    }
}

/// The keyed collection of listings. Lookups are exact-key and find only
/// active listings; terminal records stay behind for audit until the
/// store is compacted.
pub struct ListingStore {
    listings: Vec<Listing>,
}

impl View for ListingStore {
    type V = Seq<Listing>;

    closed spec fn view(&self) -> Seq<Listing> {
        self.listings@
    }
}

impl ListingStore {
    /// The key-uniqueness invariant, over the store's contents.
    pub open spec fn wf(&self) -> bool {
        store_wf(self@)
    }

    pub fn new() -> (s: ListingStore)
        ensures
            s@ == Seq::<Listing>::empty(),
            s.wf(),
    {
        ListingStore { listings: Vec::new() }
    }

    pub fn len(&self) -> (n: usize)
        ensures
            n == self@.len(),
    {
        self.listings.len()
    }

    /// The listing at a position, active or not.
    pub fn listing_at(&self, i: usize) -> (l: Listing)
        requires
            i < self@.len(),
        ensures
            l == self@[i as int],
    {
        self.listings[i]
    }

    /// Looks up the position of the active listing under a key; `None`
    /// exactly when no active listing carries the key.
    pub fn find_active(&self, key: ListingKey) -> (r: Option<usize>)
        ensures
            match r {
                Some(i) => i < self@.len() && self@[i as int].spec_is_active()
                    && self@[i as int].spec_key() == key,
                None => !has_active(self@, key),
            },
    {
        let n = self.listings.len();
        let mut i: usize = 0;
        while i < n
            invariant
                n == self.listings@.len(),
                i <= n,
                forall|j: int|
                    0 <= j < i ==> !(#[trigger] self.listings@[j].spec_is_active()
                        && self.listings@[j].spec_key() == key),
            decreases n - i,
        {
            let l = self.listings[i];
            if l.is_active() && l.key() == key {
                return Some(i);
            }
            i = i + 1;
        }
        None
    }

    /// The active listing under a key, if any.
    pub fn get(&self, key: ListingKey) -> (r: Option<Listing>)
        requires
            self.wf(),
        ensures
            match r {
                Some(l) => has_active(self@, key) && l == active_listing(self@, key),
                None => !has_active(self@, key),
            },
    {
        match self.find_active(key) {
            Some(i) => {
                let l = self.listings[i];
                proof {
                    lemma_active_index_unique(self@, key, i as int);
                }
                Some(l)
            },
            None => None,
        }
    }

    /// Inserts a fresh active listing; refused when the key is already
    /// occupied by an active listing.
    pub fn insert(&mut self, l: Listing) -> (r: Result<(), ErrorCode>)
        requires
            old(self).wf(),
            l.spec_is_active(),
        ensures
            final(self).wf(),
            has_active(old(self)@, l.spec_key()) ==> r == Err::<(), ErrorCode>(
                ErrorCode::DuplicateListing,
            ) && final(self)@ == old(self)@,
            !has_active(old(self)@, l.spec_key()) ==> r == Ok::<(), ErrorCode>(())
                && final(self)@ == old(self)@.push(l),
    {
        match self.find_active(l.key()) {
            Some(i) => {
                proof {
                    lemma_active_index_unique(self@, l.spec_key(), i as int);
                }
                Err(ErrorCode::DuplicateListing)
            },
            None => {
                self.listings.push(l);
                proof {
                    let s = old(self)@;
                    let t = self@;
                    assert forall|i: int, j: int|
                        0 <= i < t.len() && 0 <= j < t.len() && i != j
                            && #[trigger] t[i].spec_is_active()
                            && #[trigger] t[j].spec_is_active() implies t[i].spec_key()
                        != t[j].spec_key() by {
                        if i < s.len() && j < s.len() {
                            assert(s[i].spec_is_active() && s[j].spec_is_active());
                        } else if j == s.len() {
                            if t[i].spec_key() == l.spec_key() {
                                assert(s[i].spec_is_active() && s[i].spec_key() == l.spec_key());
                                assert(has_active(s, l.spec_key()));
                            }
                        } else {
                            if t[j].spec_key() == l.spec_key() {
                                assert(s[j].spec_is_active() && s[j].spec_key() == l.spec_key());
                                assert(has_active(s, l.spec_key()));
                            }
                        }
                    }
                }
                Ok(())
            },
        }
    }

    /// Reclaims the storage of terminal records: keeps exactly the active
    /// listings, in their original order. Terminal listings are immutable
    /// and no lookup finds them, so dropping them changes no operation's
    /// outcome.
    pub fn reclaim(&mut self)
        requires
            old(self).wf(),
        ensures
            final(self).wf(),
            final(self)@ == active_only(old(self)@),
    {
        let ghost s = self.listings@;
        let n = self.listings.len();
        let mut kept: Vec<Listing> = Vec::new();
        let mut i: usize = 0;
        proof {
            assert(kept@ =~= active_only(s.subrange(0, 0))) by {
                reveal_with_fuel(Seq::filter, 2);
            }
        }
        while i < n
            invariant
                n == self.listings@.len(),
                i <= n,
                self.listings@ == s,
                store_wf(s),
                kept@ == active_only(s.subrange(0, i as int)),
            decreases n - i,
        {
            let l = self.listings[i];
            proof {
                let sub1 = s.subrange(0, i + 1 as int);
                assert(sub1.drop_last() =~= s.subrange(0, i as int));
                assert(sub1.last() == s[i as int]);
                assert(active_only(sub1) == if s[i as int].spec_is_active() {
                    active_only(s.subrange(0, i as int)).push(s[i as int])
                } else {
                    active_only(s.subrange(0, i as int))
                }) by {
                    reveal_with_fuel(Seq::filter, 2);
                }
            }
            if l.is_active() {
                kept.push(l);
            }
            i = i + 1;
        }
        proof {
            assert(s.subrange(0, n as int) =~= s);
            lemma_filter_active_wf(s);
        }
        self.listings = kept;
    }

    /// Replaces the listing at a position with a successor that keeps the
    /// same key and is active only if the old listing was: every
    /// lifecycle transition has this shape, and it preserves the
    /// key-uniqueness invariant.
    pub fn replace_at(&mut self, i: usize, l: Listing)
        requires
            old(self).wf(),
            i < old(self)@.len(),
            l.spec_key() == old(self)@[i as int].spec_key(),
            l.spec_is_active() ==> old(self)@[i as int].spec_is_active(),
        ensures
            final(self).wf(),
            final(self)@ == old(self)@.update(i as int, l),
    {
        self.listings.set(i, l);
        proof {
            let s = old(self)@;
            let t = self@;
            assert forall|p: int, q: int|
                0 <= p < t.len() && 0 <= q < t.len() && p != q && #[trigger] t[p].spec_is_active()
                    && #[trigger] t[q].spec_is_active() implies t[p].spec_key()
                != t[q].spec_key() by {
                if p == i {
                    assert(s[p].spec_is_active() && s[q].spec_is_active());
                } else if q == i {
                    assert(s[p].spec_is_active() && s[q].spec_is_active());
                } else {
                    assert(s[p].spec_is_active() && s[q].spec_is_active());
                }
            }
        }
    }
}

} // verus!
