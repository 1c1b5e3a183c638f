//! Collections keyed by id: a list in which a later entry replaces an earlier one with the
//! same key, as a map filled from the list would hold it.

use vstd::prelude::*;

use crate::model::{Emoji, GuildChannel, Member, Presence, Role, VoiceState};
use crate::seq_lib::{first_match, lemma_first_match_at, lemma_first_match_none};

verus! {

/// A value that carries the id it is stored under.
pub trait Keyed {
    /// The key of the value.
    spec fn key_of(&self) -> u64;

    /// The key of the value.
    fn key(&self) -> (r: u64)
        ensures
            r == self.key_of(),
    ;
}

impl Keyed for GuildChannel {
    open spec fn key_of(&self) -> u64 {
        self.id.0
    }

    fn key(&self) -> (r: u64) {
        self.id.0
    }
}

impl Keyed for Emoji {
    open spec fn key_of(&self) -> u64 {
        self.id.0
    }

    fn key(&self) -> (r: u64) {
        self.id.0
    }
}

impl Keyed for Member {
    open spec fn key_of(&self) -> u64 {
        self.user.id.0
    }

    fn key(&self) -> (r: u64) {
        self.user.id.0
    }
}

impl Keyed for Presence {
    open spec fn key_of(&self) -> u64 {
        self.user_id.0
    }

    fn key(&self) -> (r: u64) {
        self.user_id.0
    }
}

impl Keyed for Role {
    open spec fn key_of(&self) -> u64 {
        self.id.0
    }

    fn key(&self) -> (r: u64) {
        self.id.0
    }
}

impl Keyed for VoiceState {
    open spec fn key_of(&self) -> u64 {
        self.user_id.0
    }

    fn key(&self) -> (r: u64) {
        self.user_id.0
    }
}

/// No key occurs twice in `s`.
pub open spec fn keys_distinct<T: Keyed>(s: Seq<T>) -> bool {
    forall|i: int, j: int| 0 <= i < j < s.len() ==> s[i].key_of() != s[j].key_of()
}

/// Whether some entry of `s` has the key `k`.
pub open spec fn has_key<T: Keyed>(s: Seq<T>, k: u64) -> bool {
    exists|i: int| 0 <= i < s.len() && #[trigger] s[i].key_of() == k
}

/// The entries of `s` with one entry per key: each key in the place where it first
/// occurs, holding the last entry of `s` with that key.
pub open spec fn keep_last_by_key<T: Keyed>(s: Seq<T>) -> Seq<T>
    decreases s.len(),
{
    if s.len() == 0 {
        Seq::empty()
    } else {
        let prev = keep_last_by_key(s.drop_last());
        let x = s.last();
        if has_key(prev, x.key_of()) {
            prev.update(choose|i: int| 0 <= i < prev.len() && #[trigger] prev[i].key_of() == x.key_of(), x)
        } else {
            prev.push(x)
        }
    }
}

/// The last entry of `s` with the key `k`, if any.
pub open spec fn last_with_key<T: Keyed>(s: Seq<T>, k: u64) -> Option<T>
    decreases s.len(),
{
    if s.len() == 0 {
        None
    } else if s.last().key_of() == k {
        Some(s.last())
    } else {
        last_with_key(s.drop_last(), k)
    }
}

/// The entries kept have distinct keys, exactly the keys of `s`, and each is the last
/// entry of `s` with its key.
pub proof fn lemma_keep_last_by_key<T: Keyed>(s: Seq<T>)
    ensures
        keys_distinct(keep_last_by_key(s)),
        forall|k: u64| has_key(keep_last_by_key(s), k) <==> has_key(s, k),
        forall|j: int|
            0 <= j < keep_last_by_key(s).len() ==> last_with_key(
                s,
                (#[trigger] keep_last_by_key(s)[j]).key_of(),
            ) == Some(keep_last_by_key(s)[j]),
    decreases s.len(),
{
    if s.len() > 0 {
        let rest = s.drop_last();
        lemma_keep_last_by_key(rest);
        let prev = keep_last_by_key(rest);
        let x = s.last();
        let r = keep_last_by_key(s);
        assert forall|k: u64| has_key(s, k) <==> (has_key(rest, k) || k == x.key_of()) by {
            if has_key(s, k) {
                let i = choose|i: int| 0 <= i < s.len() && #[trigger] s[i].key_of() == k;
                if i < s.len() - 1 {
                    assert(rest[i] == s[i]);
                }
            }
            if has_key(rest, k) {
                let i = choose|i: int| 0 <= i < rest.len() && #[trigger] rest[i].key_of() == k;
                assert(s[i] == rest[i]);
            }
            if k == x.key_of() {
                assert(s[s.len() - 1].key_of() == k);
            }
        }
        if has_key(prev, x.key_of()) {
            let c = choose|i: int| 0 <= i < prev.len() && #[trigger] prev[i].key_of() == x.key_of();
            assert(r == prev.update(c, x));
            assert forall|k: u64| has_key(r, k) <==> has_key(s, k) by {
                if has_key(r, k) {
                    let i = choose|i: int| 0 <= i < r.len() && #[trigger] r[i].key_of() == k;
                    if i != c {
                        assert(prev[i].key_of() == k);
                    }
                }
                if has_key(prev, k) {
                    let i = choose|i: int| 0 <= i < prev.len() && #[trigger] prev[i].key_of() == k;
                    if i == c {
                        assert(r[c].key_of() == k);
                    } else {
                        assert(r[i].key_of() == k);
                    }
                }
                if k == x.key_of() {
                    assert(r[c].key_of() == k);
                }
            }
            assert forall|j: int|
                0 <= j < r.len() implies last_with_key(s, (#[trigger] r[j]).key_of()) == Some(r[j]) by {
                if j != c {
                    assert(prev[j].key_of() != prev[c].key_of());
                    assert(r[j] == prev[j]);
                }
            }
        } else {
            assert(r == prev.push(x));
            assert forall|k: u64| has_key(r, k) <==> has_key(s, k) by {
                if has_key(r, k) {
                    let i = choose|i: int| 0 <= i < r.len() && #[trigger] r[i].key_of() == k;
                    if i < prev.len() {
                        assert(prev[i].key_of() == k);
                    }
                }
                if has_key(prev, k) {
                    let i = choose|i: int| 0 <= i < prev.len() && #[trigger] prev[i].key_of() == k;
                    assert(r[i].key_of() == k);
                }
                if k == x.key_of() {
                    assert(r[r.len() - 1].key_of() == k);
                }
            }
            assert forall|i: int, j: int| 0 <= i < j < r.len() implies r[i].key_of()
                != r[j].key_of() by {
                if j == r.len() - 1 {
                    assert(prev[i].key_of() == r[i].key_of());
                }
            }
            assert forall|j: int|
                0 <= j < r.len() implies last_with_key(s, (#[trigger] r[j]).key_of()) == Some(r[j]) by {
                if j < prev.len() {
                    assert(r[j] == prev[j]);
                    if prev[j].key_of() == x.key_of() {
                        assert(has_key(prev, x.key_of()));
                    }
                }
            }
        }
    }
}

/// One entry per key of `items`: each key in the place where it first occurs, holding the
/// last entry with that key.
pub fn keep_last<T: Keyed>(items: Vec<T>) -> (r: Vec<T>)
    ensures
        r@ == keep_last_by_key(items@),
{
    let ghost all = items@;
    let ghost mut done: int = 0;
    let mut items = items;
    let mut out: Vec<T> = Vec::new();
    while items.len() > 0
        invariant
            0 <= done <= all.len(),
            items@ == all.skip(done),
            out@ == keep_last_by_key(all.take(done)),
        decreases items.len(),
    {
        proof {
            lemma_keep_last_by_key(all.take(done));
        }
        let x = items.remove(0);
        let key = x.key();
        let mut j: usize = 0;
        let mut found = false;
        while j < out.len()
            invariant
                j <= out@.len(),
                forall|t: int| 0 <= t < j ==> out@[t].key_of() != key,
                found ==> j < out@.len() && out@[j as int].key_of() == key,
            ensures
                found ==> j < out@.len() && out@[j as int].key_of() == key,
                !found ==> forall|t: int| 0 <= t < out@.len() ==> out@[t].key_of() != key,
            decreases out.len() - j,
        {
            if out[j].key() == key {
                found = true;
                break;
            }
            j += 1;
        }
        proof {
            assert(all.take(done + 1).drop_last() =~= all.take(done));
            assert(all.take(done + 1).last() == x);
            assert(items@ =~= all.skip(done + 1));
        }
        if found {
            proof {
                let c = choose|i: int| 0 <= i < out@.len() && #[trigger] out@[i].key_of() == key;
                assert(c == j);
            }
            out.set(j, x);
        } else {
            out.push(x);
        }
        proof {
            done = done + 1;
        }
    }
    proof {
        assert(all.take(done) =~= all);
    }
    out
}

/// No entry of `s` has the key `k` exactly when `s` has no last entry with it.
pub proof fn lemma_last_with_key_none<T: Keyed>(s: Seq<T>, k: u64)
    ensures
        last_with_key(s, k).is_none() <==> !has_key(s, k),
    decreases s.len(),
{
    if s.len() > 0 {
        let rest = s.drop_last();
        lemma_last_with_key_none(rest, k);
        if has_key(rest, k) {
            let i = choose|i: int| 0 <= i < rest.len() && #[trigger] rest[i].key_of() == k;
            assert(s[i] == rest[i]);
        }
        if has_key(s, k) && s.last().key_of() != k {
            let i = choose|i: int| 0 <= i < s.len() && #[trigger] s[i].key_of() == k;
            assert(rest[i] == s[i]);
        }
        if s.last().key_of() == k {
            assert(s[s.len() - 1].key_of() == k);
        }
    }
}

/// Looking a key up in the entries kept, the first entry with the key, finds the last
/// entry of `s` with it.
pub proof fn lemma_keep_last_lookup<T: Keyed>(s: Seq<T>, k: u64)
    ensures
        first_match(keep_last_by_key(s), |x: T| x.key_of() == k) == last_with_key(s, k),
{
    let r = keep_last_by_key(s);
    lemma_keep_last_by_key(s);
    lemma_last_with_key_none(s, k);
    if has_key(s, k) {
        let j = choose|j: int| 0 <= j < r.len() && #[trigger] r[j].key_of() == k;
        assert forall|t: int| 0 <= t < j implies !((|x: T| x.key_of() == k)(#[trigger] r[t])) by {
            assert(r[t].key_of() != r[j].key_of());
        }
        lemma_first_match_at(r, |x: T| x.key_of() == k, j);
    } else {
        assert forall|t: int| 0 <= t < r.len() implies !((|x: T| x.key_of() == k)(#[trigger] r[t])) by {
            if r[t].key_of() == k {
                assert(has_key(r, k));
            }
        }
        lemma_first_match_none(r, |x: T| x.key_of() == k);
    }
}

} // verus!
