//! Relations that span aggregates: who follows whom, and who favorited
//! which article.

use vstd::prelude::*;

use crate::identifiers::{ArticleId, UserId};

verus! {

/// The follow relation, as a set of (target, follower) pairs.
#[derive(Debug)]
pub struct FollowerMap {
    pairs: Vec<(UserId, UserId)>,
}

impl FollowerMap {
    /// Whether the follower follows the target.
    pub closed spec fn follows(&self, target_id: UserId, follower_id: UserId) -> bool {
        exists|i: int|
            0 <= i < self.pairs@.len() && #[trigger] self.pairs@[i] == (target_id, follower_id)
    }

    pub fn new() -> (r: FollowerMap)
        ensures
            forall|t: UserId, f: UserId| !r.follows(t, f),
    {
        FollowerMap { pairs: Vec::new() }
    }
}

impl Default for FollowerMap {
    fn default() -> (r: Self)
        ensures
            forall|t: UserId, f: UserId| !r.follows(t, f),
    {
        FollowerMap::new()
    }
}

/// Record that the follower follows the target.
pub fn add_follower(followers: &mut FollowerMap, target_id: UserId, follower_id: UserId)
    ensures
        forall|t: UserId, f: UserId|
            final(followers).follows(t, f) == (old(followers).follows(t, f) || (t == target_id
                && f == follower_id)),
{
    let present = is_following(followers, target_id, follower_id);
    if !present {
        followers.pairs.push((target_id, follower_id));
        proof {
            assert forall|t: UserId, f: UserId|
                final(followers).follows(t, f) == (old(followers).follows(t, f) || (t == target_id
                    && f == follower_id)) by {
                let n = old(followers).pairs@.len() as int;
                assert(followers.pairs@[n] == (target_id, follower_id));
                if followers.follows(t, f) {
                    let i = choose|i: int|
                        0 <= i < followers.pairs@.len() && #[trigger] followers.pairs@[i] == (
                        t,
                        f,
                        );
                    if i < n {
                        assert(old(followers).pairs@[i] == (t, f));
                    }
                }
                if old(followers).follows(t, f) {
                    let i = choose|i: int|
                        0 <= i < old(followers).pairs@.len() && #[trigger] old(
                            followers,
                        ).pairs@[i] == (t, f);
                    assert(followers.pairs@[i] == (t, f));
                }
            }
        }
    }
}

/// Remove the follower from the target's followers, if present.
pub fn remove_follower(followers: &mut FollowerMap, target_id: UserId, follower_id: UserId)
    ensures
        forall|t: UserId, f: UserId|
            final(followers).follows(t, f) == (old(followers).follows(t, f) && !(t == target_id
                && f == follower_id)),
{
    let n: usize = followers.pairs.len();
    let mut out: Vec<(UserId, UserId)> = Vec::new();
    let mut i: usize = 0;
    while i < n
        invariant
            0 <= i <= n,
            n == old(followers).pairs@.len(),
            followers.pairs@ == old(followers).pairs@,
            forall|k: int| 0 <= k < out@.len() ==> (#[trigger] out@[k]) != (target_id, follower_id),
            forall|k: int|
                0 <= k < out@.len() ==> old(followers).pairs@.contains(#[trigger] out@[k]),
            forall|j: int|
                0 <= j < i ==> (#[trigger] old(followers).pairs@[j] == (target_id, follower_id)
                    || out@.contains(old(followers).pairs@[j])),
        decreases n - i,
    {
        let pair = followers.pairs[i];
        let ghost prev_out = out@;
        let is_removed: bool = pair.0.0 == target_id.0 && pair.1.0 == follower_id.0;
        if !is_removed {
            out.push(pair);
        }
        proof {
            assert(followers.pairs@[i as int] == pair);
            if !is_removed {
                assert(out@ == prev_out.push(pair));
                assert(out@[prev_out.len() as int] == pair);
                assert(old(followers).pairs@.contains(pair)) by {
                    assert(old(followers).pairs@[i as int] == pair);
                }
            }
            assert forall|j: int|
                0 <= j <= i implies (#[trigger] old(followers).pairs@[j] == (
                target_id,
                follower_id,
            ) || out@.contains(old(followers).pairs@[j])) by {
                if j < i {
                    if old(followers).pairs@[j] != (target_id, follower_id) {
                        let k = choose|k: int|
                            0 <= k < prev_out.len() && prev_out[k] == old(followers).pairs@[j];
                        assert(out@[k] == old(followers).pairs@[j]);
                    }
                } else {
                    if is_removed {
                        assert(pair == (target_id, follower_id));
                    } else {
                        assert(out@[prev_out.len() as int] == old(followers).pairs@[j]);
                    }
                }
            }
        }
        i = i + 1;
    }
    followers.pairs = out;
    proof {
        assert forall|t: UserId, f: UserId|
            followers.follows(t, f) == (old(followers).follows(t, f) && !(t == target_id && f
                == follower_id)) by {
            if followers.follows(t, f) {
                let k = choose|k: int|
                    0 <= k < followers.pairs@.len() && #[trigger] followers.pairs@[k] == (t, f);
                assert(old(followers).pairs@.contains((t, f)));
                let j = choose|j: int|
                    0 <= j < old(followers).pairs@.len() && old(followers).pairs@[j] == (t, f);
                assert(old(followers).pairs@[j] == (t, f));
            }
            if old(followers).follows(t, f) && !(t == target_id && f == follower_id) {
                let j = choose|j: int|
                    0 <= j < old(followers).pairs@.len() && #[trigger] old(followers).pairs@[j]
                        == (t, f);
                assert(followers.pairs@.contains(old(followers).pairs@[j]));
                let k = choose|k: int|
                    0 <= k < followers.pairs@.len() && followers.pairs@[k] == old(
                        followers,
                    ).pairs@[j];
                assert(followers.pairs@[k] == (t, f));
            }
        }
    }
}

/// Whether the follower follows the target.
pub fn is_following(followers: &FollowerMap, target_id: UserId, follower_id: UserId) -> (r: bool)
    ensures
        r == followers.follows(target_id, follower_id),
{
    let n: usize = followers.pairs.len();
    let mut i: usize = 0;
    while i < n
        invariant
            0 <= i <= n,
            n == followers.pairs@.len(),
            forall|j: int| 0 <= j < i ==> #[trigger] followers.pairs@[j] != (target_id, follower_id),
        decreases n - i,
    {
        let pair = followers.pairs[i];
        if pair.0.0 == target_id.0 && pair.1.0 == follower_id.0 {
            proof {
                assert(followers.pairs@[i as int] == (target_id, follower_id));
            }
            return true;
        }
        i = i + 1;
    }
    false
}

/// The favorite relation, as a set of (article, user) pairs.
#[derive(Debug)]
pub struct FavoriteMap {
    pairs: Vec<(ArticleId, UserId)>,
}

impl FavoriteMap {
    /// Whether the user has favorited the article.
    pub closed spec fn favorited(&self, article_id: ArticleId, user_id: UserId) -> bool {
        exists|i: int|
            0 <= i < self.pairs@.len() && #[trigger] self.pairs@[i] == (article_id, user_id)
    }

    pub fn new() -> (r: FavoriteMap)
        ensures
            forall|a: ArticleId, u: UserId| !r.favorited(a, u),
    {
        FavoriteMap { pairs: Vec::new() }
    }

    /// Record a favorite.
    pub fn add(&mut self, article_id: ArticleId, user_id: UserId)
        ensures
            forall|a: ArticleId, u: UserId|
                final(self).favorited(a, u) == (old(self).favorited(a, u) || (a == article_id && u
                    == user_id)),
    {
        let present = self.contains(article_id, user_id);
        if !present {
            self.pairs.push((article_id, user_id));
            proof {
                assert forall|a: ArticleId, u: UserId|
                    final(self).favorited(a, u) == (old(self).favorited(a, u) || (a == article_id
                        && u == user_id)) by {
                    let n = old(self).pairs@.len() as int;
                    assert(self.pairs@[n] == (article_id, user_id));
                    if self.favorited(a, u) {
                        let i = choose|i: int|
                            0 <= i < self.pairs@.len() && #[trigger] self.pairs@[i] == (a, u);
                        if i < n {
                            assert(old(self).pairs@[i] == (a, u));
                        }
                    }
                    if old(self).favorited(a, u) {
                        let i = choose|i: int|
                            0 <= i < old(self).pairs@.len() && #[trigger] old(self).pairs@[i] == (
                            a,
                            u,
                            );
                        assert(self.pairs@[i] == (a, u));
                    }
                }
            }
        }
    }

    /// Whether the user has favorited the article.
    pub fn contains(&self, article_id: ArticleId, user_id: UserId) -> (r: bool)
        ensures
            r == self.favorited(article_id, user_id),
    {
        let n: usize = self.pairs.len();
        let mut i: usize = 0;
        while i < n
            invariant
                0 <= i <= n,
                n == self.pairs@.len(),
                forall|j: int| 0 <= j < i ==> #[trigger] self.pairs@[j] != (article_id, user_id),
            decreases n - i,
        {
            let pair = self.pairs[i];
            if pair.0.0 == article_id.0 && pair.1.0 == user_id.0 {
                proof {
                    assert(self.pairs@[i as int] == (article_id, user_id));
                }
                return true;
            }
            i = i + 1;
        }
        false
    }
}

impl Default for FavoriteMap {
    fn default() -> (r: Self)
        ensures
            forall|a: ArticleId, u: UserId| !r.favorited(a, u),
    {
        FavoriteMap::new()
    }
}

/// Whether the user has favorited the article.
pub fn is_article_favorited(favorites: &FavoriteMap, article_id: ArticleId, user_id: UserId) -> (r:
    bool)
    ensures
        r == favorites.favorited(article_id, user_id),
{
    favorites.contains(article_id, user_id)
}

} // verus!
