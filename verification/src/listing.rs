//! Article listing over an in-memory snapshot: filtering, pagination and
//! summary assembly. The host's store takes its snapshots under a lock and
//! hands them in; every decision about what the page holds is made — and
//! proved — here.

use vstd::prelude::*;

use crate::article::{Article, ArticleFilters, ArticleSummary, ArticlesEnvelope, FeedFilters};
use crate::identifiers::UserId;
use crate::services::{FavoriteMap, FollowerMap};
use crate::user::{opt_image_view, opt_str_view, User};

verus! {

/// The first user carrying the username.
pub open spec fn user_by_name(users: Seq<User>, name: Seq<char>) -> Option<User>
    decreases users.len(),
{
    if users.len() == 0 {
        None
    } else if users[0].username@ == name {
        Some(users[0])
    } else {
        user_by_name(users.drop_first(), name)
    }
}

/// The first user carrying the id.
pub open spec fn user_by_id(users: Seq<User>, id: UserId) -> Option<User>
    decreases users.len(),
{
    if users.len() == 0 {
        None
    } else if users[0].id == id {
        Some(users[0])
    } else {
        user_by_id(users.drop_first(), id)
    }
}

proof fn lemma_user_by_name_at(users: Seq<User>, name: Seq<char>, i: int)
    requires
        0 <= i < users.len(),
        forall|j: int| 0 <= j < i ==> (#[trigger] users[j]).username@ != name,
        users[i].username@ == name,
    ensures
        user_by_name(users, name) == Some(users[i]),
    decreases i,
{
    if i > 0 {
        let t = users.drop_first();
        assert(forall|j: int| 0 <= j < i - 1 ==> #[trigger] t[j] == users[j + 1]);
        lemma_user_by_name_at(t, name, i - 1);
    }
}

proof fn lemma_user_by_name_none(users: Seq<User>, name: Seq<char>)
    requires
        forall|j: int| 0 <= j < users.len() ==> (#[trigger] users[j]).username@ != name,
    ensures
        user_by_name(users, name) is None,
    decreases users.len(),
{
    if users.len() > 0 {
        let t = users.drop_first();
        assert(forall|j: int| 0 <= j < t.len() ==> #[trigger] t[j] == users[j + 1]);
        lemma_user_by_name_none(t, name);
    }
}

proof fn lemma_user_by_id_at(users: Seq<User>, id: UserId, i: int)
    requires
        0 <= i < users.len(),
        forall|j: int| 0 <= j < i ==> (#[trigger] users[j]).id != id,
        users[i].id == id,
    ensures
        user_by_id(users, id) == Some(users[i]),
    decreases i,
{
    if i > 0 {
        let t = users.drop_first();
        assert(forall|j: int| 0 <= j < i - 1 ==> #[trigger] t[j] == users[j + 1]);
        lemma_user_by_id_at(t, id, i - 1);
    }
}

proof fn lemma_user_by_id_none(users: Seq<User>, id: UserId)
    requires
        forall|j: int| 0 <= j < users.len() ==> (#[trigger] users[j]).id != id,
    ensures
        user_by_id(users, id) is None,
    decreases users.len(),
{
    if users.len() > 0 {
        let t = users.drop_first();
        assert(forall|j: int| 0 <= j < t.len() ==> #[trigger] t[j] == users[j + 1]);
        lemma_user_by_id_none(t, id);
    }
}

fn find_user_by_username<'a>(users: &'a Vec<User>, name: &str) -> (r: Option<&'a User>)
    ensures
        match r {
            Some(u) => user_by_name(users@, name@) == Some(*u),
            None => user_by_name(users@, name@) is None,
        },
{
    let n: usize = users.len();
    let mut i: usize = 0;
    while i < n
        invariant
            0 <= i <= n,
            n == users@.len(),
            forall|j: int| 0 <= j < i ==> (#[trigger] users@[j]).username@ != name@,
        decreases n - i,
    {
        if users[i].username.as_str().eq(name) {
            proof {
                lemma_user_by_name_at(users@, name@, i as int);
            }
            return Some(&users[i]);
        }
        i = i + 1;
    }
    proof {
        lemma_user_by_name_none(users@, name@);
    }
    None
}

fn find_user_by_id<'a>(users: &'a Vec<User>, id: UserId) -> (r: Option<&'a User>)
    ensures
        match r {
            Some(u) => user_by_id(users@, id) == Some(*u),
            None => user_by_id(users@, id) is None,
        },
{
    let n: usize = users.len();
    let mut i: usize = 0;
    while i < n
        invariant
            0 <= i <= n,
            n == users@.len(),
            forall|j: int| 0 <= j < i ==> (#[trigger] users@[j]).id != id,
        decreases n - i,
    {
        if users[i].id.0 == id.0 {
            proof {
                lemma_user_by_id_at(users@, id, i as int);
            }
            return Some(&users[i]);
        }
        i = i + 1;
    }
    proof {
        lemma_user_by_id_none(users@, id);
    }
    None
}

/// Whether an article passes the list filters: carrying the tag, authored by
/// the named user, and favorited by the named user — a filter naming an
/// unknown user matches nothing.
pub open spec fn article_passes(
    a: Article,
    users: Seq<User>,
    favorites: FavoriteMap,
    filters: ArticleFilters,
) -> bool {
    (match filters.tag {
        None => true,
        Some(t) => a.tag_list@.contains(t@),
    }) && (match filters.author {
        None => true,
        Some(name) => match user_by_name(users, name@) {
            None => false,
            Some(u) => a.author_id == u.id,
        },
    }) && (match filters.favorited {
        None => true,
        Some(name) => match user_by_name(users, name@) {
            None => false,
            Some(u) => favorites.favorited(a.id, u.id),
        },
    })
}

/// The articles that pass the list filters, in their stored order.
pub open spec fn passing_articles(
    articles: Seq<Article>,
    users: Seq<User>,
    favorites: FavoriteMap,
    filters: ArticleFilters,
) -> Seq<Article>
    decreases articles.len(),
{
    if articles.len() == 0 {
        Seq::empty()
    } else {
        let p = passing_articles(articles.drop_last(), users, favorites, filters);
        if article_passes(articles.last(), users, favorites, filters) {
            p.push(articles.last())
        } else {
            p
        }
    }
}

/// Whether an article belongs to the viewer's feed: written by someone the
/// viewer follows.
pub open spec fn feed_passes(a: Article, followers: FollowerMap, viewer: UserId) -> bool {
    followers.follows(a.author_id, viewer)
}

/// The articles of the viewer's feed, in their stored order.
pub open spec fn feed_articles_of(
    articles: Seq<Article>,
    followers: FollowerMap,
    viewer: UserId,
) -> Seq<Article>
    decreases articles.len(),
{
    if articles.len() == 0 {
        Seq::empty()
    } else {
        let p = feed_articles_of(articles.drop_last(), followers, viewer);
        if feed_passes(articles.last(), followers, viewer) {
            p.push(articles.last())
        } else {
            p
        }
    }
}

/// The page a pagination request selects: `limit` entries from `offset` on,
/// clipped to what is there; an offset past the end selects nothing.
pub open spec fn page_of<T>(s: Seq<T>, offset: int, limit: int) -> Seq<T> {
    if offset >= s.len() {
        Seq::empty()
    } else if offset + limit >= s.len() {
        s.subrange(offset, s.len() as int)
    } else {
        s.subrange(offset, offset + limit)
    }
}

/// The page entries whose author is known, each paired with its author.
pub open spec fn with_known_authors(page: Seq<Article>, users: Seq<User>) -> Seq<(Article, User)>
    decreases page.len(),
{
    if page.len() == 0 {
        Seq::empty()
    } else {
        let p = with_known_authors(page.drop_last(), users);
        match user_by_id(users, page.last().author_id) {
            None => p,
            Some(u) => p.push((page.last(), u)),
        }
    }
}

/// Whether a summary renders the article, presented by its author with the
/// given follow and favorite flags.
pub open spec fn summary_renders(
    s: ArticleSummary,
    a: Article,
    u: User,
    following: bool,
    favorited: bool,
) -> bool {
    s.slug@ == a.slug@ && s.title@ == a.title@ && s.description@ == a.description@ && s.tag_list@
        == a.tag_list@ && s.created_at == a.created_at && s.updated_at == a.updated_at
        && s.favorited == favorited && s.favorites_count == a.favorites_count
        && s.author.username@ == u.username@ && opt_str_view(s.author.bio) == opt_str_view(u.bio)
        && opt_image_view(s.author.image) == opt_image_view(u.image) && s.author.following
        == following
}

/// List articles from a snapshot: filter, count, paginate, and render each
/// page entry whose author is known. The count reports every passing
/// article, not only the page.
pub fn list_articles(
    articles: &Vec<Article>,
    users: &Vec<User>,
    favorites: &FavoriteMap,
    filters: &ArticleFilters,
) -> (r: ArticlesEnvelope)
    ensures
        ({
            let passing = passing_articles(articles@, users@, *favorites, *filters);
            let page = page_of(
                passing,
                filters.pagination.offset as int,
                filters.pagination.limit as int,
            );
            let pairs = with_known_authors(page, users@);
            r.articles_count == passing.len() && r.articles@.len() == pairs.len() && (forall|
                k: int,
            |
                0 <= k < pairs.len() ==> summary_renders(
                    #[trigger] r.articles@[k],
                    pairs[k].0,
                    pairs[k].1,
                    false,
                    false,
                ))
        }),
{
    let ghost passing = passing_articles(articles@, users@, *favorites, *filters);
    let author_user: Option<&User> = match &filters.author {
        Some(name) => find_user_by_username(users, name.as_str()),
        None => None,
    };
    let favorited_user: Option<&User> = match &filters.favorited {
        Some(name) => find_user_by_username(users, name.as_str()),
        None => None,
    };
    let n: usize = articles.len();
    let mut kept: Vec<usize> = Vec::new();
    let mut i: usize = 0;
    proof {
        assert(articles@.take(0) =~= Seq::<Article>::empty());
    }
    while i < n
        invariant
            0 <= i <= n,
            n == articles@.len(),
            ({
                let p = passing_articles(articles@.take(i as int), users@, *favorites, *filters);
                kept@.len() == p.len() && (forall|m: int|
                    0 <= m < kept@.len() ==> (#[trigger] kept@[m]) < n && articles@[kept@[m] as int]
                        == p[m])
            }),
            match filters.author {
                Some(name) => match author_user {
                    Some(u) => user_by_name(users@, name@) == Some(*u),
                    None => user_by_name(users@, name@) is None,
                },
                None => true,
            },
            match filters.favorited {
                Some(name) => match favorited_user {
                    Some(u) => user_by_name(users@, name@) == Some(*u),
                    None => user_by_name(users@, name@) is None,
                },
                None => true,
            },
        decreases n - i,
    {
        let a = &articles[i];
        let tag_ok: bool = match &filters.tag {
            None => true,
            Some(t) => a.tag_list.contains(t),
        };
        let author_ok: bool = match &filters.author {
            None => true,
            Some(_) => match author_user {
                Some(u) => a.author_id.0 == u.id.0,
                None => false,
            },
        };
        let favorited_ok: bool = match &filters.favorited {
            None => true,
            Some(_) => match favorited_user {
                Some(u) => favorites.contains(a.id, u.id),
                None => false,
            },
        };
        proof {
            assert(articles@.take(i + 1).drop_last() =~= articles@.take(i as int));
            assert(articles@.take(i + 1).last() == articles@[i as int]);
            assert((tag_ok && author_ok && favorited_ok) == article_passes(
                articles@[i as int],
                users@,
                *favorites,
                *filters,
            ));
        }
        if tag_ok && author_ok && favorited_ok {
            kept.push(i);
        }
        i = i + 1;
    }
    proof {
        assert(articles@.take(n as int) =~= articles@);
    }
    let total: usize = kept.len();
    let page_indices = paginate(&kept, filters.pagination.offset, filters.pagination.limit);
    let ghost page = page_of(
        passing,
        filters.pagination.offset as int,
        filters.pagination.limit as int,
    );
    proof {
        assert forall|m: int| 0 <= m < page_indices@.len() implies (#[trigger] page_indices@[m])
            < n && articles@[page_indices@[m] as int] == page[m] by {
            let off = filters.pagination.offset as int;
            if off >= kept@.len() {
            } else {
                assert(page_indices@[m] == kept@[off + m]);
            }
        }
        assert(page_indices@.len() == page.len());
    }
    let summaries = render_summaries(articles, &page_indices, Ghost(page), users, false);
    ArticlesEnvelope { articles: summaries, articles_count: total }
}

/// The viewer's feed from a snapshot: the followed authors' articles,
/// paginated, each page entry rendered with its author marked followed and
/// the viewer's own favorite flag.
pub fn feed_articles(
    articles: &Vec<Article>,
    users: &Vec<User>,
    followers: &FollowerMap,
    favorites: &FavoriteMap,
    viewer: UserId,
    filters: &FeedFilters,
) -> (r: ArticlesEnvelope)
    ensures
        ({
            let passing = feed_articles_of(articles@, *followers, viewer);
            let page = page_of(
                passing,
                filters.pagination.offset as int,
                filters.pagination.limit as int,
            );
            let pairs = with_known_authors(page, users@);
            r.articles_count == passing.len() && r.articles@.len() == pairs.len() && (forall|
                k: int,
            |
                0 <= k < pairs.len() ==> summary_renders(
                    #[trigger] r.articles@[k],
                    pairs[k].0,
                    pairs[k].1,
                    true,
                    favorites.favorited(pairs[k].0.id, viewer),
                ))
        }),
{
    let ghost passing = feed_articles_of(articles@, *followers, viewer);
    let n: usize = articles.len();
    let mut kept: Vec<usize> = Vec::new();
    let mut i: usize = 0;
    proof {
        assert(articles@.take(0) =~= Seq::<Article>::empty());
    }
    while i < n
        invariant
            0 <= i <= n,
            n == articles@.len(),
            ({
                let p = feed_articles_of(articles@.take(i as int), *followers, viewer);
                kept@.len() == p.len() && (forall|m: int|
                    0 <= m < kept@.len() ==> (#[trigger] kept@[m]) < n && articles@[kept@[m] as int]
                        == p[m])
            }),
        decreases n - i,
    {
        let a = &articles[i];
        let followed = crate::services::is_following(followers, a.author_id, viewer);
        proof {
            assert(articles@.take(i + 1).drop_last() =~= articles@.take(i as int));
            assert(articles@.take(i + 1).last() == articles@[i as int]);
        }
        if followed {
            kept.push(i);
        }
        i = i + 1;
    }
    proof {
        assert(articles@.take(n as int) =~= articles@);
    }
    let total: usize = kept.len();
    let page_indices = paginate(&kept, filters.pagination.offset, filters.pagination.limit);
    let ghost page = page_of(
        passing,
        filters.pagination.offset as int,
        filters.pagination.limit as int,
    );
    proof {
        assert forall|m: int| 0 <= m < page_indices@.len() implies (#[trigger] page_indices@[m])
            < n && articles@[page_indices@[m] as int] == page[m] by {
            let off = filters.pagination.offset as int;
            if off >= kept@.len() {
            } else {
                assert(page_indices@[m] == kept@[off + m]);
            }
        }
        assert(page_indices@.len() == page.len());
    }
    let n_page: usize = page_indices.len();
    let mut summaries: Vec<ArticleSummary> = Vec::new();
    let mut k: usize = 0;
    proof {
        assert(page.take(0) =~= Seq::<Article>::empty());
    }
    while k < n_page
        invariant
            0 <= k <= n_page,
            n_page == page_indices@.len(),
            n_page == page.len(),
            n == articles@.len(),
            forall|m: int|
                0 <= m < page_indices@.len() ==> (#[trigger] page_indices@[m]) < n
                    && articles@[page_indices@[m] as int] == page[m],
            ({
                let pairs = with_known_authors(page.take(k as int), users@);
                summaries@.len() == pairs.len() && (forall|m: int|
                    0 <= m < pairs.len() ==> summary_renders(
                        #[trigger] summaries@[m],
                        pairs[m].0,
                        pairs[m].1,
                        true,
                        favorites.favorited(pairs[m].0.id, viewer),
                    ))
            }),
        decreases n_page - k,
    {
        let idx: usize = page_indices[k];
        let a = &articles[idx];
        proof {
            assert(page.take(k + 1).drop_last() =~= page.take(k as int));
            assert(page.take(k + 1).last() == page[k as int]);
            assert(*a == page[k as int]);
        }
        if let Some(author) = find_user_by_id(users, a.author_id) {
            let favorited = favorites.contains(a.id, viewer);
            let author_profile = author.to_profile(true);
            summaries.push(a.to_summary(author_profile, favorited));
        }
        k = k + 1;
    }
    proof {
        assert(page.take(n_page as int) =~= page);
    }
    ArticlesEnvelope { articles: summaries, articles_count: total }
}

/// Select the requested page of indices.
fn paginate(kept: &Vec<usize>, offset: u32, limit: u32) -> (r: Vec<usize>)
    ensures
        r@ == page_of(kept@, offset as int, limit as int),
{
    let total: usize = kept.len();
    let start: usize = if (offset as usize) < total {
        offset as usize
    } else {
        total
    };
    let end: usize = if total - start < (limit as usize) {
        total
    } else {
        start + (limit as usize)
    };
    let mut out: Vec<usize> = Vec::new();
    let mut k: usize = start;
    while k < end
        invariant
            start <= k <= end <= total,
            total == kept@.len(),
            out@.len() == k - start,
            forall|m: int| 0 <= m < out@.len() ==> #[trigger] out@[m] == kept@[start + m],
        decreases end - k,
    {
        out.push(kept[k]);
        k = k + 1;
    }
    proof {
        assert(out@ =~= page_of(kept@, offset as int, limit as int));
    }
    out
}

/// Render the page entries whose author is known.
fn render_summaries(
    articles: &Vec<Article>,
    page_indices: &Vec<usize>,
    Ghost(page): Ghost<Seq<Article>>,
    users: &Vec<User>,
    following: bool,
) -> (r: Vec<ArticleSummary>)
    requires
        page_indices@.len() == page.len(),
        forall|m: int|
            0 <= m < page_indices@.len() ==> (#[trigger] page_indices@[m]) < articles@.len()
                && articles@[page_indices@[m] as int] == page[m],
    ensures
        ({
            let pairs = with_known_authors(page, users@);
            r@.len() == pairs.len() && (forall|m: int|
                0 <= m < pairs.len() ==> summary_renders(
                    #[trigger] r@[m],
                    pairs[m].0,
                    pairs[m].1,
                    following,
                    false,
                ))
        }),
{
    let n_page: usize = page_indices.len();
    let mut summaries: Vec<ArticleSummary> = Vec::new();
    let mut k: usize = 0;
    proof {
        assert(page.take(0) =~= Seq::<Article>::empty());
    }
    while k < n_page
        invariant
            0 <= k <= n_page,
            n_page == page_indices@.len(),
            n_page == page.len(),
            forall|m: int|
                0 <= m < page_indices@.len() ==> (#[trigger] page_indices@[m]) < articles@.len()
                    && articles@[page_indices@[m] as int] == page[m],
            ({
                let pairs = with_known_authors(page.take(k as int), users@);
                summaries@.len() == pairs.len() && (forall|m: int|
                    0 <= m < pairs.len() ==> summary_renders(
                        #[trigger] summaries@[m],
                        pairs[m].0,
                        pairs[m].1,
                        following,
                        false,
                    ))
            }),
        decreases n_page - k,
    {
        let idx: usize = page_indices[k];
        let a = &articles[idx];
        proof {
            assert(page.take(k + 1).drop_last() =~= page.take(k as int));
            assert(page.take(k + 1).last() == page[k as int]);
            assert(*a == page[k as int]);
        }
        if let Some(author) = find_user_by_id(users, a.author_id) {
            let author_profile = author.to_profile(following);
            summaries.push(a.to_summary(author_profile, false));
        }
        k = k + 1;
    }
    proof {
        assert(page.take(n_page as int) =~= page);
    }
    summaries
}

} // verus!
