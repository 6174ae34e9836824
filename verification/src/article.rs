//! Articles: drafts, slugs, publication and editing.

use vstd::prelude::*;

use crate::errors::{DomainError, DomainResult};
use crate::identifiers::{ArticleId, UserId};
use crate::pagination::Pagination;
use crate::profile::Profile;
use crate::tags::{Tag, TagList};
use crate::text::{is_space, is_space_char, trim_str, trimmed};
use crate::time::Timestamp;

verus! {

/// A slug: non-empty text identifying an article in a path.
#[derive(Debug, PartialEq, Eq, Hash)]
pub struct Slug(String);

impl View for Slug {
    type V = Seq<char>;

    closed spec fn view(&self) -> Seq<char> {
        self.0@
    }
}

impl Clone for Slug {
    fn clone(&self) -> (r: Self)
        ensures
            r@ == self@,
    {
        Slug(self.0.clone())
    }
}

pub open spec fn is_ascii_alphanum(c: char) -> bool {
    let u = c as u32;
    (48 <= u && u <= 57) || (65 <= u && u <= 90) || (97 <= u && u <= 122)
}

/// An ASCII upper-case letter lowered; any other character unchanged.
pub open spec fn to_lower(c: char) -> char {
    let u = c as u32;
    if 65 <= u && u <= 90 {
        ((u + 32) as char)
    } else {
        c
    }
}

/// A character a slug turns into a single dash: white space, `-`, `_`, `:`.
pub open spec fn slug_sep(c: char) -> bool {
    is_space(c) || c == '-' || c == '_' || c == ':'
}

/// The slug text accumulated over the title's characters: alphanumerics
/// lowered, separators collapsed to one dash, everything else dropped.
pub open spec fn slug_acc(s: Seq<char>) -> Seq<char>
    decreases s.len(),
{
    if s.len() == 0 {
        Seq::empty()
    } else {
        let p = slug_acc(s.drop_last());
        let c = s.last();
        if is_ascii_alphanum(c) {
            p.push(to_lower(c))
        } else if slug_sep(c) && !(p.len() > 0 && p.last() == '-') {
            p.push('-')
        } else {
            p
        }
    }
}

pub open spec fn trim_dash_front(s: Seq<char>) -> Seq<char>
    decreases s.len(),
{
    if s.len() > 0 && s[0] == '-' {
        trim_dash_front(s.drop_first())
    } else {
        s
    }
}

pub open spec fn trim_dash_back(s: Seq<char>) -> Seq<char>
    decreases s.len(),
{
    if s.len() > 0 && s.last() == '-' {
        trim_dash_back(s.drop_last())
    } else {
        s
    }
}

/// What `Slug::from_title` derives from a title.
pub open spec fn slug_of(title: Seq<char>) -> Seq<char> {
    trim_dash_back(trim_dash_front(slug_acc(trimmed(title))))
}

proof fn lemma_trim_dash_front_at(s: Seq<char>, i: int)
    requires
        0 <= i <= s.len(),
        forall|j: int| 0 <= j < i ==> s[j] == '-',
        i == s.len() || s[i] != '-',
    ensures
        trim_dash_front(s) =~= s.subrange(i, s.len() as int),
    decreases i,
{
    if i == 0 {
        assert(s.subrange(0, s.len() as int) =~= s);
    } else {
        let t = s.drop_first();
        assert(forall|j: int| 0 <= j < i - 1 ==> #[trigger] t[j] == s[j + 1]);
        lemma_trim_dash_front_at(t, i - 1);
        assert(t.subrange(i - 1, t.len() as int) =~= s.subrange(i, s.len() as int));
    }
}

proof fn lemma_trim_dash_back_at(s: Seq<char>, e: int)
    requires
        0 <= e <= s.len(),
        forall|j: int| e <= j < s.len() ==> s[j] == '-',
        e == 0 || s[e - 1] != '-',
    ensures
        trim_dash_back(s) =~= s.subrange(0, e),
    decreases s.len() - e,
{
    if e == s.len() {
        assert(s.subrange(0, s.len() as int) =~= s);
    } else {
        let t = s.drop_last();
        lemma_trim_dash_back_at(t, e);
        assert(t.subrange(0, e) =~= s.subrange(0, e));
    }
}

impl Slug {
    /// Trim the value and reject it when nothing is left.
    pub fn new(value: String) -> (r: DomainResult<Slug>)
        ensures
            match r {
                Ok(s) => s@ == trimmed(value@) && trimmed(value@).len() > 0,
                Err(e) => e == DomainError::InvalidSlug && trimmed(value@).len() == 0,
            },
    {
        let t = trim_str(value.as_str());
        if t.as_str().is_empty() {
            Err(DomainError::InvalidSlug)
        } else {
            Ok(Slug(t))
        }
    }

    /// Derive a slug from a title; a title with no usable characters is
    /// rejected.
    pub fn from_title(title: &str) -> (r: DomainResult<Slug>)
        ensures
            match r {
                Ok(s) => s@ == slug_of(title@) && slug_of(title@).len() > 0,
                Err(e) => e == DomainError::InvalidSlug && slug_of(title@).len() == 0,
            },
    {
        let t = trim_str(title);
        let n: usize = t.as_str().unicode_len();
        let mut acc: Vec<char> = Vec::new();
        let mut i: usize = 0;
        proof {
            assert(t@.take(0) =~= Seq::<char>::empty());
        }
        while i < n
            invariant
                0 <= i <= n,
                n == t@.len(),
                acc@ == slug_acc(t@.take(i as int)),
            decreases n - i,
        {
            let c: char = t.as_str().get_char(i);
            let u: u32 = c as u32;
            proof {
                assert(t@.take(i + 1).drop_last() =~= t@.take(i as int));
                assert(t@.take(i + 1).last() == c);
            }
            if (48 <= u && u <= 57) || (97 <= u && u <= 122) {
                acc.push(c);
            } else if 65 <= u && u <= 90 {
                let lowered: char = ((u + 32) as u8) as char;
                proof {
                    assert(lowered == to_lower(c));
                }
                acc.push(lowered);
            } else if is_space_char(c) || c == '-' || c == '_' || c == ':' {
                let len: usize = acc.len();
                if len == 0 {
                    acc.push('-');
                } else {
                    let last: char = acc[len - 1];
                    if last != '-' {
                        acc.push('-');
                    }
                }
            }
            i = i + 1;
        }
        proof {
            assert(t@.take(n as int) =~= t@);
        }
        let total: usize = acc.len();
        let mut start: usize = 0;
        while start < total && acc[start] == '-'
            invariant
                0 <= start <= total,
                total == acc@.len(),
                forall|j: int| 0 <= j < start ==> acc@[j] == '-',
            decreases total - start,
        {
            start = start + 1;
        }
        let mut end: usize = total;
        while end > start && acc[end - 1] == '-'
            invariant
                start <= end <= total,
                total == acc@.len(),
                start == total || acc@[start as int] != '-',
                forall|j: int| end <= j < total ==> acc@[j] == '-',
            decreases end,
        {
            end = end - 1;
        }
        proof {
            lemma_trim_dash_front_at(acc@, start as int);
            let trimmed_front = acc@.subrange(start as int, total as int);
            lemma_trim_dash_back_at(trimmed_front, end - start);
            assert(trimmed_front.subrange(0, end - start) =~= acc@.subrange(
                start as int,
                end as int,
            ));
        }
        if start == end {
            return Err(DomainError::InvalidSlug);
        }
        let mut out: Vec<char> = Vec::new();
        let mut k: usize = start;
        while k < end
            invariant
                start <= k <= end <= total,
                total == acc@.len(),
                out@ == acc@.subrange(start as int, k as int),
            decreases end - k,
        {
            out.push(acc[k]);
            proof {
                assert(acc@.subrange(start as int, k + 1) =~= acc@.subrange(
                    start as int,
                    k as int,
                ).push(acc@[k as int]));
            }
            k = k + 1;
        }
        Ok(Slug(crate::text::string_from_chars(&out)))
    }

    pub fn as_str(&self) -> (r: &str)
        ensures
            r@ == self@,
    {
        self.0.as_str()
    }
}

impl From<Slug> for String {
    fn from(value: Slug) -> (r: String) {
        value.0
    }
}

impl vstd::std_specs::convert::FromSpecImpl<Slug> for String {
    open spec fn obeys_from_spec() -> bool {
        true
    }

    closed spec fn from_spec(value: Slug) -> String {
        value.0
    }
}

/// A validated draft: title, description and body are each non-blank.
#[derive(Debug)]
pub struct ArticleDraft {
    pub title: String,
    pub description: String,
    pub body: String,
    pub tag_list: TagList,
}

impl ArticleDraft {
    pub fn new(title: String, description: String, body: String, tag_list: TagList) -> (r:
        DomainResult<ArticleDraft>)
        ensures
            match r {
                Ok(d) => d.title == title && d.description == description && d.body == body
                    && d.tag_list@ == tag_list@ && trimmed(title@).len() > 0 && trimmed(
                    description@,
                ).len() > 0 && trimmed(body@).len() > 0,
                Err(e) => (e == DomainError::InvalidTitle && trimmed(title@).len() == 0) || (e
                    == DomainError::InvalidDescription && trimmed(title@).len() > 0 && trimmed(
                    description@,
                ).len() == 0) || (e == DomainError::InvalidBody && trimmed(title@).len() > 0
                    && trimmed(description@).len() > 0 && trimmed(body@).len() == 0),
            },
    {
        if trim_str(title.as_str()).as_str().is_empty() {
            return Err(DomainError::InvalidTitle);
        }
        if trim_str(description.as_str()).as_str().is_empty() {
            return Err(DomainError::InvalidDescription);
        }
        if trim_str(body.as_str()).as_str().is_empty() {
            return Err(DomainError::InvalidBody);
        }
        Ok(ArticleDraft { title, description, body, tag_list })
    }
}

/// The mathematical content of an article.
pub ghost struct ArticleModel {
    pub id: ArticleId,
    pub slug: Seq<char>,
    pub title: Seq<char>,
    pub description: Seq<char>,
    pub body: Seq<char>,
    pub tag_list: Seq<Seq<char>>,
    pub author_id: UserId,
    pub favorites_count: u32,
    pub created_at: Timestamp,
    pub updated_at: Timestamp,
}

#[derive(Debug)]
pub struct Article {
    pub id: ArticleId,
    pub slug: Slug,
    pub title: String,
    pub description: String,
    pub body: String,
    pub tag_list: TagList,
    pub author_id: UserId,
    pub favorites_count: u32,
    pub created_at: Timestamp,
    pub updated_at: Timestamp,
}

impl View for Article {
    type V = ArticleModel;

    open spec fn view(&self) -> ArticleModel {
        ArticleModel {
            id: self.id,
            slug: self.slug@,
            title: self.title@,
            description: self.description@,
            body: self.body@,
            tag_list: self.tag_list@,
            author_id: self.author_id,
            favorites_count: self.favorites_count,
            created_at: self.created_at,
            updated_at: self.updated_at,
        }
    }
}

impl Clone for Article {
    fn clone(&self) -> (r: Self)
        ensures
            r@ == self@,
    {
        Article {
            id: self.id,
            slug: self.slug.clone(),
            title: self.title.clone(),
            description: self.description.clone(),
            body: self.body.clone(),
            tag_list: self.tag_list.clone(),
            author_id: self.author_id,
            favorites_count: self.favorites_count,
            created_at: self.created_at,
            updated_at: self.updated_at,
        }
    }
}

/// How editing changes an article: the fields named are applied in order —
/// title (with its slug), description, body, tags — and the first invalid
/// field stops the edit there, leaving the fields already applied in place.
pub open spec fn apply_changes_spec(m: ArticleModel, c: ArticleChanges, now: Timestamp) -> (
    ArticleModel,
    Result<(), DomainError>,
) {
    let title_step: (ArticleModel, Result<(), DomainError>) = match c.title {
        None => (m, Ok(())),
        Some(t) => if trimmed(t@).len() == 0 {
            (m, Err(DomainError::InvalidTitle))
        } else {
            let with_title = ArticleModel { title: t@, ..m };
            if slug_of(t@).len() == 0 {
                (with_title, Err(DomainError::InvalidSlug))
            } else {
                (ArticleModel { slug: slug_of(t@), ..with_title }, Ok(()))
            }
        },
    };
    if title_step.1 is Err {
        title_step
    } else {
        let m1 = title_step.0;
        let desc_step: (ArticleModel, Result<(), DomainError>) = match c.description {
            None => (m1, Ok(())),
            Some(d) => if trimmed(d@).len() == 0 {
                (m1, Err(DomainError::InvalidDescription))
            } else {
                (ArticleModel { description: d@, ..m1 }, Ok(()))
            },
        };
        if desc_step.1 is Err {
            desc_step
        } else {
            let m2 = desc_step.0;
            let body_step: (ArticleModel, Result<(), DomainError>) = match c.body {
                None => (m2, Ok(())),
                Some(b) => if trimmed(b@).len() == 0 {
                    (m2, Err(DomainError::InvalidBody))
                } else {
                    (ArticleModel { body: b@, ..m2 }, Ok(()))
                },
            };
            if body_step.1 is Err {
                body_step
            } else {
                let m3 = body_step.0;
                let m4 = match c.tag_list {
                    None => m3,
                    Some(tags) => ArticleModel { tag_list: tags@, ..m3 },
                };
                (ArticleModel { updated_at: now, ..m4 }, Ok(()))
            }
        }
    }
}

impl Article {
    /// Publish a validated draft: the slug is derived from the title, the
    /// favorites count starts at zero, and both instants are the present.
    pub fn publish(id: ArticleId, author_id: UserId, draft: ArticleDraft, now: Timestamp) -> (r:
        DomainResult<Article>)
        ensures
            match r {
                Ok(a) => slug_of(draft.title@).len() > 0 && a@ == (ArticleModel {
                    id,
                    slug: slug_of(draft.title@),
                    title: draft.title@,
                    description: draft.description@,
                    body: draft.body@,
                    tag_list: draft.tag_list@,
                    author_id,
                    favorites_count: 0u32,
                    created_at: now,
                    updated_at: now,
                }),
                Err(e) => e == DomainError::InvalidSlug && slug_of(draft.title@).len() == 0,
            },
    {
        let slug = match Slug::from_title(draft.title.as_str()) {
            Ok(slug) => slug,
            Err(e) => {
                return Err(e);
            },
        };
        Ok(
            Article {
                id,
                slug,
                title: draft.title,
                description: draft.description,
                body: draft.body,
                tag_list: draft.tag_list,
                author_id,
                favorites_count: 0,
                created_at: now,
                updated_at: now,
            },
        )
    }

    /// Apply an edit; see `apply_changes_spec` for what each outcome leaves
    /// behind.
    pub fn apply_changes(&mut self, changes: ArticleChanges, now: Timestamp) -> (r: DomainResult<
        (),
    >)
        ensures
            final(self)@ == apply_changes_spec(old(self)@, changes, now).0,
            r == apply_changes_spec(old(self)@, changes, now).1,
    {
        if let Some(title) = changes.title {
            if trim_str(title.as_str()).as_str().is_empty() {
                return Err(DomainError::InvalidTitle);
            }
            self.title = title;
            let slug = match Slug::from_title(self.title.as_str()) {
                Ok(slug) => slug,
                Err(e) => {
                    return Err(e);
                },
            };
            self.slug = slug;
        }
        if let Some(description) = changes.description {
            if trim_str(description.as_str()).as_str().is_empty() {
                return Err(DomainError::InvalidDescription);
            }
            self.description = description;
        }
        if let Some(body) = changes.body {
            if trim_str(body.as_str()).as_str().is_empty() {
                return Err(DomainError::InvalidBody);
            }
            self.body = body;
        }
        if let Some(tags) = changes.tag_list {
            self.tag_list = tags;
        }
        self.updated_at = now;
        Ok(())
    }

    /// One more favorite; the count saturates rather than overflowing.
    pub fn favorite(&mut self)
        ensures
            final(self)@ == (ArticleModel {
                favorites_count: if old(self).favorites_count == u32::MAX {
                    u32::MAX
                } else {
                    (old(self).favorites_count + 1) as u32
                },
                ..old(self)@
            }),
    {
        if self.favorites_count < u32::MAX {
            self.favorites_count = self.favorites_count + 1;
        }
    }

    /// One favorite fewer; the count stops at zero.
    pub fn unfavorite(&mut self)
        ensures
            final(self)@ == (ArticleModel {
                favorites_count: if old(self).favorites_count == 0 {
                    0u32
                } else {
                    (old(self).favorites_count - 1) as u32
                },
                ..old(self)@
            }),
    {
        if self.favorites_count > 0 {
            self.favorites_count = self.favorites_count - 1;
        }
    }

    pub fn to_view(&self, author: Profile, favorited: bool) -> (r: ArticleView)
        ensures
            r.slug@ == self.slug@,
            r.title@ == self.title@,
            r.description@ == self.description@,
            r.body@ == self.body@,
            r.tag_list@ == self.tag_list@,
            r.created_at == self.created_at,
            r.updated_at == self.updated_at,
            r.favorited == favorited,
            r.favorites_count == self.favorites_count,
            r.author == author,
    {
        ArticleView {
            slug: self.slug.clone(),
            title: self.title.clone(),
            description: self.description.clone(),
            body: self.body.clone(),
            tag_list: self.tag_list.clone(),
            created_at: self.created_at,
            updated_at: self.updated_at,
            favorited,
            favorites_count: self.favorites_count,
            author,
        }
    }

    pub fn to_summary(&self, author: Profile, favorited: bool) -> (r: ArticleSummary)
        ensures
            r.slug@ == self.slug@,
            r.title@ == self.title@,
            r.description@ == self.description@,
            r.tag_list@ == self.tag_list@,
            r.created_at == self.created_at,
            r.updated_at == self.updated_at,
            r.favorited == favorited,
            r.favorites_count == self.favorites_count,
            r.author == author,
    {
        ArticleSummary {
            slug: self.slug.clone(),
            title: self.title.clone(),
            description: self.description.clone(),
            tag_list: self.tag_list.clone(),
            created_at: self.created_at,
            updated_at: self.updated_at,
            favorited,
            favorites_count: self.favorites_count,
            author,
        }
    }

    pub fn authored_by(&self, user_id: &UserId) -> (r: bool)
        ensures
            r == (self.author_id == *user_id),
    {
        self.author_id.0 == user_id.0
    }

    /// The first article carrying the slug, if any.
    pub fn find_by_slug<'a>(articles: &'a [Article], slug: &str) -> (r: Option<&'a Article>)
        ensures
            match r {
                Some(a) => exists|i: int|
                    0 <= i < articles@.len() && a@ == (#[trigger] articles@[i])@
                        && articles@[i].slug@ == slug@ && (forall|j: int|
                        0 <= j < i ==> articles@[j].slug@ != slug@),
                None => forall|i: int|
                    0 <= i < articles@.len() ==> (#[trigger] articles@[i]).slug@ != slug@,
            },
    {
        let n: usize = articles.len();
        let mut i: usize = 0;
        while i < n
            invariant
                0 <= i <= n,
                n == articles@.len(),
                forall|j: int| 0 <= j < i ==> (#[trigger] articles@[j]).slug@ != slug@,
            decreases n - i,
        {
            if articles[i].slug.as_str().eq(slug) {
                return Some(&articles[i]);
            }
            i = i + 1;
        }
        None
    }

    /// The first article carrying the slug, cloned out.
    pub fn find_by_slug_owned(articles: &[Article], slug: &str) -> (r: Option<Article>)
        ensures
            match r {
                Some(a) => exists|i: int|
                    0 <= i < articles@.len() && a@ == (#[trigger] articles@[i])@
                        && articles@[i].slug@ == slug@ && (forall|j: int|
                        0 <= j < i ==> articles@[j].slug@ != slug@),
                None => forall|i: int|
                    0 <= i < articles@.len() ==> (#[trigger] articles@[i]).slug@ != slug@,
            },
    {
        match Self::find_by_slug(articles, slug) {
            Some(a) => Some(a.clone()),
            None => None,
        }
    }

    /// Publish a draft and build the view the author sees: their own fresh
    /// article, not yet favorited.
    pub fn create_from_draft(
        id: ArticleId,
        author_id: UserId,
        draft: ArticleDraft,
        author_profile: Profile,
        now: Timestamp,
    ) -> (r: DomainResult<(Article, ArticleView)>)
        ensures
            match r {
                Ok(pair) => slug_of(draft.title@).len() > 0 && pair.0@ == (ArticleModel {
                    id,
                    slug: slug_of(draft.title@),
                    title: draft.title@,
                    description: draft.description@,
                    body: draft.body@,
                    tag_list: draft.tag_list@,
                    author_id,
                    favorites_count: 0u32,
                    created_at: now,
                    updated_at: now,
                }) && pair.1.slug@ == pair.0.slug@ && pair.1.title@ == pair.0.title@
                    && pair.1.favorited == false && pair.1.author == author_profile,
                Err(e) => e == DomainError::InvalidSlug && slug_of(draft.title@).len() == 0,
            },
    {
        let article = match Self::publish(id, author_id, draft, now) {
            Ok(article) => article,
            Err(e) => {
                return Err(e);
            },
        };
        let view = article.to_view(author_profile, false);
        Ok((article, view))
    }

    /// The view a given reader sees.
    pub fn build_view(&self, author: Profile, favorited: bool) -> (r: ArticleView)
        ensures
            r.slug@ == self.slug@,
            r.title@ == self.title@,
            r.description@ == self.description@,
            r.body@ == self.body@,
            r.tag_list@ == self.tag_list@,
            r.created_at == self.created_at,
            r.updated_at == self.updated_at,
            r.favorited == favorited,
            r.favorites_count == self.favorites_count,
            r.author == author,
    {
        self.to_view(author, favorited)
    }
}

/// An edit: every field optional.
#[derive(Debug)]
pub struct ArticleChanges {
    pub title: Option<String>,
    pub description: Option<String>,
    pub body: Option<String>,
    pub tag_list: Option<TagList>,
}

impl Default for ArticleChanges {
    fn default() -> (r: Self)
        ensures
            r.title is None,
            r.description is None,
            r.body is None,
            r.tag_list is None,
    {
        ArticleChanges { title: None, description: None, body: None, tag_list: None }
    }
}

#[derive(Debug)]
pub struct ArticleView {
    pub slug: Slug,
    pub title: String,
    pub description: String,
    pub body: String,
    pub tag_list: TagList,
    pub created_at: Timestamp,
    pub updated_at: Timestamp,
    pub favorited: bool,
    pub favorites_count: u32,
    pub author: Profile,
}

#[derive(Debug)]
pub struct ArticleSummary {
    pub slug: Slug,
    pub title: String,
    pub description: String,
    pub tag_list: TagList,
    pub created_at: Timestamp,
    pub updated_at: Timestamp,
    pub favorited: bool,
    pub favorites_count: u32,
    pub author: Profile,
}

#[derive(Debug)]
pub struct ArticleList {
    pub articles: Vec<ArticleSummary>,
    pub articles_count: usize,
}

impl ArticleList {
    pub fn new(articles: Vec<ArticleSummary>) -> (r: ArticleList)
        ensures
            r.articles@ == articles@,
            r.articles_count == articles@.len(),
    {
        let articles_count = articles.len();
        ArticleList { articles, articles_count }
    }
}

/// Filters for the article list: an optional tag (validated), author and
/// favoriting usernames taken as given, and pagination with defaults.
#[derive(Debug)]
pub struct ArticleFilters {
    pub tag: Option<Tag>,
    pub author: Option<String>,
    pub favorited: Option<String>,
    pub pagination: Pagination,
}

impl ArticleFilters {
    pub fn new(
        tag: Option<String>,
        author: Option<String>,
        favorited: Option<String>,
        pagination: Option<Pagination>,
    ) -> (r: DomainResult<ArticleFilters>)
        ensures
            match r {
                Ok(f) => (match tag {
                    None => f.tag is None,
                    Some(raw) => f.tag matches Some(t) && t@ == trimmed(raw@) && trimmed(
                        raw@,
                    ).len() > 0,
                }) && f.author == author && f.favorited == favorited && f.pagination == (
                match pagination {
                    Some(p) => p,
                    None => Pagination { limit: crate::pagination::DEFAULT_LIMIT, offset: 0 },
                }),
                Err(e) => e == DomainError::InvalidTag && (tag matches Some(raw) && trimmed(
                    raw@,
                ).len() == 0),
            },
    {
        let tag = match tag {
            Some(value) => match Tag::new(value) {
                Ok(t) => Some(t),
                Err(e) => {
                    return Err(e);
                },
            },
            None => None,
        };
        let pagination = match pagination {
            Some(p) => p,
            None => Pagination::default(),
        };
        Ok(ArticleFilters { tag, author, favorited, pagination })
    }
}

impl Default for ArticleFilters {
    fn default() -> (r: Self)
        ensures
            r.tag is None,
            r.author is None,
            r.favorited is None,
            r.pagination == (Pagination {
                limit: crate::pagination::DEFAULT_LIMIT,
                offset: 0u32,
            }),
    {
        ArticleFilters {
            tag: None,
            author: None,
            favorited: None,
            pagination: Pagination::default(),
        }
    }
}

/// Filters for the personal feed: pagination only.
#[derive(Debug)]
pub struct FeedFilters {
    pub pagination: Pagination,
}

impl FeedFilters {
    pub fn new(pagination: Option<Pagination>) -> (r: FeedFilters)
        ensures
            r.pagination == (match pagination {
                Some(p) => p,
                None => Pagination { limit: crate::pagination::DEFAULT_LIMIT, offset: 0u32 },
            }),
    {
        let pagination = match pagination {
            Some(p) => p,
            None => Pagination::default(),
        };
        FeedFilters { pagination }
    }
}

impl Default for FeedFilters {
    fn default() -> (r: Self)
        ensures
            r.pagination == (Pagination {
                limit: crate::pagination::DEFAULT_LIMIT,
                offset: 0u32,
            }),
    {
        FeedFilters { pagination: Pagination::default() }
    }
}

#[derive(Debug)]
pub struct ArticleEnvelope {
    pub article: ArticleView,
}

impl From<ArticleView> for ArticleEnvelope {
    fn from(value: ArticleView) -> (r: ArticleEnvelope) {
        ArticleEnvelope { article: value }
    }
}

impl vstd::std_specs::convert::FromSpecImpl<ArticleView> for ArticleEnvelope {
    open spec fn obeys_from_spec() -> bool {
        true
    }

    open spec fn from_spec(value: ArticleView) -> ArticleEnvelope {
        ArticleEnvelope { article: value }
    }
}

#[derive(Debug)]
pub struct ArticlesEnvelope {
    pub articles: Vec<ArticleSummary>,
    pub articles_count: usize,
}

impl From<Vec<ArticleSummary>> for ArticlesEnvelope {
    fn from(value: Vec<ArticleSummary>) -> (r: ArticlesEnvelope) {
        let articles_count = value.len();
        ArticlesEnvelope { articles_count, articles: value }
    }
}

impl vstd::std_specs::convert::FromSpecImpl<Vec<ArticleSummary>> for ArticlesEnvelope {
    open spec fn obeys_from_spec() -> bool {
        true
    }

    open spec fn from_spec(value: Vec<ArticleSummary>) -> ArticlesEnvelope {
        ArticlesEnvelope { articles_count: value@.len() as usize, articles: value }
    }
}

} // verus!
