//! Article use cases: creating, listing and updating.

use vstd::prelude::*;

use crate::article::{slug_of, Article, ArticleChanges, ArticleDraft, ArticleFilters, ArticleModel,
    FeedFilters};
use crate::errors::{DomainError, DomainResult};
use crate::identifiers::{ArticleId, UserId};
use crate::pagination::Pagination;
use crate::tags::{dedup_trimmed, TagList};
use crate::text::trimmed;
use crate::time::Timestamp;

verus! {

/// Input for creating a new article.
#[derive(Debug)]
pub struct CreateArticleInput {
    pub title: String,
    pub description: String,
    pub body: String,
    pub tag_list: Vec<String>,
}

/// Input for listing articles.
#[derive(Debug)]
pub struct ListArticlesInput {
    pub tag: Option<String>,
    pub author: Option<String>,
    pub favorited: Option<String>,
    pub limit: Option<u32>,
    pub offset: Option<u32>,
}

/// Input for fetching the personal feed.
#[derive(Debug)]
pub struct FeedArticlesInput {
    pub limit: Option<u32>,
    pub offset: Option<u32>,
}

/// Input for updating an article.
#[derive(Debug)]
pub struct UpdateArticleInput {
    pub title: Option<String>,
    pub description: Option<String>,
    pub body: Option<String>,
    pub tag_list: Option<Vec<String>>,
}

/// The decision step of creating an article: validate the tags, validate the
/// draft, and publish. The first rule broken decides the error; the host
/// persists the article on success.
pub fn plan_create_article(
    id: ArticleId,
    author_id: UserId,
    input: CreateArticleInput,
    now: Timestamp,
) -> (r: DomainResult<Article>)
    ensures
        match r {
            Ok(a) => (forall|i: int|
                0 <= i < input.tag_list@.len() ==> trimmed(#[trigger] input.tag_list@[i]@).len()
                    > 0) && trimmed(input.title@).len() > 0 && trimmed(input.description@).len()
                > 0 && trimmed(input.body@).len() > 0 && slug_of(input.title@).len() > 0 && a@
                == (ArticleModel {
                id,
                slug: slug_of(input.title@),
                title: input.title@,
                description: input.description@,
                body: input.body@,
                tag_list: dedup_trimmed(input.tag_list.deep_view()),
                author_id,
                favorites_count: 0u32,
                created_at: now,
                updated_at: now,
            }),
            Err(e) => (e == DomainError::InvalidTag && (exists|i: int|
                0 <= i < input.tag_list@.len() && trimmed(#[trigger] input.tag_list@[i]@).len()
                    == 0)) || ((forall|i: int|
                0 <= i < input.tag_list@.len() ==> trimmed(#[trigger] input.tag_list@[i]@).len()
                    > 0) && ((e == DomainError::InvalidTitle && trimmed(input.title@).len() == 0)
                || (e == DomainError::InvalidDescription && trimmed(input.title@).len() > 0
                && trimmed(input.description@).len() == 0) || (e == DomainError::InvalidBody
                && trimmed(input.title@).len() > 0 && trimmed(input.description@).len() > 0
                && trimmed(input.body@).len() == 0) || (e == DomainError::InvalidSlug && trimmed(
                input.title@,
            ).len() > 0 && trimmed(input.description@).len() > 0 && trimmed(input.body@).len() > 0
                && slug_of(input.title@).len() == 0))),
        },
{
    let tags = match TagList::new(input.tag_list) {
        Ok(tags) => tags,
        Err(e) => {
            return Err(e);
        },
    };
    let draft = match ArticleDraft::new(input.title, input.description, input.body, tags) {
        Ok(draft) => draft,
        Err(e) => {
            return Err(e);
        },
    };
    Article::publish(id, author_id, draft, now)
}

/// The decision step of listing articles: pagination defaults and bounds,
/// then the filters, with an optional tag validated.
pub fn plan_list_articles(input: ListArticlesInput) -> (r: DomainResult<ArticleFilters>)
    ensures
        ({
            let l = match input.limit {
                Some(v) => v,
                None => crate::pagination::DEFAULT_LIMIT,
            };
            let o = match input.offset {
                Some(v) => v,
                None => 0u32,
            };
            match r {
                Ok(f) => 1 <= l <= crate::pagination::MAX_LIMIT && o <= 0x7fffffffu32 && (
                match input.tag {
                    None => f.tag is None,
                    Some(raw) => f.tag matches Some(t) && t@ == trimmed(raw@) && trimmed(
                        raw@,
                    ).len() > 0,
                }) && f.author == input.author && f.favorited == input.favorited
                    && f.pagination == (Pagination { limit: l, offset: o }),
                Err(e) => (e == DomainError::LimitOutOfRange && !(1 <= l
                    <= crate::pagination::MAX_LIMIT)) || (e == DomainError::NegativeOffset && 1
                    <= l <= crate::pagination::MAX_LIMIT && o > 0x7fffffffu32) || (e
                    == DomainError::InvalidTag && 1 <= l <= crate::pagination::MAX_LIMIT && o
                    <= 0x7fffffffu32 && (input.tag matches Some(raw) && trimmed(raw@).len()
                    == 0)),
            }
        }),
{
    let pagination = match Pagination::new(input.limit, input.offset) {
        Ok(p) => p,
        Err(e) => {
            return Err(e);
        },
    };
    ArticleFilters::new(input.tag, input.author, input.favorited, Some(pagination))
}

/// The decision step of the personal feed: pagination defaults and bounds.
pub fn plan_feed_articles(input: FeedArticlesInput) -> (r: DomainResult<FeedFilters>)
    ensures
        ({
            let l = match input.limit {
                Some(v) => v,
                None => crate::pagination::DEFAULT_LIMIT,
            };
            let o = match input.offset {
                Some(v) => v,
                None => 0u32,
            };
            match r {
                Ok(f) => 1 <= l <= crate::pagination::MAX_LIMIT && o <= 0x7fffffffu32
                    && f.pagination == (Pagination { limit: l, offset: o }),
                Err(e) => (e == DomainError::LimitOutOfRange && !(1 <= l
                    <= crate::pagination::MAX_LIMIT)) || (e == DomainError::NegativeOffset && 1
                    <= l <= crate::pagination::MAX_LIMIT && o > 0x7fffffffu32),
            }
        }),
{
    let pagination = match Pagination::new(input.limit, input.offset) {
        Ok(p) => p,
        Err(e) => {
            return Err(e);
        },
    };
    Ok(FeedFilters::new(Some(pagination)))
}

/// Only the author may edit an article.
pub fn authorize_article_update(article: &Article, author_id: &UserId) -> (r: DomainResult<()>)
    ensures
        r is Ok <==> article.author_id == *author_id,
        r matches Err(e) ==> e == DomainError::UnauthorizedAction,
{
    if article.authored_by(author_id) {
        Ok(())
    } else {
        Err(DomainError::UnauthorizedAction)
    }
}

/// Turn an update's raw fields into an edit: an optional tag list is
/// validated; the text fields pass through for `Article::apply_changes` to
/// judge.
pub fn plan_article_changes(input: UpdateArticleInput) -> (r: DomainResult<ArticleChanges>)
    ensures
        match r {
            Ok(c) => c.title == input.title && c.description == input.description && c.body
                == input.body && (match input.tag_list {
                None => c.tag_list is None,
                Some(raw) => c.tag_list matches Some(tl) && tl@ == dedup_trimmed(raw.deep_view())
                    && (forall|i: int|
                    0 <= i < raw@.len() ==> trimmed(#[trigger] raw@[i]@).len() > 0),
            }),
            Err(e) => e == DomainError::InvalidTag && (input.tag_list matches Some(raw) && (
            exists|i: int| 0 <= i < raw@.len() && trimmed(#[trigger] raw@[i]@).len() == 0)),
        },
{
    let tag_list = match input.tag_list {
        None => None,
        Some(raw) => match TagList::new(raw) {
            Ok(tl) => Some(tl),
            Err(e) => {
                return Err(e);
            },
        },
    };
    Ok(
        ArticleChanges {
            title: input.title,
            description: input.description,
            body: input.body,
            tag_list,
        },
    )
}

} // verus!
