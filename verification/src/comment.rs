//! Comments on articles.

use vstd::prelude::*;

use crate::errors::{DomainError, DomainResult};
use crate::identifiers::{ArticleId, CommentId, UserId};
use crate::profile::Profile;
use crate::text::{trim_str, trimmed};
use crate::time::Timestamp;

verus! {

/// A draft comment: its body is non-blank, kept exactly as given.
#[derive(Debug)]
pub struct CommentDraft {
    pub body: String,
}

impl CommentDraft {
    pub fn new(body: String) -> (r: DomainResult<CommentDraft>)
        ensures
            match r {
                Ok(d) => d.body == body && trimmed(body@).len() > 0,
                Err(e) => e == DomainError::InvalidBody && trimmed(body@).len() == 0,
            },
    {
        if trim_str(body.as_str()).as_str().is_empty() {
            return Err(DomainError::InvalidBody);
        }
        Ok(CommentDraft { body })
    }
}

#[derive(Debug)]
pub struct Comment {
    pub id: CommentId,
    pub article_id: ArticleId,
    pub author_id: UserId,
    pub body: String,
    pub created_at: Timestamp,
    pub updated_at: Timestamp,
}

impl Comment {
    pub fn new(
        id: CommentId,
        article_id: ArticleId,
        author_id: UserId,
        draft: CommentDraft,
        now: Timestamp,
    ) -> (r: Comment)
        ensures
            r.id == id,
            r.article_id == article_id,
            r.author_id == author_id,
            r.body == draft.body,
            r.created_at == now,
            r.updated_at == now,
    {
        Comment { id, article_id, author_id, body: draft.body, created_at: now, updated_at: now }
    }

    pub fn to_view(&self, author: Profile) -> (r: CommentView)
        ensures
            r.id == self.id,
            r.created_at == self.created_at,
            r.updated_at == self.updated_at,
            r.body@ == self.body@,
            r.author == author,
    {
        CommentView {
            id: self.id,
            created_at: self.created_at,
            updated_at: self.updated_at,
            body: self.body.clone(),
            author,
        }
    }
}

#[derive(Debug)]
pub struct CommentView {
    pub id: CommentId,
    pub created_at: Timestamp,
    pub updated_at: Timestamp,
    pub body: String,
    pub author: Profile,
}

#[derive(Debug)]
pub struct CommentEnvelope {
    pub comment: CommentView,
}

impl From<CommentView> for CommentEnvelope {
    fn from(value: CommentView) -> (r: CommentEnvelope) {
        CommentEnvelope { comment: value }
    }
}

impl vstd::std_specs::convert::FromSpecImpl<CommentView> for CommentEnvelope {
    open spec fn obeys_from_spec() -> bool {
        true
    }

    open spec fn from_spec(value: CommentView) -> CommentEnvelope {
        CommentEnvelope { comment: value }
    }
}

#[derive(Debug)]
pub struct CommentsEnvelope {
    pub comments: Vec<CommentView>,
}

impl From<Vec<CommentView>> for CommentsEnvelope {
    fn from(value: Vec<CommentView>) -> (r: CommentsEnvelope) {
        CommentsEnvelope { comments: value }
    }
}

impl vstd::std_specs::convert::FromSpecImpl<Vec<CommentView>> for CommentsEnvelope {
    open spec fn obeys_from_spec() -> bool {
        true
    }

    open spec fn from_spec(value: Vec<CommentView>) -> CommentsEnvelope {
        CommentsEnvelope { comments: value }
    }
}

} // verus!
