//! Comment use cases: creating and deleting.

use vstd::prelude::*;

use crate::article::Article;
use crate::comment::{Comment, CommentDraft};
use crate::errors::{DomainError, DomainResult};
use crate::identifiers::{ArticleId, CommentId, UserId};
use crate::text::trimmed;
use crate::time::Timestamp;

verus! {

/// Input for creating a new comment.
#[derive(Debug)]
pub struct CreateCommentInput {
    pub body: String,
}

/// The decision step of creating a comment on a loaded article: validate the
/// body and build the comment; the store assigns the real id later.
pub fn plan_create_comment(
    article_id: ArticleId,
    author_id: UserId,
    input: CreateCommentInput,
    now: Timestamp,
) -> (r: DomainResult<Comment>)
    ensures
        match r {
            Ok(c) => trimmed(input.body@).len() > 0 && c.id == (CommentId(0i64)) && c.article_id
                == article_id && c.author_id == author_id && c.body == input.body && c.created_at
                == now && c.updated_at == now,
            Err(e) => e == DomainError::InvalidBody && trimmed(input.body@).len() == 0,
        },
{
    let draft = match CommentDraft::new(input.body) {
        Ok(d) => d,
        Err(e) => {
            return Err(e);
        },
    };
    Ok(Comment::new(CommentId::new(0), article_id, author_id, draft, now))
}

/// Deleting a comment requires that it belong to the article and to the
/// requesting user; anything else looks like a missing comment.
pub fn authorize_comment_deletion(comment: &Comment, article: &Article, user_id: UserId) -> (r:
    DomainResult<()>)
    ensures
        r is Ok <==> comment.article_id == article.id && comment.author_id == user_id,
        r matches Err(e) ==> e == (DomainError::NotFound { entity: "comment" }),
{
    if comment.article_id.0 != article.id.0 {
        return Err(DomainError::NotFound { entity: "comment" });
    }
    if comment.author_id.0 != user_id.0 {
        return Err(DomainError::NotFound { entity: "comment" });
    }
    Ok(())
}

} // verus!
