use realworld_core::article::{Article, ArticleDraft};
use realworld_core::comment::{Comment, CommentDraft};
use realworld_core::errors::DomainError;
use realworld_core::identifiers::{ArticleId, CommentId, UserId};
use realworld_core::tags::TagList;
use realworld_core::time::Timestamp;
use realworld_core::use_cases::articles::{
    authorize_article_update, plan_article_changes, plan_create_article, plan_feed_articles,
    plan_list_articles, CreateArticleInput, FeedArticlesInput, ListArticlesInput,
    UpdateArticleInput,
};
use realworld_core::use_cases::comments::{
    authorize_comment_deletion, plan_create_comment, CreateCommentInput,
};
use realworld_core::use_cases::users::{
    finish_registration, plan_user_update, validate_registration, verify_login,
    RegisterUserInput, UpdateUserInput,
};
use realworld_core::user::{Email, PasswordHash, User, Username};

fn now() -> Timestamp {
    Timestamp::from_millis(1_700_000_000_000)
}

fn hash(value: &str) -> PasswordHash {
    PasswordHash::new(value.to_string()).unwrap()
}

fn existing_user() -> User {
    User::new(
        UserId::new(1),
        Email::parse("test@example.com".to_string()).unwrap(),
        Username::new("testuser".to_string()).unwrap(),
        hash("hash"),
        now(),
    )
}

#[test]
fn create_article_builds_slug_tags_and_counters() {
    let input = CreateArticleInput {
        title: "How to Train".to_string(),
        description: "desc".to_string(),
        body: "body".to_string(),
        tag_list: vec!["rust".to_string(), " rust ".to_string()],
    };
    let article = plan_create_article(ArticleId::new(9), UserId::new(1), input, now()).unwrap();
    assert_eq!(article.slug.as_str(), "how-to-train");
    assert_eq!(article.tag_list.as_slice().len(), 1);
    assert_eq!(article.favorites_count, 0);
}

#[test]
fn create_article_checks_tags_before_the_draft() {
    let input = CreateArticleInput {
        title: "   ".to_string(),
        description: "".to_string(),
        body: "".to_string(),
        tag_list: vec!["  ".to_string()],
    };
    assert_eq!(
        plan_create_article(ArticleId::new(9), UserId::new(1), input, now()).unwrap_err(),
        DomainError::InvalidTag
    );

    let input = CreateArticleInput {
        title: "   ".to_string(),
        description: "".to_string(),
        body: "".to_string(),
        tag_list: vec![],
    };
    assert_eq!(
        plan_create_article(ArticleId::new(9), UserId::new(1), input, now()).unwrap_err(),
        DomainError::InvalidTitle
    );
}

#[test]
fn list_and_feed_inputs_apply_pagination_rules() {
    let filters = plan_list_articles(ListArticlesInput {
        tag: Some(" rust ".to_string()),
        author: None,
        favorited: None,
        limit: None,
        offset: None,
    })
    .unwrap();
    assert_eq!(filters.pagination.limit(), 20);
    assert_eq!(filters.tag.unwrap().as_str(), "rust");

    let err = plan_list_articles(ListArticlesInput {
        tag: None,
        author: None,
        favorited: None,
        limit: Some(0),
        offset: None,
    })
    .unwrap_err();
    assert_eq!(err, DomainError::LimitOutOfRange);

    let feed = plan_feed_articles(FeedArticlesInput { limit: Some(7), offset: Some(3) }).unwrap();
    assert_eq!(feed.pagination.limit(), 7);
    assert_eq!(feed.pagination.offset(), 3);
}

#[test]
fn only_the_author_may_update_an_article() {
    let draft = ArticleDraft::new(
        "Title".to_string(),
        "desc".to_string(),
        "body".to_string(),
        TagList::default(),
    )
    .unwrap();
    let article = Article::publish(ArticleId::new(5), UserId::new(1), draft, now()).unwrap();
    assert!(authorize_article_update(&article, &UserId::new(1)).is_ok());
    assert_eq!(
        authorize_article_update(&article, &UserId::new(2)).unwrap_err(),
        DomainError::UnauthorizedAction
    );
}

#[test]
fn article_changes_validate_the_tag_list() {
    let changes = plan_article_changes(UpdateArticleInput {
        title: Some("New".to_string()),
        description: None,
        body: None,
        tag_list: Some(vec!["a".to_string(), "a".to_string(), "b".to_string()]),
    })
    .unwrap();
    assert_eq!(changes.tag_list.unwrap().as_slice().len(), 2);

    let err = plan_article_changes(UpdateArticleInput {
        title: None,
        description: None,
        body: None,
        tag_list: Some(vec![" ".to_string()]),
    })
    .unwrap_err();
    assert_eq!(err, DomainError::InvalidTag);
}

#[test]
fn registration_validates_then_rejects_conflicts() {
    let (username, email, password_hash) = validate_registration(RegisterUserInput {
        username: " jake ".to_string(),
        email: "jake@example.com".to_string(),
        password_hash: hash("hashed:pw"),
    })
    .unwrap();
    assert_eq!(username.as_str(), "jake");
    assert_eq!(email.as_str(), "jake@example.com");

    let err = finish_registration(
        UserId::new(2),
        username.clone(),
        email.clone(),
        password_hash.clone(),
        true,
        true,
        now(),
    )
    .unwrap_err();
    assert_eq!(err, DomainError::Conflict { entity: "email" });

    let err = finish_registration(
        UserId::new(2),
        username.clone(),
        email.clone(),
        password_hash.clone(),
        false,
        true,
        now(),
    )
    .unwrap_err();
    assert_eq!(err, DomainError::Conflict { entity: "username" });

    let user =
        finish_registration(UserId::new(2), username, email, password_hash, false, false, now())
            .unwrap();
    assert_eq!(user.username.as_str(), "jake");
    assert!(user.bio.is_none());
}

#[test]
fn login_requires_the_matching_hash() {
    let user = existing_user();
    assert!(verify_login(&user, &hash("hash")).is_ok());
    assert_eq!(
        verify_login(&user, &hash("other")).unwrap_err(),
        DomainError::UnauthorizedAction
    );
}

#[test]
fn user_update_rejects_taken_email_but_keeps_own() {
    let mut user = existing_user();
    let err = plan_user_update(
        &mut user,
        UpdateUserInput {
            email: Some("other@example.com".to_string()),
            username: None,
            bio: None,
            image: None,
            password_hash: None,
        },
        true,
        false,
        now(),
    )
    .unwrap_err();
    assert_eq!(err, DomainError::Conflict { entity: "email" });
    assert_eq!(user.email.as_str(), "test@example.com");

    // The user's own email is not a conflict even when the lookup finds it.
    let mut user = existing_user();
    plan_user_update(
        &mut user,
        UpdateUserInput {
            email: Some("test@example.com".to_string()),
            username: None,
            bio: Some(Some("New bio".to_string())),
            image: None,
            password_hash: None,
        },
        true,
        false,
        now(),
    )
    .unwrap();
    assert_eq!(user.bio.as_deref(), Some("New bio"));
}

#[test]
fn comment_creation_and_deletion_rules() {
    let comment = plan_create_comment(
        ArticleId::new(5),
        UserId::new(1),
        CreateCommentInput { body: "hello".to_string() },
        now(),
    )
    .unwrap();
    assert_eq!(comment.id.as_i64(), 0);
    assert_eq!(comment.body, "hello");

    let err = plan_create_comment(
        ArticleId::new(5),
        UserId::new(1),
        CreateCommentInput { body: "   ".to_string() },
        now(),
    )
    .unwrap_err();
    assert_eq!(err, DomainError::InvalidBody);

    let draft = ArticleDraft::new(
        "Title".to_string(),
        "desc".to_string(),
        "body".to_string(),
        TagList::default(),
    )
    .unwrap();
    let article = Article::publish(ArticleId::new(5), UserId::new(1), draft, now()).unwrap();
    let comment = Comment::new(
        CommentId::new(3),
        ArticleId::new(5),
        UserId::new(1),
        CommentDraft::new("hi".to_string()).unwrap(),
        now(),
    );
    assert!(authorize_comment_deletion(&comment, &article, UserId::new(1)).is_ok());
    assert_eq!(
        authorize_comment_deletion(&comment, &article, UserId::new(2)).unwrap_err(),
        DomainError::NotFound { entity: "comment" }
    );
}
