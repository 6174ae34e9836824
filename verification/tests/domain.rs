use realworld_core::article::{Article, ArticleChanges, ArticleDraft, Slug};
use realworld_core::comment::{Comment, CommentDraft};
use realworld_core::errors::DomainError;
use realworld_core::identifiers::{ArticleId, CommentId, UserId};
use realworld_core::pagination::{Pagination, DEFAULT_LIMIT, MAX_LIMIT};
use realworld_core::profile::Profile;
use realworld_core::tags::{Tag, TagList};
use realworld_core::time::Timestamp;
use realworld_core::user::{
    AuthToken, Email, ImageUrl, PasswordHash, PlainPassword, UpdateUserInput, User, Username,
};

fn article_id() -> ArticleId {
    ArticleId::random()
}

fn user_id() -> UserId {
    UserId::random()
}

fn now() -> Timestamp {
    Timestamp::now()
}

fn profile(name: &str) -> Profile {
    Profile::new(Username::new(name.to_string()).unwrap(), None, None, false)
}

fn password() -> PasswordHash {
    PasswordHash::new("hashed-password".to_string()).unwrap()
}

#[test]
fn slug_from_title_strips_invalid_chars() {
    let slug = Slug::from_title(" Hello, World! ").unwrap();
    assert_eq!(slug.as_str(), "hello-world");
}

#[test]
fn slug_rejects_empty_titles() {
    assert_eq!(Slug::from_title("   ").unwrap_err(), DomainError::InvalidSlug);
}

#[test]
fn publish_generates_slug_and_defaults_counters() {
    let draft = ArticleDraft::new(
        "How to Train".to_string(),
        "desc".to_string(),
        "body".to_string(),
        TagList::new(vec!["rust".to_string(), "rust".to_string()]).unwrap(),
    )
    .unwrap();
    let article = Article::publish(article_id(), user_id(), draft, now()).unwrap();
    assert_eq!(article.slug.as_str(), "how-to-train");
    assert_eq!(article.favorites_count, 0);
}

#[test]
fn apply_changes_updates_fields_and_slug() {
    let draft = ArticleDraft::new(
        "Title".to_string(),
        "desc".to_string(),
        "body".to_string(),
        TagList::default(),
    )
    .unwrap();
    let mut article = Article::publish(article_id(), user_id(), draft, now()).unwrap();
    let changes = ArticleChanges {
        title: Some("New Title".into()),
        description: Some("new desc".into()),
        body: Some("new body".into()),
        tag_list: Some(TagList::new(vec!["rust".to_string()]).unwrap()),
    };
    let future = Timestamp::from_millis(article.created_at.as_millis() + 10 * 60 * 1000);
    article.apply_changes(changes, future).unwrap();
    assert_eq!(article.title, "New Title");
    assert_eq!(article.slug.as_str(), "new-title");
    assert_eq!(article.description, "new desc");
    assert_eq!(article.body, "new body");
    assert_eq!(article.tag_list.as_slice().len(), 1);
    assert_eq!(article.updated_at, future);
}

#[test]
fn favorite_counters_saturate() {
    let draft = ArticleDraft::new(
        "Title".to_string(),
        "desc".to_string(),
        "body".to_string(),
        TagList::default(),
    )
    .unwrap();
    let mut article = Article::publish(article_id(), user_id(), draft, now()).unwrap();
    article.favorite();
    assert_eq!(article.favorites_count, 1);
    article.unfavorite();
    assert_eq!(article.favorites_count, 0);
    article.unfavorite();
    assert_eq!(article.favorites_count, 0);
}

#[test]
fn to_view_clones_all_visible_fields() {
    let draft = ArticleDraft::new(
        "Title".to_string(),
        "desc".to_string(),
        "body".to_string(),
        TagList::default(),
    )
    .unwrap();
    let article = Article::publish(article_id(), user_id(), draft, now()).unwrap();
    let author = profile("alice");
    let view = article.to_view(author.clone(), true);
    assert_eq!(view.slug.as_str(), article.slug.as_str());
    assert_eq!(view.author.username.as_str(), author.username.as_str());
    assert!(view.favorited);
}

#[test]
fn comment_draft_requires_body() {
    assert!(CommentDraft::new("hello".to_string()).is_ok());
    assert_eq!(
        CommentDraft::new("   ".to_string()).unwrap_err(),
        DomainError::InvalidBody
    );
}

#[test]
fn comment_to_view_clones_fields() {
    let draft = CommentDraft::new("hello".to_string()).unwrap();
    let comment = Comment::new(CommentId::new(1), article_id(), user_id(), draft, now());
    let author = profile("jake");
    let view = comment.to_view(author.clone());
    assert_eq!(view.id.as_i64(), 1);
    assert_eq!(view.body, "hello");
    assert_eq!(view.author.username.as_str(), author.username.as_str());
}

#[test]
fn user_id_wraps_uuid() {
    let uuid = uuid::Uuid::new_v4();
    let id = UserId::from(uuid.as_u128());
    assert_eq!(id.as_u128(), uuid.as_u128());
}

#[test]
fn comment_id_converts_to_i64() {
    let id = CommentId::new(42);
    assert_eq!(id.as_i64(), 42);
    let n: i64 = id.into();
    assert_eq!(n, 42);
}

#[test]
fn pagination_applies_defaults() {
    let pagination = Pagination::new(None, None).unwrap();
    assert_eq!(pagination.limit(), DEFAULT_LIMIT);
    assert_eq!(pagination.offset(), 0);
}

#[test]
fn pagination_rejects_out_of_range_limit() {
    assert_eq!(
        Pagination::new(Some(MAX_LIMIT + 1), None).unwrap_err(),
        DomainError::LimitOutOfRange
    );
}

#[test]
fn profile_follow_and_unfollow_toggle_flag() {
    let mut profile = Profile::new(Username::new("jake".to_string()).unwrap(), None, None, false);
    profile.follow();
    assert!(profile.following);
    profile.unfollow();
    assert!(!profile.following);
}

#[test]
fn test_validate_follow_action_success() {
    let target_id = UserId::random();
    let follower_id = UserId::random();

    let result = Profile::validate_follow_action(&target_id, &follower_id);
    assert!(result.is_ok());
}

#[test]
fn test_validate_follow_action_self_follow() {
    let user_id = UserId::random();

    let result = Profile::validate_follow_action(&user_id, &user_id);
    assert!(result.is_err());
}

#[test]
fn tag_validation_rejects_blank_values() {
    assert!(Tag::new("rust".to_string()).is_ok());
    assert_eq!(Tag::new("   ".to_string()).unwrap_err(), DomainError::InvalidTag);
}

#[test]
fn tag_list_deduplicates() {
    let tags =
        TagList::new(vec!["rust".to_string(), "rust".to_string(), "axum".to_string()]).unwrap();
    assert_eq!(tags.as_slice().len(), 2);
    assert!(tags.contains(&Tag::new("rust".to_string()).unwrap()));
}

#[test]
fn email_parse_validates_format() {
    assert!(Email::parse("test@example.com".to_string()).is_ok());
    assert_eq!(
        Email::parse("invalid".to_string()).unwrap_err(),
        DomainError::InvalidEmail
    );
}

#[test]
fn plain_password_requires_min_length() {
    assert!(PlainPassword::new("12345678".to_string()).is_ok());
    assert_eq!(
        PlainPassword::new("short".to_string()).unwrap_err(),
        DomainError::InvalidPassword
    );
}

#[test]
fn user_apply_update_overrides_fields() {
    let mut user = User::new(
        user_id(),
        Email::parse("old@example.com".to_string()).unwrap(),
        Username::new("old-name".to_string()).unwrap(),
        password(),
        now(),
    );
    let new_time = Timestamp::from_millis(user.created_at.as_millis() + 5 * 60 * 1000);
    let changes = UpdateUserInput {
        email: Some(Email::parse("new@example.com".to_string()).unwrap()),
        username: Some(Username::new("new-name".to_string()).unwrap()),
        bio: Some(Some("bio".into())),
        image: Some(Some(ImageUrl::new("https://example.com".to_string()).unwrap())),
        password: None,
        password_hash: Some(PasswordHash::new("new-hash".to_string()).unwrap()),
    };

    user.apply_update(changes, new_time);

    assert_eq!(user.email.as_str(), "new@example.com");
    assert_eq!(user.username.as_str(), "new-name");
    assert_eq!(user.bio.as_deref(), Some("bio"));
    assert_eq!(user.image.as_ref().map(ImageUrl::as_str), Some("https://example.com"));
    assert_eq!(user.password_hash.as_str(), "new-hash");
    assert_eq!(user.updated_at, new_time);
}

#[test]
fn user_to_profile_sets_following_flag() {
    let user = User::new(
        user_id(),
        Email::parse("user@example.com".to_string()).unwrap(),
        Username::new("jake".to_string()).unwrap(),
        password(),
        now(),
    );
    let profile = user.to_profile(true);
    assert!(profile.following);
    assert_eq!(profile.username.as_str(), "jake");
}

#[test]
fn user_to_view_clones_public_fields() {
    let mut user = User::new(
        user_id(),
        Email::parse("user@example.com".to_string()).unwrap(),
        Username::new("jake".to_string()).unwrap(),
        password(),
        now(),
    );
    user.bio = Some("hi".into());
    let token = AuthToken::new("jwt".to_string()).unwrap();
    let view = user.to_view(Some(token.clone()));
    assert_eq!(view.email.as_str(), "user@example.com");
    assert_eq!(view.username.as_str(), "jake");
    assert_eq!(view.bio.as_deref(), Some("hi"));
    assert_eq!(view.token.unwrap().as_str(), token.as_str());
}

fn create_test_user(id: UserId, username: &str, email: &str) -> User {
    User::new(
        id,
        Email::parse(email.to_string()).unwrap(),
        Username::new(username.to_string()).unwrap(),
        PasswordHash::new("hash".to_string()).unwrap(),
        Timestamp::now(),
    )
}

#[test]
fn test_create_test_user() {
    let user = create_test_user(UserId::random(), "test", "test@example.com");
    assert_eq!(user.username.as_str(), "test");
}

#[test]
fn test_hash_password() {
    let password = PlainPassword::new("password123".to_string()).unwrap();
    let hash = realworld_core::auth::hash_password(&password).unwrap();
    assert!(hash.as_str().starts_with("hashed:"));
    assert!(hash.as_str().contains("password123"));
}

#[test]
fn test_module_exists() {}
