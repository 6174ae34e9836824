use realworld_core::article::{Article, ArticleDraft, ArticleFilters};
use realworld_core::identifiers::{ArticleId, UserId};
use realworld_core::listing::{feed_articles, list_articles};
use realworld_core::pagination::Pagination;
use realworld_core::services::{add_follower, FavoriteMap, FollowerMap};
use realworld_core::tags::TagList;
use realworld_core::time::Timestamp;
use realworld_core::user::{Email, PasswordHash, User, Username};

fn user(id: u128, name: &str) -> User {
    User::new(
        UserId::new(id),
        Email::parse(format!("{name}@example.com")).unwrap(),
        Username::new(name.to_string()).unwrap(),
        PasswordHash::new("hash".to_string()).unwrap(),
        Timestamp::from_millis(0),
    )
}

fn article(id: u128, author: u128, title: &str, tags: Vec<&str>) -> Article {
    let tag_list = TagList::new(tags.into_iter().map(str::to_string).collect()).unwrap();
    let draft =
        ArticleDraft::new(title.to_string(), "desc".to_string(), "body".to_string(), tag_list)
            .unwrap();
    Article::publish(ArticleId::new(id), UserId::new(author), draft, Timestamp::from_millis(0))
        .unwrap()
}

fn filters(
    tag: Option<&str>,
    author: Option<&str>,
    favorited: Option<&str>,
    limit: u32,
    offset: u32,
) -> ArticleFilters {
    ArticleFilters::new(
        tag.map(str::to_string),
        author.map(str::to_string),
        favorited.map(str::to_string),
        Some(Pagination::new(Some(limit), Some(offset)).unwrap()),
    )
    .unwrap()
}

fn snapshot() -> (Vec<Article>, Vec<User>) {
    let users = vec![user(1, "alice"), user(2, "bob")];
    let articles = vec![
        article(10, 1, "Rust Intro", vec!["rust"]),
        article(11, 2, "Axum Tips", vec!["axum"]),
        article(12, 1, "More Rust", vec!["rust", "axum"]),
    ];
    (articles, users)
}

#[test]
fn list_without_filters_returns_everything() {
    let (articles, users) = snapshot();
    let favorites = FavoriteMap::new();
    let out = list_articles(&articles, &users, &favorites, &filters(None, None, None, 20, 0));
    assert_eq!(out.articles_count, 3);
    assert_eq!(out.articles.len(), 3);
    assert_eq!(out.articles[0].slug.as_str(), "rust-intro");
    assert_eq!(out.articles[0].author.username.as_str(), "alice");
    assert!(!out.articles[0].favorited);
    assert!(!out.articles[0].author.following);
}

#[test]
fn list_filters_by_tag_author_and_favoriter() {
    let (articles, users) = snapshot();
    let mut favorites = FavoriteMap::new();
    favorites.add(ArticleId::new(11), UserId::new(1));

    let by_tag = list_articles(&articles, &users, &favorites, &filters(Some("rust"), None, None, 20, 0));
    assert_eq!(by_tag.articles_count, 2);

    let by_author =
        list_articles(&articles, &users, &favorites, &filters(None, Some("bob"), None, 20, 0));
    assert_eq!(by_author.articles_count, 1);
    assert_eq!(by_author.articles[0].slug.as_str(), "axum-tips");

    let by_favoriter =
        list_articles(&articles, &users, &favorites, &filters(None, None, Some("alice"), 20, 0));
    assert_eq!(by_favoriter.articles_count, 1);
    assert_eq!(by_favoriter.articles[0].slug.as_str(), "axum-tips");

    let unknown =
        list_articles(&articles, &users, &favorites, &filters(None, Some("nobody"), None, 20, 0));
    assert_eq!(unknown.articles_count, 0);
    assert!(unknown.articles.is_empty());
}

#[test]
fn list_paginates_and_counts_everything() {
    let (articles, users) = snapshot();
    let favorites = FavoriteMap::new();

    let page = list_articles(&articles, &users, &favorites, &filters(None, None, None, 2, 0));
    assert_eq!(page.articles_count, 3);
    assert_eq!(page.articles.len(), 2);

    let second = list_articles(&articles, &users, &favorites, &filters(None, None, None, 2, 2));
    assert_eq!(second.articles_count, 3);
    assert_eq!(second.articles.len(), 1);
    assert_eq!(second.articles[0].slug.as_str(), "more-rust");

    let past_the_end =
        list_articles(&articles, &users, &favorites, &filters(None, None, None, 2, 9));
    assert_eq!(past_the_end.articles_count, 3);
    assert!(past_the_end.articles.is_empty());
}

#[test]
fn feed_holds_only_followed_authors() {
    let (articles, users) = snapshot();
    let viewer = UserId::new(7);
    let mut followers = FollowerMap::new();
    add_follower(&mut followers, UserId::new(1), viewer);
    let mut favorites = FavoriteMap::new();
    favorites.add(ArticleId::new(12), viewer);

    let feed = feed_articles(
        &articles,
        &users,
        &followers,
        &favorites,
        viewer,
        &realworld_core::article::FeedFilters::new(None),
    );
    assert_eq!(feed.articles_count, 2);
    assert_eq!(feed.articles.len(), 2);
    assert_eq!(feed.articles[0].slug.as_str(), "rust-intro");
    assert!(feed.articles[0].author.following);
    assert!(!feed.articles[0].favorited);
    assert_eq!(feed.articles[1].slug.as_str(), "more-rust");
    assert!(feed.articles[1].favorited);
}
