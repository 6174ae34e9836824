use realworld_core::identifiers::{ArticleId, UserId};
use realworld_core::services::{
    add_follower, is_article_favorited, is_following, remove_follower, FavoriteMap, FollowerMap,
};

#[test]
fn test_add_follower() {
    let mut followers = FollowerMap::new();
    let target_id = UserId::random();
    let follower_id = UserId::random();

    add_follower(&mut followers, target_id, follower_id);

    assert!(is_following(&followers, target_id, follower_id));
}

#[test]
fn test_add_multiple_followers() {
    let mut followers = FollowerMap::new();
    let target_id = UserId::random();
    let follower1 = UserId::random();
    let follower2 = UserId::random();

    add_follower(&mut followers, target_id, follower1);
    add_follower(&mut followers, target_id, follower2);

    assert!(is_following(&followers, target_id, follower1));
    assert!(is_following(&followers, target_id, follower2));
}

#[test]
fn test_remove_follower() {
    let mut followers = FollowerMap::new();
    let target_id = UserId::random();
    let follower_id = UserId::random();

    add_follower(&mut followers, target_id, follower_id);
    remove_follower(&mut followers, target_id, follower_id);

    assert!(!is_following(&followers, target_id, follower_id));
}

#[test]
fn test_remove_follower_not_following() {
    let mut followers = FollowerMap::new();
    let target_id = UserId::random();
    let follower_id = UserId::random();

    remove_follower(&mut followers, target_id, follower_id);
}

#[test]
fn test_is_following_true() {
    let mut followers = FollowerMap::new();
    let target_id = UserId::random();
    let follower_id = UserId::random();

    add_follower(&mut followers, target_id, follower_id);

    assert!(is_following(&followers, target_id, follower_id));
}

#[test]
fn test_is_following_false() {
    let followers = FollowerMap::new();
    let target_id = UserId::random();
    let follower_id = UserId::random();

    assert!(!is_following(&followers, target_id, follower_id));
}

#[test]
fn test_is_article_favorited_true() {
    let mut favorites = FavoriteMap::new();
    let article_id = ArticleId::random();
    let user_id = UserId::random();

    favorites.add(article_id, user_id);

    assert!(is_article_favorited(&favorites, article_id, user_id));
}

#[test]
fn test_is_article_favorited_false() {
    let favorites = FavoriteMap::new();
    let article_id = ArticleId::random();
    let user_id = UserId::random();

    assert!(!is_article_favorited(&favorites, article_id, user_id));
}

#[test]
fn remove_follower_keeps_other_pairs() {
    let mut followers = FollowerMap::new();
    let target = UserId::new(1);
    let alice = UserId::new(2);
    let bob = UserId::new(3);

    add_follower(&mut followers, target, alice);
    add_follower(&mut followers, target, bob);
    remove_follower(&mut followers, target, alice);

    assert!(!is_following(&followers, target, alice));
    assert!(is_following(&followers, target, bob));
}
