use cli_app::apperr::ServiceError;
use cli_app::model::PostStatus;
use cli_app::post_service::{
    CreatePostRequest, InMemoryPostService, PostService, UpdatePostRequest,
};

const NOW: i64 = 1_700_000_000;

fn create_request(slug: &str, title: &str) -> CreatePostRequest {
    CreatePostRequest {
        author_id: 1,
        title: title.to_string(),
        slug: slug.to_string(),
        content: "body".to_string(),
        status: PostStatus::Draft,
    }
}

#[test]
fn create_then_get_by_slug() {
    let mut svc = InMemoryPostService::default();
    let created = svc.create_post(create_request("hello-world", "Hello"), NOW);
    assert_ne!(created.id, 0);
    assert_eq!(created.created, NOW);
    assert_eq!(created.updated, NOW);

    let found = svc.get_post_by_slug("hello-world").unwrap();
    assert_eq!(found.id, created.id);
    assert_eq!(found.title, "Hello");
    assert!(svc.get_post_by_slug("no-such-slug").is_none());
}

#[test]
fn update_replaces_fields_and_refreshes_updated() {
    let mut svc = InMemoryPostService::default();
    let created = svc.create_post(create_request("hello-world", "Hello"), NOW);

    let later = NOW + 50;
    let req = UpdatePostRequest {
        id: created.id,
        author_id: 2,
        title: "Hello again".to_string(),
        slug: "hello-again".to_string(),
        content: "new body".to_string(),
        status: PostStatus::Published,
    };
    let updated = svc.update_post(created.id, req, later).unwrap();
    assert_eq!(updated.id, created.id);
    assert_eq!(updated.author_id, 2);
    assert_eq!(updated.title, "Hello again");
    assert_eq!(updated.slug, "hello-again");
    assert_eq!(updated.content, "new body");
    assert!(matches!(updated.status, PostStatus::Published));
    assert_eq!(updated.created, NOW);
    assert_eq!(updated.updated, later);
    assert_eq!(svc.get_all_posts().len(), 1);
}

#[test]
fn update_of_missing_id_returns_not_found() {
    let mut svc = InMemoryPostService::default();
    let req = UpdatePostRequest {
        id: 9999,
        author_id: 1,
        title: "t".to_string(),
        slug: "s".to_string(),
        content: "c".to_string(),
        status: PostStatus::Draft,
    };
    assert_eq!(svc.update_post(9999, req, NOW).unwrap_err(), ServiceError::NotFound);
    assert!(svc.get_all_posts().is_empty());
}

#[test]
fn deleting_a_post_twice_fails_the_second_time() {
    let mut svc = InMemoryPostService::default();
    let p = svc.create_post(create_request("s", "t"), NOW);
    assert!(svc.delete_post(p.id).is_ok());
    assert_eq!(svc.delete_post(p.id).unwrap_err(), ServiceError::NotFound);
}

#[test]
fn creates_receive_distinct_increasing_ids() {
    let mut svc = InMemoryPostService::default();
    let mut last = 0;
    for k in 0..10 {
        let p = svc.create_post(create_request(&format!("s{}", k), "t"), NOW);
        assert!(p.id > last);
        last = p.id;
    }
}
