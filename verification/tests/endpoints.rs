use modio::client::Modio;
use modio::comments::Comments;
use modio::credentials::Credentials;
use modio::errors::Error;
use modio::filter::{join_query, Filter};
use modio::request::Method;
use modio::response::{decoded, ResponseHead, Snapshot, Verdict};
use modio::text::{join, render};
use modio::users::{Resource, Users};

fn with_key() -> Modio {
    Modio::host("https://api.example.com/v1", "agent", Some(Credentials::ApiKey("ABC".to_string())))
}

fn with_token() -> Modio {
    Modio::host("https://api.example.com/v1", "agent", Some(Credentials::Token("T".to_string())))
}

#[test]
fn listing_comments_with_a_key_and_a_filter() {
    let comments = Comments::new(with_key(), 7, 3);
    let request = comments.list(&Filter::new("id=1,2")).unwrap();
    assert_eq!(request.method, Method::Get);
    assert_eq!(request.url, "https://api.example.com/v1/games/7/mods/3/comments?id=1,2&api_key=ABC");
    assert_eq!(request.authorization, None);

    let response = ResponseHead {
        status: 200,
        limits: Snapshot::read(Some(&b"98"[..]), None),
        location: None,
    };
    assert_eq!(response.verdict(), Verdict::Success);
    let body = b"{\"data\":[{\"id\":1},{\"id\":2}],\"result_total\":2}";
    let list = decoded(serde_json::from_slice::<serde_json::Value>(body).map_err(|error| error.to_string()))
        .unwrap();
    assert_eq!(list["data"].as_array().map(|data| data.len()), Some(2));
    assert_eq!(list["result_total"].as_u64(), Some(2));
}

#[test]
fn listing_comments_without_filter_has_no_question_mark() {
    let comments = Comments::new(with_token(), 7, 3);
    let request = comments.list(&Filter::default()).unwrap();
    assert_eq!(request.url, "https://api.example.com/v1/games/7/mods/3/comments");
    let request = comments.list(&Filter::new("")).unwrap();
    assert_eq!(request.url, "https://api.example.com/v1/games/7/mods/3/comments");
}

#[test]
fn stream_of_comments_starts_with_the_listing() {
    let comments = Comments::new(with_key(), 7, 3);
    let filter = Filter::new("_sort=-id");
    let first = comments.iter(&filter).unwrap();
    let list = comments.list(&filter).unwrap();
    assert_eq!(first.url, "https://api.example.com/v1/games/7/mods/3/comments?_sort=-id&api_key=ABC");
    assert_eq!(first.url, list.url);
    assert_eq!(first.method, list.method);
}

#[test]
fn comment_paths() {
    let comments = Comments::new(with_token(), 4294967295, 0);
    assert_eq!(comments.path(""), "/games/4294967295/mods/0/comments");
    assert_eq!(comments.path("/12"), "/games/4294967295/mods/0/comments/12");
    let request = comments.get(12).unwrap();
    assert_eq!(request.method, Method::Get);
    assert_eq!(request.url, "https://api.example.com/v1/games/4294967295/mods/0/comments/12");
}

#[test]
fn deleting_a_comment_needs_a_token() {
    let request = Comments::new(with_token(), 7, 3).delete(12).unwrap();
    assert_eq!(request.method, Method::Delete);
    assert_eq!(request.url, "https://api.example.com/v1/games/7/mods/3/comments/12");
    assert_eq!(request.authorization.as_deref(), Some("Bearer T"));
    assert_eq!(request.body, None);

    assert!(matches!(Comments::new(with_key(), 7, 3).delete(12), Err(Error::TokenRequired)));
    let anonymous = Modio::host("https://api.example.com/v1", "agent", None);
    assert!(matches!(Comments::new(anonymous, 7, 3).delete(12), Err(Error::TokenRequired)));
}

#[test]
fn token_is_asked_for_before_the_address_is_read() {
    let broken = Modio::host("no host", "agent", Some(Credentials::ApiKey("ABC".to_string())));
    assert!(matches!(Comments::new(broken, 7, 3).delete(12), Err(Error::TokenRequired)));
    let broken = Modio::host("no host", "agent", Some(Credentials::Token("T".to_string())));
    assert!(matches!(Comments::new(broken, 7, 3).delete(12), Err(Error::UrlParse(_))));
}

#[test]
fn listing_users() {
    let users = Users::new(with_key());
    let request = users.list(&Filter::new("id-in=1,2")).unwrap();
    assert_eq!(request.method, Method::Get);
    assert_eq!(request.url, "https://api.example.com/v1/users?id-in=1,2&api_key=ABC");
    let request = users.list(&Filter::default()).unwrap();
    assert_eq!(request.url, "https://api.example.com/v1/users?api_key=ABC");
    let request = users.iter(&Filter::new("id-in=1,2")).unwrap();
    assert_eq!(request.url, "https://api.example.com/v1/users?id-in=1,2&api_key=ABC");
}

#[test]
fn reading_a_user() {
    let request = Users::new(with_token()).get(42).unwrap();
    assert_eq!(request.method, Method::Get);
    assert_eq!(request.url, "https://api.example.com/v1/users/42");
}

#[test]
fn owner_of_a_resource_is_asked_for_with_url_encoded_pairs() {
    let request = Users::new(with_token()).get_owner(Resource::Mod(34)).unwrap();
    assert_eq!(request.method, Method::Post);
    assert_eq!(request.url, "https://api.example.com/v1/general/ownership");
    assert_eq!(request.body, Some(b"resource_type=mods&resource_id=34".to_vec()));
    assert_eq!(request.content_type.as_deref(), Some("application/x-www-form-urlencoded"));
    assert_eq!(request.authorization.as_deref(), Some("Bearer T"));

    assert!(matches!(Users::new(with_key()).get_owner(Resource::Mod(34)), Err(Error::TokenRequired)));
}

#[test]
fn resources_render_as_pairs() {
    assert_eq!(Resource::Game(1).to_query_string(), "resource_type=games&resource_id=1");
    assert_eq!(Resource::Mod(34).to_query_string(), "resource_type=mods&resource_id=34");
    assert_eq!(Resource::File(0).to_query_string(), "resource_type=files&resource_id=0");
    assert_eq!(
        Resource::File(4294967295).to_query_string(),
        "resource_type=files&resource_id=4294967295"
    );
}

#[test]
fn filter_renders_to_its_query() {
    assert_eq!(Filter::new("id=1,2").to_query_string(), "id=1,2");
    assert_eq!(Filter::default().to_query_string(), "");
    assert_eq!(join_query("/users".to_string(), "a=b"), "/users?a=b");
    assert_eq!(join_query("/users".to_string(), ""), "/users");
}

#[test]
fn numbers_render_in_decimal() {
    assert_eq!(render(0), "0");
    assert_eq!(render(7), "7");
    assert_eq!(render(10), "10");
    assert_eq!(render(109), "109");
    assert_eq!(render(4294967295), "4294967295");
    for number in [1u32, 9, 11, 99, 100, 1000, 65535, 65536, 123456789] {
        assert_eq!(render(number), number.to_string());
    }
    assert_eq!(join("a", "b"), "ab");
    assert_eq!(join("", ""), "");
}
