use users_lookup::params::{BuildError, PGetUsersByIds, PGetUsersByIdsBuilder};
use users_lookup::request::{Client, UsersLookupRequest, USERS_BY_ID_ENDPOINT};
use users_lookup::response::parse_body;

fn client() -> Client {
    Client {
        api_key: String::from("key"),
        api_secret: String::from("secret"),
        bearer_token: String::from("tok123"),
    }
}

fn query_value<'a>(req: &'a UsersLookupRequest, key: &str) -> &'a str {
    let pair = req.query.iter().find(|(k, _)| k == key).expect("query key present");
    &pair.1
}

fn answer_for(id: &str) -> String {
    format!(
        "{{\"data\":[{{\"id\":\"{}\",\"name\":\"Example\",\"username\":\"example\"}}]}}",
        id
    )
}

#[test]
fn check_user_by_ids() {
    let client = client();
    let id = String::from("1504478166248611840");
    let params = PGetUsersByIdsBuilder::default().ids(vec![id.clone()]).build().unwrap();
    let req = client.users_by_ids_request(&params);
    assert_eq!(query_value(&req, "ids"), id);
    let resp = parse_body(&answer_for(&id)).unwrap();
    assert_eq!(id, resp["data"][0]["id"]);
}

#[test]
fn check_users_by_ids_with_expansions() {
    let client = client();
    let id = String::from("1504478166248611840");
    let expansions = vec!["pinned_tweet_id".to_string()];
    let params = PGetUsersByIdsBuilder::default()
        .ids(vec![id.clone()])
        .expansions(expansions)
        .build()
        .unwrap();
    let req = client.users_by_ids_request(&params);
    assert_eq!(query_value(&req, "ids"), id);
    assert_eq!(query_value(&req, "expansions"), "pinned_tweet_id");
    let resp = parse_body(&answer_for(&id)).unwrap();
    assert_eq!(id, resp["data"][0]["id"]);
}

#[test]
fn check_users_by_ids_all() {
    let client = client();
    let id = String::from("1504478166248611840");
    let expansions = vec!["pinned_tweet_id".to_string()];
    let tweet_fields = vec!["created_at".to_string()];
    let user_fields = vec!["created_at".to_string(), "profile_image_url".to_string()];
    let params = PGetUsersByIdsBuilder::default()
        .ids(vec![id.clone()])
        .expansions(expansions)
        .tweet_fields(tweet_fields)
        .user_fields(user_fields)
        .build()
        .unwrap();
    let req = client.users_by_ids_request(&params);
    assert_eq!(query_value(&req, "ids"), id);
    assert_eq!(query_value(&req, "expansions"), "pinned_tweet_id");
    assert_eq!(query_value(&req, "tweet.fields"), "created_at");
    assert_eq!(query_value(&req, "user.fields"), "created_at,profile_image_url");
    let resp = parse_body(&answer_for(&id)).unwrap();
    assert_eq!(id, resp["data"][0]["id"]);
}

#[test]
fn request_has_endpoint_header_and_ordered_query() {
    let params = PGetUsersByIds {
        ids: vec!["12".to_string(), "34".to_string(), "56".to_string()],
        expansions: Some(vec!["a".to_string(), "b".to_string()]),
        tweet_fields: Some(vec!["t".to_string()]),
        user_fields: Some(vec!["u1".to_string(), "u2".to_string()]),
    };
    let req = client().users_by_ids_request(&params);
    assert_eq!(req.url, "https://api.twitter.com/2/users");
    assert_eq!(req.url, USERS_BY_ID_ENDPOINT);
    assert_eq!(req.authorization, "Bearer tok123");
    let expected: Vec<(String, String)> = vec![
        ("ids".to_string(), "12 34 56".to_string()),
        ("expansions".to_string(), "a,b".to_string()),
        ("user.fields".to_string(), "u1,u2".to_string()),
        ("tweet.fields".to_string(), "t".to_string()),
    ];
    assert_eq!(req.query, expected);
}

#[test]
fn fields_do_not_change_ids() {
    let ids = vec!["7".to_string(), "8".to_string()];
    let bare = PGetUsersByIdsBuilder::default().ids(ids.clone()).build().unwrap();
    let full = PGetUsersByIdsBuilder::default()
        .ids(ids)
        .expansions(vec!["pinned_tweet_id".to_string()])
        .tweet_fields(vec!["created_at".to_string()])
        .user_fields(vec!["created_at".to_string()])
        .build()
        .unwrap();
    let c = client();
    let a = c.users_by_ids_request(&bare);
    let b = c.users_by_ids_request(&full);
    assert_eq!(a.query[0], b.query[0]);
    assert_eq!(a.query[0].1, "7 8");
    assert_eq!(a.url, b.url);
    assert_eq!(a.authorization, b.authorization);
}

#[test]
fn absent_and_empty_lists_give_empty_values() {
    let absent = PGetUsersByIdsBuilder::default().ids(vec!["1".to_string()]).build().unwrap();
    let empty = PGetUsersByIdsBuilder::default()
        .ids(vec!["1".to_string()])
        .expansions(vec![])
        .tweet_fields(vec![])
        .user_fields(vec![])
        .build()
        .unwrap();
    for p in [&absent, &empty] {
        let req = client().users_by_ids_request(p);
        assert_eq!(req.query.len(), 4);
        assert_eq!(query_value(&req, "ids"), "1");
        assert_eq!(query_value(&req, "expansions"), "");
        assert_eq!(query_value(&req, "user.fields"), "");
        assert_eq!(query_value(&req, "tweet.fields"), "");
    }
}

#[test]
fn build_without_ids_fails() {
    let r = PGetUsersByIdsBuilder::default()
        .expansions(vec!["pinned_tweet_id".to_string()])
        .build();
    assert_eq!(r.unwrap_err(), BuildError::MissingIds);
}

#[test]
fn build_with_empty_ids_fails() {
    let r = PGetUsersByIdsBuilder::default().ids(vec![]).build();
    assert_eq!(r.unwrap_err(), BuildError::EmptyIds);
}

#[test]
fn empty_bearer_token_gives_bare_scheme() {
    let c = Client {
        api_key: String::new(),
        api_secret: String::new(),
        bearer_token: String::new(),
    };
    assert_eq!(c.authorization(), "Bearer ");
}
