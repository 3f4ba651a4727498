use unsplash_image::params::UnsplashParameters;
use unsplash_image::request::{photo_request, API_URL, AUTHORIZATION};

#[test]
fn endpoint_and_header_name_are_fixed() {
    assert_eq!(API_URL, "https://api.unsplash.com/photos/random");
    assert_eq!(AUTHORIZATION, "Authorization");
}

#[test]
fn request_carries_endpoint_query_and_client_id() {
    let mut params = UnsplashParameters::new();
    params.topics = "nature".to_string();
    let request = photo_request("key-123", params.get_query());
    assert_eq!(request.url, "https://api.unsplash.com/photos/random");
    assert_eq!(
        request.query,
        vec![("topics", "nature".to_string()), ("orientation", "landscape".to_string())]
    );
    assert_eq!(request.header, ("Authorization", "Client-ID key-123".to_string()));
}

#[test]
fn request_keeps_the_query_as_it_is() {
    let query = vec![("b", "2".to_string()), ("a", "1".to_string()), ("b", "3".to_string())];
    let request = photo_request("k", query.clone());
    assert_eq!(request.query, query);
}

#[test]
fn empty_key_gives_a_bare_client_id() {
    let request = photo_request("", Vec::new());
    assert_eq!(request.header.1, "Client-ID ");
    assert!(request.query.is_empty());
}
