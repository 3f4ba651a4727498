use unsplash_image::params::UnsplashParameters;

fn text(s: &str) -> String {
    s.to_string()
}

#[test]
fn new_leaves_every_field_unset() {
    let params = UnsplashParameters::new();
    assert!(params.collections.is_empty());
    assert!(params.topics.is_empty());
    assert!(params.username.is_empty());
    assert!(params.query.is_empty());
    assert!(params.orientation.is_empty());
    assert!(params.content_filter.is_empty());
}

#[test]
fn unset_fields_render_the_default_orientation_alone() {
    let params = UnsplashParameters::new();
    assert_eq!(params.get_query(), vec![("orientation", text("landscape"))]);
}

#[test]
fn every_set_field_is_rendered_in_the_fixed_order() {
    let params = UnsplashParameters {
        collections: text("1065976"),
        topics: text("nature"),
        username: text("jane"),
        query: text("blue sky"),
        orientation: text("portrait"),
        content_filter: text("high"),
    };
    assert_eq!(
        params.get_query(),
        vec![
            ("collections", text("1065976")),
            ("topics", text("nature")),
            ("query", text("blue sky")),
            ("username", text("jane")),
            ("orientation", text("portrait")),
            ("content_filter", text("high")),
        ]
    );
}

#[test]
fn unset_fields_are_left_out() {
    let mut params = UnsplashParameters::new();
    params.topics = text("bo8jQKTaE0Y");
    params.content_filter = text("low");
    assert_eq!(
        params.get_query(),
        vec![
            ("topics", text("bo8jQKTaE0Y")),
            ("orientation", text("landscape")),
            ("content_filter", text("low")),
        ]
    );
}

#[test]
fn each_optional_field_alone_comes_before_or_after_the_orientation() {
    let mut params = UnsplashParameters::new();
    params.collections = text("c");
    assert_eq!(
        params.get_query(),
        vec![("collections", text("c")), ("orientation", text("landscape"))]
    );

    let mut params = UnsplashParameters::new();
    params.query = text("q");
    assert_eq!(
        params.get_query(),
        vec![("query", text("q")), ("orientation", text("landscape"))]
    );

    let mut params = UnsplashParameters::new();
    params.username = text("u");
    assert_eq!(
        params.get_query(),
        vec![("username", text("u")), ("orientation", text("landscape"))]
    );

    let mut params = UnsplashParameters::new();
    params.content_filter = text("f");
    assert_eq!(
        params.get_query(),
        vec![("orientation", text("landscape")), ("content_filter", text("f"))]
    );
}

#[test]
fn query_comes_before_username() {
    let mut params = UnsplashParameters::new();
    params.username = text("jane");
    params.query = text("sea");
    assert_eq!(
        params.get_query(),
        vec![
            ("query", text("sea")),
            ("username", text("jane")),
            ("orientation", text("landscape")),
        ]
    );
}

#[test]
fn square_orientation_replaces_the_default() {
    let mut params = UnsplashParameters::new();
    params.orientation = text("square");
    let query = params.get_query();
    assert!(query.contains(&("orientation", text("square"))));
    assert!(!query.contains(&("orientation", text("landscape"))));
    assert_eq!(query, vec![("orientation", text("square"))]);
}

#[test]
fn values_are_passed_through_verbatim() {
    let mut params = UnsplashParameters::new();
    params.query = text(" a&b=c/\u{e9} ");
    params.orientation = text("LANDSCAPE");
    assert_eq!(
        params.get_query(),
        vec![("query", text(" a&b=c/\u{e9} ")), ("orientation", text("LANDSCAPE"))]
    );
}

#[test]
fn rendering_twice_gives_the_same_query() {
    let mut params = UnsplashParameters::new();
    params.collections = text("42");
    assert_eq!(params.get_query(), params.get_query());
}
