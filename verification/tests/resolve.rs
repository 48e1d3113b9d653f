use artlink::error::ResolveError;
use artlink::registry::Art;
use artlink::resolve::{Action, FetchResult, Resolver};

fn failed_fetch() -> FetchResult {
    FetchResult { success: false, location: None, body: None }
}

fn redirect_to(location: &str) -> FetchResult {
    FetchResult { success: true, location: Some(location.to_string()), body: None }
}

fn ok_with_body(body: &str) -> FetchResult {
    FetchResult { success: true, location: None, body: Some(body.to_string()) }
}

fn ok_empty() -> FetchResult {
    FetchResult { success: true, location: None, body: None }
}

fn fetch_url(action: &Action) -> &str {
    match action {
        Action::Fetch { url } => url.as_str(),
        Action::Done { .. } => panic!("expected a fetch, resolution finished"),
        Action::Fail { error } => panic!("expected a fetch, resolution failed: {:?}", error),
    }
}

#[test]
fn twitter_fetches_the_mirror_with_path_and_query() {
    let art = Art::from_line("https://twitter.com/artist/status/15?s=20").unwrap();
    let (_resolver, action) = Resolver::start(&art);
    assert_eq!(fetch_url(&action), "https://d.fxtwitter.com/artist/status/15?s=20");
}

#[test]
fn twitter_location_becomes_the_image_url() {
    let art = Art::from_line("https://twitter.com/artist/status/15").unwrap();
    let (resolver, action) = Resolver::start(&art);
    assert_eq!(fetch_url(&action), "https://d.fxtwitter.com/artist/status/15");
    let (_resolver, action) = resolver.step(redirect_to("https://video.example/img.jpg"));
    match action {
        Action::Done { link } => {
            assert_eq!(link.image_url, "https://video.example/img.jpg?format=webp");
            assert!(link.new_source.is_none());
        },
        _ => panic!("expected resolution to finish"),
    }
}

#[test]
fn twitter_without_location_fails() {
    let art = Art::from_line("https://twitter.com/artist/status/15").unwrap();
    let (resolver, _action) = Resolver::start(&art);
    let (_resolver, action) = resolver.step(ok_empty());
    match action {
        Action::Fail { error } => {
            assert_eq!(error, ResolveError::NoImageLocation);
            assert_eq!(error.message(), "did not return an image location");
        },
        _ => panic!("expected resolution to fail"),
    }
}

#[test]
fn twitter_failed_fetch_fails() {
    let art = Art::from_line("https://twitter.com/artist/status/15").unwrap();
    let (resolver, _action) = Resolver::start(&art);
    let (_resolver, action) = resolver.step(failed_fetch());
    assert!(matches!(action, Action::Fail { error: ResolveError::FetchFailed }));
}

#[test]
fn safebooru_without_id_fails_at_once() {
    let art = Art::from_line("https://safebooru.org/index.php?page=post&s=view").unwrap();
    let (_resolver, action) = Resolver::start(&art);
    assert!(matches!(action, Action::Fail { error: ResolveError::NoId }));
}

#[test]
fn safebooru_with_empty_id_fails_at_once() {
    let art = Art::from_line("https://safebooru.org/index.php?page=post&id=").unwrap();
    let (_resolver, action) = Resolver::start(&art);
    assert!(matches!(action, Action::Fail { error: ResolveError::NoId }));
}

#[test]
fn safebooru_id_is_percent_decoded_and_last_wins() {
    let art = Art::from_line("https://safebooru.org/index.php?id=9&id=1%32").unwrap();
    let (_resolver, action) = Resolver::start(&art);
    assert_eq!(
        fetch_url(&action),
        "https://safebooru.org/index.php?page=dapi&s=post&q=index&json=1&id=12",
    );
}

#[test]
fn safebooru_pixiv_source_is_rewritten_and_sample_probed() {
    let art = Art::from_line("https://safebooru.org/index.php?page=post&s=view&id=123").unwrap();
    let (resolver, action) = Resolver::start(&art);
    assert_eq!(
        fetch_url(&action),
        "https://safebooru.org/index.php?page=dapi&s=post&q=index&json=1&id=123",
    );
    let body = "[{\"source\": \"https://i.pximg.net/img/12345_p0.jpg\", \"sample_url\": \"https://safebooru.org/samples/1/sample_x.jpg\"}]";
    let (resolver, action) = resolver.step(ok_with_body(body));
    assert_eq!(fetch_url(&action), "https://safebooru.org/samples/1/sample_x.jpg");
    let (resolver, action) = resolver.step(ok_empty());
    assert_eq!(fetch_url(&action), "https://safebooru.org//samples/1/sample_x.jpg");
    let (_resolver, action) = resolver.step(failed_fetch());
    match action {
        Action::Done { link } => {
            assert_eq!(link.image_url, "https://safebooru.org/samples/1/sample_x.jpg");
            let source = link.new_source.expect("a corrected source");
            assert_eq!(source.text, "https://pixiv.net/en/artworks/12345");
        },
        _ => panic!("expected resolution to finish"),
    }
}

#[test]
fn safebooru_slashed_candidate_wins_when_plain_fails() {
    let art = Art::from_line("https://safebooru.org/index.php?id=123").unwrap();
    let (resolver, _action) = Resolver::start(&art);
    let body = "[{\"sample_url\": \"https://safebooru.org/samples/1/s.jpg\"}]";
    let (resolver, _action) = resolver.step(ok_with_body(body));
    let (resolver, _action) = resolver.step(failed_fetch());
    let (_resolver, action) = resolver.step(ok_empty());
    match action {
        Action::Done { link } => {
            assert_eq!(link.image_url, "https://safebooru.org//samples/1/s.jpg");
            assert!(link.new_source.is_none());
        },
        _ => panic!("expected resolution to finish"),
    }
}

#[test]
fn safebooru_verbatim_sample_wins_when_both_probes_fail() {
    let art = Art::from_line("https://safebooru.org/index.php?id=123").unwrap();
    let (resolver, _action) = Resolver::start(&art);
    let body = "[{\"sample_url\": \"https://safebooru.org/samples/1/s.jpg?v=2\"}]";
    let (resolver, _action) = resolver.step(ok_with_body(body));
    let (resolver, _action) = resolver.step(failed_fetch());
    let (_resolver, action) = resolver.step(failed_fetch());
    match action {
        Action::Done { link } => {
            assert_eq!(link.image_url, "https://safebooru.org/samples/1/s.jpg?v=2");
        },
        _ => panic!("expected resolution to finish"),
    }
}

#[test]
fn safebooru_twitter_source_is_tried_through_the_mirror() {
    let art = Art::from_line("https://safebooru.org/index.php?id=123").unwrap();
    let (resolver, _action) = Resolver::start(&art);
    let body = "[{\"source\": \"https://twitter.com/artist/status/9\", \"sample_url\": \"https://safebooru.org/samples/1/s.jpg\"}]";
    let (resolver, action) = resolver.step(ok_with_body(body));
    assert_eq!(fetch_url(&action), "https://d.fxtwitter.com/artist/status/9");
    let (_resolver, action) = resolver.step(redirect_to("https://video.example/t.jpg"));
    match action {
        Action::Done { link } => {
            assert_eq!(link.image_url, "https://video.example/t.jpg?format=webp");
            let source = link.new_source.expect("a corrected source");
            assert_eq!(source.text, "https://twitter.com/artist/status/9");
        },
        _ => panic!("expected resolution to finish"),
    }
}

#[test]
fn safebooru_falls_back_to_the_sample_when_the_mirror_fails() {
    let art = Art::from_line("https://safebooru.org/index.php?id=123").unwrap();
    let (resolver, _action) = Resolver::start(&art);
    let body = "[{\"source\": \"https://x.com/artist/status/9\", \"sample_url\": \"https://safebooru.org/samples/1/s.jpg\"}]";
    let (resolver, action) = resolver.step(ok_with_body(body));
    assert_eq!(fetch_url(&action), "https://d.fxtwitter.com/artist/status/9");
    let (resolver, action) = resolver.step(failed_fetch());
    assert_eq!(fetch_url(&action), "https://safebooru.org/samples/1/s.jpg");
    let (resolver, _action) = resolver.step(ok_empty());
    let (_resolver, action) = resolver.step(failed_fetch());
    match action {
        Action::Done { link } => {
            assert_eq!(link.image_url, "https://safebooru.org/samples/1/s.jpg");
            let source = link.new_source.expect("a corrected source");
            assert_eq!(source.text, "https://x.com/artist/status/9");
        },
        _ => panic!("expected resolution to finish"),
    }
}

#[test]
fn safebooru_without_sample_url_fails() {
    let art = Art::from_line("https://safebooru.org/index.php?id=123").unwrap();
    let (resolver, _action) = Resolver::start(&art);
    let (_resolver, action) = resolver.step(ok_with_body("[{\"source\": 4}]"));
    assert!(matches!(action, Action::Fail { error: ResolveError::NoSampleUrl }));
}

#[test]
fn safebooru_with_a_bad_sample_url_fails() {
    let art = Art::from_line("https://safebooru.org/index.php?id=123").unwrap();
    let (resolver, _action) = Resolver::start(&art);
    let (_resolver, action) = resolver.step(ok_with_body("[{\"sample_url\": \"no scheme here\"}]"));
    assert!(matches!(action, Action::Fail { error: ResolveError::BadSampleUrl }));
}

#[test]
fn safebooru_retries_six_times_then_surfaces_the_error() {
    let art = Art::from_line("https://safebooru.org/index.php?id=123").unwrap();
    let (mut resolver, mut action) = Resolver::start(&art);
    let mut fetches = 0;
    loop {
        match action {
            Action::Fetch { url } => {
                fetches += 1;
                assert_eq!(
                    url.as_str(),
                    "https://safebooru.org/index.php?page=dapi&s=post&q=index&json=1&id=123",
                );
                let (next, a) = resolver.step(failed_fetch());
                resolver = next;
                action = a;
            },
            Action::Fail { error } => {
                assert_eq!(error, ResolveError::ApiFailed);
                break;
            },
            Action::Done { .. } => panic!("resolution cannot succeed here"),
        }
        assert!(fetches <= 10, "the resolver retries without bound");
    }
    assert_eq!(fetches, 6);
}

#[test]
fn safebooru_bad_json_counts_as_a_failed_attempt() {
    let art = Art::from_line("https://safebooru.org/index.php?id=123").unwrap();
    let (resolver, _action) = Resolver::start(&art);
    let (_resolver, action) = resolver.step(ok_with_body("this is not json"));
    assert!(matches!(action, Action::Fetch { .. }));
}
