use repo_backup::pagination::{is_next, next_link, next_page, LinkValue};
use repo_backup::{FailedRequest, FetchError, PageStep, Paginated};

#[test]
fn get_next_link() {
    let src = r#"<https://api.github.com/user/repos?page=2>; rel="next", <https://api.github.com/user/repos?page=3>; rel="last""#;

    let should_be = "https://api.github.com/user/repos?page=2";
    let got = next_page(src).unwrap();
    assert_eq!(got, should_be);
}

#[test]
fn no_next_link_on_the_last_page() {
    let src = r#"<https://api.github.com/user/repos?page=1>; rel="first", <https://api.github.com/user/repos?page=1>; rel="prev""#;
    assert_eq!(next_page(src), None);
    assert_eq!(next_page("this is not a link header"), None);
}

#[test]
fn next_link_takes_the_first_next_value() {
    let values = vec![
        LinkValue { link: String::from("a"), rel: vec![String::from("prev")] },
        LinkValue { link: String::from("b"), rel: vec![String::from("last"), String::from("next")] },
        LinkValue { link: String::from("c"), rel: vec![String::from("next")] },
    ];
    assert!(!is_next(&values[0]));
    assert!(is_next(&values[1]));
    assert_eq!(next_link(&values), Some(String::from("b")));
    assert_eq!(next_link(&Vec::new()), None);
}

fn page_url(n: usize) -> String {
    format!("https://api.example.com/items?page={}", n)
}

/// A mocked API of three pages holding 10, 10 and 4 items.
fn respond(url: &str) -> (u16, Option<String>, Result<Vec<u32>, String>) {
    let pages = [(1, 0..10), (2, 10..20), (3, 20..24)];
    for (n, items) in pages {
        if url == page_url(n) {
            let link = if n < 3 {
                Some(format!("<{}>; rel=\"next\", <{}>; rel=\"last\"", page_url(n + 1), page_url(3)))
            } else {
                Some(format!("<{}>; rel=\"first\"", page_url(1)))
            };
            return (200, link, Ok(items.collect()));
        }
    }
    (404, None, Err(String::from("not found")))
}

#[test]
fn three_pages_are_followed_in_order() {
    let mut listing = Paginated::new(page_url(1));
    let mut got = Vec::new();
    let mut requests = 0;
    loop {
        match listing.next() {
            PageStep::Item(i) => got.push(i),
            PageStep::Fetch(url) => {
                requests += 1;
                let (status, link, body) = respond(&url);
                listing.receive(url, status, link, body).unwrap();
            },
            PageStep::Done => break,
        }
    }
    assert_eq!(requests, 3);
    assert_eq!(got, (0..24).collect::<Vec<u32>>());
    assert_eq!(listing.next(), PageStep::Done);
}

#[test]
fn an_unsuccessful_status_ends_the_listing() {
    let mut listing: Paginated<u32> = Paginated::new(String::from("https://x/1"));
    let url = match listing.next() {
        PageStep::Fetch(url) => url,
        other => panic!("unexpected {:?}", other),
    };
    let link = Some(String::from("<https://x/2>; rel=\"next\""));
    let err = listing.receive(url, 401, link, Ok(vec![1, 2])).unwrap_err();
    assert_eq!(
        err,
        FetchError::Failed(FailedRequest { status: 401, url: String::from("https://x/1") })
    );
    assert_eq!(listing.next(), PageStep::Done);
}

#[test]
fn a_malformed_page_ends_the_listing() {
    let mut listing: Paginated<u32> = Paginated::new(String::from("https://x/1"));
    let url = match listing.next() {
        PageStep::Fetch(url) => url,
        other => panic!("unexpected {:?}", other),
    };
    let err = listing.receive(url, 200, None, Err(String::from("expected a list"))).unwrap_err();
    assert_eq!(
        err,
        FetchError::Malformed {
            url: String::from("https://x/1"),
            message: String::from("expected a list"),
        }
    );
    assert_eq!(listing.next(), PageStep::Done);
}

#[test]
fn items_already_received_are_kept_after_a_network_failure() {
    let mut listing: Paginated<u32> = Paginated::new(String::from("https://x/1"));
    let url = match listing.next() {
        PageStep::Fetch(url) => url,
        other => panic!("unexpected {:?}", other),
    };
    let link = Some(String::from("<https://x/2>; rel=\"next\""));
    listing.receive(url, 200, link, Ok(vec![7])).unwrap();
    assert_eq!(listing.next(), PageStep::Item(7));
    let url = match listing.next() {
        PageStep::Fetch(url) => url,
        other => panic!("unexpected {:?}", other),
    };
    assert_eq!(url, "https://x/2");
    let err = listing.fail(url, String::from("connection reset"));
    assert_eq!(
        err,
        FetchError::Network {
            url: String::from("https://x/2"),
            message: String::from("connection reset"),
        }
    );
    assert_eq!(listing.next(), PageStep::Done);
}
