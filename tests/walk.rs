use wiki_client::models::{Links, Page, PaginatedResponse, SpaceContentResult};
use wiki_client::session::{ApiError, Session};
use wiki_client::walk::{BatchOutcome, PageWalk, WalkStep};

fn links(next: Option<&str>) -> Links {
    Links {
        next: next.map(|s| s.to_owned()),
        prev: None,
        base: None,
        webui: None,
        _self: "self".to_owned(),
    }
}

fn page(id: &str) -> Page {
    Page {
        id: id.to_owned(),
        title: format!("title {id}"),
        status: "current".to_owned(),
        space: None,
        body: None,
        links: links(None),
        children: None,
    }
}

fn batch(ids: &[&str], next: Option<&str>) -> BatchOutcome {
    Ok(SpaceContentResult {
        page: PaginatedResponse {
            size: ids.len() as u64,
            limit: 2,
            start: 0,
            links: links(next),
            results: ids.iter().map(|i| page(i)).collect(),
        },
    })
}

fn session() -> Session {
    Session::new("u".to_owned(), "k".to_owned(), "https://wiki.example".to_owned()).unwrap()
}

/// Feeds the outcomes in turn, checking the address of each fetch.
fn run(s: &Session, outcomes: Vec<BatchOutcome>, urls: &[&str]) -> WalkStep {
    let mut step = PageWalk::start(s, "DOC");
    let mut k = 0;
    for outcome in outcomes {
        match step {
            WalkStep::Fetch { walk, url } => {
                assert_eq!(url, urls[k]);
                k += 1;
                step = walk.on_response(s, outcome);
            }
            _ => panic!("walk ended early"),
        }
    }
    step
}

#[test]
fn walk_three_batches_in_order() {
    let s = session();
    let outcomes = vec![
        batch(&["1", "2"], Some("/rest/api/space/DOC/content/page?start=2")),
        batch(&["3", "4"], Some("/rest/api/space/DOC/content/page?start=4")),
        batch(&["5"], None),
    ];
    let urls = [
        "https://wiki.example/rest/api/space/DOC/content",
        "https://wiki.example/rest/api/space/DOC/content?start=2",
        "https://wiki.example/rest/api/space/DOC/content?start=4",
    ];
    match run(&s, outcomes, &urls) {
        WalkStep::Done(pages) => {
            let ids: Vec<&str> = pages.iter().map(|p| p.id.as_str()).collect();
            assert_eq!(ids, vec!["1", "2", "3", "4", "5"]);
        }
        _ => panic!("walk did not finish"),
    }
}

#[test]
fn walk_single_batch() {
    let s = session();
    match run(&s, vec![batch(&["a", "b"], None)], &["https://wiki.example/rest/api/space/DOC/content"]) {
        WalkStep::Done(pages) => {
            assert_eq!(pages.len(), 2);
            assert_eq!(pages[0].id, "a");
            assert_eq!(pages[1].id, "b");
        }
        _ => panic!("walk did not finish"),
    }
}

#[test]
fn walk_empty_batch() {
    let s = session();
    match run(&s, vec![batch(&[], None)], &["https://wiki.example/rest/api/space/DOC/content"]) {
        WalkStep::Done(pages) => assert!(pages.is_empty()),
        _ => panic!("walk did not finish"),
    }
}

#[test]
fn walk_fails_on_second_batch() {
    let s = session();
    let outcomes = vec![
        batch(&["1", "2"], Some("/rest/api/space/DOC/content/page?start=2")),
        Err(ApiError::Remote { status: 500, body: "down".to_owned() }),
    ];
    let urls = [
        "https://wiki.example/rest/api/space/DOC/content",
        "https://wiki.example/rest/api/space/DOC/content?start=2",
    ];
    match run(&s, outcomes, &urls) {
        WalkStep::Failed(ApiError::Remote { status, body }) => {
            assert_eq!(status, 500);
            assert_eq!(body, "down");
        }
        _ => panic!("walk did not fail"),
    }
}

#[test]
fn walk_fails_on_decode_error() {
    let s = session();
    match run(&s, vec![Err(ApiError::Decode("bad".to_owned()))], &["https://wiki.example/rest/api/space/DOC/content"]) {
        WalkStep::Failed(ApiError::Decode(m)) => assert_eq!(m, "bad"),
        _ => panic!("walk did not fail"),
    }
}

#[test]
fn walk_resumes_at_link() {
    let s = session();
    let step = PageWalk::resume(&s, "/rest/api/space/DOC/content/page?start=4");
    match step {
        WalkStep::Fetch { walk, url } => {
            assert_eq!(url, "https://wiki.example/rest/api/space/DOC/content?start=4");
            match walk.on_response(&s, batch(&["5"], None)) {
                WalkStep::Done(pages) => {
                    assert_eq!(pages.len(), 1);
                    assert_eq!(pages[0].id, "5");
                }
                _ => panic!("walk did not finish"),
            }
        }
        _ => panic!("walk did not start"),
    }
}
