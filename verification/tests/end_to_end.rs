use ties::archive::error::FetchError;
use ties::archive::fetch_url::{fetch_step, FetchAction, FetchEvent, FetchState, ResponseHead};
use ties::archive::queue::{ArchiveJob, ArchiveQueue, Bookmark};
use ties::archive::readability::extract_fetched;
use ties::db::archives::{Archive, Status};

/// What a server would answer to one GET request.
struct Served {
    status: u16,
    content_type: Option<&'static str>,
    body: String,
}

/// Drives a fetch to its end against what a server would answer, counting
/// the requests that were sent on the way.
fn fetch(url: &str, served: &Served, requests: &mut u32) -> Result<String, FetchError> {
    let (mut state, mut action) = fetch_step(FetchState::Start, FetchEvent::Begin(url.to_string()));
    loop {
        let event = match action {
            FetchAction::Send(_) => {
                *requests += 1;
                FetchEvent::Response(ResponseHead {
                    status: served.status,
                    content_length: None,
                    content_type: served.content_type.map(str::to_string),
                })
            }
            FetchAction::ReadBody => FetchEvent::Body(served.body.clone()),
            FetchAction::Return(outcome) => return outcome,
        };
        (state, action) = fetch_step(state, event);
    }
}

/// Works the queue until nothing waits, and hands back the archives in the
/// order in which they were stored.
fn work(queue: &mut ArchiveQueue<()>, served: &Served, requests: &mut u32) -> Vec<Archive> {
    let mut stored = Vec::new();
    while let Some(url) = queue.start_next() {
        let article = extract_fetched(&url, fetch(&url, served, requests));
        let record = queue.fetched(article).unwrap();
        let archive = Archive::stored(stored.len() as u128, 0, record);
        stored.push(archive.clone());
        queue.saved(Ok(archive)).unwrap();
    }
    stored
}

fn article_page() -> Served {
    let text = "Readable text. ".repeat(20);
    Served {
        status: 200,
        content_type: Some("text/html"),
        body: format!(
            "<html><head><title>Example</title></head><body><article><h1>Example</h1>\
             <p>{text}<a href=\"/more\">More</a> <a href=\"next.html\">Next</a></p><p>{text}</p>\
             </article></body></html>"
        ),
    }
}

#[test]
fn bookmark_of_an_html_page_is_archived_with_absolute_links() {
    let mut queue = ArchiveQueue::new();
    let bookmark = Bookmark { id: 1, url: "https://example.com".to_string() };
    assert!(queue.enqueue(ArchiveJob { bookmark, respond_to: () }));
    let mut requests = 0;
    let stored = work(&mut queue, &article_page(), &mut requests);

    assert_eq!(requests, 1);
    assert_eq!(stored.len(), 1);
    let archive = &stored[0];
    assert_eq!(archive.bookmark_id, 1);
    assert_eq!(archive.status, Status::Success);
    assert_eq!(archive.error_description, None);
    let html = archive.extracted_html.as_ref().unwrap();
    assert!(!html.is_empty());
    assert!(html.contains("href=\"https://example.com/more\""));
    assert!(html.contains("href=\"https://example.com/next.html\""));
    assert!(!html.contains("href=\"/more\""));
    assert!(!html.contains("href=\"next.html\""));
}

#[test]
fn bookmark_of_the_metadata_endpoint_is_refused_without_a_request() {
    let mut queue = ArchiveQueue::new();
    let bookmark =
        Bookmark { id: 2, url: "https://169.254.169.254/latest/meta-data/".to_string() };
    assert!(queue.enqueue(ArchiveJob { bookmark, respond_to: () }));
    let mut requests = 0;
    let stored = work(&mut queue, &article_page(), &mut requests);

    assert_eq!(requests, 0);
    assert_eq!(stored.len(), 1);
    let archive = &stored[0];
    assert_eq!(archive.bookmark_id, 2);
    assert_eq!(archive.status, Status::Error);
    assert_eq!(archive.extracted_html, None);
    assert_eq!(
        archive.error_description,
        Some(
            "URL resolves to a blocked IP address (private network, loopback, or reserved range)"
                .to_string()
        )
    );
}

#[test]
fn failing_fetch_between_two_pages_leaves_both_archived() {
    let mut queue = ArchiveQueue::new();
    for (id, url) in
        [(1, "https://example.com/a"), (2, "ftp://example.com/b"), (3, "https://example.com/c")]
    {
        let bookmark = Bookmark { id, url: url.to_string() };
        assert!(queue.enqueue(ArchiveJob { bookmark, respond_to: () }));
    }
    let mut requests = 0;
    let stored = work(&mut queue, &article_page(), &mut requests);

    assert_eq!(requests, 2);
    let outcome: Vec<(u128, Status)> =
        stored.iter().map(|archive| (archive.bookmark_id, archive.status)).collect();
    assert_eq!(outcome, vec![(1, Status::Success), (2, Status::Error), (3, Status::Success)]);
    assert_eq!(
        stored[1].error_description,
        Some("URL scheme 'ftp' not supported (only http or https are supported)".to_string())
    );
}

#[test]
fn page_that_is_no_html_is_archived_as_an_error() {
    let mut queue = ArchiveQueue::new();
    let bookmark = Bookmark { id: 4, url: "https://example.com/portrait.jpg".to_string() };
    assert!(queue.enqueue(ArchiveJob { bookmark, respond_to: () }));
    let image = Served { status: 200, content_type: Some("image/jpeg"), body: "JFIF".to_string() };
    let mut requests = 0;
    let stored = work(&mut queue, &image, &mut requests);
    assert_eq!(requests, 1);
    assert_eq!(stored[0].status, Status::Error);
    assert_eq!(
        stored[0].error_description,
        Some("Content type 'image/jpeg' not supported".to_string())
    );
}

#[test]
fn page_that_is_not_found_is_archived_as_an_error() {
    let mut queue = ArchiveQueue::new();
    let bookmark = Bookmark { id: 5, url: "https://example.com/gone".to_string() };
    assert!(queue.enqueue(ArchiveJob { bookmark, respond_to: () }));
    let gone = Served { status: 404, content_type: Some("text/html"), body: String::new() };
    let mut requests = 0;
    let stored = work(&mut queue, &gone, &mut requests);
    assert_eq!(stored[0].status, Status::Error);
    assert_eq!(
        stored[0].error_description,
        Some("Server responded with HTTP status 404".to_string())
    );
}
