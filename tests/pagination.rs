use gh_participants::pagination::Pagination;
use gh_participants::repoview::{repoview_request, Cursor, RepoView};
use gh_participants::response::{
    PageInfo, PullRequestEdge, PullRequests, Repository, ResponseData,
};

fn page(has_next_page: bool, cursors: &[&str]) -> ResponseData {
    ResponseData {
        repository: Some(Repository {
            name_with_owner: "octocat/Hello-World".to_string(),
            pull_requests: PullRequests {
                page_info: PageInfo { has_next_page },
                edges: Some(
                    cursors
                        .iter()
                        .map(|c| Some(PullRequestEdge { cursor: c.to_string(), node: None }))
                        .collect(),
                ),
            },
        }),
        rate_limit: None,
    }
}

#[test]
fn two_pages_end_to_end() {
    let fixture = vec![page(true, &["c0", "c1"]), page(false, &["c2"])];
    let init = repoview_request("octocat", "Hello-World", 50, None);
    let mut p = Pagination::new(&init);
    let mut sent: Vec<Option<String>> = Vec::new();
    let mut served = 0;
    loop {
        sent.push(p.query().variables.pullcursor.clone());
        let data = fixture[served].clone();
        served += 1;
        if !p.on_response(Some(data)) {
            break;
        }
    }
    assert_eq!(sent, vec![None, Some("c1".to_string())]);
    assert!(p.is_done());
    let pages = p.into_pages();
    assert_eq!(pages.len(), 2);
    let first: Vec<String> = pages[0].repository.as_ref().unwrap().pull_requests.edges.as_ref().unwrap()
        .iter().map(|e| e.as_ref().unwrap().cursor.clone()).collect();
    assert_eq!(first, vec!["c0", "c1"]);
    assert!(!pages[1].repository.as_ref().unwrap().pull_requests.page_info.has_next_page);
}

#[test]
fn single_page_without_next_ends() {
    let init = repoview_request("o", "r", 10, None);
    let mut p = Pagination::new(&init);
    assert!(!p.is_done());
    assert!(!p.on_response(Some(page(false, &["only"]))));
    assert!(p.is_done());
    assert_eq!(p.pages().len(), 1);
}

#[test]
fn missing_repository_ends_with_no_pages() {
    let init = repoview_request("o", "missing", 10, None);
    let mut p = Pagination::new(&init);
    assert!(!p.on_response(Some(ResponseData { repository: None, rate_limit: None })));
    assert!(p.pages().is_empty());
    let mut q = Pagination::new(&init);
    assert!(!q.on_response(None));
    assert!(q.into_pages().is_empty());
}

#[test]
fn next_page_without_edges_ends() {
    let init = repoview_request("o", "r", 10, None);
    let mut p = Pagination::new(&init);
    assert!(!p.on_response(Some(page(true, &[]))));
    assert_eq!(p.pages().len(), 1);
}

#[test]
fn query_keeps_owner_name_and_count() {
    let init = repoview_request("o", "r", 7, Some("start".to_string()));
    let mut p = Pagination::new(&init);
    assert_eq!(p.query().variables.pullcursor.as_deref(), Some("start"));
    assert!(p.on_response(Some(page(true, &["n1"]))));
    let q = p.query();
    assert_eq!((q.variables.owner.as_str(), q.variables.name.as_str(), q.variables.nnodes), ("o", "r", 7));
    assert_eq!(q.variables.pullcursor.as_deref(), Some("n1"));
}

#[test]
fn cursor_is_last_edge_and_repeatable() {
    let d = page(true, &["a", "b", "c"]);
    assert_eq!(RepoView::next_cursor(&d).as_deref(), Some("c"));
    assert_eq!(RepoView::next_cursor(&d), RepoView::next_cursor(&d));
    assert_eq!(RepoView::cursor(&d).as_deref(), Some("c"));
    assert_eq!(RepoView::cursor(&page(false, &["a", "b"])), None);
    let init = repoview_request("o", "r", 10, None);
    let mut p = Pagination::new(&init);
    p.on_response(Some(d.clone()));
    p.on_response(Some(d.clone()));
    assert_eq!(p.query().variables.pullcursor.as_deref(), Some("c"));
    assert_eq!(RepoView::next_cursor(&page(false, &["a"])), None);
    let mut absent_last = page(true, &["a"]);
    absent_last.repository.as_mut().unwrap().pull_requests.edges.as_mut().unwrap().push(None);
    assert_eq!(RepoView::next_cursor(&absent_last), None);
}
