//! Flattening of response pages into one record per participant.
use vstd::prelude::*;
use crate::response::{
    Organization, Organizations, ParticipantEdge, PullRequestEdge, ResponseData, User,
};

verus! {

/// One participant of one pull request, with the context it was found in.
#[derive(Clone, Debug, Eq, PartialEq, Hash)]
pub struct RepoViewNode {
    pub repository: String,
    pub author: String,
    pub date_created: String,
    pub pull_req_title: String,
    pub location: String,
    pub company: String,
    pub organizations: Vec<String>,
}

/// The contents of a `RepoViewNode` as character sequences.
pub ghost struct NodeView {
    pub repository: Seq<char>,
    pub author: Seq<char>,
    pub date_created: Seq<char>,
    pub pull_req_title: Seq<char>,
    pub location: Seq<char>,
    pub company: Seq<char>,
    pub organizations: Seq<Seq<char>>,
}

pub open spec fn string_views(s: Seq<String>) -> Seq<Seq<char>> {
    s.map_values(|x: String| x@)
}

impl View for RepoViewNode {
    type V = NodeView;

    open spec fn view(&self) -> NodeView {
        NodeView {
            repository: self.repository@,
            author: self.author@,
            date_created: self.date_created@,
            pull_req_title: self.pull_req_title@,
            location: self.location@,
            company: self.company@,
            organizations: string_views(self.organizations@),
        }
    }
}

/// The views of a sequence of records.
pub open spec fn node_views(s: Seq<RepoViewNode>) -> Seq<NodeView> {
    s.map_values(|n: RepoViewNode| n@)
}

/// The text that stands for a value the service left out.
pub open spec fn not_available() -> Seq<char> {
    seq!['N', 'A']
}

pub open spec fn or_not_available(s: Option<String>) -> Seq<char> {
    match s {
        Some(v) => v@,
        None => not_available(),
    }
}

pub open spec fn organization_login(o: Option<Organization>) -> Seq<char> {
    match o {
        Some(org) => org.login@,
        None => not_available(),
    }
}

/// The organization logins of a user, in order; none when the list is absent.
pub open spec fn organization_logins(orgs: Organizations) -> Seq<Seq<char>> {
    match orgs.nodes {
        Some(v) => v@.map_values(|o: Option<Organization>| organization_login(o)),
        None => Seq::empty(),
    }
}

/// The record of one user on a pull request.
pub open spec fn user_record(
    repo: Seq<char>,
    created_at: Seq<char>,
    title: Seq<char>,
    user: User,
) -> NodeView {
    NodeView {
        repository: repo,
        author: user.login@,
        date_created: created_at,
        pull_req_title: title,
        location: or_not_available(user.location),
        company: or_not_available(user.company),
        organizations: organization_logins(user.organizations),
    }
}

/// The records of one participant edge: one, or none where the edge or its
/// user is absent.
pub open spec fn participant_records(
    edge: Option<ParticipantEdge>,
    repo: Seq<char>,
    created_at: Seq<char>,
    title: Seq<char>,
) -> Seq<NodeView> {
    match edge {
        Some(e) => match e.node {
            Some(user) => seq![user_record(repo, created_at, title, user)],
            None => Seq::empty(),
        },
        None => Seq::empty(),
    }
}

/// The records of a list of participant edges, in edge order.
pub open spec fn participants_records(
    edges: Seq<Option<ParticipantEdge>>,
    repo: Seq<char>,
    created_at: Seq<char>,
    title: Seq<char>,
) -> Seq<NodeView>
    decreases edges.len(),
{
    if edges.len() == 0 {
        Seq::empty()
    } else {
        participants_records(edges.drop_last(), repo, created_at, title) + participant_records(
            edges.last(),
            repo,
            created_at,
            title,
        )
    }
}

/// The records of one pull-request edge; none where the edge, its pull
/// request or its participant list is absent.
pub open spec fn pull_request_records(edge: Option<PullRequestEdge>, repo: Seq<char>) -> Seq<
    NodeView,
> {
    match edge {
        Some(e) => match e.node {
            Some(pr) => match pr.participants.edges {
                Some(parts) => participants_records(parts@, repo, pr.created_at@, pr.title@),
                None => Seq::empty(),
            },
            None => Seq::empty(),
        },
        None => Seq::empty(),
    }
}

/// The records of a list of pull-request edges, in edge order.
pub open spec fn pull_requests_records(edges: Seq<Option<PullRequestEdge>>, repo: Seq<char>) -> Seq<
    NodeView,
>
    decreases edges.len(),
{
    if edges.len() == 0 {
        Seq::empty()
    } else {
        pull_requests_records(edges.drop_last(), repo) + pull_request_records(edges.last(), repo)
    }
}

/// The records of one page; none where it holds no repository or no edges.
pub open spec fn page_records(page: ResponseData) -> Seq<NodeView> {
    match page.repository {
        Some(repo) => match repo.pull_requests.edges {
            Some(edges) => pull_requests_records(edges@, repo.name_with_owner@),
            None => Seq::empty(),
        },
        None => Seq::empty(),
    }
}

/// The records of a sequence of pages, in page order.
pub open spec fn flatten_pages(pages: Seq<ResponseData>) -> Seq<NodeView>
    decreases pages.len(),
{
    if pages.len() == 0 {
        Seq::empty()
    } else {
        flatten_pages(pages.drop_last()) + page_records(pages.last())
    }
}

proof fn lemma_push_views(s: Seq<RepoViewNode>, n: RepoViewNode)
    ensures
        node_views(s.push(n)) == node_views(s).push(n@),
{
    assert(node_views(s.push(n)) =~= node_views(s).push(n@));
}

/// Flattening respects concatenation: the records of `a + b` are those of `a`
/// followed by those of `b`, so the records of every page keep their place.
pub proof fn lemma_flatten_append(a: Seq<ResponseData>, b: Seq<ResponseData>)
    ensures
        flatten_pages(a + b) == flatten_pages(a) + flatten_pages(b),
    decreases b.len(),
{
    if b.len() == 0 {
        assert(a + b =~= a);
        assert(flatten_pages(a) + flatten_pages(b) =~= flatten_pages(a));
    } else {
        assert((a + b).drop_last() =~= a + b.drop_last());
        assert((a + b).last() == b.last());
        lemma_flatten_append(a, b.drop_last());
        assert(flatten_pages(a + b) =~= flatten_pages(a) + flatten_pages(b));
    }
}

proof fn lemma_participants_repository(
    edges: Seq<Option<ParticipantEdge>>,
    repo: Seq<char>,
    created_at: Seq<char>,
    title: Seq<char>,
)
    ensures
        forall|i: int|
            0 <= i < participants_records(edges, repo, created_at, title).len() ==> (
            #[trigger] participants_records(edges, repo, created_at, title)[i]).repository
                == repo,
    decreases edges.len(),
{
    if edges.len() > 0 {
        lemma_participants_repository(edges.drop_last(), repo, created_at, title);
        let prev = participants_records(edges.drop_last(), repo, created_at, title);
        let last = participant_records(edges.last(), repo, created_at, title);
        let all = participants_records(edges, repo, created_at, title);
        assert forall|i: int| 0 <= i < all.len() implies (#[trigger] all[i]).repository == repo by {
            if i < prev.len() {
                assert(all[i] == prev[i]);
            } else {
                assert(all[i] == last[i - prev.len()]);
            }
        }
    }
}

proof fn lemma_pull_requests_repository(edges: Seq<Option<PullRequestEdge>>, repo: Seq<char>)
    ensures
        forall|i: int|
            0 <= i < pull_requests_records(edges, repo).len() ==> (
            #[trigger] pull_requests_records(edges, repo)[i]).repository == repo,
    decreases edges.len(),
{
    if edges.len() > 0 {
        lemma_pull_requests_repository(edges.drop_last(), repo);
        match edges.last() {
            Some(e) => match e.node {
                Some(pr) => match pr.participants.edges {
                    Some(parts) => {
                        lemma_participants_repository(parts@, repo, pr.created_at@, pr.title@);
                    },
                    None => {},
                },
                None => {},
            },
            None => {},
        }
        let prev = pull_requests_records(edges.drop_last(), repo);
        let last = pull_request_records(edges.last(), repo);
        let all = pull_requests_records(edges, repo);
        assert forall|i: int| 0 <= i < all.len() implies (#[trigger] all[i]).repository == repo by {
            if i < prev.len() {
                assert(all[i] == prev[i]);
            } else {
                assert(all[i] == last[i - prev.len()]);
            }
        }
    }
}

/// Every record of a page carries the page's repository name.
pub proof fn lemma_page_repository(page: ResponseData)
    requires
        page.repository is Some,
    ensures
        forall|i: int|
            0 <= i < page_records(page).len() ==> (#[trigger] page_records(page)[i]).repository
                == page.repository->0.name_with_owner@,
{
    let repo = page.repository->0;
    match repo.pull_requests.edges {
        Some(edges) => lemma_pull_requests_repository(edges@, repo.name_with_owner@),
        None => {},
    }
}

/// A user without location, company or organizations is recorded with "NA"
/// for the first two and no organizations.
pub proof fn lemma_sentinels(repo: Seq<char>, created_at: Seq<char>, title: Seq<char>, user: User)
    requires
        user.location is None,
        user.company is None,
        user.organizations.nodes is None,
    ensures
        user_record(repo, created_at, title, user).location == seq!['N', 'A'],
        user_record(repo, created_at, title, user).company == seq!['N', 'A'],
        user_record(repo, created_at, title, user).organizations == Seq::<Seq<char>>::empty(),
        user_record(repo, created_at, title, user).author == user.login@,
{
}

fn not_available_string() -> (s: String)
    ensures
        s@ == not_available(),
{
    proof {
        reveal_strlit("NA");
    }
    "NA".to_owned()
}

fn option_or_not_available(s: &Option<String>) -> (r: String)
    ensures
        r@ == or_not_available(*s),
{
    match s {
        Some(v) => v.clone(),
        None => not_available_string(),
    }
}

impl RepoViewNode {
    // Pulls out each organization from the list of organizations of a user.
    fn organizations_to_vec(orgs: &Organizations) -> (r: Option<Vec<String>>)
        ensures
            r is Some <==> orgs.nodes is Some,
            r is Some ==> string_views(r->0@) == organization_logins(*orgs),
    {
        match &orgs.nodes {
            None => None,
            Some(nodes) => {
                let mut logins: Vec<String> = Vec::new();
                let mut i: usize = 0;
                while i < nodes.len()
                    invariant
                        i <= nodes@.len(),
                        logins@.len() == i,
                        forall|j: int|
                            0 <= j < i ==> (#[trigger] logins@[j])@ == organization_login(
                                nodes@[j],
                            ),
                    decreases nodes@.len() - i,
                {
                    let login = match &nodes[i] {
                        Some(org) => org.login.clone(),
                        None => not_available_string(),
                    };
                    logins.push(login);
                    i = i + 1;
                }
                assert(string_views(logins@) =~= organization_logins(*orgs));
                Some(logins)
            },
        }
    }

    fn user_to_node(repo: &str, created_at: &str, title: &str, user: &User) -> (n: RepoViewNode)
        ensures
            n@ == user_record(repo@, created_at@, title@, *user),
    {
        let organizations = match RepoViewNode::organizations_to_vec(&user.organizations) {
            Some(v) => v,
            None => Vec::new(),
        };
        let n = RepoViewNode {
            repository: repo.to_owned(),
            author: user.login.clone(),
            date_created: created_at.to_owned(),
            pull_req_title: title.to_owned(),
            location: option_or_not_available(&user.location),
            company: option_or_not_available(&user.company),
            organizations,
        };
        assert(string_views(n.organizations@) =~= organization_logins(user.organizations));
        n
    }

    // Appends the records of the participants of one pull request, skipping
    // absent edges and absent users.
    fn participants_to_nodes(
        participants: &Vec<Option<ParticipantEdge>>,
        repo: &str,
        created_at: &str,
        title: &str,
        out: &mut Vec<RepoViewNode>,
    )
        ensures
            node_views(final(out)@) == node_views(old(out)@) + participants_records(
                participants@,
                repo@,
                created_at@,
                title@,
            ),
    {
        let ghost start = node_views(out@);
        let mut i: usize = 0;
        while i < participants.len()
            invariant
                i <= participants@.len(),
                node_views(out@) == start + participants_records(
                    participants@.subrange(0, i as int),
                    repo@,
                    created_at@,
                    title@,
                ),
            decreases participants@.len() - i,
        {
            let ghost before = out@;
            proof {
                let s = participants@.subrange(0, i + 1);
                assert(s.drop_last() =~= participants@.subrange(0, i as int));
                assert(s.last() == participants@[i as int]);
            }
            match &participants[i] {
                Some(edge) => match &edge.node {
                    Some(user) => {
                        let n = RepoViewNode::user_to_node(repo, created_at, title, user);
                        out.push(n);
                        proof {
                            lemma_push_views(before, n);
                        }
                    },
                    None => {},
                },
                None => {},
            }
            i = i + 1;
            assert(node_views(out@) =~= start + participants_records(
                participants@.subrange(0, i as int),
                repo@,
                created_at@,
                title@,
            ));
        }
        assert(participants@.subrange(0, participants@.len() as int) =~= participants@);
    }

    // Appends the records of every pull request of one page, in edge order.
    fn pull_reqs_vec(
        pr_edges_vec: &Vec<Option<PullRequestEdge>>,
        repo: &str,
        out: &mut Vec<RepoViewNode>,
    )
        ensures
            node_views(final(out)@) == node_views(old(out)@) + pull_requests_records(
                pr_edges_vec@,
                repo@,
            ),
    {
        let ghost start = node_views(out@);
        let mut i: usize = 0;
        while i < pr_edges_vec.len()
            invariant
                i <= pr_edges_vec@.len(),
                node_views(out@) == start + pull_requests_records(
                    pr_edges_vec@.subrange(0, i as int),
                    repo@,
                ),
            decreases pr_edges_vec@.len() - i,
        {
            let ghost before = node_views(out@);
            proof {
                let s = pr_edges_vec@.subrange(0, i + 1);
                assert(s.drop_last() =~= pr_edges_vec@.subrange(0, i as int));
                assert(s.last() == pr_edges_vec@[i as int]);
            }
            match &pr_edges_vec[i] {
                Some(edge) => match &edge.node {
                    Some(pr) => match &pr.participants.edges {
                        Some(parts) => {
                            RepoViewNode::participants_to_nodes(
                                parts,
                                repo,
                                pr.created_at.as_str(),
                                pr.title.as_str(),
                                out,
                            );
                        },
                        None => {},
                    },
                    None => {},
                },
                None => {},
            }
            i = i + 1;
            assert(node_views(out@) =~= start + pull_requests_records(
                pr_edges_vec@.subrange(0, i as int),
                repo@,
            ));
        }
        assert(pr_edges_vec@.subrange(0, pr_edges_vec@.len() as int) =~= pr_edges_vec@);
    }

    /// Flattens pages into records: pages in order, pull requests in edge
    /// order within a page, participants in edge order within a pull request.
    /// Absent edges, pull requests and users are skipped; an absent location
    /// or company reads "NA", absent organizations an empty list.
    pub fn parse_nodes(data: &[ResponseData]) -> (parsed: Vec<RepoViewNode>)
        ensures
            node_views(parsed@) == flatten_pages(data@),
    {
        let mut parsed: Vec<RepoViewNode> = Vec::new();
        let mut i: usize = 0;
        assert(node_views(parsed@) =~= flatten_pages(data@.subrange(0, 0)));
        while i < data.len()
            invariant
                i <= data@.len(),
                node_views(parsed@) == flatten_pages(data@.subrange(0, i as int)),
            decreases data@.len() - i,
        {
            let ghost before = node_views(parsed@);
            proof {
                let s = data@.subrange(0, i + 1);
                assert(s.drop_last() =~= data@.subrange(0, i as int));
                assert(s.last() == data@[i as int]);
            }
            match &data[i].repository {
                Some(repo) => match &repo.pull_requests.edges {
                    Some(pr_edges_vec) => {
                        RepoViewNode::pull_reqs_vec(
                            pr_edges_vec,
                            repo.name_with_owner.as_str(),
                            &mut parsed,
                        );
                    },
                    None => {},
                },
                None => {},
            }
            i = i + 1;
            assert(node_views(parsed@) =~= flatten_pages(data@.subrange(0, i as int)));
        }
        assert(data@.subrange(0, data@.len() as int) =~= data@);
        parsed
    }
}

} // verus!
