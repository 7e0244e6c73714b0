//! Turning `owner/name` arguments into repository queries.
use vstd::prelude::*;
use crate::error::{Error, ErrorKind, Result};
use crate::repoview::{repoview_request, RepoQuery};

verus! {

/// The node count of each request built from the arguments.
pub const NUM_NODES: i64 = 50;

/// A repository named on the command line.
#[derive(Debug, Clone)]
pub struct RepositoryArg {
    pub owner: String,
    pub name: String,
}

pub open spec fn slash_free(s: Seq<char>) -> bool {
    forall|i: int| 0 <= i < s.len() ==> s[i] != '/'
}

/// `s` is `owner/name` with both parts non-empty and free of '/'.
pub open spec fn splits_as(s: Seq<char>, owner: Seq<char>, name: Seq<char>) -> bool {
    &&& owner.len() > 0
    &&& name.len() > 0
    &&& slash_free(owner)
    &&& slash_free(name)
    &&& s == owner + seq!['/'] + name
}

/// `s` splits on '/' at index `k` into exactly two non-empty parts.
pub open spec fn splits_at(s: Seq<char>, k: int) -> bool {
    &&& 0 < k < s.len() - 1
    &&& s[k] == '/'
    &&& slash_free(s.subrange(0, k))
    &&& slash_free(s.subrange(k + 1, s.len() as int))
}

/// `s` names a repository as `owner/name`.
pub open spec fn is_repository(s: Seq<char>) -> bool {
    exists|k: int| splits_at(s, k)
}

/// Every argument names a repository, and there is at least one.
pub open spec fn valid_args(args: Seq<String>) -> bool {
    args.len() > 0 && forall|i: int| 0 <= i < args.len() ==> is_repository(#[trigger] args[i]@)
}

/// The context of the error for an empty argument list.
pub open spec fn no_arguments_context() -> Seq<char> {
    "No arguments found"@
}

/// The context of the error for an argument that names no repository.
pub open spec fn bad_argument_context(arg: Seq<char>) -> Seq<char> {
    "Parsing repository ("@ + arg + ")"@
}

/// The error that a list of arguments gives: the empty list has its own
/// context, otherwise the first argument that names no repository is quoted.
pub open spec fn args_error(args: Seq<String>, e: Error) -> bool {
    &&& e.kind_spec() == ErrorKind::BadArgs
    &&& args.len() == 0 ==> e.context_spec() == no_arguments_context()
    &&& args.len() > 0 ==> exists|i: int|
        #![trigger args[i]]
        0 <= i < args.len() && !is_repository(args[i]@) && (forall|j: int|
            0 <= j < i ==> is_repository(#[trigger] args[j]@)) && e.context_spec()
            == bad_argument_context(args[i]@)
}

/// Splits one argument into owner and name; `None` unless it holds exactly
/// one '/' with text on both sides.
pub fn parse_repository(arg: &str) -> (r: Option<RepositoryArg>)
    ensures
        r is Some <==> is_repository(arg@),
        r matches Some(ra) ==> splits_as(arg@, ra.owner@, ra.name@),
{
    let n = arg.unicode_len();
    let mut first: Option<usize> = None;
    let mut second: Option<usize> = None;
    let mut i: usize = 0;
    while i < n && second.is_none()
        invariant
            n == arg@.len(),
            i <= n,
            first is None ==> forall|j: int| 0 <= j < i ==> arg@[j] != '/',
            first matches Some(f) ==> f < i && arg@[f as int] == '/' && forall|j: int|
                0 <= j < f ==> arg@[j] != '/',
            second is None ==> (first matches Some(f) ==> forall|j: int|
                f < j < i ==> arg@[j] != '/'),
            second matches Some(g) ==> (first matches Some(f) && f < g && g < n && arg@[g as int]
                == '/'),
            second is Some ==> first is Some,
        decreases n - i,
    {
        if arg.get_char(i) == '/' {
            if first.is_none() {
                first = Some(i);
            } else {
                second = Some(i);
            }
        }
        i = i + 1;
    }
    match (first, second) {
        (Some(f), None) => {
            if f > 0 && f + 1 < n {
                let owner = arg.substring_char(0, f);
                let name = arg.substring_char(f + 1, n);
                assert(arg@ =~= owner@ + seq!['/'] + name@);
                assert(splits_at(arg@, f as int));
                Some(RepositoryArg { owner: owner.to_owned(), name: name.to_owned() })
            } else {
                assert forall|k: int| !splits_at(arg@, k) by {
                    if splits_at(arg@, k) {
                        assert(k == f);
                    }
                }
                None
            }
        },
        (Some(f), Some(g)) => {
            assert forall|k: int| !splits_at(arg@, k) by {
                if splits_at(arg@, k) {
                    if k == f {
                        assert(arg@.subrange(k + 1, arg@.len() as int)[g - k - 1] == '/');
                    } else {
                        assert(arg@.subrange(0, k)[f as int] == '/');
                    }
                }
            }
            None
        },
        _ => {
            assert forall|k: int| !splits_at(arg@, k) by {
                if splits_at(arg@, k) {
                    assert(arg@[k] == '/');
                }
            }
            None
        },
    }
}

/// Parses the arguments after the program name into repositories.
pub fn parse_args(args: &Vec<String>) -> (r: Result<Vec<RepositoryArg>>)
    ensures
        r is Ok <==> valid_args(args@),
        r matches Ok(v) ==> v@.len() == args@.len() && forall|i: int|
            0 <= i < v@.len() ==> splits_as(args@[i]@, #[trigger] v@[i].owner@, v@[i].name@),
        r matches Err(e) ==> args_error(args@, e),
{
    if args.len() == 0 {
        proof {
            reveal_strlit("No arguments found");
        }
        return Err(Error::new("No arguments found", ErrorKind::BadArgs));
    }
    let mut repos: Vec<RepositoryArg> = Vec::new();
    let mut i: usize = 0;
    while i < args.len()
        invariant
            i <= args@.len(),
            repos@.len() == i,
            forall|j: int|
                0 <= j < i ==> splits_as(args@[j]@, #[trigger] repos@[j].owner@, repos@[j].name@),
            forall|j: int| 0 <= j < i ==> is_repository(#[trigger] args@[j]@),
        decreases args@.len() - i,
    {
        match parse_repository(args[i].as_str()) {
            Some(ra) => {
                repos.push(ra);
            },
            None => {
                let mut context = "Parsing repository (".to_owned();
                context.append(args[i].as_str());
                context.append(")");
                let e = Error::new(context.as_str(), ErrorKind::BadArgs);
                assert(args@[i as int]@ == args[i as int]@);
                assert(args_error(args@, e));
                return Err(e);
            },
        }
        i = i + 1;
    }
    Ok(repos)
}

/// Builds the first request for each repository argument: `NUM_NODES`
/// nodes, no cursor.
pub fn make_requests(args: &Vec<String>) -> (r: Result<Vec<RepoQuery>>)
    ensures
        r is Ok <==> valid_args(args@),
        r matches Ok(v) ==> v@.len() == args@.len() && forall|i: int|
            0 <= i < v@.len() ==> {
                &&& splits_as(
                    args@[i]@,
                    #[trigger] v@[i].variables.owner@,
                    v@[i].variables.name@,
                )
                &&& v@[i].variables.nnodes == NUM_NODES
                &&& v@[i].variables.pullcursor is None
            },
        r matches Err(e) ==> args_error(args@, e),
{
    let repos = match parse_args(args) {
        Ok(v) => v,
        Err(e) => {
            return Err(e);
        },
    };
    let mut requests: Vec<RepoQuery> = Vec::new();
    let mut i: usize = 0;
    while i < repos.len()
        invariant
            i <= repos@.len(),
            repos@.len() == args@.len(),
            forall|j: int|
                0 <= j < repos@.len() ==> splits_as(
                    args@[j]@,
                    #[trigger] repos@[j].owner@,
                    repos@[j].name@,
                ),
            requests@.len() == i,
            forall|j: int|
                0 <= j < i ==> {
                    &&& #[trigger] requests@[j].variables.owner@ == repos@[j].owner@
                    &&& requests@[j].variables.name@ == repos@[j].name@
                    &&& requests@[j].variables.nnodes == NUM_NODES
                    &&& requests@[j].variables.pullcursor is None
                },
        decreases repos@.len() - i,
    {
        let q = repoview_request(repos[i].owner.as_str(), repos[i].name.as_str(), NUM_NODES, None);
        let ghost prev = requests@;
        requests.push(q);
        assert(forall|j: int| 0 <= j < i ==> requests@[j] == prev[j]);
        assert(requests@[i as int] == q);
        i = i + 1;
    }
    Ok(requests)
}

} // verus!
