use vstd::prelude::*;

verus! {

/// The fixed path segment between the server's base address and the organisation.
pub const URL_API_REPOS: &'static str = "api/repos";

/// The fixed path segment that follows the repository.
pub const URL_BUILDS: &'static str = "builds";

/// `base/api/repos/org/repo/builds`, then `/num` when `num` is not empty.
pub open spec fn api_url_spec(base: Seq<char>, org: Seq<char>, repo: Seq<char>, num: Seq<char>) -> Seq<char> {
    let root = base + seq!['/'] + URL_API_REPOS@ + seq!['/'] + org + seq!['/'] + repo + seq!['/']
        + URL_BUILDS@;
    if num.len() == 0 {
        root
    } else {
        root + seq!['/'] + num
    }
}

/// Joins the base address, the API path, the organisation, the repository and,
/// when it is not empty, the build number with `/`. Nothing is escaped.
pub fn api_url(base: &str, org: &str, repo: &str, num: &str) -> (r: String)
    ensures
        r@ == api_url_spec(base@, org@, repo@, num@),
{
    let mut req = base.to_owned();
    req.append("/");
    req.append(URL_API_REPOS);
    req.append("/");
    req.append(org);
    req.append("/");
    req.append(repo);
    req.append("/");
    req.append(URL_BUILDS);
    if !num.is_empty() {
        req.append("/");
        req.append(num);
    }
    proof {
        reveal_strlit("/");
    }
    req
}

/// Building an address depends on its four parts alone: two calls with the
/// same parts give the same address.
pub proof fn lemma_api_url_deterministic(
    base: Seq<char>,
    org: Seq<char>,
    repo: Seq<char>,
    num: Seq<char>,
    first: Seq<char>,
    second: Seq<char>,
)
    requires
        first == api_url_spec(base, org, repo, num),
        second == api_url_spec(base, org, repo, num),
    ensures
        first == second,
{
}

} // verus!
