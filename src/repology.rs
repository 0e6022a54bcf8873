//! Registry metadata records, the filter that keeps those a host can install,
//! and the parts of a registry query that decide rather than transport.
use vstd::prelude::*;

use crate::error::ResolveError;
use crate::operating_system::{repository_prefixes, PackageManager};
use crate::text::{is_prefix_of, starts_with};

verus! {

#[verifier::external_type_specification]
#[verifier::external_body]
pub struct ExClient(reqwest::Client);

#[verifier::external_type_specification]
#[verifier::external_body]
pub struct ExUrl(url::Url);

/// Relies on `reqwest::ClientBuilder::build` over `reqwest::Client::builder()`:
/// a client with default settings, or the error that setting up TLS or the
/// resolver met on this host. What comes back depends on the host alone.
#[verifier::external_body]
fn build_client() -> (r: Result<reqwest::Client, reqwest::Error>) {
    reqwest::Client::builder().build()
}

/// Whether `url::Url::parse` accepts a text as an absolute URL.
pub uninterp spec fn parses_as_url(s: Seq<char>) -> bool;

/// Relies on `url::Url::parse`: it accepts or refuses on the text alone.
#[verifier::external_body]
fn parse_url(s: &str) -> (r: Result<url::Url, url::ParseError>)
    ensures
        r is Ok == parses_as_url(s@),
{
    url::Url::parse(s)
}

/// A registry metadata record for one package in one repository.
#[derive(Debug, Clone)]
pub struct Project {
    pub repo: String,
    pub srcname: Option<String>,
    pub visiblename: String,
    pub version: String,
    pub origversion: Option<String>,
    pub status: String,
    pub vulnerable: Option<bool>,
    pub licenses: Vec<String>,
    pub summary: Option<String>,
    pub categories: Vec<String>,
    pub subrepo: Option<String>,
    pub binname: Option<String>,
    pub maintainers: Vec<String>,
}

/// Two records hold the same values, field by field.
pub open spec fn same_project(a: Project, b: Project) -> bool {
    &&& a.repo@ == b.repo@
    &&& a.srcname.deep_view() == b.srcname.deep_view()
    &&& a.visiblename@ == b.visiblename@
    &&& a.version@ == b.version@
    &&& a.origversion.deep_view() == b.origversion.deep_view()
    &&& a.status@ == b.status@
    &&& a.vulnerable == b.vulnerable
    &&& a.licenses.deep_view() == b.licenses.deep_view()
    &&& a.summary.deep_view() == b.summary.deep_view()
    &&& a.categories.deep_view() == b.categories.deep_view()
    &&& a.subrepo.deep_view() == b.subrepo.deep_view()
    &&& a.binname.deep_view() == b.binname.deep_view()
    &&& a.maintainers.deep_view() == b.maintainers.deep_view()
}

fn same_optional_text(a: &Option<String>, b: &Option<String>) -> (r: bool)
    ensures
        r == (a.deep_view() == b.deep_view()),
{
    match a {
        Some(x) => match b {
            Some(y) => {
                let r = *x == *y;
                assert(x.deep_view() == x@ && y.deep_view() == y@);
                r
            },
            None => false,
        },
        None => b.is_none(),
    }
}

fn same_texts(a: &Vec<String>, b: &Vec<String>) -> (r: bool)
    ensures
        r == (a.deep_view() == b.deep_view()),
{
    if a.len() != b.len() {
        proof {
            assert(a.deep_view().len() != b.deep_view().len());
        }
        return false;
    }
    let mut i: usize = 0;
    while i < a.len()
        invariant
            a@.len() == b@.len(),
            i <= a@.len(),
            forall|k: int| 0 <= k < i ==> a@[k]@ == b@[k]@,
        decreases a@.len() - i,
    {
        if a[i] != b[i] {
            proof {
                assert(a.deep_view()[i as int] != b.deep_view()[i as int]);
            }
            return false;
        }
        i = i + 1;
    }
    proof {
        assert(a.deep_view() =~= b.deep_view());
    }
    true
}

impl PartialEq for Project {
    fn eq(&self, other: &Project) -> (r: bool)
        ensures
            r == same_project(*self, *other),
    {
        self.repo == other.repo && same_optional_text(&self.srcname, &other.srcname)
            && self.visiblename == other.visiblename && self.version == other.version
            && same_optional_text(&self.origversion, &other.origversion) && self.status
            == other.status && self.vulnerable == other.vulnerable && same_texts(
            &self.licenses,
            &other.licenses,
        ) && same_optional_text(&self.summary, &other.summary) && same_texts(
            &self.categories,
            &other.categories,
        ) && same_optional_text(&self.subrepo, &other.subrepo) && same_optional_text(
            &self.binname,
            &other.binname,
        ) && same_texts(&self.maintainers, &other.maintainers)
    }
}

impl vstd::std_specs::cmp::PartialEqSpecImpl for Project {
    open spec fn obeys_eq_spec() -> bool {
        true
    }

    open spec fn eq_spec(&self, other: &Project) -> bool {
        same_project(*self, *other)
    }
}

impl Default for Project {
    /// A record with empty texts, absent optional fields and empty lists.
    fn default() -> (r: Project)
        ensures
            r.repo@.len() == 0,
            r.srcname is None,
            r.visiblename@.len() == 0,
            r.version@.len() == 0,
            r.origversion is None,
            r.status@.len() == 0,
            r.vulnerable is None,
            r.licenses@.len() == 0,
            r.summary is None,
            r.categories@.len() == 0,
            r.subrepo is None,
            r.binname is None,
            r.maintainers@.len() == 0,
    {
        Project {
            repo: String::new(),
            srcname: None,
            visiblename: String::new(),
            version: String::new(),
            origversion: None,
            status: String::new(),
            vulnerable: None,
            licenses: Vec::new(),
            summary: None,
            categories: Vec::new(),
            subrepo: None,
            binname: None,
            maintainers: Vec::new(),
        }
    }
}

/// Some manager of `managers` serves a repository named `repo`.
pub open spec fn installable_by(repo: Seq<char>, managers: Seq<PackageManager>) -> bool {
    exists|i: int, j: int|
        0 <= i < managers.len() && 0 <= j < repository_prefixes(managers[i]).len()
            && #[trigger] is_prefix_of(repository_prefixes(managers[i])[j], repo)
}

/// The records whose repository some manager of `managers` serves, in order.
pub open spec fn installable_projects(projects: Seq<Project>, managers: Seq<PackageManager>) -> Seq<
    Project,
> {
    projects.filter(|p: Project| installable_by(p.repo@, managers))
}

/// Whether some manager of `package_managers` serves the repository `repo`.
pub fn installable(repo: &str, package_managers: &[PackageManager]) -> (r: bool)
    ensures
        r == installable_by(repo@, package_managers@),
{
    let mut i: usize = 0;
    while i < package_managers.len()
        invariant
            i <= package_managers@.len(),
            forall|a: int, b: int|
                0 <= a < i && 0 <= b < repository_prefixes(package_managers@[a]).len()
                    ==> !#[trigger] is_prefix_of(
                    repository_prefixes(package_managers@[a])[b],
                    repo@,
                ),
        decreases package_managers@.len() - i,
    {
        let prefixes = package_managers[i].repology_repository_prefix();
        let mut j: usize = 0;
        while j < prefixes.len()
            invariant
                i < package_managers@.len(),
                j <= prefixes@.len(),
                prefixes@.len() == repository_prefixes(package_managers@[i as int]).len(),
                forall|k: int|
                    0 <= k < prefixes@.len() ==> (#[trigger] prefixes@[k])@ == repository_prefixes(
                        package_managers@[i as int],
                    )[k],
                forall|a: int, b: int|
                    0 <= a < i && 0 <= b < repository_prefixes(package_managers@[a]).len()
                        ==> !#[trigger] is_prefix_of(
                        repository_prefixes(package_managers@[a])[b],
                        repo@,
                    ),
                forall|b: int|
                    0 <= b < j ==> !#[trigger] is_prefix_of(
                        repository_prefixes(package_managers@[i as int])[b],
                        repo@,
                    ),
            decreases prefixes@.len() - j,
        {
            if starts_with(repo, prefixes[j]) {
                assert(is_prefix_of(
                    repository_prefixes(package_managers@[i as int])[j as int],
                    repo@,
                ));
                return true;
            }
            j = j + 1;
        }
        i = i + 1;
    }
    false
}

/// Keeps the records whose repository some manager of `package_managers`
/// serves, in their original order.
pub fn filter(projects: Vec<Project>, package_managers: &[PackageManager]) -> (r: Vec<Project>)
    ensures
        r@ == installable_projects(projects@, package_managers@),
{
    let ghost all = projects@;
    let mut kept: Vec<Project> = Vec::new();
    for project in it: projects.into_iter()
        invariant
            it.seq() == all,
            kept@ == installable_projects(all.subrange(0, it.index() as int), package_managers@),
    {
        let ghost done = it.index() as int;
        let keep = installable(project.repo.as_str(), package_managers);
        proof {
            let after = all.subrange(0, done + 1);
            assert(after.drop_last() =~= all.subrange(0, done));
            assert(after.last() == project);
            reveal(Seq::filter);
        }
        if keep {
            kept.push(project);
        }
    }
    assert(all.subrange(0, all.len() as int) =~= all);
    kept
}

/// The registry address that describes `project_name`: the name is appended
/// as given, without escaping.
pub open spec fn project_address(base: Seq<char>, project_name: Seq<char>) -> Seq<char> {
    base + "/v1/project/"@ + project_name
}

/// Whether an HTTP status code is in the success range.
pub open spec fn success_status(status_code: u16) -> bool {
    200 <= status_code < 300
}

/// Whether an HTTP status code is in the success range (200 to 299).
pub fn is_success(status_code: u16) -> (r: bool)
    ensures
        r == success_status(status_code),
{
    200 <= status_code && status_code < 300
}

/// The error for a registry answer with an unsuccessful status; `body` is the
/// answer's text, `None` where it could not be read.
pub fn failed_request(status_code: u16, body: Option<String>) -> (r: ResolveError)
    ensures
        r matches ResolveError::FailedRequest { status_code: code, message } && code == status_code
            && message@ == match body {
            Some(text) => text@,
            None => Seq::<char>::empty(),
        },
{
    let message = match body {
        Some(text) => text,
        None => String::new(),
    };
    ResolveError::FailedRequest { status_code, message }
}

/// A client of the package-metadata registry. It holds a transport handle
/// that may be shared by concurrent requests, and no other state.
pub struct RepologyClient {
    client: reqwest::Client,
    base_domain: &'static str,
    user_agent: &'static str,
}

impl RepologyClient {
    /// The address every request path is appended to.
    pub closed spec fn base(&self) -> Seq<char> {
        self.base_domain@
    }

    /// The client-agent header value the requests carry.
    pub closed spec fn agent(&self) -> Seq<char> {
        self.user_agent@
    }

    /// A client of the public registry at `https://repology.org/api`, or
    /// `Request` where the host cannot set up a transport.
    pub fn new() -> (r: Result<Self, ResolveError>)
        ensures
            r matches Ok(c) ==> c.base() == "https://repology.org/api"@ && c.agent() == "vrmiguel"@,
            r matches Err(e) ==> e is Request,
    {
        match build_client() {
            Ok(client) => Ok(
                RepologyClient {
                    client,
                    base_domain: "https://repology.org/api",
                    user_agent: "vrmiguel",
                },
            ),
            Err(e) => Err(ResolveError::Request(e)),
        }
    }

    /// The same client, sending `user_agent` as its client-agent value.
    pub fn with_user_agent(self, user_agent: &'static str) -> (r: Self)
        ensures
            r.base() == self.base(),
            r.agent() == user_agent@,
    {
        RepologyClient { user_agent, ..self }
    }

    /// The transport handle to send requests with.
    pub fn client(&self) -> &reqwest::Client {
        &self.client
    }

    /// The client-agent header value to send.
    pub fn user_agent(&self) -> (r: &'static str)
        ensures
            r@ == self.agent(),
    {
        self.user_agent
    }

    /// The address that describes `project_name`, as text.
    pub fn project_address(&self, project_name: &str) -> (r: String)
        ensures
            r@ == project_address(self.base(), project_name@),
    {
        let mut address = String::from_str(self.base_domain);
        address.append("/v1/project/");
        address.append(project_name);
        address
    }

    /// The URL that describes `project_name`, or `InvalidUrl` where that
    /// address is not a valid absolute URL.
    pub fn project_url(&self, project_name: &str) -> (r: Result<url::Url, ResolveError>)
        ensures
            r is Ok == parses_as_url(project_address(self.base(), project_name@)),
            r is Err ==> r->Err_0 is InvalidUrl,
    {
        let address = self.project_address(project_name);
        match parse_url(address.as_str()) {
            Ok(url) => Ok(url),
            Err(e) => Err(ResolveError::InvalidUrl(e)),
        }
    }
}

} // verus!
