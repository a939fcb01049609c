use vstd::prelude::*;

use crate::text::opt_view;
use crate::url::{
    create_url, join_params, lemma_join_prepend, pairs_view, param_text, url_of, BASE_URL_V1_1,
    BASE_URL_V2,
};

verus! {

/// Query parameter that carries the token on the legacy API.
pub const TOKEN_PARAM: &'static str = "circle-token";

/// Header that carries the token on the current API.
pub const TOKEN_HEADER: &'static str = "Circle-Token";

/// The version control system of every project this client addresses.
pub const VCS_TYPE: &'static str = "github";

/// The account that owns every project this client addresses.
pub const OWNER: &'static str = "MeinDach";

/// The two methods the API is called with.
#[derive(Debug, Clone, Copy, PartialEq, Eq, Structural)]
pub enum HttpMethod {
    Get,
    Post,
}

/// A request, ready to be sent: the body, where there is one, is a JSON
/// object with these string entries.
pub struct ApiRequest {
    pub method: HttpMethod,
    pub url: String,
    pub headers: Vec<(String, String)>,
    pub body: Option<Vec<(String, String)>>,
}

/// A request as characters and pairs of characters.
pub struct RequestView {
    pub method: HttpMethod,
    pub url: Seq<char>,
    pub headers: Seq<(Seq<char>, Seq<char>)>,
    pub body: Option<Seq<(Seq<char>, Seq<char>)>>,
}

impl View for ApiRequest {
    type V = RequestView;

    open spec fn view(&self) -> RequestView {
        RequestView {
            method: self.method,
            url: self.url@,
            headers: pairs_view(self.headers@),
            body: match self.body {
                Some(b) => Some(pairs_view(b@)),
                None => None,
            },
        }
    }
}

/// The query of a legacy request: the token first, then the caller's parameters.
pub open spec fn legacy_params(token: Seq<char>, ps: Seq<(Seq<char>, Seq<char>)>) -> Seq<
    (Seq<char>, Seq<char>),
> {
    seq![(TOKEN_PARAM@, token)] + ps
}

/// A GET on the legacy API: the token rides in the query.
pub open spec fn legacy_get(token: Seq<char>, path: Seq<char>, ps: Seq<(Seq<char>, Seq<char>)>) -> RequestView {
    RequestView {
        method: HttpMethod::Get,
        url: url_of(BASE_URL_V1_1@, path, legacy_params(token, ps)),
        headers: Seq::empty(),
        body: None,
    }
}

/// A GET on the current API: the token rides in a header.
pub open spec fn current_get(token: Seq<char>, path: Seq<char>, ps: Seq<(Seq<char>, Seq<char>)>) -> RequestView {
    RequestView {
        method: HttpMethod::Get,
        url: url_of(BASE_URL_V2@, path, ps),
        headers: seq![(TOKEN_HEADER@, token)],
        body: None,
    }
}

/// A POST on the current API, with a JSON object as its body.
pub open spec fn current_post(token: Seq<char>, path: Seq<char>, body: Seq<(Seq<char>, Seq<char>)>) -> RequestView {
    RequestView {
        method: HttpMethod::Post,
        url: url_of(BASE_URL_V2@, path, Seq::empty()),
        headers: seq![(TOKEN_HEADER@, token)],
        body: Some(body),
    }
}

/// `/project/github/<owner>/<project>`
pub open spec fn project_path(project: Seq<char>) -> Seq<char> {
    "/project/"@ + VCS_TYPE@ + "/"@ + OWNER@ + "/"@ + project
}

pub open spec fn pipeline_path(project: Seq<char>) -> Seq<char> {
    project_path(project) + "/pipeline"@
}

pub open spec fn artifacts_path(project: Seq<char>) -> Seq<char> {
    project_path(project) + "/latest/artifacts"@
}

/// The body of a trigger: an entry for each of branch and tag that is given.
pub open spec fn trigger_body(branch: Option<Seq<char>>, tag: Option<Seq<char>>) -> Seq<
    (Seq<char>, Seq<char>),
> {
    let b = match branch {
        Some(v) => seq![("branch"@, v)],
        None => Seq::empty(),
    };
    let t = match tag {
        Some(v) => seq![("tag"@, v)],
        None => Seq::empty(),
    };
    b + t
}

pub open spec fn me_request(token: Seq<char>) -> RequestView {
    legacy_get(token, "/me"@, Seq::empty())
}

pub open spec fn projects_request(token: Seq<char>) -> RequestView {
    legacy_get(token, "/projects"@, Seq::empty())
}

pub open spec fn pipelines_request(token: Seq<char>, project: Seq<char>) -> RequestView {
    current_get(token, pipeline_path(project), Seq::empty())
}

pub open spec fn artifacts_request(token: Seq<char>, project: Seq<char>, branch: Seq<char>) -> RequestView {
    legacy_get(token, artifacts_path(project), seq![("branch"@, branch)])
}

pub open spec fn trigger_request(
    token: Seq<char>,
    project: Seq<char>,
    branch: Option<Seq<char>>,
    tag: Option<Seq<char>>,
) -> RequestView {
    current_post(token, pipeline_path(project), trigger_body(branch, tag))
}

/// A legacy URL carries the token as its first query parameter, then the
/// caller's parameters in the order given, joined with `&` and unescaped.
pub proof fn lemma_legacy_token_first(
    token: Seq<char>,
    path: Seq<char>,
    ps: Seq<(Seq<char>, Seq<char>)>,
)
    ensures
        url_of(BASE_URL_V1_1@, path, legacy_params(token, ps)) == BASE_URL_V1_1@ + path + seq!['?']
            + TOKEN_PARAM@ + seq!['='] + token + if ps.len() == 0 {
            Seq::empty()
        } else {
            seq!['&'] + join_params(ps)
        },
{
    lemma_join_prepend((TOKEN_PARAM@, token), ps);
    let rest = if ps.len() == 0 {
        Seq::empty()
    } else {
        seq!['&'] + join_params(ps)
    };
    assert(join_params(legacy_params(token, ps)) =~= param_text((TOKEN_PARAM@, token)) + rest);
    assert(url_of(BASE_URL_V1_1@, path, legacy_params(token, ps)) =~= BASE_URL_V1_1@ + path
        + seq!['?'] + TOKEN_PARAM@ + seq!['='] + token + rest);
}

/// A trigger's body holds a `branch` entry exactly when a branch is given,
/// a `tag` entry exactly when a tag is given, and nothing else: with
/// neither, it is empty.
pub proof fn lemma_trigger_body_keys(branch: Option<Seq<char>>, tag: Option<Seq<char>>)
    ensures
        branch is None && tag is None ==> trigger_body(branch, tag).len() == 0,
        (exists|i: int|
            0 <= i < trigger_body(branch, tag).len() && #[trigger] trigger_body(branch, tag)[i].0
                == "branch"@) <==> branch is Some,
        (exists|i: int|
            0 <= i < trigger_body(branch, tag).len() && #[trigger] trigger_body(branch, tag)[i].0
                == "tag"@) <==> tag is Some,
        forall|i: int|
            0 <= i < trigger_body(branch, tag).len() ==> #[trigger] trigger_body(branch, tag)[i].0
                == "branch"@ || trigger_body(branch, tag)[i].0 == "tag"@,
{
    reveal_strlit("branch");
    reveal_strlit("tag");
    assert("branch"@.len() != "tag"@.len());
    let body = trigger_body(branch, tag);
    if branch is Some {
        assert(body[0].0 == "branch"@);
    }
    if tag is Some {
        assert(body[body.len() - 1].0 == "tag"@);
    }
}

fn pair(k: &str, v: &str) -> (r: (String, String))
    ensures
        r.0@ == k@,
        r.1@ == v@,
{
    (String::from_str(k), String::from_str(v))
}

fn project_path_of(project: &str, tail: &str) -> (r: String)
    ensures
        r@ == project_path(project@) + tail@,
{
    let mut r = String::from_str("/project/");
    r.append(VCS_TYPE);
    r.append("/");
    r.append(OWNER);
    r.append("/");
    r.append(project);
    r.append(tail);
    r
}

/// Knows the token and builds the authenticated requests of each operation.
pub struct CircleCiClient {
    token: String,
}

impl View for CircleCiClient {
    type V = Seq<char>;

    closed spec fn view(&self) -> Seq<char> {
        self.token@
    }
}

impl CircleCiClient {
    pub fn new(token: String) -> (r: CircleCiClient)
        ensures
            r@ == token@,
    {
        CircleCiClient { token }
    }

    /// The current user.
    pub fn get_me(&self) -> (r: ApiRequest)
        ensures
            r@ == me_request(self@),
    {
        let ps: Vec<(String, String)> = Vec::new();
        self.get_v1_1("/me", &ps)
    }

    /// Every project the user follows.
    pub fn get_all_projects(&self) -> (r: ApiRequest)
        ensures
            r@ == projects_request(self@),
    {
        let ps: Vec<(String, String)> = Vec::new();
        self.get_v1_1("/projects", &ps)
    }

    /// The pipelines of a project.
    pub fn get_all_pipelines(&self, project: &str) -> (r: ApiRequest)
        ensures
            r@ == pipelines_request(self@, project@),
    {
        let path = project_path_of(project, "/pipeline");
        let ps: Vec<(String, String)> = Vec::new();
        self.get_v2(path.as_str(), &ps)
    }

    /// The artifacts of the latest build of a branch.
    pub fn get_latest_artifacts(&self, project: &str, branch: &str) -> (r: ApiRequest)
        ensures
            r@ == artifacts_request(self@, project@, branch@),
    {
        let path = project_path_of(project, "/latest/artifacts");
        let ps: Vec<(String, String)> = vec![pair("branch", branch)];
        assert(pairs_view(ps@) =~= seq![("branch"@, branch@)]);
        self.get_v1_1(path.as_str(), &ps)
    }

    /// Starts a pipeline on a project, for the branch and tag that are given.
    pub fn trigger_build_for(&self, project: &str, branch: &Option<String>, tag: &Option<String>) -> (r: ApiRequest)
        ensures
            r@ == trigger_request(self@, project@, opt_view(*branch), opt_view(*tag)),
    {
        let mut body: Vec<(String, String)> = Vec::new();
        if let Some(b) = branch {
            body.push(pair("branch", b.as_str()));
        }
        if let Some(t) = tag {
            body.push(pair("tag", t.as_str()));
        }
        assert(pairs_view(body@) =~= trigger_body(opt_view(*branch), opt_view(*tag)));
        let path = project_path_of(project, "/pipeline");
        self.post(path.as_str(), body)
    }

    fn get_v1_1(&self, path: &str, query_params: &Vec<(String, String)>) -> (r: ApiRequest)
        ensures
            r@ == legacy_get(self@, path@, pairs_view(query_params@)),
    {
        let url = self.create_url_v1_1(path, query_params);
        let r = ApiRequest { method: HttpMethod::Get, url, headers: Vec::new(), body: None };
        assert(r@.headers =~= Seq::empty());
        r
    }

    fn token_headers(&self) -> (r: Vec<(String, String)>)
        ensures
            pairs_view(r@) == seq![(TOKEN_HEADER@, self@)],
    {
        let r = vec![pair(TOKEN_HEADER, self.token.as_str())];
        assert(pairs_view(r@) =~= seq![(TOKEN_HEADER@, self@)]);
        r
    }

    fn get_v2(&self, path: &str, query_params: &Vec<(String, String)>) -> (r: ApiRequest)
        ensures
            r@ == current_get(self@, path@, pairs_view(query_params@)),
    {
        let url = self.create_url_v2(path, query_params);
        ApiRequest { method: HttpMethod::Get, url, headers: self.token_headers(), body: None }
    }

    fn post(&self, path: &str, body: Vec<(String, String)>) -> (r: ApiRequest)
        ensures
            r@ == current_post(self@, path@, pairs_view(body@)),
    {
        let ps: Vec<(String, String)> = Vec::new();
        let url = self.create_url_v2(path, &ps);
        assert(pairs_view(ps@) =~= Seq::empty());
        ApiRequest { method: HttpMethod::Post, url, headers: self.token_headers(), body: Some(body) }
    }

    /// A legacy URL: the token goes first among the query parameters.
    pub fn create_url_v1_1(&self, path: &str, query_params: &Vec<(String, String)>) -> (r: String)
        ensures
            r@ == url_of(BASE_URL_V1_1@, path@, legacy_params(self@, pairs_view(query_params@))),
    {
        let mut all: Vec<(String, String)> = vec![pair(TOKEN_PARAM, self.token.as_str())];
        let mut i: usize = 0;
        while i < query_params.len()
            invariant
                i <= query_params@.len(),
                pairs_view(all@) == legacy_params(self@, pairs_view(query_params@).take(i as int)),
            decreases query_params@.len() - i,
        {
            let p = &query_params[i];
            let ghost old_all = all@;
            all.push(pair(p.0.as_str(), p.1.as_str()));
            assert(pairs_view(all@) =~= pairs_view(old_all).push((p.0@, p.1@)));
            assert(pairs_view(query_params@).take(i + 1) =~= pairs_view(query_params@).take(
                i as int,
            ).push((p.0@, p.1@)));
            assert(pairs_view(all@) =~= legacy_params(self@, pairs_view(query_params@).take(i + 1)));
            i = i + 1;
        }
        assert(pairs_view(query_params@).take(query_params@.len() as int) =~= pairs_view(
            query_params@,
        ));
        create_url(BASE_URL_V1_1, path, &all)
    }

    /// A current URL: the token travels in a header instead.
    pub fn create_url_v2(&self, path: &str, query_params: &Vec<(String, String)>) -> (r: String)
        ensures
            r@ == url_of(BASE_URL_V2@, path@, pairs_view(query_params@)),
    {
        create_url(BASE_URL_V2, path, query_params)
    }
}

} // verus!
