use vstd::prelude::*;
use crate::commit::Commit;
use crate::poll::{build_history_query, history_query, rfc3339, rfc3339_of, PollWindow};
use crate::repository::{bearer, graphql_url, rest_base_url, GitRepository};
use crate::transport::{HttpRequest, Method, RequestView};

verus! {

/// The headers of a REST call: the bearer token and the API version.
pub open spec fn api_headers(token: Seq<char>) -> Seq<(Seq<char>, Seq<char>)> {
    seq![("Authorization"@, bearer(token)), ("X-GitHub-Api-Version"@, "2022-11-28"@)]
}

/// The text of an approval comment, as its JSON body.
pub open spec fn approval_body() -> Seq<char> {
    "{\"body\": \"I approve this\"}"@
}

impl GitRepository {
    /// `<base>/repos/<org>/<repo>`.
    pub open spec fn repo_url(self) -> Seq<char> {
        rest_base_url(self.host()) + "/repos/"@ + self.org() + "/"@ + self.repo()
    }

    /// Up to 100 collaborators with admin permission.
    pub open spec fn collaborators_request_view(self) -> RequestView {
        RequestView {
            method: Method::Get,
            url: self.repo_url() + "/collaborators"@,
            headers: api_headers(self.token()),
            query: seq![("permission"@, "admin"@), ("per_page"@, "100"@)],
            body: None,
        }
    }

    /// The history query of the watched branch since the instant written `since`.
    pub open spec fn history_request_view(self, since: Seq<char>) -> RequestView {
        RequestView {
            method: Method::Post,
            url: graphql_url(self.host()),
            headers: seq![("Authorization"@, bearer(self.token()))],
            query: Seq::empty(),
            body: Some(history_query(self.org(), self.repo(), self.branch(), since)),
        }
    }

    /// An approval comment on the commit `oid`.
    pub open spec fn approval_request_view(self, oid: Seq<char>) -> RequestView {
        RequestView {
            method: Method::Post,
            url: self.repo_url() + "/commits/"@ + oid + "/comments"@,
            headers: api_headers(self.token()),
            query: Seq::empty(),
            body: Some(approval_body()),
        }
    }

    fn repo_url_string(&self) -> (r: String)
        ensures
            r@ == self.repo_url(),
    {
        self.get_base_rest_url().concat("/repos/").concat(self.get_org_name().as_str()).concat(
            "/",
        ).concat(self.get_repository_name().as_str())
    }

    /// The request for the repository's collaborators.
    pub fn collaborators_request(&self) -> (r: HttpRequest)
        ensures
            r@ == self.collaborators_request_view(),
    {
        let url = self.repo_url_string().concat("/collaborators");
        let r = HttpRequest::new(Method::Get, url).set(
            "Authorization",
            self.get_bearer_token_string().as_str(),
        ).set("X-GitHub-Api-Version", "2022-11-28").query("permission", "admin").query(
            "per_page",
            "100",
        );
        assert(r@.headers =~= api_headers(self.token()));
        assert(r@.query =~= seq![("permission"@, "admin"@), ("per_page"@, "100"@)]);
        r
    }

    /// The history query for the commits since the window's start; `None` when
    /// that instant cannot be written.
    pub fn history_request(&self, window: &PollWindow) -> (r: Option<HttpRequest>)
        ensures
            match rfc3339_of(window.since.unix_seconds, window.since.nanos, window.since.offset_seconds) {
                Some(since) => r matches Some(q) && q@ == self.history_request_view(since),
                None => r is None,
            },
    {
        match rfc3339(window.since) {
            Some(since) => {
                let body = build_history_query(
                    self.get_org_name().as_str(),
                    self.get_repository_name().as_str(),
                    self.get_main_branch_name(),
                    since.as_str(),
                );
                let r = HttpRequest::new(Method::Post, self.get_graphql_url()).set(
                    "Authorization",
                    self.get_bearer_token_string().as_str(),
                ).with_body(body);
                assert(r@.headers =~= seq![("Authorization"@, bearer(self.token()))]);
                Some(r)
            },
            None => None,
        }
    }

    /// The request that posts an approval comment on `commit`.
    pub fn approval_request(&self, commit: &Commit) -> (r: HttpRequest)
        ensures
            r@ == self.approval_request_view(commit.oid()),
    {
        let url = self.repo_url_string().concat("/commits/").concat(commit.get_id()).concat(
            "/comments",
        );
        let r = HttpRequest::new(Method::Post, url).set(
            "Authorization",
            self.get_bearer_token_string().as_str(),
        ).set("X-GitHub-Api-Version", "2022-11-28").with_body(
            String::from_str("{\"body\": \"I approve this\"}"),
        );
        assert(r@.headers =~= api_headers(self.token()));
        r
    }
}

} // verus!
