use vstd::prelude::*;

verus! {

/// Where the segment of `s` that starts at `from` ends: at the next '/' or at
/// the end of `s`.
pub open spec fn segment_end(s: Seq<char>, from: int) -> int
    decreases s.len() - from,
{
    if from < 0 || from >= s.len() {
        s.len() as int
    } else if s[from] == '/' {
        from
    } else {
        segment_end(s, from + 1)
    }
}

proof fn lemma_segment_end_bounds(s: Seq<char>, from: int)
    requires
        0 <= from <= s.len(),
    ensures
        from <= segment_end(s, from) <= s.len(),
    decreases s.len() - from,
{
    if from < s.len() && s[from] != '/' {
        lemma_segment_end_bounds(s, from + 1);
    }
}

/// The first segment of a repository path: the organisation.
pub open spec fn org_name_of(path: Seq<char>) -> Seq<char> {
    path.subrange(0, segment_end(path, 0))
}

/// The second segment of a repository path: `<repository>.git`.
pub open spec fn repository_segment_of(path: Seq<char>) -> Seq<char> {
    let start = segment_end(path, 0) + 1;
    path.subrange(start, segment_end(path, start))
}

/// The repository name: the second segment without its last four characters,
/// the `.git` suffix.
pub open spec fn repository_name_of(path: Seq<char>) -> Seq<char> {
    let seg = repository_segment_of(path);
    seg.subrange(0, seg.len() - 4)
}

/// A path names a repository when it has a second segment of at least four
/// characters.
pub open spec fn names_repository(path: Seq<char>) -> bool {
    segment_end(path, 0) < path.len() && repository_segment_of(path).len() >= 4
}

/// The end of the segment of `s` that starts at `from`.
fn find_segment_end(s: &str, from: usize) -> (r: usize)
    requires
        from <= s@.len(),
    ensures
        r == segment_end(s@, from as int),
{
    proof {
        lemma_segment_end_bounds(s@, from as int);
    }
    let n = s.unicode_len();
    let mut i = from;
    while i < n && s.get_char(i) != '/'
        invariant
            n == s@.len(),
            from <= i <= n,
            segment_end(s@, i as int) == segment_end(s@, from as int),
        decreases n - i,
    {
        i = i + 1;
    }
    i
}

pub open spec fn is_main_branch_name(name: Seq<char>) -> bool {
    name == "main"@ || name == "master"@
}

/// The last of `names` that is `main` or `master`.
pub open spec fn last_main_branch(names: Seq<Seq<char>>) -> Option<Seq<char>>
    decreases names.len(),
{
    if names.len() == 0 {
        None
    } else if is_main_branch_name(names.last()) {
        Some(names.last())
    } else {
        last_main_branch(names.drop_last())
    }
}

/// Picks the watched branch among the repository's branch names: the last one
/// named `main` or `master`.
pub fn choose_main_branch(names: &Vec<String>) -> (r: Option<String>)
    ensures
        opt_view(r) == last_main_branch(names@.map_values(|s: String| s@)),
{
    let ghost views = names@.map_values(|s: String| s@);
    let mut i = names.len();
    assert(views.subrange(0, i as int) =~= views);
    while i > 0
        invariant
            i <= names@.len(),
            views == names@.map_values(|s: String| s@),
            last_main_branch(views) == last_main_branch(views.subrange(0, i as int)),
        decreases i,
    {
        let name = &names[i - 1];
        let ghost prefix = views.subrange(0, i as int);
        assert(prefix.last() == name@);
        assert(prefix.drop_last() =~= views.subrange(0, i - 1));
        if *name == String::from_str("main") || *name == String::from_str("master") {
            return Some(name.clone());
        }
        i = i - 1;
    }
    None
}

/// The view of an optional string.
pub open spec fn opt_view(o: Option<String>) -> Option<Seq<char>> {
    match o {
        Some(s) => Some(s@),
        None => None,
    }
}

/// What gix makes of a remote location: its host, if it has one, and its
/// path; `None` when gix refuses the text.
pub uninterp spec fn parsed_remote(location: Seq<char>) -> Option<(Option<Seq<char>>, Seq<char>)>;

/// Relies on gix's `Url::try_from(&str)` to parse a remote location (a URL or
/// the scp-like `user@host:path`); the host is its `host` field and the path,
/// stored as bytes, is written out as text. The result depends on the
/// text alone.
#[verifier::external_body]
fn parse_remote(location: &str) -> (r: Option<(Option<String>, String)>)
    ensures
        match r {
            Some((host, path)) => parsed_remote(location@) == Some((opt_view(host), path@)),
            None => parsed_remote(location@) is None,
        },
{
    let url = gix::Url::try_from(location).ok()?;
    Some((url.host.clone(), url.path.to_string()))
}

/// Why a remote location names no repository that the library can watch.
#[derive(Debug, Clone, Copy, PartialEq, Eq, Structural)]
pub enum RemoteUrlError {
    /// gix does not read it as a location.
    Unparsable,
    /// It names no host.
    NoHost,
    /// Its path has no `<org>/<repository>.git` form.
    NoRepository,
}

/// The parts of a remote's location that the rest of the library reads: its
/// host and its repository path (`<org>/<repository>.git`).
#[derive(Debug)]
pub struct RemoteUrl {
    host: String,
    path: String,
}

impl RemoteUrl {
    #[verifier::type_invariant]
    spec fn names_a_repository(self) -> bool {
        names_repository(self.path@)
    }

    pub closed spec fn host(self) -> Seq<char> {
        self.host@
    }

    pub closed spec fn path(self) -> Seq<char> {
        self.path@
    }

    /// The location with this host and path; `None` when the path has no
    /// repository segment of at least four characters.
    pub fn new(host: String, path: String) -> (r: Option<Self>)
        ensures
            r is Some <==> names_repository(path@),
            r matches Some(u) ==> u.host() == host@ && u.path() == path@,
    {
        let first_end = find_segment_end(path.as_str(), 0);
        proof {
            lemma_segment_end_bounds(path@, 0);
        }
        if first_end >= path.unicode_len() {
            return None;
        }
        proof {
            lemma_segment_end_bounds(path@, first_end + 1);
        }
        let second_end = find_segment_end(path.as_str(), first_end + 1);
        if second_end - (first_end + 1) < 4 {
            return None;
        }
        Some(RemoteUrl { host, path })
    }

    /// Reads a remote location, such as `git@github.com:org/repo.git`.
    pub fn parse(location: &str) -> (r: Result<Self, RemoteUrlError>)
        ensures
            match parsed_remote(location@) {
                None => r == Err::<Self, RemoteUrlError>(RemoteUrlError::Unparsable),
                Some((None, _)) => r == Err::<Self, RemoteUrlError>(RemoteUrlError::NoHost),
                Some((Some(host), path)) => if names_repository(path) {
                    r matches Ok(u) && u.host() == host && u.path() == path
                } else {
                    r == Err::<Self, RemoteUrlError>(RemoteUrlError::NoRepository)
                },
            },
    {
        match parse_remote(location) {
            None => Err(RemoteUrlError::Unparsable),
            Some((None, _)) => Err(RemoteUrlError::NoHost),
            Some((Some(host), path)) => match RemoteUrl::new(host, path) {
                Some(u) => Ok(u),
                None => Err(RemoteUrlError::NoRepository),
            },
        }
    }

    pub fn get_host(&self) -> (r: &str)
        ensures
            r@ == self.host(),
    {
        self.host.as_str()
    }
}

/// The organisation and repository that a remote names.
pub trait RepositoryTrait {
    fn get_repository_name(&self) -> String;

    fn get_org_name(&self) -> String;
}

impl RepositoryTrait for RemoteUrl {
    fn get_repository_name(&self) -> (r: String)
        ensures
            r@ == repository_name_of(self.path()),
    {
        proof {
            use_type_invariant(self);
        }
        let p = self.path.as_str();
        let n = p.unicode_len();
        let first_end = find_segment_end(p, 0);
        proof {
            lemma_segment_end_bounds(p@, 0);
            lemma_segment_end_bounds(p@, first_end + 1);
        }
        // A repository path has a second segment, so the first ends before it.
        assert(first_end < n);
        let second_end = find_segment_end(p, first_end + 1);
        let segment = p.substring_char(first_end + 1, second_end);
        let name = segment.substring_char(0, second_end - (first_end + 1) - 4);
        name.to_owned()
    }

    fn get_org_name(&self) -> (r: String)
        ensures
            r@ == org_name_of(self.path()),
    {
        let p = self.path.as_str();
        let first_end = find_segment_end(p, 0);
        proof {
            lemma_segment_end_bounds(p@, 0);
        }
        p.substring_char(0, first_end).to_owned()
    }
}

/// The public host; any other host is an enterprise installation.
pub open spec fn is_public_host(host: Seq<char>) -> bool {
    host == "github.com"@
}

pub open spec fn rest_base_url(host: Seq<char>) -> Seq<char> {
    if is_public_host(host) {
        "https://api."@ + host
    } else {
        "https://"@ + host + "/api/v3"@
    }
}

pub open spec fn graphql_url(host: Seq<char>) -> Seq<char> {
    if is_public_host(host) {
        "https://api."@ + host + "/graphql"@
    } else {
        "https://"@ + host + "/api/graphql"@
    }
}

pub open spec fn bearer(token: Seq<char>) -> Seq<char> {
    "Bearer "@ + token
}

/// The repository being watched: how to reach it and the branch to watch.
pub struct GitRepository {
    token: String,
    url: RemoteUrl,
    main_branch_name: String,
}

impl GitRepository {
    pub closed spec fn token(self) -> Seq<char> {
        self.token@
    }

    pub closed spec fn host(self) -> Seq<char> {
        self.url.host()
    }

    pub closed spec fn path(self) -> Seq<char> {
        self.url.path()
    }

    pub closed spec fn branch(self) -> Seq<char> {
        self.main_branch_name@
    }

    pub open spec fn org(self) -> Seq<char> {
        org_name_of(self.path())
    }

    pub open spec fn repo(self) -> Seq<char> {
        repository_name_of(self.path())
    }

    pub fn new(token: String, url: RemoteUrl, main_branch_name: String) -> (r: Self)
        ensures
            r.token() == token@,
            r.host() == url.host(),
            r.path() == url.path(),
            r.branch() == main_branch_name@,
    {
        Self { token, url, main_branch_name }
    }

    pub fn get_token(&self) -> (r: &str)
        ensures
            r@ == self.token(),
    {
        self.token.as_str()
    }

    pub fn get_bearer_token_string(&self) -> (r: String)
        ensures
            r@ == bearer(self.token()),
    {
        String::from_str("Bearer ").concat(self.token.as_str())
    }

    pub fn get_main_branch_name(&self) -> (r: &str)
        ensures
            r@ == self.branch(),
    {
        self.main_branch_name.as_str()
    }

    pub fn get_host(&self) -> (r: &str)
        ensures
            r@ == self.host(),
    {
        self.url.get_host()
    }

    pub fn get_org_name(&self) -> (r: String)
        ensures
            r@ == self.org(),
    {
        self.url.get_org_name()
    }

    pub fn get_repository_name(&self) -> (r: String)
        ensures
            r@ == self.repo(),
    {
        self.url.get_repository_name()
    }

    fn on_public_host(&self) -> (r: bool)
        ensures
            r == is_public_host(self.host()),
    {
        self.url.host == String::from_str("github.com")
    }

    /// The base of the REST API: `https://api.<host>` on the public host,
    /// `https://<host>/api/v3` on an enterprise one.
    pub fn get_base_rest_url(&self) -> (r: String)
        ensures
            r@ == rest_base_url(self.host()),
    {
        if self.on_public_host() {
            String::from_str("https://api.").concat(self.get_host())
        } else {
            String::from_str("https://").concat(self.get_host()).concat("/api/v3")
        }
    }

    /// The GraphQL endpoint: `https://api.<host>/graphql` on the public host,
    /// `https://<host>/api/graphql` on an enterprise one.
    pub fn get_graphql_url(&self) -> (r: String)
        ensures
            r@ == graphql_url(self.host()),
    {
        if self.on_public_host() {
            String::from_str("https://api.").concat(self.get_host()).concat("/graphql")
        } else {
            String::from_str("https://").concat(self.get_host()).concat("/api/graphql")
        }
    }
}

} // verus!
