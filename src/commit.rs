use vstd::prelude::*;
use crate::collaborator::Collaborator;

verus! {

/// The platform account behind a commit author; `id` is absent when the
/// account carries no identity.
#[derive(Debug, Clone, PartialEq, Eq)]
pub struct User {
    id: Option<String>,
}

/// A commit author; `user` is absent when the author's e-mail address is not
/// linked to a platform account.
#[derive(Debug, PartialEq, Eq)]
pub struct Author {
    user: Option<User>,
}

/// A commit as the history query returns it.
#[derive(Debug, PartialEq, Eq)]
pub struct Commit {
    oid: String,
    message: String,
    author: Author,
}

impl User {
    pub closed spec fn id(self) -> Option<Seq<char>> {
        match self.id {
            Some(s) => Some(s@),
            None => None,
        }
    }

    pub fn new(id: Option<String>) -> (r: Self)
        ensures
            r.id() == (match id {
                Some(s) => Some(s@),
                None => None::<Seq<char>>,
            }),
    {
        User { id }
    }
}

impl User {
    pub fn get_id(&self) -> (r: Option<&String>)
        ensures
            match r {
                Some(s) => self.id() == Some(s@),
                None => self.id() is None,
            },
    {
        self.id.as_ref()
    }
}

impl Author {
    pub closed spec fn user(self) -> Option<User> {
        self.user
    }

    pub fn new(user: Option<User>) -> (r: Self)
        ensures
            r.user() == user,
    {
        Author { user }
    }

    pub fn get_user(&self) -> (r: Option<&User>)
        ensures
            r == match self.user() {
                Some(u) => Some(&u),
                None => None::<&User>,
            },
    {
        self.user.as_ref()
    }
}

/// The identity of the author's platform account, when there is one.
pub open spec fn author_id_of(author: Author) -> Option<Seq<char>> {
    match author.user() {
        Some(u) => u.id(),
        None => None,
    }
}

impl Commit {
    pub closed spec fn oid(self) -> Seq<char> {
        self.oid@
    }

    pub closed spec fn message(self) -> Seq<char> {
        self.message@
    }

    pub closed spec fn author(self) -> Author {
        self.author
    }

    pub open spec fn author_id(self) -> Option<Seq<char>> {
        author_id_of(self.author())
    }

    pub fn new(oid: String, message: String, author: Author) -> (r: Self)
        ensures
            r.oid() == oid@,
            r.message() == message@,
            r.author() == author,
    {
        Commit { oid, message, author }
    }

    pub fn get_author_id(&self) -> (r: Option<&String>)
        ensures
            match r {
                Some(s) => self.author_id() == Some(s@),
                None => self.author_id() is None,
            },
    {
        match self.author.get_user() {
            Some(user) => user.id.as_ref(),
            None => None,
        }
    }

    pub fn get_id(&self) -> (r: &str)
        ensures
            r@ == self.oid(),
    {
        self.oid.as_str()
    }

    pub fn get_author(&self) -> (r: &Author)
        ensures
            *r == self.author(),
    {
        &self.author
    }

    pub fn get_message(&self) -> (r: &str)
        ensures
            r@ == self.message(),
    {
        self.message.as_str()
    }
}

/// Whether some collaborator of `collaborators` has identity `id`.
pub open spec fn is_selected_id(id: Seq<char>, collaborators: Seq<Collaborator>) -> bool {
    exists|k: int| 0 <= k < collaborators.len() && #[trigger] collaborators[k].id() == id
}

/// A commit matches when its author has a platform identity held by one of
/// the collaborators.
pub open spec fn authored_by_one_of(c: Commit, collaborators: Seq<Collaborator>) -> bool {
    match c.author_id() {
        Some(id) => is_selected_id(id, collaborators),
        None => false,
    }
}

/// The commits of `commits` that match, in the order given.
pub open spec fn matching_commits(commits: Seq<Commit>, collaborators: Seq<Collaborator>) -> Seq<
    Commit,
> {
    commits.filter(|c: Commit| authored_by_one_of(c, collaborators))
}

/// Whether some collaborator has the identity `id`.
pub fn is_selected(id: &String, collaborators: &Vec<Collaborator>) -> (r: bool)
    ensures
        r == is_selected_id(id@, collaborators@),
{
    let mut k: usize = 0;
    while k < collaborators.len()
        invariant
            k <= collaborators.len(),
            forall|j: int| 0 <= j < k ==> #[trigger] collaborators@[j].id() != id@,
        decreases collaborators.len() - k,
    {
        if collaborators[k].has_id(id) {
            return true;
        }
        k = k + 1;
    }
    false
}

/// Keeps, in order, the commits whose author identity belongs to one of the
/// collaborators; commits without an author identity are dropped.
pub fn filter_any_commits_that_do_not_match_collaborators(
    commits: Vec<Commit>,
    collaborators: &Vec<Collaborator>,
) -> (r: Vec<Commit>)
    ensures
        r@ == matching_commits(commits@, collaborators@),
{
    let ghost all = commits@;
    assert(all.len() == commits.len());
    let mut rest = commits;
    let mut kept: Vec<Commit> = Vec::new();
    let mut i: usize = 0;
    while rest.len() > 0
        invariant
            i + rest@.len() == all.len(),
            all.len() <= usize::MAX,
            rest@ == all.subrange(i as int, all.len() as int),
            kept@ == matching_commits(all.subrange(0, i as int), collaborators@),
        decreases rest.len(),
    {
        let c = rest.remove(0);
        let keep = match c.get_author_id() {
            Some(id) => {
                assert(c.author_id() == Some(id@));
                is_selected(id, collaborators)
            },
            None => false,
        };
        proof {
            reveal(Seq::filter);
            assert(keep == authored_by_one_of(c, collaborators@));
            assert(c == all[i as int]);
            assert(all.subrange(0, i + 1).drop_last() =~= all.subrange(0, i as int));
            assert(all.subrange(0, i + 1).last() == c);
            assert(rest@ =~= all.subrange(i + 1, all.len() as int));
        }
        if keep {
            kept.push(c);
        }
        proof {
            reveal(Seq::filter);
            let prefix = all.subrange(0, i + 1);
            assert(matching_commits(prefix, collaborators@) == if authored_by_one_of(
                prefix.last(),
                collaborators@,
            ) {
                matching_commits(prefix.drop_last(), collaborators@).push(prefix.last())
            } else {
                matching_commits(prefix.drop_last(), collaborators@)
            });
        }
        i = i + 1;
    }
    assert(all.subrange(0, i as int) =~= all);
    kept
}

/// Filtering is exact: every commit returned matches, every matching commit
/// is returned, and a commit without an author identity is never returned,
/// whatever the collaborators.
pub proof fn lemma_filter_is_exact(commits: Seq<Commit>, collaborators: Seq<Collaborator>)
    ensures
        forall|i: int|
            0 <= i < matching_commits(commits, collaborators).len() ==> {
                let c = #[trigger] matching_commits(commits, collaborators)[i];
                &&& commits.contains(c)
                &&& c.author_id() is Some
                &&& is_selected_id(c.author_id()->0, collaborators)
            },
        forall|i: int|
            0 <= i < commits.len() && authored_by_one_of(#[trigger] commits[i], collaborators)
                ==> matching_commits(commits, collaborators).contains(commits[i]),
        forall|i: int|
            0 <= i < commits.len() && #[trigger] commits[i].author_id() is None
                ==> !matching_commits(commits, collaborators).contains(commits[i]),
{
    let pred = |c: Commit| authored_by_one_of(c, collaborators);
    broadcast use vstd::seq_lib::group_filter_ensures;

    assert forall|i: int| 0 <= i < matching_commits(commits, collaborators).len() implies commits.contains(
        #[trigger] matching_commits(commits, collaborators)[i],
    ) by {
        lemma_filter_subset(commits, pred, i);
    }
    assert forall|i: int|
        0 <= i < commits.len() && #[trigger] commits[i].author_id() is None implies !matching_commits(
        commits,
        collaborators,
    ).contains(commits[i]) by {
        if matching_commits(commits, collaborators).contains(commits[i]) {
            let j = choose|j: int|
                0 <= j < matching_commits(commits, collaborators).len()
                    && matching_commits(commits, collaborators)[j] == commits[i];
            assert(pred(matching_commits(commits, collaborators)[j]));
        }
    }
}

/// Every element of a filtered sequence comes from the sequence.
proof fn lemma_filter_subset(s: Seq<Commit>, pred: spec_fn(Commit) -> bool, i: int)
    requires
        0 <= i < s.filter(pred).len(),
    ensures
        s.contains(s.filter(pred)[i]),
    decreases s.len(),
{
    reveal(Seq::filter);
    if s.len() > 0 {
        let rest = s.drop_last().filter(pred);
        if i < rest.len() {
            lemma_filter_subset(s.drop_last(), pred, i);
            let k = choose|k: int| 0 <= k < s.drop_last().len() && s.drop_last()[k] == rest[i];
            assert(s[k] == s.filter(pred)[i]);
        } else {
            assert(s[s.len() - 1] == s.filter(pred)[i]);
        }
    }
}

} // verus!
