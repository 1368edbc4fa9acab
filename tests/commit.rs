use gitty::collaborator::Collaborator;
use gitty::commit::{filter_any_commits_that_do_not_match_collaborators, Author, Commit, User};

fn commit(oid: &str, author: Option<Option<&str>>) -> Commit {
    let author = match author {
        None => Author::new(None),
        Some(id) => Author::new(Some(User::new(id.map(|s| s.to_string())))),
    };
    Commit::new(oid.to_string(), format!("message of {}", oid), author)
}

fn collaborator(id: &str) -> Collaborator {
    Collaborator::new(id.to_string(), format!("login of {}", id))
}

#[test]
fn filter_keeps_commits_of_selected_authors_in_order() {
    let commits = vec![
        commit("c1", Some(Some("A"))),
        commit("c2", Some(Some("B"))),
        commit("c3", Some(Some("C"))),
        commit("c4", Some(Some("A"))),
    ];
    let kept = filter_any_commits_that_do_not_match_collaborators(
        commits,
        &vec![collaborator("A"), collaborator("C")],
    );
    let ids: Vec<&str> = kept.iter().map(|c| c.get_id()).collect();
    assert_eq!(vec!["c1", "c3", "c4"], ids);
}

#[test]
fn filter_drops_commits_without_author_identity() {
    let commits = vec![commit("c1", None), commit("c2", Some(None)), commit("c3", Some(Some("A")))];
    let kept =
        filter_any_commits_that_do_not_match_collaborators(commits, &vec![collaborator("A")]);
    assert_eq!(vec![commit("c3", Some(Some("A")))], kept);
}

#[test]
fn filter_with_no_collaborators_keeps_nothing() {
    let commits = vec![commit("c1", Some(Some("A")))];
    assert!(filter_any_commits_that_do_not_match_collaborators(commits, &vec![]).is_empty());
}

#[test]
fn commit_accessors() {
    let c = commit("00299481367f99df4d3e4a6aa638f1a228b3a26a", Some(Some("MDQ6VXNlcjMxMzkxNTc5")));
    assert_eq!("00299481367f99df4d3e4a6aa638f1a228b3a26a", c.get_id());
    assert_eq!(Some(&"MDQ6VXNlcjMxMzkxNTc5".to_string()), c.get_author_id());
    assert_eq!("message of 00299481367f99df4d3e4a6aa638f1a228b3a26a", c.get_message());
    assert_eq!(None, commit("x", Some(None)).get_author_id());
    assert_eq!(None, commit("x", None).get_author_id());
}
