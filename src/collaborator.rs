use vstd::prelude::*;
use crate::user_input_generator::MultiSelectGeneratorTrait;
use crate::text_order::{
    chars_lt, lemma_chars_lt_irreflexive, lemma_chars_lt_total, lemma_chars_lt_transitive,
    str_less,
};

verus! {

/// An account with access to the repository. `node_id` is the identity by which
/// commits are matched; `login` is the name shown to the operator.
#[derive(Debug, PartialEq, Eq, PartialOrd, Ord)]
pub struct Collaborator {
    login: String,
    node_id: String,
}

impl Collaborator {
    pub closed spec fn id(self) -> Seq<char> {
        self.node_id@
    }

    pub closed spec fn login(self) -> Seq<char> {
        self.login@
    }

    pub fn new(node_id: String, login: String) -> (r: Self)
        ensures
            r.id() == node_id@,
            r.login() == login@,
    {
        Self { node_id, login }
    }

    pub fn get_id(&self) -> (r: &str)
        ensures
            r@ == self.id(),
    {
        self.node_id.as_str()
    }

    /// Whether this collaborator's identity is `id`.
    pub fn has_id(&self, id: &String) -> (r: bool)
        ensures
            r == (self.id() == id@),
    {
        self.node_id == *id
    }

    /// The text that represents this collaborator to the operator: its login.
    pub fn get_login(&self) -> (r: &str)
        ensures
            r@ == self.login(),
    {
        self.login.as_str()
    }
}

impl Clone for Collaborator {
    fn clone(&self) -> (r: Self)
        ensures
            r == *self,
    {
        Collaborator { login: self.login.clone(), node_id: self.node_id.clone() }
    }
}

/// The total order on collaborators: by login, then by identity.
pub open spec fn collaborator_lt(a: Collaborator, b: Collaborator) -> bool {
    chars_lt(a.login(), b.login()) || (a.login() == b.login() && chars_lt(a.id(), b.id()))
}

pub open spec fn collaborator_le(a: Collaborator, b: Collaborator) -> bool {
    !collaborator_lt(b, a)
}

pub open spec fn is_sorted(s: Seq<Collaborator>) -> bool {
    forall|i: int, j: int| 0 <= i < j < s.len() ==> #[trigger] collaborator_le(s[i], s[j])
}

pub proof fn lemma_collaborator_lt_transitive(a: Collaborator, b: Collaborator, c: Collaborator)
    requires
        collaborator_lt(a, b),
        collaborator_lt(b, c),
    ensures
        collaborator_lt(a, c),
{
    if chars_lt(a.login(), b.login()) && chars_lt(b.login(), c.login()) {
        lemma_chars_lt_transitive(a.login(), b.login(), c.login());
    } else if chars_lt(a.login(), b.login()) || chars_lt(b.login(), c.login()) {
    } else {
        lemma_chars_lt_transitive(a.id(), b.id(), c.id());
    }
}

pub proof fn lemma_collaborator_lt_irreflexive(a: Collaborator)
    ensures
        !collaborator_lt(a, a),
{
    lemma_chars_lt_irreflexive(a.login());
    lemma_chars_lt_irreflexive(a.id());
}

/// The order on collaborators is a strict total order: none comes before
/// itself, it is transitive, and of two collaborators that differ in login or
/// identity, one comes before the other.
pub proof fn lemma_collaborator_order_is_total(a: Collaborator, b: Collaborator, c: Collaborator)
    ensures
        !collaborator_lt(a, a),
        collaborator_lt(a, b) && collaborator_lt(b, c) ==> collaborator_lt(a, c),
        same_as(a, b) || collaborator_lt(a, b) || collaborator_lt(b, a),
{
    lemma_collaborator_lt_irreflexive(a);
    if collaborator_lt(a, b) && collaborator_lt(b, c) {
        lemma_collaborator_lt_transitive(a, b, c);
    }
    lemma_chars_lt_total(a.login(), b.login());
    lemma_chars_lt_total(a.id(), b.id());
}

/// Whether `a` comes strictly before `b` in the order of collaborators.
pub fn collaborator_less(a: &Collaborator, b: &Collaborator) -> (r: bool)
    ensures
        r == collaborator_lt(*a, *b),
{
    if str_less(a.login.as_str(), b.login.as_str()) {
        true
    } else if a.login == b.login {
        str_less(a.node_id.as_str(), b.node_id.as_str())
    } else {
        false
    }
}

/// Puts the collaborators in ascending order, whatever order they came in.
pub fn sort_collaborators(collaborators: Vec<Collaborator>) -> (r: Vec<Collaborator>)
    ensures
        r@.to_multiset() == collaborators@.to_multiset(),
        is_sorted(r@),
{
    broadcast use vstd::seq_lib::group_to_multiset_ensures, vstd::multiset::group_multiset_axioms;

    let mut rest = collaborators;
    let mut sorted: Vec<Collaborator> = Vec::new();
    while rest.len() > 0
        invariant
            sorted@.to_multiset().add(rest@.to_multiset()) == collaborators@.to_multiset(),
            is_sorted(sorted@),
        decreases rest.len(),
    {
        let ghost before = rest@;
        let x = rest.pop().unwrap();
        assert(before =~= rest@.push(x));
        let mut p: usize = 0;
        while p < sorted.len() && !collaborator_less(&x, &sorted[p])
            invariant
                p <= sorted.len(),
                forall|k: int| 0 <= k < p ==> #[trigger] collaborator_le(sorted@[k], x),
            decreases sorted.len() - p,
        {
            p = p + 1;
        }
        let ghost old_sorted = sorted@;
        sorted.insert(p, x);
        proof {
            assert(sorted@ == old_sorted.insert(p as int, x));
            assert forall|i: int, j: int| 0 <= i < j < sorted@.len() implies #[trigger] collaborator_le(
                sorted@[i],
                sorted@[j],
            ) by {
                if i == p && j > p {
                    let y = old_sorted[j - 1];
                    if j - 1 == p {
                        lemma_collaborator_lt_irreflexive(y);
                    } else {
                        assert(collaborator_le(old_sorted[p as int], old_sorted[j - 1]));
                    }
                    if collaborator_lt(y, x) {
                        lemma_collaborator_lt_transitive(y, x, old_sorted[p as int]);
                    }
                }
            }
            vstd::seq_lib::to_multiset_insert(old_sorted, p as int, x);
            vstd::seq_lib::to_multiset_build(rest@, x);
            assert(sorted@.to_multiset().add(rest@.to_multiset()) =~= collaborators@.to_multiset());
        }
    }
    assert(rest@ =~= Seq::<Collaborator>::empty());
    assert(sorted@.to_multiset() =~= collaborators@.to_multiset());
    sorted
}

/// Why no selection came back from the operator.
#[derive(Debug, Clone, Copy, PartialEq, Eq, Structural)]
pub enum SelectionError {
    /// The operator cancelled the prompt.
    Cancelled,
    /// The answer holds a collaborator that was not offered.
    UnknownOption,
}

/// Two collaborators with the same identity and login.
pub open spec fn same_as(a: Collaborator, b: Collaborator) -> bool {
    a.id() == b.id() && a.login() == b.login()
}

/// Whether `c` is one of `offered`.
pub open spec fn is_offered(c: Collaborator, offered: Seq<Collaborator>) -> bool {
    exists|k: int| 0 <= k < offered.len() && same_as(#[trigger] offered[k], c)
}

pub open spec fn all_offered(chosen: Seq<Collaborator>, offered: Seq<Collaborator>) -> bool {
    forall|i: int| 0 <= i < chosen.len() ==> is_offered(#[trigger] chosen[i], offered)
}

fn same_collaborator(a: &Collaborator, b: &Collaborator) -> (r: bool)
    ensures
        r == same_as(*a, *b),
{
    a.login == b.login && a.node_id == b.node_id
}

/// Judges the operator's answer to the selection prompt: the collaborators
/// picked, when the prompt was answered and every one of them was offered.
pub fn check_selection(offered: &Vec<Collaborator>, answer: Option<Vec<Collaborator>>) -> (r: Result<
    Vec<Collaborator>,
    SelectionError,
>)
    ensures
        match answer {
            None => r == Err::<Vec<Collaborator>, SelectionError>(SelectionError::Cancelled),
            Some(chosen) => if all_offered(chosen@, offered@) {
                r matches Ok(v) && v@ == chosen@
            } else {
                r == Err::<Vec<Collaborator>, SelectionError>(SelectionError::UnknownOption)
            },
        },
{
    match answer {
        None => Err(SelectionError::Cancelled),
        Some(chosen) => {
            let mut i: usize = 0;
            while i < chosen.len()
                invariant
                    answer == Some(chosen),
                    i <= chosen@.len(),
                    forall|j: int| 0 <= j < i ==> is_offered(#[trigger] chosen@[j], offered@),
                decreases chosen.len() - i,
            {
                let mut k: usize = 0;
                let mut found = false;
                while k < offered.len() && !found
                    invariant
                        answer == Some(chosen),
                        i < chosen@.len(),
                        k <= offered@.len(),
                        found ==> is_offered(chosen@[i as int], offered@),
                        !found ==> forall|m: int|
                            0 <= m < k ==> !same_as(#[trigger] offered@[m], chosen@[i as int]),
                    decreases offered.len() - k,
                {
                    if same_collaborator(&offered[k], &chosen[i]) {
                        found = true;
                    }
                    k = k + 1;
                }
                if !found {
                    assert(!is_offered(chosen@[i as int], offered@));
                    assert(!all_offered(chosen@, offered@));
                    return Err(SelectionError::UnknownOption);
                }
                i = i + 1;
            }
            Ok(chosen)
        },
    }
}

/// Copies of the collaborators, in order.
fn copy_all(collaborators: &Vec<Collaborator>) -> (r: Vec<Collaborator>)
    ensures
        r@ == collaborators@,
{
    let mut r: Vec<Collaborator> = Vec::new();
    let mut i: usize = 0;
    while i < collaborators.len()
        invariant
            i <= collaborators@.len(),
            r@ == collaborators@.subrange(0, i as int),
        decreases collaborators.len() - i,
    {
        r.push(collaborators[i].clone());
        assert(r@ =~= collaborators@.subrange(0, i + 1));
        i = i + 1;
    }
    assert(r@ =~= collaborators@);
    r
}

/// Asks the operator which collaborators they are working with, offering
/// `collaborators`. The answer is judged by `check_selection`.
pub fn ask_who_they_are_working_with<G: MultiSelectGeneratorTrait<Collaborator>>(
    user_input_generator: &mut G,
    collaborators: Vec<Collaborator>,
) -> (r: Result<Vec<Collaborator>, SelectionError>)
    ensures
        r matches Ok(chosen) ==> all_offered(chosen@, collaborators@),
{
    let offered = copy_all(&collaborators);
    let answer = user_input_generator.get_multiselect_input(
        "Select your fellow collaborators",
        collaborators,
    );
    check_selection(&offered, answer)
}

} // verus!
