use gitty::collaborator::{
    ask_who_they_are_working_with, check_selection, sort_collaborators, Collaborator,
    SelectionError,
};
use gitty::user_input_generator::MultiSelectGeneratorTrait;

struct MockMultiSelectGenerator<T> {
    multiselect_inputs: Vec<Vec<T>>,
}

impl<T> MockMultiSelectGenerator<T> {
    fn new(mut multiselect_inputs: Vec<Vec<T>>) -> Self {
        multiselect_inputs.reverse();
        Self { multiselect_inputs }
    }
}

impl<T> MultiSelectGeneratorTrait<T> for MockMultiSelectGenerator<T> {
    fn get_multiselect_input(&mut self, _: &str, _options: Vec<T>) -> Option<Vec<T>> {
        self.multiselect_inputs.pop()
    }
}

fn collaborator(id: &str, login: &str) -> Collaborator {
    Collaborator::new(id.to_string(), login.to_string())
}

#[test]
fn user_can_select_who_they_are_pairing_with() {
    let mut user_input_generator =
        MockMultiSelectGenerator::new(vec![vec![Collaborator::new("id 1".to_string(), "User 1".to_string())]]);
    let collaborators = vec![
        Collaborator::new("id 1".to_string(), "User 1".to_string()),
        Collaborator::new("id 2".to_string(), "User 2".to_string()),
    ];

    assert_eq!(
        Ok(vec![Collaborator::new("id 1".to_string(), "User 1".to_string())]),
        ask_who_they_are_working_with(&mut user_input_generator, collaborators)
    );
}

#[test]
fn cancelled_selection_is_an_error() {
    let mut user_input_generator = MockMultiSelectGenerator::<Collaborator>::new(vec![]);
    let collaborators = vec![collaborator("id 1", "User 1")];
    assert_eq!(
        Err(SelectionError::Cancelled),
        ask_who_they_are_working_with(&mut user_input_generator, collaborators)
    );
}

#[test]
fn selection_of_an_unknown_collaborator_is_an_error() {
    let mut user_input_generator =
        MockMultiSelectGenerator::new(vec![vec![collaborator("id 3", "User 3")]]);
    let collaborators = vec![collaborator("id 1", "User 1"), collaborator("id 2", "User 2")];
    assert_eq!(
        Err(SelectionError::UnknownOption),
        ask_who_they_are_working_with(&mut user_input_generator, collaborators)
    );
}

#[test]
fn selection_must_match_login_and_id() {
    let offered = vec![collaborator("id 1", "User 1")];
    assert_eq!(
        Err(SelectionError::UnknownOption),
        check_selection(&offered, Some(vec![collaborator("id 1", "Someone else")]))
    );
    assert_eq!(Ok(vec![]), check_selection(&offered, Some(vec![])));
}

#[test]
fn collaborator_exposes_id_and_login() {
    let c = collaborator("MDQ6VXNlcjMxMzkxNTc5", "bfrazho");
    assert_eq!("MDQ6VXNlcjMxMzkxNTc5", c.get_id());
    assert_eq!("bfrazho", c.get_login());
}

#[test]
fn collaborators_are_sorted_by_login_then_id() {
    let input = vec![
        collaborator("z", "carol"),
        collaborator("b", "alice"),
        collaborator("a", "bob"),
        collaborator("a", "alice"),
        collaborator("c", "Zed"),
    ];
    let expected = vec![
        collaborator("c", "Zed"),
        collaborator("a", "alice"),
        collaborator("b", "alice"),
        collaborator("a", "bob"),
        collaborator("z", "carol"),
    ];
    assert_eq!(expected, sort_collaborators(input));
}

#[test]
fn sorting_does_not_depend_on_input_order() {
    let a = vec![collaborator("2", "b"), collaborator("1", "a"), collaborator("3", "ab")];
    let b = vec![collaborator("3", "ab"), collaborator("2", "b"), collaborator("1", "a")];
    let sorted_a = sort_collaborators(a);
    assert_eq!(sorted_a, sort_collaborators(b));
    assert_eq!(vec![collaborator("1", "a"), collaborator("3", "ab"), collaborator("2", "b")], sorted_a);
}

#[test]
fn sorting_matches_the_derived_order() {
    let input = vec![
        collaborator("é", "é"),
        collaborator("x", "e"),
        collaborator("y", ""),
        collaborator("x", "ee"),
        collaborator("w", "e"),
    ];
    let mut expected = input.clone();
    expected.sort();
    assert_eq!(expected, sort_collaborators(input));
}

#[test]
fn sorting_empty_list() {
    assert_eq!(Vec::<Collaborator>::new(), sort_collaborators(vec![]));
}
