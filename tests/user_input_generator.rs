use gitty::user_input_generator::{MultiSelectGeneratorTrait, TextInputGeneratorTrait};

struct MockTextInputGenerator {
    text_inputs: Vec<String>,
}

impl MockTextInputGenerator {
    fn new(mut text_inputs: Vec<String>) -> Self {
        text_inputs.reverse();
        Self { text_inputs }
    }
}

impl TextInputGeneratorTrait for MockTextInputGenerator {
    fn get_password_input(&mut self, _: &str) -> Option<String> {
        self.text_inputs.pop()
    }
    fn get_text_input(&mut self, _: &str) -> Option<String> {
        self.text_inputs.pop()
    }
}

struct MockMultiSelectGenerator<T> {
    multiselect_inputs: Vec<Vec<T>>,
}

impl<T> MockMultiSelectGenerator<T> {
    fn new(mut multiselect_inputs: Vec<Vec<T>>) -> Self {
        multiselect_inputs.reverse();
        Self { multiselect_inputs }
    }
}

impl<T: Eq + std::fmt::Debug> MultiSelectGeneratorTrait<T> for MockMultiSelectGenerator<T> {
    fn get_multiselect_input(&mut self, _: &str, options: Vec<T>) -> Option<Vec<T>> {
        match self.multiselect_inputs.pop() {
            Some(result) => {
                for each in result.iter() {
                    if !options.contains(each) {
                        panic!("Unknown option {:?} found for {:?}", each, options);
                    }
                }
                Some(result)
            }
            None => None,
        }
    }
}

#[test]
fn can_get_text_inputs() {
    let mut input_generator = MockTextInputGenerator::new(vec!["input 1".to_string()]);
    assert_eq!("input 1", input_generator.get_password_input("the prompt").unwrap())
}

#[test]
fn can_get_text_inputs_multiple() {
    let mut input_generator =
        MockTextInputGenerator::new(vec!["input 1".to_string(), "input 2".to_string()]);
    input_generator.get_password_input("prompt");
    assert_eq!("input 2", input_generator.get_password_input("the prompt").unwrap())
}

#[test]
fn can_return_none_when_no_text_inputs_exist() {
    let mut input_generator = MockTextInputGenerator::new(Vec::new());
    assert_eq!(None, input_generator.get_password_input("the prompt"))
}

#[test]
fn can_get_multi_select_inputs() {
    let mut input_generator =
        MockMultiSelectGenerator::new(vec![vec!["input 1".to_string(), "input 2".to_string()]]);
    let options = vec!["input 1".to_string(), "input 2".to_string(), "input 3".to_string()];
    assert_eq!(
        vec!["input 1".to_string(), "input 2".to_string()],
        input_generator.get_multiselect_input("the prompt", options).unwrap()
    );
}

#[test]
#[should_panic]
fn can_get_multi_select_inputs_panics_because_options_do_not_match_output() {
    let mut input_generator =
        MockMultiSelectGenerator::new(vec![vec!["input 1".to_string(), "bad output".to_string()]]);
    let options = vec!["input 1".to_string(), "input 2".to_string(), "input 3".to_string()];
    input_generator.get_multiselect_input("the prompt", options).unwrap();
}

#[test]
fn can_get_multi_select_inputs_multiple() {
    let mut input_generator = MockMultiSelectGenerator::new(vec![
        vec!["input 1".to_string(), "input 2".to_string()],
        vec!["input 3".to_string(), "input 4".to_string()],
    ]);
    let options = vec![
        "input 1".to_string(),
        "input 2".to_string(),
        "input 3".to_string(),
        "input 4".to_string(),
        "input 5".to_string(),
    ];

    input_generator.get_multiselect_input("the prompt", options.clone());
    assert_eq!(
        vec!["input 3".to_string(), "input 4".to_string()],
        input_generator.get_multiselect_input("the prompt", options).unwrap()
    );
}
