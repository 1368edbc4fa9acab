use vstd::prelude::*;

verus! {

/// Asks the operator for a line of text.
pub trait TextInputGeneratorTrait {
    /// A line typed without echo; `None` when the operator gave none.
    fn get_password_input(&mut self, prompt: &str) -> Option<String>;

    /// A line of text; `None` when the operator gave none.
    fn get_text_input(&mut self, prompt: &str) -> Option<String>;
}

/// Asks the operator to pick any number of the options.
pub trait MultiSelectGeneratorTrait<T> {
    /// The options picked; `None` when the operator cancelled.
    fn get_multiselect_input(&mut self, prompt: &str, options: Vec<T>) -> Option<Vec<T>>;
}

} // verus!
