//! The input of a run: the text handed over on the command line with
//! `--input`, or an empty JSON object when none was given.

use vstd::prelude::*;

verus! {

/// The name of the command-line argument that carries the input.
pub const INPUT_ARGUMENT: &'static str = "input";

/// The input of a run that was started without one: an empty JSON object.
pub const DEFAULT_INPUT: &'static str = "{}";

/// `serde_json::Value`, the value that the argument parser hands over for
/// each argument. Nothing inside it is visible to the verifier.
#[verifier::external_type_specification]
#[verifier::external_body]
pub struct ExValue(serde_json::Value);

/// The text of a JSON value as `serde_json::Value::as_str` gives it: the
/// characters of a JSON string, and nothing for a value of any other kind
/// (null, a boolean, a number, an array, an object).
pub uninterp spec fn value_text(value: &serde_json::Value) -> Option<Seq<char>>;

/// `serde_json::Value::as_str` returns the string slice held by a string
/// value and `None` for every other value. The result is the value's text.
pub assume_specification<'a>[ serde_json::Value::as_str ](value: &'a serde_json::Value) -> (text:
    Option<&'a str>)
    ensures
        match text {
            Some(t) => value_text(value) == Some(t@),
            None => value_text(value) is None,
        },
;

/// The input of a run, given the text of its `--input` argument if it had
/// one: that text unchanged, or [`DEFAULT_INPUT`].
pub open spec fn resolved_input(text: Option<Seq<char>>) -> Seq<char> {
    match text {
        Some(t) => t,
        None => DEFAULT_INPUT@,
    }
}

/// The text of the `--input` argument as the parser reported it: absent
/// from the matches, or present with a value that may or may not be a string.
pub open spec fn argument_text(value: Option<&serde_json::Value>) -> Option<Seq<char>> {
    match value {
        Some(v) => value_text(v),
        None => None,
    }
}

/// Settles the input of a run from the text of its `--input` argument.
pub fn resolve_input(text: Option<&str>) -> (input: String)
    ensures
        input@ == resolved_input(
            match text {
                Some(t) => Some(t@),
                None => None,
            },
        ),
{
    match text {
        Some(t) => t.to_owned(),
        None => DEFAULT_INPUT.to_owned(),
    }
}

/// Settles the input of a run from what the argument parser matched for
/// `--input`. An argument that is missing, or whose value is not a string
/// (as for an option left out, which the parser reports as null), gives
/// [`DEFAULT_INPUT`]; a string value is taken as it is.
pub fn input_from_value(value: Option<&serde_json::Value>) -> (input: String)
    ensures
        input@ == resolved_input(argument_text(value)),
{
    match value {
        Some(v) => resolve_input(v.as_str()),
        None => resolve_input(None),
    }
}

/// The input of the run, captured once at startup and read-only afterwards.
#[derive(Debug)]
pub struct InputState {
    value: String,
}

impl View for InputState {
    type V = Seq<char>;

    closed spec fn view(&self) -> Seq<char> {
        self.value@
    }
}

impl InputState {
    /// Captures `value` as the input of the run.
    pub fn new(value: String) -> (state: Self)
        ensures
            state@ == value@,
    {
        InputState { value }
    }
}

/// Hands the captured input to the front end, unchanged.
pub fn get_input(state: &InputState) -> (input: String)
    ensures
        input@ == state@,
{
    state.value.clone()
}

/// A run started without `--input` has the empty JSON object as its input.
pub proof fn lemma_omitted_input_is_default()
    ensures
        resolved_input(None) == "{}"@,
        resolved_input(argument_text(None)) == "{}"@,
{
}

/// A run started with `--input S` has exactly `S` as its input.
pub proof fn lemma_supplied_input_is_kept(text: Seq<char>)
    ensures
        resolved_input(Some(text)) == text,
{
}

} // verus!
