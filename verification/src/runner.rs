//! One pass: take the input, process it once, and write the summary.

use vstd::prelude::*;
use crate::error::GrantProgramError;
use crate::json::{json_text, json_to_string};
use crate::processor::{stats_json, GrantProgramProcessor};

verus! {

/// The text to process: what was read, or nothing where no input was
/// given.
pub fn input_text(input: Option<String>) -> (text: String)
    ensures
        text@ == match input {
            Some(read) => read@,
            None => Seq::<char>::empty(),
        },
{
    match input {
        Some(read) => read,
        None => String::new(),
    }
}

/// The outcome of a pass, given what the serialiser made of the summary:
/// its text is the output, its failure is the failure of the pass.
pub fn output_text(serialized: Result<String, serde_json::Error>) -> (output: Result<String, GrantProgramError>)
    ensures
        match serialized {
            Ok(text) => output == Ok::<String, GrantProgramError>(text),
            Err(cause) => output == Err::<String, GrantProgramError>(GrantProgramError::Json(cause)),
        },
{
    match serialized {
        Ok(text) => Ok(text),
        Err(cause) => Err(GrantProgramError::Json(cause)),
    }
}

/// Runs one pass over `input`, the text that was read (`None` where the
/// caller was given no input, which is processed as the empty text), and
/// returns the text to put out.
///
/// A new processor processes the input once, so the output is the JSON
/// text of the summary of a processor that has processed one item,
/// whatever the input was. The pass fails exactly where the serialiser
/// fails on that summary.
pub fn run(verbose: bool, input: Option<String>) -> (output: Result<String, GrantProgramError>)
    ensures
        match output {
            Ok(text) => json_text(stats_json(1, verbose)) == Some(text@),
            Err(failure) => failure is Json && json_text(stats_json(1, verbose)) is None,
        },
{
    let mut processor = GrantProgramProcessor::new(verbose);
    let input_data = input_text(input);
    match processor.process(input_data.as_str()) {
        Ok(_) => {},
        Err(failure) => {
            return Err(failure);
        },
    }
    output_text(json_to_string(&processor.get_stats()))
}

} // verus!
