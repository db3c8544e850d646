//! Arguments given inline, as `key=value` entries.

use vstd::prelude::*;
use crate::args::{inline_result, texts, ArgumentParser, ArgumentSet};
use crate::error::{result_view, Error};

verus! {

/// Resolves the inline entries of a tool call.
///
/// Each entry has to be of the form `key=value`; the value is assigned to
/// the parameter `key` as a string. Of two entries with one key the later
/// wins. The first entry of another form fails the call with a format
/// error, and whatever was resolved before it is discarded.
pub fn parse_command_line_arguments(args: Vec<String>) -> (r: Result<ArgumentSet, Error>)
    ensures
        result_view(r) == inline_result(texts(args@)),
{
    ArgumentParser::parse_key_value_args(args)
}

} // verus!
