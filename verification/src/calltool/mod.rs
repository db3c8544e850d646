//! Resolution of a tool call's arguments from exactly one of three sources:
//! inline `key=value` entries, interactive prompting, or a JSON document.

use vstd::prelude::*;
use vstd::string::*;
use crate::args::texts;
use crate::error::{result_view, usage_failure, Error, ErrorView};

/// Inline `key=value` entries.
pub mod cmdline;
/// Interactive prompting, one parameter at a time.
pub mod interactive;
/// A JSON document.
pub mod json;

verus! {

/// The source that a tool call's arguments come from.
#[derive(Clone, Debug, PartialEq, Eq)]
pub enum ArgumentMode {
    /// The given `key=value` entries; there is at least one.
    Inline(Vec<String>),
    /// The operator is asked for each declared parameter.
    Interactive,
    /// One JSON document read from standard input.
    Json,
}

/// Mathematical content of an [`ArgumentMode`].
pub enum ArgumentModeView {
    Inline(Seq<Seq<char>>),
    Interactive,
    Json,
}

impl View for ArgumentMode {
    type V = ArgumentModeView;

    open spec fn view(&self) -> ArgumentModeView {
        match self {
            ArgumentMode::Inline(entries) => ArgumentModeView::Inline(texts(entries@)),
            ArgumentMode::Interactive => ArgumentModeView::Interactive,
            ArgumentMode::Json => ArgumentModeView::Json,
        }
    }
}

/// How many of the three sources a request selects.
pub open spec fn selected_modes(inline: bool, interactive: bool, json: bool) -> nat {
    (if inline {
        1nat
    } else {
        0nat
    }) + (if interactive {
        1nat
    } else {
        0nat
    }) + (if json {
        1nat
    } else {
        0nat
    })
}

/// What is said when no source is selected.
pub open spec fn no_mode_message() -> Seq<char> {
    "Must specify one of: --interactive, --json, or --arg key=value arguments"@
}

/// What is said when more than one source is selected.
pub open spec fn mixed_modes_message() -> Seq<char> {
    "Cannot combine --interactive, --json, and --arg modes"@
}

/// The source that a request selects. Inline entries count as selected
/// when there is at least one. With no source selected, or with more than
/// one, there is none, but a usage error.
pub open spec fn selection(entries: Seq<Seq<char>>, interactive: bool, json: bool) -> Result<
    ArgumentModeView,
    ErrorView,
> {
    let n = selected_modes(entries.len() > 0, interactive, json);
    if n == 0 {
        Err(usage_failure(no_mode_message()))
    } else if n > 1 {
        Err(usage_failure(mixed_modes_message()))
    } else if json {
        Ok(ArgumentModeView::Json)
    } else if interactive {
        Ok(ArgumentModeView::Interactive)
    } else {
        Ok(ArgumentModeView::Inline(entries))
    }
}

impl ArgumentMode {
    /// Chooses the source of a tool call's arguments.
    ///
    /// Exactly one source has to be selected; with none or with more than
    /// one the choice fails with a usage error. Nothing is read or asked
    /// here, so the failure comes before any I/O.
    pub fn select(args: Vec<String>, interactive: bool, json: bool) -> (r: Result<
        ArgumentMode,
        Error,
    >)
        ensures
            r is Ok <==> selected_modes(args@.len() > 0, interactive, json) == 1,
            result_view(r) == selection(texts(args@), interactive, json),
    {
        let inline = args.len() > 0;
        let mut count: u8 = 0;
        if inline {
            count = count + 1;
        }
        if interactive {
            count = count + 1;
        }
        if json {
            count = count + 1;
        }
        if count == 0 {
            return Err(
                Error::Other(
                    "Must specify one of: --interactive, --json, or --arg key=value arguments".to_owned(),
                ),
            );
        }
        if count > 1 {
            return Err(
                Error::Other("Cannot combine --interactive, --json, and --arg modes".to_owned()),
            );
        }
        if json {
            Ok(ArgumentMode::Json)
        } else if interactive {
            Ok(ArgumentMode::Interactive)
        } else {
            Ok(ArgumentMode::Inline(args))
        }
    }
}

} // verus!
