//! Arguments asked from the operator, one declared parameter at a time.
//!
//! The caller shows the text of [`Prompter::prompt`], reads one line, and
//! hands it to [`Prompter::answer`], until the prompter is done. A failure
//! of the terminal ends the acquisition on the caller's side; whatever was
//! collected is then dropped with the prompter.

use vstd::prelude::*;
use vstd::string::*;
use crate::args::{texts, ArgValue, ArgValueView, ArgumentSet};
use crate::connect::{Rendering, RenderingView};
use crate::protocol::{Parameter, ToolSchema};
use crate::text::{char_count, trim, trimmed};

verus! {

/// What became of one answer.
#[derive(Clone, Copy, Debug, PartialEq, Eq, Structural)]
pub enum Answer {
    /// The answer was stored under the parameter's name.
    Stored,
    /// The answer was blank and the parameter is optional: nothing was
    /// stored, and the next parameter is up.
    Omitted,
    /// The answer was blank and the parameter is required: the same
    /// parameter is asked again.
    Refused,
    /// No parameter was waiting for an answer.
    Unasked,
}

/// Mathematical content of a [`Prompter`].
pub struct PrompterView {
    /// The parameters to ask for, in the order of their declaration.
    pub parameters: Seq<Parameter>,
    /// How many of them are settled.
    pub next: nat,
    /// What has been stored so far.
    pub collected: Map<Seq<char>, ArgValueView>,
}

/// Whether every parameter is settled.
pub open spec fn is_done(p: PrompterView) -> bool {
    p.next >= p.parameters.len()
}

/// The text that asks for `parameter`: its name, then its description in
/// parentheses if it has one, then a colon.
pub open spec fn prompt_text(parameter: Parameter) -> Seq<char> {
    match parameter.description {
        Some(d) => parameter.name@ + " ("@ + d@ + "): "@,
        None => parameter.name@ + ": "@,
    }
}

/// What becomes of the answer `input` in state `p`.
pub open spec fn verdict(p: PrompterView, input: Seq<char>) -> Answer {
    if is_done(p) {
        Answer::Unasked
    } else if trimmed(input).len() > 0 {
        Answer::Stored
    } else if p.parameters[p.next as int].required {
        Answer::Refused
    } else {
        Answer::Omitted
    }
}

/// The state that follows the answer `input` in state `p`. A stored answer
/// is stored trimmed.
pub open spec fn answered(p: PrompterView, input: Seq<char>) -> PrompterView {
    match verdict(p, input) {
        Answer::Stored => PrompterView {
            parameters: p.parameters,
            next: p.next + 1,
            collected: p.collected.insert(
                p.parameters[p.next as int].name@,
                ArgValueView::Text(trimmed(input)),
            ),
        },
        Answer::Omitted => PrompterView {
            parameters: p.parameters,
            next: p.next + 1,
            collected: p.collected,
        },
        Answer::Refused => p,
        Answer::Unasked => p,
    }
}

/// The state of an acquisition for `parameters` with nothing asked yet.
pub open spec fn unasked(parameters: Seq<Parameter>) -> PrompterView {
    PrompterView { parameters, next: 0, collected: Map::empty() }
}

/// The state reached from `p` when `answers` are given in turn.
pub open spec fn after_answers(p: PrompterView, answers: Seq<Seq<char>>) -> PrompterView
    decreases answers.len(),
{
    if answers.len() == 0 {
        p
    } else {
        answered(after_answers(p, answers.drop_last()), answers.last())
    }
}

/// What is said when a required parameter is left blank.
pub open spec fn required_message(name: Seq<char>) -> Seq<char> {
    "Parameter '"@ + name + "' is required"@
}

/// The interactive acquisition of one tool call's arguments.
#[derive(Clone, Debug)]
pub struct Prompter {
    parameters: Vec<Parameter>,
    next: usize,
    collected: ArgumentSet,
}

impl View for Prompter {
    type V = PrompterView;

    closed spec fn view(&self) -> PrompterView {
        PrompterView {
            parameters: self.parameters@,
            next: self.next as nat,
            collected: self.collected@,
        }
    }
}

impl Prompter {
    /// An acquisition for the parameters that `tool` declares, with
    /// nothing asked yet.
    pub fn new(tool: ToolSchema) -> (p: Prompter)
        ensures
            p@ == unasked(tool.parameters@),
    {
        Prompter { parameters: tool.parameters, next: 0, collected: ArgumentSet::new() }
    }

    /// Whether every parameter is settled.
    pub fn is_done(&self) -> (r: bool)
        ensures
            r == is_done(self@),
    {
        self.next >= self.parameters.len()
    }

    /// The parameter that is up, if one is left.
    pub fn current(&self) -> (r: Option<&Parameter>)
        ensures
            match r {
                Some(p) => !is_done(self@) && *p == self@.parameters[self@.next as int],
                None => is_done(self@),
            },
    {
        if self.next < self.parameters.len() {
            Some(&self.parameters[self.next])
        } else {
            None
        }
    }

    /// The text to ask with, if a parameter is left.
    pub fn prompt(&self) -> (r: Option<String>)
        ensures
            match r {
                Some(text) => !is_done(self@) && text@ == prompt_text(
                    self@.parameters[self@.next as int],
                ),
                None => is_done(self@),
            },
    {
        match self.current() {
            None => None,
            Some(parameter) => {
                let mut text = parameter.name.clone();
                match &parameter.description {
                    Some(d) => {
                        text.append(" (");
                        text.append(d.as_str());
                        text.append("): ");
                    },
                    None => {
                        text.append(": ");
                    },
                }
                Some(text)
            },
        }
    }

    /// Takes the operator's answer for the parameter that is up.
    ///
    /// A blank answer is one that holds nothing but whitespace. A blank
    /// answer for an optional parameter stores nothing: the parameter is
    /// left out of the set, not stored as an empty string. A blank answer
    /// for a required parameter is refused and the parameter stays up.
    /// Any other answer is stored, trimmed, under the parameter's name.
    pub fn answer(&mut self, input: &str) -> (r: Answer)
        ensures
            r == verdict(old(self)@, input@),
            final(self)@ == answered(old(self)@, input@),
    {
        if self.next >= self.parameters.len() {
            return Answer::Unasked;
        }
        let text = trim(input);
        if char_count(text.as_str()) > 0 {
            let name = self.parameters[self.next].name.clone();
            self.collected.insert(name, ArgValue::Text(text));
            self.next = self.next + 1;
            Answer::Stored
        } else if self.parameters[self.next].required {
            Answer::Refused
        } else {
            self.next = self.next + 1;
            Answer::Omitted
        }
    }

    /// Takes a run of answers in turn, as [`Prompter::answer`] takes each.
    /// Answers that come once every parameter is settled are not stored.
    pub fn answer_all(&mut self, answers: &Vec<String>)
        ensures
            final(self)@ == after_answers(old(self)@, texts(answers@)),
    {
        let mut k: usize = 0;
        while k < answers.len()
            invariant
                0 <= k <= answers@.len(),
                self@ == after_answers(old(self)@, texts(answers@).take(k as int)),
            decreases answers.len() - k,
        {
            proof {
                assert(texts(answers@).take(k + 1).drop_last() == texts(answers@).take(k as int));
            }
            let _ = self.answer(answers[k].as_str());
            k = k + 1;
        }
        proof {
            assert(texts(answers@).take(k as int) == texts(answers@));
        }
    }

    /// What to render after a refused answer.
    pub fn required_notice(parameter: &Parameter) -> (r: Rendering)
        ensures
            r@ == RenderingView::Error(required_message(parameter.name@)),
    {
        let mut msg = "Parameter '".to_owned();
        msg.append(parameter.name.as_str());
        msg.append("' is required");
        Rendering::Error(msg)
    }

    /// Ends the acquisition. The set is handed out only when every
    /// parameter is settled; before that nothing is, so that no partly
    /// filled set leaves the prompter.
    pub fn finish(self) -> (r: Option<ArgumentSet>)
        ensures
            match r {
                Some(set) => is_done(self@) && set@ == self@.collected,
                None => !is_done(self@),
            },
    {
        if self.next >= self.parameters.len() {
            Some(self.collected)
        } else {
            None
        }
    }
}

} // verus!
