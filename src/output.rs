//! What is written once a terminal outcome is reached, and where.

use vstd::prelude::*;
use crate::navigation::{NavigationOutcome, OutcomeView};

verus! {

/// Where the captured result goes.
#[derive(Debug)]
pub enum OutputTarget {
    Stdout,
    File(String),
}

pub ghost enum TargetView {
    Stdout,
    File(Seq<char>),
}

impl View for OutputTarget {
    type V = TargetView;

    open spec fn view(&self) -> TargetView {
        match self {
            OutputTarget::Stdout => TargetView::Stdout,
            OutputTarget::File(p) => TargetView::File(p@),
        }
    }
}

impl OutputTarget {
    pub fn duplicate(&self) -> (r: OutputTarget)
        ensures
            r@ == self@,
    {
        match self {
            OutputTarget::Stdout => OutputTarget::Stdout,
            OutputTarget::File(p) => OutputTarget::File(p.clone()),
        }
    }
}

/// The text to write and where to write it.
#[derive(Debug)]
pub struct Emission {
    pub target: OutputTarget,
    pub text: String,
}

pub open spec fn code_prefix() -> Seq<char> {
    seq!['L', 'C', 'A', 'P', ':', 'C', 'O', 'D', 'E', '=']
}

pub open spec fn error_prefix() -> Seq<char> {
    seq!['L', 'C', 'A', 'P', ':', 'E', 'R', 'R', '=']
}

/// The payload of an outcome: `LCAP:CODE=<value>` or `LCAP:ERR=<value>`;
/// `Continue` has none.
pub open spec fn payload_of(o: OutcomeView) -> Option<Seq<char>> {
    match o {
        OutcomeView::Continue => None,
        OutcomeView::Code(v) => Some(code_prefix() + v),
        OutcomeView::Error(v) => Some(error_prefix() + v),
    }
}

/// The text that stands for an outcome, the same for every target.
pub fn render_payload(outcome: &NavigationOutcome) -> (r: Option<String>)
    ensures
        r matches Some(t) ==> payload_of(outcome@) == Some(t@),
        r is None ==> payload_of(outcome@) is None,
{
    match outcome {
        NavigationOutcome::Continue => None,
        NavigationOutcome::Code(v) => {
            let mut t = "LCAP:CODE=".to_owned();
            proof {
                reveal_strlit("LCAP:CODE=");
            }
            t.append(v.as_str());
            Some(t)
        },
        NavigationOutcome::Error(v) => {
            let mut t = "LCAP:ERR=".to_owned();
            proof {
                reveal_strlit("LCAP:ERR=");
            }
            t.append(v.as_str());
            Some(t)
        },
    }
}

/// The text written for an outcome at a target, if the outcome has one.
pub open spec fn emitted_text(o: OutcomeView, target: TargetView) -> Option<Seq<char>> {
    payload_of(o)
}

/// What to write, and where, for an outcome: nothing for `Continue`.
pub fn plan_emission(outcome: &NavigationOutcome, target: &OutputTarget) -> (r: Option<Emission>)
    ensures
        r matches Some(e) ==> e.target@ == target@ && emitted_text(outcome@, target@) == Some(
            e.text@,
        ),
        r is None ==> emitted_text(outcome@, target@) is None,
        r is None <==> outcome is Continue,
{
    match render_payload(outcome) {
        None => None,
        Some(text) => Some(Emission { target: target.duplicate(), text }),
    }
}

/// A file receives exactly the text that standard output would, byte for
/// byte, for the same outcome.
pub proof fn lemma_file_matches_stdout(o: OutcomeView, path: Seq<char>)
    ensures
        emitted_text(o, TargetView::File(path)) == emitted_text(o, TargetView::Stdout),
{
}

} // verus!
