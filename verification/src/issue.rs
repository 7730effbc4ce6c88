//! Advisory issues: non-fatal findings collected alongside a successful
//! result and surfaced to the caller for display only.

use vstd::prelude::*;

verus! {

/// One advisory issue.
#[derive(Debug, PartialEq)]
pub enum Issue {
    Hint(String),
}

impl View for Issue {
    type V = Seq<char>;

    open spec fn view(&self) -> Seq<char> {
        match self {
            Issue::Hint(s) => s@,
        }
    }
}

impl DeepView for Issue {
    type V = Seq<char>;

    open spec fn deep_view(&self) -> Seq<char> {
        self.view()
    }
}

/// A value together with the advisory issues found while producing it.
#[derive(Debug)]
pub struct WithIssues<T> {
    pub value: T,
    pub issues: Vec<Issue>,
}

} // verus!
