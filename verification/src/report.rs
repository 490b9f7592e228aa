//! What the analysis reports: one item per function definition that is not
//! nested directly in another function.

use vstd::prelude::*;

verus! {

/// Where a sequence of statements textually lives.
#[derive(Clone, Copy, PartialEq, Eq, Structural, Debug)]
pub enum Context {
    Module,
    Class,
    Function,
}

/// One reported function: the names of the classes entered before it was
/// reported, its own name, and its complexity.
#[derive(Debug)]
pub struct ItemComplexity {
    pub scope: Vec<String>,
    pub name: String,
    pub complexity: usize,
}

/// The mathematical value of an [`ItemComplexity`].
pub ghost struct ItemView {
    pub scope: Seq<Seq<char>>,
    pub name: Seq<char>,
    pub complexity: nat,
}

impl View for ItemComplexity {
    type V = ItemView;

    open spec fn view(&self) -> ItemView {
        ItemView {
            scope: self.scope.deep_view(),
            name: self.name@,
            complexity: self.complexity as nat,
        }
    }
}

impl DeepView for ItemComplexity {
    type V = ItemView;

    open spec fn deep_view(&self) -> ItemView {
        self@
    }
}

} // verus!
