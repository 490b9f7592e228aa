//! From source text to report.

use crate::checked::checked_complexity;
use crate::engine::suite_complexities;
use crate::parser::{parse_statements, parsed_module, MAX_SOURCE_BYTES};
use crate::report::{Context, ItemComplexity, ItemView};
use crate::rules::{suite_cost, suite_entries};
use vstd::pervasive::unreached;
use vstd::prelude::*;

verus! {

/// Whether a source text can be analysed: it is no longer than the parser
/// takes, it parses, and the complexity of its module body fits a `usize`.
pub open spec fn analysable(source: &str) -> bool {
    &&& source.len() <= MAX_SOURCE_BYTES
    &&& parsed_module(source@) matches Some(tree) && suite_cost(tree) <= usize::MAX
}

/// The report for a source text that parses: the items of its module body,
/// walked in module context with an empty scope stack.
pub open spec fn module_report(source: Seq<char>) -> Seq<ItemView>
    recommends
        parsed_module(source).is_some(),
{
    suite_entries(parsed_module(source).unwrap(), Context::Module, Seq::<Seq<char>>::empty())
}

/// The items reported for a Python source text, in the order in which a
/// depth-first walk in source order reports them.
pub fn module_complexities(source: &str) -> (items: Vec<ItemComplexity>)
    requires
        analysable(source),
    ensures
        items.deep_view() == module_report(source@),
        forall|k: int| 0 <= k < items.len() ==> (#[trigger] items[k]).complexity >= 1,
{
    match parse_statements(source) {
        Some(suite) => suite_complexities(&suite),
        None => unreached(),
    }
}

/// The items reported for a Python source text, or `None` where the text
/// cannot be analysed.
pub fn try_module_complexities(source: &str) -> (report: Option<Vec<ItemComplexity>>)
    ensures
        report.is_some() == analysable(source),
        report matches Some(items) ==> items.deep_view() == module_report(source@),
        report matches Some(items) ==> forall|k: int|
            0 <= k < items.len() ==> (#[trigger] items[k]).complexity >= 1,
{
    if source.len() > MAX_SOURCE_BYTES {
        return None;
    }
    match parse_statements(source) {
        Some(suite) => match checked_complexity(&suite) {
            Some(_) => Some(module_complexities(source)),
            None => None,
        },
        None => None,
    }
}

/// Analysing a text again gives the same report: the report is a function of
/// the text alone.
pub proof fn lemma_report_repeatable(
    source: Seq<char>,
    first: Seq<ItemView>,
    second: Seq<ItemView>,
)
    requires
        first == module_report(source),
        second == module_report(source),
    ensures
        first == second,
{
}

} // verus!
