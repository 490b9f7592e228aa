//! Reading Python source text into a statement tree.
//!
//! Parsing is done by `ruff_python_parser`, and nothing in this module is
//! proved. [`parse_statements`] calls the parser; the functions named
//! `lower_*` move what the rules read out of the parser's syntax nodes into
//! the nodes of [`crate::syntax`], and decide nothing.

use crate::syntax::{suite_view, Case, ElifElse, Handler, Statement, StatementView};
use vstd::prelude::*;

verus! {

/// A statement node of the parser, opaque here.
#[verifier::external_type_specification]
#[verifier::external_body]
pub struct ExStmt(ruff_python_ast::Stmt);

/// An `elif` or `else` node of the parser, opaque here.
#[verifier::external_type_specification]
#[verifier::external_body]
pub struct ExElifElseClause(ruff_python_ast::ElifElseClause);

/// A `case` node of the parser, opaque here.
#[verifier::external_type_specification]
#[verifier::external_body]
pub struct ExMatchCase(ruff_python_ast::MatchCase);

/// An `except` node of the parser, opaque here.
#[verifier::external_type_specification]
#[verifier::external_body]
pub struct ExExceptHandler(ruff_python_ast::ExceptHandler);

/// The body of the module that `ruff_python_parser::parse_module` yields for
/// a source text, lowered to a statement tree, or `None` where the parser
/// returns an error.
pub uninterp spec fn parsed_module(source: Seq<char>) -> Option<Seq<StatementView>>;

/// The longest source text, in bytes, that the parser takes.
pub const MAX_SOURCE_BYTES: usize = 0xFFFF_FFFF;

/// Calls `ruff_python_parser::parse_module` and lowers the module body.
///
/// Trusted: the outcome is a function of the source text alone, and it is
/// `None` exactly when the parser returns an error. The parser panics on a
/// text of more than [`MAX_SOURCE_BYTES`] bytes, which `requires` leaves out;
/// nesting beyond its recursion limit it reports as an error.
#[verifier::external_body]
pub(crate) fn parse_statements(source: &str) -> (parsed: Option<Vec<Statement>>)
    requires
        source.len() <= MAX_SOURCE_BYTES,
    ensures
        parsed_module(source@) == (match parsed {
            Some(suite) => Some(suite_view(suite@)),
            None => None,
        }),
{
    match ruff_python_parser::parse_module(source) {
        Ok(module) => Some(lower_suite(module.suite())),
        Err(_) => None,
    }
}

/// Lowers each statement of a parsed sequence, in order. Trusted, with
/// nothing claimed of the result.
#[verifier::external_body]
fn lower_suite(suite: &[ruff_python_ast::Stmt]) -> Vec<Statement> {
    suite.iter().map(lower_statement).collect()
}

/// Lowers a function or class definition, whose name is the text of the
/// parser's identifier; hands every other statement to [`lower_loop`].
/// Trusted, with nothing claimed of the result.
#[verifier::external_body]
fn lower_statement(statement: &ruff_python_ast::Stmt) -> Statement {
    match statement {
        ruff_python_ast::Stmt::FunctionDef(def) => Statement::FunctionDef {
            name: def.name.to_string(),
            body: lower_suite(&def.body),
        },
        ruff_python_ast::Stmt::ClassDef(def) => Statement::ClassDef {
            name: def.name.to_string(),
            body: lower_suite(&def.body),
        },
        other => lower_loop(other),
    }
}

/// Lowers `for`, `while` and `with`; hands every other statement to
/// [`lower_branch`]. Trusted, with nothing claimed of the result.
#[verifier::external_body]
fn lower_loop(statement: &ruff_python_ast::Stmt) -> Statement {
    match statement {
        ruff_python_ast::Stmt::For(node) => Statement::For {
            body: lower_suite(&node.body),
            orelse: lower_suite(&node.orelse),
        },
        ruff_python_ast::Stmt::While(node) => Statement::While {
            body: lower_suite(&node.body),
            orelse: lower_suite(&node.orelse),
        },
        ruff_python_ast::Stmt::With(node) => Statement::With { body: lower_suite(&node.body) },
        other => lower_branch(other),
    }
}

/// Lowers `if` and `match`; hands every other statement to [`lower_try`].
/// Trusted, with nothing claimed of the result.
#[verifier::external_body]
fn lower_branch(statement: &ruff_python_ast::Stmt) -> Statement {
    match statement {
        ruff_python_ast::Stmt::If(node) => Statement::If {
            body: lower_suite(&node.body),
            clauses: node.elif_else_clauses.iter().map(lower_clause).collect(),
        },
        ruff_python_ast::Stmt::Match(node) => Statement::Match {
            cases: node.cases.iter().map(lower_case).collect(),
        },
        other => lower_try(other),
    }
}

/// Lowers `try`; every statement kind left is [`Statement::Other`]. Trusted,
/// with nothing claimed of the result.
#[verifier::external_body]
fn lower_try(statement: &ruff_python_ast::Stmt) -> Statement {
    match statement {
        ruff_python_ast::Stmt::Try(node) => Statement::Try {
            body: lower_suite(&node.body),
            handlers: node.handlers.iter().map(lower_handler).collect(),
            orelse: lower_suite(&node.orelse),
            finalbody: lower_suite(&node.finalbody),
        },
        _ => Statement::Other,
    }
}

/// Lowers an `elif` or `else` clause; it has a test where the parser's node
/// holds one. Trusted, with nothing claimed of the result.
#[verifier::external_body]
fn lower_clause(clause: &ruff_python_ast::ElifElseClause) -> ElifElse {
    ElifElse { has_test: clause.test.is_some(), body: lower_suite(&clause.body) }
}

/// Lowers a `case` arm; it has a guard where the parser's node holds one,
/// and its pattern is irrefutable where
/// `ruff_python_ast::Pattern::is_irrefutable` says so. Trusted, with nothing
/// claimed of the result.
#[verifier::external_body]
fn lower_case(case: &ruff_python_ast::MatchCase) -> Case {
    Case {
        has_guard: case.guard.is_some(),
        irrefutable: case.pattern.is_irrefutable(),
        body: lower_suite(&case.body),
    }
}

/// Lowers an `except` clause. Trusted, with nothing claimed of the result.
#[verifier::external_body]
fn lower_handler(handler: &ruff_python_ast::ExceptHandler) -> Handler {
    match handler {
        ruff_python_ast::ExceptHandler::ExceptHandler(node) => Handler {
            body: lower_suite(&node.body),
        },
    }
}

} // verus!
