//! Cyclomatic-style complexity of the functions in Python source text.

pub mod analysis;
pub mod checked;
pub mod engine;
pub mod files;
pub mod laws;
pub mod parser;
pub mod render;
pub mod report;
pub mod rules;
pub mod syntax;

pub use crate::analysis::{module_complexities, try_module_complexities};
pub use crate::checked::checked_complexity;
pub use crate::engine::{get_complexity_number, suite_complexities};
pub use crate::files::is_python_file;
pub use crate::report::{Context, ItemComplexity};
pub use crate::syntax::{Case, ElifElse, Handler, Statement};
