//! Counts the top-level variable, function, class and export declarations
//! of an ECMAScript module.
pub mod counter;
pub mod laws;
pub mod program;
pub mod source;

pub use counter::{count_declarations, AnalysisResult};
pub use program::{Decl, Stmt};
pub use source::{analysis_source_code, AnalysisError};
