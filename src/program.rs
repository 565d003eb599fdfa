//! The statement model that the counter reads: a closed tagged union with an
//! explicit catch-all, and the counts that each statement contributes.
use vstd::prelude::*;

verus! {

/// A declaration, bare at the top level or carried by a named export.
#[derive(Clone, Copy, Debug, PartialEq, Eq, Structural)]
pub enum Decl {
    /// `let a = 1, b = 2;`: one statement with `declarators` bindings.
    Variable { declarators: usize },
    Function,
    Class,
    /// Any other declaration kind (type aliases, interfaces, enums, ...).
    Other,
}

/// A top-level statement, as far as the counter distinguishes them.
#[derive(Clone, Copy, Debug, PartialEq, Eq, Structural)]
pub enum Stmt {
    Declaration(Decl),
    /// `export default ...`: its payload is never inspected.
    ExportDefault,
    /// `export * from "m"`: its payload is never inspected.
    ExportAll,
    /// `export { x }`, `export { x } from "m"` or `export const b = 2`: the
    /// optional inline declaration is unwrapped one level.
    ExportNamed { declaration: Option<Decl> },
    /// Every other statement kind.
    Other,
}

/// Variable bindings that a declaration introduces.
pub open spec fn decl_variables(d: Decl) -> int {
    match d {
        Decl::Variable { declarators } => declarators as int,
        _ => 0,
    }
}

pub open spec fn decl_functions(d: Decl) -> int {
    if d is Function { 1 } else { 0 }
}

pub open spec fn decl_classes(d: Decl) -> int {
    if d is Class { 1 } else { 0 }
}

/// The declaration that a statement exposes to the three declaration counters:
/// its own, or the inline declaration of a named export.
pub open spec fn exposed_declaration(s: Stmt) -> Option<Decl> {
    match s {
        Stmt::Declaration(d) => Some(d),
        Stmt::ExportNamed { declaration } => declaration,
        _ => None,
    }
}

pub open spec fn is_export(s: Stmt) -> bool {
    s is ExportDefault || s is ExportAll || s is ExportNamed
}

pub open spec fn stmt_variables(s: Stmt) -> int {
    match exposed_declaration(s) {
        Some(d) => decl_variables(d),
        None => 0,
    }
}

pub open spec fn stmt_functions(s: Stmt) -> int {
    match exposed_declaration(s) {
        Some(d) => decl_functions(d),
        None => 0,
    }
}

pub open spec fn stmt_classes(s: Stmt) -> int {
    match exposed_declaration(s) {
        Some(d) => decl_classes(d),
        None => 0,
    }
}

pub open spec fn stmt_exports(s: Stmt) -> int {
    if is_export(s) { 1 } else { 0 }
}

/// Variable bindings declared at the top level of `p`.
pub open spec fn variables_in(p: Seq<Stmt>) -> int
    decreases p.len(),
{
    if p.len() == 0 { 0 } else { variables_in(p.drop_last()) + stmt_variables(p.last()) }
}

pub open spec fn functions_in(p: Seq<Stmt>) -> int
    decreases p.len(),
{
    if p.len() == 0 { 0 } else { functions_in(p.drop_last()) + stmt_functions(p.last()) }
}

pub open spec fn classes_in(p: Seq<Stmt>) -> int
    decreases p.len(),
{
    if p.len() == 0 { 0 } else { classes_in(p.drop_last()) + stmt_classes(p.last()) }
}

pub open spec fn exports_in(p: Seq<Stmt>) -> int
    decreases p.len(),
{
    if p.len() == 0 { 0 } else { exports_in(p.drop_last()) + stmt_exports(p.last()) }
}

/// Whether every count of `p` fits in the `i32` fields of a result.
pub open spec fn counts_fit(p: Seq<Stmt>) -> bool {
    &&& variables_in(p) <= i32::MAX
    &&& functions_in(p) <= i32::MAX
    &&& classes_in(p) <= i32::MAX
    &&& exports_in(p) <= i32::MAX
}

} // verus!
