//! Laws of the declaration counts, over the statement model.
use vstd::prelude::*;

use crate::counter::AnalysisResult;
use crate::program::{
    counts_fit, exports_in, is_export, stmt_classes, stmt_exports, stmt_functions, stmt_variables,
    Decl, Stmt,
};

verus! {

/// A program without top-level statements counts nothing: its counts fit, and
/// a result that describes it is all zeros.
pub proof fn lemma_empty_program_counts_nothing(res: AnalysisResult)
    requires
        res.describes(Seq::empty()),
    ensures
        counts_fit(Seq::empty()),
        res == (AnalysisResult {
            variable_declarations: 0,
            function_declarations: 0,
            class_declarations: 0,
            export_declarations: 0,
        }),
{
}

/// A variable statement with `k` declarators, bare or inside a named export,
/// adds exactly `k` to the variable count of any program it is appended to,
/// and nothing to its function and class counts.
pub proof fn lemma_variable_statement_adds_declarators(
    p: Seq<Stmt>,
    s: Stmt,
    k: usize,
    before: AnalysisResult,
    after: AnalysisResult,
)
    requires
        s == Stmt::Declaration(Decl::Variable { declarators: k }) || s == (Stmt::ExportNamed {
            declaration: Some(Decl::Variable { declarators: k }),
        }),
        before.describes(p),
        after.describes(p.push(s)),
    ensures
        after.variable_declarations == before.variable_declarations + k,
        after.function_declarations == before.function_declarations,
        after.class_declarations == before.class_declarations,
{
    assert(p.push(s).drop_last() =~= p);
}

proof fn lemma_exports_in_counts_export_statements(p: Seq<Stmt>)
    ensures
        exports_in(p) == p.filter(|s: Stmt| is_export(s)).len(),
    decreases p.len(),
{
    let pred = |s: Stmt| is_export(s);
    if p.len() == 0 {
        assert(p.filter(pred) =~= Seq::<Stmt>::empty());
    } else {
        lemma_exports_in_counts_export_statements(p.drop_last());
        assert(p.drop_last().push(p.last()) =~= p);
        p.drop_last().lemma_filter_push(p.last(), pred);
    }
}

/// The export count of a result is the number of top-level statements that
/// are export statements (default, namespace or named), whatever they carry.
pub proof fn lemma_exports_count_export_statements(p: Seq<Stmt>, res: AnalysisResult)
    requires
        res.describes(p),
    ensures
        res.export_declarations == p.filter(|s: Stmt| is_export(s)).len(),
{
    lemma_exports_in_counts_export_statements(p);
}

/// The counts are a function of the program: two results that describe the
/// same program are equal.
pub proof fn lemma_counts_are_determined(p: Seq<Stmt>, a: AnalysisResult, b: AnalysisResult)
    requires
        a.describes(p),
        b.describes(p),
    ensures
        a == b,
{
}

/// Appending a top-level statement never decreases any of the four counts.
pub proof fn lemma_appending_never_decreases(
    p: Seq<Stmt>,
    s: Stmt,
    before: AnalysisResult,
    after: AnalysisResult,
)
    requires
        before.describes(p),
        after.describes(p.push(s)),
    ensures
        after.variable_declarations >= before.variable_declarations,
        after.function_declarations >= before.function_declarations,
        after.class_declarations >= before.class_declarations,
        after.export_declarations >= before.export_declarations,
{
    assert(p.push(s).drop_last() =~= p);
    assert(stmt_variables(s) >= 0 && stmt_functions(s) >= 0);
    assert(stmt_classes(s) >= 0 && stmt_exports(s) >= 0);
}

} // verus!
