//! The declaration counter: one forward pass over the top-level statements.
use vstd::prelude::*;

use crate::program::{
    classes_in, counts_fit, decl_classes, decl_functions, decl_variables, exports_in,
    functions_in, stmt_classes, stmt_exports, stmt_functions, stmt_variables, variables_in, Decl,
    Stmt,
};

verus! {

/// The four counts of one analysis.
#[derive(Clone, Copy, Debug, PartialEq, Eq, Structural)]
pub struct AnalysisResult {
    pub variable_declarations: i32,
    pub function_declarations: i32,
    pub class_declarations: i32,
    pub export_declarations: i32,
}

impl AnalysisResult {
    /// The result holds exactly the counts of program `p`.
    pub open spec fn describes(self, p: Seq<Stmt>) -> bool {
        &&& self.variable_declarations == variables_in(p)
        &&& self.function_declarations == functions_in(p)
        &&& self.class_declarations == classes_in(p)
        &&& self.export_declarations == exports_in(p)
    }
}

/// Adds the counts of declaration `d` to `res`; `false`, with `res` left as it
/// was, where one of them would not fit.
fn add_declaration(res: &mut AnalysisResult, d: &Decl) -> (ok: bool)
    requires
        old(res).variable_declarations >= 0,
    ensures
        ok <==> {
            &&& old(res).variable_declarations + decl_variables(*d) <= i32::MAX
            &&& old(res).function_declarations + decl_functions(*d) <= i32::MAX
            &&& old(res).class_declarations + decl_classes(*d) <= i32::MAX
        },
        ok ==> final(res).variable_declarations == old(res).variable_declarations
            + decl_variables(*d),
        ok ==> final(res).function_declarations == old(res).function_declarations
            + decl_functions(*d),
        ok ==> final(res).class_declarations == old(res).class_declarations + decl_classes(*d),
        final(res).export_declarations == old(res).export_declarations,
        !ok ==> *final(res) == *old(res),
{
    match d {
        Decl::Variable { declarators } => {
            if *declarators > (i32::MAX - res.variable_declarations) as usize {
                return false;
            }
            res.variable_declarations = res.variable_declarations + *declarators as i32;
        },
        Decl::Function => {
            if res.function_declarations == i32::MAX {
                return false;
            }
            res.function_declarations = res.function_declarations + 1;
        },
        Decl::Class => {
            if res.class_declarations == i32::MAX {
                return false;
            }
            res.class_declarations = res.class_declarations + 1;
        },
        Decl::Other => {},
    }
    true
}

proof fn lemma_prefix_counts_bounded(p: Seq<Stmt>, j: int)
    requires
        0 <= j <= p.len(),
    ensures
        variables_in(p.take(j)) <= variables_in(p),
        functions_in(p.take(j)) <= functions_in(p),
        classes_in(p.take(j)) <= classes_in(p),
        exports_in(p.take(j)) <= exports_in(p),
    decreases p.len() - j,
{
    if j == p.len() {
        assert(p.take(j) =~= p);
    } else {
        lemma_prefix_counts_bounded(p.drop_last(), j);
        assert(p.drop_last().take(j) =~= p.take(j));
        lemma_statement_counts_nonnegative(p.last());
    }
}

proof fn lemma_statement_counts_nonnegative(s: Stmt)
    ensures
        stmt_variables(s) >= 0,
        stmt_functions(s) >= 0,
        stmt_classes(s) >= 0,
        stmt_exports(s) >= 0,
{
}

/// Counts the declarations of `program`, its top-level statements in order.
/// A named export's inline declaration is counted beside the export itself;
/// the payloads of default and namespace exports are not looked into.
/// `None` exactly where a count exceeds what an `i32` holds.
pub fn count_declarations(program: &[Stmt]) -> (r: Option<AnalysisResult>)
    ensures
        r is Some <==> counts_fit(program@),
        r matches Some(res) ==> res.describes(program@),
{
    let mut res = AnalysisResult {
        variable_declarations: 0,
        function_declarations: 0,
        class_declarations: 0,
        export_declarations: 0,
    };
    let mut i: usize = 0;
    while i < program.len()
        invariant
            0 <= i <= program@.len(),
            res.describes(program@.take(i as int)),
            res.variable_declarations >= 0,
        decreases program@.len() - i,
    {
        let s = &program[i];
        proof {
            let q = program@.take(i as int + 1);
            assert(q.drop_last() =~= program@.take(i as int));
            assert(q.last() == *s);
        }
        let ok = match s {
            Stmt::Declaration(d) => add_declaration(&mut res, d),
            Stmt::ExportDefault | Stmt::ExportAll => {
                if res.export_declarations == i32::MAX {
                    false
                } else {
                    res.export_declarations = res.export_declarations + 1;
                    true
                }
            },
            Stmt::ExportNamed { declaration } => {
                if res.export_declarations == i32::MAX {
                    false
                } else {
                    res.export_declarations = res.export_declarations + 1;
                    match declaration {
                        Some(d) => add_declaration(&mut res, d),
                        None => true,
                    }
                }
            },
            Stmt::Other => true,
        };
        if !ok {
            proof {
                lemma_prefix_counts_bounded(program@, i as int + 1);
            }
            return None;
        }
        i = i + 1;
    }
    assert(program@.take(i as int) =~= program@);
    Some(res)
}

} // verus!
