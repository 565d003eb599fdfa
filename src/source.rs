//! From source text to counts: the oxc parser reads the module, and each
//! top-level statement is mapped onto the statement model.
use vstd::prelude::*;

use oxc_allocator::Allocator;
use oxc_ast::ast::{Declaration, Statement};
use oxc_parser::Parser;
use oxc_span::SourceType;

use crate::counter::{count_declarations, AnalysisResult};
use crate::program::{counts_fit, Decl, Stmt};

verus! {

#[verifier::external_type_specification]
#[verifier::external_body]
pub struct ExStatement<'a>(Statement<'a>);

#[verifier::external_type_specification]
#[verifier::external_body]
pub struct ExDeclaration<'a>(Declaration<'a>);

/// Why no counts came out of an analysis.
#[derive(Clone, Copy, Debug, PartialEq, Eq, Structural)]
pub enum AnalysisError {
    /// The source text is not a syntactically valid module.
    ParseFailure,
    /// A count does not fit in the `i32` field of the result.
    CountOverflow,
}

/// The three export forms that the counter tells apart.
#[derive(Clone, Copy, Debug, PartialEq, Eq, Structural)]
enum ExportForm {
    Default,
    All,
    Named,
}

/// Whether the oxc parser reports a syntax error on `source`, read as an
/// ECMAScript module.
pub uninterp spec fn syntax_error_in(source: Seq<char>) -> bool;

/// The top-level statements of the module `source`, in source order, each
/// mapped onto the statement model by `statement_of`.
pub uninterp spec fn module_statements(source: Seq<char>) -> Seq<Stmt>;

/// Relies on `oxc_parser::Parser::parse` with `SourceType::default()` (an
/// ECMAScript module): `None` where the parser gave up (`panicked`) or
/// reported a diagnostic of error severity (`Diagnostics::has_errors`);
/// otherwise the statements of `Program::body`, in order.
#[verifier::external_body]
fn parse_statements(source: &str) -> (r: Option<Vec<Stmt>>)
    ensures
        r is None <==> syntax_error_in(source@),
        r matches Some(v) ==> v@ == module_statements(source@),
{
    let allocator = Allocator::default();
    let ret = Parser::new(&allocator, source, SourceType::default()).parse();
    if ret.panicked || ret.diagnostics.has_errors() {
        return None;
    }
    Some(ret.program.body.iter().map(statement_of).collect())
}

/// Relies on `Statement::as_declaration`: the statement as a declaration,
/// where it is one.
#[verifier::external_body]
fn as_declaration<'b, 'a>(s: &'b Statement<'a>) -> Option<&'b Declaration<'a>> {
    s.as_declaration()
}

/// Relies on the variants of `oxc_ast::ast::Declaration`, and on the
/// `declarations` list of a `VariableDeclaration`.
#[verifier::external_body]
fn declaration_of(d: &Declaration<'_>) -> Decl {
    match d {
        Declaration::VariableDeclaration(v) => Decl::Variable { declarators: v.declarations.len() },
        Declaration::FunctionDeclaration(_) => Decl::Function,
        Declaration::ClassDeclaration(_) => Decl::Class,
        _ => Decl::Other,
    }
}

/// Relies on the export variants of `oxc_ast::ast::Statement`.
#[verifier::external_body]
fn export_form(s: &Statement<'_>) -> Option<ExportForm> {
    match s {
        Statement::ExportDefaultDeclaration(_) => Some(ExportForm::Default),
        Statement::ExportAllDeclaration(_) => Some(ExportForm::All),
        Statement::ExportNamedDeclaration(_) => Some(ExportForm::Named),
        _ => None,
    }
}

/// Relies on the field `ExportNamedDeclaration::declaration`: the inline
/// declaration of a named export, where it has one.
#[verifier::external_body]
fn exported_declaration<'b, 'a>(s: &'b Statement<'a>) -> Option<&'b Declaration<'a>> {
    match s {
        Statement::ExportNamedDeclaration(e) => e.declaration.as_ref(),
        _ => None,
    }
}

/// The statement model of one parsed statement.
fn statement_of(s: &Statement<'_>) -> Stmt {
    match as_declaration(s) {
        Some(d) => Stmt::Declaration(declaration_of(d)),
        None => match export_form(s) {
            Some(ExportForm::Default) => Stmt::ExportDefault,
            Some(ExportForm::All) => Stmt::ExportAll,
            Some(ExportForm::Named) => {
                let declaration = match exported_declaration(s) {
                    Some(d) => Some(declaration_of(d)),
                    None => None,
                };
                Stmt::ExportNamed { declaration }
            },
            None => Stmt::Other,
        },
    }
}

/// Counts the top-level declarations of the module `source_code` (UTF-8 text).
///
/// A syntax error gives `ParseFailure`, never counts. Otherwise the result
/// holds the counts of the module's top-level statements, or is
/// `CountOverflow` where one of them does not fit in an `i32`.
pub fn analysis_source_code(source_code: String) -> (r: Result<AnalysisResult, AnalysisError>)
    ensures
        r matches Err(AnalysisError::ParseFailure) <==> syntax_error_in(source_code@),
        !syntax_error_in(source_code@) ==> (r is Ok <==> counts_fit(
            module_statements(source_code@),
        )),
        r matches Ok(res) ==> res.describes(module_statements(source_code@)),
{
    let program = match parse_statements(source_code.as_str()) {
        Some(program) => program,
        None => return Err(AnalysisError::ParseFailure),
    };
    match count_declarations(program.as_slice()) {
        Some(res) => Ok(res),
        None => Err(AnalysisError::CountOverflow),
    }
}

} // verus!
