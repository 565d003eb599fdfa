use count_var::{analysis_source_code, count_declarations, AnalysisError, AnalysisResult, Decl, Stmt};

fn counts(v: i32, f: i32, c: i32, e: i32) -> AnalysisResult {
    AnalysisResult {
        variable_declarations: v,
        function_declarations: f,
        class_declarations: c,
        export_declarations: e,
    }
}

#[test]
fn test_analysis_source_code() {
    let source_code = r#"
          let a = 1;
          function foo() {}
          class Bar {}
          export const b = 2;
          export function baz() {}
          export class Qux {}
          export default function() {}
          export * from 'module';
      "#;
    let result = analysis_source_code(source_code.to_string()).unwrap();
    assert_eq!(result.variable_declarations, 2);
    // `export default function() {}` counts as an export only: its payload is
    // not unwrapped.
    assert_eq!(result.function_declarations, 2);
    assert_eq!(result.class_declarations, 2);
    assert_eq!(result.export_declarations, 5);
}

#[test]
fn export_default_class_is_not_unwrapped() {
    let result = analysis_source_code("export default class {}".to_string()).unwrap();
    assert_eq!(result, counts(0, 0, 0, 1));
}

#[test]
fn named_export_without_declaration_counts_only_the_export() {
    let result = analysis_source_code("let x = 1, y = 2;\nexport { x, y };".to_string()).unwrap();
    assert_eq!(result, counts(2, 0, 0, 1));
    let alone = analysis_source_code("export { x, y } from 'm';".to_string()).unwrap();
    assert_eq!(alone, counts(0, 0, 0, 1));
}

#[test]
fn unmatched_brace_is_a_parse_failure() {
    assert_eq!(
        analysis_source_code("function foo() {".to_string()),
        Err(AnalysisError::ParseFailure)
    );
    assert_eq!(analysis_source_code("let = ;".to_string()), Err(AnalysisError::ParseFailure));
}

#[test]
fn empty_source_counts_nothing() {
    assert_eq!(analysis_source_code(String::new()), Ok(counts(0, 0, 0, 0)));
    assert_eq!(count_declarations(&[]), Some(counts(0, 0, 0, 0)));
}

#[test]
fn declarators_are_counted_not_statements() {
    let result = analysis_source_code("let a = 1, b = 2, c;\nexport var d, e;".to_string()).unwrap();
    assert_eq!(result, counts(5, 0, 0, 1));
}

#[test]
fn nested_declarations_are_not_counted() {
    let source = "function outer() { let a = 1; function inner() {} class C {} }\n\
                  if (true) { var b = 2; }\n\
                  { let c = 3; }";
    let result = analysis_source_code(source.to_string()).unwrap();
    assert_eq!(result, counts(0, 1, 0, 0));
}

#[test]
fn other_statements_and_declarations_are_ignored() {
    let source = "import x from 'm';\nx();\nfor (;;) { break; }\nexport { x };";
    let result = analysis_source_code(source.to_string()).unwrap();
    assert_eq!(result, counts(0, 0, 0, 1));
}

#[test]
fn counter_on_the_reference_program() {
    let program = [
        Stmt::Declaration(Decl::Variable { declarators: 1 }),
        Stmt::Declaration(Decl::Function),
        Stmt::Declaration(Decl::Class),
        Stmt::ExportNamed { declaration: Some(Decl::Variable { declarators: 1 }) },
        Stmt::ExportNamed { declaration: Some(Decl::Function) },
        Stmt::ExportNamed { declaration: Some(Decl::Class) },
        Stmt::ExportDefault,
        Stmt::ExportAll,
    ];
    assert_eq!(count_declarations(&program), Some(counts(2, 2, 2, 5)));
}

#[test]
fn zero_declarators_contribute_nothing() {
    let program = [
        Stmt::Declaration(Decl::Variable { declarators: 0 }),
        Stmt::ExportNamed { declaration: Some(Decl::Variable { declarators: 0 }) },
    ];
    assert_eq!(count_declarations(&program), Some(counts(0, 0, 0, 1)));
}

#[test]
fn variable_contribution_is_its_declarator_count() {
    let program = [
        Stmt::Declaration(Decl::Variable { declarators: 3 }),
        Stmt::Other,
        Stmt::ExportNamed { declaration: Some(Decl::Variable { declarators: 4 }) },
    ];
    assert_eq!(count_declarations(&program), Some(counts(7, 0, 0, 1)));
}

#[test]
fn exports_count_export_statements_whatever_they_carry() {
    let program = [
        Stmt::ExportDefault,
        Stmt::ExportAll,
        Stmt::ExportNamed { declaration: None },
        Stmt::ExportNamed { declaration: Some(Decl::Other) },
        Stmt::Declaration(Decl::Other),
        Stmt::Other,
    ];
    assert_eq!(count_declarations(&program), Some(counts(0, 0, 0, 4)));
}

#[test]
fn counting_twice_gives_the_same_result() {
    let source = "let a; export function f() {} class K {}".to_string();
    assert_eq!(analysis_source_code(source.clone()), analysis_source_code(source));
    let program = [Stmt::Declaration(Decl::Class), Stmt::ExportAll];
    assert_eq!(count_declarations(&program), count_declarations(&program));
}

#[test]
fn appending_a_statement_never_decreases_a_count() {
    let base = vec![
        Stmt::Declaration(Decl::Variable { declarators: 2 }),
        Stmt::ExportNamed { declaration: Some(Decl::Function) },
    ];
    let before = count_declarations(&base).unwrap();
    let extra = [
        Stmt::Declaration(Decl::Variable { declarators: 0 }),
        Stmt::Declaration(Decl::Class),
        Stmt::ExportDefault,
        Stmt::Other,
    ];
    for s in extra {
        let mut longer = base.clone();
        longer.push(s);
        let after = count_declarations(&longer).unwrap();
        assert!(after.variable_declarations >= before.variable_declarations);
        assert!(after.function_declarations >= before.function_declarations);
        assert!(after.class_declarations >= before.class_declarations);
        assert!(after.export_declarations >= before.export_declarations);
    }
}

#[test]
fn counts_that_do_not_fit_an_i32_are_refused() {
    let largest = [Stmt::Declaration(Decl::Variable { declarators: i32::MAX as usize })];
    assert_eq!(count_declarations(&largest), Some(counts(i32::MAX, 0, 0, 0)));
    let program = [
        Stmt::Declaration(Decl::Variable { declarators: i32::MAX as usize }),
        Stmt::ExportNamed { declaration: Some(Decl::Variable { declarators: 1 }) },
    ];
    assert_eq!(count_declarations(&program), None);
}
