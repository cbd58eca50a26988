use oil::ast::{Ident, Import, ImportSymbols, Package, Span, SubPackage};
use oil::grammar::parse_grammar;
use oil::symbols::{ResolveError, pass_resolve_symbols};

#[test]
fn test_valid_local_name_resolution_for_classes() {
    let package_txt = "\n    .some_class {}\n    .other_class { .some_class; }\n    ";
    let ast = parse_grammar(package_txt).unwrap();
    pass_resolve_symbols(&vec![ast], 0).expect("Name should all have been resolved.");
}

#[test]
fn test_valid_local_name_resolution_for_components() {
    let package_txt = "\n    component a = <button></button>;\n    component el = <a></a>;\n    ";
    let ast = parse_grammar(package_txt).unwrap();
    pass_resolve_symbols(&vec![ast], 0).expect("Name should all have been resolved.");
}

#[test]
fn test_valid_local_name_resolution_for_mixed() {
    let package_txt =
        "\n    .some_class {}\n    component el = <button class=some_class></button>;\n    ";
    let ast = parse_grammar(package_txt).unwrap();
    pass_resolve_symbols(&vec![ast], 0).expect("Name should all have been resolved.");
}

fn ident(name: &str) -> Ident {
    Ident { span: Span(0, 0), name: name.to_string() }
}

fn import_of(sub: SubPackage, symbols: ImportSymbols) -> Import {
    Import { span: Span(0, 0), symbols, package: sub }
}

#[test]
fn test_symbols_flow_through_packages() {
    // The root imports everything the sub-package exports; only the
    // exported class crosses over.
    let sub = parse_grammar("export .btn {}\n.hidden {}").unwrap();
    let mut root = parse_grammar(".local {}").unwrap();
    root.imports.push(import_of(SubPackage::Package(1), ImportSymbols::All));
    let arena = vec![root, sub];
    let syms = pass_resolve_symbols(&arena, 0).unwrap();
    assert_eq!(syms.defined, vec!["local".to_string()]);
    assert_eq!(syms.imported, vec!["btn".to_string()]);
    assert_eq!(syms.exported, Vec::<String>::new());
}

#[test]
fn test_symbols_named_subset() {
    let sub = parse_grammar("export .btn {}\nexport .prg {}").unwrap();
    let mut root = Package { imports: Vec::new(), items: Vec::new() };
    root.imports.push(import_of(
        SubPackage::Package(1),
        ImportSymbols::Only(vec![ident("btn")]),
    ));
    let arena = vec![root, sub];
    let syms = pass_resolve_symbols(&arena, 0).unwrap();
    assert_eq!(syms.imported, vec!["btn".to_string()]);
}

#[test]
fn test_symbols_import_cycle_is_reported() {
    // A package that imports itself fails with the cycle error rather
    // than hanging.
    let mut root = Package { imports: Vec::new(), items: Vec::new() };
    root.imports.push(import_of(SubPackage::Package(0), ImportSymbols::All));
    let arena = vec![root];
    assert_eq!(pass_resolve_symbols(&arena, 0), Err(ResolveError::ImportCycle));
}

#[test]
fn test_symbols_unresolved_import_is_reported() {
    let root = parse_grammar("import * from 'other';").unwrap();
    let arena = vec![root];
    assert_eq!(
        pass_resolve_symbols(&arena, 0),
        Err(ResolveError::UnresolvedImport)
    );
}

#[test]
fn test_symbols_out_of_range_package() {
    let mut root = Package { imports: Vec::new(), items: Vec::new() };
    root.imports.push(import_of(SubPackage::Package(7), ImportSymbols::All));
    let arena = vec![root];
    assert_eq!(
        pass_resolve_symbols(&arena, 0),
        Err(ResolveError::PackageNotFound)
    );
}

#[test]
fn test_symbols_let_defines_and_exports() {
    let root = parse_grammar("export let k = 3;\nlet p = 4;").unwrap();
    let arena = vec![root];
    let syms = pass_resolve_symbols(&arena, 0).unwrap();
    assert_eq!(syms.defined, vec!["k".to_string(), "p".to_string()]);
    assert_eq!(syms.exported, vec!["k".to_string()]);
}

#[test]
fn test_symbols_whole_package_under_one_name_unsupported() {
    let sub = parse_grammar("export .btn {}").unwrap();
    let mut root = Package { imports: Vec::new(), items: Vec::new() };
    root.imports.push(import_of(
        SubPackage::Package(1),
        ImportSymbols::AllAsIdent(ident("m")),
    ));
    let arena = vec![root, sub];
    assert_eq!(
        pass_resolve_symbols(&arena, 0),
        Err(ResolveError::UnsupportedImport)
    );
}
