use oil::ast::{Constant, Ident, PathExpr, Span};
use oil::pathexpr::{PathItem, PropKind, into_linpath};

fn ident(name: &str) -> Ident {
    Ident { span: Span(0, 0), name: name.to_string() }
}

#[test]
fn test_linpath_optional_chain() {
    // `a.b?.c` linearizes root to leaf, with the optional guard marking
    // the step it wraps.
    let chain = PathExpr::PropertyAccess {
        map: Box::new(PathExpr::Optional {
            opt: Box::new(PathExpr::PropertyAccess {
                map: Box::new(PathExpr::Variable(ident("a"))),
                property: ident("b"),
            }),
        }),
        property: ident("c"),
    };
    let lin = into_linpath(&chain).unwrap();
    assert_eq!(
        lin,
        vec![
            PathItem { prop: PropKind::Str("a".to_string()), is_optional: false },
            PathItem { prop: PropKind::Str("b".to_string()), is_optional: true },
            PathItem { prop: PropKind::Str("c".to_string()), is_optional: false },
        ]
    );
}

#[test]
fn test_linpath_index() {
    // `a[0].c` keeps the index step in order.
    let chain = PathExpr::PropertyAccess {
        map: Box::new(PathExpr::Index {
            map: Box::new(PathExpr::Variable(ident("a"))),
            index: Constant::Integer(0),
        }),
        property: ident("c"),
    };
    let lin = into_linpath(&chain).unwrap();
    assert_eq!(
        lin,
        vec![
            PathItem { prop: PropKind::Str("a".to_string()), is_optional: false },
            PathItem { prop: PropKind::Int(0), is_optional: false },
            PathItem { prop: PropKind::Str("c".to_string()), is_optional: false },
        ]
    );
}

#[test]
fn test_linpath_rejects_non_literal_index() {
    let chain = PathExpr::Index {
        map: Box::new(PathExpr::Variable(ident("a"))),
        index: Constant::Float("1.5".to_string()),
    };
    assert!(into_linpath(&chain).is_none());
}

#[test]
fn test_linpath_parsed_matches_hand_built() {
    // The parser builds the same chain from `a.b?.c`.
    let builder = oil::ast::ASTFullSpan;
    let parsed = oil::grammar::parse_expression_with_builder(&builder, "a.b?.c").unwrap();
    let pe = match parsed {
        oil::ast::Expr::PathExpr(pe) => pe,
        other => panic!("expected a path, got {:?}", other),
    };
    let lin = into_linpath(&pe).unwrap();
    let names: Vec<(String, bool)> = lin
        .iter()
        .map(|item| match &item.prop {
            PropKind::Str(s) => (s.clone(), item.is_optional),
            PropKind::Int(i) => (format!("{}", i), item.is_optional),
        })
        .collect();
    assert_eq!(
        names,
        vec![
            ("a".to_string(), false),
            ("b".to_string(), true),
            ("c".to_string(), false),
        ]
    );
}
