use oil::ast::{ASTNullSpan, Constant, Expr, OpCode};
use oil::codegen::{AssignIR, CompileFolder, ExprIR, IR, IrError, PathIR, VarIR, compile, into_ir};
use oil::grammar::parse_expression_with_builder;
use oil::pathexpr::into_linpath;
use oil::store::{EnumVariant, StoreType, VariantType};

fn fields(entries: Vec<(&str, StoreType)>) -> Vec<(String, StoreType)> {
    entries.into_iter().map(|(k, v)| (k.to_string(), v)).collect()
}

fn make_store() -> StoreType {
    StoreType::Struct {
        fields: fields(vec![(
            "a",
            StoreType::Enum {
                variants: vec![
                    EnumVariant {
                        name: "A1".to_string(),
                        variant_type: VariantType::Struct {
                            fields: fields(vec![
                                (
                                    "b",
                                    StoreType::Enum {
                                        variants: vec![EnumVariant {
                                            name: "B2".to_string(),
                                            variant_type: VariantType::Struct {
                                                fields: fields(vec![("c", StoreType::Number)]),
                                            },
                                        }],
                                    },
                                ),
                                ("e", StoreType::Number),
                            ]),
                        },
                    },
                    EnumVariant {
                        name: "A2".to_string(),
                        variant_type: VariantType::Struct {
                            fields: fields(vec![(
                                "b",
                                StoreType::Struct { fields: fields(vec![("c", StoreType::Str)]) },
                            )]),
                        },
                    },
                    EnumVariant {
                        name: "A3".to_string(),
                        variant_type: VariantType::Struct {
                            fields: fields(vec![(
                                "b",
                                StoreType::Enum {
                                    variants: vec![
                                        EnumVariant {
                                            name: "V1".to_string(),
                                            variant_type: VariantType::Tuple {
                                                elements: vec![StoreType::Number],
                                            },
                                        },
                                        EnumVariant {
                                            name: "V2".to_string(),
                                            variant_type: VariantType::Tuple {
                                                elements: vec![StoreType::Str],
                                            },
                                        },
                                        EnumVariant {
                                            name: "V3".to_string(),
                                            variant_type: VariantType::Struct {
                                                fields: fields(vec![("h", StoreType::Str)]),
                                            },
                                        },
                                    ],
                                },
                            )]),
                        },
                    },
                ],
            },
        )]),
    }
}

fn fold_store_path(text: &str) -> Option<PathIR> {
    let store = make_store();
    let mut folder = CompileFolder;
    let expr = parse_expression_with_builder(&ASTNullSpan, text).unwrap();
    let pe = match expr {
        Expr::PathExpr(pe) => pe,
        other => panic!("expression is not a path: {:?}", other),
    };
    let lin = into_linpath(&pe).unwrap();
    folder.fold(&store, &lin, 0)
}

#[test]
fn rendering_of_folder() {
    let ir = fold_store_path("store.a.b?c?").expect("No IR");
    let mut output = String::new();
    ir.render(&mut output);
    assert!(output.len() > 0);
}

#[test]
fn rendering_test() {
    let ir = fold_store_path("store.a.b?c?").expect("No IR");
    let first_assign = AssignIR { leftop: VarIR { id: 0 }, rightop: ExprIR::Path(ir) };
    let second_assign = AssignIR {
        leftop: VarIR { id: 1 },
        rightop: ExprIR::BinaryOp(VarIR { id: 0 }, OpCode::Add, VarIR { id: 0 }),
    };
    let ir = IR { instructions: vec![first_assign, second_assign] };
    let mut output = String::new();
    ir.render(&mut output);
    assert!(output.contains("if let Some(__tmp0) = __tmp0 {"));
    assert!(output.contains("Some(__tmp0+__tmp0)"));
}

#[test]
fn folding_exhaustiveness_partial() {
    // Of the three variants, two resolve `store.a.b?c?`: two arms plus
    // one trailing catch-all.
    let ir = fold_store_path("store.a.b?c?").expect("No IR");
    match ir {
        PathIR::Match { children, .. } => {
            assert_eq!(children.len(), 3);
            assert!(matches!(children[0], PathIR::Variant { .. }));
            assert!(matches!(children[1], PathIR::Variant { .. }));
            assert!(matches!(children[2], PathIR::VariantNone));
        }
        other => panic!("expected a match, got {:?}", other),
    }
}

#[test]
fn folding_exhaustiveness_total() {
    // When every variant resolves, no catch-all arm is added.
    let store = StoreType::Struct {
        fields: fields(vec![(
            "a",
            StoreType::Enum {
                variants: vec![
                    EnumVariant {
                        name: "L".to_string(),
                        variant_type: VariantType::Struct {
                            fields: fields(vec![("v", StoreType::Number)]),
                        },
                    },
                    EnumVariant {
                        name: "R".to_string(),
                        variant_type: VariantType::Struct {
                            fields: fields(vec![("v", StoreType::Str)]),
                        },
                    },
                ],
            },
        )]),
    };
    let mut folder = CompileFolder;
    let expr = parse_expression_with_builder(&ASTNullSpan, "store.a.v?").unwrap();
    let pe = match expr {
        Expr::PathExpr(pe) => pe,
        other => panic!("expression is not a path: {:?}", other),
    };
    let lin = into_linpath(&pe).unwrap();
    let ir = folder.fold(&store, &lin, 0).expect("No IR");
    match ir {
        PathIR::Match { children, .. } => {
            assert_eq!(children.len(), 2);
            assert!(matches!(children[0], PathIR::Variant { .. }));
            assert!(matches!(children[1], PathIR::Variant { .. }));
        }
        other => panic!("expected a match, got {:?}", other),
    }
}

#[test]
fn into_ir_binary_expression() {
    // `1 + 2` lowers to two constants and the combining operation, the
    // operation taking the first id.
    let builder = ASTNullSpan;
    let expr = parse_expression_with_builder(&builder, "1 + 2").unwrap();
    let store = make_store();
    let ir = into_ir(&expr, &store).unwrap();
    assert_eq!(ir.instructions.len(), 3);
    assert_eq!(ir.instructions[0].leftop.id, 1);
    assert_eq!(ir.instructions[0].rightop, ExprIR::Constant(1));
    assert_eq!(ir.instructions[1].leftop.id, 2);
    assert_eq!(ir.instructions[1].rightop, ExprIR::Constant(2));
    assert_eq!(ir.instructions[2].leftop.id, 0);
    assert_eq!(
        ir.instructions[2].rightop,
        ExprIR::BinaryOp(VarIR { id: 1 }, OpCode::Add, VarIR { id: 2 })
    );
}

#[test]
fn into_ir_reports_unsupported() {
    let store = make_store();
    let not = Expr::Not(Box::new(Expr::Constant(Constant::Integer(1))));
    assert_eq!(into_ir(&not, &store), Err(IrError::UnsupportedExpr));
    let float = Expr::Constant(Constant::Float("1.5".to_string()));
    assert_eq!(into_ir(&float, &store), Err(IrError::UnsupportedConstant));
    let builder = ASTNullSpan;
    let bad_path = parse_expression_with_builder(&builder, "store.nope").unwrap();
    assert_eq!(into_ir(&bad_path, &store), Err(IrError::PathNotResolved));
}

#[test]
fn compile_renders_exact_text() {
    let builder = ASTNullSpan;
    let expr = parse_expression_with_builder(&builder, "5").unwrap();
    let store = make_store();
    let out = compile(&expr, &store).unwrap();
    assert_eq!(out, "let __tmp0 = 5\n;\n");
}

#[test]
fn compile_renders_folded_path() {
    let expr = parse_expression_with_builder(&ASTNullSpan, "store.a.b?c?").unwrap();
    let store = make_store();
    let out = compile(&expr, &store).unwrap();
    assert!(out.starts_with("let __tmp0 = match store.a {\n"));
    assert!(out.contains("A1 { ref b } => {\n"));
    assert!(out.contains("A2 { ref b } => {\n"));
    assert!(out.contains("_ => None,\n"));
}

#[test]
fn compile_unwraps_optional_shapes() {
    // An optional shape in the schema renders as an unwrapping match.
    let store = StoreType::Struct {
        fields: fields(vec![("opt", StoreType::Optional(Box::new(StoreType::Number)))]),
    };
    let expr = parse_expression_with_builder(&ASTNullSpan, "root.opt?").unwrap();
    let out = compile(&expr, &store).unwrap();
    assert!(out.contains("match IntoIterator::into_iter(root.opt).next() {\n"));
    assert!(out.contains("Some(root.opt) => {\n"));
    assert!(out.contains("None => None,\n"));
}

#[test]
fn into_ir_rejects_non_literal_index() {
    let store = make_store();
    let bad = Expr::PathExpr(oil::ast::PathExpr::Index {
        map: Box::new(oil::ast::PathExpr::Variable(oil::ast::Ident {
            span: oil::ast::Span(0, 0),
            name: "a".to_string(),
        })),
        index: Constant::Float("0.5".to_string()),
    });
    assert_eq!(into_ir(&bad, &store), Err(IrError::InvalidPath));
}

#[test]
fn render_negative_constant() {
    let ir = IR {
        instructions: vec![AssignIR { leftop: VarIR { id: 3 }, rightop: ExprIR::Constant(-45) }],
    };
    let mut out = String::new();
    ir.render(&mut out);
    assert_eq!(out, "let __tmp3 = -45\n;\n");
}
