use vstd::prelude::*;
use crate::ast::OpCode;
use crate::codegen::{
    AssignIR, AssignIRModel, DotPathModel, ExprIR, ExprIRModel, IR, PathIR, PathIRModel,
    assign_ir_model, dot_path_model, expr_ir_model, ir_model, path_ir_model, path_irs_model,
};

verus! {

// Rendering of the lowered form into target-language source text. This
// is a deterministic pretty-printer: every function appends exactly the
// characters its spec function names, and nothing can fail.
/// The decimal digits of `n`.
pub open spec fn spec_digit(d: u32) -> char {
    if d == 0 {
        '0'
    } else if d == 1 {
        '1'
    } else if d == 2 {
        '2'
    } else if d == 3 {
        '3'
    } else if d == 4 {
        '4'
    } else if d == 5 {
        '5'
    } else if d == 6 {
        '6'
    } else if d == 7 {
        '7'
    } else if d == 8 {
        '8'
    } else {
        '9'
    }
}

pub open spec fn spec_u32_dec(n: u32) -> Seq<char>
    decreases n,
{
    if n < 10 {
        seq![spec_digit(n)]
    } else {
        spec_u32_dec(n / 10).push(spec_digit(n % 10))
    }
}

pub open spec fn spec_i32_dec(v: i32) -> Seq<char> {
    if v >= 0 {
        spec_u32_dec(v as u32)
    } else {
        seq!['-'] + spec_u32_dec((-(v as int)) as u32)
    }
}

fn digit_str(d: u32) -> (s: &'static str)
    requires
        d < 10,
    ensures
        s@ == seq![spec_digit(d)],
{
    proof {
        reveal_strlit("0");
        reveal_strlit("1");
        reveal_strlit("2");
        reveal_strlit("3");
        reveal_strlit("4");
        reveal_strlit("5");
        reveal_strlit("6");
        reveal_strlit("7");
        reveal_strlit("8");
        reveal_strlit("9");
    }
    let s = match d {
        0 => "0",
        1 => "1",
        2 => "2",
        3 => "3",
        4 => "4",
        5 => "5",
        6 => "6",
        7 => "7",
        8 => "8",
        _ => "9",
    };
    proof {
        assert(s@ =~= seq![spec_digit(d)]);
    }
    s
}

/// Appends the decimal form of `n`.
fn append_u32(output: &mut String, n: u32)
    ensures
        final(output)@ == old(output)@ + spec_u32_dec(n),
    decreases n,
{
    if n < 10 {
        output.append(digit_str(n));
        proof {
            assert(final(output)@ =~= old(output)@ + spec_u32_dec(n));
        }
    } else {
        append_u32(output, n / 10);
        output.append(digit_str(n % 10));
        proof {
            assert(final(output)@ =~= old(output)@ + spec_u32_dec(n));
        }
    }
}

/// Appends the decimal form of `v`, with a sign when negative.
fn append_i32(output: &mut String, v: i32)
    ensures
        final(output)@ == old(output)@ + spec_i32_dec(v),
{
    if v >= 0 {
        append_u32(output, v as u32);
    } else {
        output.append("-");
        let mag: u32 = if v == i32::MIN {
            0x8000_0000u32
        } else {
            (-v) as u32
        };
        append_u32(output, mag);
        proof {
            reveal_strlit("-");
            assert(final(output)@ =~= old(output)@ + spec_i32_dec(v));
        }
    }
}

/// How a generated access path prints: a composite chain prints as it
/// is, a plain binder prints behind a dereference star.
pub open spec fn spec_render_dot_path(d: DotPathModel) -> Seq<char> {
    if d.is_composite {
        d.path
    } else {
        seq!['*'] + d.path
    }
}

pub open spec fn spec_render_opcode(op: OpCode) -> Seq<char> {
    match op {
        OpCode::Add => "+"@,
        OpCode::Sub => "-"@,
        OpCode::Or => "||"@,
        OpCode::Mul => "*"@,
        OpCode::Div => "/"@,
        OpCode::Pow => "^"@,
        OpCode::Mod => "%"@,
        OpCode::And => "&&"@,
        OpCode::EqEq => "=="@,
        OpCode::NotEq => "!="@,
        OpCode::LessThan => "<"@,
        OpCode::GreaterThan => ">"@,
        OpCode::LessThanOrEq => "<="@,
        OpCode::GreaterThanOrEq => ">="@,
    }
}

/// The source text a compiled path tree prints as: nested matches that
/// propagate absence outward.
pub open spec fn spec_render_path_ir(p: PathIRModel) -> Seq<char>
    decreases p, 1int,
{
    match p {
        PathIRModel::Match { path, children } => "match "@ + spec_render_dot_path(path) + " {\n"@
            + spec_render_path_irs(children) + "}\n"@,
        PathIRModel::IntoIter { path, then } => "match IntoIterator::into_iter("@
            + spec_render_dot_path(path) + ").next() {\n"@ + "Some("@ + spec_render_dot_path(path)
            + ") => {\n"@ + spec_render_path_ir(*then) + "}\n"@ + "None => None,\n"@ + "}\n"@,
        PathIRModel::Variant { path, name, then } => name + " { ref "@ + path + " } => {\n"@
            + spec_render_path_ir(*then) + "}\n"@,
        PathIRModel::VariantNone => "_ => None,\n"@,
        PathIRModel::Present { path } => "Some("@ + path + ")\n"@,
    }
}

pub open spec fn spec_render_path_irs(s: Seq<PathIRModel>) -> Seq<char>
    decreases s, 2int,
{
    if s.len() == 0 {
        Seq::empty()
    } else {
        spec_render_path_ir(s[0]) + spec_render_path_irs(s.drop_first())
    }
}

/// Rendering a list of trees renders each in turn.
pub proof fn lemma_render_path_irs_snoc(s: Seq<PathIRModel>, x: PathIRModel)
    ensures
        spec_render_path_irs(s.push(x)) == spec_render_path_irs(s) + spec_render_path_ir(x),
    decreases s.len(),
{
    if s.len() == 0 {
        assert(s.push(x).drop_first() =~= Seq::<PathIRModel>::empty());
        assert(spec_render_path_irs(s.push(x).drop_first()) == Seq::<char>::empty());
        assert(s.push(x)[0] == x);
        assert(spec_render_path_irs(s.push(x)) =~= spec_render_path_irs(s)
            + spec_render_path_ir(x));
    } else {
        assert(s.push(x).drop_first() =~= s.drop_first().push(x));
        lemma_render_path_irs_snoc(s.drop_first(), x);
        assert(spec_render_path_irs(s.push(x)) =~= spec_render_path_irs(s)
            + spec_render_path_ir(x));
    }
}

/// The source text of one right-hand side. A binary operation over two
/// distinct prior results nests two presence checks; over one and the
/// same result it checks once and reuses the binder.
pub open spec fn spec_render_expr_ir(e: ExprIRModel) -> Seq<char> {
    match e {
        ExprIRModel::Path(p) => spec_render_path_ir(p),
        ExprIRModel::BinaryOp(l, op, r) => {
            if l == r {
                "if let Some(__tmp"@ + spec_u32_dec(l) + ") = __tmp"@ + spec_u32_dec(l) + " {\n"@
                    + "Some(__tmp"@ + spec_u32_dec(l) + spec_render_opcode(op) + "__tmp"@
                    + spec_u32_dec(l) + ")"@ + "} else { None }\n"@
            } else {
                "if let Some(__tmp"@ + spec_u32_dec(l) + ") = __tmp"@ + spec_u32_dec(l) + " {\n"@
                    + "if let Some(__tmp"@ + spec_u32_dec(r) + ") = __tmp"@ + spec_u32_dec(r)
                    + " {\n"@ + "Some(__tmp"@ + spec_u32_dec(l) + spec_render_opcode(op) + "__tmp"@
                    + spec_u32_dec(r) + ")"@ + "} else { None }\n"@ + "} else { None }\n"@
            }
        },
        ExprIRModel::Constant(v) => spec_i32_dec(v) + "\n"@,
    }
}

/// One assignment: a let binding of the rendered right-hand side.
pub open spec fn spec_render_assign_ir(a: AssignIRModel) -> Seq<char> {
    "let __tmp"@ + spec_u32_dec(a.id) + " = "@ + spec_render_expr_ir(a.rightop) + ";\n"@
}

pub open spec fn spec_render_ir(instructions: Seq<AssignIRModel>) -> Seq<char>
    decreases instructions.len(),
{
    if instructions.len() == 0 {
        Seq::empty()
    } else {
        spec_render_assign_ir(instructions[0]) + spec_render_ir(instructions.drop_first())
    }
}

pub proof fn lemma_render_ir_snoc(s: Seq<AssignIRModel>, x: AssignIRModel)
    ensures
        spec_render_ir(s.push(x)) == spec_render_ir(s) + spec_render_assign_ir(x),
    decreases s.len(),
{
    if s.len() == 0 {
        assert(s.push(x).drop_first() =~= Seq::<AssignIRModel>::empty());
        assert(spec_render_ir(s.push(x).drop_first()) == Seq::<char>::empty());
        assert(s.push(x)[0] == x);
        assert(spec_render_ir(s.push(x)) =~= spec_render_ir(s) + spec_render_assign_ir(x));
    } else {
        assert(s.push(x).drop_first() =~= s.drop_first().push(x));
        lemma_render_ir_snoc(s.drop_first(), x);
        assert(spec_render_ir(s.push(x)) =~= spec_render_ir(s) + spec_render_assign_ir(x));
    }
}

impl crate::codegen::DotPath {
    /// Appends this access path as it prints.
    pub fn render(&self, output: &mut String)
        ensures
            final(output)@ == old(output)@ + spec_render_dot_path(dot_path_model(*self)),
    {
        if self.is_composite {
            output.append(self.path.as_str());
        } else {
            output.append("*");
            output.append(self.path.as_str());
            proof {
                reveal_strlit("*");
                assert(final(output)@ =~= old(output)@ + spec_render_dot_path(
                    dot_path_model(*self),
                ));
            }
        }
    }
}

impl OpCode {
    /// Appends the operator's source form.
    pub fn render(&self, output: &mut String)
        ensures
            final(output)@ == old(output)@ + spec_render_opcode(*self),
    {
        match self {
            OpCode::Add => output.append("+"),
            OpCode::Sub => output.append("-"),
            OpCode::Or => output.append("||"),
            OpCode::Mul => output.append("*"),
            OpCode::Div => output.append("/"),
            OpCode::Pow => output.append("^"),
            OpCode::Mod => output.append("%"),
            OpCode::And => output.append("&&"),
            OpCode::EqEq => output.append("=="),
            OpCode::NotEq => output.append("!="),
            OpCode::LessThan => output.append("<"),
            OpCode::GreaterThan => output.append(">"),
            OpCode::LessThanOrEq => output.append("<="),
            OpCode::GreaterThanOrEq => output.append(">="),
        }
    }
}

impl PathIR {
    /// Appends the nested conditionals this tree prints as.
    pub fn render(&self, output: &mut String)
        ensures
            final(output)@ == old(output)@ + spec_render_path_ir(path_ir_model(*self)),
        decreases *self, 3int,
    {
        proof {
            reveal_strlit("match ");
            reveal_strlit(" {\n");
            reveal_strlit("}\n");
            reveal_strlit("match IntoIterator::into_iter(");
            reveal_strlit(").next() {\n");
            reveal_strlit("Some(");
            reveal_strlit(") => {\n");
            reveal_strlit("None => None,\n");
            reveal_strlit(" { ref ");
            reveal_strlit(" } => {\n");
            reveal_strlit("_ => None,\n");
            reveal_strlit(")\n");
        }
        match self {
            PathIR::Match { path, children } => {
                output.append("match ");
                path.render(output);
                output.append(" {\n");
                let ghost mid = output@;
                let mut i: usize = 0;
                while i < children.len()
                    invariant
                        i <= children@.len(),
                        (*self) is Match,
                        children@ == (*self)->Match_children@,
                        output@ == mid + spec_render_path_irs(path_irs_model(children@).take(
                            i as int,
                        )),
                    decreases children@.len() - i,
                {
                    let ghost pre = path_irs_model(children@).take(i as int);
                    proof {
                        assert(decreases_to!(*self => (*self)->Match_children));
                        assert(decreases_to!((*self)->Match_children => (*self)->Match_children@));
                        assert(decreases_to!((*self)->Match_children@ => (*self)->Match_children@[i as int]));
                        assert(decreases_to!(*self => children@[i as int]));
                    }
                    children[i].render(output);
                    proof {
                        lemma_render_path_irs_snoc(pre, path_ir_model(children@[i as int]));
                        assert(pre.push(path_ir_model(children@[i as int])) =~= path_irs_model(
                            children@,
                        ).take(i + 1));
                    }
                    i = i + 1;
                }
                proof {
                    assert(path_irs_model(children@).take(children@.len() as int) =~= path_irs_model(
                        children@,
                    ));
                }
                output.append("}\n");
                proof {
                    assert(final(output)@ =~= old(output)@ + spec_render_path_ir(
                        path_ir_model(*self),
                    ));
                }
            },
            PathIR::IntoIter { path, then } => {
                output.append("match IntoIterator::into_iter(");
                path.render(output);
                output.append(").next() {\n");
                output.append("Some(");
                path.render(output);
                output.append(") => {\n");
                then.render(output);
                output.append("}\n");
                output.append("None => None,\n");
                output.append("}\n");
                proof {
                    assert(final(output)@ =~= old(output)@ + spec_render_path_ir(
                        path_ir_model(*self),
                    ));
                }
            },
            PathIR::Variant { path, name, then } => {
                output.append(name.as_str());
                output.append(" { ref ");
                output.append(path.as_str());
                output.append(" } => {\n");
                then.render(output);
                output.append("}\n");
                proof {
                    assert(final(output)@ =~= old(output)@ + spec_render_path_ir(
                        path_ir_model(*self),
                    ));
                }
            },
            PathIR::VariantNone => {
                output.append("_ => None,\n");
                proof {
                    assert(final(output)@ =~= old(output)@ + spec_render_path_ir(
                        path_ir_model(*self),
                    ));
                }
            },
            PathIR::Present { path } => {
                output.append("Some(");
                output.append(path.as_str());
                output.append(")\n");
                proof {
                    assert(final(output)@ =~= old(output)@ + spec_render_path_ir(
                        path_ir_model(*self),
                    ));
                }
            },
        }
    }
}

impl ExprIR {
    /// Appends the source of one right-hand side.
    #[verifier::rlimit(60)]
    pub fn render(&self, output: &mut String)
        ensures
            final(output)@ == old(output)@ + spec_render_expr_ir(expr_ir_model(*self)),
    {
        proof {
            reveal_strlit("if let Some(__tmp");
            reveal_strlit(") = __tmp");
            reveal_strlit(" {\n");
            reveal_strlit("Some(__tmp");
            reveal_strlit("__tmp");
            reveal_strlit(")");
            reveal_strlit("} else { None }\n");
            reveal_strlit("\n");
        }
        match self {
            ExprIR::Path(p) => {
                p.render(output);
            },
            ExprIR::BinaryOp(left, op, right) => {
                if left.id == right.id {
                    output.append("if let Some(__tmp");
                    append_u32(output, left.id);
                    output.append(") = __tmp");
                    append_u32(output, left.id);
                    output.append(" {\n");
                    output.append("Some(__tmp");
                    append_u32(output, left.id);
                    op.render(output);
                    output.append("__tmp");
                    append_u32(output, left.id);
                    output.append(")");
                    output.append("} else { None }\n");
                } else {
                    output.append("if let Some(__tmp");
                    append_u32(output, left.id);
                    output.append(") = __tmp");
                    append_u32(output, left.id);
                    output.append(" {\n");
                    output.append("if let Some(__tmp");
                    append_u32(output, right.id);
                    output.append(") = __tmp");
                    append_u32(output, right.id);
                    output.append(" {\n");
                    output.append("Some(__tmp");
                    append_u32(output, left.id);
                    op.render(output);
                    output.append("__tmp");
                    append_u32(output, right.id);
                    output.append(")");
                    output.append("} else { None }\n");
                    output.append("} else { None }\n");
                }
                proof {
                    assert(final(output)@ =~= old(output)@ + spec_render_expr_ir(
                        expr_ir_model(*self),
                    ));
                }
            },
            ExprIR::Constant(v) => {
                append_i32(output, *v);
                output.append("\n");
                proof {
                    assert(final(output)@ =~= old(output)@ + spec_render_expr_ir(
                        expr_ir_model(*self),
                    ));
                }
            },
        }
    }
}

impl AssignIR {
    /// Appends the let binding this assignment prints as.
    pub fn render(&self, output: &mut String)
        ensures
            final(output)@ == old(output)@ + spec_render_assign_ir(assign_ir_model(*self)),
    {
        proof {
            reveal_strlit("let __tmp");
            reveal_strlit(" = ");
            reveal_strlit(";\n");
        }
        output.append("let __tmp");
        append_u32(output, self.leftop.id);
        output.append(" = ");
        self.rightop.render(output);
        output.append(";\n");
        proof {
            assert(final(output)@ =~= old(output)@ + spec_render_assign_ir(
                assign_ir_model(*self),
            ));
        }
    }
}

impl IR {
    /// Appends every assignment in order.
    pub fn render(&self, output: &mut String)
        ensures
            final(output)@ == old(output)@ + spec_render_ir(ir_model(self.instructions@)),
    {
        let mut i: usize = 0;
        while i < self.instructions.len()
            invariant
                i <= self.instructions@.len(),
                output@ == old(output)@ + spec_render_ir(
                    ir_model(self.instructions@).take(i as int),
                ),
            decreases self.instructions@.len() - i,
        {
            let ghost pre = ir_model(self.instructions@).take(i as int);
            self.instructions[i].render(output);
            proof {
                lemma_render_ir_snoc(pre, assign_ir_model(self.instructions@[i as int]));
                assert(pre.push(assign_ir_model(self.instructions@[i as int])) =~= ir_model(
                    self.instructions@,
                ).take(i + 1));
            }
            i = i + 1;
        }
        proof {
            assert(ir_model(self.instructions@).take(self.instructions@.len() as int)
                =~= ir_model(self.instructions@));
        }
    }
}

} // verus!
