use vstd::prelude::*;
use crate::ast::{Constant, Expr, OpCode, PathExpr};
use crate::pathexpr::{LinPath, PathItem, PropKind, into_linpath, spec_linpath};
use crate::store::{EnumVariant, StoreType, VariantType, field_lookup, spec_field_lookup};

verus! {

// Lowering of an expression, checked against the store schema, into a
// linear sequence of single-assignment instructions. A path access is
// compiled into a tree of matches, option unwraps and field reads; the
// contracts of this module state the outcome through ghost models of
// those trees, so that every string and every arm of the result is
// pinned down.
/// The lowered form of one expression: an ordered list of assignments,
/// each to a fresh variable id.
#[derive(Debug, PartialEq)]
pub struct IR {
    pub instructions: Vec<AssignIR>,
}

#[derive(Debug, PartialEq)]
pub struct AssignIR {
    pub leftop: VarIR,
    pub rightop: ExprIR,
}

/// The variable an assignment defines. Ids grow by one per assignment,
/// so an id also names the position of its assignment.
#[derive(Debug, PartialEq, Eq, Clone, Copy, Structural)]
pub struct VarIR {
    pub id: u32,
}

#[derive(Debug, PartialEq)]
pub enum ExprIR {
    /// A path access, compiled against the schema.
    Path(PathIR),
    /// A binary operation over two earlier assignments, named by id.
    BinaryOp(VarIR, OpCode, VarIR),
    /// An integer constant.
    Constant(i32),
}

/// An access path in the generated code: either a plain binder or a
/// dotted chain hanging off one.
#[derive(Debug, PartialEq)]
pub struct DotPath {
    pub is_composite: bool,
    pub path: String,
}

impl DotPath {
    pub fn composite(path: String) -> (r: DotPath)
        ensures
            r.is_composite == true,
            r.path == path,
    {
        DotPath { is_composite: true, path }
    }

    pub fn simple(path: String) -> (r: DotPath)
        ensures
            r.is_composite == false,
            r.path == path,
    {
        DotPath { is_composite: false, path }
    }
}

/// How a path access destructures the data it walks: an enum dispatch, an
/// option unwrap, one variant arm, a found leaf, or the catch-all arm
/// that yields absence.
#[derive(Debug, PartialEq)]
pub enum PathIR {
    Match { path: DotPath, children: Vec<PathIR> },
    IntoIter { path: DotPath, then: Box<PathIR> },
    Variant { path: String, name: String, then: Box<PathIR> },
    Present { path: String },
    VariantNone,
}

// Ghost models: the same trees with every string replaced by its
// character sequence, so specifications can speak of them.
pub struct DotPathModel {
    pub is_composite: bool,
    pub path: Seq<char>,
}

pub enum PathIRModel {
    Match { path: DotPathModel, children: Seq<PathIRModel> },
    IntoIter { path: DotPathModel, then: Box<PathIRModel> },
    Variant { path: Seq<char>, name: Seq<char>, then: Box<PathIRModel> },
    Present { path: Seq<char> },
    VariantNone,
}

pub open spec fn dot_path_model(d: DotPath) -> DotPathModel {
    DotPathModel { is_composite: d.is_composite, path: d.path@ }
}

pub open spec fn path_ir_model(p: PathIR) -> PathIRModel
    decreases p, 1int,
{
    match p {
        PathIR::Match { path, children } => PathIRModel::Match {
            path: dot_path_model(path),
            children: path_irs_model(children@),
        },
        PathIR::IntoIter { path, then } => PathIRModel::IntoIter {
            path: dot_path_model(path),
            then: Box::new(path_ir_model(*then)),
        },
        PathIR::Variant { path, name, then } => PathIRModel::Variant {
            path: path@,
            name: name@,
            then: Box::new(path_ir_model(*then)),
        },
        PathIR::Present { path } => PathIRModel::Present { path: path@ },
        PathIR::VariantNone => PathIRModel::VariantNone,
    }
}

pub open spec fn path_irs_model(s: Seq<PathIR>) -> Seq<PathIRModel>
    decreases s, 2int,
{
    Seq::new(
        s.len(),
        |i: int|
            if 0 <= i < s.len() {
                path_ir_model(s[i])
            } else {
                PathIRModel::VariantNone
            },
    )
}

/// Taking the model of a list of trees commutes with appending a tree.
pub proof fn lemma_path_irs_model_push(s: Seq<PathIR>, x: PathIR)
    ensures
        path_irs_model(s.push(x)) =~= path_irs_model(s).push(path_ir_model(x)),
{
}

// The folding rules, root to leaf over (remaining path, schema shape).
// `i` is the index of the step that addressed `ct`.
/// The leaf rule: a path may end only on text or a number, reached by a
/// named step.
pub open spec fn spec_fold_leaf(ct: StoreType, path: Seq<PathItem>) -> Option<PathIRModel> {
    match ct {
        StoreType::Str | StoreType::Number => {
            if path.len() > 0 && path.last().prop is Str {
                Some(PathIRModel::Present { path: path.last().prop->Str_0@ })
            } else {
                None
            }
        },
        _ => None,
    }
}

/// Prefixes the step that addressed a field onto the access path of what
/// the field folded into. Only the three shapes the fold can produce
/// appear here; the step must be a named one.
pub open spec fn spec_prefix_field(prop: Seq<char>, folded: PathIRModel) -> Option<PathIRModel> {
    match folded {
        PathIRModel::Match { path, children } => Some(
            PathIRModel::Match {
                path: DotPathModel {
                    is_composite: true,
                    path: prop + seq!['.'] + path.path,
                },
                children,
            },
        ),
        PathIRModel::IntoIter { path, then } => Some(
            PathIRModel::IntoIter {
                path: DotPathModel {
                    is_composite: true,
                    path: prop + seq!['.'] + path.path,
                },
                then,
            },
        ),
        PathIRModel::Present { path } => Some(
            PathIRModel::Present { path: prop + seq!['.'] + path },
        ),
        _ => None,
    }
}

/// Wraps what an optional shape folded into inside the unwrapping step;
/// the step must be a named one.
pub open spec fn spec_wrap_option(
    folded: Option<PathIRModel>,
    path: Seq<PathItem>,
    i: int,
) -> Option<PathIRModel> {
    match folded {
        Option::Some(f) => {
            if 0 <= i < path.len() && path[i].prop is Str {
                Some(
                    PathIRModel::IntoIter {
                        path: DotPathModel { is_composite: false, path: path[i].prop->Str_0@ },
                        then: Box::new(f),
                    },
                )
            } else {
                None
            }
        },
        Option::None => None,
    }
}

pub open spec fn spec_fold(ct: StoreType, path: Seq<PathItem>, i: int) -> Option<PathIRModel>
    decreases ct, 2int, 0int,
{
    if !(0 <= i < path.len()) {
        None
    } else {
        let is_last = i + 1 == path.len();
        match ct {
            StoreType::Optional(opt) => {
                if path[i].is_optional {
                    spec_wrap_option(spec_fold(*opt, path, i), path, i)
                } else if is_last {
                    spec_fold_leaf(ct, path)
                } else {
                    None
                }
            },
            StoreType::Struct { fields } => {
                if is_last {
                    spec_fold_leaf(ct, path)
                } else if path[i + 1].prop is Str && path[i].prop is Str {
                    match spec_field_lookup(fields@, path[i + 1].prop->Str_0@) {
                        Option::Some(j) => if 0 <= j < fields@.len() {
                            match spec_fold(fields@[j].1, path, i + 1) {
                                Option::Some(folded) => spec_prefix_field(
                                    path[i].prop->Str_0@,
                                    folded,
                                ),
                                Option::None => None,
                            }
                        } else {
                            None
                        },
                        Option::None => None,
                    }
                } else {
                    None
                }
            },
            StoreType::Array { elements } => {
                if is_last {
                    spec_fold_leaf(ct, path)
                } else if path[i + 1].prop matches PropKind::Int(idx) && idx < elements@.len()
                    && path[i].prop is Str {
                    match spec_fold(elements@[path[i + 1].prop->Int_0 as int], path, i + 1) {
                        Option::Some(folded) => spec_prefix_field(path[i].prop->Str_0@, folded),
                        Option::None => None,
                    }
                } else {
                    None
                }
            },
            StoreType::Enum { variants } => {
                if is_last {
                    spec_fold_leaf(ct, path)
                } else if path[i + 1].is_optional && path[i + 1].prop is Str && path[i].prop
                    is Str {
                    let arms = spec_fold_arms(variants@, path, i, 0);
                    if arms.len() == 0 {
                        None
                    } else {
                        let with_none = if arms.len() < variants@.len() {
                            arms.push(PathIRModel::VariantNone)
                        } else {
                            arms
                        };
                        Some(
                            PathIRModel::Match {
                                path: DotPathModel {
                                    is_composite: false,
                                    path: path[i].prop->Str_0@,
                                },
                                children: with_none,
                            },
                        )
                    }
                } else {
                    None
                }
            },
            StoreType::UnboundedArray { .. } => {
                if is_last {
                    spec_fold_leaf(ct, path)
                } else {
                    // Folding an index into an unbounded array needs
                    // value-level folding, which the compiler cannot do
                    // yet: the binding is rejected.
                    None
                }
            },
            _ => {
                if is_last {
                    spec_fold_leaf(ct, path)
                } else {
                    None
                }
            },
        }
    }
}

/// The arms an enum dispatch generates: one per variant, from `k` on,
/// that resolves the rest of the path, in variant order.
pub open spec fn spec_fold_arms(
    variants: Seq<EnumVariant>,
    path: Seq<PathItem>,
    i: int,
    k: int,
) -> Seq<PathIRModel>
    decreases variants, 1int, variants.len() - k,
{
    if 0 <= k < variants.len() {
        let rest = spec_fold_arms(variants, path, i, k + 1);
        match spec_fold_variant(variants[k].variant_type, path, i) {
            Option::Some(folded) => Seq::empty().push(
                PathIRModel::Variant {
                    name: variants[k].name@,
                    path: path[i + 1].prop->Str_0@,
                    then: Box::new(folded),
                },
            ) + rest,
            Option::None => rest,
        }
    } else {
        Seq::empty()
    }
}

/// Compiles a linearized path against the schema into a `PathIR` tree.
/// Each method returns exactly what the corresponding folding rule says.
pub struct CompileFolder;

impl CompileFolder {
    /// Folds the schema shape `ct`, addressed by the step `cur_index`,
    /// against the rest of the path.
    pub fn fold(&mut self, ct: &StoreType, path: &LinPath, cur_index: usize) -> (r: Option<PathIR>)
        requires
            cur_index < path@.len(),
        ensures
            match r {
                Option::Some(p) => spec_fold(*ct, path@, cur_index as int) == Some(path_ir_model(p))
                    && !(p is Variant) && !(p is VariantNone),
                Option::None => spec_fold(*ct, path@, cur_index as int) is None,
            },
        decreases *ct, 2int, 0int,
    {
        let n = path.len();
        let is_last = cur_index + 1 == n;
        match ct {
            StoreType::Optional(opt) => {
                if path[cur_index].is_optional {
                    self.fold_option(opt, path, cur_index)
                } else if is_last {
                    self.fold_leaf(ct, path)
                } else {
                    None
                }
            },
            StoreType::Struct { fields } => {
                if is_last {
                    self.fold_leaf(ct, path)
                } else if matches!(path[cur_index + 1].prop, PropKind::Str(_)) && matches!(
                    path[cur_index].prop,
                    PropKind::Str(_),
                ) {
                    let prop = path[cur_index + 1].prop_str();
                    match field_lookup(fields, &prop) {
                        Some(field) => self.fold_field(field, path, cur_index + 1),
                        None => None,
                    }
                } else {
                    None
                }
            },
            StoreType::Array { elements } => {
                if is_last {
                    self.fold_leaf(ct, path)
                } else {
                    let idx_ok = match &path[cur_index + 1].prop {
                        PropKind::Int(idx) => *idx < elements.len(),
                        PropKind::Str(_) => false,
                    };
                    if idx_ok && matches!(path[cur_index].prop, PropKind::Str(_)) {
                        let idx = match &path[cur_index + 1].prop {
                            PropKind::Int(idx) => *idx,
                            PropKind::Str(_) => 0,
                        };
                        self.fold_field(&elements[idx], path, cur_index + 1)
                    } else {
                        None
                    }
                }
            },
            StoreType::Enum { variants } => {
                if is_last {
                    self.fold_leaf(ct, path)
                } else if path[cur_index + 1].is_optional && matches!(
                    path[cur_index + 1].prop,
                    PropKind::Str(_),
                ) && matches!(path[cur_index].prop, PropKind::Str(_)) {
                    self.fold_variants(variants, path, cur_index)
                } else {
                    None
                }
            },
            StoreType::UnboundedArray { .. } => {
                if is_last {
                    self.fold_leaf(ct, path)
                } else {
                    None
                }
            },
            _ => {
                if is_last {
                    self.fold_leaf(ct, path)
                } else {
                    None
                }
            },
        }
    }

    /// The leaf rule of the fold.
    pub fn fold_leaf(&mut self, last_type: &StoreType, path: &LinPath) -> (r: Option<PathIR>)
        requires
            path@.len() > 0,
        ensures
            match r {
                Option::Some(p) => spec_fold_leaf(*last_type, path@) == Some(path_ir_model(p)) && p
                    is Present,
                Option::None => spec_fold_leaf(*last_type, path@) is None,
            },
    {
        match last_type {
            StoreType::Str | StoreType::Number => {
                let last = &path[path.len() - 1];
                match &last.prop {
                    PropKind::Str(st) => Some(PathIR::Present { path: st.clone() }),
                    PropKind::Int(_) => None,
                }
            },
            _ => None,
        }
    }

    /// Folds a field's shape and prefixes the step that addressed it onto
    /// the resulting access path. `cur_index` already names the field's
    /// own step; the prefix comes from the step before it.
    pub fn fold_field(&mut self, field_type: &StoreType, full_path: &LinPath, cur_index: usize) -> (r:
        Option<PathIR>)
        requires
            1 <= cur_index < full_path@.len(),
            full_path@[cur_index - 1].prop is Str,
        ensures
            match r {
                Option::Some(p) => spec_fold(*field_type, full_path@, cur_index as int) matches Some(
                    folded,
                ) && spec_prefix_field(full_path@[cur_index - 1].prop->Str_0@, folded) == Some(
                    path_ir_model(p),
                ) && !(p is Variant) && !(p is VariantNone),
                Option::None => spec_fold(*field_type, full_path@, cur_index as int) is None,
            },
        decreases *field_type, 3int, 0int,
    {
        let folded = self.fold(field_type, full_path, cur_index);
        match folded {
            Some(PathIR::Match { path, children }) => {
                let prefixed = Self::concat(full_path[cur_index - 1].prop_str(), &path.path);
                Some(PathIR::Match { path: DotPath::composite(prefixed), children })
            },
            Some(PathIR::IntoIter { path, then }) => {
                let prefixed = Self::concat(full_path[cur_index - 1].prop_str(), &path.path);
                Some(PathIR::IntoIter { path: DotPath::composite(prefixed), then })
            },
            Some(PathIR::Present { path }) => {
                let prefixed = Self::concat(full_path[cur_index - 1].prop_str(), &path);
                Some(PathIR::Present { path: prefixed })
            },
            Some(_) => {
                proof {
                    assert(false);
                }
                None
            },
            None => None,
        }
    }

    /// `prop`, a dot, then `rest`.
    fn concat(prop: String, rest: &String) -> (r: String)
        ensures
            r@ == prop@ + seq!['.'] + rest@,
    {
        let mut s = prop;
        s.append(".");
        s.append(rest.as_str());
        proof {
            reveal_strlit(".");
            assert(s@ =~= prop@ + seq!['.'] + rest@);
        }
        s
    }

    /// Builds one match arm per variant that resolves the rest of the
    /// path, in variant order, and a catch-all arm exactly when some
    /// variant did not resolve.
    pub fn fold_variants(&mut self, variants: &Vec<EnumVariant>, path: &LinPath, cur_index: usize) -> (r:
        Option<PathIR>)
        requires
            cur_index + 1 < path@.len(),
            path@[cur_index as int].prop is Str,
            path@[cur_index + 1].prop is Str,
        ensures
            ({
                let arms = spec_fold_arms(variants@, path@, cur_index as int, 0);
                match r {
                    Option::Some(p) => arms.len() > 0 && p is Match && path_ir_model(p)
                        == PathIRModel::Match {
                        path: DotPathModel {
                            is_composite: false,
                            path: path@[cur_index as int].prop->Str_0@,
                        },
                        children: if arms.len() < variants@.len() {
                            arms.push(PathIRModel::VariantNone)
                        } else {
                            arms
                        },
                    },
                    Option::None => arms.len() == 0,
                }
            }),
        decreases *variants, 3int, 0int,
    {
        let n = path.len();
        let mut children: Vec<PathIR> = Vec::new();
        let mut k: usize = 0;
        while k < variants.len()
            invariant
                k <= variants@.len(),
                cur_index + 1 < path@.len(),
                path@.len() <= usize::MAX,
                path@[cur_index as int].prop is Str,
                path@[cur_index + 1].prop is Str,
                spec_fold_arms(variants@, path@, cur_index as int, 0) == path_irs_model(children@)
                    + spec_fold_arms(variants@, path@, cur_index as int, k as int),
                children@.len() <= k,
            decreases variants@.len() - k,
        {
            let ghost arms_before = path_irs_model(children@);
            match self.fold_variant(&variants[k].variant_type, path, cur_index) {
                Some(folded) => {
                    let arm = PathIR::Variant {
                        name: variants[k].name.clone(),
                        path: path[cur_index + 1].prop_str(),
                        then: Box::new(folded),
                    };
                    proof {
                        lemma_path_irs_model_push(children@, arm);
                        assert(arms_before.push(path_ir_model(arm)) + spec_fold_arms(
                            variants@,
                            path@,
                            cur_index as int,
                            k + 1,
                        ) =~= arms_before + (Seq::empty().push(path_ir_model(arm))
                            + spec_fold_arms(variants@, path@, cur_index as int, k + 1)));
                    }
                    children.push(arm);
                },
                None => {
                },
            }
            k = k + 1;
        }
        proof {
            assert(spec_fold_arms(variants@, path@, cur_index as int, 0) =~= path_irs_model(
                children@,
            ));
        }
        if children.len() > 0 {
            let some_missing = children.len() < variants.len();
            let ghost arms = path_irs_model(children@);
            if some_missing {
                proof {
                    lemma_path_irs_model_push(children@, PathIR::VariantNone);
                }
                children.push(PathIR::VariantNone);
                proof {
                    assert(path_irs_model(children@) =~= arms.push(PathIRModel::VariantNone));
                }
            }
            Some(PathIR::Match { path: DotPath::simple(path[cur_index].prop_str()), children })
        } else {
            None
        }
    }

    /// Folds one variant of an enum shape against the step after the
    /// optional guard.
    pub fn fold_variant(&mut self, variant: &VariantType, path: &LinPath, cur_index: usize) -> (r:
        Option<PathIR>)
        requires
            cur_index + 1 < path@.len(),
        ensures
            match r {
                Option::Some(p) => spec_fold_variant(*variant, path@, cur_index as int) == Some(
                    path_ir_model(p),
                ) && !(p is Variant) && !(p is VariantNone),
                Option::None => spec_fold_variant(*variant, path@, cur_index as int) is None,
            },
        decreases *variant, 3int, 0int,
    {
        let n = path.len();
        match variant {
            VariantType::Struct { fields } => {
                if matches!(path[cur_index + 1].prop, PropKind::Str(_)) {
                    let prop = path[cur_index + 1].prop_str();
                    match field_lookup(fields, &prop) {
                        Some(field) => self.fold(field, path, cur_index + 1),
                        None => None,
                    }
                } else {
                    None
                }
            },
            VariantType::Tuple { elements } => {
                let idx_ok = match &path[cur_index + 1].prop {
                    PropKind::Int(idx) => *idx < elements.len(),
                    PropKind::Str(_) => false,
                };
                if idx_ok {
                    let idx = match &path[cur_index + 1].prop {
                        PropKind::Int(idx) => *idx,
                        PropKind::Str(_) => 0,
                    };
                    self.fold(&elements[idx], path, cur_index + 1)
                } else {
                    None
                }
            },
        }
    }

    /// Folds the shape wrapped by an option and wraps the result in the
    /// unwrapping step.
    pub fn fold_option(&mut self, opt_wrapped_value: &StoreType, path: &LinPath, cur_index: usize) -> (r:
        Option<PathIR>)
        requires
            cur_index < path@.len(),
            path@[cur_index as int].is_optional,
        ensures
            match r {
                Option::Some(p) => spec_wrap_option(
                    spec_fold(*opt_wrapped_value, path@, cur_index as int),
                    path@,
                    cur_index as int,
                ) == Some(path_ir_model(p)) && p is IntoIter,
                Option::None => spec_wrap_option(
                    spec_fold(*opt_wrapped_value, path@, cur_index as int),
                    path@,
                    cur_index as int,
                ) is None,
            },
        decreases *opt_wrapped_value, 3int, 0int,
    {
        match self.fold(opt_wrapped_value, path, cur_index) {
            Some(folded) => {
                if matches!(path[cur_index].prop, PropKind::Str(_)) {
                    Some(
                        PathIR::IntoIter {
                            path: DotPath::simple(path[cur_index].prop_str()),
                            then: Box::new(folded),
                        },
                    )
                } else {
                    None
                }
            },
            None => None,
        }
    }
}

/// One variant: a record variant is entered through a named step, a
/// tuple variant through an index step; the step after the guard decides.
pub open spec fn spec_fold_variant(vt: VariantType, path: Seq<PathItem>, i: int) -> Option<
    PathIRModel,
>
    decreases vt, 2int, 0int,
{
    if !(0 <= i && i + 1 < path.len()) {
        None
    } else {
        match vt {
            VariantType::Struct { fields } => {
                if path[i + 1].prop is Str {
                    match spec_field_lookup(fields@, path[i + 1].prop->Str_0@) {
                        Option::Some(j) => if 0 <= j < fields@.len() {
                            spec_fold(fields@[j].1, path, i + 1)
                        } else {
                            None
                        },
                        Option::None => None,
                    }
                } else {
                    None
                }
            },
            VariantType::Tuple { elements } => {
                if path[i + 1].prop matches PropKind::Int(idx) && idx < elements@.len() {
                    spec_fold(elements@[path[i + 1].prop->Int_0 as int], path, i + 1)
                } else {
                    None
                }
            },
        }
    }
}

/// How many variants from `k` on resolve the rest of the path.
pub open spec fn spec_resolved_count(
    variants: Seq<EnumVariant>,
    path: Seq<PathItem>,
    i: int,
    k: int,
) -> int
    decreases variants.len() - k,
{
    if 0 <= k < variants.len() {
        (if spec_fold_variant(variants[k].variant_type, path, i) is Some {
            1int
        } else {
            0int
        }) + spec_resolved_count(variants, path, i, k + 1)
    } else {
        0
    }
}

/// An enum dispatch carries one arm per variant that resolves the rest
/// of the path, and nothing else: the arm list is exactly as long as the
/// count of resolving variants, and every arm is a variant arm.
pub proof fn lemma_arms_are_resolving_variants(
    variants: Seq<EnumVariant>,
    path: Seq<PathItem>,
    i: int,
    k: int,
)
    ensures
        spec_fold_arms(variants, path, i, k).len() == spec_resolved_count(variants, path, i, k),
        forall|j: int|
            0 <= j < spec_fold_arms(variants, path, i, k).len() ==> (#[trigger] spec_fold_arms(
                variants,
                path,
                i,
                k,
            )[j]) is Variant,
    decreases variants.len() - k,
{
    if 0 <= k < variants.len() {
        lemma_arms_are_resolving_variants(variants, path, i, k + 1);
    }
}

/// The schema-folding exhaustiveness law. When a path reaches an enum
/// shape under an optional guard, the generated match holds exactly one
/// arm per variant that resolves the rest of the path; if some variant
/// does not resolve, one trailing catch-all arm yields absence, and if
/// every variant resolves, no catch-all is added. With no resolving
/// variant, no dispatch is generated at all.
pub proof fn lemma_enum_dispatch_exhaustive(ct: StoreType, path: Seq<PathItem>, i: int)
    requires
        0 <= i,
        i + 1 < path.len(),
        path[i + 1].is_optional,
        path[i + 1].prop is Str,
        path[i].prop is Str,
    ensures
        ct matches StoreType::Enum { variants } ==> ({
            let arms = spec_fold_arms(variants@, path, i, 0);
            let count = spec_resolved_count(variants@, path, i, 0);
            let folded = spec_fold(ct, path, i);
            &&& arms.len() == count
            &&& (count == 0 ==> folded is None)
            &&& (0 < count < variants@.len() ==> (folded matches Some(m) && m matches PathIRModel::Match { path: dp, children } && children.len() == count + 1 && children.last() == PathIRModel::VariantNone && (forall|j: int| 0 <= j < count ==> (#[trigger] children[j]) is Variant)))
            &&& (count == variants@.len() && count > 0 ==> (folded matches Some(m) && m matches PathIRModel::Match { path: dp, children } && children.len() == count && (forall|j: int| 0 <= j < count ==> (#[trigger] children[j]) is Variant)))
        }),
{
    match ct {
        StoreType::Enum { variants } => {
            lemma_arms_are_resolving_variants(variants@, path, i, 0);
        },
        _ => {},
    }
}

// The expression folder: lowers an expression to the assignment list,
// handing each node a fresh id. The ghost mirror of the result pins the
// whole list down.
pub enum ExprIRModel {
    Path(PathIRModel),
    BinaryOp(u32, OpCode, u32),
    Constant(i32),
}

pub struct AssignIRModel {
    pub id: u32,
    pub rightop: ExprIRModel,
}

pub open spec fn expr_ir_model(e: ExprIR) -> ExprIRModel {
    match e {
        ExprIR::Path(p) => ExprIRModel::Path(path_ir_model(p)),
        ExprIR::BinaryOp(l, op, r) => ExprIRModel::BinaryOp(l.id, op, r.id),
        ExprIR::Constant(v) => ExprIRModel::Constant(v),
    }
}

pub open spec fn assign_ir_model(a: AssignIR) -> AssignIRModel {
    AssignIRModel { id: a.leftop.id, rightop: expr_ir_model(a.rightop) }
}

pub open spec fn ir_model(instructions: Seq<AssignIR>) -> Seq<AssignIRModel> {
    Seq::new(
        instructions.len(),
        |i: int|
            if 0 <= i < instructions.len() {
                assign_ir_model(instructions[i])
            } else {
                AssignIRModel { id: 0, rightop: ExprIRModel::Constant(0) }
            },
    )
}

/// Taking the model of an assignment list commutes with appending.
pub proof fn lemma_ir_model_push(s: Seq<AssignIR>, x: AssignIR)
    ensures
        ir_model(s.push(x)) =~= ir_model(s).push(assign_ir_model(x)),
{
}

/// Why an expression could not be lowered.
#[derive(Debug, PartialEq, Eq, Clone, Copy, Structural)]
pub enum IrError {
    /// Negation and sign expressions have no lowering yet.
    UnsupportedExpr,
    /// Only integer constants have a lowering yet.
    UnsupportedConstant,
    /// The path uses a step the linearization leaves out.
    InvalidPath,
    /// The schema rejects the path: the binding is ill-typed.
    PathNotResolved,
    /// The variable ids ran out.
    TooManyVariables,
}

/// The lowering of `e` against `store`, starting at the fresh id
/// `next_id`: the id holding the result, the next fresh id, and the
/// assignments emitted, in order.
pub open spec fn spec_fold_expr(e: Expr, store: StoreType, next_id: u32) -> Result<
    (u32, u32, Seq<AssignIRModel>),
    IrError,
>
    decreases e,
{
    match e {
        Expr::Constant(c) => match c {
            Constant::Integer(v) => if next_id == u32::MAX {
                Err(IrError::TooManyVariables)
            } else {
                Ok(
                    (
                        next_id,
                        (next_id + 1) as u32,
                        Seq::empty().push(
                            AssignIRModel { id: next_id, rightop: ExprIRModel::Constant(v) },
                        ),
                    ),
                )
            },
            _ => Err(IrError::UnsupportedConstant),
        },
        Expr::PathExpr(pe) => if next_id == u32::MAX {
            Err(IrError::TooManyVariables)
        } else {
            match spec_linpath(pe) {
                Option::Some(lp) => match spec_fold(store, lp, 0) {
                    Option::Some(pir) => Ok(
                        (
                            next_id,
                            (next_id + 1) as u32,
                            Seq::empty().push(
                                AssignIRModel { id: next_id, rightop: ExprIRModel::Path(pir) },
                            ),
                        ),
                    ),
                    Option::None => Err(IrError::PathNotResolved),
                },
                Option::None => Err(IrError::InvalidPath),
            }
        },
        Expr::BinaryOp(l, op, r) => if next_id == u32::MAX {
            Err(IrError::TooManyVariables)
        } else {
            match spec_fold_expr(*l, store, (next_id + 1) as u32) {
                Result::Ok((lid, n1, a1)) => match spec_fold_expr(*r, store, n1) {
                    Result::Ok((rid, n2, a2)) => Ok(
                        (
                            next_id,
                            n2,
                            a1 + a2 + Seq::empty().push(
                                AssignIRModel {
                                    id: next_id,
                                    rightop: ExprIRModel::BinaryOp(lid, op, rid),
                                },
                            ),
                        ),
                    ),
                    Result::Err(err) => Err(err),
                },
                Result::Err(err) => Err(err),
            }
        },
        Expr::Not(_) => Err(IrError::UnsupportedExpr),
        Expr::Signed(_, _) => Err(IrError::UnsupportedExpr),
    }
}

impl IR {
    pub fn new() -> (r: IR)
        ensures
            r.instructions@ == Seq::<AssignIR>::empty(),
    {
        IR { instructions: vec![] }
    }
}

/// Walks an expression, emitting one assignment per node into the IR.
pub struct ExprIntoIRFolder<'a> {
    pub ir: IR,
    pub var_counter: u32,
    pub store_type: &'a StoreType,
}

impl<'a> ExprIntoIRFolder<'a> {
    pub fn new(store: &'a StoreType) -> (r: ExprIntoIRFolder<'a>)
        ensures
            r.ir.instructions@ == Seq::<AssignIR>::empty(),
            r.var_counter == 0,
            r.store_type == store,
    {
        ExprIntoIRFolder { ir: IR::new(), var_counter: 0, store_type: store }
    }

    /// The next fresh variable id; fails when the ids run out.
    fn nid(&mut self) -> (r: Result<u32, IrError>)
        ensures
            old(self).var_counter == u32::MAX ==> r == Err::<u32, IrError>(
                IrError::TooManyVariables,
            ) && *final(self) == *old(self),
            old(self).var_counter < u32::MAX ==> r == Ok::<u32, IrError>(old(self).var_counter)
                && final(self).var_counter == old(self).var_counter + 1 && final(self).ir == old(
                self,
            ).ir && final(self).store_type == old(self).store_type,
    {
        if self.var_counter == u32::MAX {
            Err(IrError::TooManyVariables)
        } else {
            let res = self.var_counter;
            self.var_counter = self.var_counter + 1;
            Ok(res)
        }
    }

    fn add_assign(&mut self, assign: AssignIR) -> (id: u32)
        ensures
            final(self).ir.instructions@ == old(self).ir.instructions@.push(assign),
            final(self).var_counter == old(self).var_counter,
            final(self).store_type == old(self).store_type,
            id == assign.leftop.id,
    {
        let id = assign.leftop.id;
        self.ir.instructions.push(assign);
        id
    }

    /// Lowers one expression; on success the emitted assignments follow
    /// `spec_fold_expr` exactly and the returned id holds the result.
    pub fn fold(&mut self, expr: &Expr) -> (r: Result<VarIR, IrError>)
        ensures
            final(self).store_type == old(self).store_type,
            match spec_fold_expr(*expr, *old(self).store_type, old(self).var_counter) {
                Result::Ok((id, n2, assigns)) => r == Ok::<VarIR, IrError>(VarIR { id })
                    && final(self).var_counter == n2 && ir_model(final(self).ir.instructions@)
                    == ir_model(old(self).ir.instructions@) + assigns,
                Result::Err(err) => r == Err::<VarIR, IrError>(err),
            },
        decreases *expr, 1int,
    {
        match expr {
            Expr::Constant(c) => self.fold_constant(c),
            Expr::PathExpr(pe) => self.fold_path_expression(pe),
            Expr::BinaryOp(l, op, r) => self.fold_binaryop(l, *op, r),
            Expr::Not(_) => Err(IrError::UnsupportedExpr),
            Expr::Signed(_, _) => Err(IrError::UnsupportedExpr),
        }
    }

    /// Lowers a constant. Only integer constants have a lowering yet;
    /// every other kind is reported as unsupported.
    pub fn fold_constant(&mut self, value: &Constant) -> (r: Result<VarIR, IrError>)
        ensures
            final(self).store_type == old(self).store_type,
            match spec_fold_expr(
                Expr::Constant(*value),
                *old(self).store_type,
                old(self).var_counter,
            ) {
                Result::Ok((id, n2, assigns)) => r == Ok::<VarIR, IrError>(VarIR { id })
                    && final(self).var_counter == n2 && ir_model(final(self).ir.instructions@)
                    == ir_model(old(self).ir.instructions@) + assigns,
                Result::Err(err) => r == Err::<VarIR, IrError>(err),
            },
    {
        match value {
            Constant::Integer(v) => {
                let id = match self.nid() {
                    Ok(id) => id,
                    Err(err) => {
                        return Err(err);
                    },
                };
                let ghost before = self.ir.instructions@;
                let assign = AssignIR {
                    leftop: VarIR { id },
                    rightop: ExprIR::Constant(*v),
                };
                proof {
                    lemma_ir_model_push(before, assign);
                }
                self.add_assign(assign);
                proof {
                    assert(ir_model(self.ir.instructions@) =~= ir_model(before).push(
                        assign_ir_model(assign),
                    ));
                    assert(ir_model(before).push(assign_ir_model(assign)) =~= ir_model(before)
                        + Seq::empty().push(assign_ir_model(assign)));
                }
                Ok(VarIR { id })
            },
            _ => Err(IrError::UnsupportedConstant),
        }
    }

    /// Lowers a path access: linearizes it and compiles it against the
    /// schema.
    pub fn fold_path_expression(&mut self, pe: &PathExpr) -> (r: Result<VarIR, IrError>)
        ensures
            final(self).store_type == old(self).store_type,
            match spec_fold_expr(
                Expr::PathExpr(*pe),
                *old(self).store_type,
                old(self).var_counter,
            ) {
                Result::Ok((id, n2, assigns)) => r == Ok::<VarIR, IrError>(VarIR { id })
                    && final(self).var_counter == n2 && ir_model(final(self).ir.instructions@)
                    == ir_model(old(self).ir.instructions@) + assigns,
                Result::Err(err) => r == Err::<VarIR, IrError>(err),
            },
    {
        if self.var_counter == u32::MAX {
            return Err(IrError::TooManyVariables);
        }
        let linpath = match into_linpath(pe) {
            Some(lp) => lp,
            None => {
                return Err(IrError::InvalidPath);
            },
        };
        let mut path_ir_folder = CompileFolder;
        if linpath.len() == 0 {
            // A linearized path always has at least the root step.
            proof {
                lemma_linpath_nonempty(*pe, false);
            }
            return Err(IrError::InvalidPath);
        }
        let path_ir = match path_ir_folder.fold(self.store_type, &linpath, 0) {
            Some(p) => p,
            None => {
                return Err(IrError::PathNotResolved);
            },
        };
        let id = match self.nid() {
            Ok(id) => id,
            Err(err) => {
                return Err(err);
            },
        };
        let ghost before = self.ir.instructions@;
        let assign = AssignIR { leftop: VarIR { id }, rightop: ExprIR::Path(path_ir) };
        proof {
            lemma_ir_model_push(before, assign);
        }
        self.add_assign(assign);
        proof {
            assert(ir_model(self.ir.instructions@) =~= ir_model(before) + Seq::empty().push(
                assign_ir_model(assign),
            ));
        }
        Ok(VarIR { id })
    }

    /// Lowers a binary operation: the operation takes its id first, then
    /// the two operands are lowered in order.
    pub fn fold_binaryop(&mut self, left: &Expr, op: OpCode, right: &Expr) -> (r: Result<
        VarIR,
        IrError,
    >)
        ensures
            final(self).store_type == old(self).store_type,
            match spec_fold_expr(
                Expr::BinaryOp(Box::new(*left), op, Box::new(*right)),
                *old(self).store_type,
                old(self).var_counter,
            ) {
                Result::Ok((id, n2, assigns)) => r == Ok::<VarIR, IrError>(VarIR { id })
                    && final(self).var_counter == n2 && ir_model(final(self).ir.instructions@)
                    == ir_model(old(self).ir.instructions@) + assigns,
                Result::Err(err) => r == Err::<VarIR, IrError>(err),
            },
        decreases Expr::BinaryOp(Box::new(*left), op, Box::new(*right)), 0int,
    {
        let id = match self.nid() {
            Ok(id) => id,
            Err(err) => {
                return Err(err);
            },
        };
        let ghost base = self.ir.instructions@;
        let l = match self.fold(left) {
            Ok(v) => v,
            Err(err) => {
                return Err(err);
            },
        };
        let r = match self.fold(right) {
            Ok(v) => v,
            Err(err) => {
                return Err(err);
            },
        };
        let ghost before = self.ir.instructions@;
        let assign = AssignIR { leftop: VarIR { id }, rightop: ExprIR::BinaryOp(l, op, r) };
        proof {
            lemma_ir_model_push(before, assign);
        }
        self.add_assign(assign);
        proof {
            assert(ir_model(self.ir.instructions@) =~= ir_model(base) + (ir_model(
                before,
            ).subrange(ir_model(base).len() as int, ir_model(before).len() as int)
                + Seq::empty().push(assign_ir_model(assign))));
        }
        Ok(VarIR { id })
    }
}

/// A linearized path always holds at least the step for the root
/// variable.
pub proof fn lemma_linpath_nonempty(e: PathExpr, optional: bool)
    ensures
        crate::pathexpr::spec_linpath_rec(e, optional) matches Some(lp) ==> lp.len() > 0,
    decreases e,
{
    match e {
        PathExpr::Optional { opt } => {
            lemma_linpath_nonempty(*opt, true);
        },
        PathExpr::PropertyAccess { map, property } => {
            lemma_linpath_nonempty(*map, false);
        },
        PathExpr::Index { map, index } => {
            lemma_linpath_nonempty(*map, false);
        },
        _ => {},
    }
}

/// Lowers an expression against the schema into its single-assignment
/// form, as `spec_fold_expr` states it from the first fresh id on.
pub fn into_ir(expression: &Expr, store: &StoreType) -> (r: Result<IR, IrError>)
    ensures
        match spec_fold_expr(*expression, *store, 0) {
            Result::Ok((id, n2, assigns)) => r matches Ok(ir) && ir_model(ir.instructions@)
                == assigns,
            Result::Err(err) => r == Err::<IR, IrError>(err),
        },
{
    let mut folder = ExprIntoIRFolder::new(store);
    match folder.fold(expression) {
        Ok(_) => {
            proof {
                assert(ir_model(folder.ir.instructions@) =~= ir_model(Seq::<AssignIR>::empty())
                    + ir_model(folder.ir.instructions@).subrange(
                    0,
                    ir_model(folder.ir.instructions@).len() as int,
                ));
            }
            Ok(folder.ir)
        },
        Err(err) => Err(err),
    }
}

/// Compiles an expression against the schema into target-language source
/// text: the rendering of its lowered form.
pub fn compile(expression: &Expr, store: &StoreType) -> (r: Result<String, IrError>)
    ensures
        match spec_fold_expr(*expression, *store, 0) {
            Result::Ok((id, n, assigns)) => r matches Ok(s) && s@ == crate::render::spec_render_ir(
                assigns,
            ),
            Result::Err(err) => r == Err::<String, IrError>(err),
        },
{
    match into_ir(expression, store) {
        Ok(ir) => {
            let mut res = String::new();
            ir.render(&mut res);
            Ok(res)
        },
        Err(err) => Err(err),
    }
}

} // verus!
