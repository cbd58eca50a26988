use vstd::prelude::*;
use crate::ast::{Constant, PathExpr};

verus! {

// Flattening of a right-recursive path expression such as `a.b?.c` into
// the ordered list of access steps, from the root to the leaf. An
// optional guard marks the step it wraps: in `a.b?.c` it is the `b` step
// that is optional.
/// One access step: a named field or a positional index, possibly
/// guarded by an optional check.
#[derive(Clone, Debug, PartialEq, Eq)]
pub struct PathItem {
    pub prop: PropKind,
    pub is_optional: bool,
}

#[derive(Clone, Debug, PartialEq, Eq)]
pub enum PropKind {
    Int(usize),
    Str(String),
}

/// A linearized path: access steps in root-to-leaf order.
pub type LinPath = Vec<PathItem>;

impl PathItem {
    pub fn new(prop: PropKind, is_optional: bool) -> (r: PathItem)
        ensures
            r == (PathItem { prop, is_optional }),
    {
        PathItem { prop, is_optional }
    }

    /// The field name of a named step; index steps have none.
    pub fn prop_str(&self) -> (r: String)
        requires
            self.prop is Str,
        ensures
            r@ == self.prop->Str_0@,
    {
        match &self.prop {
            PropKind::Str(st) => st.clone(),
            PropKind::Int(_) => {
                proof {
                    assert(false);
                }
                String::new()
            },
        }
    }
}

/// The linearization of `e`, root to leaf, where `optional` says whether
/// an optional guard wraps `e` itself. It is defined exactly for the
/// paths made of variables, named accesses, optional guards, and
/// non-negative integer literal indices; any other index yields nothing.
pub open spec fn spec_linpath_rec(e: PathExpr, optional: bool) -> Option<Seq<PathItem>>
    decreases e,
{
    match e {
        PathExpr::Variable(id) => Some(
            seq![PathItem { prop: PropKind::Str(id.name), is_optional: optional }],
        ),
        PathExpr::Optional { opt } => spec_linpath_rec(*opt, true),
        PathExpr::PropertyAccess { map, property } => match spec_linpath_rec(*map, false) {
            Option::Some(prefix) => Some(
                prefix.push(PathItem { prop: PropKind::Str(property.name), is_optional: optional }),
            ),
            Option::None => None,
        },
        PathExpr::Index { map, index } => match index {
            Constant::Integer(i) => if i >= 0 {
                match spec_linpath_rec(*map, false) {
                    Option::Some(prefix) => Some(
                        prefix.push(
                            PathItem { prop: PropKind::Int(i as usize), is_optional: optional },
                        ),
                    ),
                    Option::None => None,
                }
            } else {
                None
            },
            _ => None,
        },
    }
}

pub open spec fn spec_linpath(e: PathExpr) -> Option<Seq<PathItem>> {
    spec_linpath_rec(e, false)
}

fn into_linpath_rec(e: &PathExpr, optional: bool, out: &mut Vec<PathItem>) -> (ok: bool)
    ensures
        ok <==> spec_linpath_rec(*e, optional) is Some,
        ok ==> final(out)@ == old(out)@ + spec_linpath_rec(*e, optional)->Some_0,
        !ok ==> final(out)@ == old(out)@,
    decreases *e,
{
    match e {
        PathExpr::Variable(id) => {
            out.push(PathItem { prop: PropKind::Str(id.name.clone()), is_optional: optional });
            proof {
                assert(out@ =~= old(out)@ + spec_linpath_rec(*e, optional)->Some_0);
            }
            true
        },
        PathExpr::Optional { opt } => into_linpath_rec(opt, true, out),
        PathExpr::PropertyAccess { map, property } => {
            if into_linpath_rec(map, false, out) {
                out.push(
                    PathItem { prop: PropKind::Str(property.name.clone()), is_optional: optional },
                );
                proof {
                    assert(out@ =~= old(out)@ + spec_linpath_rec(*e, optional)->Some_0);
                }
                true
            } else {
                false
            }
        },
        PathExpr::Index { map, index } => {
            match index {
                Constant::Integer(i) => {
                    let i = *i;
                    if i >= 0 {
                        if into_linpath_rec(map, false, out) {
                            out.push(
                                PathItem {
                                    prop: PropKind::Int(i as usize),
                                    is_optional: optional,
                                },
                            );
                            proof {
                                assert(out@ =~= old(out)@ + spec_linpath_rec(*e, optional)
                                    ->Some_0);
                            }
                            true
                        } else {
                            false
                        }
                    } else {
                        false
                    }
                },
                _ => false,
            }
        },
    }
}

/// Flattens a path expression into root-to-leaf order; yields nothing on
/// the paths the linearization leaves out (non-literal or negative
/// indices).
pub fn into_linpath(expr: &PathExpr) -> (r: Option<LinPath>)
    ensures
        r matches Some(v) ==> spec_linpath(*expr) == Some(v@),
        r is None <==> spec_linpath(*expr) is None,
{
    let mut out: Vec<PathItem> = Vec::new();
    if into_linpath_rec(expr, false, &mut out) {
        Some(out)
    } else {
        None
    }
}

} // verus!
