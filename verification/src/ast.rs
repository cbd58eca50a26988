use vstd::prelude::*;

verus! {

// The tree a parsed source file turns into: a package of imports and
// items, where an item is a view, a component (or template), a style
// class, a constant binding, or a datatype declaration. Expressions and
// path expressions are strictly tree shaped.
/// A half-open character range into the source text, attached to nodes
/// for diagnostics.
#[derive(Clone, Copy, Debug, Hash, PartialEq, Eq, Structural)]
pub struct Span(pub usize, pub usize);

/// A name together with the place it was written.
#[derive(Clone, Debug, PartialEq, Eq)]
pub struct Ident {
    pub span: Span,
    pub name: String,
}

/// The compilation unit: every import and item of one source file, in
/// source order.
#[derive(Debug, PartialEq)]
pub struct Package {
    pub imports: Vec<Import>,
    pub items: Vec<Item>,
}

#[derive(Clone, Debug, PartialEq)]
pub struct Import {
    pub span: Span,
    /// Which symbols the import brings in.
    pub symbols: ImportSymbols,
    /// What the import points at, before and after resolution.
    pub package: SubPackage,
}

/// Packages live in an arena owned by the compilation root; a resolved
/// import names its package by index, so several importers can share one
/// sub-package without shared mutable ownership.
#[derive(Clone, Debug, PartialEq)]
pub enum SubPackage {
    /// A resolved module import: an index into the package arena.
    Package(usize),
    /// A path to an image or font resource.
    ResourcePath(String),
    /// A path that resolution has not touched yet.
    UnresolvedPath(String),
}

#[derive(Clone, Debug, PartialEq)]
pub enum ImportSymbols {
    /// All exported symbols are imported.
    All,
    /// All symbols are imported under one name.
    AllAsIdent(Ident),
    /// Only the listed symbols are imported.
    Only(Vec<Ident>),
}

#[derive(Debug, PartialEq)]
pub enum Item {
    View(ViewItem),
    Component(Component),
    Class(Class),
    Constant(ConstValue),
    DataType(DataType),
}

/// A view: a named root of the displayed tree.
#[derive(Debug, PartialEq)]
pub struct ViewItem {
    pub name: Ident,
    pub node: Node,
}

/// A constant binding (`let name = ...`).
#[derive(Debug, PartialEq)]
pub struct ConstValue {
    pub exported: bool,
    pub name: Ident,
    pub object: ObjectValue,
}

/// A datatype declaration: a named shape for the host data model.
#[derive(Debug, PartialEq)]
pub struct DataType {
    pub exported: bool,
    pub name: Ident,
    /// Parameters of a parametrized shape.
    pub arguments: Vec<Ident>,
    pub def: DataTypeDef,
}

#[derive(Debug, PartialEq)]
pub enum DataTypeDef {
    /// A constant string shape.
    StrLit(String),
    /// An alias of another declared type.
    Alias(Ident),
    /// An alias written with an instantiation keyword in front.
    NewAlias(Ident),
    /// An object shape.
    Object(ObjectValue),
}

/// A style class: named, parametrized, made of properties and conditional
/// inclusions of other classes.
#[derive(Debug, PartialEq)]
pub struct Class {
    pub exported: bool,
    pub name: Ident,
    pub arguments: Vec<Ident>,
    pub properties: Vec<RawPropertyOrInclude>,
}

#[derive(Debug, PartialEq)]
pub struct AnonymousClass {
    pub properties: Vec<RawPropertyOrInclude>,
}

#[derive(Debug, PartialEq)]
pub enum RawPropertyOrInclude {
    /// Another class included, possibly under a condition.
    Include(IncludeCond),
    /// One property with its value and optional condition.
    RawProperty(String, StyleValueCond),
}

#[derive(Debug, PartialEq)]
pub struct IncludeCond {
    pub incl: Include,
    pub cond: Option<Box<Expr>>,
}

#[derive(Clone, Debug, PartialEq)]
pub struct Include {
    pub name: Ident,
    pub arguments: Vec<Ident>,
}

#[derive(Debug, PartialEq)]
pub struct StyleValueCond {
    pub prop: StyleValue,
    pub cond: Option<Box<Expr>>,
}

/// A numeric literal kept as written; style consumers read it when they
/// apply the property.
#[derive(Clone, Debug, PartialEq)]
pub struct NumLit {
    pub text: String,
}

#[derive(Debug, PartialEq)]
pub enum StyleValue {
    /// A length with a unit.
    Length(Box<Expr>, Unit),
    /// A property keyword, written as a string literal.
    Keyword(String),
    /// Any other expression; its meaning depends on the property.
    Unspecified(Box<Expr>),
    /// A hexadecimal value, for colors.
    Hex(String),
    /// An image, optionally restricted to a crop window.
    Img {
        ident: String,
        view_x: Option<NumLit>,
        view_y: Option<NumLit>,
        view_w: Option<NumLit>,
        view_h: Option<NumLit>,
    },
}

#[derive(Clone, Copy, Debug, PartialEq, Eq, Structural)]
pub enum Unit {
    /// Pixels; the only unit so far.
    Px,
}

/// A component or template: a named, parametrized subtree.
#[derive(Debug, PartialEq)]
pub struct Component {
    pub exported: bool,
    pub name: Ident,
    pub arguments: Vec<Ident>,
    pub events: Vec<Ident>,
    pub body: ComponentBody,
}

#[derive(Debug, PartialEq)]
pub enum ComponentBody {
    SingleNode(Node),
    PreludeThenSingleNode(Option<()>, Node),
}

/// One node of the markup tree.
#[derive(Debug, PartialEq)]
pub struct Node {
    pub span: Span,
    pub kind: NodeKind,
    pub children: Vec<Node>,
}

#[derive(Debug, PartialEq)]
pub enum NodeKind {
    /// Verbatim text.
    Text { content: String },
    /// A text binding on a path expression.
    Binding { property: PathExpr },
    /// An aggregate with no meaning of its own.
    NoType,
    /// A tag instantiating a component.
    Tag {
        name: String,
        class: Option<AnonymousClassOrIdent>,
        arguments: Vec<(Ident, ObjectValue)>,
        events: Vec<(Ident, ())>,
    },
    /// A placement query, such as one asking for the children.
    Query { kind: QueryKind },
}

#[derive(Clone, Copy, Debug, PartialEq, Eq, Structural)]
pub enum QueryKind {
    Children,
}

#[derive(Debug, PartialEq)]
pub enum AnonymousClassOrIdent {
    Ident(String),
    AnCls(AnonymousClass),
}

#[derive(Debug, PartialEq)]
pub enum ObjectValue {
    Expr(Box<Expr>),
    Props(Vec<(String, ObjectValue)>),
}

/// An expression of the embedded language.
#[derive(Debug, PartialEq)]
pub enum Expr {
    Constant(Constant),
    PathExpr(PathExpr),
    BinaryOp(Box<Expr>, OpCode, Box<Expr>),
    Not(Box<Expr>),
    Signed(Sign, Box<Expr>),
}

#[derive(Clone, Debug, PartialEq)]
pub enum Constant {
    Boolean(bool),
    /// A non-integral number, kept as the literal text it was written as.
    Float(String),
    Integer(i32),
    StrLit(String),
}

/// A chained, optionally guarded property or index access, right
/// recursive: the outermost constructor is the last step.
#[derive(Debug, PartialEq)]
pub enum PathExpr {
    Variable(Ident),
    /// A check that the value under `opt` is present.
    Optional { opt: Box<PathExpr> },
    PropertyAccess { map: Box<PathExpr>, property: Ident },
    Index { map: Box<PathExpr>, index: Constant },
}

#[derive(Clone, Copy, Debug, PartialEq, Eq, Structural)]
pub enum Sign {
    Plus,
    Minus,
}

/// The binary operators of the expression language.
#[derive(Clone, Copy, Debug, PartialEq, Eq, Structural)]
pub enum OpCode {
    Add,
    Sub,
    Or,
    Mul,
    Div,
    Pow,
    Mod,
    And,
    EqEq,
    NotEq,
    LessThan,
    GreaterThan,
    LessThanOrEq,
    GreaterThanOrEq,
}

/// Either the crop window of an image value or a unit, as the style
/// grammar finds after a value.
#[derive(Debug, PartialEq)]
pub enum ImgViewOrUnit {
    ImgView(Vec<(Option<String>, NumLit)>),
    Unit(Unit),
}

pub open spec fn spec_valid_img_range(r: Seq<(Option<String>, NumLit)>) -> bool {
    r.len() <= 4 && ((forall|i: int| 0 <= i < r.len() ==> (#[trigger] r[i].0) is None) || (forall|
        i: int,
    | 0 <= i < r.len() ==> (#[trigger] r[i].0) is Some))
}

/// A crop window is valid when it has at most four entries that are
/// either all named or all positional.
pub fn is_valid_img_range(img_range: &Vec<(Option<String>, NumLit)>) -> (r: bool)
    ensures
        r == spec_valid_img_range(img_range@),
{
    if img_range.len() > 4 {
        return false;
    }
    let mut all_none = true;
    let mut all_some = true;
    let mut i: usize = 0;
    while i < img_range.len()
        invariant
            i <= img_range@.len(),
            all_none == (forall|j: int| 0 <= j < i ==> (#[trigger] img_range@[j].0) is None),
            all_some == (forall|j: int| 0 <= j < i ==> (#[trigger] img_range@[j].0) is Some),
        decreases img_range@.len() - i,
    {
        if img_range[i].0.is_none() {
            all_some = false;
        } else {
            all_none = false;
        }
        i = i + 1;
    }
    all_none || all_some
}

/// The node `node_txt` must build for the given span and content.
pub open spec fn spec_txt_node(span: Span, content: String, r: Node) -> bool {
    r.span == span && r.kind == (NodeKind::Text { content }) && r.children@ == Seq::<Node>::empty()
}

/// The node `node_agg` must build: one child stands for itself, any
/// other number becomes an aggregate node holding them all.
pub open spec fn spec_agg_node(span: Span, children: Seq<Node>, r: Node) -> bool {
    if children.len() == 1 {
        r == children[0]
    } else {
        r.span == span && r.kind == NodeKind::NoType && r.children@ == children
    }
}

/// The node `node_binding` must build for the given span and path.
pub open spec fn spec_binding_node(span: Span, property: PathExpr, r: Node) -> bool {
    r.span == span && r.kind == (NodeKind::Binding { property }) && r.children@ == Seq::<
        Node,
    >::empty()
}

/// Builds the nodes the parser asks for. One implementation records the
/// spans it is handed, the other drops them; in everything else the two
/// must agree, which each method's contract pins down.
pub trait ASTBuilder {
    /// The span this builder attaches: either the given one or the
    /// zeroed one.
    spec fn spec_span(s: Span) -> Span;

    fn import(&self, span: Span, symbols: ImportSymbols, path: String) -> (r: Import)
        ensures
            r == (Import {
                span: Self::spec_span(span),
                symbols: symbols,
                package: SubPackage::UnresolvedPath(path),
            }),
    ;

    fn ident(&self, span: Span, name: String) -> (r: Ident)
        ensures
            r == (Ident { span: Self::spec_span(span), name: name }),
    ;

    fn node_txt(&self, span: Span, content: String) -> (r: Node)
        ensures
            spec_txt_node(Self::spec_span(span), content, r),
    ;

    /// Aggregates children: a single child stands for itself, anything
    /// else becomes an aggregate node.
    fn node_agg(&self, span: Span, children: Vec<Node>) -> (r: Node)
        ensures
            spec_agg_node(Self::spec_span(span), children@, r),
    ;

    fn node_binding(&self, span: Span, property: PathExpr) -> (r: Node)
        ensures
            spec_binding_node(Self::spec_span(span), property, r),
    ;
}

/// Builds the tree with the spans the parser saw.
pub struct ASTFullSpan;

/// Builds the tree with every span zeroed; for consumers that do not
/// keep diagnostics.
pub struct ASTNullSpan;

impl ASTBuilder for ASTFullSpan {
    open spec fn spec_span(s: Span) -> Span {
        s
    }

    fn import(&self, span: Span, symbols: ImportSymbols, path: String) -> (r: Import) {
        Import { span, symbols, package: SubPackage::UnresolvedPath(path) }
    }

    fn ident(&self, span: Span, name: String) -> (r: Ident) {
        Ident { span, name }
    }

    fn node_txt(&self, span: Span, content: String) -> (r: Node) {
        Node { span, kind: NodeKind::Text { content }, children: Vec::new() }
    }

    fn node_agg(&self, span: Span, children: Vec<Node>) -> (r: Node) {
        let mut children = children;
        if children.len() == 1 {
            children.pop().unwrap()
        } else {
            Node { span, kind: NodeKind::NoType, children }
        }
    }

    fn node_binding(&self, span: Span, property: PathExpr) -> (r: Node) {
        Node { span, kind: NodeKind::Binding { property }, children: Vec::new() }
    }
}

impl ASTBuilder for ASTNullSpan {
    open spec fn spec_span(s: Span) -> Span {
        Span(0, 0)
    }

    fn import(&self, span: Span, symbols: ImportSymbols, path: String) -> (r: Import) {
        Import { span: Span(0, 0), symbols, package: SubPackage::UnresolvedPath(path) }
    }

    fn ident(&self, span: Span, name: String) -> (r: Ident) {
        Ident { span: Span(0, 0), name }
    }

    fn node_txt(&self, span: Span, content: String) -> (r: Node) {
        Node { span: Span(0, 0), kind: NodeKind::Text { content }, children: Vec::new() }
    }

    fn node_agg(&self, span: Span, children: Vec<Node>) -> (r: Node) {
        let mut children = children;
        if children.len() == 1 {
            children.pop().unwrap()
        } else {
            Node { span: Span(0, 0), kind: NodeKind::NoType, children }
        }
    }

    fn node_binding(&self, span: Span, property: PathExpr) -> (r: Node) {
        Node { span: Span(0, 0), kind: NodeKind::Binding { property }, children: Vec::new() }
    }
}

} // verus!
