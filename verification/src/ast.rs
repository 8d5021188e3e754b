//! The syntax tree of a Magic program.
//!
//! Every node has a view in which names are sequences of characters and lists
//! are sequences; the contracts of the constructors speak of those views.

use vstd::prelude::*;

verus! {

/// An item at the top level of a program.
#[derive(Debug, Clone)]
pub enum TopLevelKind {
    FnDecl(FnDecl),
    ImportDecl(String),
}

pub type TopLevel = TopLevelKind;

/// The name of a type variable.
#[derive(Debug, Clone)]
pub struct VariableNode {
    pub name: String,
}

/// A type as written in a declaration.
#[derive(Debug, Clone)]
pub enum TypeKind {
    Wildcard,
    Int,
    Variable(VariableNode),
}

/// A function declaration. It has at least one parameter: a function declared
/// without any takes one unnamed parameter of the unit type.
#[derive(Debug, Clone)]
pub struct FnDecl {
    pub name: String,
    pub params: Vec<(String, TypeKind)>,
    pub ret: TypeKind,
    pub body: Vec<Statement>,
}

/// An expression.
#[derive(Debug, Eq, PartialEq, Hash)]
pub enum Expr {
    Number(i32),
    Identifier(String),
    Op(Box<Expr>, Opcode, Box<Expr>),
}

/// A binary operator.
#[derive(Debug, Hash, PartialEq, Eq, Clone)]
pub enum Opcode {
    Add,
    Sub,
    Div,
    Mul,
}

/// What a statement binds: a name and the expression for it.
#[derive(Debug, Clone)]
pub struct StatementBody {
    pub identifier: String,
    pub expr: Box<Expr>,
}

/// A statement.
#[derive(Debug, Clone)]
pub enum Statement {
    Definition(StatementBody),
    Assignment(StatementBody),
}

/// View of a `TypeKind`.
pub enum TypeKindView {
    Wildcard,
    Int,
    Variable(Seq<char>),
}

/// View of an `Expr`.
pub enum ExprView {
    Number(i32),
    Identifier(Seq<char>),
    Op(Box<ExprView>, Opcode, Box<ExprView>),
}

/// View of a `StatementBody`.
pub struct StatementBodyView {
    pub identifier: Seq<char>,
    pub expr: ExprView,
}

/// View of a `Statement`.
pub enum StatementView {
    Definition(StatementBodyView),
    Assignment(StatementBodyView),
}

/// View of a `FnDecl`.
pub struct FnDeclView {
    pub name: Seq<char>,
    pub params: Seq<(Seq<char>, TypeKindView)>,
    pub ret: TypeKindView,
    pub body: Seq<StatementView>,
}

/// View of a `TopLevelKind`.
pub enum TopLevelView {
    FnDecl(FnDeclView),
    ImportDecl(Seq<char>),
}

impl View for VariableNode {
    type V = Seq<char>;

    open spec fn view(&self) -> Seq<char> {
        self.name@
    }
}

impl View for TypeKind {
    type V = TypeKindView;

    open spec fn view(&self) -> TypeKindView {
        match self {
            TypeKind::Wildcard => TypeKindView::Wildcard,
            TypeKind::Int => TypeKindView::Int,
            TypeKind::Variable(v) => TypeKindView::Variable(v@),
        }
    }
}

impl Expr {
    /// The expression with its names as character sequences.
    pub open spec fn tree(self) -> ExprView
        decreases self,
    {
        match self {
            Expr::Number(n) => ExprView::Number(n),
            Expr::Identifier(s) => ExprView::Identifier(s@),
            Expr::Op(l, o, r) => ExprView::Op(Box::new((*l).tree()), o, Box::new((*r).tree())),
        }
    }

    /// A copy of the expression.
    pub fn duplicate(&self) -> (r: Expr)
        ensures
            r@ == self@,
        decreases self,
    {
        match self {
            Expr::Number(n) => Expr::Number(*n),
            Expr::Identifier(s) => Expr::Identifier(s.clone()),
            Expr::Op(l, o, r) => {
                let o = match o {
                    Opcode::Add => Opcode::Add,
                    Opcode::Sub => Opcode::Sub,
                    Opcode::Div => Opcode::Div,
                    Opcode::Mul => Opcode::Mul,
                };
                Expr::Op(Box::new(l.duplicate()), o, Box::new(r.duplicate()))
            },
        }
    }
}

impl View for Expr {
    type V = ExprView;

    open spec fn view(&self) -> ExprView {
        self.tree()
    }
}

impl Clone for Expr {
    fn clone(&self) -> (r: Expr)
        ensures
            r@ == self@,
    {
        self.duplicate()
    }
}

impl View for StatementBody {
    type V = StatementBodyView;

    open spec fn view(&self) -> StatementBodyView {
        StatementBodyView { identifier: self.identifier@, expr: self.expr@ }
    }
}

impl View for Statement {
    type V = StatementView;

    open spec fn view(&self) -> StatementView {
        match self {
            Statement::Definition(b) => StatementView::Definition(b@),
            Statement::Assignment(b) => StatementView::Assignment(b@),
        }
    }
}

/// The views of a parameter list.
pub open spec fn params_view(params: Seq<(String, TypeKind)>) -> Seq<(Seq<char>, TypeKindView)> {
    Seq::new(params.len(), |i: int| (params[i].0@, params[i].1@))
}

/// The views of a list of statements.
pub open spec fn body_view(body: Seq<Statement>) -> Seq<StatementView> {
    Seq::new(body.len(), |i: int| body[i]@)
}

impl View for FnDecl {
    type V = FnDeclView;

    open spec fn view(&self) -> FnDeclView {
        FnDeclView {
            name: self.name@,
            params: params_view(self.params@),
            ret: self.ret@,
            body: body_view(self.body@),
        }
    }
}

impl View for TopLevelKind {
    type V = TopLevelView;

    open spec fn view(&self) -> TopLevelView {
        match self {
            TopLevelKind::FnDecl(f) => TopLevelView::FnDecl(f@),
            TopLevelKind::ImportDecl(path) => TopLevelView::ImportDecl(path@),
        }
    }
}

/// The unit type: the type variable written `()`.
pub open spec fn unit_type() -> TypeKindView {
    TypeKindView::Variable("()"@)
}

/// The parameter list of a function that was declared without parameters.
pub open spec fn unit_params() -> Seq<(Seq<char>, TypeKindView)> {
    seq![(""@, unit_type())]
}

impl VariableNode {
    /// The name of the variable.
    pub fn render(&self) -> (r: String)
        ensures
            r@ == self@,
    {
        self.name.clone()
    }
}

impl TypeKind {
    /// The unit type.
    pub fn unit() -> (r: TypeKind)
        ensures
            r@ == unit_type(),
    {
        TypeKind::Variable(VariableNode { name: "()".to_owned() })
    }
}

impl FnDecl {
    /// What holds of every declaration that `new` makes: it has a parameter.
    pub open spec fn well_formed(&self) -> bool {
        self@.params.len() >= 1
    }

    /// Makes a function declaration. Without parameters it gets the one
    /// unnamed parameter of the unit type; without a return type it returns
    /// the unit type.
    pub fn new(
        name: String,
        params: Vec<(String, TypeKind)>,
        ret: Option<TypeKind>,
        body: Vec<Statement>,
    ) -> (r: FnDecl)
        ensures
            r.well_formed(),
            r@.name == name@,
            params@.len() == 0 ==> r@.params == unit_params(),
            params@.len() != 0 ==> r@.params == params_view(params@),
            r@.ret == (match ret {
                Some(t) => t@,
                None => unit_type(),
            }),
            r@.body == body_view(body@),
    {
        let mut params = params;
        if params.len() == 0 {
            params.push(("".to_owned(), TypeKind::unit()));
            assert(params_view(params@) =~= unit_params());
        }
        let ret = match ret {
            Some(t) => t,
            None => TypeKind::unit(),
        };
        FnDecl { name, params, ret, body }
    }
}

impl Statement {
    /// The statement that defines `identifier` as `expr`.
    pub fn new_definition(identifier: String, expr: Box<Expr>) -> (r: Statement)
        ensures
            r@ == StatementView::Definition(
                StatementBodyView { identifier: identifier@, expr: expr@ },
            ),
    {
        Statement::Definition(StatementBody { identifier, expr })
    }

    /// The statement that assigns `expr` to `identifier`.
    pub fn new_assignment(identifier: String, expr: Box<Expr>) -> (r: Statement)
        ensures
            r@ == StatementView::Assignment(
                StatementBodyView { identifier: identifier@, expr: expr@ },
            ),
    {
        Statement::Assignment(StatementBody { identifier, expr })
    }
}

} // verus!
