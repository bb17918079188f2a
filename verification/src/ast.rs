//! The node model and the textual renderer.
//!
//! Statements and expressions are closed enums: every node matches exactly one
//! variant, and adding a variant forces every traversal to handle it.  Each
//! rendering method's `ensures` ties its result to a spec function, so the
//! text a node produces is pinned down exactly.

use crate::token::Token;
use vstd::prelude::*;

verus! {

/// Common interface of every tree node: the literal text of the token that
/// introduced it, and its rendered source form.
///
/// The two spec functions pin both strings down exactly, so rendering is
/// deterministic by contract: two calls on the same node must agree.
pub trait Node {
    /// The literal text of the node's anchoring token, as a sequence of
    /// characters.  Nodes that store no token report the empty sequence.
    spec fn token_text(&self) -> Seq<char>;

    /// The node's rendered source form, as a sequence of characters.
    spec fn text(&self) -> Seq<char>;

    /// Returns the literal text of the token that introduced this node.
    fn token_literal(&self) -> (r: String)
        ensures
            r@ == self.token_text(),
    ;

    /// Renders this node back to source text.
    fn to_string(&self) -> (r: String)
        ensures
            r@ == self.text(),
    ;
}

/// A bound or free name reference.
#[derive(Debug)]
pub struct Identifier {
    pub name: String,
}

/// A literal value, kept verbatim in its source-text form.
#[derive(Debug)]
pub struct Literal {
    pub value: String,
}

/// An expression: a construct that produces a value.
#[derive(Debug)]
pub enum Expression {
    Identifier(Identifier),
    Literal(Literal),
}

/// The rendered form of an expression: the stored text, verbatim.
pub open spec fn expr_text(e: Expression) -> Seq<char> {
    match e {
        Expression::Identifier(ident) => ident.name@,
        Expression::Literal(lit) => lit.value@,
    }
}

impl Expression {
    /// Renders this expression: the stored name or literal text, verbatim.
    pub fn to_string(&self) -> (r: String)
        ensures
            r@ == expr_text(*self),
    {
        match self {
            Expression::Identifier(ident) => ident.to_string(),
            Expression::Literal(lit) => lit.to_string(),
        }
    }
}

impl Node for Identifier {
    /// An identifier stores no token of its own.
    open spec fn token_text(&self) -> Seq<char> {
        Seq::empty()
    }

    open spec fn text(&self) -> Seq<char> {
        self.name@
    }

    fn token_literal(&self) -> (r: String)
        ensures
            r@ == self.token_text(),
    {
        String::new()
    }

    fn to_string(&self) -> (r: String)
        ensures
            r@ == self.text(),
    {
        self.name.clone()
    }
}

impl Node for Literal {
    /// A literal stores no token of its own.
    open spec fn token_text(&self) -> Seq<char> {
        Seq::empty()
    }

    open spec fn text(&self) -> Seq<char> {
        self.value@
    }

    fn token_literal(&self) -> (r: String)
        ensures
            r@ == self.token_text(),
    {
        String::new()
    }

    fn to_string(&self) -> (r: String)
        ensures
            r@ == self.text(),
    {
        self.value.clone()
    }
}

/// Binds a name to the result of an expression: `<let-keyword> <name> = <value>;`.
///
/// The bound side is always an [`Identifier`]; the type makes a literal on the
/// left of the `=` unrepresentable.
#[derive(Debug)]
pub struct LetStatement {
    pub token: Token,
    pub name: Identifier,
    pub value: Expression,
}

/// Yields a value from the enclosing function context: `return <value>;`.
#[derive(Debug)]
pub struct ReturnStatement {
    pub token: Token,
    pub return_value: Expression,
}

/// A bare expression evaluated for its value, bound to no name.  It renders
/// with no terminator of its own.
#[derive(Debug)]
pub struct ExpressionStatement {
    pub token: Token,
    pub expression: Expression,
}

/// A statement: a construct executed for its effect.
#[derive(Debug)]
pub enum Statement {
    Let(LetStatement),
    Return(ReturnStatement),
    Expression(ExpressionStatement),
}

impl Node for LetStatement {
    open spec fn token_text(&self) -> Seq<char> {
        self.token.literal@
    }

    /// Keyword text, a space, the name, ` = `, the value, and a terminating `;`.
    open spec fn text(&self) -> Seq<char> {
        self.token.literal@ + " "@ + self.name.name@ + " = "@ + expr_text(self.value) + ";"@
    }

    fn token_literal(&self) -> (r: String)
        ensures
            r@ == self.token_text(),
    {
        self.token.literal.clone()
    }

    fn to_string(&self) -> (r: String)
        ensures
            r@ == self.text(),
    {
        let mut out = self.token_literal();
        out.append(" ");
        let name = self.name.to_string();
        out.append(name.as_str());
        out.append(" = ");
        let value = self.value.to_string();
        out.append(value.as_str());
        out.append(";");
        out
    }
}

impl Node for ReturnStatement {
    open spec fn token_text(&self) -> Seq<char> {
        self.token.literal@
    }

    /// The fixed word `return`, a space, the value, and a terminating `;`.
    /// The fixed word keeps the rendering stable even when the stored token's
    /// text differs from the canonical keyword.
    open spec fn text(&self) -> Seq<char> {
        "return "@ + expr_text(self.return_value) + ";"@
    }

    fn token_literal(&self) -> (r: String)
        ensures
            r@ == self.token_text(),
    {
        self.token.literal.clone()
    }

    fn to_string(&self) -> (r: String)
        ensures
            r@ == self.text(),
    {
        let mut out = String::from_str("return ");
        let value = self.return_value.to_string();
        out.append(value.as_str());
        out.append(";");
        out
    }
}

impl Node for ExpressionStatement {
    open spec fn token_text(&self) -> Seq<char> {
        self.token.literal@
    }

    /// Exactly the inner expression's rendering: no terminator is added.
    open spec fn text(&self) -> Seq<char> {
        expr_text(self.expression)
    }

    fn token_literal(&self) -> (r: String)
        ensures
            r@ == self.token_text(),
    {
        self.token.literal.clone()
    }

    fn to_string(&self) -> (r: String)
        ensures
            r@ == self.text(),
    {
        self.expression.to_string()
    }
}

/// The rendered form of a statement, by its variant.
pub open spec fn stmt_text(s: Statement) -> Seq<char> {
    match s {
        Statement::Let(ls) => ls.text(),
        Statement::Return(rs) => rs.text(),
        Statement::Expression(es) => es.text(),
    }
}

/// The anchoring token's literal text of a statement, by its variant.
pub open spec fn stmt_token_text(s: Statement) -> Seq<char> {
    match s {
        Statement::Let(ls) => ls.token_text(),
        Statement::Return(rs) => rs.token_text(),
        Statement::Expression(es) => es.token_text(),
    }
}

/// The rendered form of a sequence of statements: each statement's rendering,
/// in order, with no separator between statements.
pub open spec fn stmts_text(ss: Seq<Statement>) -> Seq<char>
    decreases ss.len(),
{
    if ss.len() == 0 {
        Seq::empty()
    } else {
        stmt_text(ss[0]) + stmts_text(ss.drop_first())
    }
}

/// Rendering distributes over concatenation of statement sequences: the text
/// of `a + b` is the text of `a` followed by the text of `b`.
pub proof fn lemma_stmts_text_app(a: Seq<Statement>, b: Seq<Statement>)
    ensures
        stmts_text(a + b) == stmts_text(a) + stmts_text(b),
    decreases a.len(),
{
    if a.len() == 0 {
        assert(a + b =~= b);
        assert(stmts_text(a) + stmts_text(b) =~= stmts_text(b));
    } else {
        lemma_stmts_text_app(a.drop_first(), b);
        assert((a + b).drop_first() =~= a.drop_first() + b);
        assert(stmt_text(a[0]) + (stmts_text(a.drop_first()) + stmts_text(b)) =~= (stmt_text(a[0])
            + stmts_text(a.drop_first())) + stmts_text(b));
    }
}

/// A one-statement sequence renders as that statement alone.
pub proof fn lemma_stmts_text_one(s: Statement)
    ensures
        stmts_text(seq![s]) == stmt_text(s),
{
    assert(seq![s].drop_first() =~= Seq::<Statement>::empty());
    assert(stmts_text(Seq::<Statement>::empty()) == Seq::<char>::empty());
    assert(stmt_text(s) + Seq::<char>::empty() =~= stmt_text(s));
}

/// Order preservation: appending one statement appends exactly its rendering,
/// after everything already there.
pub proof fn lemma_stmts_text_push(ss: Seq<Statement>, s: Statement)
    ensures
        stmts_text(ss.push(s)) == stmts_text(ss) + stmt_text(s),
{
    assert(ss.push(s) =~= ss + seq![s]);
    lemma_stmts_text_app(ss, seq![s]);
    lemma_stmts_text_one(s);
}

/// The root of the tree: an ordered sequence of top-level statements, built
/// once by a parser and read-only thereafter.
#[derive(Debug)]
pub struct Program {
    pub statements: Vec<Statement>,
}

impl Node for Program {
    /// A program delegates to its first statement; an empty program reports
    /// the empty sequence.
    open spec fn token_text(&self) -> Seq<char> {
        if self.statements@.len() > 0 {
            stmt_token_text(self.statements@[0])
        } else {
            Seq::empty()
        }
    }

    open spec fn text(&self) -> Seq<char> {
        stmts_text(self.statements@)
    }

    /// Returns the first statement's token literal, or the empty string for a
    /// program with no statements: the empty case is defined, not a failure.
    fn token_literal(&self) -> (r: String)
        ensures
            r@ == self.token_text(),
    {
        if self.statements.len() > 0 {
            let statement = &self.statements[0];
            match statement {
                Statement::Let(ls) => ls.token_literal(),
                Statement::Return(rs) => rs.token_literal(),
                Statement::Expression(es) => es.token_literal(),
            }
        } else {
            String::new()
        }
    }

    /// Renders every statement in order, with no separator between them: each
    /// statement supplies its own terminator where it has one.
    fn to_string(&self) -> (r: String)
        ensures
            r@ == self.text(),
    {
        let mut out = String::new();
        let mut i: usize = 0;
        while i < self.statements.len()
            invariant
                i <= self.statements@.len(),
                out@ == stmts_text(self.statements@.take(i as int)),
            decreases self.statements@.len() - i,
        {
            let statement = &self.statements[i];
            match statement {
                Statement::Let(ls) => {
                    let rendered = ls.to_string();
                    out.append(rendered.as_str());
                }
                Statement::Return(rs) => {
                    let rendered = rs.to_string();
                    out.append(rendered.as_str());
                }
                Statement::Expression(es) => {
                    let rendered = es.to_string();
                    out.append(rendered.as_str());
                }
            }
            proof {
                lemma_stmts_text_push(self.statements@.take(i as int), self.statements@[i as int]);
                assert(self.statements@.take(i as int).push(self.statements@[i as int])
                    =~= self.statements@.take(i as int + 1));
            }
            i += 1;
        }
        proof {
            assert(self.statements@.take(self.statements@.len() as int) =~= self.statements@);
        }
        out
    }
}

/// Rendering is deterministic: any two renderings of the same program agree
/// byte for byte, because each is pinned to the program's one spec text.
pub proof fn lemma_render_stable(p: &Program, first: Seq<char>, second: Seq<char>)
    requires
        first == p.text(),
        second == p.text(),
    ensures
        first == second,
{
}

/// A `let` statement's rendering always ends with the terminator `;`.
pub proof fn lemma_let_terminated(ls: &LetStatement)
    ensures
        ls.text().len() > 0,
        ls.text().last() == ';',
{
    reveal_strlit(";");
}

/// A `return` statement's rendering always ends with the terminator `;`.
pub proof fn lemma_return_terminated(rs: &ReturnStatement)
    ensures
        rs.text().len() > 0,
        rs.text().last() == ';',
{
    reveal_strlit(";");
}

/// A bare expression statement renders as exactly its inner expression: no
/// terminator is inserted beyond what the expression itself produces.
pub proof fn lemma_expression_statement_bare(es: &ExpressionStatement)
    ensures
        es.text() == expr_text(es.expression),
{
}

/// A non-empty program's token literal is exactly its first statement's.
pub proof fn lemma_token_literal_delegates(p: &Program)
    requires
        p.statements@.len() > 0,
    ensures
        p.token_text() == stmt_token_text(p.statements@[0]),
{
}

} // verus!
