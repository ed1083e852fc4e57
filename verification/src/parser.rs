//! From the tokens of a line to its syntax tree.
//!
//! A line is one expression or one statement in parentheses:
//!
//! ```text
//! line       := '(' head
//! head       := operator arguments | name arguments | 'set' assignment
//! arguments  := argument* ')'
//! argument   := literal | name | '(' (operator | name) arguments
//! assignment := name (literal | '(' (operator | name) arguments) ')'
//! ```

use vstd::prelude::*;
use crate::error::{CalcError, CalcErrorView, CalcResult, Expected};
use crate::expression::{
    expression_views, lemma_view_of_arguments, ExprType, ExprTypeView, Expression, ExpressionView,
};
use crate::scanner::{token_views, Keyword, Token, TokenView};
use crate::statement::{Statement, StatementView, StmtType};

verus! {

/// What a line is parsed into.
pub enum AST {
    Expression(Expression),
    Statement(Statement),
}

/// A syntax tree as a value of specifications.
pub enum AstView {
    Expression(ExpressionView),
    Statement(StatementView),
}

impl View for AST {
    type V = AstView;

    open spec fn view(&self) -> AstView {
        match *self {
            AST::Expression(e) => AstView::Expression(e@),
            AST::Statement(s) => AstView::Statement(s@),
        }
    }
}

/// A node of the given kind with nothing below it.
pub open spec fn leaf(kind: ExprTypeView) -> ExpressionView {
    ExpressionView { expr_type: kind, args: Seq::empty() }
}

/// The expression with the head `head` whose arguments are `args` and then those
/// that the tokens from `pos` on hold, up to the right parenthesis that ends it;
/// with it the position after that parenthesis.
///
/// The test on the position that an argument in parentheses ends at serves
/// termination alone: such an argument always ends after it starts, see
/// [`lemma_parsed_arguments_advance`].
pub open spec fn parsed_arguments(
    tokens: Seq<TokenView>,
    pos: int,
    head: ExprTypeView,
    args: Seq<ExpressionView>,
) -> Result<(ExpressionView, int), CalcErrorView>
    decreases tokens.len() - pos, 0int,
{
    if pos < 0 || pos >= tokens.len() {
        Err(CalcErrorView::UnclosedExpression)
    } else {
        match tokens[pos] {
            TokenView::LPar => match parsed_whole_expression(tokens, pos + 1) {
                Ok((sub, next)) => if pos < next <= tokens.len() {
                    parsed_arguments(tokens, next, head, args.push(sub))
                } else {
                    Err(CalcErrorView::UnclosedExpression)
                },
                Err(error) => Err(error),
            },
            TokenView::RPar => Ok((ExpressionView { expr_type: head, args }, pos + 1)),
            TokenView::Operator(op) => Err(CalcErrorView::MisplacedOperator(op)),
            TokenView::Literal(x) => parsed_arguments(
                tokens,
                pos + 1,
                head,
                args.push(leaf(ExprTypeView::Number(x))),
            ),
            TokenView::Name(name) => parsed_arguments(
                tokens,
                pos + 1,
                head,
                args.push(leaf(ExprTypeView::Variable(name))),
            ),
            TokenView::TKeyword(k) => Err(CalcErrorView::MisplacedKeyword(k)),
        }
    }
}

/// The expression that starts with its head at `pos`, just after a left
/// parenthesis; with it the position after the right parenthesis that ends it.
pub open spec fn parsed_whole_expression(tokens: Seq<TokenView>, pos: int) -> Result<
    (ExpressionView, int),
    CalcErrorView,
>
    decreases tokens.len() - pos, 1int,
{
    if pos < 0 || pos >= tokens.len() {
        Err(CalcErrorView::InvalidFirstToken)
    } else {
        match tokens[pos] {
            TokenView::Operator(op) => parsed_arguments(
                tokens,
                pos + 1,
                ExprTypeView::Operator(op),
                Seq::empty(),
            ),
            TokenView::Name(name) => parsed_arguments(
                tokens,
                pos + 1,
                ExprTypeView::Function(name),
                Seq::empty(),
            ),
            _ => Err(CalcErrorView::InvalidFirstToken),
        }
    }
}

/// The expression with the head `head` whose arguments start at `pos`; with it the
/// position after the right parenthesis that ends it.
pub open spec fn parsed_expression(tokens: Seq<TokenView>, pos: int, head: ExprTypeView) -> Result<
    (ExpressionView, int),
    CalcErrorView,
> {
    parsed_arguments(tokens, pos, head, Seq::empty())
}

/// The statement `stmt` once the right parenthesis at `pos` has ended it; with it
/// the position after that parenthesis.
pub open spec fn parsed_end(tokens: Seq<TokenView>, pos: int, stmt: StatementView) -> Result<
    (StatementView, int),
    CalcErrorView,
> {
    if pos < 0 || pos >= tokens.len() {
        Err(CalcErrorView::UnexpectedEnd)
    } else if tokens[pos] is RPar {
        Ok((stmt, pos + 1))
    } else {
        Err(CalcErrorView::UnexpectedToken(tokens[pos], Expected::RPar))
    }
}

/// The assignment whose name is at `pos`, just after `set`: a name, then one
/// literal or one expression in parentheses, then the right parenthesis; with it
/// the position after that parenthesis.
pub open spec fn parsed_assign(tokens: Seq<TokenView>, pos: int) -> Result<
    (StatementView, int),
    CalcErrorView,
> {
    if pos < 0 || pos >= tokens.len() {
        Err(CalcErrorView::UnexpectedEnd)
    } else {
        match tokens[pos] {
            TokenView::Name(name) => if pos + 1 >= tokens.len() {
                Err(CalcErrorView::UnexpectedEnd)
            } else {
                match tokens[pos + 1] {
                    TokenView::LPar => match parsed_whole_expression(tokens, pos + 2) {
                        Ok((rhs, next)) => parsed_end(
                            tokens,
                            next,
                            StatementView { stmt_type: StmtType::Assign, name, rhs },
                        ),
                        Err(error) => Err(error),
                    },
                    TokenView::Literal(x) => parsed_end(
                        tokens,
                        pos + 2,
                        StatementView {
                            stmt_type: StmtType::Assign,
                            name,
                            rhs: leaf(ExprTypeView::Number(x)),
                        },
                    ),
                    other => Err(CalcErrorView::UnexpectedToken(other, Expected::Value)),
                }
            },
            other => Err(CalcErrorView::UnexpectedToken(other, Expected::Name)),
        }
    }
}

/// The statement of the kind `kind` whose tokens start at `pos`, just after its
/// keyword. Only an assignment is parsed; the definition of a function is not
/// part of the language yet.
pub open spec fn parsed_statement(tokens: Seq<TokenView>, pos: int, kind: StmtType) -> Result<
    (StatementView, int),
    CalcErrorView,
> {
    match kind {
        StmtType::FuncDef => Err(CalcErrorView::NotImplemented),
        StmtType::Assign => parsed_assign(tokens, pos),
    }
}

/// The tree that starts with its head at `pos`, just after the left parenthesis
/// of the line: an operator or a name starts an expression, a keyword a
/// statement; with it the position after the right parenthesis that ends it.
pub open spec fn parsed_line(tokens: Seq<TokenView>, pos: int) -> Result<
    (AstView, int),
    CalcErrorView,
> {
    if pos < 0 || pos >= tokens.len() {
        Err(CalcErrorView::InvalidFirstToken)
    } else {
        match tokens[pos] {
            TokenView::Operator(op) => match parsed_expression(
                tokens,
                pos + 1,
                ExprTypeView::Operator(op),
            ) {
                Ok((e, next)) => Ok((AstView::Expression(e), next)),
                Err(error) => Err(error),
            },
            TokenView::Name(name) => match parsed_expression(
                tokens,
                pos + 1,
                ExprTypeView::Function(name),
            ) {
                Ok((e, next)) => Ok((AstView::Expression(e), next)),
                Err(error) => Err(error),
            },
            TokenView::TKeyword(k) => match parsed_statement(
                tokens,
                pos + 1,
                match k {
                    Keyword::Assign => StmtType::Assign,
                    Keyword::Def => StmtType::FuncDef,
                },
            ) {
                Ok((s, next)) => Ok((AstView::Statement(s), next)),
                Err(error) => Err(error),
            },
            _ => Err(CalcErrorView::InvalidFirstToken),
        }
    }
}

/// The tree of a line: the tokens start with a left parenthesis, hold one
/// expression or statement, and end with the right parenthesis that ends it.
pub open spec fn parsed(tokens: Seq<TokenView>) -> Result<AstView, CalcErrorView> {
    if tokens.len() == 0 || !(tokens[0] is LPar) {
        Err(CalcErrorView::MissingParentheses)
    } else {
        match parsed_line(tokens, 1) {
            Ok((ast, next)) => if next == tokens.len() {
                Ok(ast)
            } else {
                Err(CalcErrorView::TrailingTokens)
            },
            Err(error) => Err(error),
        }
    }
}

/// An expression ends after the position at which its arguments start, and
/// within the tokens.
pub proof fn lemma_parsed_arguments_advance(
    tokens: Seq<TokenView>,
    pos: int,
    head: ExprTypeView,
    args: Seq<ExpressionView>,
)
    requires
        parsed_arguments(tokens, pos, head, args) is Ok,
    ensures
        pos < parsed_arguments(tokens, pos, head, args)->Ok_0.1 <= tokens.len(),
    decreases tokens.len() - pos, 0int,
{
    match tokens[pos] {
        TokenView::LPar => {
            let (sub, next) = parsed_whole_expression(tokens, pos + 1)->Ok_0;
            lemma_parsed_arguments_advance(tokens, next, head, args.push(sub));
        },
        TokenView::Literal(x) => {
            lemma_parsed_arguments_advance(
                tokens,
                pos + 1,
                head,
                args.push(leaf(ExprTypeView::Number(x))),
            );
        },
        TokenView::Name(name) => {
            lemma_parsed_arguments_advance(
                tokens,
                pos + 1,
                head,
                args.push(leaf(ExprTypeView::Variable(name))),
            );
        },
        _ => {},
    }
}

/// An expression in parentheses ends after the position of its head, and within
/// the tokens.
pub proof fn lemma_parsed_whole_expression_advances(tokens: Seq<TokenView>, pos: int)
    requires
        parsed_whole_expression(tokens, pos) is Ok,
    ensures
        pos < parsed_whole_expression(tokens, pos)->Ok_0.1 <= tokens.len(),
{
    match tokens[pos] {
        TokenView::Operator(op) => {
            lemma_parsed_arguments_advance(
                tokens,
                pos + 1,
                ExprTypeView::Operator(op),
                Seq::empty(),
            );
        },
        TokenView::Name(name) => {
            lemma_parsed_arguments_advance(
                tokens,
                pos + 1,
                ExprTypeView::Function(name),
                Seq::empty(),
            );
        },
        _ => {},
    }
}

/// A result of parsing, with a position, as a value of specifications.
pub open spec fn parsed_view<T: View>(r: CalcResult<(T, usize)>) -> Result<
    (T::V, int),
    CalcErrorView,
> {
    match r {
        Ok((tree, next)) => Ok((tree@, next as int)),
        Err(error) => Err(error@),
    }
}

/// Parses the tokens of a line into its tree.
pub fn parse(token_slice: &[Token]) -> (r: CalcResult<AST>)
    ensures
        match r {
            Ok(ast) => parsed(token_views(token_slice@)) == Ok::<AstView, CalcErrorView>(ast@),
            Err(error) => parsed(token_views(token_slice@)) == Err::<AstView, CalcErrorView>(
                error@,
            ),
        },
{
    // The line has to open with a parenthesis.
    if token_slice.len() == 0 {
        return Err(CalcError::MissingParentheses);
    }
    match &token_slice[0] {
        Token::LPar => {
            let (ast, next) = parse_line(token_slice, 1)?;
            if next == token_slice.len() {
                Ok(ast)
            } else {
                Err(CalcError::TrailingTokens)
            }
        },
        _ => Err(CalcError::MissingParentheses),
    }
}

/// Parses the expression or statement whose head is at `pos`.
pub fn parse_line(tokens: &[Token], pos: usize) -> (r: CalcResult<(AST, usize)>)
    ensures
        parsed_view(r) == parsed_line(token_views(tokens@), pos as int),
        r is Ok ==> pos < r->Ok_0.1 <= tokens@.len(),
{
    if pos >= tokens.len() {
        return Err(CalcError::InvalidFirstToken);
    }
    // The first token tells an expression from a statement.
    match &tokens[pos] {
        Token::Operator(op) => {
            let (e, next) = parse_expression(tokens, pos + 1, ExprType::Operator(*op))?;
            Ok((AST::Expression(e), next))
        },
        Token::Name(func_name) => {
            let (e, next) = parse_expression(
                tokens,
                pos + 1,
                ExprType::Function(func_name.clone()),
            )?;
            Ok((AST::Expression(e), next))
        },
        Token::TKeyword(k) => {
            let kind = match k {
                Keyword::Assign => StmtType::Assign,
                Keyword::Def => StmtType::FuncDef,
            };
            let (s, next) = parse_statement(tokens, pos + 1, kind)?;
            Ok((AST::Statement(s), next))
        },
        _ => Err(CalcError::InvalidFirstToken),
    }
}

/// Parses the expression whose head is at `pos`.
pub fn parse_whole_expression(tokens: &[Token], pos: usize) -> (r: CalcResult<(Expression, usize)>)
    ensures
        parsed_view(r) == parsed_whole_expression(token_views(tokens@), pos as int),
        r is Ok ==> pos < r->Ok_0.1 <= tokens@.len(),
    decreases tokens@.len() - pos, 1int,
{
    if pos >= tokens.len() {
        return Err(CalcError::InvalidFirstToken);
    }
    match &tokens[pos] {
        Token::Operator(op) => parse_expression(tokens, pos + 1, ExprType::Operator(*op)),
        Token::Name(func_name) => parse_expression(
            tokens,
            pos + 1,
            ExprType::Function(func_name.clone()),
        ),
        _ => Err(CalcError::InvalidFirstToken),
    }
}

/// Parses the arguments of the expression with the head `top_expr`, from `start`
/// up to the right parenthesis that ends the expression.
pub fn parse_expression(tokens: &[Token], start: usize, top_expr: ExprType) -> (r: CalcResult<
    (Expression, usize),
>)
    ensures
        parsed_view(r) == parsed_expression(token_views(tokens@), start as int, top_expr@),
        r is Ok ==> start < r->Ok_0.1 <= tokens@.len(),
    decreases tokens@.len() - start, 0int,
{
    let ghost views = token_views(tokens@);
    // The arguments that have been parsed.
    let mut args: Vec<Expression> = Vec::new();
    let mut pos = start;
    proof {
        assert(expression_views(args@) =~= Seq::empty());
    }
    loop
        invariant
            views == token_views(tokens@),
            start <= pos,
            parsed_arguments(views, pos as int, top_expr@, expression_views(args@))
                == parsed_expression(views, start as int, top_expr@),
        decreases tokens@.len() - pos,
    {
        if pos >= tokens.len() {
            return Err(CalcError::UnclosedExpression);
        }
        let ghost before = expression_views(args@);
        match &tokens[pos] {
            // Here begins a sub-expression.
            Token::LPar => {
                let (sub, next) = parse_whole_expression(tokens, pos + 1)?;
                args.push(sub);
                pos = next;
                proof {
                    assert(expression_views(args@) =~= before.push(sub@));
                }
            },
            // Here ends the expression.
            Token::RPar => {
                let e = Expression { expr_type: top_expr, args };
                proof {
                    lemma_view_of_arguments(e);
                }
                return Ok((e, pos + 1));
            },
            Token::Operator(op) => {
                return Err(CalcError::MisplacedOperator(*op));
            },
            // A number as an argument.
            Token::Literal(x) => {
                let number = Expression::from_type(ExprType::Number(*x));
                args.push(number);
                pos = pos + 1;
                proof {
                    assert(expression_views(args@) =~= before.push(number@));
                }
            },
            // The name of a constant or variable as an argument.
            Token::Name(name) => {
                let var = Expression::from_type(ExprType::Variable(name.clone()));
                args.push(var);
                pos = pos + 1;
                proof {
                    assert(expression_views(args@) =~= before.push(var@));
                }
            },
            Token::TKeyword(k) => {
                return Err(CalcError::MisplacedKeyword(*k));
            },
        }
    }
}

/// Parses the statement of the kind `top_stmt` whose tokens start at `pos`.
pub fn parse_statement(tokens: &[Token], pos: usize, top_stmt: StmtType) -> (r: CalcResult<
    (Statement, usize),
>)
    ensures
        parsed_view(r) == parsed_statement(token_views(tokens@), pos as int, top_stmt),
        r is Ok ==> pos < r->Ok_0.1 <= tokens@.len(),
{
    match top_stmt {
        StmtType::FuncDef => Err(CalcError::NotImplemented),
        StmtType::Assign => parse_assign(tokens, pos),
    }
}

/// Parses the assignment whose name is at `pos`.
pub fn parse_assign(tokens: &[Token], pos: usize) -> (r: CalcResult<(Statement, usize)>)
    ensures
        parsed_view(r) == parsed_assign(token_views(tokens@), pos as int),
        r is Ok ==> pos < r->Ok_0.1 <= tokens@.len(),
{
    if pos >= tokens.len() {
        return Err(CalcError::UnexpectedEnd);
    }
    // The first token is the name of the variable.
    let name = match &tokens[pos] {
        Token::Name(n) => n.clone(),
        other => {
            return Err(CalcError::UnexpectedToken(other.clone(), Expected::Name));
        },
    };
    if pos + 1 >= tokens.len() {
        return Err(CalcError::UnexpectedEnd);
    }
    // The second is a number or opens a sub-expression.
    let (rhs, next) = match &tokens[pos + 1] {
        Token::LPar => parse_whole_expression(tokens, pos + 2)?,
        Token::Literal(x) => (Expression::from_type(ExprType::Number(*x)), pos + 2),
        other => {
            return Err(CalcError::UnexpectedToken(other.clone(), Expected::Value));
        },
    };
    // Then the statement ends.
    if next >= tokens.len() {
        return Err(CalcError::UnexpectedEnd);
    }
    match &tokens[next] {
        Token::RPar => Ok((Statement { stmt_type: StmtType::Assign, name, rhs }, next + 1)),
        other => Err(CalcError::UnexpectedToken(other.clone(), Expected::RPar)),
    }
}

} // verus!
