//! What can go wrong with a line, and how it is reported.

use vstd::prelude::*;
use vstd::string::*;
use crate::function::Function;
use crate::operator::Operator;
use crate::scanner::{Keyword, Token, TokenView};

verus! {

/// What the parser looked for where it found another token.
#[derive(Clone, Copy, Debug, PartialEq, Eq, Structural)]
pub enum Expected {
    /// The name of the variable to set.
    Name,
    /// A literal or the left parenthesis of an expression.
    Value,
    /// The right parenthesis that ends a statement.
    RPar,
}

impl Expected {
    /// What was looked for, in words.
    pub open spec fn spec_name(self) -> Seq<char> {
        match self {
            Expected::Name => "Name"@,
            Expected::Value => "LPar or Literal"@,
            Expected::RPar => "RPar"@,
        }
    }

    /// What was looked for, in words.
    pub fn name(self) -> (s: &'static str)
        ensures
            s@ == self.spec_name(),
    {
        match self {
            Expected::Name => "Name",
            Expected::Value => "LPar or Literal",
            Expected::RPar => "RPar",
        }
    }
}

/// The reason why a line has no result.
#[derive(Debug)]
pub enum CalcError {
    /// A word that starts like a number and is none.
    InvalidNumber(String),
    /// A word that is no operator, number, keyword or name.
    UnrecognizedToken(String),
    /// The line does not start with a left parenthesis.
    MissingParentheses,
    /// No operator, name or keyword follows a left parenthesis.
    InvalidFirstToken,
    /// The tokens end before the right parenthesis of an expression.
    UnclosedExpression,
    /// An operator stands where an argument belongs.
    MisplacedOperator(Operator),
    /// A keyword stands where an argument belongs.
    MisplacedKeyword(Keyword),
    /// A statement holds a token other than the one looked for.
    UnexpectedToken(Token, Expected),
    /// The tokens end within a statement.
    UnexpectedEnd,
    /// Tokens follow the right parenthesis that ends the line.
    TrailingTokens,
    /// The line defines a function, which the language does not offer yet.
    NotImplemented,
    /// A name that is no variable and no constant.
    UndefinedConstant(String),
    /// A name that is no function.
    UnknownFunction(String),
    /// An operator with a number of arguments that it does not take.
    OperatorArity(Operator),
    /// A function with a number of arguments that it does not take.
    FunctionArity(Function),
    /// A division by zero.
    DivisionByZero,
}

/// An error as a value of specifications: a word is its sequence of characters.
pub enum CalcErrorView {
    InvalidNumber(Seq<char>),
    UnrecognizedToken(Seq<char>),
    MissingParentheses,
    InvalidFirstToken,
    UnclosedExpression,
    MisplacedOperator(Operator),
    MisplacedKeyword(Keyword),
    UnexpectedToken(TokenView, Expected),
    UnexpectedEnd,
    TrailingTokens,
    NotImplemented,
    UndefinedConstant(Seq<char>),
    UnknownFunction(Seq<char>),
    OperatorArity(Operator),
    FunctionArity(Function),
    DivisionByZero,
}

impl CalcErrorView {
    /// The error in words, for the user.
    pub open spec fn message(self) -> Seq<char> {
        match self {
            CalcErrorView::InvalidNumber(word) => "Invalid number '"@ + word + "'"@,
            CalcErrorView::UnrecognizedToken(word) => "Unrecognized token '"@ + word + "'"@,
            CalcErrorView::MissingParentheses => "Parentheses not present or wrongly formatted"@,
            CalcErrorView::InvalidFirstToken => "Invalid first token"@,
            CalcErrorView::UnclosedExpression => "Unable to find last parentheses of expression"@,
            CalcErrorView::MisplacedOperator(op) => "Operator '"@ + op.spec_name()
                + "' in wrong position"@,
            CalcErrorView::MisplacedKeyword(k) => "Keyword '"@ + k.spec_name() + "' in wrong position"@,
            CalcErrorView::UnexpectedToken(token, expected) => "Unexpected "@ + token.described()
                + " expecting "@ + expected.spec_name(),
            CalcErrorView::UnexpectedEnd => "Unexpected end of token-stream"@,
            CalcErrorView::TrailingTokens => "Unexpected token after the end of the line"@,
            CalcErrorView::NotImplemented => "Function definition is not yet implemented"@,
            CalcErrorView::UndefinedConstant(name) => "Undefined constant '"@ + name + "'"@,
            CalcErrorView::UnknownFunction(name) => "Unknown function '"@ + name + "'"@,
            CalcErrorView::OperatorArity(op) => op.spec_demand(),
            CalcErrorView::FunctionArity(func) => func.spec_demand(),
            CalcErrorView::DivisionByZero => "Cannot divide by 0"@,
        }
    }
}

/// `before`, then `word`, then `after`.
fn around(before: &str, word: &str, after: &str) -> (s: String)
    ensures
        s@ == before@ + word@ + after@,
{
    let mut s = before.to_owned();
    s.append(word);
    s.append(after);
    s
}

impl CalcError {
    /// The error in words, for the user.
    pub fn message(&self) -> (s: String)
        ensures
            s@ == self@.message(),
    {
        match self {
            CalcError::InvalidNumber(word) => around("Invalid number '", word.as_str(), "'"),
            CalcError::UnrecognizedToken(word) => around(
                "Unrecognized token '",
                word.as_str(),
                "'",
            ),
            CalcError::MissingParentheses => "Parentheses not present or wrongly formatted"
                .to_owned(),
            CalcError::InvalidFirstToken => "Invalid first token".to_owned(),
            CalcError::UnclosedExpression => "Unable to find last parentheses of expression"
                .to_owned(),
            CalcError::MisplacedOperator(op) => around(
                "Operator '",
                op.name(),
                "' in wrong position",
            ),
            CalcError::MisplacedKeyword(k) => around("Keyword '", k.name(), "' in wrong position"),
            CalcError::UnexpectedToken(token, expected) => {
                let mut s = around("Unexpected ", token.describe().as_str(), " expecting ");
                s.append(expected.name());
                s
            },
            CalcError::UnexpectedEnd => "Unexpected end of token-stream".to_owned(),
            CalcError::TrailingTokens => "Unexpected token after the end of the line".to_owned(),
            CalcError::NotImplemented => "Function definition is not yet implemented".to_owned(),
            CalcError::UndefinedConstant(name) => around(
                "Undefined constant '",
                name.as_str(),
                "'",
            ),
            CalcError::UnknownFunction(name) => around("Unknown function '", name.as_str(), "'"),
            CalcError::OperatorArity(op) => op.demand().to_owned(),
            CalcError::FunctionArity(func) => func.demand().to_owned(),
            CalcError::DivisionByZero => "Cannot divide by 0".to_owned(),
        }
    }
}

impl View for CalcError {
    type V = CalcErrorView;

    open spec fn view(&self) -> CalcErrorView {
        match *self {
            CalcError::InvalidNumber(word) => CalcErrorView::InvalidNumber(word@),
            CalcError::UnrecognizedToken(word) => CalcErrorView::UnrecognizedToken(word@),
            CalcError::MissingParentheses => CalcErrorView::MissingParentheses,
            CalcError::InvalidFirstToken => CalcErrorView::InvalidFirstToken,
            CalcError::UnclosedExpression => CalcErrorView::UnclosedExpression,
            CalcError::MisplacedOperator(op) => CalcErrorView::MisplacedOperator(op),
            CalcError::MisplacedKeyword(k) => CalcErrorView::MisplacedKeyword(k),
            CalcError::UnexpectedToken(token, expected) => CalcErrorView::UnexpectedToken(
                token@,
                expected,
            ),
            CalcError::UnexpectedEnd => CalcErrorView::UnexpectedEnd,
            CalcError::TrailingTokens => CalcErrorView::TrailingTokens,
            CalcError::NotImplemented => CalcErrorView::NotImplemented,
            CalcError::UndefinedConstant(name) => CalcErrorView::UndefinedConstant(name@),
            CalcError::UnknownFunction(name) => CalcErrorView::UnknownFunction(name@),
            CalcError::OperatorArity(op) => CalcErrorView::OperatorArity(op),
            CalcError::FunctionArity(func) => CalcErrorView::FunctionArity(func),
            CalcError::DivisionByZero => CalcErrorView::DivisionByZero,
        }
    }
}

/// The result of a step of the calculator: a number, unless said otherwise, or
/// the reason why there is none.
pub type CalcResult<T = crate::number::Number> = Result<T, CalcError>;

/// A result with its error as a value of specifications.
pub open spec fn lift<T>(r: CalcResult<T>) -> Result<T, CalcErrorView> {
    match r {
        Ok(value) => Ok(value),
        Err(error) => Err(error@),
    }
}

} // verus!
