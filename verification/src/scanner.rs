//! From a line of text to its tokens.

use vstd::prelude::*;
use vstd::string::*;
use crate::buffer::Buffer;
use crate::error::{CalcError, CalcErrorView, CalcResult};
use crate::number::{reads, Number};
use crate::operator::Operator;
use crate::text::{
    alphabetic, chars_of, delimiter, digit, is_alphabetic, is_delimiter, is_digit, is_whitespace,
    same_text, string_from_chars, whitespace,
};

verus! {

/// A word that the language keeps for itself.
#[derive(Clone, Copy, Debug, PartialEq, Eq, Structural)]
pub enum Keyword {
    /// `set`, which assigns a variable.
    Assign,
    /// `def`, which defines a function.
    Def,
}

impl Keyword {
    /// The name under which the keyword is shown in a message.
    pub open spec fn spec_name(self) -> Seq<char> {
        match self {
            Keyword::Assign => "Set"@,
            Keyword::Def => "Def"@,
        }
    }

    /// The name under which the keyword is shown in a message.
    pub fn name(self) -> (s: &'static str)
        ensures
            s@ == self.spec_name(),
    {
        match self {
            Keyword::Assign => "Set",
            Keyword::Def => "Def",
        }
    }
}

/// A lexical unit of a line.
#[derive(Debug)]
pub enum Token {
    /// A number.
    Literal(Number),
    /// A left parenthesis.
    LPar,
    /// A right parenthesis.
    RPar,
    /// An operator.
    Operator(Operator),
    /// A name.
    Name(String),
    /// A keyword.
    TKeyword(Keyword),
}

/// A token as a value of specifications: a name is its sequence of characters.
pub enum TokenView {
    Literal(Number),
    LPar,
    RPar,
    Operator(Operator),
    Name(Seq<char>),
    TKeyword(Keyword),
}

impl TokenView {
    /// The token in words: its kind, and what it holds where that is a name, an
    /// operator or a keyword.
    pub open spec fn described(self) -> Seq<char> {
        match self {
            TokenView::Literal(_) => "Literal"@,
            TokenView::LPar => "LPar"@,
            TokenView::RPar => "RPar"@,
            TokenView::Operator(op) => "Operator("@ + op.spec_name() + ")"@,
            TokenView::Name(name) => "Name("@ + name + ")"@,
            TokenView::TKeyword(k) => "TKeyword("@ + k.spec_name() + ")"@,
        }
    }
}

impl Token {
    /// The token in words.
    pub fn describe(&self) -> (s: String)
        ensures
            s@ == self@.described(),
    {
        match self {
            Token::Literal(_) => "Literal".to_owned(),
            Token::LPar => "LPar".to_owned(),
            Token::RPar => "RPar".to_owned(),
            Token::Operator(op) => {
                let mut s = "Operator(".to_owned();
                s.append(op.name());
                s.append(")");
                s
            },
            Token::Name(name) => {
                let mut s = "Name(".to_owned();
                s.append(name.as_str());
                s.append(")");
                s
            },
            Token::TKeyword(k) => {
                let mut s = "TKeyword(".to_owned();
                s.append(k.name());
                s.append(")");
                s
            },
        }
    }
}

impl View for Token {
    type V = TokenView;

    open spec fn view(&self) -> TokenView {
        match *self {
            Token::Literal(x) => TokenView::Literal(x),
            Token::LPar => TokenView::LPar,
            Token::RPar => TokenView::RPar,
            Token::Operator(op) => TokenView::Operator(op),
            Token::Name(name) => TokenView::Name(name@),
            Token::TKeyword(k) => TokenView::TKeyword(k),
        }
    }
}

impl Clone for Token {
    fn clone(&self) -> (copy: Token)
        ensures
            copy@ == self@,
    {
        match self {
            Token::Literal(x) => Token::Literal(*x),
            Token::LPar => Token::LPar,
            Token::RPar => Token::RPar,
            Token::Operator(op) => Token::Operator(*op),
            Token::Name(name) => Token::Name(name.clone()),
            Token::TKeyword(k) => Token::TKeyword(*k),
        }
    }
}

/// The views of a sequence of tokens, in order.
pub open spec fn token_views(tokens: Seq<Token>) -> Seq<TokenView> {
    tokens.map_values(|t: Token| t@)
}

/// The length of the word at the start of `s`: of the longest run of characters
/// from there that holds no delimiter.
pub open spec fn word_length(s: Seq<char>) -> nat
    decreases s.len(),
{
    if s.len() == 0 || delimiter(s[0]) {
        0
    } else {
        1 + word_length(s.drop_first())
    }
}

/// The token that a word is, where `g` reads the literals.
///
/// An operator symbol is an operator. Any other word that starts with a digit or
/// a minus sign is a literal, and has to read as one. A word that starts with a
/// letter is a keyword or a name. No other word is a token.
pub open spec fn classified(g: spec_fn(Seq<char>) -> Option<Number>, word: Seq<char>) -> Result<
    TokenView,
    CalcErrorView,
>
    recommends
        word.len() > 0,
{
    match Operator::named(word) {
        Some(op) => Ok(TokenView::Operator(op)),
        None => if digit(word[0]) || word[0] == '-' {
            match g(word) {
                Some(x) => Ok(TokenView::Literal(x)),
                None => Err(CalcErrorView::InvalidNumber(word)),
            }
        } else if alphabetic(word[0]) {
            if word == "set"@ {
                Ok(TokenView::TKeyword(Keyword::Assign))
            } else if word == "def"@ {
                Ok(TokenView::TKeyword(Keyword::Def))
            } else {
                Ok(TokenView::Name(word))
            }
        } else {
            Err(CalcErrorView::UnrecognizedToken(word))
        },
    }
}

/// `tokens` and then what `rest` holds, or the error in `rest`.
pub open spec fn followed_by(
    tokens: Seq<TokenView>,
    rest: Result<Seq<TokenView>, CalcErrorView>,
) -> Result<Seq<TokenView>, CalcErrorView> {
    match rest {
        Ok(more) => Ok(tokens + more),
        Err(error) => Err(error),
    }
}

/// The tokens of `s` from left to right, where `g` reads the literals, or the
/// error of the first word that is no token.
///
/// Whitespace separates and is dropped. A parenthesis is a token by itself. Any
/// other character starts a word, which reaches up to the next delimiter.
pub open spec fn scanned(g: spec_fn(Seq<char>) -> Option<Number>, s: Seq<char>) -> Result<
    Seq<TokenView>,
    CalcErrorView,
>
    decreases s.len(),
    via scanned_decreases
{
    if s.len() == 0 {
        Ok(Seq::empty())
    } else if whitespace(s[0]) {
        scanned(g, s.drop_first())
    } else if s[0] == '(' {
        followed_by(seq![TokenView::LPar], scanned(g, s.drop_first()))
    } else if s[0] == ')' {
        followed_by(seq![TokenView::RPar], scanned(g, s.drop_first()))
    } else {
        match classified(g, s.take(word_length(s) as int)) {
            Ok(token) => followed_by(seq![token], scanned(g, s.skip(word_length(s) as int))),
            Err(error) => Err(error),
        }
    }
}

#[via_fn]
proof fn scanned_decreases(g: spec_fn(Seq<char>) -> Option<Number>, s: Seq<char>) {
    lemma_word_length_bounds(s);
}

/// A word is no longer than the text it starts, and holds a character where the
/// text starts with one that is no delimiter.
pub proof fn lemma_word_length_bounds(s: Seq<char>)
    ensures
        word_length(s) <= s.len(),
        s.len() > 0 && !delimiter(s[0]) ==> word_length(s) >= 1,
    decreases s.len(),
{
    if s.len() > 0 && !delimiter(s[0]) {
        lemma_word_length_bounds(s.drop_first());
    }
}

/// Where a text is a run without delimiters and then a rest that is empty or
/// starts with a delimiter, the run is the word at its start.
pub proof fn lemma_word_is_run(s: Seq<char>, word: Seq<char>, rest: Seq<char>)
    requires
        s == word + rest,
        forall|i: int| 0 <= i < word.len() ==> !delimiter(#[trigger] word[i]),
        rest.len() > 0 ==> delimiter(rest[0]),
    ensures
        word_length(s) == word.len(),
        s.take(word_length(s) as int) == word,
        s.skip(word_length(s) as int) == rest,
    decreases word.len(),
{
    if word.len() == 0 {
        assert(s =~= rest);
    } else {
        assert(s[0] == word[0]);
        assert(s.drop_first() =~= word.drop_first() + rest);
        lemma_word_is_run(s.drop_first(), word.drop_first(), rest);
    }
    assert(s.take(word.len() as int) =~= word);
    assert(s.skip(word.len() as int) =~= rest);
}

/// The token that `word` is, with `number` to read a literal.
pub fn classify<P: Fn(&str) -> Option<Number>>(word: String, number: &P) -> (r: CalcResult<Token>)
    requires
        word@.len() > 0,
        forall|w: &str| number.requires((w,)),
    ensures
        forall|g: spec_fn(Seq<char>) -> Option<Number>| #[trigger]
            reads(number, g) ==> match r {
                Ok(token) => classified(g, word@) == Ok::<TokenView, CalcErrorView>(token@),
                Err(error) => classified(g, word@) == Err::<TokenView, CalcErrorView>(error@),
            },
{
    // Operators come first: a lone minus sign is one, and no number.
    match Operator::from_str(word.as_str()) {
        Some(op) => {
            return Ok(Token::Operator(op));
        },
        None => {},
    }
    let c = word.as_str().get_char(0);
    if is_digit(c) || c == '-' {
        match number(word.as_str()) {
            Some(x) => Ok(Token::Literal(x)),
            None => Err(CalcError::InvalidNumber(word)),
        }
    } else if is_alphabetic(c) {
        if same_text(word.as_str(), "set") {
            Ok(Token::TKeyword(Keyword::Assign))
        } else if same_text(word.as_str(), "def") {
            Ok(Token::TKeyword(Keyword::Def))
        } else {
            Ok(Token::Name(word))
        }
    } else {
        Err(CalcError::UnrecognizedToken(word))
    }
}

/// Scans a line into its tokens, with `number` to read the literals. For whatever
/// reading of literals `number` computes, the result is the tokens of the line
/// under it, or the error of the first word that is no token.
pub fn scan<P: Fn(&str) -> Option<Number>>(s: &str, number: &P) -> (r: CalcResult<Vec<Token>>)
    requires
        forall|w: &str| number.requires((w,)),
    ensures
        forall|g: spec_fn(Seq<char>) -> Option<Number>| #[trigger]
            reads(number, g) ==> match r {
                Ok(tokens) => scanned(g, s@) == Ok::<Seq<TokenView>, CalcErrorView>(
                    token_views(tokens@),
                ),
                Err(error) => scanned(g, s@) == Err::<Seq<TokenView>, CalcErrorView>(error@),
            },
{
    let mut buf = Buffer::new(chars_of(s));
    let mut tokens: Vec<Token> = Vec::new();
    proof {
        assert(token_views(tokens@) =~= Seq::empty());
        assert forall|g: spec_fn(Seq<char>) -> Option<Number>| #[trigger]
            reads(number, g) implies scanned(g, s@) == followed_by(
            token_views(tokens@),
            scanned(g, buf@),
        ) by {
            lemma_followed_by_nothing(scanned(g, s@));
        }
    }
    while !buf.is_empty()
        invariant
            forall|w: &str| number.requires((w,)),
            forall|g: spec_fn(Seq<char>) -> Option<Number>| #[trigger]
                reads(number, g) ==> scanned(g, s@) == followed_by(
                    token_views(tokens@),
                    scanned(g, buf@),
                ),
        decreases buf@.len(),
    {
        let ghost text = buf@;
        let ghost before = token_views(tokens@);
        let c = buf.peek().unwrap();
        if is_whitespace(c) {
            buf.pop();
        } else if c == '(' {
            tokens.push(Token::LPar);
            buf.pop();
            proof {
                assert(token_views(tokens@) =~= before + seq![TokenView::LPar]);
                assert forall|g: spec_fn(Seq<char>) -> Option<Number>| #[trigger]
                    reads(number, g) implies scanned(g, s@) == followed_by(
                    token_views(tokens@),
                    scanned(g, buf@),
                ) by {
                    lemma_followed_by_twice(before, seq![TokenView::LPar], scanned(g, buf@));
                }
            }
        } else if c == ')' {
            tokens.push(Token::RPar);
            buf.pop();
            proof {
                assert(token_views(tokens@) =~= before + seq![TokenView::RPar]);
                assert forall|g: spec_fn(Seq<char>) -> Option<Number>| #[trigger]
                    reads(number, g) implies scanned(g, s@) == followed_by(
                    token_views(tokens@),
                    scanned(g, buf@),
                ) by {
                    lemma_followed_by_twice(before, seq![TokenView::RPar], scanned(g, buf@));
                }
            }
        } else {
            let ends_word = |c: &char| -> (b: bool)
                ensures
                    b == delimiter(*c),
                { is_delimiter(*c) };
            let letters = buf.take_until(ends_word);
            proof {
                lemma_word_is_run(text, letters@, buf@);
                lemma_word_length_bounds(text);
            }
            let word = string_from_chars(&letters);
            match classify(word, number) {
                Ok(token) => {
                    tokens.push(token);
                    proof {
                        assert(token_views(tokens@) =~= before + seq![token@]);
                        assert forall|g: spec_fn(Seq<char>) -> Option<Number>| #[trigger]
                            reads(number, g) implies scanned(g, s@) == followed_by(
                            token_views(tokens@),
                            scanned(g, buf@),
                        ) by {
                            lemma_followed_by_twice(before, seq![token@], scanned(g, buf@));
                        }
                    }
                },
                Err(error) => {
                    return Err(error);
                },
            }
        }
    }
    proof {
        assert forall|g: spec_fn(Seq<char>) -> Option<Number>| #[trigger]
            reads(number, g) implies scanned(g, s@) == Ok::<Seq<TokenView>, CalcErrorView>(
            token_views(tokens@),
        ) by {
            assert(token_views(tokens@) + Seq::<TokenView>::empty() =~= token_views(tokens@));
        }
    }
    Ok(tokens)
}

/// Whitespace before a text changes nothing of its tokens.
pub proof fn lemma_scanned_after_whitespace(
    g: spec_fn(Seq<char>) -> Option<Number>,
    c: char,
    rest: Seq<char>,
)
    requires
        whitespace(c),
    ensures
        scanned(g, seq![c] + rest) == scanned(g, rest),
{
    assert((seq![c] + rest).drop_first() =~= rest);
}

/// A parenthesis before a text is one token before the tokens of the text.
pub proof fn lemma_scanned_after_parenthesis(
    g: spec_fn(Seq<char>) -> Option<Number>,
    rest: Seq<char>,
)
    ensures
        scanned(g, seq!['('] + rest) == followed_by(seq![TokenView::LPar], scanned(g, rest)),
        scanned(g, seq![')'] + rest) == followed_by(seq![TokenView::RPar], scanned(g, rest)),
{
    assert((seq!['('] + rest).drop_first() =~= rest);
    assert((seq![')'] + rest).drop_first() =~= rest);
}

/// A word before a text that is empty or starts with a delimiter is the token
/// that the word is, before the tokens of the text; where the word is no token,
/// its error is the error of the whole.
pub proof fn lemma_scanned_after_word(
    g: spec_fn(Seq<char>) -> Option<Number>,
    word: Seq<char>,
    rest: Seq<char>,
)
    requires
        word.len() > 0,
        forall|i: int| 0 <= i < word.len() ==> !delimiter(#[trigger] word[i]),
        rest.len() > 0 ==> delimiter(rest[0]),
    ensures
        scanned(g, word + rest) == (match classified(g, word) {
            Ok(token) => followed_by(seq![token], scanned(g, rest)),
            Err(error) => Err(error),
        }),
{
    lemma_word_is_run(word + rest, word, rest);
    assert((word + rest)[0] == word[0]);
}

/// Nothing followed by a result is that result.
pub proof fn lemma_followed_by_nothing(rest: Result<Seq<TokenView>, CalcErrorView>)
    ensures
        followed_by(Seq::empty(), rest) == rest,
{
    match rest {
        Ok(more) => {
            assert(Seq::<TokenView>::empty() + more =~= more);
        },
        Err(_) => {},
    }
}

/// Tokens followed by more tokens followed by a result are all of the tokens
/// followed by the result.
pub proof fn lemma_followed_by_twice(
    first: Seq<TokenView>,
    second: Seq<TokenView>,
    rest: Result<Seq<TokenView>, CalcErrorView>,
)
    ensures
        followed_by(first, followed_by(second, rest)) == followed_by(first + second, rest),
{
    match rest {
        Ok(more) => {
            assert(first + (second + more) =~= (first + second) + more);
        },
        Err(_) => {},
    }
}

} // verus!
