//! The grammar, read the other way: how a tree is written down as tokens.
//!
//! The parser accepts the sequences of tokens that are a tree written down, and no
//! others, and what it returns for one is that tree.

use vstd::prelude::*;
use crate::error::CalcErrorView;
use crate::expression::{ExprTypeView, ExpressionView};
use crate::parser::{
    leaf, lemma_parsed_arguments_advance, parsed, parsed_arguments, parsed_assign, parsed_end,
    parsed_line, parsed_whole_expression, AstView,
};
use crate::scanner::{Keyword, TokenView};
use crate::statement::{StatementView, StmtType};

verus! {

/// Whether the node applies an operator or a function.
pub open spec fn is_call(e: ExpressionView) -> bool {
    e.expr_type is Operator || e.expr_type is Function
}

/// Whether the expression can be written down: only what applies an operator or
/// a function has arguments, throughout.
pub open spec fn well_formed(e: ExpressionView) -> bool
    decreases e,
{
    if is_call(e) {
        forall|i: int| 0 <= i < e.args.len() ==> well_formed(#[trigger] e.args[i])
    } else {
        e.args.len() == 0
    }
}

/// The token that heads an expression in parentheses.
pub open spec fn head_token(kind: ExprTypeView) -> TokenView
    recommends
        kind is Operator || kind is Function,
{
    match kind {
        ExprTypeView::Operator(op) => TokenView::Operator(op),
        ExprTypeView::Function(name) => TokenView::Name(name),
        ExprTypeView::Number(x) => TokenView::Literal(x),
        ExprTypeView::Variable(name) => TokenView::Name(name),
    }
}

/// The kind of the expression that a token heads.
pub open spec fn kind_headed_by(token: TokenView) -> ExprTypeView
    recommends
        token is Operator || token is Name,
{
    match token {
        TokenView::Operator(op) => ExprTypeView::Operator(op),
        TokenView::Name(name) => ExprTypeView::Function(name),
        _ => arbitrary(),
    }
}

/// An expression written down: a number is its literal, a variable its name, and
/// what applies an operator or a function is that head and the arguments, in
/// parentheses.
pub open spec fn written(e: ExpressionView) -> Seq<TokenView>
    decreases e,
{
    if is_call(e) {
        seq![TokenView::LPar, head_token(e.expr_type)] + written_all(e.args) + seq![
            TokenView::RPar,
        ]
    } else {
        seq![head_token(e.expr_type)]
    }
}

/// Expressions written down one after the other.
pub open spec fn written_all(args: Seq<ExpressionView>) -> Seq<TokenView>
    decreases args,
{
    if args.len() == 0 {
        Seq::empty()
    } else {
        written(args[0]) + written_all(args.drop_first())
    }
}

/// Whether the tree can be written down as a line: an expression that applies an
/// operator or a function, or an assignment whose right-hand side is a number or
/// applies one.
pub open spec fn well_formed_line(ast: AstView) -> bool {
    match ast {
        AstView::Expression(e) => is_call(e) && well_formed(e),
        AstView::Statement(s) => s.stmt_type is Assign && !(s.rhs.expr_type is Variable)
            && well_formed(s.rhs),
    }
}

/// A line written down: an expression as it is, an assignment as `set`, the name
/// and the right-hand side, in parentheses.
pub open spec fn written_line(ast: AstView) -> Seq<TokenView> {
    match ast {
        AstView::Expression(e) => written(e),
        AstView::Statement(s) => seq![
            TokenView::LPar,
            TokenView::TKeyword(Keyword::Assign),
            TokenView::Name(s.name),
        ] + written(s.rhs) + seq![TokenView::RPar],
    }
}

/// Arguments written down between any tokens, and a right parenthesis after
/// them, parse into those arguments, after the ones that are there already.
pub proof fn lemma_written_arguments_parse(
    before: Seq<TokenView>,
    args: Seq<ExpressionView>,
    after: Seq<TokenView>,
    head: ExprTypeView,
    acc: Seq<ExpressionView>,
)
    requires
        forall|i: int| 0 <= i < args.len() ==> well_formed(#[trigger] args[i]),
    ensures
        parsed_arguments(
            before + written_all(args) + seq![TokenView::RPar] + after,
            before.len() as int,
            head,
            acc,
        ) == Ok::<(ExpressionView, int), CalcErrorView>(
            (
                ExpressionView { expr_type: head, args: acc + args },
                (before.len() + written_all(args).len() + 1) as int,
            ),
        ),
    decreases args,
{
    let close = seq![TokenView::RPar];
    let tokens = before + written_all(args) + close + after;
    let pos = before.len() as int;
    if args.len() == 0 {
        assert(tokens[pos] == TokenView::RPar);
        assert(acc + args =~= acc);
    } else {
        let first = args[0];
        let rest = args.drop_first();
        let w = written(first);
        assert(well_formed(first));
        assert forall|i: int| 0 <= i < rest.len() implies well_formed(#[trigger] rest[i]) by {
            assert(rest[i] == args[i + 1]);
        }
        assert(tokens =~= (before + w) + written_all(rest) + close + after);
        assert(acc.push(first) + rest =~= acc + args);
        if is_call(first) {
            let open = seq![TokenView::LPar, head_token(first.expr_type)];
            let tail = written_all(rest) + close + after;
            assert(tokens =~= (before + open) + written_all(first.args) + close + tail);
            assert(tokens[pos] == TokenView::LPar);
            assert(tokens[pos + 1] == head_token(first.expr_type));
            lemma_written_arguments_parse(
                before + open,
                first.args,
                tail,
                first.expr_type,
                Seq::empty(),
            );
            assert(Seq::<ExpressionView>::empty() + first.args =~= first.args);
            assert(parsed_whole_expression(tokens, pos + 1) == Ok::<
                (ExpressionView, int),
                CalcErrorView,
            >((first, pos + w.len())));
            lemma_written_arguments_parse(before + w, rest, after, head, acc.push(first));
        } else {
            assert(first.args =~= Seq::empty());
            assert(first == leaf(first.expr_type));
            assert(tokens[pos] == head_token(first.expr_type));
            lemma_written_arguments_parse(before + w, rest, after, head, acc.push(first));
        }
    }
}

/// A tree written down as a line parses into that tree.
pub proof fn lemma_written_line_parses(ast: AstView)
    requires
        well_formed_line(ast),
    ensures
        parsed(written_line(ast)) == Ok::<AstView, CalcErrorView>(ast),
{
    let close = seq![TokenView::RPar];
    let none = Seq::<TokenView>::empty();
    match ast {
        AstView::Expression(e) => {
            let open = seq![TokenView::LPar, head_token(e.expr_type)];
            let tokens = written(e);
            assert(tokens =~= open + written_all(e.args) + close + none);
            lemma_written_arguments_parse(open, e.args, none, e.expr_type, Seq::empty());
            assert(Seq::<ExpressionView>::empty() + e.args =~= e.args);
            assert(tokens[0] == TokenView::LPar);
            assert(tokens[1] == head_token(e.expr_type));
        },
        AstView::Statement(s) => {
            let start = seq![
                TokenView::LPar,
                TokenView::TKeyword(Keyword::Assign),
                TokenView::Name(s.name),
            ];
            let tokens = written_line(ast);
            let w = written(s.rhs);
            assert(tokens[0] == TokenView::LPar);
            assert(tokens[1] == TokenView::TKeyword(Keyword::Assign));
            assert(tokens[2] == TokenView::Name(s.name));
            if is_call(s.rhs) {
                let open = seq![TokenView::LPar, head_token(s.rhs.expr_type)];
                assert(tokens =~= (start + open) + written_all(s.rhs.args) + close + close);
                lemma_written_arguments_parse(
                    start + open,
                    s.rhs.args,
                    close,
                    s.rhs.expr_type,
                    Seq::empty(),
                );
                assert(Seq::<ExpressionView>::empty() + s.rhs.args =~= s.rhs.args);
                assert(tokens[3] == TokenView::LPar);
                assert(tokens[4] == head_token(s.rhs.expr_type));
                assert(parsed_whole_expression(tokens, 4) == Ok::<
                    (ExpressionView, int),
                    CalcErrorView,
                >((s.rhs, (3 + w.len()) as int)));
                assert(tokens[(3 + w.len()) as int] == TokenView::RPar);
            } else {
                assert(s.rhs.args =~= Seq::empty());
                assert(s.rhs == leaf(s.rhs.expr_type));
                assert(tokens[3] == head_token(s.rhs.expr_type));
                assert(tokens[4] == TokenView::RPar);
            }
        },
    }
}

/// What the arguments of an expression parse into is written down where they
/// were parsed from: the tokens from the start to the end are the new arguments
/// written down and a right parenthesis.
pub proof fn lemma_parsed_arguments_are_written(
    tokens: Seq<TokenView>,
    pos: int,
    head: ExprTypeView,
    acc: Seq<ExpressionView>,
)
    requires
        0 <= pos,
        parsed_arguments(tokens, pos, head, acc) is Ok,
    ensures
        ({
            let (e, next) = parsed_arguments(tokens, pos, head, acc)->Ok_0;
            &&& pos < next <= tokens.len()
            &&& e.expr_type == head
            &&& acc.len() <= e.args.len()
            &&& e.args.take(acc.len() as int) == acc
            &&& forall|i: int| acc.len() <= i < e.args.len() ==> well_formed(#[trigger] e.args[i])
            &&& tokens.subrange(pos, next) == written_all(e.args.skip(acc.len() as int)) + seq![
                TokenView::RPar,
            ]
        }),
    decreases tokens.len() - pos,
{
    lemma_parsed_arguments_advance(tokens, pos, head, acc);
    let (e, next) = parsed_arguments(tokens, pos, head, acc)->Ok_0;
    let close = seq![TokenView::RPar];
    let k = acc.len() as int;
    match tokens[pos] {
        TokenView::RPar => {
            assert(e.args.take(k) =~= acc);
            assert(e.args.skip(k) =~= Seq::empty());
            assert(tokens.subrange(pos, next) =~= Seq::<TokenView>::empty() + close);
        },
        TokenView::LPar => {
            let (sub, mid) = parsed_whole_expression(tokens, pos + 1)->Ok_0;
            lemma_parsed_whole_expression_is_written(tokens, pos + 1);
            lemma_parsed_arguments_are_written(tokens, mid, head, acc.push(sub));
            assert(e.args.take(k) =~= e.args.take(k + 1).take(k));
            assert(e.args[k] == e.args.take(k + 1)[k]);
            assert(e.args.skip(k).drop_first() =~= e.args.skip(k + 1));
            assert(tokens.subrange(pos, next) =~= tokens.subrange(pos, mid) + tokens.subrange(
                mid,
                next,
            ));
        },
        TokenView::Literal(x) => {
            let arg = leaf(ExprTypeView::Number(x));
            lemma_parsed_arguments_are_written(tokens, pos + 1, head, acc.push(arg));
            assert(e.args.take(k) =~= e.args.take(k + 1).take(k));
            assert(e.args[k] == e.args.take(k + 1)[k]);
            assert(e.args.skip(k).drop_first() =~= e.args.skip(k + 1));
            assert(parsed_arguments(tokens, pos + 1, head, acc.push(arg))->Ok_0 == (e, next));
            let rest = tokens.subrange(pos + 1, next);
            assert(rest == written_all(e.args.skip(k + 1)) + close);
            assert(tokens.subrange(pos, next) =~= seq![tokens[pos]] + rest);
            assert(e.args.skip(k)[0] == arg);
            assert(written(arg) =~= seq![tokens[pos]]);
            assert(tokens.subrange(pos, next) =~= (written(arg) + written_all(e.args.skip(k + 1)))
                + close);
        },
        TokenView::Name(name) => {
            let arg = leaf(ExprTypeView::Variable(name));
            lemma_parsed_arguments_are_written(tokens, pos + 1, head, acc.push(arg));
            assert(e.args.take(k) =~= e.args.take(k + 1).take(k));
            assert(e.args[k] == e.args.take(k + 1)[k]);
            assert(e.args.skip(k).drop_first() =~= e.args.skip(k + 1));
            assert(parsed_arguments(tokens, pos + 1, head, acc.push(arg))->Ok_0 == (e, next));
            let rest = tokens.subrange(pos + 1, next);
            assert(rest == written_all(e.args.skip(k + 1)) + close);
            assert(tokens.subrange(pos, next) =~= seq![tokens[pos]] + rest);
            assert(e.args.skip(k)[0] == arg);
            assert(written(arg) =~= seq![tokens[pos]]);
            assert(tokens.subrange(pos, next) =~= (written(arg) + written_all(e.args.skip(k + 1)))
                + close);
        },
        _ => {},
    }
}

/// What an expression in parentheses parses into is written down where it was
/// parsed from, after the left parenthesis.
pub proof fn lemma_parsed_whole_expression_is_written(tokens: Seq<TokenView>, pos: int)
    requires
        1 <= pos,
        tokens[pos - 1] is LPar,
        parsed_whole_expression(tokens, pos) is Ok,
    ensures
        ({
            let (e, next) = parsed_whole_expression(tokens, pos)->Ok_0;
            &&& pos < next <= tokens.len()
            &&& is_call(e)
            &&& well_formed(e)
            &&& tokens.subrange(pos - 1, next) == written(e)
        }),
    decreases tokens.len() - pos,
{
    let (e, next) = parsed_whole_expression(tokens, pos)->Ok_0;
    lemma_parsed_arguments_are_written(tokens, pos + 1, kind_headed_by(tokens[pos]), Seq::empty());
    assert(e.args.skip(0) =~= e.args);
    assert(tokens.subrange(pos - 1, next) =~= seq![TokenView::LPar, tokens[pos]]
        + tokens.subrange(pos + 1, next));
}

/// What a line parses into can be written down, and the line is that tree
/// written down.
pub proof fn lemma_parsed_line_is_written(tokens: Seq<TokenView>)
    requires
        parsed(tokens) is Ok,
    ensures
        well_formed_line(parsed(tokens)->Ok_0),
        written_line(parsed(tokens)->Ok_0) == tokens,
{
    let ast = parsed(tokens)->Ok_0;
    let close = seq![TokenView::RPar];
    match tokens[1] {
        TokenView::TKeyword(k) => {
            let name = tokens[2]->Name_0;
            let s = ast->Statement_0;
            match tokens[3] {
                TokenView::LPar => {
                    lemma_parsed_whole_expression_is_written(tokens, 4);
                    let (rhs, next) = parsed_whole_expression(tokens, 4)->Ok_0;
                    assert(tokens =~= seq![tokens[0], tokens[1], tokens[2]] + tokens.subrange(
                        3,
                        next,
                    ) + close);
                },
                _ => {
                    assert(tokens =~= seq![tokens[0], tokens[1], tokens[2]] + seq![tokens[3]]
                        + close);
                },
            }
        },
        _ => {
            lemma_parsed_whole_expression_is_written(tokens, 1);
            assert(tokens.subrange(0, tokens.len() as int) =~= tokens);
        },
    }
}

/// The parser accepts what is a tree written down as a line, and nothing else:
/// tokens parse into a tree if and only if the tree can be written down as a line
/// and they are that tree written down.
pub proof fn lemma_parser_inverts_writing(tokens: Seq<TokenView>, ast: AstView)
    ensures
        parsed(tokens) == Ok::<AstView, CalcErrorView>(ast) <==> well_formed_line(ast)
            && tokens == written_line(ast),
{
    if parsed(tokens) == Ok::<AstView, CalcErrorView>(ast) {
        lemma_parsed_line_is_written(tokens);
    }
    if well_formed_line(ast) && tokens == written_line(ast) {
        lemma_written_line_parses(ast);
    }
}

} // verus!
