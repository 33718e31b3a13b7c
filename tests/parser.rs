use arith_parser::diagnostics::{ErrorKind, Hint, HintKind, SyntaxError};
use arith_parser::expr::{Expr, ExprKind};
use arith_parser::parser::Parser;
use arith_parser::render::Style;
use arith_parser::tokenizer::{Token, TokenKind, TokenStream};

fn parse(input: &str) -> Result<Expr<'_>, SyntaxError<'_>> {
    Parser::new(TokenStream::new(input.as_bytes())).expr()
}

fn literal<'a>(e: &'a Expr<'a>) -> &'a [u8] {
    match e {
        Expr::Literal(t) => t.value,
        _ => panic!("not a literal: {:?}", e),
    }
}

fn child<'a>(e: &'a Expr<'a>) -> &'a Expr<'a> {
    match e {
        Expr::UnaryNegate(c)
        | Expr::Group(c)
        | Expr::PreIncrement(c)
        | Expr::PostIncrement(c)
        | Expr::PreDecrement(c)
        | Expr::PostDecrement(c) => c,
        _ => panic!("no single child: {:?}", e),
    }
}

#[test]
fn addition_of_two_literals() {
    let e = parse("2 + 3").unwrap();
    match &e {
        Expr::Add(l, r) => {
            assert_eq!(literal(l), b"2");
            assert_eq!(literal(r), b"3");
        }
        _ => panic!("{:?}", e),
    }
}

#[test]
fn addition_leans_left() {
    let e = parse("2 + 3 + 4").unwrap();
    match &e {
        Expr::Add(l, r) => {
            assert_eq!(literal(r), b"4");
            match &**l {
                Expr::Add(a, b) => {
                    assert_eq!(literal(a), b"2");
                    assert_eq!(literal(b), b"3");
                }
                other => panic!("{:?}", other),
            }
        }
        _ => panic!("{:?}", e),
    }
}

#[test]
fn prefix_and_postfix_together_are_refused() {
    let err = parse("++x++").unwrap_err();
    assert_eq!(err.kind, ErrorKind::InvalidSyntax);
    assert_eq!(err.message, "Invalid syntax.");
    assert_eq!(err.hints.len(), 1);
    let hint = &err.hints[0];
    assert_eq!(hint.kind, HintKind::Remove);
    assert_eq!(hint.targets.len(), 1);
    assert_eq!(hint.targets[0].kind, TokenKind::Increment);
    assert_eq!(hint.targets[0].index, 3);
    assert_eq!(hint.column, 4);
    assert_eq!(hint.help, "remove operator");
    assert_eq!(err.subject.index, 3);
}

#[test]
fn unclosed_group_points_after_its_last_token() {
    let err = parse("(2 + 3").unwrap_err();
    assert_eq!(err.kind, ErrorKind::UnclosedParen);
    assert_eq!(err.message, "Unclosed parenthesis after expression.");
    assert_eq!(err.hints.len(), 1);
    let hint = &err.hints[0];
    assert_eq!(hint.kind, HintKind::Add);
    assert_eq!(hint.targets.len(), 1);
    assert_eq!(hint.targets[0].value, b"3");
    assert_eq!(hint.targets[0].index, 5);
    assert_eq!(hint.help, "add ) after expression");
    assert_eq!(err.subject.value, b"3");
}

#[test]
fn decrements_before_and_after() {
    let e = parse("--a").unwrap();
    assert_eq!(e.kind(), ExprKind::PreDecrement);
    assert_eq!(literal(child(&e)), b"a");
    let e = parse("a--").unwrap();
    assert_eq!(e.kind(), ExprKind::PostDecrement);
    assert_eq!(literal(child(&e)), b"a");
}

#[test]
fn increments_before_and_after() {
    let e = parse("++a").unwrap();
    assert_eq!(e.kind(), ExprKind::PreIncrement);
    assert_eq!(literal(child(&e)), b"a");
    let e = parse("a++ + 1").unwrap();
    assert_eq!(e.kind(), ExprKind::Add);
    match &e {
        Expr::Add(l, r) => {
            assert_eq!(l.kind(), ExprKind::PostIncrement);
            assert_eq!(literal(r), b"1");
        }
        _ => unreachable!(),
    }
}

#[test]
fn negation_and_groups() {
    let e = parse("-(1 + x)").unwrap();
    assert_eq!(e.kind(), ExprKind::UnaryNegate);
    let g = child(&e);
    assert_eq!(g.kind(), ExprKind::Group);
    assert_eq!(child(g).kind(), ExprKind::Add);
}

#[test]
fn group_of_a_prefixed_operand() {
    let e = parse("(--b) + 2").unwrap();
    match &e {
        Expr::Add(l, r) => {
            assert_eq!(l.kind(), ExprKind::Group);
            assert_eq!(child(l).kind(), ExprKind::PreDecrement);
            assert_eq!(literal(r), b"2");
        }
        _ => panic!("{:?}", e),
    }
}

#[test]
fn unclosed_group_after_a_negation() {
    let err = parse("(1 + -a").unwrap_err();
    assert_eq!(err.kind, ErrorKind::UnclosedParen);
    assert_eq!(err.hints[0].targets[0].value, b"a");
}

#[test]
fn errors_inside_a_group_propagate() {
    let err = parse("(++x-- + 1)").unwrap_err();
    assert_eq!(err.kind, ErrorKind::InvalidSyntax);
    assert_eq!(err.hints[0].targets[0].kind, TokenKind::Decrement);
}

#[test]
fn error_after_a_plus_propagates() {
    let err = parse("1 + --y++").unwrap_err();
    assert_eq!(err.kind, ErrorKind::InvalidSyntax);
    assert_eq!(err.hints[0].targets[0].index, 7);
}

#[test]
fn empty_input_is_an_end_of_input_leaf() {
    let e = parse("").unwrap();
    match &e {
        Expr::Literal(t) => assert_eq!(t.kind, TokenKind::Eof),
        _ => panic!("{:?}", e),
    }
}

#[test]
fn parser_stops_before_a_token_it_does_not_use() {
    let mut parser = Parser::new(TokenStream::new(b"1 2"));
    let e = parser.expr().unwrap();
    assert_eq!(literal(&e), b"1");
    assert_eq!(parser.stream.next().value, b"2");
}

#[test]
fn rules_can_be_called_one_by_one() {
    let mut parser = Parser::new(TokenStream::new(b"a + b"));
    let a = parser.literal().unwrap();
    let sum = parser.expr_prec(a).unwrap();
    assert_eq!(sum.kind(), ExprKind::Add);
    let mut parser = Parser::new(TokenStream::new(b"x++"));
    assert_eq!(parser.postfix().unwrap().kind(), ExprKind::PostIncrement);
    let mut parser = Parser::new(TokenStream::new(b"--x"));
    assert_eq!(parser.prefix().unwrap().kind(), ExprKind::PreDecrement);
    let mut parser = Parser::new(TokenStream::new(b"-x"));
    assert_eq!(parser.unary().unwrap().kind(), ExprKind::UnaryNegate);
}

#[test]
fn constructors_and_last_token() {
    let a = Token::new(TokenKind::Ident, 0, 1, 1, b"a", false);
    let b = Token::new(TokenKind::NumLit, 4, 1, 5, b"7", false);
    let sum = Expr::new(Expr::value(a), Expr::expr(ExprKind::PostIncrement, Expr::value(b)));
    assert_eq!(sum.kind(), ExprKind::Add);
    assert_eq!(Expr::last_token(&sum).value, b"7");
    let g = Expr::group(sum);
    assert_eq!(g.kind(), ExprKind::Group);
    assert_eq!(Expr::last_token(&g).index, 4);
    let n = Expr::expr(ExprKind::UnaryNegate, Expr::value(a));
    assert_eq!(Expr::last_token(&n).value, b"a");
}

#[test]
fn hint_new_takes_its_column_from_the_first_target() {
    let a = Token::new(TokenKind::Ident, 3, 1, 4, b"abc", false);
    let b = Token::new(TokenKind::Ident, 8, 1, 9, b"d", false);
    let h = Hint::new(HintKind::Add, vec![a], "help".to_string());
    assert_eq!(h.column, 4);
    assert_eq!(h.end(), 7);
    let h2 = Hint::new(HintKind::Remove, vec![a, b], "x".to_string());
    assert_eq!(h2.column, 4);
    assert_eq!(h2.end(), 0);
}

#[test]
fn syntax_error_new_has_no_hints() {
    let a = Token::new(TokenKind::Ident, 0, 1, 1, b"a", false);
    let e = SyntaxError::new(ErrorKind::UnclosedParen, a, "m");
    assert_eq!(e.kind, ErrorKind::UnclosedParen);
    assert_eq!(e.message, "m");
    assert!(e.hints.is_empty());
    assert_eq!(e.subject.value, b"a");
}

fn texts(lines: &[arith_parser::render::Styled]) -> Vec<(Style, String)> {
    lines.iter().map(|l| (l.style, l.text.clone())).collect()
}

#[test]
fn removal_hint_is_shown_across_its_targets() {
    let input = "x + ++ab--";
    let stream = TokenStream::new(input.as_bytes());
    let err = parse(input).unwrap_err();
    let lines = texts(&err.hints[0].show(&stream));
    assert_eq!(
        lines,
        vec![
            (Style::Location, "1:9:".to_string()),
            (Style::Plain, "x + ++ab--".to_string()),
            (Style::SuggestRemove, "        ^~".to_string()),
            (Style::Help, "remove operator".to_string()),
        ]
    );
}

#[test]
fn insertion_hint_is_a_caret() {
    let input = "(ab";
    let stream = TokenStream::new(input.as_bytes());
    let err = parse(input).unwrap_err();
    let lines = texts(&err.hints[0].show(&stream));
    assert_eq!(
        lines,
        vec![
            (Style::Plain, "(ab".to_string()),
            (Style::SuggestAdd, " ^".to_string()),
            (Style::Help, "add ) after expression".to_string()),
        ]
    );
    let under = texts(&err.hints[0].underline(&stream, 2, 4, Style::SuggestAdd));
    assert_eq!(under[1], (Style::SuggestAdd, " ^~~".to_string()));
    let tok = texts(&err.hints[0].underline_token(&stream, err.hints[0].targets[0]));
    assert_eq!(tok[1], (Style::SuggestAdd, "~".to_string()));
}

#[test]
fn syntax_error_is_shown_with_markers_then_help() {
    let input = "a +\n(12 + 345";
    let stream = TokenStream::new(input.as_bytes());
    let err = parse(input).unwrap_err();
    let lines = texts(&err.show(&stream));
    assert_eq!(
        lines,
        vec![
            (Style::Location, "2:7:".to_string()),
            (Style::Plain, "Unclosed parenthesis after expression.".to_string()),
            (Style::Plain, "(12 + 345".to_string()),
            (Style::SuggestAdd, "      ^~~".to_string()),
            (Style::Help, "add ) after expression".to_string()),
        ]
    );
    let mark = err.underline(3, 5, Style::SuggestRemove);
    assert_eq!(mark.text, "  ^~~");
    assert_eq!(mark.style, Style::SuggestRemove);
}

#[test]
fn prefix_error_consumes_the_trailing_operator() {
    let mut parser = Parser::new(TokenStream::new(b"--x++ y"));
    let err = parser.expr().unwrap_err();
    assert_eq!(err.kind, ErrorKind::InvalidSyntax);
    assert_eq!(parser.stream.index, 5);
    assert_eq!(parser.stream.next().value, b"y");
}

#[test]
fn unclosed_group_consumes_the_token_after_it() {
    let mut parser = Parser::new(TokenStream::new(b"(1 2 3"));
    let err = parser.expr().unwrap_err();
    assert_eq!(err.kind, ErrorKind::UnclosedParen);
    assert_eq!(err.subject.value, b"1");
    assert_eq!(parser.stream.index, 4);
    assert_eq!(parser.stream.next().value, b"3");
}

#[test]
fn line_break_flag_through_the_parser() {
    let e = parse("a +\n b").unwrap();
    match &e {
        Expr::Add(l, r) => {
            assert!(!Expr::last_token(l).after_line);
            assert!(Expr::last_token(r).after_line);
        }
        _ => panic!("{:?}", e),
    }
    let mut parser = Parser::new(TokenStream::new(b"a\n b"));
    let a = parser.literal().unwrap();
    assert!(!parser.stream.after_line);
    parser.stream.skip_whitespace();
    assert!(parser.stream.after_line);
    let same = parser.expr_prec(a).unwrap();
    assert_eq!(literal(&same), b"a");
    assert!(parser.stream.after_line);
    assert_eq!(parser.stream.index, 3);
}
