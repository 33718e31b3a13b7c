use arith_parser::tokenizer::{Token, TokenKind, TokenStream};

fn all_tokens(input: &[u8]) -> Vec<Token<'_>> {
    let mut stream = TokenStream::new(input);
    let mut out = Vec::new();
    loop {
        let t = stream.next();
        let done = t.kind == TokenKind::Eof;
        out.push(t);
        if done {
            return out;
        }
    }
}

#[test]
fn peek_is_idempotent() {
    let input = "  \n 12 + x";
    let mut stream = TokenStream::new(input.as_bytes());
    let a = stream.peek();
    let b = stream.peek();
    let c = stream.peek();
    assert_eq!(stream.index, 0);
    assert_eq!(stream.line, 1);
    assert_eq!(stream.column, 1);
    assert!(!stream.after_line);
    for t in [b, c] {
        assert_eq!(t.kind, a.kind);
        assert_eq!(t.index, a.index);
        assert_eq!(t.end_index, a.end_index);
        assert_eq!(t.line, a.line);
        assert_eq!(t.column, a.column);
        assert_eq!(t.value, a.value);
        assert_eq!(t.after_line, a.after_line);
    }
    let n = stream.next();
    assert_eq!(n.kind, TokenKind::NumLit);
    assert_eq!(n.value, b"12");
    assert_eq!(n.index, a.index);
    assert!(n.after_line);
    assert!(a.after_line);
}

#[test]
fn spans_and_whitespace_rebuild_the_source() {
    let input = "a  +\n 12--(x)\t++ - y7 *\r\n";
    let bytes = input.as_bytes();
    let mut stream = TokenStream::new(bytes);
    let mut rebuilt: Vec<u8> = Vec::new();
    loop {
        let before = stream.index as usize;
        let t = stream.next();
        rebuilt.extend_from_slice(&bytes[before..t.index as usize]);
        rebuilt.extend_from_slice(&bytes[t.index as usize..t.end_index as usize]);
        assert_eq!(t.end_index as usize, stream.index as usize);
        if t.kind == TokenKind::Eof {
            break;
        }
    }
    assert_eq!(rebuilt, bytes);
}

#[test]
fn tokens_report_line_and_column_of_their_start() {
    let input = "ab\n  cd +\n\n(7";
    let bytes = input.as_bytes();
    for t in all_tokens(bytes) {
        let mut line = 1;
        let mut column = 1;
        for &b in &bytes[..t.index as usize] {
            if b == b'\n' {
                line += 1;
                column = 1;
            } else {
                column += 1;
            }
        }
        assert_eq!(t.line, line);
        assert_eq!(t.column, column);
    }
    let tokens = all_tokens(bytes);
    assert_eq!(tokens[1].value, b"cd");
    assert_eq!((tokens[1].line, tokens[1].column), (2, 3));
    assert_eq!((tokens[3].line, tokens[3].column), (4, 1));
}

#[test]
fn operators_and_parens() {
    let kinds: Vec<TokenKind> = all_tokens(b"+ ++ - -- ( ) +++").iter().map(|t| t.kind).collect();
    assert_eq!(
        kinds,
        vec![
            TokenKind::Plus,
            TokenKind::Increment,
            TokenKind::Minus,
            TokenKind::Decrement,
            TokenKind::LParen,
            TokenKind::RParen,
            TokenKind::Increment,
            TokenKind::Plus,
            TokenKind::Eof,
        ]
    );
}

#[test]
fn numbers_stop_at_the_last_digit() {
    let tokens = all_tokens(b"23 a");
    assert_eq!(tokens[0].kind, TokenKind::NumLit);
    assert_eq!(tokens[0].value, b"23");
    assert_eq!(tokens[1].kind, TokenKind::Ident);
    assert_eq!(tokens[1].value, b"a");
    let tokens = all_tokens(b"123abc");
    assert_eq!(tokens[0].value, b"123");
    assert_eq!(tokens[1].value, b"abc");
    assert_eq!(tokens[1].kind, TokenKind::Ident);
}

#[test]
fn identifiers_take_letters_and_digits() {
    let tokens = all_tokens(b"x1y2+z");
    assert_eq!(tokens[0].kind, TokenKind::Ident);
    assert_eq!(tokens[0].value, b"x1y2");
    assert_eq!(tokens[1].kind, TokenKind::Plus);
    assert_eq!(tokens[2].value, b"z");
}

#[test]
fn other_bytes_become_one_byte_identifiers() {
    let tokens = all_tokens(b"*=");
    assert_eq!(tokens.len(), 3);
    assert_eq!(tokens[0].kind, TokenKind::Ident);
    assert_eq!(tokens[0].value, b"*");
    assert_eq!(tokens[1].value, b"=");
}

#[test]
fn quoted_literals_exclude_the_quotes() {
    let tokens = all_tokens(b" 'hi' \"a b\"");
    assert_eq!(tokens[0].kind, TokenKind::String);
    assert_eq!(tokens[0].value, b"hi");
    assert_eq!(tokens[0].index, 2);
    assert_eq!(tokens[0].column, 3);
    assert_eq!(tokens[1].kind, TokenKind::String);
    assert_eq!(tokens[1].value, b"a b");
    assert_eq!(tokens[2].kind, TokenKind::Eof);
}

#[test]
fn empty_quoted_literal() {
    let tokens = all_tokens(b"''x");
    assert_eq!(tokens[0].kind, TokenKind::String);
    assert_eq!(tokens[0].value, b"");
    assert_eq!(tokens[1].value, b"x");
}

#[test]
fn unterminated_quote_is_a_token() {
    let tokens = all_tokens(b"a \"bc");
    assert_eq!(tokens[1].kind, TokenKind::NonTerminatedString);
    assert_eq!(tokens[1].value, b"bc");
    assert_eq!(tokens[2].kind, TokenKind::Eof);
}

#[test]
fn empty_input_is_end_of_input() {
    let mut stream = TokenStream::new(b"");
    let t = stream.next();
    assert_eq!(t.kind, TokenKind::Eof);
    assert_eq!((t.index, t.end_index, t.line, t.column), (0, 0, 1, 1));
    let t = stream.next();
    assert_eq!(t.kind, TokenKind::Eof);
}

#[test]
fn after_line_marks_the_first_token_of_a_line() {
    let tokens = all_tokens(b"a b\n\n c");
    assert!(!tokens[0].after_line);
    assert!(!tokens[1].after_line);
    assert!(tokens[2].after_line);
    assert!(!tokens[3].after_line);
}

#[test]
fn get_and_peekc() {
    let mut stream = TokenStream::new(b"a\nb");
    assert_eq!(stream.peekc(), b'a');
    assert_eq!(stream.get(), b'a');
    assert_eq!((stream.line, stream.column), (1, 2));
    assert_eq!(stream.get(), b'\n');
    assert_eq!((stream.index, stream.line, stream.column), (2, 2, 1));
    assert_eq!(stream.get(), b'b');
    assert_eq!(stream.peekc(), 0);
    assert_eq!(stream.get(), 0);
    assert_eq!(stream.index, 3);
}

#[test]
fn skip_whitespace_records_line_breaks() {
    let mut stream = TokenStream::new(b" \t\r x");
    stream.skip_whitespace();
    assert_eq!(stream.index, 4);
    assert!(!stream.after_line);
    let mut stream = TokenStream::new(b" \n x");
    stream.skip_whitespace();
    assert_eq!(stream.index, 3);
    assert!(stream.after_line);
    assert_eq!((stream.line, stream.column), (2, 2));
}

#[test]
fn line_gives_the_source_line_of_a_token() {
    let input = b"ab + 1\n  cd\nlast";
    let mut stream = TokenStream::new(input);
    let first = stream.next();
    assert_eq!(stream.line(first), "ab + 1");
    stream.next();
    stream.next();
    let cd = stream.next();
    assert_eq!(stream.line(cd), "  cd");
    let last = stream.next();
    assert_eq!(stream.line(last), "last");
    let eof = stream.next();
    assert_eq!(stream.line(eof), "last");
    assert_eq!(stream.current_line(), "last");
}

#[test]
fn line_of_a_token_after_an_empty_first_line() {
    let mut stream = TokenStream::new(b"\nab");
    let t = stream.next();
    assert_eq!(stream.line(t), "ab");
    let mut stream = TokenStream::new(b"ab\n");
    stream.next();
    let eof = stream.next();
    assert_eq!(stream.line(eof), "");
}

#[test]
fn current_line_follows_the_cursor() {
    let mut stream = TokenStream::new(b"one\ntwo three");
    assert_eq!(stream.current_line(), "one");
    stream.next();
    stream.next();
    assert_eq!(stream.current_line(), "two three");
}

#[test]
fn token_new_and_to_string() {
    let t = Token::new(TokenKind::Ident, 4, 2, 3, b"abc", true);
    assert_eq!(t.end_index, 7);
    assert_eq!(t.to_string(), "abc");
    assert!(t.after_line);
    let u = Token::new(TokenKind::String, 0, 1, 1, &[0xff, b'a'], false);
    assert_eq!(u.to_string(), "\u{fffd}a");
}

#[test]
fn quoted_literal_reports_the_position_of_its_start() {
    let tokens = all_tokens(b"\"a\"");
    assert_eq!(tokens[0].kind, TokenKind::String);
    assert_eq!((tokens[0].index, tokens[0].line, tokens[0].column), (1, 1, 2));
    let tokens = all_tokens(b"x\n  'q");
    assert_eq!(tokens[1].kind, TokenKind::NonTerminatedString);
    assert_eq!((tokens[1].index, tokens[1].line, tokens[1].column), (5, 2, 4));
    assert!(tokens[1].after_line);
}

#[test]
fn is_consistent_checks_the_cursor() {
    let mut stream = TokenStream::new(b"ab\ncd");
    assert!(stream.is_consistent());
    stream.next();
    stream.next();
    assert!(stream.is_consistent());
    stream.column = 7;
    assert!(!stream.is_consistent());
    stream.column = 3;
    assert!(stream.is_consistent());
    stream.index = 9;
    assert!(!stream.is_consistent());
}
