use rustgen::parse::{Expected, SyntaxError};
use rustgen::rustgen_ir::{BlockElse, BlockIf, Group, MacroElse, Member, RustgenIR, TokenBlock};
use rustgen::tokens::{Delimiter, Ident, Literal, Punct, Tree, TokenStream};

fn id(s: &str) -> Tree {
    Tree::Ident(Ident { text: s.to_string(), pos: 0 })
}

fn id_at(s: &str, pos: usize) -> Tree {
    Tree::Ident(Ident { text: s.to_string(), pos })
}

fn punct(c: char) -> Tree {
    Tree::Punct(Punct { ch: c, pos: 0 })
}

fn lit(s: &str) -> Tree {
    Tree::Literal(Literal { text: s.to_string(), pos: 0 })
}

fn group(d: Delimiter, inner: Vec<Tree>) -> Tree {
    Tree::Group(d, inner, 0)
}

fn brace(inner: Vec<Tree>) -> Tree {
    group(Delimiter::Brace, inner)
}

fn paren(inner: Vec<Tree>) -> Tree {
    group(Delimiter::Paren, inner)
}

/// The tokens of `fn main() {}`.
fn fn_main_tokens() -> Vec<Tree> {
    vec![id("fn"), id("main"), paren(vec![]), brace(vec![])]
}

/// The tokens of `#if a.b.c.d { fn main() {} }`.
fn if_abcd_tokens() -> Vec<Tree> {
    vec![
        punct('#'),
        id("if"),
        id("a"),
        punct('.'),
        id("b"),
        punct('.'),
        id("c"),
        punct('.'),
        id("d"),
        brace(fn_main_tokens()),
    ]
}

#[test]
fn parse_rustgen_ir() {
    let rustgen_ir = RustgenIR::parse(&TokenStream(fn_main_tokens())).unwrap();
    println!("{:#?}", rustgen_ir);

    let rustgen_ir = RustgenIR::parse(&TokenStream(if_abcd_tokens())).unwrap();
    println!("{:#?}", rustgen_ir);

    let mut tokens = if_abcd_tokens();
    tokens.push(punct('#'));
    tokens.push(id("else"));
    tokens.push(brace(fn_main_tokens()));
    let rustgen_ir = RustgenIR::parse(&TokenStream(tokens)).unwrap();
    println!("{:#?}", rustgen_ir);

    // `#if a.b.c.d { fn main() {} } #else #if { fn main() {} }`: the chained
    // `#if` is missing its field path.
    let mut tokens = if_abcd_tokens();
    tokens.push(punct('#'));
    tokens.push(id("else"));
    tokens.push(punct('#'));
    tokens.push(id("if"));
    tokens.push(brace(fn_main_tokens()));
    let rustgen_ir = RustgenIR::parse(&TokenStream(tokens));
    println!("{:#?}", rustgen_ir.err().unwrap());
}

#[test]
fn parse_group() {
    let tokens = vec![brace(vec![id("fn"), id("hi")])];
    let _: (Group, usize) = Group::parse(&tokens, 0).unwrap();
}

#[test]
fn parse_group_any_delimiter() {
    for d in [Delimiter::Paren, Delimiter::Bracket, Delimiter::Brace] {
        let tokens = vec![group(d, vec![lit("1")])];
        let (g, next) = Group::parse(&tokens, 0).unwrap();
        assert_eq!(g.delimiter, d);
        assert_eq!(next, 1);
    }
    let tokens = vec![id("x")];
    let err = Group::parse(&tokens, 0).unwrap_err();
    assert_eq!(err.expected, Expected::Group);
}

#[test]
fn parse_missing_if_keyword() {
    // a `#` not followed by `if` is not a plain token; it is an error.
    let tokens = vec![punct('#'), id_at("derive", 7)];
    let err = RustgenIR::parse(&TokenStream(tokens)).unwrap_err();
    assert_eq!(err, SyntaxError { expected: Expected::IfKeyword, pos: 7 });
}

#[test]
fn parse_missing_path() {
    let tokens = vec![punct('#'), id("if"), brace(vec![])];
    let err = RustgenIR::parse(&TokenStream(tokens)).unwrap_err();
    assert_eq!(err.expected, Expected::Identifier);
}

#[test]
fn parse_missing_body() {
    let tokens = vec![punct('#'), id("if"), id("a")];
    let err = RustgenIR::parse(&TokenStream(tokens)).unwrap_err();
    assert_eq!(err.expected, Expected::BraceGroup);
}

#[test]
fn parse_else_needs_both_tokens() {
    // `#if a { X } #if b { Y }` is two chains, not a malformed else branch:
    // the else branch is taken only when `#` and `else` both follow.
    let tokens = vec![
        punct('#'),
        id("if"),
        id("a"),
        brace(vec![id("X")]),
        punct('#'),
        id("if"),
        id("b"),
        brace(vec![id("Y")]),
    ];
    let ir = RustgenIR::parse(&TokenStream(tokens)).unwrap();
    assert_eq!(ir.0.len(), 2);
}

#[test]
fn parse_chained_else_if() {
    let mut tokens = if_abcd_tokens();
    tokens.push(punct('#'));
    tokens.push(id("else"));
    tokens.extend(if_abcd_tokens());
    let ir = RustgenIR::parse(&TokenStream(tokens)).unwrap();
    assert_eq!(ir.0.len(), 1);
    match &ir.0[0] {
        TokenBlock::MacroIf(m) => {
            let be = m.else_item.as_ref().unwrap();
            assert!(matches!(be.else_child, MacroElse::If(_)));
        },
        _ => panic!("expected a conditional chain"),
    }
}

#[test]
fn parse_nested_groups_validated() {
    // a malformed directive inside a group that would never be selected
    // still fails at parse time.
    let tokens = vec![brace(vec![brace(vec![punct('#'), id("nope")])])];
    let err = RustgenIR::parse(&TokenStream(tokens)).unwrap_err();
    assert_eq!(err.expected, Expected::IfKeyword);
}

#[test]
fn parse_blockif_requires_pound() {
    let tokens = vec![id("x")];
    let err = BlockIf::parse(&tokens, 0).unwrap_err();
    assert_eq!(err.expected, Expected::PoundToken);
}

#[test]
fn parse_member_requires_dot() {
    let tokens = vec![id("x")];
    let err = Member::parse(&tokens, 0).unwrap_err();
    assert_eq!(err.expected, Expected::DotToken);
}

#[test]
fn parse_block_at_end_expects_token() {
    let tokens: Vec<Tree> = vec![];
    let err = TokenBlock::parse(&tokens, 0).unwrap_err();
    assert_eq!(err, SyntaxError { expected: Expected::Tree, pos: 0 });
}

#[test]
fn parse_else_branch_needs_else_keyword() {
    let tokens = vec![punct('#'), id_at("x", 3)];
    let err = BlockElse::parse(&tokens, 0).unwrap_err();
    assert_eq!(err, SyntaxError { expected: Expected::ElseKeyword, pos: 3 });
}
