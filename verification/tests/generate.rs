use rustgen::code_generator::CodeGenerator;
use rustgen::env::Env;
use rustgen::object::{eval_as_bool, Error, Number, Value, ValueKind};
use rustgen::rustgen_ir::{ExprField, Member, RustgenIR};
use rustgen::tokens::{Delimiter, Ident, Literal, Punct, Tree, TokenStream};

fn id(s: &str) -> Tree {
    Tree::Ident(Ident { text: s.to_string(), pos: 0 })
}

fn punct(c: char) -> Tree {
    Tree::Punct(Punct { ch: c, pos: 0 })
}

fn lit(s: &str) -> Tree {
    Tree::Literal(Literal { text: s.to_string(), pos: 0 })
}

fn brace(inner: Vec<Tree>) -> Tree {
    Tree::Group(Delimiter::Brace, inner, 0)
}

fn paren(inner: Vec<Tree>) -> Tree {
    Tree::Group(Delimiter::Paren, inner, 0)
}

fn obj(entries: Vec<(&str, Value)>) -> Value {
    Value::Object(entries.into_iter().map(|(k, v)| (k.to_string(), v)).collect())
}

fn generate(tokens: Vec<Tree>, config: Value) -> Result<TokenStream, Error> {
    let ir = RustgenIR::parse(&TokenStream(tokens)).unwrap();
    CodeGenerator::new(ir, Env::new(config)).generate()
}

fn clone_tokens(tokens: &[Tree]) -> Vec<Tree> {
    tokens.iter().map(clone_tree).collect()
}

fn clone_tree(t: &Tree) -> Tree {
    match t {
        Tree::Ident(i) => Tree::Ident(Ident { text: i.text.clone(), pos: i.pos }),
        Tree::Literal(l) => Tree::Literal(Literal { text: l.text.clone(), pos: l.pos }),
        Tree::Punct(p) => Tree::Punct(Punct { ch: p.ch, pos: p.pos }),
        Tree::Group(d, inner, p) => {
            Tree::Group(*d, inner.iter().map(clone_tree).collect(), *p)
        },
    }
}

#[test]
fn no_directive_returns_input_unchanged() {
    let tokens = vec![id("fn"), id("main"), paren(vec![lit("1"), punct(',')]), brace(vec![])];
    let out = generate(clone_tokens(&tokens), obj(vec![])).unwrap();
    assert_eq!(out, TokenStream(tokens));
}

#[test]
fn generating_twice_is_identical() {
    let tokens = vec![
        punct('#'),
        id("if"),
        id("a"),
        brace(vec![id("X"), lit("1")]),
        id("tail"),
    ];
    let config = || obj(vec![("a", Value::Bool(true))]);
    let first = generate(clone_tokens(&tokens), config()).unwrap();
    let second = generate(clone_tokens(&tokens), config()).unwrap();
    assert_eq!(first, second);
}

#[test]
fn if_true_takes_then_branch() {
    // config {a: true}, source `#if a { X } #else { Y }` -> exactly `X`
    let tokens = vec![
        punct('#'),
        id("if"),
        id("a"),
        brace(vec![id("X")]),
        punct('#'),
        id("else"),
        brace(vec![id("Y")]),
    ];
    let out = generate(tokens, obj(vec![("a", Value::Bool(true))])).unwrap();
    assert_eq!(out, TokenStream(vec![id("X")]));
}

#[test]
fn else_if_first_true_wins() {
    // config {a: false, c: {d: true}},
    // source `#if a { A } #else #if c.d { B } #else { C }` -> exactly `B`
    let tokens = vec![
        punct('#'),
        id("if"),
        id("a"),
        brace(vec![id("A")]),
        punct('#'),
        id("else"),
        punct('#'),
        id("if"),
        id("c"),
        punct('.'),
        id("d"),
        brace(vec![id("B")]),
        punct('#'),
        id("else"),
        brace(vec![id("C")]),
    ];
    let config = obj(vec![
        ("a", Value::Bool(false)),
        ("c", obj(vec![("d", Value::Bool(true))])),
    ]);
    let out = generate(tokens, config).unwrap();
    assert_eq!(out, TokenStream(vec![id("B")]));
}

#[test]
fn missing_key_is_not_found_error() {
    // config {}, source `#if c.e { Z }` -> NotFoundError for `c`, no candidates
    let tokens = vec![
        punct('#'),
        id("if"),
        id("c"),
        punct('.'),
        id("e"),
        brace(vec![id("Z")]),
    ];
    let err = generate(tokens, obj(vec![])).unwrap_err();
    match err {
        Error::NotFound(nf) => {
            assert_eq!(nf.search_ident.text, "c");
            assert!(nf.candidates.is_empty());
        },
        _ => panic!("expected a missing-key error"),
    }
}

#[test]
fn descent_into_scalar_is_no_child_error() {
    // config {c: "str"}, source `#if c.d { Z }` -> NoChildError, kind string
    let tokens = vec![
        punct('#'),
        id("if"),
        id("c"),
        punct('.'),
        id("d"),
        brace(vec![id("Z")]),
    ];
    let err = generate(tokens, obj(vec![("c", Value::Str("str".to_string()))])).unwrap_err();
    match err {
        Error::NoChild(nc) => {
            assert_eq!(nc.given_type, ValueKind::Str);
            assert_eq!(nc.given_value, "str");
            assert_eq!(nc.search_ident.text, "d");
        },
        _ => panic!("expected a childless-value error"),
    }
}

#[test]
fn empty_branch_keeps_group_delimiters() {
    // config {a: true, b: false}, source `foo(bar { #if b { 1 } })`
    // -> `foo(bar {})`
    let tokens = vec![
        id("foo"),
        paren(vec![
            id("bar"),
            brace(vec![punct('#'), id("if"), id("b"), brace(vec![lit("1")])]),
        ]),
    ];
    let config = obj(vec![("a", Value::Bool(true)), ("b", Value::Bool(false))]);
    let out = generate(tokens, config).unwrap();
    assert_eq!(out, TokenStream(vec![id("foo"), paren(vec![id("bar"), brace(vec![])])]));
}

#[test]
fn candidates_list_keys_in_order() {
    let tokens = vec![punct('#'), id("if"), id("missing"), brace(vec![id("Z")])];
    let config = obj(vec![
        ("beta", Value::Bool(true)),
        ("alpha", Value::Null),
        ("gamma", Value::Bool(false)),
    ]);
    let err = generate(tokens, config).unwrap_err();
    match err {
        Error::NotFound(nf) => {
            assert_eq!(nf.candidates, vec!["beta", "alpha", "gamma"]);
        },
        _ => panic!("expected a missing-key error"),
    }
}

#[test]
fn this_segment_descends_nowhere() {
    let tokens = vec![
        punct('#'),
        id("if"),
        id("this"),
        punct('.'),
        id("a"),
        punct('.'),
        id("this"),
        brace(vec![id("X")]),
    ];
    let out = generate(tokens, obj(vec![("a", Value::Bool(true))])).unwrap();
    assert_eq!(out, TokenStream(vec![id("X")]));
}

#[test]
fn false_condition_error_in_else_still_reported() {
    // the else branch is evaluated only after the condition was false, and
    // its own resolution failure is the overall result.
    let tokens = vec![
        punct('#'),
        id("if"),
        id("a"),
        brace(vec![id("X")]),
        punct('#'),
        id("else"),
        punct('#'),
        id("if"),
        id("nope"),
        brace(vec![id("Y")]),
    ];
    let err = generate(tokens, obj(vec![("a", Value::Bool(false))])).unwrap_err();
    match err {
        Error::NotFound(nf) => assert_eq!(nf.search_ident.text, "nope"),
        _ => panic!("expected a missing-key error"),
    }
}

#[test]
fn true_condition_never_touches_else_branch() {
    // the else branch's key does not exist, but it is never looked up.
    let tokens = vec![
        punct('#'),
        id("if"),
        id("a"),
        brace(vec![id("X")]),
        punct('#'),
        id("else"),
        punct('#'),
        id("if"),
        id("nope"),
        brace(vec![id("Y")]),
    ];
    let out = generate(tokens, obj(vec![("a", Value::Bool(true))])).unwrap();
    assert_eq!(out, TokenStream(vec![id("X")]));
}

#[test]
fn first_error_stops_generation() {
    // nothing after the failing chain is generated, and no partial output
    // accompanies the error.
    let tokens = vec![
        id("before"),
        punct('#'),
        id("if"),
        id("missing"),
        brace(vec![id("X")]),
        id("after"),
    ];
    let err = generate(tokens, obj(vec![])).unwrap_err();
    assert!(matches!(err, Error::NotFound(_)));
}

#[test]
fn truthiness_rules() {
    assert!(eval_as_bool(&Value::Bool(true)));
    assert!(!eval_as_bool(&Value::Bool(false)));
    assert!(!eval_as_bool(&Value::Null));
    assert!(!eval_as_bool(&Value::Str(String::new())));
    assert!(eval_as_bool(&Value::Str("x".to_string())));
    assert!(!eval_as_bool(&Value::Array(vec![])));
    assert!(eval_as_bool(&Value::Array(vec![Value::Null])));
    // a number is truthy exactly when it equals floating-point zero
    assert!(eval_as_bool(&Value::Number(Number { is_zero: true, text: "0.0".to_string() })));
    assert!(!eval_as_bool(&Value::Number(Number { is_zero: false, text: "1".to_string() })));
    // an object is always truthy, empty or not
    assert!(eval_as_bool(&obj(vec![])));
    assert!(eval_as_bool(&obj(vec![("k", Value::Null)])));
}

#[test]
fn env_search_walks_path() {
    let config = obj(vec![("a", obj(vec![("b", Value::Str("deep".to_string()))]))]);
    let env = Env::new(config);
    let field = ExprField {
        ident: Ident { text: "a".to_string(), pos: 0 },
        member: Some(Member {
            field: Box::new(ExprField {
                ident: Ident { text: "b".to_string(), pos: 0 },
                member: None,
            }),
        }),
    };
    let v = env.search(&field).unwrap();
    assert_eq!(*v, Value::Str("deep".to_string()));
    assert_eq!(field.name(), "a");
}

#[test]
fn number_display_in_no_child_error() {
    let tokens = vec![punct('#'), id("if"), id("n"), punct('.'), id("x"), brace(vec![])];
    let config = obj(vec![("n", Value::Number(Number { is_zero: false, text: "42".to_string() }))]);
    let err = generate(tokens, config).unwrap_err();
    match err {
        Error::NoChild(nc) => {
            assert_eq!(nc.given_type, ValueKind::Number);
            assert_eq!(nc.given_value, "42");
        },
        _ => panic!("expected a childless-value error"),
    }
}
