use vstd::prelude::*;

use crate::rustgen_ir::{
    blockelse_view, blockif_view, block_view, ir_view, irtree_view, macroblock_view,
    macroelse_view, macroif_view, path_view, BlockElse, BlockIf, BlockIfV, BlockV, ExprField,
    Group, IrTreeV, MacroBlock, MacroElse, MacroElseV, MacroIf, MacroIfV, Member, RustgenIR,
    TokenBlock, TokenTree,
};
use crate::tokens::{
    spec_tree_pos, tree_view, trees_view, Delimiter, Ident, IdentV, Literal, Punct, TokenStream,
    Tree, TreeV,
};

verus! {

broadcast use crate::tokens::lemma_trees_view_len, crate::tokens::lemma_trees_view_index;

/// The construct a malformed directive was missing.
#[derive(Debug, Clone, Copy, PartialEq, Eq, Structural)]
pub enum Expected {
    Tree,
    Group,
    BraceGroup,
    PoundToken,
    IfKeyword,
    ElseKeyword,
    Identifier,
    DotToken,
}

/// A malformed conditional directive: the expected construct and the
/// position of the offending token.
#[derive(Debug, Clone, Copy, PartialEq, Eq, Structural)]
pub struct SyntaxError {
    pub expected: Expected,
    pub pos: usize,
}

/// The position an error at index `i` is reported at: the token there, or
/// the last token when the stream ended too early.
pub open spec fn spec_err_pos(tokens: Seq<TreeV>, i: int) -> usize {
    if 0 <= i < tokens.len() {
        spec_tree_pos(tokens[i])
    } else if tokens.len() > 0 {
        spec_tree_pos(tokens[tokens.len() - 1])
    } else {
        0
    }
}

/// Whether a token tree is the `#` punctuation.
pub open spec fn is_pound(t: TreeV) -> bool {
    t matches TreeV::Punct(p) && p.ch == '#'
}

/// Whether a token tree is the `.` punctuation.
pub open spec fn is_dot(t: TreeV) -> bool {
    t matches TreeV::Punct(p) && p.ch == '.'
}

/// Whether a token tree is the given keyword identifier.
pub open spec fn is_kw(t: TreeV, kw: Seq<char>) -> bool {
    t matches TreeV::Ident(i) && i.text == kw
}

/// How many tokens are left from index `i` on; a termination measure.
pub open spec fn remaining(tokens: Seq<TreeV>, i: int) -> int {
    if i <= tokens.len() {
        tokens.len() - i
    } else {
        0
    }
}

/// Parsing a run of blocks from index `i` to the end of the stream.
pub open spec fn spec_parse_from(tokens: Seq<TreeV>, i: int) -> Result<Seq<BlockV>, SyntaxError>
    decreases tokens, remaining(tokens, i), 6int,
{
    if i < 0 || i >= tokens.len() {
        Result::Ok(Seq::empty())
    } else {
        match spec_parse_block(tokens, i) {
            Result::Err(e) => Result::Err(e),
            Result::Ok(p) => if i < p.1 <= tokens.len() {
                match spec_parse_from(tokens, p.1) {
                    Result::Err(e) => Result::Err(e),
                    Result::Ok(rest) => Result::Ok(seq![p.0] + rest),
                }
            } else {
                // parsing always advances; this branch only bounds the recursion
                Result::Ok(seq![p.0])
            },
        }
    }
}

/// Parsing one block: a leading `#` always starts a conditional chain.
pub open spec fn spec_parse_block(tokens: Seq<TreeV>, i: int) -> Result<
    (BlockV, int),
    SyntaxError,
>
    decreases tokens, remaining(tokens, i), 5int,
{
    if i < 0 || i >= tokens.len() {
        Result::Err(SyntaxError { expected: Expected::Tree, pos: spec_err_pos(tokens, i) })
    } else if is_pound(tokens[i]) {
        match spec_parse_if(tokens, i) {
            Result::Err(e) => Result::Err(e),
            Result::Ok(p) => Result::Ok((BlockV::If(p.0), p.1)),
        }
    } else {
        match spec_parse_tree(tokens, i) {
            Result::Err(e) => Result::Err(e),
            Result::Ok(p) => Result::Ok((BlockV::Tree(p.0), p.1)),
        }
    }
}

/// Parsing a conditional chain: the `#if` arm, and an else branch exactly
/// when the two tokens after the body are `#` and `else`.
pub open spec fn spec_parse_if(tokens: Seq<TreeV>, i: int) -> Result<(MacroIfV, int), SyntaxError>
    decreases tokens, remaining(tokens, i), 3int,
{
    match spec_parse_blockif(tokens, i) {
        Result::Err(e) => Result::Err(e),
        Result::Ok(p) => if p.1 + 1 < tokens.len() && is_pound(tokens[p.1]) && is_kw(
            tokens[p.1 + 1],
            "else"@,
        ) {
            if i < p.1 {
                match spec_parse_else(tokens, p.1) {
                    Result::Err(e) => Result::Err(e),
                    Result::Ok(q) => Result::Ok(
                        (MacroIfV { if_item: p.0, else_item: Option::Some(q.0) }, q.1),
                    ),
                }
            } else {
                // parsing always advances; this branch only bounds the recursion
                Result::Ok((MacroIfV { if_item: p.0, else_item: Option::None }, p.1))
            }
        } else {
            Result::Ok((MacroIfV { if_item: p.0, else_item: Option::None }, p.1))
        },
    }
}

/// Parsing an `#if` arm: `#`, `if`, a field path, then a braced body.
pub open spec fn spec_parse_blockif(tokens: Seq<TreeV>, i: int) -> Result<
    (BlockIfV, int),
    SyntaxError,
>
    decreases tokens, remaining(tokens, i), 2int,
{
    if !(0 <= i < tokens.len() && is_pound(tokens[i])) {
        Result::Err(SyntaxError { expected: Expected::PoundToken, pos: spec_err_pos(tokens, i) })
    } else if !(i + 1 < tokens.len() && is_kw(tokens[i + 1], "if"@)) {
        Result::Err(SyntaxError { expected: Expected::IfKeyword, pos: spec_err_pos(tokens, i + 1) })
    } else {
        match spec_parse_path(tokens, i + 2) {
            Result::Err(e) => Result::Err(e),
            Result::Ok(p) => if i < p.1 {
                match spec_parse_braceblock(tokens, p.1) {
                    Result::Err(e) => Result::Err(e),
                    Result::Ok(q) => Result::Ok(
                        (
                            BlockIfV { cond: p.0, body: q.0, pos: spec_tree_pos(tokens[i]) },
                            q.2,
                        ),
                    ),
                }
            } else {
                // parsing always advances; this branch only bounds the recursion
                Result::Err(
                    SyntaxError { expected: Expected::BraceGroup, pos: spec_err_pos(tokens, p.1) },
                )
            },
        }
    }
}

/// Parsing a field path: an identifier, then `.` and a further path as long
/// as a dot follows.
pub open spec fn spec_parse_path(tokens: Seq<TreeV>, i: int) -> Result<
    (Seq<IdentV>, int),
    SyntaxError,
>
    decreases tokens, remaining(tokens, i), 1int,
{
    if !(0 <= i < tokens.len()) {
        Result::Err(SyntaxError { expected: Expected::Identifier, pos: spec_err_pos(tokens, i) })
    } else {
        match tokens[i] {
            TreeV::Ident(v) => if i + 1 < tokens.len() && is_dot(tokens[i + 1]) {
                match spec_parse_member(tokens, i + 1) {
                    Result::Err(e) => Result::Err(e),
                    Result::Ok(p) => Result::Ok((seq![v] + p.0, p.1)),
                }
            } else {
                Result::Ok((seq![v], i + 1))
            },
            _ => Result::Err(
                SyntaxError { expected: Expected::Identifier, pos: spec_err_pos(tokens, i) },
            ),
        }
    }
}

/// Parsing one `.field` continuation: the dot, then the rest of the path.
pub open spec fn spec_parse_member(tokens: Seq<TreeV>, i: int) -> Result<
    (Seq<IdentV>, int),
    SyntaxError,
>
    decreases tokens, remaining(tokens, i), 0int,
{
    if !(0 <= i < tokens.len() && is_dot(tokens[i])) {
        Result::Err(SyntaxError { expected: Expected::DotToken, pos: spec_err_pos(tokens, i) })
    } else {
        spec_parse_path(tokens, i + 1)
    }
}

/// Parsing a brace-delimited block: the group's inner stream is parsed into
/// a full IR of its own, whether or not it is ever selected.
pub open spec fn spec_parse_braceblock(tokens: Seq<TreeV>, i: int) -> Result<
    (Seq<BlockV>, usize, int),
    SyntaxError,
>
    decreases tokens, remaining(tokens, i), 1int,
{
    if 0 <= i < tokens.len() {
        match tokens[i] {
            TreeV::Group(d, inner, p) => if d == Delimiter::Brace {
                match spec_parse_from(inner, 0) {
                    Result::Err(e) => Result::Err(e),
                    Result::Ok(blocks) => Result::Ok((blocks, p, i + 1)),
                }
            } else {
                Result::Err(
                    SyntaxError { expected: Expected::BraceGroup, pos: spec_err_pos(tokens, i) },
                )
            },
            _ => Result::Err(
                SyntaxError { expected: Expected::BraceGroup, pos: spec_err_pos(tokens, i) },
            ),
        }
    } else {
        Result::Err(SyntaxError { expected: Expected::BraceGroup, pos: spec_err_pos(tokens, i) })
    }
}

/// Parsing a group of any delimiter, its inner stream parsed in full.
pub open spec fn spec_parse_group(tokens: Seq<TreeV>, i: int) -> Result<
    (IrTreeV, int),
    SyntaxError,
>
    decreases tokens, remaining(tokens, i), 1int,
{
    if 0 <= i < tokens.len() {
        match tokens[i] {
            TreeV::Group(d, inner, p) => match spec_parse_from(inner, 0) {
                Result::Err(e) => Result::Err(e),
                Result::Ok(blocks) => Result::Ok((IrTreeV::Group(d, blocks, p), i + 1)),
            },
            _ => Result::Err(
                SyntaxError { expected: Expected::Group, pos: spec_err_pos(tokens, i) },
            ),
        }
    } else {
        Result::Err(SyntaxError { expected: Expected::Group, pos: spec_err_pos(tokens, i) })
    }
}

/// Parsing one token tree: leaves are taken verbatim; a group's inner
/// stream is parsed recursively.
pub open spec fn spec_parse_tree(tokens: Seq<TreeV>, i: int) -> Result<(IrTreeV, int), SyntaxError>
    decreases tokens, remaining(tokens, i), 2int,
{
    if !(0 <= i < tokens.len()) {
        Result::Err(SyntaxError { expected: Expected::Tree, pos: spec_err_pos(tokens, i) })
    } else {
        match tokens[i] {
            TreeV::Ident(v) => Result::Ok((IrTreeV::Ident(v), i + 1)),
            TreeV::Literal(v) => Result::Ok((IrTreeV::Literal(v), i + 1)),
            TreeV::Punct(v) => Result::Ok((IrTreeV::Punct(v), i + 1)),
            TreeV::Group(_, _, _) => spec_parse_group(tokens, i),
        }
    }
}

/// Parsing an else branch: `#`, `else`, then a chained `#if` or a block.
pub open spec fn spec_parse_else(tokens: Seq<TreeV>, i: int) -> Result<
    (MacroElseV, int),
    SyntaxError,
>
    decreases tokens, remaining(tokens, i), 2int,
{
    if !(0 <= i < tokens.len() && is_pound(tokens[i])) {
        Result::Err(SyntaxError { expected: Expected::PoundToken, pos: spec_err_pos(tokens, i) })
    } else if !(i + 1 < tokens.len() && is_kw(tokens[i + 1], "else"@)) {
        Result::Err(
            SyntaxError { expected: Expected::ElseKeyword, pos: spec_err_pos(tokens, i + 1) },
        )
    } else {
        match spec_parse_macroelse(tokens, i + 2) {
            Result::Err(e) => Result::Err(e),
            Result::Ok(p) => Result::Ok((p.0, p.1)),
        }
    }
}

/// Parsing what follows `#else`: a further `#if` chain when a `#` comes
/// next, a terminal braced block otherwise.
pub open spec fn spec_parse_macroelse(tokens: Seq<TreeV>, i: int) -> Result<
    (MacroElseV, int),
    SyntaxError,
>
    decreases tokens, remaining(tokens, i), 4int,
{
    if 0 <= i < tokens.len() && is_pound(tokens[i]) {
        match spec_parse_if(tokens, i) {
            Result::Err(e) => Result::Err(e),
            Result::Ok(p) => Result::Ok((MacroElseV::If(Box::new(p.0)), p.1)),
        }
    } else {
        match spec_parse_braceblock(tokens, i) {
            Result::Err(e) => Result::Err(e),
            Result::Ok(q) => Result::Ok((MacroElseV::Block(q.0), q.2)),
        }
    }
}

/// What the whole parser builds from a token stream.
pub open spec fn spec_parse(tokens: Seq<TreeV>) -> Result<Seq<BlockV>, SyntaxError> {
    spec_parse_from(tokens, 0)
}

/// The position an error at index `i` is reported at.
fn err_pos(tokens: &Vec<Tree>, i: usize) -> (r: usize)
    ensures
        r == spec_err_pos(trees_view(tokens@), i as int),
{
    if i < tokens.len() {
        tokens[i].pos()
    } else if tokens.len() > 0 {
        tokens[tokens.len() - 1].pos()
    } else {
        0
    }
}

fn tree_is_pound(t: &Tree) -> (r: bool)
    ensures
        r == is_pound(tree_view(*t)),
{
    match t {
        Tree::Punct(p) => p.ch == '#',
        _ => false,
    }
}

fn tree_is_dot(t: &Tree) -> (r: bool)
    ensures
        r == is_dot(tree_view(*t)),
{
    match t {
        Tree::Punct(p) => p.ch == '.',
        _ => false,
    }
}

fn tree_is_if(t: &Tree) -> (r: bool)
    ensures
        r == is_kw(tree_view(*t), "if"@),
{
    match t {
        Tree::Ident(id) => id.text == "if".to_owned(),
        _ => false,
    }
}

fn tree_is_else(t: &Tree) -> (r: bool)
    ensures
        r == is_kw(tree_view(*t), "else"@),
{
    match t {
        Tree::Ident(id) => id.text == "else".to_owned(),
        _ => false,
    }
}

impl RustgenIR {
    /// Parses a whole token stream into an IR: every branch of every
    /// directive is built and syntactically validated here, and no
    /// configuration lookup happens until generation.
    pub fn parse(input: &TokenStream) -> (r: Result<RustgenIR, SyntaxError>)
        ensures
            match r {
                Result::Ok(ir) => spec_parse(input@) == Result::Ok::<Seq<BlockV>, SyntaxError>(
                    ir_view(ir),
                ),
                Result::Err(e) => spec_parse(input@) == Result::Err::<Seq<BlockV>, SyntaxError>(e),
            },
    {
        RustgenIR::parse_blocks(&input.0)
    }

    /// Parses a token list, block by block, to its end.
    pub fn parse_blocks(tokens: &Vec<Tree>) -> (r: Result<RustgenIR, SyntaxError>)
        ensures
            match r {
                Result::Ok(ir) => spec_parse_from(trees_view(tokens@), 0) == Result::Ok::<
                    Seq<BlockV>,
                    SyntaxError,
                >(ir_view(ir)),
                Result::Err(e) => spec_parse_from(trees_view(tokens@), 0) == Result::Err::<
                    Seq<BlockV>,
                    SyntaxError,
                >(e),
            },
        decreases trees_view(tokens@), trees_view(tokens@).len(), 6int,
    {
        broadcast use crate::rustgen_ir::lemma_blocks_view_len,
            crate::rustgen_ir::lemma_blocks_view_index, crate::rustgen_ir::lemma_blocks_view_push;

        let ghost tv = trees_view(tokens@);
        let mut acc: Vec<TokenBlock> = Vec::new();
        let mut i: usize = 0;
        proof {
            match spec_parse_from(tv, 0) {
                Result::Ok(rest) => {
                    assert(blocks_view_of(acc@) + rest =~= rest);
                },
                Result::Err(e) => {},
            }
        }
        while i < tokens.len()
            invariant
                i <= tokens@.len(),
                tv == trees_view(tokens@),
                tv.len() == tokens@.len(),
                ({
                    match spec_parse_from(tv, i as int) {
                        Result::Ok(rest) => spec_parse_from(tv, 0) == Result::Ok::<
                            Seq<BlockV>,
                            SyntaxError,
                        >(blocks_view_of(acc@) + rest),
                        Result::Err(e) => spec_parse_from(tv, 0) == Result::Err::<
                            Seq<BlockV>,
                            SyntaxError,
                        >(e),
                    }
                }),
            decreases tokens@.len() - i,
        {
            match TokenBlock::parse(tokens, i) {
                Result::Err(e) => {
                    return Result::Err(e);
                },
                Result::Ok(p) => {
                    let (b, j) = p;
                    let ghost acc0 = acc@;
                    let ghost bv = block_view(b);
                    proof {
                        assert(spec_parse_from(tv, i as int) == (match spec_parse_from(
                            tv,
                            j as int,
                        ) {
                            Result::Ok(rest) => Result::Ok::<Seq<BlockV>, SyntaxError>(
                                seq![bv] + rest,
                            ),
                            Result::Err(e) => Result::Err::<Seq<BlockV>, SyntaxError>(e),
                        }));
                    }
                    acc.push(b);
                    i = j;
                    proof {
                        crate::rustgen_ir::lemma_blocks_view_push(acc0, b);
                        assert(blocks_view_of(acc@) == blocks_view_of(acc0) + seq![bv]);
                        match spec_parse_from(tv, j as int) {
                            Result::Ok(rest) => {
                                assert((blocks_view_of(acc0) + seq![bv]) + rest =~= blocks_view_of(
                                    acc0,
                                ) + (seq![bv] + rest));
                            },
                            Result::Err(e) => {},
                        }
                    }
                },
            }
        }
        proof {
            assert(blocks_view_of(acc@) + Seq::<BlockV>::empty() =~= blocks_view_of(acc@));
        }
        Result::Ok(RustgenIR(acc))
    }
}

/// The model of a block list under construction.
pub open spec fn blocks_view_of(s: Seq<TokenBlock>) -> Seq<BlockV> {
    crate::rustgen_ir::blocks_view(s)
}

impl TokenBlock {
    /// Parses one block: a leading `#` always starts a conditional chain.
    pub fn parse(tokens: &Vec<Tree>, i: usize) -> (r: Result<(TokenBlock, usize), SyntaxError>)
        ensures
            match r {
                Result::Ok(p) => spec_parse_block(trees_view(tokens@), i as int) == Result::Ok::<
                    (BlockV, int),
                    SyntaxError,
                >((block_view(p.0), p.1 as int)) && i < p.1 <= tokens@.len(),
                Result::Err(e) => spec_parse_block(trees_view(tokens@), i as int) == Result::Err::<
                    (BlockV, int),
                    SyntaxError,
                >(e),
            },
        decreases trees_view(tokens@), remaining(trees_view(tokens@), i as int), 5int,
    {
        if i >= tokens.len() {
            return Result::Err(
                SyntaxError { expected: Expected::Tree, pos: err_pos(tokens, i) },
            );
        }
        if tree_is_pound(&tokens[i]) {
            match MacroIf::parse(tokens, i) {
                Result::Err(e) => Result::Err(e),
                Result::Ok(p) => {
                    let (m, j) = p;
                    Result::Ok((TokenBlock::MacroIf(m), j))
                },
            }
        } else {
            match TokenTree::parse(tokens, i) {
                Result::Err(e) => Result::Err(e),
                Result::Ok(p) => {
                    let (t, j) = p;
                    Result::Ok((TokenBlock::TokenTree(t), j))
                },
            }
        }
    }
}

impl TokenTree {
    /// Parses one token tree; a group's inner stream is parsed in full.
    pub fn parse(tokens: &Vec<Tree>, i: usize) -> (r: Result<(TokenTree, usize), SyntaxError>)
        ensures
            match r {
                Result::Ok(p) => spec_parse_tree(trees_view(tokens@), i as int) == Result::Ok::<
                    (IrTreeV, int),
                    SyntaxError,
                >((irtree_view(p.0), p.1 as int)) && i < p.1 <= tokens@.len(),
                Result::Err(e) => spec_parse_tree(trees_view(tokens@), i as int) == Result::Err::<
                    (IrTreeV, int),
                    SyntaxError,
                >(e),
            },
        decreases trees_view(tokens@), remaining(trees_view(tokens@), i as int), 2int,
    {
        if i >= tokens.len() {
            return Result::Err(
                SyntaxError { expected: Expected::Tree, pos: err_pos(tokens, i) },
            );
        }
        match &tokens[i] {
            Tree::Ident(id) => Result::Ok(
                (TokenTree::Ident(Ident { text: id.text.clone(), pos: id.pos }), i + 1),
            ),
            Tree::Literal(l) => Result::Ok(
                (TokenTree::Literal(Literal { text: l.text.clone(), pos: l.pos }), i + 1),
            ),
            Tree::Punct(p) => Result::Ok(
                (TokenTree::Punct(Punct { ch: p.ch, pos: p.pos }), i + 1),
            ),
            Tree::Group(_, _, _) => {
                match Group::parse(tokens, i) {
                    Result::Err(e) => Result::Err(e),
                    Result::Ok(p) => {
                        let (g, j) = p;
                        Result::Ok((TokenTree::Group(g), j))
                    },
                }
            },
        }
    }
}

impl Group {
    /// Parses a group of any delimiter, its inner stream in full.
    pub fn parse(tokens: &Vec<Tree>, i: usize) -> (r: Result<(Group, usize), SyntaxError>)
        ensures
            match r {
                Result::Ok(p) => spec_parse_group(trees_view(tokens@), i as int) == Result::Ok::<
                    (IrTreeV, int),
                    SyntaxError,
                >(
                    (
                        IrTreeV::Group(p.0.delimiter, ir_view(*p.0.ir), p.0.pos),
                        p.1 as int,
                    ),
                ) && i < p.1 <= tokens@.len(),
                Result::Err(e) => spec_parse_group(trees_view(tokens@), i as int) == Result::Err::<
                    (IrTreeV, int),
                    SyntaxError,
                >(e),
            },
        decreases trees_view(tokens@), remaining(trees_view(tokens@), i as int), 1int,
    {
        if i >= tokens.len() {
            return Result::Err(
                SyntaxError { expected: Expected::Group, pos: err_pos(tokens, i) },
            );
        }
        match &tokens[i] {
            Tree::Group(d, inner, p) => {
                proof {
                    crate::tokens::lemma_trees_view_index(tokens@, i as int);
                }
                match RustgenIR::parse_blocks(inner) {
                    Result::Err(e) => Result::Err(e),
                    Result::Ok(ir) => Result::Ok(
                        (Group { delimiter: *d, ir: Box::new(ir), pos: *p }, i + 1),
                    ),
                }
            },
            _ => Result::Err(SyntaxError { expected: Expected::Group, pos: err_pos(tokens, i) }),
        }
    }
}

impl MacroBlock {
    /// Parses a brace-delimited block, its inner stream in full.
    pub fn parse(tokens: &Vec<Tree>, i: usize) -> (r: Result<(MacroBlock, usize), SyntaxError>)
        ensures
            match r {
                Result::Ok(p) => spec_parse_braceblock(trees_view(tokens@), i as int)
                    == Result::Ok::<(Seq<BlockV>, usize, int), SyntaxError>(
                    (macroblock_view(p.0), p.0.pos, p.1 as int),
                ) && i < p.1 <= tokens@.len(),
                Result::Err(e) => spec_parse_braceblock(trees_view(tokens@), i as int)
                    == Result::Err::<(Seq<BlockV>, usize, int), SyntaxError>(e),
            },
        decreases trees_view(tokens@), remaining(trees_view(tokens@), i as int), 1int,
    {
        if i >= tokens.len() {
            return Result::Err(
                SyntaxError { expected: Expected::BraceGroup, pos: err_pos(tokens, i) },
            );
        }
        match &tokens[i] {
            Tree::Group(d, inner, p) => {
                match d {
                    Delimiter::Brace => {
                        proof {
                            crate::tokens::lemma_trees_view_index(tokens@, i as int);
                        }
                        match RustgenIR::parse_blocks(inner) {
                            Result::Err(e) => Result::Err(e),
                            Result::Ok(ir) => Result::Ok(
                                (MacroBlock { ir: Box::new(ir), pos: *p }, i + 1),
                            ),
                        }
                    },
                    _ => Result::Err(
                        SyntaxError { expected: Expected::BraceGroup, pos: err_pos(tokens, i) },
                    ),
                }
            },
            _ => Result::Err(
                SyntaxError { expected: Expected::BraceGroup, pos: err_pos(tokens, i) },
            ),
        }
    }
}

impl MacroIf {
    /// Parses a conditional chain: the `#if` arm, then an else branch
    /// exactly when `#` and `else` follow.
    pub fn parse(tokens: &Vec<Tree>, i: usize) -> (r: Result<(MacroIf, usize), SyntaxError>)
        ensures
            match r {
                Result::Ok(p) => spec_parse_if(trees_view(tokens@), i as int) == Result::Ok::<
                    (MacroIfV, int),
                    SyntaxError,
                >((macroif_view(p.0), p.1 as int)) && i < p.1 <= tokens@.len(),
                Result::Err(e) => spec_parse_if(trees_view(tokens@), i as int) == Result::Err::<
                    (MacroIfV, int),
                    SyntaxError,
                >(e),
            },
        decreases trees_view(tokens@), remaining(trees_view(tokens@), i as int), 3int,
    {
        match BlockIf::parse(tokens, i) {
            Result::Err(e) => Result::Err(e),
            Result::Ok(p) => {
                let (if_item, j) = p;
                let has_else = j < tokens.len() && j + 1 < tokens.len() && tree_is_pound(
                    &tokens[j],
                ) && tree_is_else(&tokens[j + 1]);
                if has_else {
                    match BlockElse::parse(tokens, j) {
                        Result::Err(e) => Result::Err(e),
                        Result::Ok(q) => {
                            let (be, k) = q;
                            Result::Ok(
                                (MacroIf { if_item, else_item: Option::Some(be) }, k),
                            )
                        },
                    }
                } else {
                    Result::Ok((MacroIf { if_item, else_item: Option::None }, j))
                }
            },
        }
    }
}

impl BlockIf {
    /// Parses an `#if` arm: `#`, `if`, a field path, then the braced body.
    pub fn parse(tokens: &Vec<Tree>, i: usize) -> (r: Result<(BlockIf, usize), SyntaxError>)
        ensures
            match r {
                Result::Ok(p) => spec_parse_blockif(trees_view(tokens@), i as int) == Result::Ok::<
                    (BlockIfV, int),
                    SyntaxError,
                >((blockif_view(p.0), p.1 as int)) && i < p.1 <= tokens@.len(),
                Result::Err(e) => spec_parse_blockif(trees_view(tokens@), i as int)
                    == Result::Err::<(BlockIfV, int), SyntaxError>(e),
            },
        decreases trees_view(tokens@), remaining(trees_view(tokens@), i as int), 2int,
    {
        if !(i < tokens.len() && tree_is_pound(&tokens[i])) {
            return Result::Err(
                SyntaxError { expected: Expected::PoundToken, pos: err_pos(tokens, i) },
            );
        }
        if !(i + 1 < tokens.len() && tree_is_if(&tokens[i + 1])) {
            return Result::Err(
                SyntaxError { expected: Expected::IfKeyword, pos: err_pos(tokens, i + 1) },
            );
        }
        let pos0 = tokens[i].pos();
        match ExprField::parse(tokens, i + 2) {
            Result::Err(e) => Result::Err(e),
            Result::Ok(p) => {
                let (if_cond, j) = p;
                match MacroBlock::parse(tokens, j) {
                    Result::Err(e) => Result::Err(e),
                    Result::Ok(q) => {
                        let (mb, k) = q;
                        Result::Ok(
                            (BlockIf { if_cond, group: Box::new(mb), pos: pos0 }, k),
                        )
                    },
                }
            },
        }
    }
}

impl BlockElse {
    /// Parses an else branch: `#`, `else`, then what follows.
    pub fn parse(tokens: &Vec<Tree>, i: usize) -> (r: Result<(BlockElse, usize), SyntaxError>)
        ensures
            match r {
                Result::Ok(p) => spec_parse_else(trees_view(tokens@), i as int) == Result::Ok::<
                    (MacroElseV, int),
                    SyntaxError,
                >((blockelse_view(p.0), p.1 as int)) && i < p.1 <= tokens@.len(),
                Result::Err(e) => spec_parse_else(trees_view(tokens@), i as int) == Result::Err::<
                    (MacroElseV, int),
                    SyntaxError,
                >(e),
            },
        decreases trees_view(tokens@), remaining(trees_view(tokens@), i as int), 2int,
    {
        if !(i < tokens.len() && tree_is_pound(&tokens[i])) {
            return Result::Err(
                SyntaxError { expected: Expected::PoundToken, pos: err_pos(tokens, i) },
            );
        }
        if !(i + 1 < tokens.len() && tree_is_else(&tokens[i + 1])) {
            return Result::Err(
                SyntaxError { expected: Expected::ElseKeyword, pos: err_pos(tokens, i + 1) },
            );
        }
        match MacroElse::parse(tokens, i + 2) {
            Result::Err(e) => Result::Err(e),
            Result::Ok(p) => {
                let (me, k) = p;
                Result::Ok((BlockElse { else_child: me }, k))
            },
        }
    }
}

impl MacroElse {
    /// Parses what follows `#else`: a chained `#if`, or a terminal block.
    pub fn parse(tokens: &Vec<Tree>, i: usize) -> (r: Result<(MacroElse, usize), SyntaxError>)
        ensures
            match r {
                Result::Ok(p) => spec_parse_macroelse(trees_view(tokens@), i as int)
                    == Result::Ok::<(MacroElseV, int), SyntaxError>(
                    (macroelse_view(p.0), p.1 as int),
                ) && i < p.1 <= tokens@.len(),
                Result::Err(e) => spec_parse_macroelse(trees_view(tokens@), i as int)
                    == Result::Err::<(MacroElseV, int), SyntaxError>(e),
            },
        decreases trees_view(tokens@), remaining(trees_view(tokens@), i as int), 4int,
    {
        if i < tokens.len() && tree_is_pound(&tokens[i]) {
            match MacroIf::parse(tokens, i) {
                Result::Err(e) => Result::Err(e),
                Result::Ok(p) => {
                    let (m, j) = p;
                    Result::Ok((MacroElse::If(Box::new(m)), j))
                },
            }
        } else {
            match MacroBlock::parse(tokens, i) {
                Result::Err(e) => Result::Err(e),
                Result::Ok(p) => {
                    let (mb, j) = p;
                    Result::Ok((MacroElse::Block(Box::new(mb)), j))
                },
            }
        }
    }
}

impl ExprField {
    /// Parses a field path: an identifier, then members while dots follow.
    pub fn parse(tokens: &Vec<Tree>, i: usize) -> (r: Result<(ExprField, usize), SyntaxError>)
        ensures
            match r {
                Result::Ok(p) => spec_parse_path(trees_view(tokens@), i as int) == Result::Ok::<
                    (Seq<IdentV>, int),
                    SyntaxError,
                >((path_view(p.0), p.1 as int)) && i < p.1 <= tokens@.len(),
                Result::Err(e) => spec_parse_path(trees_view(tokens@), i as int) == Result::Err::<
                    (Seq<IdentV>, int),
                    SyntaxError,
                >(e),
            },
        decreases trees_view(tokens@), remaining(trees_view(tokens@), i as int), 1int,
    {
        if i >= tokens.len() {
            return Result::Err(
                SyntaxError { expected: Expected::Identifier, pos: err_pos(tokens, i) },
            );
        }
        match &tokens[i] {
            Tree::Ident(id) => {
                let ident = Ident { text: id.text.clone(), pos: id.pos };
                if i + 1 < tokens.len() && tree_is_dot(&tokens[i + 1]) {
                    match Member::parse(tokens, i + 1) {
                        Result::Err(e) => Result::Err(e),
                        Result::Ok(p) => {
                            let (m, j) = p;
                            Result::Ok((ExprField { ident, member: Option::Some(m) }, j))
                        },
                    }
                } else {
                    Result::Ok((ExprField { ident, member: Option::None }, i + 1))
                }
            },
            _ => Result::Err(
                SyntaxError { expected: Expected::Identifier, pos: err_pos(tokens, i) },
            ),
        }
    }
}

impl Member {
    /// Parses one `.field` continuation.
    pub fn parse(tokens: &Vec<Tree>, i: usize) -> (r: Result<(Member, usize), SyntaxError>)
        ensures
            match r {
                Result::Ok(p) => spec_parse_member(trees_view(tokens@), i as int) == Result::Ok::<
                    (Seq<IdentV>, int),
                    SyntaxError,
                >((path_view(*p.0.field), p.1 as int)) && i < p.1 <= tokens@.len(),
                Result::Err(e) => spec_parse_member(trees_view(tokens@), i as int) == Result::Err::<
                    (Seq<IdentV>, int),
                    SyntaxError,
                >(e),
            },
        decreases trees_view(tokens@), remaining(trees_view(tokens@), i as int), 0int,
    {
        if !(i < tokens.len() && tree_is_dot(&tokens[i])) {
            return Result::Err(
                SyntaxError { expected: Expected::DotToken, pos: err_pos(tokens, i) },
            );
        }
        match ExprField::parse(tokens, i + 1) {
            Result::Err(e) => Result::Err(e),
            Result::Ok(p) => {
                let (f, j) = p;
                Result::Ok((Member { field: Box::new(f) }, j))
            },
        }
    }
}

} // verus!
