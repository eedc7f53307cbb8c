use vstd::prelude::*;

use crate::tokens::{Delimiter, Ident, IdentV, Literal, LiteralV, Punct, PunctV};
use crate::tokens::{ident_view, literal_view, punct_view};

verus! {

/// The parsed intermediate representation: an ordered sequence of blocks.
#[derive(Debug, PartialEq, Eq)]
pub struct RustgenIR(pub Vec<TokenBlock>);

/// One block of the IR: a plain token tree, or a conditional chain.
#[derive(Debug, PartialEq, Eq)]
pub enum TokenBlock {
    TokenTree(TokenTree),
    MacroIf(MacroIf),
}

/// A token tree of the IR; a group's content is itself a fully parsed IR.
#[derive(Debug, PartialEq, Eq)]
pub enum TokenTree {
    Ident(Ident),
    Literal(Literal),
    Punct(Punct),
    Group(Group),
}

/// A delimited group owning its fully parsed inner IR.
#[derive(Debug, PartialEq, Eq)]
pub struct Group {
    pub delimiter: Delimiter,
    pub ir: Box<RustgenIR>,
    pub pos: usize,
}

/// A conditional chain: an `#if` arm and an optional else branch.
#[derive(Debug, PartialEq, Eq)]
pub struct MacroIf {
    pub if_item: BlockIf,
    pub else_item: Option<BlockElse>,
}

/// The `#if` arm: a condition path and the braced body it guards.
#[derive(Debug, PartialEq, Eq)]
pub struct BlockIf {
    pub if_cond: ExprField,
    pub group: Box<MacroBlock>,
    pub pos: usize,
}

/// A braced block of IR; the braces themselves are never emitted.
#[derive(Debug, PartialEq, Eq)]
pub struct MacroBlock {
    pub ir: Box<RustgenIR>,
    pub pos: usize,
}

/// The `#else` branch of a conditional chain.
#[derive(Debug, PartialEq, Eq)]
pub struct BlockElse {
    pub else_child: MacroElse,
}

/// What follows `#else`: a chained `#if`, or a terminal braced block.
#[derive(Debug, PartialEq, Eq)]
pub enum MacroElse {
    If(Box<MacroIf>),
    Block(Box<MacroBlock>),
}

/// A dotted field path: an identifier, optionally followed by more members.
#[derive(Debug, PartialEq, Eq)]
pub struct ExprField {
    pub ident: Ident,
    pub member: Option<Member>,
}

/// One `.field` continuation of a field path.
#[derive(Debug, PartialEq, Eq)]
pub struct Member {
    pub field: Box<ExprField>,
}

impl ExprField {
    /// The text of this path's leading segment.
    pub fn name(&self) -> (r: String)
        ensures
            r@ == path_view(*self)[0].text,
    {
        self.ident.text.clone()
    }
}

/// Mathematical model of one IR block.
#[verifier::ext_equal]
pub enum BlockV {
    Tree(IrTreeV),
    If(MacroIfV),
}

/// Mathematical model of an IR token tree.
#[verifier::ext_equal]
pub enum IrTreeV {
    Ident(IdentV),
    Literal(LiteralV),
    Punct(PunctV),
    Group(Delimiter, Seq<BlockV>, usize),
}

/// Mathematical model of a conditional chain.
#[verifier::ext_equal]
pub struct MacroIfV {
    pub if_item: BlockIfV,
    pub else_item: Option<MacroElseV>,
}

/// Mathematical model of an `#if` arm.
#[verifier::ext_equal]
pub struct BlockIfV {
    pub cond: Seq<IdentV>,
    pub body: Seq<BlockV>,
    pub pos: usize,
}

/// Mathematical model of an else branch.
#[verifier::ext_equal]
pub enum MacroElseV {
    If(Box<MacroIfV>),
    Block(Seq<BlockV>),
}

pub open spec fn ir_view(ir: RustgenIR) -> Seq<BlockV>
    decreases ir,
{
    blocks_view(ir.0@)
}

pub open spec fn blocks_view(s: Seq<TokenBlock>) -> Seq<BlockV>
    decreases s,
{
    if s.len() == 0 {
        Seq::empty()
    } else {
        seq![block_view(s[0])] + blocks_view(s.drop_first())
    }
}

pub open spec fn block_view(b: TokenBlock) -> BlockV
    decreases b,
{
    match b {
        TokenBlock::TokenTree(t) => BlockV::Tree(irtree_view(t)),
        TokenBlock::MacroIf(m) => BlockV::If(macroif_view(m)),
    }
}

pub open spec fn irtree_view(t: TokenTree) -> IrTreeV
    decreases t,
{
    match t {
        TokenTree::Ident(i) => IrTreeV::Ident(ident_view(i)),
        TokenTree::Literal(l) => IrTreeV::Literal(literal_view(l)),
        TokenTree::Punct(p) => IrTreeV::Punct(punct_view(p)),
        TokenTree::Group(g) => IrTreeV::Group(g.delimiter, ir_view(*g.ir), g.pos),
    }
}

pub open spec fn macroif_view(m: MacroIf) -> MacroIfV
    decreases m,
{
    MacroIfV {
        if_item: blockif_view(m.if_item),
        else_item: match m.else_item {
            Option::Some(e) => Option::Some(blockelse_view(e)),
            Option::None => Option::None,
        },
    }
}

pub open spec fn blockif_view(b: BlockIf) -> BlockIfV
    decreases b,
{
    BlockIfV { cond: path_view(b.if_cond), body: macroblock_view(*b.group), pos: b.pos }
}

pub open spec fn macroblock_view(mb: MacroBlock) -> Seq<BlockV>
    decreases mb,
{
    ir_view(*mb.ir)
}

pub open spec fn blockelse_view(e: BlockElse) -> MacroElseV
    decreases e,
{
    macroelse_view(e.else_child)
}

pub open spec fn macroelse_view(e: MacroElse) -> MacroElseV
    decreases e,
{
    match e {
        MacroElse::If(m) => MacroElseV::If(Box::new(macroif_view(*m))),
        MacroElse::Block(mb) => MacroElseV::Block(macroblock_view(*mb)),
    }
}

pub open spec fn path_view(f: ExprField) -> Seq<IdentV>
    decreases f,
{
    match f.member {
        Option::Some(m) => seq![ident_view(f.ident)] + path_view(*m.field),
        Option::None => seq![ident_view(f.ident)],
    }
}

pub broadcast proof fn lemma_blocks_view_len(s: Seq<TokenBlock>)
    ensures
        (#[trigger] blocks_view(s)).len() == s.len(),
    decreases s,
{
    if s.len() != 0 {
        lemma_blocks_view_len(s.drop_first());
    }
}

pub broadcast proof fn lemma_blocks_view_index(s: Seq<TokenBlock>, i: int)
    requires
        0 <= i < s.len(),
    ensures
        #[trigger] blocks_view(s)[i] == block_view(s[i]),
    decreases s,
{
    lemma_blocks_view_len(s);
    if i > 0 {
        lemma_blocks_view_index(s.drop_first(), i - 1);
    }
}

pub broadcast proof fn lemma_blocks_view_push(s: Seq<TokenBlock>, b: TokenBlock)
    ensures
        #[trigger] blocks_view(s.push(b)) == blocks_view(s) + seq![block_view(b)],
    decreases s,
{
    reveal_with_fuel(blocks_view, 3);
    lemma_blocks_view_len(s);
    if s.len() == 0 {
        assert(s.push(b) =~= seq![b]);
        assert(s.push(b).drop_first() =~= Seq::<TokenBlock>::empty());
        assert(blocks_view(s.push(b)) =~= blocks_view(s) + seq![block_view(b)]);
    } else {
        assert(s.push(b)[0] == s[0]);
        assert(s.push(b).drop_first() =~= s.drop_first().push(b));
        lemma_blocks_view_push(s.drop_first(), b);
        assert(blocks_view(s.push(b)) == seq![block_view(s[0])] + blocks_view(
            s.push(b).drop_first(),
        ));
        assert(blocks_view(s.push(b)) =~= blocks_view(s) + seq![block_view(b)]);
    }
}

/// A field path always has at least one segment.
pub broadcast proof fn lemma_path_view_nonempty(f: ExprField)
    ensures
        (#[trigger] path_view(f)).len() >= 1,
        path_view(f)[0] == ident_view(f.ident),
{
}

} // verus!
