use vstd::prelude::*;

use crate::env::Env;
use crate::object::{eval_as_bool, error_view, spec_search, spec_truthy, value_view, Error, ErrorV, ValueV};
use crate::rustgen_ir::{
    blockelse_view, blockif_view, block_view, ir_view, irtree_view, macroblock_view,
    macroelse_view, macroif_view, BlockElse, BlockIf, BlockIfV, BlockV, Group, IrTreeV, MacroBlock,
    MacroElse, MacroElseV, MacroIf, MacroIfV, RustgenIR, TokenBlock, TokenTree,
};
use crate::tokens::{trees_view, Ident, Literal, Punct, Tree, TreeV};

verus! {

broadcast use crate::rustgen_ir::lemma_blocks_view_len, crate::rustgen_ir::lemma_blocks_view_index,
    crate::tokens::lemma_trees_view_len, crate::tokens::lemma_trees_view_index,
    crate::tokens::lemma_trees_view_push;

/// The generation semantics of a run of IR blocks, starting at block `i`:
/// the emitted tokens in order, or the first error encountered.
pub open spec fn spec_gen_from(blocks: Seq<BlockV>, i: int, env: ValueV) -> Result<
    Seq<TreeV>,
    ErrorV,
>
    decreases blocks, blocks.len() - i, 1int,
{
    if i < 0 || i >= blocks.len() {
        Result::Ok(Seq::empty())
    } else {
        match spec_gen_block(blocks[i], env) {
            Result::Err(e) => Result::Err(e),
            Result::Ok(ts) => match spec_gen_from(blocks, i + 1, env) {
                Result::Err(e) => Result::Err(e),
                Result::Ok(rest) => Result::Ok(ts + rest),
            },
        }
    }
}

/// The generation semantics of one IR block.
pub open spec fn spec_gen_block(b: BlockV, env: ValueV) -> Result<Seq<TreeV>, ErrorV>
    decreases b, 0int, 0int,
{
    match b {
        BlockV::Tree(t) => spec_gen_tree(t, env),
        BlockV::If(m) => spec_gen_if(m, env),
    }
}

/// The generation semantics of a plain token tree: leaves are copied
/// verbatim; a group keeps its delimiter and position around the generated
/// content of its inner IR.
pub open spec fn spec_gen_tree(t: IrTreeV, env: ValueV) -> Result<Seq<TreeV>, ErrorV>
    decreases t, 0int, 0int,
{
    match t {
        IrTreeV::Ident(i) => Result::Ok(seq![TreeV::Ident(i)]),
        IrTreeV::Literal(l) => Result::Ok(seq![TreeV::Literal(l)]),
        IrTreeV::Punct(p) => Result::Ok(seq![TreeV::Punct(p)]),
        IrTreeV::Group(d, inner, p) => match spec_gen_from(inner, 0, env) {
            Result::Err(e) => Result::Err(e),
            Result::Ok(ts) => Result::Ok(seq![TreeV::Group(d, ts, p)]),
        },
    }
}

/// The generation semantics of a conditional chain: the `#if` arm decides;
/// only when its condition resolved and was false is the else branch even
/// looked at. A false condition with no else branch emits nothing.
pub open spec fn spec_gen_if(m: MacroIfV, env: ValueV) -> Result<Seq<TreeV>, ErrorV>
    decreases m, 0int, 0int,
{
    match spec_gen_blockif(m.if_item, env) {
        Result::Err(e) => Result::Err(e),
        Result::Ok(p) => if p.0 {
            Result::Ok(p.1)
        } else {
            match m.else_item {
                Option::None => Result::Ok(Seq::empty()),
                Option::Some(e) => spec_gen_else(e, env),
            }
        },
    }
}

/// The generation semantics of an `#if` arm: resolve the condition (a
/// failure is the overall result), evaluate truthiness, and emit the body
/// only when the condition held.
pub open spec fn spec_gen_blockif(f: BlockIfV, env: ValueV) -> Result<
    (bool, Seq<TreeV>),
    ErrorV,
>
    decreases f, 0int, 0int,
{
    match spec_search(env, f.cond) {
        Result::Err(e) => Result::Err(e),
        Result::Ok(v) => if spec_truthy(v) {
            match spec_gen_from(f.body, 0, env) {
                Result::Err(e) => Result::Err(e),
                Result::Ok(ts) => Result::Ok((true, ts)),
            }
        } else {
            Result::Ok((false, Seq::empty()))
        },
    }
}

/// The generation semantics of an else branch.
pub open spec fn spec_gen_else(e: MacroElseV, env: ValueV) -> Result<Seq<TreeV>, ErrorV>
    decreases e, 0int, 0int,
{
    match e {
        MacroElseV::If(m) => spec_gen_if(*m, env),
        MacroElseV::Block(blocks) => spec_gen_from(blocks, 0, env),
    }
}

/// What the whole engine emits for an IR under a configuration.
pub open spec fn spec_generate(blocks: Seq<BlockV>, env: ValueV) -> Result<Seq<TreeV>, ErrorV> {
    spec_gen_from(blocks, 0, env)
}

/// How an emitting method relates the output stream before and after the
/// call: on success exactly the generated tokens are appended; on failure
/// the generation semantics yields the same error (and the stream's content
/// is discarded by the caller).
pub open spec fn emits(
    g: Result<Seq<TreeV>, ErrorV>,
    pre: Seq<Tree>,
    post: Seq<Tree>,
    r: Result<(), Error>,
) -> bool {
    match r {
        Result::Ok(u) => g matches Result::Ok(ts) && trees_view(post) == trees_view(pre) + ts,
        Result::Err(e) => g == Result::Err::<Seq<TreeV>, ErrorV>(error_view(e)),
    }
}

impl RustgenIR {
    /// Emits every block of this IR, in order, stopping at the first error.
    pub fn gen_tokens(&self, env: &Env, token_stream: &mut Vec<Tree>) -> (r: Result<(), Error>)
        ensures
            emits(
                spec_gen_from(ir_view(*self), 0, value_view(env.0)),
                old(token_stream)@,
                final(token_stream)@,
                r,
            ),
        decreases *self,
    {
        let ghost blocks = ir_view(*self);
        let ghost envv = value_view(env.0);
        let ghost base = trees_view(old(token_stream)@);
        let ghost mut emitted: Seq<TreeV> = Seq::empty();
        proof {
            crate::rustgen_ir::lemma_blocks_view_len(self.0@);
            assert(base + emitted =~= base);
        }
        let mut i: usize = 0;
        while i < self.0.len()
            invariant
                i <= self.0@.len(),
                blocks == ir_view(*self),
                blocks.len() == self.0@.len(),
                envv == value_view(env.0),
                base == trees_view(old(token_stream)@),
                trees_view(token_stream@) == base + emitted,
                ({
                    let g0 = spec_gen_from(blocks, 0, envv);
                    match spec_gen_from(blocks, i as int, envv) {
                        Result::Ok(rest) => g0 == Result::Ok::<Seq<TreeV>, ErrorV>(emitted + rest),
                        Result::Err(e) => g0 == Result::Err::<Seq<TreeV>, ErrorV>(e),
                    }
                }),
            decreases self.0@.len() - i,
        {
            let ghost cur = trees_view(token_stream@);
            proof {
                crate::rustgen_ir::lemma_blocks_view_index(self.0@, i as int);
            }
            let block = &self.0[i];
            match block.gen_tokens(env, token_stream) {
                Result::Err(e) => {
                    return Result::Err(e);
                },
                Result::Ok(u) => {
                    proof {
                        let g_head = spec_gen_block(blocks[i as int], envv);
                        let ts = g_head->Ok_0;
                        assert(trees_view(token_stream@) == cur + ts);
                        assert((base + emitted) + ts =~= base + (emitted + ts));
                        match spec_gen_from(blocks, i + 1, envv) {
                            Result::Ok(rest) => {
                                assert((emitted + ts) + rest =~= emitted + (ts + rest));
                            },
                            Result::Err(e) => {},
                        }
                        emitted = emitted + ts;
                    }
                },
            }
            i += 1;
        }
        proof {
            assert(emitted + Seq::<TreeV>::empty() =~= emitted);
        }
        Result::Ok(())
    }
}

impl TokenBlock {
    /// Emits one block: a plain tree verbatim, or a conditional chain.
    pub fn gen_tokens(&self, env: &Env, token_stream: &mut Vec<Tree>) -> (r: Result<(), Error>)
        ensures
            emits(
                spec_gen_block(block_view(*self), value_view(env.0)),
                old(token_stream)@,
                final(token_stream)@,
                r,
            ),
        decreases *self,
    {
        match self {
            TokenBlock::TokenTree(t) => t.gen_tokens(env, token_stream),
            TokenBlock::MacroIf(m) => m.gen_tokens(env, token_stream),
        }
    }
}

impl TokenTree {
    /// Emits one token tree: leaves are copied verbatim.
    pub fn gen_tokens(&self, env: &Env, token_stream: &mut Vec<Tree>) -> (r: Result<(), Error>)
        ensures
            emits(
                spec_gen_tree(irtree_view(*self), value_view(env.0)),
                old(token_stream)@,
                final(token_stream)@,
                r,
            ),
        decreases *self,
    {
        match self {
            TokenTree::Ident(id) => {
                token_stream.push(Tree::Ident(Ident { text: id.text.clone(), pos: id.pos }));
                Result::Ok(())
            },
            TokenTree::Literal(l) => {
                token_stream.push(Tree::Literal(Literal { text: l.text.clone(), pos: l.pos }));
                Result::Ok(())
            },
            TokenTree::Punct(p) => {
                token_stream.push(Tree::Punct(Punct { ch: p.ch, pos: p.pos }));
                Result::Ok(())
            },
            TokenTree::Group(g) => g.gen_tokens(env, token_stream),
        }
    }
}

impl Group {
    /// Emits a group: the same delimiter and position always come through,
    /// wrapping whatever its inner IR generates - an empty inner result
    /// still produces an empty-but-present group.
    pub fn gen_tokens(&self, env: &Env, token_stream: &mut Vec<Tree>) -> (r: Result<(), Error>)
        ensures
            emits(
                spec_gen_tree(
                    IrTreeV::Group(self.delimiter, ir_view(*self.ir), self.pos),
                    value_view(env.0),
                ),
                old(token_stream)@,
                final(token_stream)@,
                r,
            ),
        decreases *self,
    {
        let mut inner: Vec<Tree> = Vec::new();
        match self.ir.gen_tokens(env, &mut inner) {
            Result::Err(e) => Result::Err(e),
            Result::Ok(u) => {
                proof {
                    assert(trees_view(Seq::<Tree>::empty()) =~= Seq::<TreeV>::empty());
                    assert(trees_view(inner@) =~= spec_gen_from(
                        ir_view(*self.ir),
                        0,
                        value_view(env.0),
                    )->Ok_0);
                }
                token_stream.push(Tree::Group(self.delimiter, inner, self.pos));
                Result::Ok(())
            },
        }
    }
}

impl MacroIf {
    /// Emits a conditional chain: the `#if` arm first; its else branch only
    /// when the condition resolved and was false.
    pub fn gen_tokens(&self, env: &Env, token_stream: &mut Vec<Tree>) -> (r: Result<(), Error>)
        ensures
            emits(
                spec_gen_if(macroif_view(*self), value_view(env.0)),
                old(token_stream)@,
                final(token_stream)@,
                r,
            ),
        decreases *self,
    {
        match self.if_item.gen_tokens(env, token_stream) {
            Result::Err(e) => Result::Err(e),
            Result::Ok(generated) => {
                if !generated {
                    match &self.else_item {
                        Option::Some(e) => e.gen_tokens(env, token_stream),
                        Option::None => Result::Ok(()),
                    }
                } else {
                    Result::Ok(())
                }
            },
        }
    }
}

impl BlockIf {
    /// Resolves the condition and, when it holds, emits the guarded body;
    /// returns whether the body was emitted. A resolution failure is final:
    /// the caller never falls back to the else branch.
    pub fn gen_tokens(&self, env: &Env, token_stream: &mut Vec<Tree>) -> (r: Result<bool, Error>)
        ensures
            match r {
                Result::Ok(b) => spec_gen_blockif(blockif_view(*self), value_view(env.0))
                    matches Result::Ok(p) && p.0 == b && trees_view(final(token_stream)@)
                    == trees_view(old(token_stream)@) + p.1,
                Result::Err(e) => spec_gen_blockif(blockif_view(*self), value_view(env.0))
                    == Result::Err::<(bool, Seq<TreeV>), ErrorV>(error_view(e)),
            },
        decreases *self,
    {
        match env.search(&self.if_cond) {
            Result::Err(err) => Result::Err(err),
            Result::Ok(value) => {
                let should_generate = eval_as_bool(value);
                if should_generate {
                    match self.group.gen_tokens(env, token_stream) {
                        Result::Err(e) => Result::Err(e),
                        Result::Ok(u) => Result::Ok(true),
                    }
                } else {
                    Result::Ok(false)
                }
            },
        }
    }
}

impl MacroBlock {
    /// Emits the content of a braced block; the braces themselves never
    /// reach the output.
    pub fn gen_tokens(&self, env: &Env, token_stream: &mut Vec<Tree>) -> (r: Result<(), Error>)
        ensures
            emits(
                spec_gen_from(macroblock_view(*self), 0, value_view(env.0)),
                old(token_stream)@,
                final(token_stream)@,
                r,
            ),
        decreases *self,
    {
        self.ir.gen_tokens(env, token_stream)
    }
}

impl BlockElse {
    /// Emits the else branch of a chain.
    pub fn gen_tokens(&self, env: &Env, token_stream: &mut Vec<Tree>) -> (r: Result<(), Error>)
        ensures
            emits(
                spec_gen_else(blockelse_view(*self), value_view(env.0)),
                old(token_stream)@,
                final(token_stream)@,
                r,
            ),
        decreases *self,
    {
        self.else_child.gen_tokens(env, token_stream)
    }
}

impl MacroElse {
    /// Emits what follows `#else`: a chained `#if`, or a terminal block.
    pub fn gen_tokens(&self, env: &Env, token_stream: &mut Vec<Tree>) -> (r: Result<(), Error>)
        ensures
            emits(
                spec_gen_else(macroelse_view(*self), value_view(env.0)),
                old(token_stream)@,
                final(token_stream)@,
                r,
            ),
        decreases *self,
    {
        match self {
            MacroElse::If(m) => m.gen_tokens(env, token_stream),
            MacroElse::Block(mb) => mb.gen_tokens(env, token_stream),
        }
    }
}

/// Generation is a function of the IR and the configuration alone: two runs
/// over the same immutable IR and configuration yield identical output.
pub proof fn lemma_generate_deterministic(
    blocks: Seq<BlockV>,
    env: ValueV,
    r1: Result<Seq<TreeV>, ErrorV>,
    r2: Result<Seq<TreeV>, ErrorV>,
)
    requires
        r1 == spec_generate(blocks, env),
        r2 == spec_generate(blocks, env),
    ensures
        r1 == r2,
{
}

} // verus!
