use vstd::prelude::*;

use crate::gen_tokens::{spec_gen_block, spec_gen_from, spec_generate};
use crate::object::{ErrorV, ValueV};
use crate::parse::{remaining, spec_parse, spec_parse_block, spec_parse_from, spec_parse_group, spec_parse_tree};
use crate::rustgen_ir::BlockV;
use crate::tokens::TreeV;

verus! {

/// No `#` punctuation anywhere in a token forest: such a stream holds no
/// conditional directive.
pub open spec fn pound_free(tokens: Seq<TreeV>) -> bool
    decreases tokens,
{
    if tokens.len() == 0 {
        true
    } else {
        tree_pound_free(tokens[0]) && pound_free(tokens.drop_first())
    }
}

/// No `#` punctuation anywhere in one token tree.
pub open spec fn tree_pound_free(t: TreeV) -> bool
    decreases t,
{
    match t {
        TreeV::Punct(p) => p.ch != '#',
        TreeV::Group(_, inner, _) => pound_free(inner),
        _ => true,
    }
}

proof fn lemma_pound_free_index(tokens: Seq<TreeV>, i: int)
    requires
        pound_free(tokens),
        0 <= i < tokens.len(),
    ensures
        tree_pound_free(tokens[i]),
    decreases i,
{
    if i > 0 {
        lemma_pound_free_index(tokens.drop_first(), i - 1);
    }
}

proof fn lemma_gen_from_shift(b: BlockV, rest: Seq<BlockV>, k: int, env: ValueV)
    requires
        0 <= k <= rest.len(),
    ensures
        spec_gen_from(seq![b] + rest, k + 1, env) == spec_gen_from(rest, k, env),
    decreases rest.len() - k,
{
    assert((seq![b] + rest).len() == 1 + rest.len());
    if k < rest.len() {
        assert((seq![b] + rest)[k + 1] == rest[k]);
        lemma_gen_from_shift(b, rest, k + 1, env);
    }
}

proof fn lemma_plain_parse_gen(tokens: Seq<TreeV>, i: int, env: ValueV)
    requires
        pound_free(tokens),
        0 <= i <= tokens.len(),
    ensures
        spec_parse_from(tokens, i) matches Result::Ok(blocks) && spec_gen_from(blocks, 0, env)
            == Result::Ok::<Seq<TreeV>, ErrorV>(tokens.skip(i)),
    decreases tokens, remaining(tokens, i),
{
    if i >= tokens.len() {
        assert(tokens.skip(i) =~= Seq::<TreeV>::empty());
    } else {
        lemma_pound_free_index(tokens, i);
        lemma_plain_parse_gen(tokens, i + 1, env);
        let blocks_rest = spec_parse_from(tokens, i + 1)->Ok_0;
        let b: BlockV;
        match tokens[i] {
            TreeV::Punct(p) => {
                b = BlockV::Tree(crate::rustgen_ir::IrTreeV::Punct(p));
                assert(spec_parse_tree(tokens, i) == Result::Ok::<
                    (crate::rustgen_ir::IrTreeV, int),
                    crate::parse::SyntaxError,
                >((crate::rustgen_ir::IrTreeV::Punct(p), i + 1)));
            },
            TreeV::Ident(v) => {
                b = BlockV::Tree(crate::rustgen_ir::IrTreeV::Ident(v));
                assert(spec_parse_tree(tokens, i) == Result::Ok::<
                    (crate::rustgen_ir::IrTreeV, int),
                    crate::parse::SyntaxError,
                >((crate::rustgen_ir::IrTreeV::Ident(v), i + 1)));
            },
            TreeV::Literal(v) => {
                b = BlockV::Tree(crate::rustgen_ir::IrTreeV::Literal(v));
                assert(spec_parse_tree(tokens, i) == Result::Ok::<
                    (crate::rustgen_ir::IrTreeV, int),
                    crate::parse::SyntaxError,
                >((crate::rustgen_ir::IrTreeV::Literal(v), i + 1)));
            },
            TreeV::Group(d, inner, p) => {
                lemma_plain_parse_gen(inner, 0, env);
                let inner_blocks = spec_parse_from(inner, 0)->Ok_0;
                assert(inner.skip(0) =~= inner);
                b = BlockV::Tree(crate::rustgen_ir::IrTreeV::Group(d, inner_blocks, p));
                assert(spec_parse_group(tokens, i) == Result::Ok::<
                    (crate::rustgen_ir::IrTreeV, int),
                    crate::parse::SyntaxError,
                >((crate::rustgen_ir::IrTreeV::Group(d, inner_blocks, p), i + 1)));
                assert(spec_parse_tree(tokens, i) == spec_parse_group(tokens, i));
            },
        }
        assert(!crate::parse::is_pound(tokens[i]));
        assert(spec_parse_block(tokens, i) == Result::Ok::<
            (BlockV, int),
            crate::parse::SyntaxError,
        >((b, i + 1)));
        assert(spec_parse_from(tokens, i) == Result::Ok::<Seq<BlockV>, crate::parse::SyntaxError>(
            seq![b] + blocks_rest,
        ));
        assert(spec_gen_block(b, env) == Result::Ok::<Seq<TreeV>, ErrorV>(seq![tokens[i]]));
        lemma_gen_from_shift(b, blocks_rest, 0, env);
        assert((seq![b] + blocks_rest)[0] == b);
        assert(seq![tokens[i]] + tokens.skip(i + 1) =~= tokens.skip(i));
    }
}

/// With no `#` token anywhere in the input there is no conditional
/// directive; parsing then succeeds, and generation returns the input
/// tokens unchanged and in the same order, under any configuration.
pub proof fn lemma_no_directive_identity(tokens: Seq<TreeV>, env: ValueV)
    requires
        pound_free(tokens),
    ensures
        spec_parse(tokens) matches Result::Ok(blocks) && spec_generate(blocks, env)
            == Result::Ok::<Seq<TreeV>, ErrorV>(tokens),
{
    lemma_plain_parse_gen(tokens, 0, env);
    assert(tokens.skip(0) =~= tokens);
}

} // verus!
