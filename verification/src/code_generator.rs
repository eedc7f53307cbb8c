use vstd::prelude::*;

use crate::env::Env;
use crate::gen_tokens::spec_generate;
use crate::object::{error_view, value_view, Error, ErrorV};
use crate::rustgen_ir::{ir_view, RustgenIR};
use crate::tokens::{trees_view, Tree, TokenStream, TreeV};

verus! {

/// One generation run: an IR and the configuration it is evaluated against,
/// consumed exactly once.
#[derive(Debug)]
pub struct CodeGenerator {
    pub ir: RustgenIR,
    pub env: Env,
}

impl CodeGenerator {
    pub fn new(ir: RustgenIR, env: Env) -> (r: CodeGenerator)
        ensures
            r.ir == ir,
            r.env == env,
    {
        CodeGenerator { ir, env }
    }

    /// Walks the IR and emits the output token stream, or the first error;
    /// no partial output ever accompanies an error.
    pub fn generate(self) -> (r: Result<TokenStream, Error>)
        ensures
            match r {
                Result::Ok(ts) => spec_generate(ir_view(self.ir), value_view(self.env.0))
                    == Result::Ok::<Seq<TreeV>, ErrorV>(ts@),
                Result::Err(e) => spec_generate(ir_view(self.ir), value_view(self.env.0))
                    == Result::Err::<Seq<TreeV>, ErrorV>(error_view(e)),
            },
    {
        let mut token_stream: Vec<Tree> = Vec::new();
        match self.ir.gen_tokens(&self.env, &mut token_stream) {
            Result::Err(e) => Result::Err(e),
            Result::Ok(u) => {
                proof {
                    assert(trees_view(Seq::<Tree>::empty()) =~= Seq::<TreeV>::empty());
                    assert(Seq::<TreeV>::empty() + spec_generate(
                        ir_view(self.ir),
                        value_view(self.env.0),
                    )->Ok_0 =~= spec_generate(ir_view(self.ir), value_view(self.env.0))->Ok_0);
                }
                Result::Ok(TokenStream(token_stream))
            },
        }
    }
}

} // verus!
