pub mod tokens;
pub mod rustgen_ir;
pub mod object;
pub mod env;
pub mod gen_tokens;
pub mod code_generator;
pub mod parse;
pub mod laws;
