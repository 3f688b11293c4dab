use vstd::prelude::*;

pub mod chunker;
pub mod clean;
pub mod defaults;
pub mod pipeline;
pub mod prompts;
pub mod report;
pub mod template;
pub mod text;
pub mod tokens;

verus! {

} // verus!
