//! Verified core of the CV writer MCP server.
use vstd::prelude::*;

pub mod compiler;
pub mod decimal;
pub mod json;
pub mod lookup;
pub mod mcp;
pub mod schema;
pub mod server;
pub mod template;

verus! {

/// `String::push` appends one character at the end (std documents it so).
pub assume_specification[ String::push ](s: &mut String, ch: char)
    ensures
        final(s)@ == old(s)@.push(ch),
;

} // verus!
