//! Desktop applications that can be pointed at a wally endpoint.

pub mod brand;
pub mod claude_profile;
