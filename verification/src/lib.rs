//! Splitting a video into fixed-length clips by driving an external
//! stream-copy tool: planning how many clips a source yields, deriving
//! each clip's start offset and output name, interpreting the probing
//! tool's output, and classifying per-clip failures while the batch runs.

pub mod errors;
pub mod naming;
pub mod parse;
pub mod paths;
pub mod planner;
pub mod probe;
pub mod session;
pub mod text;
