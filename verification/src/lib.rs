//! Release packaging: names of the distribution files, the commands that build,
//! archive, checksum and publish one target, and the fail-fast pipeline that
//! sequences them.

pub mod binary;
pub mod command;
pub mod error;
pub mod pipeline;
pub mod plan;
pub mod publish;
pub mod tag;
