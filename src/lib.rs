//! Supervision of a local service process launched beside a desktop shell:
//! the decisions of its lifecycle, stated and proved, and the small pieces of
//! text (addresses, commands, the loading page) that the shell hands out.

pub mod commands;
pub mod encoding;
pub mod lifecycle;
pub mod readiness;
