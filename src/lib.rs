//! Classification and state capture for a command interceptor that sits in
//! front of a version-control tool and keeps a queryable history of what was
//! run through it.
pub mod kind;
pub mod record;
pub mod text;

pub use kind::{classify, command_is_mutate, kind_from_verb, CommandKind};
pub use record::{filter_mutating, keep_flagged, GitCommandState, HistoryRecord, NoCommandFound};
pub use text::{first_token, same_text, split_tokens, trim_output};
