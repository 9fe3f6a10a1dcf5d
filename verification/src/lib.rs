//! A registry of named SSH jump-host profiles.
//!
//! Profiles (host, user, port, authentication method) are kept in a local
//! SQLite table, keyed by a unique server name. The authentication method is
//! persisted as a single tagged text token; the codec between the structured
//! method and that token is total one way and splits on the first colon only
//! on the way back, so that key paths and passwords may themselves contain
//! colons.

mod dispatch;
mod errors;
mod method;
mod profile;
mod store;

pub use errors::JumpError;
pub use method::{
    decode, encode_spec, decode_spec, first_colon, has_colon, key_prefix, pass_prefix, ssh_tag,
    lemma_codec_round_trip, parse_ssh_path, ConnectMethods, MethodModel, Password, SSHKey,
};
pub use profile::{RowModel, ServerProfile, StoredRow, DEFAULT_PORT};
pub use store::{db_ready, db_rows, lemma_remove_idempotent, JumpStore};
pub use dispatch::{dec_str, destination, digit_char, format_u32, plan_spec, CommandPlan, PlanModel};
