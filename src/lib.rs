//! Control plane of a live-performance set list manager: a keyed record store
//! for songs and set lists, and a client for Reaper's web control surface that
//! never does I/O itself: it says which URL to fetch next and reads the replies.
use vstd::prelude::*;

pub mod api;
pub mod decimal;
pub mod exchange;
pub mod laws;
pub mod models;
pub mod paths;
pub mod protocol;
pub mod script_check;
pub mod settings;
pub mod store;
pub mod text;
pub mod workflow;

pub use decimal::TimeSpan;
pub use exchange::Reply;
pub use models::NewSetList;
pub use models::NewSong;
pub use models::SetList;
pub use models::Song;
pub use models::Timestamp;
pub use protocol::ReaperCommand;
pub use protocol::ReaperError;
pub use script_check::ScriptCheck;
pub use settings::Settings;
pub use store::Database;
pub use store::StoreError;
pub use store::StoredInDb;
pub use workflow::Exchange;
pub use workflow::Output;
pub use workflow::ReaperClient;
pub use workflow::Step;

verus! {

} // verus!
