use vstd::prelude::*;

pub mod classes;
pub mod gamesave;
pub mod handle_table;
pub mod hresult;
pub mod networking;
pub mod pickers;
pub mod storage;
pub mod store;
pub mod system;
pub mod task_queue;
pub mod text;
pub mod xasync;

verus! {

} // verus!
