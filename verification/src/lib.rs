//! The decisions behind hotswapping code in a running program.
//!
//! Three small programs share them: a page with one thread, a page whose web workers render an
//! image in parallel, and a web server. What talks to the browser, the network or other threads is
//! left to the programs; here is what they decide and compute.
//!
//! - [`devserver`]: finding the development server and answering its messages.
//! - [`jump_table`], [`uleb128`], [`dylink`], [`link`], [`hotpatch`], [`hotpatch_state`]: reading a
//!   patch, linking it into every thread, and committing it when all threads have it.
//! - [`thread_id`], [`worker_status`], [`ports`], [`manager`], [`messages`]: the web workers, the
//!   channels between them, and the way of a message.
//! - [`web_mutex`]: locks on a thread that may not block.
//! - [`render`], [`counter`], [`server`], [`text`]: what the programs show.

pub mod counter;
pub mod devserver;
pub mod dylink;
pub mod hotpatch;
pub mod hotpatch_state;
pub mod jump_table;
pub mod link;
pub mod manager;
pub mod messages;
pub mod ports;
pub mod render;
pub mod server;
pub mod text;
pub mod thread_id;
pub mod uleb128;
pub mod web_mutex;
pub mod worker_status;
