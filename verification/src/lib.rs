//! Navigation coordination core of a minimal browser shell.
//!
//! Tabs are allocated and tracked by a registry; navigation requests are
//! handed to a background loop over a command channel and their results come
//! back through single-use, poll-only jobs.

pub mod model;
pub mod registry;
pub mod runtime;
pub mod shared;
pub mod text;
pub mod title;
pub mod urls;

pub use model::BrowserError;
pub use model::PageRequest;
pub use model::PageResponse;
pub use model::SubmissionError;
pub use model::TabId;
pub use model::TabSnapshot;
pub use model::TransportOutcome;
pub use registry::BrowserCore;
pub use runtime::command_channel;
pub use runtime::BrowserHandle;
pub use runtime::LoopDirective;
pub use runtime::NavigationJob;
pub use runtime::RuntimeCommand;
pub use shared::SharedRegistry;
pub use text::generate_preview;
pub use title::derive_title;
pub use urls::parse_user_url;
pub use urls::UrlError;
