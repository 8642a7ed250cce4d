//! Typed model of an imageboard's read-only JSON API.
//!
//! Records arrive in a permissive raw shape (every optional key optional, flags
//! as wire integers); the functions here turn them into the canonical domain
//! types, and their contracts say exactly what comes out.
use vstd::prelude::*;

pub mod board;
pub mod catalog;
pub mod endpoint;
pub mod error;
pub mod post;
pub mod thread;
pub mod wire;

pub use board::{Board, BoardPre, BoardsPre, Cooldowns};
pub use catalog::{Catalog, CatalogPre, Page, PagePre};
pub use endpoint::{boards_url, catalog_url, thread_url};
pub use error::{check_status, DecodeError, Error};
pub use post::{Attachment, AttachmentPre, Capcode, Post, PostPre};
pub use thread::{posts_from_pre, Thread, ThreadInfo, ThreadInfoPre, ThreadPost, ThreadPre};
pub use wire::{int_to_bool, RawFlag};

verus! {

} // verus!
