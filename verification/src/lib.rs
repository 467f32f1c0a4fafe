//! Verified core of ClipFlow, a clipboard history manager.
use vstd::prelude::*;

pub mod text;
pub mod codec;
pub mod content;
pub mod suppress;
pub mod capture;
pub mod monitor;
pub mod transfer;
pub mod history;
pub mod queue;
pub mod upload;
pub mod translate;
pub mod layout;

verus! {
} // verus!
