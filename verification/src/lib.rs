//! A sandboxed execution core for WebAssembly smart contracts.
//!
//! A [`runtime::Runtime`] embodies one loaded contract: it decodes the
//! contract's metadata, computes memory limits from the module's own import
//! declarations, binds a bounded linear [`memory::Memory`] and a working
//! [`state::State`] into a [`sandbox::Sandbox`], and drives an embedder
//! supplied [`engine::Engine`] through `deploy` and `call`.  Every effect a
//! contract can cause passes through the sandbox's host-function layer, which
//! meters gas, checks memory bounds, and normalizes each outcome into the
//! taxonomy of [`result`].

pub mod engine;
pub mod gas;
pub mod instantiate;
pub mod memory;
pub mod metadata;
pub mod result;
pub mod runtime;
pub mod sandbox;
pub mod state;
pub mod storage;
pub mod util;
pub mod wasm;
