//! The engine adapter seam: the low-level virtual machine that actually
//! parses, links and executes bytecode is an external collaborator, supplied
//! by the embedder behind this interface.
//!
//! Nothing is assumed of an engine: the runtime's contracts state what holds
//! of its own bookkeeping whatever an `invoke` did to the sandbox, and
//! restore the working state whenever an invocation does not succeed.

use vstd::prelude::*;
use crate::result::Error;
use crate::sandbox::Sandbox;

verus! {

/// An executable binding of one module against the host's capabilities.
pub trait Engine {
    /// Parses and validates the module and links its imports against the
    /// host table; a malformed binary or an unresolved import is reported as
    /// an error.
    fn bind(&mut self, module: &[u8]) -> Result<(), Error>;

    /// Runs the named exported function to completion or to a trap.  The
    /// sandbox is lent for the duration of the run: every host effect the
    /// bytecode causes goes through it.
    fn invoke(&mut self, export: &str, sandbox: &mut Sandbox) -> Result<(), Error>;
}

} // verus!
