//! A handle on a module's embedded resource table.

use vstd::prelude::*;

verus! {

/// The resource table embedded in a loaded module.
///
/// The platform identifies a loaded module by an instance handle; this type
/// carries that handle as a plain integer. Looking an icon up in the table is
/// the platform loader's work and stays outside this crate; the builder only
/// records which table a lookup should search.
#[derive(Clone, Copy, Debug, PartialEq, Eq, Structural)]
pub struct EmbedResource {
    /// The instance handle of the module that carries the table.
    pub module_handle: usize,
}

impl EmbedResource {
    /// Wraps the instance handle of a loaded module.
    pub fn from_module_handle(module_handle: usize) -> (r: EmbedResource)
        ensures
            r.module_handle == module_handle,
    {
        EmbedResource { module_handle }
    }
}

} // verus!
