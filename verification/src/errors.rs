use vstd::prelude::*;

verus! {

/// An error reported while beginning or advancing a resource load.
#[derive(Clone, Copy, Debug, PartialEq, Eq, Structural)]
pub enum LoadError {
    /// The path does not resolve to any resource.
    NotFound,
    /// The path resolves to a resource that is not a packaged scene.
    UnsupportedType,
    /// The resource stream ended before the load completed.
    Corrupt,
    /// A lower-level input error interrupted the load.
    Io,
}

/// An error turning a fully loaded resource into a live scene node.
#[derive(Clone, Copy, Debug, PartialEq, Eq, Structural)]
pub enum InstantiateError {
    /// The loaded resource refers to a dependency that is not available.
    MissingDependency,
}

} // verus!
