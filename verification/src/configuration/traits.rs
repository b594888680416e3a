//! Two-stage configuration: a raw value, as read from a file, resolves into a
//! validated one.
//!
//! - [`Resolve`]: validation and transformation that cannot fail
//! - [`TryResolve`]: validation and transformation that can fail
//! - [`ResolveWithContext`]: as [`Resolve`], with a context handed in
//! - [`TryResolveWithContext`]: as [`TryResolve`], with a context handed in

use vstd::prelude::*;

verus! {

/// Validation and transformation that can fail.
pub trait TryResolve: Sized {
    /// What a raw value resolves into.
    type Resolved;

    /// What a failed resolution returns.
    type Error;

    /// Validates the raw value and turns it into the resolved one.
    fn try_resolve(self) -> Result<Self::Resolved, Self::Error>;
}

/// Validation and transformation that cannot fail.
pub trait Resolve: Sized {
    /// What a raw value resolves into.
    type Resolved;

    /// Turns the raw value into the resolved one.
    fn resolve(self) -> Self::Resolved;
}

/// Validation and transformation that can fail and needs a context.
pub trait TryResolveWithContext: Sized {
    /// What a raw value resolves into.
    type Resolved;

    /// What a failed resolution returns.
    type Error;

    /// What the resolution needs besides the raw value. Its meaning is up to the
    /// implementor.
    type Context;

    /// Validates the raw value and turns it into the resolved one.
    fn try_resolve(self, context: Self::Context) -> Result<Self::Resolved, Self::Error>;
}

/// Validation and transformation that cannot fail and needs a context.
pub trait ResolveWithContext: Sized {
    /// What a raw value resolves into.
    type Resolved;

    /// What the resolution needs besides the raw value. Its meaning is up to the
    /// implementor.
    type Context;

    /// Turns the raw value into the resolved one.
    fn resolve(self, context: Self::Context) -> Self::Resolved;
}

} // verus!
