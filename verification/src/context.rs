//! The execution context: a shared handle to the terminal environment plus an
//! application-chosen global value.
//!
//! The context here carries the *model* of the environment (see [`crate::env`])
//! behind a reference-counted handle; the interactive front end pairs it with
//! the real terminal device. Chaining produces a new context that shares the
//! same environment handle but holds a different global value, so the
//! environment is never acquired a second time.

use std::rc::Rc;
use vstd::prelude::*;
use crate::env::EnvModel;
use crate::env::spec_acquired;

verus! {

/// The terminal environment as a context sees it: either managed by the
/// library (acquired on construction, released when the last handle drops) or
/// supplied and torn down by the caller.
#[derive(Debug)]
pub enum Environment {
    Managed(EnvModel),
    Unmanaged,
}

/// Bundles the shared terminal environment with an application-defined global
/// value. Screens receive a mutable context while they run and may read or
/// replace the global through it.
#[derive(Debug)]
pub struct Context<G> {
    /// Application-defined global value.
    pub global: G,
    /// The shared handle to the environment, reference-counted so that chained
    /// contexts reuse it instead of acquiring the environment again.
    pub environment: Rc<Environment>,
}

/// Relies on the standard library's `Rc::clone`: the clone is a second handle
/// to the very same allocation, so it carries the same value.
#[verifier::external_body]
fn clone_handle(rc: &Rc<Environment>) -> (res: Rc<Environment>)
    ensures
        res == *rc,
{
    Rc::clone(rc)
}

impl<G> Context<G> {
    /// Creates a managed context with the given global value: the environment
    /// model is freshly acquired, with the panic hook installed.
    pub fn with_global(global: G) -> (r: Context<G>)
        ensures
            r.global == global,
            r.env() == Environment::Managed(spec_acquired(EnvModel::spec_startup())),
    {
        let m = crate::env::apply_commands(
            crate::env::EnvModel::startup(),
            &crate::env::acquire_commands(&crate::env::EnvModel::startup()),
        );
        Self::with_global_impl(global, Environment::Managed(m))
    }

    /// Creates a context with the given global value around an environment the
    /// caller manages itself: nothing is acquired and nothing will be released.
    pub fn with_global_unmanaged(global: G) -> (r: Context<G>)
        ensures
            r.global == global,
            r.env() == Environment::Unmanaged,
    {
        Self::with_global_impl(global, Environment::Unmanaged)
    }

    fn with_global_impl(global: G, environment: Environment) -> (r: Context<G>)
        ensures
            r.global == global,
            r.env() == environment,
    {
        Context { global, environment: Rc::new(environment) }
    }

    /// The environment this context is bound to.
    pub open spec fn env(&self) -> Environment {
        *self.environment
    }

    /// Creates a new context with a new global value, reusing the shared
    /// environment handle of this one: the environment is not acquired again.
    pub fn chain_with_global<F>(&self, global: F) -> (r: Context<F>)
        ensures
            r.global == global,
            r.env() == self.env(),
    {
        Context { global, environment: clone_handle(&self.environment) }
    }

    /// Creates a new context without a global value, reusing the shared
    /// environment handle of this one.
    pub fn chain_without_global(&self) -> (r: Context<()>)
        ensures
            r.env() == self.env(),
    {
        self.chain_with_global(())
    }
}

impl Context<()> {
    /// Creates a managed context without a global value.
    pub fn new() -> (r: Context<()>)
        ensures
            r.env() == Environment::Managed(spec_acquired(EnvModel::spec_startup())),
    {
        Context::with_global(())
    }

    /// Creates a context without a global value around a caller-managed
    /// environment.
    pub fn new_unmanaged() -> (r: Context<()>)
        ensures
            r.env() == Environment::Unmanaged,
    {
        Context::with_global_unmanaged(())
    }
}

} // verus!
