//! Rewrites imports of the typed saga macro module to the runtime effects
//! module, and turns delegating yields of the imported effect creators into
//! plain yields.
pub mod ast;
pub mod laws;
pub mod rewrite;
