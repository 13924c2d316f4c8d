//! Signed-distance fields attached to scenegraph nodes: the closed set of
//! field kinds and their parameters, the set-once attachment of a field to a
//! node, the errors of field operations, the argument layout of the creation
//! calls, and the budgeted sphere-tracing loop.

use vstd::prelude::*;

pub mod args;
pub mod error;
pub mod field;
pub mod march;
