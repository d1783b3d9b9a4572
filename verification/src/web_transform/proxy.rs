//! The context the transforms run in when no JavaScript engine hosts them.
use vstd::prelude::*;

verus! {

/// The host environment; it carries nothing.
pub struct Env;

/// What the transforms get besides the module and the config; nothing.
pub struct ExtraInfo;

} // verus!
