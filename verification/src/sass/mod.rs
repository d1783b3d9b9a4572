//! Compiling Sass with libsass.
//!
//! libsass is reached through a foreign interface, so the call itself is made
//! by the `engine` the caller passes: it receives the compilation job and
//! reports libsass's status, error message and output.
use vstd::prelude::*;

use crate::sass::bindings::context::{
    compile_outcome, options_applied, result_view, Context, SassSource, SassStatus,
};
use crate::sass::options::Options;
use crate::sass::bindings::options::free_of_nul;

pub mod bindings;
pub mod options;

verus! {

/// Compiles the file at `path` with the options given.
pub fn compile_file<F: FnOnce(&Context) -> SassStatus>(path: &str, options: Options, engine: F) -> (r:
    Result<String, String>)
    requires
        forall|c: &Context| #[trigger] call_requires(engine, (c,)),
        free_of_nul(options.include_paths.deep_view()),
    ensures
        exists|c: Context, st: SassStatus|
            {
                &&& c.source matches SassSource::File(p) && p@ == path@
                &&& options_applied(c.options, options)
                &&& call_ensures(engine, (&c,), st)
                &&& result_view(r) == compile_outcome(st)
            },
{
    let mut context = Context::new_file(path);
    context.set_options(options);
    context.compile(engine)
}

/// Compiles the Sass text `content` with the options given.
pub fn compile_string<F: FnOnce(&Context) -> SassStatus>(
    content: &str,
    options: Options,
    engine: F,
) -> (r: Result<String, String>)
    requires
        forall|c: &Context| #[trigger] call_requires(engine, (c,)),
        free_of_nul(options.include_paths.deep_view()),
    ensures
        exists|c: Context, st: SassStatus|
            {
                &&& c.source matches SassSource::Data(d) && d@ == content@
                &&& options_applied(c.options, options)
                &&& call_ensures(engine, (&c,), st)
                &&& result_view(r) == compile_outcome(st)
            },
{
    let mut context = Context::new_data(content);
    context.set_options(options);
    context.compile(engine)
}

} // verus!
