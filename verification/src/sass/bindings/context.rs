//! A compilation job for libsass and the reading of its outcome.
use vstd::prelude::*;

use crate::sass::bindings::options::{free_of_nul, joined_for_some_platform, SassOptions};
use crate::sass::options::Options;

verus! {

/// What is compiled: a file, by its path, or a string of Sass.
pub enum SassSource {
    File(String),
    Data(String),
}

/// A compilation: its input and the options to set on libsass.
pub struct Context {
    pub source: SassSource,
    pub options: SassOptions,
}

/// What libsass reports after compiling: its error status, its error message
/// and its output, each when there is one.
pub struct SassStatus {
    pub error_status: i32,
    pub error_message: Option<String>,
    pub output: Option<String>,
}

/// The result a compilation gives for what libsass reported: the output when
/// the status is 0 and there is an output; the error message (or a fixed one
/// when there is none) when the status is not 0.
pub open spec fn compile_outcome(st: SassStatus) -> Result<Seq<char>, Seq<char>> {
    if st.error_status != 0 {
        match st.error_message {
            Some(m) => Err(m@),
            None => Err("An error occurred; no error message available."@),
        }
    } else {
        match st.output {
            Some(o) => Ok(o@),
            None => Err("Error reading output string"@),
        }
    }
}

pub open spec fn result_view(r: Result<String, String>) -> Result<Seq<char>, Seq<char>> {
    match r {
        Ok(s) => Ok(s@),
        Err(e) => Err(e@),
    }
}

/// The options a context gets from `Options`: style and precision always,
/// the indented syntax when asked for, the include path when there are paths.
pub open spec fn options_applied(o: SassOptions, options: Options) -> bool {
    &&& o.output_style == Some(crate::sass::bindings::options::style_code(options.output_style))
    &&& o.precision == Some(options.precision as i32)
    &&& o.is_indented_syntax_src == options.indented_syntax
    &&& if options.include_paths@.len() > 0 {
        o.include_path matches Some(p) && joined_for_some_platform(
            p@,
            options.include_paths.deep_view(),
        )
    } else {
        o.include_path is None
    }
}

/// How `set_options` changes the options of a context: style and precision are
/// set, the indented syntax is switched on when asked for, the include path is
/// set when there are paths; the rest stays as it was.
pub open spec fn options_set(before: SassOptions, after: SassOptions, options: Options) -> bool {
    &&& after.output_style == Some(crate::sass::bindings::options::style_code(options.output_style))
    &&& after.precision == Some(options.precision as i32)
    &&& after.is_indented_syntax_src == (before.is_indented_syntax_src || options.indented_syntax)
    &&& if options.include_paths@.len() > 0 {
        after.include_path matches Some(p) && joined_for_some_platform(
            p@,
            options.include_paths.deep_view(),
        )
    } else {
        after.include_path == before.include_path
    }
}

impl Context {
    /// A compilation of the file at `path`, with libsass's default options.
    pub fn new_file(path: &str) -> (r: Context)
        ensures
            r.source matches SassSource::File(p) && p@ == path@,
            r.options.output_style is None && r.options.precision is None
                && !r.options.is_indented_syntax_src && r.options.include_path is None,
    {
        Context { source: SassSource::File(String::from_str(path)), options: SassOptions::new() }
    }

    /// A compilation of the Sass text `content`, with libsass's default options.
    pub fn new_data(content: &str) -> (r: Context)
        ensures
            r.source matches SassSource::Data(c) && c@ == content@,
            r.options.output_style is None && r.options.precision is None
                && !r.options.is_indented_syntax_src && r.options.include_path is None,
    {
        Context { source: SassSource::Data(String::from_str(content)), options: SassOptions::new() }
    }

    /// Sets the options of the compilation.
    pub fn set_options(&mut self, options: Options)
        requires
            free_of_nul(options.include_paths.deep_view()),
        ensures
            options_set(old(self).options, final(self).options, options),
            final(self).source == old(self).source,
    {
        self.options.set_output_style(options.output_style);
        self.options.set_precision(options.precision);
        if options.indented_syntax {
            self.options.set_is_indented_syntax();
        }
        if options.include_paths.len() > 0 {
            self.options.set_include_path(options.include_paths);
        }
    }

    /// Runs the compilation with `engine`, which hands the context to libsass
    /// and reports what libsass did, and reads the outcome.
    pub fn compile<F: FnOnce(&Context) -> SassStatus>(&self, engine: F) -> (r: Result<String, String>)
        requires
            call_requires(engine, (self,)),
        ensures
            exists|st: SassStatus|
                call_ensures(engine, (self,), st) && result_view(r) == compile_outcome(st),
    {
        let st = engine(self);
        let ghost g = st;
        let r = if st.error_status != 0 {
            match st.error_message {
                Some(m) => Err(m),
                None => Err(String::from_str("An error occurred; no error message available.")),
            }
        } else {
            match st.output {
                Some(o) => Ok(o),
                None => Err(String::from_str("Error reading output string")),
            }
        };
        assert(call_ensures(engine, (self,), g) && result_view(r) == compile_outcome(g));
        r
    }
}

} // verus!
