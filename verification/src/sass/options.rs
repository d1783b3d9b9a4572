//! The options of a Sass compilation.
use vstd::prelude::*;

verus! {

/// How the compiled CSS is laid out.
#[derive(PartialEq, Eq, Structural, Clone, Copy, Debug)]
pub enum OutputStyle {
    Nested,
    Expanded,
    Compact,
    Compressed,
}

/// The options of a compilation.
pub struct Options {
    pub output_style: OutputStyle,
    /// The number of digits after the decimal point of numbers.
    pub precision: usize,
    /// The input uses the indented (`.sass`) syntax.
    pub indented_syntax: bool,
    /// Where imported files are looked for.
    pub include_paths: Vec<String>,
}

impl Default for Options {
    /// Nested output, five digits of precision, SCSS syntax, no include path.
    fn default() -> (r: Options)
        ensures
            r.output_style == OutputStyle::Nested,
            r.precision == 5,
            !r.indented_syntax,
            r.include_paths@.len() == 0,
    {
        Options {
            output_style: OutputStyle::Nested,
            precision: 5,
            indented_syntax: false,
            include_paths: Vec::new(),
        }
    }
}

} // verus!
