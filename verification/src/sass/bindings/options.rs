//! The option state of a libsass context.
use vstd::prelude::*;

use crate::sass::options::OutputStyle;
use crate::text::{join, join_strings, string_of};

verus! {

/// libsass's `SASS_STYLE_NESTED`.
pub const SASS_STYLE_NESTED: i32 = 0;

/// libsass's `SASS_STYLE_EXPANDED`.
pub const SASS_STYLE_EXPANDED: i32 = 1;

/// libsass's `SASS_STYLE_COMPACT`.
pub const SASS_STYLE_COMPACT: i32 = 2;

/// libsass's `SASS_STYLE_COMPRESSED`.
pub const SASS_STYLE_COMPRESSED: i32 = 3;

/// The libsass value of an output style.
pub open spec fn style_code(style: OutputStyle) -> i32 {
    match style {
        OutputStyle::Nested => SASS_STYLE_NESTED,
        OutputStyle::Expanded => SASS_STYLE_EXPANDED,
        OutputStyle::Compact => SASS_STYLE_COMPACT,
        OutputStyle::Compressed => SASS_STYLE_COMPRESSED,
    }
}

/// The options to set on a libsass context; `None` leaves libsass's default.
pub struct SassOptions {
    pub output_style: Option<i32>,
    pub precision: Option<i32>,
    pub is_indented_syntax_src: bool,
    pub include_path: Option<String>,
}

/// Calls std's `std::path::MAIN_SEPARATOR`, the separator of path components
/// of the platform the code runs on; nothing is stated of it.
#[verifier::external_body]
fn main_separator() -> (r: char) {
    std::path::MAIN_SEPARATOR
}

/// The separator of the entries of an include path on a platform whose path
/// components are separated by `main_sep`: `;` where that is a backslash
/// (Windows), `:` elsewhere.
pub open spec fn separator_for_spec(main_sep: char) -> char {
    if main_sep == '\\' {
        ';'
    } else {
        ':'
    }
}

/// The separator of include path entries for `main_sep` (see `separator_for_spec`).
pub fn separator_for(main_sep: char) -> (r: char)
    ensures
        r == separator_for_spec(main_sep),
{
    if main_sep == '\\' {
        ';'
    } else {
        ':'
    }
}

/// Whether `p` is `paths` joined by the include path separator of some
/// platform: the platform the code runs on is not known to the proofs.
pub open spec fn joined_for_some_platform(p: Seq<char>, paths: Seq<Seq<char>>) -> bool {
    exists|m: char| p == join(paths, seq![#[trigger] separator_for_spec(m)])
}

/// Whether none of `paths` holds a NUL character, which a C string cannot carry.
pub open spec fn free_of_nul(paths: Seq<Seq<char>>) -> bool {
    forall|i: int| 0 <= i < paths.len() ==> !(#[trigger] paths[i]).contains('\0')
}

impl SassOptions {
    /// Options that leave every libsass default.
    pub fn new() -> (r: SassOptions)
        ensures
            r.output_style is None,
            r.precision is None,
            !r.is_indented_syntax_src,
            r.include_path is None,
    {
        SassOptions {
            output_style: None,
            precision: None,
            is_indented_syntax_src: false,
            include_path: None,
        }
    }

    pub fn set_output_style(&mut self, style: OutputStyle)
        ensures
            final(self).output_style == Some(style_code(style)),
            final(self).precision == old(self).precision,
            final(self).is_indented_syntax_src == old(self).is_indented_syntax_src,
            final(self).include_path == old(self).include_path,
    {
        let style = match style {
            OutputStyle::Nested => SASS_STYLE_NESTED,
            OutputStyle::Expanded => SASS_STYLE_EXPANDED,
            OutputStyle::Compact => SASS_STYLE_COMPACT,
            OutputStyle::Compressed => SASS_STYLE_COMPRESSED,
        };
        self.output_style = Some(style);
    }

    /// Sets the precision; libsass takes it as an `i32`, so larger values wrap.
    pub fn set_precision(&mut self, precision: usize)
        ensures
            final(self).precision == Some(precision as i32),
            final(self).output_style == old(self).output_style,
            final(self).is_indented_syntax_src == old(self).is_indented_syntax_src,
            final(self).include_path == old(self).include_path,
    {
        self.precision = Some(precision as i32);
    }

    pub fn set_is_indented_syntax(&mut self)
        ensures
            final(self).is_indented_syntax_src,
            final(self).output_style == old(self).output_style,
            final(self).precision == old(self).precision,
            final(self).include_path == old(self).include_path,
    {
        self.is_indented_syntax_src = true;
    }

    /// Sets the include path: the paths joined by the include path separator of
    /// a platform whose path components are separated by `main_sep`.
    pub fn set_include_path_for(&mut self, paths: Vec<String>, main_sep: char)
        requires
            free_of_nul(paths.deep_view()),
        ensures
            final(self).include_path matches Some(p) && p@ == join(
                paths.deep_view(),
                seq![separator_for_spec(main_sep)],
            ),
            final(self).output_style == old(self).output_style,
            final(self).precision == old(self).precision,
            final(self).is_indented_syntax_src == old(self).is_indented_syntax_src,
    {
        let sep = separator_for(main_sep);
        let mut sep_chars: Vec<char> = Vec::new();
        sep_chars.push(sep);
        let sep_str = string_of(sep_chars.as_slice());
        assert(sep_str@ == seq![sep]) by {
            assert(sep_chars@ =~= seq![sep]);
        }
        self.include_path = Some(join_strings(paths.as_slice(), sep_str.as_str()));
    }

    /// Sets the include path: the paths joined by the separator of the platform
    /// the code runs on (see `set_include_path_for`, which it calls with
    /// `std::path::MAIN_SEPARATOR`).
    pub fn set_include_path(&mut self, paths: Vec<String>)
        requires
            free_of_nul(paths.deep_view()),
        ensures
            final(self).include_path matches Some(p) && joined_for_some_platform(
                p@,
                paths.deep_view(),
            ),
            final(self).output_style == old(self).output_style,
            final(self).precision == old(self).precision,
            final(self).is_indented_syntax_src == old(self).is_indented_syntax_src,
    {
        let main_sep = main_separator();
        self.set_include_path_for(paths, main_sep);
    }
}

} // verus!
