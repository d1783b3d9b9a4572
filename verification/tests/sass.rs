use speedy_transform::sass::bindings::context::{Context, SassSource, SassStatus};
use speedy_transform::sass::bindings::options::{separator_for, SassOptions, SASS_STYLE_COMPRESSED};
use speedy_transform::sass::options::{Options, OutputStyle};
use speedy_transform::sass::{compile_file, compile_string};

fn ok_engine(ctx: &Context) -> SassStatus {
    let text = match &ctx.source {
        SassSource::Data(d) => format!("data:{}", d),
        SassSource::File(f) => format!("file:{}", f),
    };
    SassStatus {
        error_status: 0,
        error_message: None,
        output: Some(format!("{}|{:?}|{:?}", text, ctx.options.output_style, ctx.options.precision)),
    }
}

#[test]
fn compile_string_passes_source_and_options() {
    let mut opts = Options::default();
    opts.output_style = OutputStyle::Compressed;
    opts.precision = 3;
    let out = compile_string("a{b:c}", opts, ok_engine).unwrap();
    assert_eq!(out, format!("data:a{{b:c}}|Some({})|Some(3)", SASS_STYLE_COMPRESSED));
}

#[test]
fn compile_file_passes_path() {
    let out = compile_file("x.scss", Options::default(), ok_engine).unwrap();
    assert_eq!(out, "file:x.scss|Some(0)|Some(5)");
}

#[test]
fn compile_error_with_message() {
    let r = compile_string("a{", Options::default(), |_c: &Context| SassStatus {
        error_status: 1,
        error_message: Some("bad".to_string()),
        output: None,
    });
    assert_eq!(r, Err("bad".to_string()));
}

#[test]
fn compile_error_without_message() {
    let r = compile_string("a{", Options::default(), |_c: &Context| SassStatus {
        error_status: 2,
        error_message: None,
        output: Some("ignored".to_string()),
    });
    assert_eq!(r, Err("An error occurred; no error message available.".to_string()));
}

#[test]
fn compile_without_output() {
    let r = compile_string("", Options::default(), |_c: &Context| SassStatus {
        error_status: 0,
        error_message: None,
        output: None,
    });
    assert_eq!(r, Err("Error reading output string".to_string()));
}

#[test]
fn options_are_applied() {
    let mut ctx = Context::new_data("x");
    let mut opts = Options::default();
    opts.indented_syntax = true;
    opts.include_paths = vec!["a".to_string(), "b".to_string()];
    opts.output_style = OutputStyle::Expanded;
    ctx.set_options(opts);
    assert_eq!(ctx.options.output_style, Some(1));
    assert!(ctx.options.is_indented_syntax_src);
    let sep = separator_for(std::path::MAIN_SEPARATOR);
    assert_eq!(ctx.options.include_path, Some(format!("a{}b", sep)));
}

#[test]
fn precision_wraps_to_i32() {
    let mut o = SassOptions::new();
    o.set_precision(usize::MAX);
    assert_eq!(o.precision, Some(-1));
    o.set_output_style(OutputStyle::Compact);
    assert_eq!(o.output_style, Some(2));
}

#[test]
fn set_options_keeps_earlier_settings() {
    let mut ctx = Context::new_file("f.sass");
    let mut first = Options::default();
    first.indented_syntax = true;
    first.include_paths = vec!["inc".to_string()];
    ctx.set_options(first);
    ctx.set_options(Options::default());
    assert!(ctx.options.is_indented_syntax_src);
    assert_eq!(ctx.options.include_path, Some("inc".to_string()));
    assert_eq!(ctx.options.precision, Some(5));
    assert_eq!(ctx.options.output_style, Some(0));
}

#[test]
fn include_path_separator_follows_the_platform() {
    assert_eq!(separator_for('\\'), ';');
    assert_eq!(separator_for('/'), ':');
    let mut o = SassOptions::new();
    o.set_include_path_for(vec!["a".to_string(), "b".to_string(), "c".to_string()], '\\');
    assert_eq!(o.include_path, Some("a;b;c".to_string()));
    o.set_include_path_for(vec!["a".to_string(), "b".to_string()], '/');
    assert_eq!(o.include_path, Some("a:b".to_string()));
}
