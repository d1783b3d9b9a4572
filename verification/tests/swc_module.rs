use speedy_transform::types::{BabelImportConfig, TransformConfig};
use speedy_transform::web_transform::ast::{ImportSpecifier, ModuleExportName, ModuleItem};
use speedy_transform::web_transform::babel_import::{style_configured, transform_style};
use speedy_transform::web_transform::swc_module::{
    items_of, parse_outcome, parse_source, print_module, print_outcome, resolve_scopes,
};
use speedy_transform::web_transform::visit::IdentComponent;

fn config(tsx: Option<bool>) -> TransformConfig {
    TransformConfig {
        remove_use_effect: None,
        react_runtime: None,
        babel_import: None,
        code_type: None,
        remove_call: None,
        tsx,
    }
}

#[test]
fn parsed_imports_are_viewed_with_their_specifiers() {
    let code = "import React, { useState as useS, type Props } from 'react';\n\
                import * as all from \"lib\";\n\
                const x = 1;\n\
                import { \"a-b\" as ab } from 'm';\n";
    let parsed = match parse_source(code, None, &config(None)) {
        Ok(p) => p,
        Err(e) => panic!("parse failed: {}", e),
    };
    let items = items_of(&parsed.module);
    assert_eq!(items.body.len(), 4);
    match &items.body[0] {
        ModuleItem::Import(d) => {
            assert_eq!(d.src, "react");
            assert!(!d.type_only);
            assert_eq!(d.specifiers.len(), 3);
            match &d.specifiers[0] {
                ImportSpecifier::Default { local } => {
                    assert_eq!(local.sym, "React");
                    assert_eq!(local.ctxt, 0);
                }
                _ => panic!("expected a default specifier"),
            }
            match &d.specifiers[1] {
                ImportSpecifier::Named { local, imported: Some(ModuleExportName::Ident(i)), is_type_only } => {
                    assert_eq!(local.sym, "useS");
                    assert_eq!(i, "useState");
                    assert!(!is_type_only);
                }
                _ => panic!("expected a renamed specifier"),
            }
            match &d.specifiers[2] {
                ImportSpecifier::Named { local, imported: None, is_type_only } => {
                    assert_eq!(local.sym, "Props");
                    assert!(*is_type_only);
                }
                _ => panic!("expected a type-only specifier"),
            }
        }
        _ => panic!("expected an import"),
    }
    match &items.body[1] {
        ModuleItem::Import(d) => {
            assert_eq!(d.src, "lib");
            match &d.specifiers[0] {
                ImportSpecifier::Namespace { local } => assert_eq!(local.sym, "all"),
                _ => panic!("expected a namespace specifier"),
            }
        }
        _ => panic!("expected an import"),
    }
    assert!(matches!(items.body[2], ModuleItem::Other(2)));
    match &items.body[3] {
        ModuleItem::Import(d) => match &d.specifiers[0] {
            ImportSpecifier::Named { imported: Some(ModuleExportName::Str(s)), .. } => assert_eq!(s, "a-b"),
            _ => panic!("expected a string export name"),
        },
        _ => panic!("expected an import"),
    }
}

#[test]
fn parse_error_is_reported() {
    let r = parse_source("import { from", None, &config(None));
    match r {
        Err(e) => assert!(!e.is_empty()),
        Ok(_) => panic!("a broken import parsed"),
    }
}

#[test]
fn jsx_parses_unless_tsx_is_off() {
    let code = "const a = <div>hi</div>;";
    assert!(parse_source(code, None, &config(None)).is_ok());
    assert!(parse_source(code, None, &config(Some(true))).is_ok());
    assert!(parse_source(code, None, &config(Some(false))).is_err());
}

#[test]
fn early_errors_come_first() {
    let r = parse_outcome(vec!["a".to_string(), "b".to_string()], Err("c".to_string()));
    match r {
        Err(e) => assert_eq!(e, "ab"),
        Ok(_) => panic!("early errors were ignored"),
    }
    match parse_outcome(vec![], Err("c".to_string())) {
        Err(e) => assert_eq!(e, "c"),
        Ok(_) => panic!("a parse error was ignored"),
    }
}

#[test]
fn printed_module_has_code_and_source_map() {
    let parsed = match parse_source("import { Button } from 'antd';\nButton;\n", Some("a.tsx".to_string()), &config(None)) {
        Ok(p) => p,
        Err(e) => panic!("parse failed: {}", e),
    };
    let out = match print_module(&parsed, None) {
        Ok(o) => o,
        Err(e) => panic!("print failed: {}", e),
    };
    assert!(out.code.starts_with("import { Button } from "), "{}", out.code);
    assert!(out.code.contains("antd"), "{}", out.code);
    assert!(out.code.contains("Button;"), "{}", out.code);
    let map = out.map.expect("a source map");
    assert!(map.contains("\"sources\":[\"a.tsx\"]"), "{}", map);
    assert!(map.contains("\"mappings\""), "{}", map);
}

#[test]
fn print_outcome_carries_the_map() {
    match print_outcome("a;".to_string(), Ok("{}".to_string())) {
        Ok(out) => {
            assert_eq!(out.code, "a;");
            assert_eq!(out.map, Some("{}".to_string()));
        }
        Err(_) => panic!("a written map was lost"),
    }
    match print_outcome("a;".to_string(), Err("bad map".to_string())) {
        Err(e) => assert_eq!(e, "bad map"),
        Ok(_) => panic!("a map error was lost"),
    }
}

#[test]
fn printing_for_each_target_keeps_the_code() {
    let parsed = match parse_source("let s = \"\\u{e9}\";\n", None, &config(None)) {
        Ok(p) => p,
        Err(e) => panic!("parse failed: {}", e),
    };
    for target in [None, Some("ES5"), Some("ES6"), Some("ES2022")] {
        let out = match print_module(&parsed, target.map(|t| t.to_string())) {
            Ok(o) => o,
            Err(e) => panic!("print failed: {}", e),
        };
        assert!(out.code.starts_with("let s = "), "{}", out.code);
        assert!(out.map.is_some());
    }
}

#[test]
fn parsed_imports_carry_their_position() {
    let code = "import data from './a.json' with { type: 'json' };\nimport { A } from 'other';\n";
    let parsed = parse_source(code, None, &config(None)).expect("parses");
    let mut items = items_of(&parsed.module);
    match (&items.body[0], &items.body[1]) {
        (ModuleItem::Import(a), ModuleItem::Import(b)) => {
            assert_eq!(a.origin, Some(0));
            assert_eq!(b.origin, Some(1));
        }
        _ => panic!("expected two imports"),
    }
    let mut cfg = config(None);
    cfg.babel_import = Some(vec![BabelImportConfig {
        from_source: "antd".to_string(),
        replace_css: None,
        replace_js: None,
    }]);
    assert!(style_configured(&cfg));
    transform_style(&mut items, &cfg, &IdentComponent::new(), &vec![]);
    assert_eq!(items.body.len(), 2);
    match (&items.body[0], &items.body[1]) {
        (ModuleItem::Import(a), ModuleItem::Import(b)) => {
            assert_eq!(a.origin, Some(0));
            assert_eq!(a.src, "./a.json");
            assert_eq!(b.origin, Some(1));
        }
        _ => panic!("untouched imports were lost"),
    }
    assert!(!style_configured(&config(None)));
}

#[test]
fn scope_resolution_gives_contexts() {
    let mut parsed = parse_source("import { a } from 'x';\na;\n", None, &config(None)).expect("parses");
    let before = items_of(&parsed.module);
    resolve_scopes(&mut parsed);
    let after = items_of(&parsed.module);
    let local = |m: &speedy_transform::web_transform::ast::ModuleItems| match &m.body[0] {
        ModuleItem::Import(d) => match &d.specifiers[0] {
            ImportSpecifier::Named { local, .. } => (local.sym.clone(), local.ctxt),
            _ => panic!("expected a named specifier"),
        },
        _ => panic!("expected an import"),
    };
    assert_eq!(local(&before), ("a".to_string(), 0));
    let (sym, ctxt) = local(&after);
    assert_eq!(sym, "a");
    assert_ne!(ctxt, 0);
}

#[test]
fn default_file_name_and_same_version_print_alike() {
    let code = "import { B } from 'antd';\nB;\n";
    let a = parse_source(code, None, &config(None)).expect("parses");
    let b = parse_source(code, Some("test.js".to_string()), &config(None)).expect("parses");
    let pa = print_module(&a, None).expect("prints");
    let pb = print_module(&b, Some("ES5".to_string())).expect("prints");
    let pc = print_module(&b, Some(String::new())).expect("prints");
    assert_eq!(pa.code, pb.code);
    assert_eq!(pa.map, pb.map);
    assert_eq!(pb.code, pc.code);
    assert!(pa.map.unwrap().contains("test.js"));
}
