use speedy_transform::types::{BabelImportConfig, ReplaceCssConfig, ReplaceJsConfig, TransformConfig};
use speedy_transform::web_transform::ast::{
    Ident, ImportDecl, ImportSpecifier, ModuleItems, ModuleExportName, ModuleItem,
};
use speedy_transform::web_transform::babel_import::{
    babel_import_requests, transform_style, ReplaceKind,
};
use speedy_transform::web_transform::visit::{IdentComponent, JSXElementName};

fn ident(s: &str, ctxt: u32) -> Ident {
    Ident { sym: s.to_string(), ctxt }
}

fn named(local: &str, imported: Option<&str>) -> ImportSpecifier {
    ImportSpecifier::Named {
        local: ident(local, 1),
        imported: imported.map(|s| ModuleExportName::Ident(s.to_string())),
        is_type_only: false,
    }
}

fn import(src: &str, specifiers: Vec<ImportSpecifier>) -> ModuleItem {
    ModuleItem::Import(ImportDecl { src: src.to_string(), specifiers, type_only: false, origin: None })
}

fn config(lib: Vec<BabelImportConfig>) -> TransformConfig {
    TransformConfig {
        remove_use_effect: None,
        react_runtime: None,
        babel_import: Some(lib),
        code_type: None,
        remove_call: None,
        tsx: None,
    }
}

fn antd(camel2dash: bool, lower: bool, default_import: Option<bool>) -> BabelImportConfig {
    BabelImportConfig {
        from_source: "antd".to_string(),
        replace_css: Some(ReplaceCssConfig {
            ignore_style_component: None,
            lower: Some(lower),
            camel2_dash_component_name: Some(camel2dash),
        }),
        replace_js: Some(ReplaceJsConfig {
            ignore_es_component: None,
            lower: Some(lower),
            camel2_dash_component_name: Some(camel2dash),
            transform_to_default_import: default_import,
        }),
    }
}

fn refs_of(value: &[&str], jsx: &[&str], types: &[&str]) -> IdentComponent {
    let mut r = IdentComponent::new();
    for v in value {
        r.visit_ident(&ident(v, 1));
    }
    for j in jsx {
        r.visit_jsx_element(&JSXElementName::Ident(ident(j, 1)));
    }
    for t in types {
        r.visit_ts_type_ref(&speedy_transform::web_transform::visit::TsEntityName::Ident(ident(t, 1)));
    }
    r
}

fn sources(m: &ModuleItems) -> Vec<String> {
    m.body
        .iter()
        .map(|it| match it {
            ModuleItem::Import(d) => d.src.clone(),
            ModuleItem::Other(k) => format!("#{}", k),
        })
        .collect()
}

#[test]
fn requests_follow_specifier_order() {
    let module = ModuleItems {
        body: vec![
            import("antd", vec![named("Button", None), named("DP", Some("DatePicker")), named("Unused", None)]),
            ModuleItem::Other(1),
        ],
    };
    let cfg = config(vec![antd(true, false, None)]);
    let refs = refs_of(&["Button"], &["DP"], &[]);
    let reqs = babel_import_requests(&module, &cfg, &refs);
    let got: Vec<(ReplaceKind, String)> = reqs.iter().map(|r| (r.kind, r.arg.clone())).collect();
    assert_eq!(
        got,
        vec![
            (ReplaceKind::Css, "button".to_string()),
            (ReplaceKind::Js, "button".to_string()),
            (ReplaceKind::Css, "date-picker".to_string()),
            (ReplaceKind::Js, "date-picker".to_string()),
        ]
    );
    assert_eq!(reqs[2].default_spec, "DatePicker");
    assert_eq!(reqs[2].as_name, Some("DP".to_string()));
    assert!(reqs[1].use_default_import);
}

#[test]
fn transform_style_rewrites_imports() {
    let mut module = ModuleItems {
        body: vec![
            import("antd", vec![named("Button", None), named("DP", Some("DatePicker")), named("Unused", None)]),
            ModuleItem::Other(1),
        ],
    };
    let cfg = config(vec![antd(true, false, None)]);
    let refs = refs_of(&["Button"], &["DP"], &[]);
    let replies = vec![
        "antd/es/button/style".to_string(),
        "antd/es/button".to_string(),
        "antd/es/date-picker/style".to_string(),
        "antd/es/date-picker".to_string(),
    ];
    transform_style(&mut module, &cfg, &refs, &replies);
    assert_eq!(
        sources(&module),
        vec![
            "antd/es/date-picker/style",
            "antd/es/button/style",
            "antd/es/date-picker",
            "antd/es/button",
            "#1",
        ]
    );
    match &module.body[2] {
        ModuleItem::Import(d) => {
            assert_eq!(d.specifiers.len(), 1);
            match &d.specifiers[0] {
                ImportSpecifier::Default { local } => {
                    assert_eq!(local.sym, "DP");
                    assert_eq!(local.ctxt, 0);
                }
                _ => panic!("expected a default import"),
            }
        }
        _ => panic!("expected an import"),
    }
    match &module.body[0] {
        ModuleItem::Import(d) => assert!(d.specifiers.is_empty()),
        _ => panic!("expected an import"),
    }
}

#[test]
fn transform_style_named_import_when_not_default() {
    let mut module = ModuleItems {
        body: vec![import("antd", vec![named("DP", Some("DatePicker"))])],
    };
    let cfg = config(vec![antd(false, true, Some(false))]);
    let refs = refs_of(&["DP"], &[], &[]);
    let reqs = babel_import_requests(&module, &cfg, &refs);
    // lower case without kebab case
    assert_eq!(reqs[0].arg, "datepicker");
    let replies = vec!["css/datepicker".to_string(), "js/datepicker".to_string()];
    transform_style(&mut module, &cfg, &refs, &replies);
    assert_eq!(sources(&module), vec!["css/datepicker", "js/datepicker"]);
    match &module.body[1] {
        ModuleItem::Import(d) => match &d.specifiers[0] {
            ImportSpecifier::Named { local, imported, .. } => {
                assert_eq!(local.sym, "DP");
                match imported {
                    Some(ModuleExportName::Ident(s)) => assert_eq!(s, "DatePicker"),
                    _ => panic!("expected the imported name"),
                }
            }
            _ => panic!("expected a named import"),
        },
        _ => panic!("expected an import"),
    }
}

#[test]
fn type_only_use_keeps_import() {
    let mut module = ModuleItems {
        body: vec![import("antd", vec![named("Props", None), named("Gone", None)])],
    };
    let cfg = config(vec![antd(true, false, None)]);
    let refs = refs_of(&[], &[], &["Props"]);
    let reqs = babel_import_requests(&module, &cfg, &refs);
    assert!(reqs.is_empty());
    transform_style(&mut module, &cfg, &refs, &vec![]);
    match &module.body[0] {
        ModuleItem::Import(d) => {
            assert_eq!(d.specifiers.len(), 1);
            match &d.specifiers[0] {
                ImportSpecifier::Named { local, .. } => {
                    assert_eq!(local.sym, "Props");
                    assert_eq!(local.ctxt, 0);
                }
                _ => panic!("expected a named import"),
            }
        }
        _ => panic!("expected an import"),
    }
}

#[test]
fn ignored_component_keeps_its_import() {
    let mut cfgs = antd(true, false, None);
    cfgs.replace_js.as_mut().unwrap().ignore_es_component = Some(vec!["Button".to_string()]);
    cfgs.replace_css.as_mut().unwrap().ignore_style_component = Some(vec!["Button".to_string()]);
    let cfg = config(vec![cfgs]);
    let mut module = ModuleItems { body: vec![import("antd", vec![named("Button", None)])] };
    let refs = refs_of(&["Button"], &[], &[]);
    assert!(babel_import_requests(&module, &cfg, &refs).is_empty());
    transform_style(&mut module, &cfg, &refs, &vec![]);
    assert_eq!(sources(&module), vec!["antd"]);
}

#[test]
fn unconfigured_module_is_unchanged() {
    let mut module = ModuleItems {
        body: vec![import("lodash", vec![named("map", None)]), ModuleItem::Other(3)],
    };
    let cfg = config(vec![]);
    let refs = refs_of(&[], &[], &[]);
    assert!(babel_import_requests(&module, &cfg, &refs).is_empty());
    transform_style(&mut module, &cfg, &refs, &vec![]);
    assert_eq!(sources(&module), vec!["lodash", "#3"]);
    match &module.body[0] {
        ModuleItem::Import(d) => match &d.specifiers[0] {
            ImportSpecifier::Named { local, .. } => assert_eq!(local.ctxt, 1),
            _ => panic!("expected a named import"),
        },
        _ => panic!("expected an import"),
    }
}

#[test]
fn side_effect_import_of_configured_library_is_removed() {
    let mut module = ModuleItems { body: vec![import("antd", vec![]), ModuleItem::Other(0)] };
    let cfg = config(vec![antd(true, false, None)]);
    let refs = refs_of(&[], &[], &[]);
    transform_style(&mut module, &cfg, &refs, &vec![]);
    assert_eq!(sources(&module), vec!["#0"]);
}

#[test]
fn jsx_name_hash_zero_is_removed() {
    let mut r = IdentComponent::new();
    r.visit_jsx_element(&JSXElementName::Ident(ident("Button#0", 2)));
    assert_eq!(r.component_name_jsx_ident[0].sym, "Button");
    assert!(r.is_referenced(&ident("Button", 2)));
    assert!(!r.is_referenced(&ident("Button", 3)));
}
