use speedy_transform::types::TransformConfig;
use speedy_transform::web_transform::ast::{
    BlockStmt, Callee, Ident, ImportDecl, ImportSpecifier, ModuleItems, ModuleExportName, ModuleItem, Stmt,
};
use speedy_transform::web_transform::parser::{
    es_target, join_error_messages, parse_version, source_filename, transform_module, tsx_parse,
    EsVersion,
};
use speedy_transform::web_transform::react::transform_perfixreact;
use speedy_transform::web_transform::visit::IdentComponent;
use speedy_transform::web_transform::{remove_call, remove_effect};

fn ident(s: &str, ctxt: u32) -> Ident {
    Ident { sym: s.to_string(), ctxt }
}

fn empty_config() -> TransformConfig {
    TransformConfig {
        remove_use_effect: None,
        react_runtime: None,
        babel_import: None,
        code_type: None,
        remove_call: None,
        tsx: None,
    }
}

fn call_ident(id: usize, name: &str, ctxt: u32) -> Stmt {
    Stmt { id, call: Some(Callee::Ident(ident(name, ctxt))) }
}

fn call_member(id: usize, obj: &str, ctxt: u32, prop: &str) -> Stmt {
    Stmt {
        id,
        call: Some(Callee::Member { obj: Some(ident(obj, ctxt)), prop: Some(prop.to_string()) }),
    }
}

fn ids(b: &BlockStmt) -> Vec<usize> {
    b.stmts.iter().map(|s| s.id).collect()
}

#[test]
fn remove_call_removes_listed_calls() {
    let mut cfg = empty_config();
    cfg.remove_call = Some(vec!["log".to_string(), "debug".to_string()]);
    let v = remove_call::remove_call(&cfg).expect("a remover");
    let mut block = BlockStmt {
        stmts: vec![
            call_ident(0, "log", 1),
            call_member(1, "console", 0, "log"),
            call_member(2, "console", 0, "info"),
            Stmt { id: 3, call: None },
            call_ident(4, "debug", 7),
            Stmt { id: 5, call: Some(Callee::Member { obj: None, prop: None }) },
            Stmt { id: 6, call: Some(Callee::Other) },
        ],
    };
    v.visit_mut_block_stmt(&mut block);
    assert_eq!(ids(&block), vec![2, 3, 5, 6]);
    // a second pass removes nothing more
    v.visit_mut_block_stmt(&mut block);
    assert_eq!(ids(&block), vec![2, 3, 5, 6]);
}

#[test]
fn remove_call_needs_names() {
    let mut cfg = empty_config();
    assert!(remove_call::remove_call(&cfg).is_none());
    cfg.remove_call = Some(vec![]);
    assert!(remove_call::remove_call(&cfg).is_none());
}

fn react_module(specs: Vec<ImportSpecifier>) -> ModuleItems {
    ModuleItems {
        body: vec![
            ModuleItem::Import(ImportDecl { src: "react".to_string(), specifiers: specs, type_only: false, origin: None }),
            ModuleItem::Other(1),
        ],
    }
}

#[test]
fn remove_effect_marks_and_removes() {
    let module = react_module(vec![
        ImportSpecifier::Default { local: ident("R", 2) },
        ImportSpecifier::Named {
            local: ident("effect", 3),
            imported: Some(ModuleExportName::Ident("useEffect".to_string())),
            is_type_only: false,
        },
    ]);
    let mut cfg = empty_config();
    cfg.remove_use_effect = Some(true);
    let v = remove_effect::remove_call(&module, &cfg).expect("a remover");
    assert_eq!(v.react_mark.as_ref().unwrap().sym, "R");
    assert_eq!(v.use_effect_mark.as_ref().unwrap().sym, "effect");
    let mut block = BlockStmt {
        stmts: vec![
            call_ident(0, "effect", 3),
            call_ident(1, "effect", 9),
            call_member(2, "R", 2, "useEffect"),
            call_member(3, "R", 2, "useState"),
            call_member(4, "Other", 2, "useEffect"),
            call_ident(5, "useEffect", 3),
        ],
    };
    v.visit_mut_block_stmt(&mut block);
    assert_eq!(ids(&block), vec![1, 3, 4, 5]);
}

#[test]
fn remove_effect_plain_named_import() {
    let module = react_module(vec![ImportSpecifier::Named {
        local: ident("useEffect", 4),
        imported: None,
        is_type_only: false,
    }]);
    let mut cfg = empty_config();
    cfg.remove_use_effect = Some(true);
    let v = remove_effect::remove_call(&module, &cfg).expect("a remover");
    assert!(v.react_mark.is_none());
    let mut block = BlockStmt { stmts: vec![call_ident(0, "useEffect", 4), call_ident(1, "useEffect", 5)] };
    v.visit_mut_block_stmt(&mut block);
    assert_eq!(ids(&block), vec![1]);
}

#[test]
fn remove_effect_off_unless_true() {
    let module = react_module(vec![]);
    let mut cfg = empty_config();
    assert!(remove_effect::remove_call(&module, &cfg).is_none());
    cfg.remove_use_effect = Some(false);
    assert!(remove_effect::remove_call(&module, &cfg).is_none());
}

#[test]
fn remove_effect_other_source_marks_nothing() {
    let module = ModuleItems {
        body: vec![ModuleItem::Import(ImportDecl {
            src: "preact".to_string(),
            specifiers: vec![ImportSpecifier::Default { local: ident("R", 1) }],
            type_only: false,
            origin: Some(0),
        })],
    };
    let mut cfg = empty_config();
    cfg.remove_use_effect = Some(true);
    let v = remove_effect::remove_call(&module, &cfg).expect("a remover");
    assert!(v.react_mark.is_none() && v.use_effect_mark.is_none());
}

#[test]
fn react_prefix_added() {
    let mut cfg = empty_config();
    cfg.react_runtime = Some(true);
    let mut module = ModuleItems { body: vec![ModuleItem::Other(0)] };
    transform_perfixreact(&mut module, &cfg, "const a = <div/>;");
    assert_eq!(module.body.len(), 2);
    match &module.body[0] {
        ModuleItem::Import(d) => {
            assert_eq!(d.src, "react");
            match &d.specifiers[0] {
                ImportSpecifier::Default { local } => assert_eq!(local.sym, "React"),
                _ => panic!("expected a default import"),
            }
        }
        _ => panic!("expected an import"),
    }
}

#[test]
fn react_prefix_not_added_when_imported() {
    let mut cfg = empty_config();
    cfg.react_runtime = Some(true);
    let mut module = ModuleItems { body: vec![ModuleItem::Other(0)] };
    transform_perfixreact(&mut module, &cfg, "import React from 'react';\nconst a = 1;");
    assert_eq!(module.body.len(), 1);
    transform_perfixreact(&mut module, &cfg, "import React from \"react\";");
    assert_eq!(module.body.len(), 1);
}

#[test]
fn react_prefix_off_by_default() {
    let cfg = empty_config();
    let mut module = ModuleItems { body: vec![] };
    transform_perfixreact(&mut module, &cfg, "");
    assert!(module.body.is_empty());
}

#[test]
fn es_target_mapping() {
    assert_eq!(es_target(None), EsVersion::Es5);
    assert_eq!(es_target(Some("".to_string())), EsVersion::Es5);
    assert_eq!(es_target(Some("ES5".to_string())), EsVersion::Es5);
    assert_eq!(es_target(Some("ES6".to_string())), EsVersion::Es2015);
    assert_eq!(es_target(Some("es6".to_string())), EsVersion::Es2020);
    assert_eq!(parse_version(), EsVersion::Es2016);
}

#[test]
fn parser_defaults() {
    assert_eq!(source_filename(None), "test.js");
    assert_eq!(source_filename(Some("a.tsx".to_string())), "a.tsx");
    let mut cfg = empty_config();
    assert!(tsx_parse(&cfg));
    cfg.tsx = Some(false);
    assert!(!tsx_parse(&cfg));
    assert_eq!(join_error_messages(&vec!["a".to_string(), "b".to_string()]), "ab");
}

#[test]
fn transform_module_runs_all_steps() {
    let mut cfg = empty_config();
    cfg.react_runtime = Some(true);
    cfg.remove_use_effect = Some(true);
    let mut module = ModuleItems { body: vec![ModuleItem::Other(0)] };
    let refs = IdentComponent::new();
    let v = transform_module(&mut module, &cfg, &refs, &vec![], "let x = 1;").expect("a remover");
    assert_eq!(module.body.len(), 2);
    // the React import added by the transform marks `React`
    assert_eq!(v.react_mark.as_ref().unwrap().sym, "React");
    assert_eq!(v.react_mark.as_ref().unwrap().ctxt, 0);
}

#[test]
fn remove_effect_second_pass_removes_nothing_more() {
    let module = react_module(vec![ImportSpecifier::Default { local: ident("React", 0) }]);
    let mut cfg = empty_config();
    cfg.remove_use_effect = Some(true);
    let v = remove_effect::remove_call(&module, &cfg).expect("a remover");
    let mut block = BlockStmt {
        stmts: vec![
            call_member(0, "React", 0, "useEffect"),
            Stmt { id: 1, call: None },
            call_member(2, "React", 0, "useEffect"),
        ],
    };
    v.visit_mut_block_stmt(&mut block);
    assert_eq!(ids(&block), vec![1]);
    v.visit_mut_block_stmt(&mut block);
    assert_eq!(ids(&block), vec![1]);
}
