use speedy_transform::web_transform::ast::{Ident, ImportDecl, ImportSpecifier, ModuleExportName};
use speedy_transform::web_transform::scanner::{ExportSpecifier, ModuleDecl, Scanner};

fn ident(s: &str) -> Ident {
    Ident { sym: s.to_string(), ctxt: 0 }
}

#[test]
fn scanner_records_imports() {
    let mut sc = Scanner::new();
    let decl = ModuleDecl::Import(ImportDecl {
        src: "lib".to_string(),
        specifiers: vec![
            ImportSpecifier::Default { local: ident("D") },
            ImportSpecifier::Namespace { local: ident("NS") },
            ImportSpecifier::Named {
                local: ident("x"),
                imported: Some(ModuleExportName::Ident("y".to_string())),
                is_type_only: false,
            },
        ],
        type_only: false,
        origin: None,
    });
    sc.add_import(&decl);
    let d = sc.import(&"D".to_string()).unwrap();
    assert_eq!((d.source.as_str(), d.name.as_str(), d.local_name.as_str()), ("lib", "default", "D"));
    let n = sc.import(&"NS".to_string()).unwrap();
    assert_eq!(n.name, "*");
    let x = sc.import(&"x".to_string()).unwrap();
    assert_eq!((x.name.as_str(), x.local_name.as_str()), ("y", "x"));
    assert!(sc.import(&"y".to_string()).is_none());
}

#[test]
fn scanner_later_import_replaces() {
    let mut sc = Scanner::new();
    let first = ModuleDecl::Import(ImportDecl {
        src: "a".to_string(),
        specifiers: vec![ImportSpecifier::Default { local: ident("v") }],
        type_only: false,
        origin: None,
    });
    let second = ModuleDecl::Import(ImportDecl {
        src: "b".to_string(),
        specifiers: vec![ImportSpecifier::Namespace { local: ident("v") }],
        type_only: false,
        origin: None,
    });
    sc.add_import(&first);
    sc.add_import(&second);
    let v = sc.import(&"v".to_string()).unwrap();
    assert_eq!((v.source.as_str(), v.name.as_str()), ("b", "*"));
    sc.add_import(&ModuleDecl::Other);
    assert!(sc.import(&"v".to_string()).is_some());
}

#[test]
fn scanner_records_namespace_exports() {
    let mut sc = Scanner::new();
    let decl = ModuleDecl::ExportNamed {
        specifiers: vec![ExportSpecifier::Namespace { name: ModuleExportName::Ident("utils".to_string()) }],
    };
    sc.add_export(&decl);
    let e = sc.export(&"utils".to_string()).unwrap();
    assert_eq!(e.identifier.as_deref(), Some("utils"));
    assert_eq!(e.local_name, "asdf");
    assert!(sc.import(&"utils".to_string()).is_none());
}
