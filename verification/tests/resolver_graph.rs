use aleo_tx::ident::ProgramId;
use aleo_tx::resolver::{resolve, Context, ImportError, ImportMap, ProgramMeta};

fn pid(s: &str) -> ProgramId {
    ProgramId::parse(s).expect("valid program id")
}

fn meta(id: &str, imports: &[&str]) -> ProgramMeta {
    ProgramMeta {
        id: pid(id),
        imports: imports.iter().map(|s| pid(s)).collect(),
    }
}

fn leaf_program(name: &str) -> String {
    format!(
        "program {name}.aleo;\n\nfunction main:\n    add 1u8 1u8 into r0;\n    output r0 as u8.private;\n"
    )
}

fn importing_program(name: &str, import: &str) -> String {
    format!(
        "import {import}.aleo;\n\nprogram {name}.aleo;\n\nfunction main:\n    add 1u8 1u8 into r0;\n    output r0 as u8.private;\n"
    )
}

#[test]
fn resolving_with_all_imports_present_succeeds() {
    let mut map = ImportMap::new();
    assert!(map.insert(pid("b.aleo"), leaf_program("b")));
    let mut ctx = Context::new();
    let program = meta("a.aleo", &["b.aleo"]);
    let plan = resolve(&mut ctx, &program, &map).expect("resolution succeeds");
    assert_eq!(plan.len(), 1);
    assert_eq!(plan[0].id.as_str(), "b.aleo");
    assert!(ctx.contains_id(&pid("b.aleo")));
    assert!(ctx.contains_id(&pid("a.aleo")));
}

#[test]
fn transitive_imports_are_registered_dependency_first() {
    let mut map = ImportMap::new();
    assert!(map.insert(pid("b.aleo"), importing_program("b", "c")));
    assert!(map.insert(pid("c.aleo"), leaf_program("c")));
    let mut ctx = Context::new();
    let program = meta("a.aleo", &["b.aleo"]);
    let plan = resolve(&mut ctx, &program, &map).expect("resolution succeeds");
    let order: Vec<&str> = plan.iter().map(|s| s.id.as_str()).collect();
    assert_eq!(order, vec!["c.aleo", "b.aleo"]);
    assert!(ctx.contains_id(&pid("c.aleo")));
    assert!(ctx.contains_id(&pid("b.aleo")));
    assert!(ctx.contains_id(&pid("a.aleo")));
}

#[test]
fn an_already_registered_import_needs_no_map_entry() {
    let map = ImportMap::new();
    let mut ctx = Context::new();
    let helper = meta("b.aleo", &[]);
    resolve(&mut ctx, &helper, &map).expect("registering the helper succeeds");
    let program = meta("a.aleo", &["b.aleo"]);
    let plan = resolve(&mut ctx, &program, &map).expect("resolution succeeds");
    assert_eq!(plan.len(), 0);
    assert!(ctx.contains_id(&pid("a.aleo")));
}

#[test]
fn a_missing_import_is_reported_as_missing() {
    let map = ImportMap::new();
    let mut ctx = Context::new();
    let program = meta("a.aleo", &["nowhere.aleo"]);
    match resolve(&mut ctx, &program, &map) {
        Err(ImportError::MissingImport(id)) => assert_eq!(id.as_str(), "nowhere.aleo"),
        _ => panic!("expected MissingImport"),
    }
}

#[test]
fn a_malformed_import_source_is_reported_as_parse_failure() {
    let mut map = ImportMap::new();
    assert!(map.insert(pid("b.aleo"), "this is not a program".to_string()));
    let mut ctx = Context::new();
    let program = meta("a.aleo", &["b.aleo"]);
    match resolve(&mut ctx, &program, &map) {
        Err(ImportError::ParseFailure(id)) => assert_eq!(id.as_str(), "b.aleo"),
        _ => panic!("expected ParseFailure"),
    }
}

#[test]
fn a_source_stored_under_the_wrong_name_is_a_parse_failure() {
    let mut map = ImportMap::new();
    assert!(map.insert(pid("b.aleo"), leaf_program("other")));
    let mut ctx = Context::new();
    let program = meta("a.aleo", &["b.aleo"]);
    assert!(matches!(
        resolve(&mut ctx, &program, &map),
        Err(ImportError::ParseFailure(_))
    ));
}

#[test]
fn a_cyclic_import_graph_is_reported_not_looped_on() {
    let mut map = ImportMap::new();
    assert!(map.insert(pid("a.aleo"), importing_program("a", "b")));
    assert!(map.insert(pid("b.aleo"), importing_program("b", "a")));
    let mut ctx = Context::new();
    let program = meta("top.aleo", &["a.aleo"]);
    assert!(matches!(
        resolve(&mut ctx, &program, &map),
        Err(ImportError::CyclicImport(_))
    ));
}

#[test]
fn a_self_import_is_a_cycle() {
    let mut map = ImportMap::new();
    assert!(map.insert(pid("a.aleo"), importing_program("a", "a")));
    let mut ctx = Context::new();
    let program = meta("top.aleo", &["a.aleo"]);
    assert!(matches!(
        resolve(&mut ctx, &program, &map),
        Err(ImportError::CyclicImport(_))
    ));
}

#[test]
fn duplicate_map_keys_are_refused() {
    let mut map = ImportMap::new();
    assert!(map.insert(pid("b.aleo"), leaf_program("b")));
    assert!(!map.insert(pid("b.aleo"), leaf_program("b")));
}
