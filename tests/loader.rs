use deno_ast::MediaType;
use script_host::error::HostError;
use script_host::loader::{classify, ModuleKind, TypescriptModuleLoader};

fn load(specifier: &str, source: &str) -> Result<script_host::loader::ModuleRecord, HostError> {
    TypescriptModuleLoader.load(specifier, source.to_string())
}

#[test]
fn json_loads_as_data_unchanged() {
    let m = load("file:///tmp/a.json", "{\"a\": 1}").unwrap();
    assert_eq!(m.kind, ModuleKind::StructuredData);
    assert!(!m.was_transpiled);
    assert_eq!(m.code, "{\"a\": 1}");
}

#[test]
fn plain_script_passes_through() {
    for spec in ["file:///tmp/a.js", "file:///tmp/a.mjs", "file:///tmp/a.cjs"] {
        let m = load(spec, "const a = 1;").unwrap();
        assert_eq!(m.kind, ModuleKind::Script);
        assert!(!m.was_transpiled);
        assert_eq!(m.code, "const a = 1;");
    }
}

#[test]
fn typescript_kinds_are_transpiled() {
    for spec in [
        "file:///tmp/a.ts",
        "file:///tmp/a.mts",
        "file:///tmp/a.cts",
        "file:///tmp/a.tsx",
    ] {
        let m = load(spec, "const x: number = 1;\n").unwrap();
        assert_eq!(m.kind, ModuleKind::Script);
        assert!(m.was_transpiled);
        assert!(m.code.contains("const x = 1;"), "{}", m.code);
        assert!(!m.code.contains(": number"), "{}", m.code);
    }
}

#[test]
fn typed_constant_loses_only_its_annotation() {
    let m = load("file:///tmp/typed.ts", "const greeting: string = \"hi\";\n").unwrap();
    assert!(m.was_transpiled);
    assert!(m.code.starts_with("const greeting = \"hi\";"), "{}", m.code);
}

#[test]
fn declaration_files_are_transpiled_scripts() {
    for spec in ["file:///tmp/a.d.ts", "file:///tmp/a.d.mts", "file:///tmp/a.d.cts"] {
        let m = load(spec, "declare const x: number;\n").unwrap();
        assert_eq!(m.kind, ModuleKind::Script);
        assert!(m.was_transpiled);
        assert!(!m.code.contains("declare"), "{}", m.code);
    }
}

#[test]
fn jsx_is_lowered_to_calls() {
    let m = load("file:///tmp/a.jsx", "const e = <div />;\n").unwrap();
    assert_eq!(m.kind, ModuleKind::Script);
    assert!(m.was_transpiled);
    assert!(m.code.contains("React.createElement(\"div\""), "{}", m.code);
    assert!(!m.code.contains("<div"), "{}", m.code);
}

#[test]
fn extensionless_module_is_attempted_as_script() {
    let m = load("file:///tmp/module", "export const a = 1;\n").unwrap();
    assert_eq!(m.kind, ModuleKind::Script);
    assert!(m.was_transpiled);
    assert!(m.code.contains("export const a = 1;"), "{}", m.code);
}

#[test]
fn extensionless_module_that_does_not_parse_is_a_load_error() {
    let r = load("file:///tmp/module", "export const = ;\n");
    assert!(matches!(r, Err(HostError::Load(_))));
}

#[test]
fn parse_failure_is_a_load_error_with_the_diagnostic() {
    match load("file:///tmp/bad.ts", "const = ;\n") {
        Err(HostError::Load(msg)) => assert!(!msg.is_empty()),
        Ok(m) => panic!("loaded: {}", m.code),
        Err(e) => panic!("wrong error: {:?}", e),
    }
}

#[test]
fn classification_follows_the_table() {
    assert_eq!(classify(MediaType::JavaScript), (ModuleKind::Script, false));
    assert_eq!(classify(MediaType::Mjs), (ModuleKind::Script, false));
    assert_eq!(classify(MediaType::Cjs), (ModuleKind::Script, false));
    assert_eq!(classify(MediaType::Jsx), (ModuleKind::Script, true));
    assert_eq!(classify(MediaType::TypeScript), (ModuleKind::Script, true));
    assert_eq!(classify(MediaType::Mts), (ModuleKind::Script, true));
    assert_eq!(classify(MediaType::Cts), (ModuleKind::Script, true));
    assert_eq!(classify(MediaType::Dts), (ModuleKind::Script, true));
    assert_eq!(classify(MediaType::Dmts), (ModuleKind::Script, true));
    assert_eq!(classify(MediaType::Dcts), (ModuleKind::Script, true));
    assert_eq!(classify(MediaType::Tsx), (ModuleKind::Script, true));
    assert_eq!(classify(MediaType::Json), (ModuleKind::StructuredData, false));
    assert_eq!(classify(MediaType::Unknown), (ModuleKind::Script, true));
    assert_eq!(classify(MediaType::Wasm), (ModuleKind::Script, true));
}
