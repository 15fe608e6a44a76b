use deno_ast::MediaType;
use crate::error::HostError;
use vstd::prelude::*;

verus! {

/// Makes deno_ast's media type, a plain enum without fields, known to the
/// verifier, so that the loader can match on its variants.
#[verifier::external_type_specification]
pub struct ExMediaType(MediaType);

/// How the engine treats a loaded module.
#[derive(Debug, Clone, Copy, PartialEq, Eq)]
pub enum ModuleKind {
    /// Executable script text.
    Script,
    /// Data, loaded and never executed.
    StructuredData,
}

/// Turns module source into the text the engine runs.
pub struct TypescriptModuleLoader;

/// The kind a media type loads as.
pub open spec fn kind_of(m: MediaType) -> ModuleKind {
    match m {
        MediaType::Json => ModuleKind::StructuredData,
        _ => ModuleKind::Script,
    }
}

/// Whether a media type is lowered to plain script before it runs. Plain
/// script and data pass through; everything else, unknown kinds included,
/// is transpiled on a best-effort basis.
pub open spec fn needs_transpile(m: MediaType) -> bool {
    match m {
        MediaType::JavaScript | MediaType::Mjs | MediaType::Cjs | MediaType::Json => false,
        _ => true,
    }
}

/// Classifies a media type into the kind it loads as and whether it must be
/// transpiled first.
pub fn classify(media: MediaType) -> (r: (ModuleKind, bool))
    ensures
        r.0 == kind_of(media),
        r.1 == needs_transpile(media),
{
    match media {
        MediaType::JavaScript | MediaType::Mjs | MediaType::Cjs => (ModuleKind::Script, false),
        MediaType::Jsx => (ModuleKind::Script, true),
        MediaType::TypeScript
        | MediaType::Mts
        | MediaType::Cts
        | MediaType::Dts
        | MediaType::Dmts
        | MediaType::Dcts
        | MediaType::Tsx => (ModuleKind::Script, true),
        MediaType::Json => (ModuleKind::StructuredData, false),
        _ => (ModuleKind::Script, true),
    }
}


/// Whether `path` ends with a dot followed by `ext`.
pub open spec fn has_extension(path: Seq<char>, ext: Seq<char>) -> bool {
    &&& path.len() > ext.len()
    &&& path[path.len() - ext.len() - 1] == '.'
    &&& path.subrange(path.len() - ext.len(), path.len() as int) == ext
}

/// What the extension table promises for a path: its module kind and whether
/// it is transpiled, or nothing for an extension outside the table.
pub open spec fn table_class(path: Seq<char>) -> Option<(ModuleKind, bool)> {
    if has_extension(path, seq!['j', 's', 'o', 'n']) {
        Some((ModuleKind::StructuredData, false))
    } else if has_extension(path, seq!['j', 's']) || has_extension(path, seq!['m', 'j', 's'])
        || has_extension(path, seq!['c', 'j', 's']) {
        Some((ModuleKind::Script, false))
    } else if has_extension(path, seq!['j', 's', 'x']) || has_extension(path, seq!['t', 's', 'x'])
        || has_extension(path, seq!['t', 's']) || has_extension(path, seq!['m', 't', 's'])
        || has_extension(path, seq!['c', 't', 's']) {
        Some((ModuleKind::Script, true))
    } else {
        None
    }
}

/// The media type that deno_ast reads from a path.
pub uninterp spec fn media_type_of(path: Seq<char>) -> MediaType;

/// Relies on deno_ast's `MediaType::from_path`: it takes the path's last
/// component, reads the text after its last dot, and maps the lower-cased
/// extension to a media type; a `.ts`, `.mts` or `.cts` name is a declaration
/// file when its stem contains `.d.`.
#[verifier::external_body]
fn media_type_for(path: &str) -> (r: MediaType)
    ensures
        r == media_type_of(path@),
        has_extension(path@, seq!['j', 's']) ==> r == MediaType::JavaScript,
        has_extension(path@, seq!['m', 'j', 's']) ==> r == MediaType::Mjs,
        has_extension(path@, seq!['c', 'j', 's']) ==> r == MediaType::Cjs,
        has_extension(path@, seq!['j', 's', 'x']) ==> r == MediaType::Jsx,
        has_extension(path@, seq!['t', 's', 'x']) ==> r == MediaType::Tsx,
        has_extension(path@, seq!['j', 's', 'o', 'n']) ==> r == MediaType::Json,
        has_extension(path@, seq!['t', 's']) ==> (r == MediaType::TypeScript || r == MediaType::Dts),
        has_extension(path@, seq!['m', 't', 's']) ==> (r == MediaType::Mts || r == MediaType::Dmts),
        has_extension(path@, seq!['c', 't', 's']) ==> (r == MediaType::Cts || r == MediaType::Dcts),
        has_extension(path@, seq!['d', '.', 't', 's']) ==> r == MediaType::Dts,
{
    MediaType::from_path(std::path::Path::new(path))
}

/// The text that deno_ast emits for a module, or the message of the
/// diagnostic that stopped it.
pub uninterp spec fn transpiled(specifier: Seq<char>, code: Seq<char>, media: MediaType) -> Result<
    Seq<char>,
    Seq<char>,
>;

/// Relies on deno_ast's `ModuleSpecifier::parse` (the url crate's
/// `Url::parse`) to name the source, then on deno_ast's `parse_module` and
/// `ParsedSource::transpile` with default options: the source is parsed under
/// the given media type and lowered to plain script, and any failure on the
/// way is reported by its message. The outcome depends on the arguments alone.
#[verifier::external_body]
fn transpile_source(specifier: &str, code: &str, media: MediaType) -> (r: Result<String, String>)
    ensures
        match r {
            Ok(t) => transpiled(specifier@, code@, media) == Ok::<Seq<char>, Seq<char>>(t@),
            Err(e) => transpiled(specifier@, code@, media) == Err::<Seq<char>, Seq<char>>(e@),
        },
{
    let specifier = deno_ast::ModuleSpecifier::parse(specifier).map_err(|e| e.to_string())?;
    let parsed = deno_ast::parse_module(deno_ast::ParseParams {
        specifier,
        text: code.into(),
        media_type: media,
        capture_tokens: false,
        scope_analysis: false,
        maybe_syntax: None,
    }).map_err(|e| e.to_string())?;
    let emitted = parsed.transpile(&Default::default(), &Default::default(), &Default::default());
    emitted.map(|t| t.into_source().text).map_err(|e| e.to_string())
}

/// A module ready for the engine.
pub struct ModuleRecord {
    pub kind: ModuleKind,
    pub code: String,
    pub was_transpiled: bool,
}

/// What loading `source` under `specifier` gives: the kind, whether it was
/// transpiled, and the text, or the diagnostic of a failed transpilation.
pub open spec fn load_outcome(specifier: Seq<char>, source: Seq<char>) -> Result<
    (ModuleKind, bool, Seq<char>),
    Seq<char>,
> {
    let media = media_type_of(specifier);
    if !needs_transpile(media) {
        Ok((kind_of(media), false, source))
    } else {
        match transpiled(specifier, source, media) {
            Ok(t) => Ok((kind_of(media), true, t)),
            Err(e) => Err(e),
        }
    }
}

impl TypescriptModuleLoader {
    /// Turns the source of the module at `specifier` into a module record:
    /// the kind comes from the specifier's extension alone, and every kind
    /// but plain script and data is transpiled. A failed transpilation is a
    /// load error that carries the diagnostic.
    pub fn load(&self, specifier: &str, source: String) -> (r: Result<ModuleRecord, HostError>)
        ensures
            match load_outcome(specifier@, source@) {
                Ok((kind, was_transpiled, code)) => r matches Ok(m) && m.kind == kind
                    && m.was_transpiled == was_transpiled && m.code@ == code,
                Err(msg) => r matches Err(HostError::Load(e)) && e@ == msg,
            },
            table_class(specifier@) matches Some((kind, was_transpiled)) ==> (r matches Ok(m)
                ==> m.kind == kind && m.was_transpiled == was_transpiled),
            table_class(specifier@) matches Some((_, false)) ==> r is Ok,
    {
        let media = media_type_for(specifier);
        let (kind, transpile) = classify(media);
        if !transpile {
            Ok(ModuleRecord { kind, code: source, was_transpiled: false })
        } else {
            match transpile_source(specifier, source.as_str(), media) {
                Ok(code) => Ok(ModuleRecord { kind, code, was_transpiled: true }),
                Err(e) => Err(HostError::Load(e)),
            }
        }
    }
}

/// The kind of a module depends on its specifier alone: two sources loaded
/// under one specifier load as the same kind, whatever they hold.
pub proof fn lemma_kind_ignores_content(specifier: Seq<char>, a: Seq<char>, b: Seq<char>)
    requires
        load_outcome(specifier, a) is Ok,
        load_outcome(specifier, b) is Ok,
    ensures
        load_outcome(specifier, a)->Ok_0.0 == load_outcome(specifier, b)->Ok_0.0,
        load_outcome(specifier, a)->Ok_0.1 == load_outcome(specifier, b)->Ok_0.1,
{
}

} // verus!
