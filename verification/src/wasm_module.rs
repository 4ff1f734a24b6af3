//! Compiled WebAssembly modules.
use vstd::prelude::*;
use std::sync::Arc;
use crate::wasm::{WasmConfig, WasmError};
use wasmtime::Module as WasmtimeModule;

verus! {

/// wasmtime's engine configuration, carried as it is.
#[verifier::external_type_specification]
#[verifier::external_body]
pub struct ExWasmtimeConfig(wasmtime::Config);

/// wasmtime's compilation engine, carried as it is.
#[verifier::external_type_specification]
#[verifier::external_body]
pub struct ExWasmtimeEngine(wasmtime::Engine);

/// A module compiled by wasmtime, carried as it is.
#[verifier::external_type_specification]
#[verifier::external_body]
pub struct ExWasmtimeModule(WasmtimeModule);

/// The features an engine is asked for.
#[derive(Debug, Clone, Copy, PartialEq, Eq, Structural)]
pub struct EngineFlags {
    pub simd: bool,
    pub threads: bool,
    pub bulk_memory: bool,
    pub reference_types: bool,
    /// Whether Cranelift is asked for as the compilation strategy.
    pub cranelift: bool,
}

/// The engine features a configuration asks for: its four proposals as they are, and
/// Cranelift where it asks for JIT compilation.
pub open spec fn flags_of(config: WasmConfig) -> EngineFlags {
    EngineFlags {
        simd: config.simd,
        threads: config.threads,
        bulk_memory: config.bulk_memory,
        reference_types: config.reference_types,
        cranelift: config.jit,
    }
}

/// The engine features a configuration asks for.
pub fn engine_flags(config: &WasmConfig) -> (r: EngineFlags)
    ensures
        r == flags_of(*config),
{
    EngineFlags {
        simd: config.simd,
        threads: config.threads,
        bulk_memory: config.bulk_memory,
        reference_types: config.reference_types,
        cranelift: config.jit,
    }
}

/// Nothing asked for yet.
pub open spec fn no_flags() -> EngineFlags {
    EngineFlags { simd: false, threads: false, bulk_memory: false, reference_types: false, cranelift: false }
}

/// A wasmtime engine configuration, with a record of the settings handed to it.
struct EngineSettings {
    config: wasmtime::Config,
    handed: Ghost<EngineFlags>,
}

/// A default engine configuration (wasmtime's `Config::new`); nothing handed yet.
#[verifier::external_body]
fn config_new() -> (r: EngineSettings)
    ensures
        r.handed@ == no_flags(),
{
    EngineSettings { config: wasmtime::Config::new(), handed: Ghost(no_flags()) }
}

/// Turn SIMD on or off (wasmtime's `Config::wasm_simd`).
#[verifier::external_body]
fn config_simd(c: &mut EngineSettings, enable: bool)
    ensures
        final(c).handed@ == (EngineFlags { simd: enable, ..old(c).handed@ }),
{
    c.config.wasm_simd(enable);
    c.handed = Ghost(EngineFlags { simd: enable, ..c.handed@ });
}

/// Turn threads on or off (wasmtime's `Config::wasm_threads`).
#[verifier::external_body]
fn config_threads(c: &mut EngineSettings, enable: bool)
    ensures
        final(c).handed@ == (EngineFlags { threads: enable, ..old(c).handed@ }),
{
    c.config.wasm_threads(enable);
    c.handed = Ghost(EngineFlags { threads: enable, ..c.handed@ });
}

/// Turn bulk memory operations on or off (wasmtime's `Config::wasm_bulk_memory`).
#[verifier::external_body]
fn config_bulk_memory(c: &mut EngineSettings, enable: bool)
    ensures
        final(c).handed@ == (EngineFlags { bulk_memory: enable, ..old(c).handed@ }),
{
    c.config.wasm_bulk_memory(enable);
    c.handed = Ghost(EngineFlags { bulk_memory: enable, ..c.handed@ });
}

/// Turn reference types on or off (wasmtime's `Config::wasm_reference_types`).
#[verifier::external_body]
fn config_reference_types(c: &mut EngineSettings, enable: bool)
    ensures
        final(c).handed@ == (EngineFlags { reference_types: enable, ..old(c).handed@ }),
{
    c.config.wasm_reference_types(enable);
    c.handed = Ghost(EngineFlags { reference_types: enable, ..c.handed@ });
}

/// Compile with Cranelift (wasmtime's `Config::strategy`).
#[verifier::external_body]
fn config_cranelift(c: &mut EngineSettings)
    ensures
        final(c).handed@ == (EngineFlags { cranelift: true, ..old(c).handed@ }),
{
    c.config.strategy(wasmtime::Strategy::Cranelift);
    c.handed = Ghost(EngineFlags { cranelift: true, ..c.handed@ });
}

/// An engine for a configuration (wasmtime's `Engine::new`), or the error's text;
/// whether it succeeds is up to wasmtime.
#[verifier::external_body]
fn engine_new(c: &EngineSettings) -> Result<wasmtime::Engine, String> {
    wasmtime::Engine::new(&c.config).map_err(|e| e.to_string())
}

/// A module compiled from a binary (wasmtime's `Module::from_binary`), or the error's
/// text; whether it succeeds is up to wasmtime.
#[verifier::external_body]
fn module_from_binary(engine: &wasmtime::Engine, bytes: &[u8]) -> Result<WasmtimeModule, String> {
    WasmtimeModule::from_binary(engine, bytes).map_err(|e| e.to_string())
}

/// The binary of a module in text format (`wat::parse_str`), or the error's text.
/// Nothing is stated of the outcome: besides the text, the parser reads an environment
/// variable (`WAST_STRICT_COMPONENT_INDICES`) that changes what it accepts.
#[verifier::external_body]
fn wat_to_binary(wat: &str) -> Result<Vec<u8>, String> {
    wat::parse_str(wat).map_err(|e| e.to_string())
}

/// The module and item names of the imports that wasmtime lists for a binary
/// (`Module::imports`), in the binary's order.
pub uninterp spec fn wasm_import_names(bytes: Seq<u8>) -> Seq<(Seq<char>, Seq<char>)>;

/// The names of the exports that wasmtime lists for a binary (`Module::exports`), in
/// the binary's order.
pub uninterp spec fn wasm_export_names(bytes: Seq<u8>) -> Seq<Seq<char>>;

/// A module's imports as module name, item name and type description
/// (wasmtime's `Module::imports`). The module was compiled from the bytes it keeps,
/// and wasmtime lists a binary's imports in order, so the names are those the binary
/// declares. The type description is left unsaid: wasmtime prints a function type
/// with the index the engine registered it under.
#[verifier::external_body]
fn module_imports(m: &Module) -> (r: Vec<(String, String, String)>)
    ensures
        r@.len() == wasm_import_names(m.spec_bytes()).len(),
        forall|i: int| 0 <= i < r@.len() ==> (#[trigger] r@[i]).0@ == wasm_import_names(m.spec_bytes())[i].0
            && r@[i].1@ == wasm_import_names(m.spec_bytes())[i].1,
{
    m.module.imports().map(|i| (i.module().to_string(), i.name().to_string(), format!("{:?}", i.ty()))).collect()
}

/// A module's exports as name and type description (wasmtime's `Module::exports`),
/// the names as the binary the module keeps declares them; the type description is
/// left unsaid, as for imports.
#[verifier::external_body]
fn module_exports(m: &Module) -> (r: Vec<(String, String)>)
    ensures
        r@.len() == wasm_export_names(m.spec_bytes()).len(),
        forall|i: int| 0 <= i < r@.len() ==> (#[trigger] r@[i]).0@ == wasm_export_names(m.spec_bytes())[i],
{
    m.module.exports().map(|e| (e.name().to_string(), format!("{:?}", e.ty()))).collect()
}

/// A compiled WebAssembly module ready for instantiation.
pub struct Module {
    id: u32,
    flags: EngineFlags,
    handed: Ghost<EngineFlags>,
    bytes: Vec<u8>,
    engine: Arc<wasmtime::Engine>,
    module: WasmtimeModule,
}

impl Module {
    /// The module's flags are those its engine was configured with.
    #[verifier::type_invariant]
    spec fn flags_were_handed(self) -> bool {
        self.handed@ == self.flags
    }

    /// The module's ID.
    pub closed spec fn spec_id(&self) -> u32 {
        self.id
    }

    /// The features its engine was configured with.
    pub closed spec fn spec_flags(&self) -> EngineFlags {
        self.flags
    }

    /// The binary it was compiled from.
    pub closed spec fn spec_bytes(&self) -> Seq<u8> {
        self.bytes@
    }

    /// The engine the module was compiled with.
    pub closed spec fn spec_engine(&self) -> wasmtime::Engine {
        *self.engine
    }

    /// The compiled module.
    pub closed spec fn spec_module(&self) -> WasmtimeModule {
        self.module
    }

    /// Compile a module from bytes, with an engine configured for the features the
    /// configuration asks for (`engine_flags`). A failure of the engine or of the
    /// compilation, which wasmtime decides, is `CompilationFailed`.
    pub fn from_bytes(id: u32, bytes: &[u8], config: &WasmConfig) -> (r: Result<Self, WasmError>)
        ensures
            r matches Ok(m) ==> m.spec_id() == id && m.spec_flags() == flags_of(*config) && m.spec_bytes() == bytes@,
            r matches Err(e) ==> e is CompilationFailed,
    {
        let flags = engine_flags(config);
        let mut settings = config_new();
        config_simd(&mut settings, flags.simd);
        config_threads(&mut settings, flags.threads);
        config_bulk_memory(&mut settings, flags.bulk_memory);
        config_reference_types(&mut settings, flags.reference_types);
        if flags.cranelift {
            config_cranelift(&mut settings);
        }
        let engine = match engine_new(&settings) {
            Ok(e) => e,
            Err(msg) => return Err(WasmError::CompilationFailed(msg)),
        };
        let module = match module_from_binary(&engine, bytes) {
            Ok(m) => m,
            Err(msg) => return Err(WasmError::CompilationFailed(msg)),
        };
        Ok(Module {
            id,
            flags,
            handed: Ghost(settings.handed@),
            bytes: vstd::slice::slice_to_vec(bytes),
            engine: Arc::new(engine),
            module,
        })
    }

    /// Compile a module from its text format: the text is parsed to a binary, which
    /// `from_bytes` compiles; a parse failure is `CompilationFailed` with the parser's
    /// message.
    pub fn from_wat(id: u32, wat: &str, config: &WasmConfig) -> (r: Result<Self, WasmError>)
        ensures
            r matches Ok(m) ==> m.spec_id() == id && m.spec_flags() == flags_of(*config),
            r matches Err(e) ==> e is CompilationFailed,
    {
        let bytes = match wat_to_binary(wat) {
            Ok(b) => b,
            Err(msg) => return Err(WasmError::CompilationFailed(msg)),
        };
        Self::from_bytes(id, bytes.as_slice(), config)
    }

    /// The module's ID.
    pub fn id(&self) -> (r: u32)
        ensures
            r == self.spec_id(),
    {
        self.id
    }

    /// The features its engine was configured with.
    pub fn flags(&self) -> (r: EngineFlags)
        ensures
            r == self.spec_flags(),
    {
        self.flags
    }

    /// The binary it was compiled from.
    pub fn bytes(&self) -> (r: &[u8])
        ensures
            r@ == self.spec_bytes(),
    {
        self.bytes.as_slice()
    }

    /// The engine the module was compiled with.
    pub fn engine(&self) -> (r: &wasmtime::Engine)
        ensures
            *r == self.spec_engine(),
    {
        &self.engine
    }

    /// The compiled module.
    pub fn wasmtime_module(&self) -> (r: &WasmtimeModule)
        ensures
            *r == self.spec_module(),
    {
        &self.module
    }

    /// The module's imports: module name, item name and type description.
    pub fn imports(&self) -> (r: Vec<(String, String, String)>)
        ensures
            r@.len() == wasm_import_names(self.spec_bytes()).len(),
            forall|i: int| 0 <= i < r@.len() ==> (#[trigger] r@[i]).0@ == wasm_import_names(self.spec_bytes())[i].0
                && r@[i].1@ == wasm_import_names(self.spec_bytes())[i].1,
    {
        module_imports(self)
    }

    /// The module's exports: name and type description.
    pub fn exports(&self) -> (r: Vec<(String, String)>)
        ensures
            r@.len() == wasm_export_names(self.spec_bytes()).len(),
            forall|i: int| 0 <= i < r@.len() ==> (#[trigger] r@[i]).0@ == wasm_export_names(self.spec_bytes())[i],
    {
        module_exports(self)
    }
}

} // verus!
