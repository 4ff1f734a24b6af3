//! WebAssembly runtime bookkeeping: configuration, errors, value types, exports,
//! imports, memories and tables.
use vstd::prelude::*;
use crate::string_map::StringMap;

verus! {

/// WASM errors.
#[derive(Debug, Clone, PartialEq, Eq)]
pub enum WasmError {
    CompilationFailed(String),
    InstantiationFailed(String),
    ExecutionFailed(String),
    InvalidModule(String),
    ImportNotFound(String),
    ExportNotFound(String),
    TypeMismatch(String),
    OutOfBounds(String),
    Trap(String),
}

/// WASM value types.
#[derive(Debug, Clone, Copy, PartialEq, Eq, Structural)]
pub enum ValueType {
    I32,
    I64,
    F32,
    F64,
    V128,
    FuncRef,
    ExternRef,
}

/// WASM runtime configuration.
#[derive(Debug, Clone)]
pub struct WasmConfig {
    /// Enable SIMD
    pub simd: bool,
    /// Enable threads
    pub threads: bool,
    /// Enable bulk memory operations
    pub bulk_memory: bool,
    /// Enable reference types
    pub reference_types: bool,
    /// Maximum memory pages (64KB each)
    pub max_memory_pages: u32,
    /// Maximum table elements
    pub max_table_elements: u32,
    /// Enable JIT compilation
    pub jit: bool,
    /// Enable caching
    pub cache: bool,
}

impl Default for WasmConfig {
    /// Every feature on, 65536 memory pages (4 GiB) and ten million table elements.
    fn default() -> (r: Self)
        ensures
            r.simd && r.threads && r.bulk_memory && r.reference_types && r.jit && r.cache,
            r.max_memory_pages == 65536,
            r.max_table_elements == 10000000,
    {
        WasmConfig {
            simd: true,
            threads: true,
            bulk_memory: true,
            reference_types: true,
            max_memory_pages: 65536,
            max_table_elements: 10000000,
            jit: true,
            cache: true,
        }
    }
}

/// The bytes of linear memory that a write of `len` bytes at `offset` covers, as a
/// range; `OutOfBounds` where it would run past the memory's `mem_len` bytes.
pub fn memory_write_range(offset: usize, len: usize, mem_len: usize) -> (r: Result<(usize, usize), WasmError>)
    ensures
        offset + len <= mem_len ==> r == Ok::<(usize, usize), WasmError>((offset, (offset + len) as usize)),
        offset + len > mem_len ==> r matches Err(WasmError::OutOfBounds(_)),
{
    if offset > mem_len || len > mem_len - offset {
        return Err(WasmError::OutOfBounds(crate::strs::to_owned_string("Memory write out of bounds")));
    }
    Ok((offset, offset + len))
}

/// Export value.
#[derive(Debug, Clone, Copy, PartialEq, Eq, Structural)]
pub enum ExportValue {
    Function(u32),
    Memory(u32),
    Table(u32),
    Global(u32),
}

/// Export manager: exports by name.
pub struct ExportManager {
    exports: StringMap<ExportValue>,
}

impl ExportManager {
    /// The exports by name.
    pub closed spec fn exports(&self) -> Map<Seq<char>, ExportValue> {
        self.exports.map()
    }

    /// The export names, in the order in which they were first registered.
    pub closed spec fn name_list(&self) -> Seq<Seq<char>> {
        self.exports.key_list()
    }

    /// The manager's invariant.
    pub closed spec fn wf(&self) -> bool {
        self.exports.wf()
    }

    /// Create a manager with no exports.
    pub fn new() -> (r: Self)
        ensures
            r.wf(),
            r.exports() == Map::<Seq<char>, ExportValue>::empty(),
            r.name_list() == Seq::<Seq<char>>::empty(),
    {
        ExportManager { exports: StringMap::new() }
    }

    /// Register an export; a name registered again takes the new value.
    pub fn register(&mut self, name: String, value: ExportValue)
        requires
            old(self).wf(),
        ensures
            final(self).wf(),
            final(self).exports() == old(self).exports().insert(name@, value),
            old(self).exports().contains_key(name@) ==> final(self).name_list() == old(self).name_list(),
            !old(self).exports().contains_key(name@) ==> final(self).name_list() == old(self).name_list().push(name@),
    {
        self.exports.insert(name, value);
    }

    /// The export registered under `name`.
    pub fn get(&self, name: &str) -> (r: Option<&ExportValue>)
        requires
            self.wf(),
        ensures
            self.exports().contains_key(name@) ==> r == Some(&self.exports()[name@]),
            !self.exports().contains_key(name@) ==> r is None,
    {
        self.exports.get(name)
    }

    /// Every export name, each once.
    pub fn names(&self) -> (r: Vec<String>)
        requires
            self.wf(),
        ensures
            crate::strs::string_views(r@) == self.name_list(),
            forall|k: Seq<char>| #[trigger] self.exports().contains_key(k) <==> self.name_list().contains(k),
            self.name_list().no_duplicates(),
    {
        proof {
            self.exports.lemma_keys();
        }
        let mut r: Vec<String> = Vec::new();
        let n = self.exports.len();
        let mut i: usize = 0;
        while i < n
            invariant
                self.wf(),
                n == self.name_list().len(),
                i <= n,
                crate::strs::string_views(r@) == self.name_list().take(i as int),
            decreases n - i,
        {
            let ghost before = r@;
            let k = self.exports.key_at(i);
            match k {
                Some(key) => {
                    let copy = crate::strs::to_owned_string(key.as_str());
                    r.push(copy);
                    assert(crate::strs::string_views(r@) =~= crate::strs::string_views(before).push(copy@));
                    assert(self.name_list().take(i + 1) =~= self.name_list().take(i as int).push(self.name_list()[i as int]));
                },
                None => {
                    assert(false);
                },
            }
            i = i + 1;
        }
        assert(self.name_list().take(n as int) =~= self.name_list());
        r
    }
}

/// The export names after registering `regs` in order on an empty manager: a name
/// joins the list when it is first registered, as `register` says.
pub open spec fn names_after(regs: Seq<Seq<char>>) -> Seq<Seq<char>>
    decreases regs.len(),
{
    if regs.len() == 0 {
        Seq::empty()
    } else {
        let before = names_after(regs.drop_last());
        if before.contains(regs.last()) { before } else { before.push(regs.last()) }
    }
}

/// The exported names follow the registrations: after registering names in order,
/// each registered name is listed exactly once and nothing else is.
pub proof fn law_export_names_follow_registrations(regs: Seq<Seq<char>>)
    ensures
        names_after(regs).no_duplicates(),
        forall|k: Seq<char>| #[trigger] names_after(regs).contains(k) <==> regs.contains(k),
    decreases regs.len(),
{
    if regs.len() > 0 {
        let p = regs.drop_last();
        law_export_names_follow_registrations(p);
        let before = names_after(p);
        let l = regs.last();
        assert forall|k: Seq<char>| regs.contains(k) <==> (p.contains(k) || k == l) by {
            if regs.contains(k) {
                let i = choose|i: int| 0 <= i < regs.len() && regs[i] == k;
                if i < p.len() {
                    assert(p[i] == k);
                }
            }
            if p.contains(k) {
                let i = choose|i: int| 0 <= i < p.len() && p[i] == k;
                assert(regs[i] == k);
            }
            if k == l {
                assert(regs[regs.len() - 1] == k);
            }
        }
        if !before.contains(l) {
            let n = before.push(l);
            assert forall|k: Seq<char>| #[trigger] n.contains(k) <==> (before.contains(k) || k == l) by {
                if n.contains(k) {
                    let i = choose|i: int| 0 <= i < n.len() && n[i] == k;
                    if i < before.len() {
                        assert(before[i] == k);
                    }
                }
                if before.contains(k) {
                    let i = choose|i: int| 0 <= i < before.len() && before[i] == k;
                    assert(n[i] == k);
                }
                if k == l {
                    assert(n[before.len() as int] == k);
                }
            }
            assert forall|i: int, j: int| 0 <= i < n.len() && 0 <= j < n.len() && i != j implies n[i] != n[j] by {
                if i < before.len() && j < before.len() {
                } else if i < before.len() {
                    assert(before[i] == n[i]);
                } else if j < before.len() {
                    assert(before[j] == n[j]);
                }
            }
        }
    }
}

/// Import value.
#[derive(Debug, Clone, Copy, PartialEq, Eq, Structural)]
pub enum ImportValue {
    Function(u32),
    Memory(u32),
    Table(u32),
    Global(u32),
}

/// Import resolver: imports by module name, then by name.
pub struct ImportResolver {
    imports: StringMap<StringMap<ImportValue>>,
}

impl ImportResolver {
    /// The registered import of `name` from `module`, if any.
    pub closed spec fn lookup(&self, module: Seq<char>, name: Seq<char>) -> Option<ImportValue> {
        if self.imports.map().contains_key(module) && self.imports.map()[module].map().contains_key(name) {
            Some(self.imports.map()[module].map()[name])
        } else {
            None
        }
    }

    /// The resolver's invariant.
    pub closed spec fn wf(&self) -> bool {
        &&& self.imports.wf()
        &&& forall|m: Seq<char>| #[trigger] self.imports.map().contains_key(m) ==> self.imports.map()[m].wf()
    }

    /// Create a resolver with no imports.
    pub fn new() -> (r: Self)
        ensures
            r.wf(),
            forall|m: Seq<char>, n: Seq<char>| #[trigger] r.lookup(m, n) is None,
    {
        ImportResolver { imports: StringMap::new() }
    }

    /// Register an import; registering a name again replaces its value.
    pub fn register(&mut self, module: String, name: String, value: ImportValue)
        requires
            old(self).wf(),
        ensures
            final(self).wf(),
            final(self).lookup(module@, name@) == Some(value),
            forall|m: Seq<char>, n: Seq<char>| !(m == module@ && n == name@) ==>
                #[trigger] final(self).lookup(m, n) == old(self).lookup(m, n),
    {
        let mut inner = match self.imports.remove(module.as_str()) {
            Some(existing) => existing,
            None => StringMap::new(),
        };
        inner.insert(name, value);
        self.imports.insert(module, inner);
    }

    /// Resolve an import.
    pub fn resolve(&self, module: &str, name: &str) -> (r: Option<&ImportValue>)
        requires
            self.wf(),
        ensures
            match self.lookup(module@, name@) {
                Some(v) => r == Some(&v),
                None => r is None,
            },
    {
        match self.imports.get(module) {
            Some(inner) => inner.get(name),
            None => None,
        }
    }
}

/// WebAssembly memory.
pub struct Memory {
    id: u32,
    initial: u32,
    maximum: Option<u32>,
}

impl Memory {
    /// Memory ID.
    pub closed spec fn spec_id(&self) -> u32 {
        self.id
    }

    /// Initial size, in pages of 64 KiB.
    pub closed spec fn spec_initial(&self) -> u32 {
        self.initial
    }

    /// Maximum size, in pages.
    pub closed spec fn spec_maximum(&self) -> Option<u32> {
        self.maximum
    }

    /// Create a new memory.
    pub fn new(id: u32, initial: u32, maximum: Option<u32>) -> (r: Self)
        ensures
            r.spec_id() == id,
            r.spec_initial() == initial,
            r.spec_maximum() == maximum,
    {
        Memory { id, initial, maximum }
    }

    /// Memory ID.
    pub fn id(&self) -> (r: u32)
        ensures
            r == self.spec_id(),
    {
        self.id
    }

    /// Initial size.
    pub fn initial(&self) -> (r: u32)
        ensures
            r == self.spec_initial(),
    {
        self.initial
    }

    /// Maximum size.
    pub fn maximum(&self) -> (r: Option<u32>)
        ensures
            r == self.spec_maximum(),
    {
        self.maximum
    }
}

/// WebAssembly table.
pub struct Table {
    id: u32,
    initial: u32,
    maximum: Option<u32>,
}

impl Table {
    /// Table ID.
    pub closed spec fn spec_id(&self) -> u32 {
        self.id
    }

    /// Initial size.
    pub closed spec fn spec_initial(&self) -> u32 {
        self.initial
    }

    /// Maximum size.
    pub closed spec fn spec_maximum(&self) -> Option<u32> {
        self.maximum
    }

    /// Create a new table.
    pub fn new(id: u32, initial: u32, maximum: Option<u32>) -> (r: Self)
        ensures
            r.spec_id() == id,
            r.spec_initial() == initial,
            r.spec_maximum() == maximum,
    {
        Table { id, initial, maximum }
    }

    /// Table ID.
    pub fn id(&self) -> (r: u32)
        ensures
            r == self.spec_id(),
    {
        self.id
    }
}

} // verus!
