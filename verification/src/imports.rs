//! The measurement hooks among a module's imports.
//!
//! The host declares two functions that the rewritten code calls:
//! `profiling.start_measurement(function: i32, block: i32)` and
//! `profiling.take_measurement(function: i32, block: i32, hash: i64)`. This
//! module finds their function indices in a module's import list.

use vstd::prelude::*;
use wasmer_types::{ImportIndex, ModuleInfo};

verus! {

/// The import namespace of both hooks.
pub const HOOK_MODULE: &'static str = "profiling";

/// The name of the hook called when a block is entered.
pub const START_MEASUREMENT: &'static str = "start_measurement";

/// The name of the hook called when a block is left.
pub const TAKE_MEASUREMENT: &'static str = "take_measurement";

/// The type of a value on the stack, as it occurs in a function signature.
#[derive(Debug, Clone, Copy, PartialEq, Eq, Structural)]
pub enum ValueType {
    /// A 32-bit integer.
    I32,
    /// A 64-bit integer.
    I64,
    /// A 32-bit float.
    F32,
    /// A 64-bit float.
    F64,
    /// A 128-bit vector.
    V128,
    /// An opaque reference to a host value.
    Externref,
    /// A reference to a function.
    Funcref,
}

/// The parameters of the start hook: the function index and the block
/// number. The hook returns nothing.
pub open spec fn start_params() -> Seq<ValueType> {
    seq![ValueType::I32, ValueType::I32]
}

/// The parameters of the end hook: the function index, the block number and
/// the block's content hash. The hook returns nothing.
pub open spec fn take_params() -> Seq<ValueType> {
    seq![ValueType::I32, ValueType::I32, ValueType::I64]
}

/// The parameter types that the host has to declare the start hook with.
pub fn start_measurement_params() -> (params: Vec<ValueType>)
    ensures
        params@ == start_params(),
{
    let mut params: Vec<ValueType> = Vec::new();
    params.push(ValueType::I32);
    params.push(ValueType::I32);
    params
}

/// The parameter types that the host has to declare the end hook with.
pub fn take_measurement_params() -> (params: Vec<ValueType>)
    ensures
        params@ == take_params(),
{
    let mut params: Vec<ValueType> = Vec::new();
    params.push(ValueType::I32);
    params.push(ValueType::I32);
    params.push(ValueType::I64);
    params
}

/// What an import refers to: a function, table, memory or global, with its
/// index among the module's entities of that kind.
#[derive(Debug, Clone, Copy, PartialEq, Eq, Structural)]
pub enum ImportTarget {
    Function(u32),
    Table(u32),
    Memory(u32),
    Global(u32),
}

/// One entry of a module's import list.
#[derive(Debug, Clone)]
pub struct ImportEntry {
    /// The namespace the import is taken from.
    pub module: String,
    /// The name of the import in that namespace.
    pub field: String,
    /// What is imported.
    pub target: ImportTarget,
}

/// An import list entry with its names as character sequences.
pub ghost struct ImportView {
    pub module: Seq<char>,
    pub field: Seq<char>,
    pub target: ImportTarget,
}

impl View for ImportEntry {
    type V = ImportView;

    open spec fn view(&self) -> ImportView {
        ImportView { module: self.module@, field: self.field@, target: self.target }
    }
}

/// The views of the entries of an import list, in order.
pub open spec fn import_views(entries: Seq<ImportEntry>) -> Seq<ImportView> {
    entries.map_values(|entry: ImportEntry| entry@)
}

/// The function index that `import` gives the hook called `name`: the import
/// has to come from the hook namespace under that name, and be a function.
pub open spec fn hook_index(import: ImportView, name: Seq<char>) -> Option<u32> {
    match import.target {
        ImportTarget::Function(index) => if import.module == HOOK_MODULE@ && import.field
            == name {
            Some(index)
        } else {
            None
        },
        _ => None,
    }
}

/// The function index of the hook called `name`, taken from the first import
/// at or after position `from` that gives one.
pub open spec fn find_hook(imports: Seq<ImportView>, name: Seq<char>, from: int) -> Option<u32>
    decreases imports.len() - from,
{
    if from < 0 || from >= imports.len() {
        None
    } else if hook_index(imports[from], name) is Some {
        hook_index(imports[from], name)
    } else {
        find_hook(imports, name, from + 1)
    }
}

/// The search returns the index given by the first import that names the
/// hook, and nothing when no import does.
pub proof fn lemma_find_hook_first(imports: Seq<ImportView>, name: Seq<char>, from: int)
    requires
        0 <= from <= imports.len(),
    ensures
        match find_hook(imports, name, from) {
            Some(index) => exists|at: int|
                {
                    &&& from <= at < imports.len()
                    &&& #[trigger] hook_index(imports[at], name) == Some(index)
                    &&& forall|earlier: int|
                        from <= earlier < at ==> #[trigger] hook_index(imports[earlier], name)
                            is None
                },
            None => forall|at: int|
                from <= at < imports.len() ==> #[trigger] hook_index(imports[at], name) is None,
        },
    decreases imports.len() - from,
{
    if from < imports.len() && hook_index(imports[from], name) is None {
        lemma_find_hook_first(imports, name, from + 1);
    }
}

/// Searches an import list for the hook called `name`.
pub fn find_import(imports: &Vec<ImportEntry>, name: &str) -> (found: Option<u32>)
    ensures
        found == find_hook(import_views(imports@), name@, 0),
{
    let module_name: String = HOOK_MODULE.to_owned();
    let field_name: String = name.to_owned();
    let mut i: usize = 0;
    while i < imports.len()
        invariant
            i <= imports@.len(),
            module_name@ == HOOK_MODULE@,
            field_name@ == name@,
            find_hook(import_views(imports@), name@, 0) == find_hook(
                import_views(imports@),
                name@,
                i as int,
            ),
        decreases imports@.len() - i,
    {
        let entry = &imports[i];
        if entry.module == module_name && entry.field == field_name {
            match entry.target {
                ImportTarget::Function(index) => {
                    return Some(index);
                },
                _ => {},
            }
        }
        i += 1;
    }
    None
}

/// `wasmer_types::ModuleInfo`, the description of a module that the compiler
/// hands to its middlewares. It is carried as it is; what is read from it is
/// its import list.
#[verifier::external_type_specification]
#[verifier::external_body]
pub struct ExModuleInfo(wasmer_types::ModuleInfo);

/// The import list of a module description, in declaration order.
pub uninterp spec fn declared_imports(module_info: ModuleInfo) -> Seq<ImportView>;

/// Reads the import list out of a module description.
///
/// Walks `wasmer_types::ModuleInfo::imports` with `IndexMap::iter`, which
/// yields the entries in the order in which they were inserted. Each entry
/// becomes one `ImportEntry` with the same namespace, name and kind, and the
/// index that `as_u32` returns; the position that is the third part of the
/// key is left out. Nothing of this is proved: the result is the list that
/// `declared_imports` stands for.
#[verifier::external_body]
pub(crate) fn read_imports(module_info: &ModuleInfo) -> (entries: Vec<ImportEntry>)
    ensures
        import_views(entries@) == declared_imports(*module_info),
{
    let mut entries = Vec::new();
    for ((module, field, _), index) in module_info.imports.iter() {
        let target = match index {
            ImportIndex::Function(i) => ImportTarget::Function(i.as_u32()),
            ImportIndex::Table(i) => ImportTarget::Table(i.as_u32()),
            ImportIndex::Memory(i) => ImportTarget::Memory(i.as_u32()),
            ImportIndex::Global(i) => ImportTarget::Global(i.as_u32()),
        };
        entries.push(ImportEntry { module: module.clone(), field: field.clone(), target });
    }
    entries
}

} // verus!
