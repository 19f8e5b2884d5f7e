//! Declaring the measurement hooks in a module that is being prepared.
//!
//! Before a module is compiled with profiling, it has to import the two
//! hooks. This is done on the module as `walrus` holds it.

use crate::imports::{
    start_measurement_params, start_params, take_measurement_params, take_params, ValueType,
    HOOK_MODULE, START_MEASUREMENT, TAKE_MEASUREMENT,
};
use vstd::prelude::*;
use walrus::Module;

verus! {

/// `walrus::Module`, a module taken apart for editing. It is carried as it
/// is; what is changed in it is its list of imports.
#[verifier::external_type_specification]
#[verifier::external_body]
pub struct ExModule(walrus::Module);

/// A function import as a module declares it.
pub ghost struct FunctionImport {
    /// The namespace the function is taken from.
    pub module: Seq<char>,
    /// The name of the function in that namespace.
    pub name: Seq<char>,
    /// The types of the function's parameters.
    pub params: Seq<ValueType>,
    /// The types of the function's results.
    pub results: Seq<ValueType>,
}

/// The function imports of a module, in the order in which they were added.
pub uninterp spec fn function_imports(module: Module) -> Seq<FunctionImport>;

/// The number of functions that a module has been given so far, imported
/// and local, removed ones included. The next function added gets this
/// number as its id.
pub uninterp spec fn function_slots(module: Module) -> nat;

/// The declaration of the start hook.
pub open spec fn start_import() -> FunctionImport {
    FunctionImport {
        module: HOOK_MODULE@,
        name: START_MEASUREMENT@,
        params: start_params(),
        results: Seq::empty(),
    }
}

/// The declaration of the end hook.
pub open spec fn take_import() -> FunctionImport {
    FunctionImport {
        module: HOOK_MODULE@,
        name: TAKE_MEASUREMENT@,
        params: take_params(),
        results: Seq::empty(),
    }
}

/// Adds to `module` the import of a function without results.
///
/// Calls `walrus::ModuleTypes::add` with the parameter types and no result
/// types, then `walrus::Module::add_import_func` with the type it returned,
/// and returns `index()` of the new function's id. Going by the source of
/// `walrus`, the import is put after those that the module already has, and
/// the id is the number of functions that were ever added to the module,
/// which grows by one. Nothing of this is proved.
#[verifier::external_body]
fn import_function(module: &mut Module, namespace: &str, name: &str, params: &Vec<ValueType>) -> (id:
    usize)
    ensures
        function_imports(*final(module)) == function_imports(*old(module)).push(
            FunctionImport { module: namespace@, name: name@, params: params@, results: Seq::empty() },
        ),
        id == function_slots(*old(module)),
        function_slots(*final(module)) == function_slots(*old(module)) + 1,
{
    let mut types: Vec<walrus::ValType> = Vec::new();
    for param in params.iter() {
        types.push(match param {
            ValueType::I32 => walrus::ValType::I32,
            ValueType::I64 => walrus::ValType::I64,
            ValueType::F32 => walrus::ValType::F32,
            ValueType::F64 => walrus::ValType::F64,
            ValueType::V128 => walrus::ValType::V128,
            ValueType::Externref => walrus::ValType::Externref,
            ValueType::Funcref => walrus::ValType::Funcref,
        });
    }
    let ty = module.types.add(&types, &[]);
    module.add_import_func(namespace, name, ty).0.index()
}

/// Adds the imports of both hooks to `module`, the start hook first, and
/// returns the ids that the module gives the two functions.
pub fn add_imports(module: &mut Module) -> (ids: (usize, usize))
    ensures
        function_imports(*final(module)) == function_imports(*old(module)).push(
            start_import(),
        ).push(take_import()),
        ids.0 == function_slots(*old(module)),
        ids.1 == function_slots(*old(module)) + 1,
        function_slots(*final(module)) == function_slots(*old(module)) + 2,
{
    let start_type = start_measurement_params();
    let take_type = take_measurement_params();
    let fn1 = import_function(module, HOOK_MODULE, START_MEASUREMENT, &start_type);
    let fn2 = import_function(module, HOOK_MODULE, TAKE_MEASUREMENT, &take_type);
    (fn1, fn2)
}

} // verus!
