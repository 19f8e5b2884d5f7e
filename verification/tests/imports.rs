use profiler::imports::{
    find_import, ImportEntry, ImportTarget, HOOK_MODULE, START_MEASUREMENT, TAKE_MEASUREMENT,
};
use profiler::instrumentation::{Profiling, ProfilingError, ProfilingIndexes};
use wasmer_types::{
    FunctionIndex, GlobalIndex, ImportIndex, MemoryIndex, ModuleInfo, TableIndex,
};

fn entry(module: &str, field: &str, target: ImportTarget) -> ImportEntry {
    ImportEntry {
        module: module.to_string(),
        field: field.to_string(),
        target,
    }
}

#[test]
fn hook_names() {
    assert_eq!(HOOK_MODULE, "profiling");
    assert_eq!(START_MEASUREMENT, "start_measurement");
    assert_eq!(TAKE_MEASUREMENT, "take_measurement");
}

#[test]
fn finds_a_hook_among_other_imports() {
    let imports = vec![
        entry("env", "memory", ImportTarget::Memory(0)),
        entry("env", "start_measurement", ImportTarget::Function(0)),
        entry("profiling", "start_measurement", ImportTarget::Function(1)),
        entry("profiling", "take_measurement", ImportTarget::Function(2)),
        entry("profiling", "other", ImportTarget::Function(3)),
    ];
    assert_eq!(find_import(&imports, "start_measurement"), Some(1));
    assert_eq!(find_import(&imports, "take_measurement"), Some(2));
    assert_eq!(find_import(&imports, "other"), Some(3));
    assert_eq!(find_import(&imports, "memory"), None);
    assert_eq!(find_import(&imports, "missing"), None);
    assert_eq!(find_import(&imports, ""), None);
    assert_eq!(find_import(&Vec::new(), "start_measurement"), None);
}

#[test]
fn the_first_function_import_of_a_name_wins() {
    let imports = vec![
        entry("profiling", "start_measurement", ImportTarget::Global(8)),
        entry("profiling", "start_measurement", ImportTarget::Table(9)),
        entry("profiling", "start_measurement", ImportTarget::Memory(10)),
        entry("profiling", "start_measurement", ImportTarget::Function(11)),
        entry("profiling", "start_measurement", ImportTarget::Function(12)),
    ];
    assert_eq!(find_import(&imports, "start_measurement"), Some(11));
}

#[test]
fn names_are_compared_exactly() {
    let imports = vec![
        entry("Profiling", "start_measurement", ImportTarget::Function(1)),
        entry("profiling", "start_measurement ", ImportTarget::Function(2)),
        entry("profiling", "start", ImportTarget::Function(3)),
        entry("profilin", "start_measurement", ImportTarget::Function(4)),
    ];
    assert_eq!(find_import(&imports, "start_measurement"), None);
}

#[test]
fn resolve_records_both_hooks() {
    let mut profiling = Profiling::new();
    assert_eq!(profiling.indexes(), None);
    let imports = vec![
        entry("env", "abort", ImportTarget::Function(0)),
        entry("profiling", "start_measurement", ImportTarget::Function(1)),
        entry("profiling", "take_measurement", ImportTarget::Function(2)),
    ];
    assert_eq!(profiling.resolve(&imports), Ok(()));
    assert_eq!(
        profiling.indexes(),
        Some(ProfilingIndexes {
            start_measurement: 1,
            take_measurement: 2
        })
    );
    assert_eq!(profiling.block_store().len(), 0);
}

#[test]
fn resolve_needs_the_start_hook() {
    let mut profiling = Profiling::new();
    let imports = vec![entry(
        "profiling",
        "take_measurement",
        ImportTarget::Function(0),
    )];
    assert_eq!(
        profiling.resolve(&imports),
        Err(ProfilingError::MissingStartMeasurement)
    );
    assert_eq!(profiling.indexes(), None);

    assert_eq!(
        profiling.resolve(&Vec::new()),
        Err(ProfilingError::MissingStartMeasurement)
    );
    assert_eq!(profiling.indexes(), None);
}

#[test]
fn resolve_needs_the_take_hook() {
    let mut profiling = Profiling::new();
    let imports = vec![
        entry("profiling", "start_measurement", ImportTarget::Function(0)),
        entry("profiling", "take_measurement", ImportTarget::Global(1)),
    ];
    assert_eq!(
        profiling.resolve(&imports),
        Err(ProfilingError::MissingTakeMeasurement)
    );
    assert_eq!(profiling.indexes(), None);
}

#[test]
fn a_failed_resolve_can_be_tried_again() {
    let mut profiling = Profiling::new();
    assert_eq!(
        profiling.resolve(&Vec::new()),
        Err(ProfilingError::MissingStartMeasurement)
    );
    let imports = vec![
        entry("profiling", "start_measurement", ImportTarget::Function(3)),
        entry("profiling", "take_measurement", ImportTarget::Function(4)),
    ];
    assert_eq!(profiling.resolve(&imports), Ok(()));
    assert_eq!(
        profiling.indexes(),
        Some(ProfilingIndexes {
            start_measurement: 3,
            take_measurement: 4
        })
    );
}

#[test]
fn resolving_a_second_time_is_refused() {
    let mut profiling = Profiling::new();
    let first = vec![
        entry("profiling", "start_measurement", ImportTarget::Function(0)),
        entry("profiling", "take_measurement", ImportTarget::Function(1)),
    ];
    let second = vec![
        entry("profiling", "start_measurement", ImportTarget::Function(5)),
        entry("profiling", "take_measurement", ImportTarget::Function(6)),
    ];
    assert_eq!(profiling.resolve(&first), Ok(()));
    assert_eq!(
        profiling.resolve(&second),
        Err(ProfilingError::AlreadyResolved)
    );
    assert_eq!(
        profiling.resolve(&first),
        Err(ProfilingError::AlreadyResolved)
    );
    assert_eq!(
        profiling.resolve(&Vec::new()),
        Err(ProfilingError::AlreadyResolved)
    );
    assert_eq!(
        profiling.indexes(),
        Some(ProfilingIndexes {
            start_measurement: 0,
            take_measurement: 1
        })
    );
}

fn module_info(imports: &[(&str, &str, ImportIndex)]) -> ModuleInfo {
    let mut info = ModuleInfo::new();
    for (position, (module, field, index)) in imports.iter().enumerate() {
        info.imports.insert(
            (module.to_string(), field.to_string(), position as u32),
            index.clone(),
        );
    }
    info
}

#[test]
fn module_description_with_both_hooks() {
    let info = module_info(&[
        ("env", "memory", ImportIndex::Memory(MemoryIndex::from_u32(0))),
        ("env", "table", ImportIndex::Table(TableIndex::from_u32(0))),
        ("env", "abort", ImportIndex::Function(FunctionIndex::from_u32(0))),
        (
            "profiling",
            "take_measurement",
            ImportIndex::Function(FunctionIndex::from_u32(1)),
        ),
        (
            "profiling",
            "start_measurement",
            ImportIndex::Function(FunctionIndex::from_u32(2)),
        ),
    ]);
    let mut profiling = Profiling::new();
    assert_eq!(profiling.transform_module_info(&info), Ok(()));
    assert_eq!(
        profiling.indexes(),
        Some(ProfilingIndexes {
            start_measurement: 2,
            take_measurement: 1
        })
    );
}

#[test]
fn module_description_keeps_the_declaration_order() {
    let info = module_info(&[
        (
            "profiling",
            "start_measurement",
            ImportIndex::Global(GlobalIndex::from_u32(40)),
        ),
        (
            "profiling",
            "start_measurement",
            ImportIndex::Function(FunctionIndex::from_u32(41)),
        ),
        (
            "profiling",
            "start_measurement",
            ImportIndex::Function(FunctionIndex::from_u32(42)),
        ),
        (
            "profiling",
            "take_measurement",
            ImportIndex::Function(FunctionIndex::from_u32(43)),
        ),
    ]);
    let mut profiling = Profiling::new();
    assert_eq!(profiling.transform_module_info(&info), Ok(()));
    assert_eq!(
        profiling.indexes(),
        Some(ProfilingIndexes {
            start_measurement: 41,
            take_measurement: 43
        })
    );
}

#[test]
fn module_description_without_hooks() {
    let mut profiling = Profiling::new();
    assert_eq!(
        profiling.transform_module_info(&ModuleInfo::new()),
        Err(ProfilingError::MissingStartMeasurement)
    );

    let info = module_info(&[(
        "profiling",
        "start_measurement",
        ImportIndex::Function(FunctionIndex::from_u32(0)),
    )]);
    assert_eq!(
        profiling.transform_module_info(&info),
        Err(ProfilingError::MissingTakeMeasurement)
    );
    assert_eq!(profiling.indexes(), None);
}

#[test]
fn second_module_description_is_refused() {
    let info = module_info(&[
        (
            "profiling",
            "start_measurement",
            ImportIndex::Function(FunctionIndex::from_u32(0)),
        ),
        (
            "profiling",
            "take_measurement",
            ImportIndex::Function(FunctionIndex::from_u32(1)),
        ),
    ]);
    let other = module_info(&[
        (
            "profiling",
            "start_measurement",
            ImportIndex::Function(FunctionIndex::from_u32(7)),
        ),
        (
            "profiling",
            "take_measurement",
            ImportIndex::Function(FunctionIndex::from_u32(8)),
        ),
    ]);
    let mut profiling = Profiling::new();
    assert_eq!(profiling.transform_module_info(&info), Ok(()));
    assert_eq!(
        profiling.transform_module_info(&other),
        Err(ProfilingError::AlreadyResolved)
    );
    assert_eq!(
        profiling.indexes(),
        Some(ProfilingIndexes {
            start_measurement: 0,
            take_measurement: 1
        })
    );
}
