use profiler::code_blocks::{BlockStore, CodeBlock};
use profiler::imports::{ImportEntry, ImportTarget};
use profiler::instrumentation::{
    to_signed32, to_signed64, Emitted, FunctionProfiling, Injected, Profiling, ProfilingError,
    ProfilingIndexes,
};
use profiler::operators::OperatorSymbol;

// The module under test has three functions. The two hooks are its imports
// and take the function indices 0 and 1, so the local function with index
// `n` is called as function `n + 2`.
const START: u32 = 0;
const TAKE: u32 = 1;
const MULTISUB: u32 = 0;
const ADD_ONE: u32 = 1;
const SUB_ONE: u32 = 2;

type Body = Vec<(OperatorSymbol, i64)>;

// get_local 0; i32.const 1; i32.add
fn add_one() -> Body {
    vec![
        (OperatorSymbol::LocalGet, 0),
        (OperatorSymbol::I32Const, 1),
        (OperatorSymbol::I32Add, 0),
        (OperatorSymbol::End, 0),
    ]
}

// get_local 0; i32.const 2; i32.mul; call $sub_one; i32.const 1; i32.sub
fn multisub() -> Body {
    vec![
        (OperatorSymbol::LocalGet, 0),
        (OperatorSymbol::I32Const, 2),
        (OperatorSymbol::I32Mul, 0),
        (OperatorSymbol::Call, (SUB_ONE + 2) as i64),
        (OperatorSymbol::I32Const, 1),
        (OperatorSymbol::I32Sub, 0),
        (OperatorSymbol::End, 0),
    ]
}

// get_local 0; i32.const 1; i32.sub
fn sub_one() -> Body {
    vec![
        (OperatorSymbol::LocalGet, 0),
        (OperatorSymbol::I32Const, 1),
        (OperatorSymbol::I32Sub, 0),
        (OperatorSymbol::End, 0),
    ]
}

fn symbols(body: &Body) -> Vec<OperatorSymbol> {
    body.iter().map(|(symbol, _)| *symbol).collect()
}

fn hook_imports() -> Vec<ImportEntry> {
    vec![
        ImportEntry {
            module: "profiling".to_string(),
            field: "start_measurement".to_string(),
            target: ImportTarget::Function(START),
        },
        ImportEntry {
            module: "profiling".to_string(),
            field: "take_measurement".to_string(),
            target: ImportTarget::Function(TAKE),
        },
    ]
}

struct Fixture {
    profiling: Profiling,
    bodies: Vec<Body>,
    rewritten: Vec<Vec<Emitted>>,
    start_calls: Vec<(u32, u32)>,
    take_calls: Vec<(u32, u32, u64)>,
}

impl Fixture {
    fn new() -> Self {
        let mut profiling = Profiling::new();
        profiling.resolve(&hook_imports()).unwrap();
        let bodies = vec![multisub(), add_one(), sub_one()];
        let mut rewritten = Vec::new();
        for (index, body) in bodies.iter().enumerate() {
            let stream = profiling
                .instrument_function(index as u32, &symbols(body))
                .unwrap();
            rewritten.push(stream);
        }
        Fixture {
            profiling,
            bodies,
            rewritten,
            start_calls: Vec::new(),
            take_calls: Vec::new(),
        }
    }

    // Runs the rewritten function on one argument, as a stack machine would:
    // the injected instructions are executed like any others, and the hooks
    // note what they are called with.
    fn call(&mut self, function: u32, argument: i32) -> i32 {
        let mut stack: Vec<i64> = Vec::new();
        let stream = self.rewritten[function as usize].clone();
        for emitted in stream {
            match emitted {
                Emitted::Hook(Injected::I32Const(value)) => stack.push(value as i64),
                Emitted::Hook(Injected::I64Const(value)) => stack.push(value),
                Emitted::Hook(Injected::Call(callee)) => {
                    if callee == START {
                        let block = stack.pop().unwrap() as i32 as u32;
                        let fun = stack.pop().unwrap() as i32 as u32;
                        self.start_calls.push((fun, block));
                    } else {
                        assert_eq!(callee, TAKE);
                        let hash = stack.pop().unwrap() as u64;
                        let block = stack.pop().unwrap() as i32 as u32;
                        let fun = stack.pop().unwrap() as i32 as u32;
                        self.take_calls.push((fun, block, hash));
                    }
                }
                Emitted::Original(position) => {
                    let (symbol, operand) = self.bodies[function as usize][position];
                    match symbol {
                        OperatorSymbol::LocalGet => stack.push(argument as i64),
                        OperatorSymbol::I32Const => stack.push(operand),
                        OperatorSymbol::I32Add => {
                            let b = stack.pop().unwrap() as i32;
                            let a = stack.pop().unwrap() as i32;
                            stack.push(a.wrapping_add(b) as i64);
                        }
                        OperatorSymbol::I32Sub => {
                            let b = stack.pop().unwrap() as i32;
                            let a = stack.pop().unwrap() as i32;
                            stack.push(a.wrapping_sub(b) as i64);
                        }
                        OperatorSymbol::I32Mul => {
                            let b = stack.pop().unwrap() as i32;
                            let a = stack.pop().unwrap() as i32;
                            stack.push(a.wrapping_mul(b) as i64);
                        }
                        OperatorSymbol::Call => {
                            let passed = stack.pop().unwrap() as i32;
                            let result = self.call(operand as u32 - 2, passed);
                            stack.push(result as i64);
                        }
                        OperatorSymbol::End => {}
                        other => panic!("not part of this module: {:?}", other),
                    }
                }
            }
        }
        assert_eq!(stack.len(), 1);
        stack.pop().unwrap() as i32
    }
}

#[test]
fn instrumentation_does_not_mess_up_local_fns() {
    let mut fixture = Fixture::new();

    let result = fixture.call(ADD_ONE, 42);
    assert_eq!(result, 43);

    let result = fixture.call(MULTISUB, 4);
    assert_eq!(result, 6);
}

#[test]
fn instrumentation_registers_code_blocks() {
    let fixture = Fixture::new();

    let block_store = fixture.profiling.block_store();
    assert_eq!(block_store.len(), 4);

    // The body of $add_one.
    let expected_block = CodeBlock::from(vec![
        OperatorSymbol::LocalGet,
        OperatorSymbol::I32Const,
        OperatorSymbol::I32Add,
    ]);
    let block = block_store.get_block(expected_block.get_hash());
    assert_eq!(block, Some(&expected_block));

    // The body of $sub_one
    let expected_block = CodeBlock::from(vec![
        OperatorSymbol::LocalGet,
        OperatorSymbol::I32Const,
        OperatorSymbol::I32Sub,
    ]);
    let block = block_store.get_block(expected_block.get_hash());
    assert_eq!(block, Some(&expected_block));

    // The body of $multisub until the `call` instruction.
    let expected_block = CodeBlock::from(vec![
        OperatorSymbol::LocalGet,
        OperatorSymbol::I32Const,
        OperatorSymbol::I32Mul,
    ]);
    let block = block_store.get_block(expected_block.get_hash());
    assert_eq!(block, Some(&expected_block));

    // The body of $multisub after the `call` instruction.
    let expected_block = CodeBlock::from(vec![OperatorSymbol::I32Const, OperatorSymbol::I32Sub]);
    let block = block_store.get_block(expected_block.get_hash());
    assert_eq!(block, Some(&expected_block));
}

#[test]
fn instrumentation_calls_imports() {
    let mut fixture = Fixture::new();

    fixture.call(ADD_ONE, 42);
    fixture.call(MULTISUB, 4);

    assert_eq!(fixture.start_calls, [(1, 0), (0, 0), (2, 0), (0, 0)]);
    assert_eq!(
        fixture.take_calls,
        [
            (1, 0, 8893795678467789947),
            (0, 0, 14205319683222620312),
            (2, 0, 10205745157157101990),
            (0, 0, 13601349546502136404)
        ]
    );
}

fn indexes() -> ProfilingIndexes {
    ProfilingIndexes {
        start_measurement: 7,
        take_measurement: 9,
    }
}

fn start(function: i32) -> Vec<Injected> {
    vec![
        Injected::I32Const(function),
        Injected::I32Const(0),
        Injected::Call(7),
    ]
}

fn take(function: i32, hash: u64) -> Vec<Injected> {
    vec![
        Injected::I32Const(function),
        Injected::I32Const(0),
        Injected::I64Const(hash as i64),
        Injected::Call(9),
    ]
}

#[test]
fn single_block_function_gets_one_call_to_each_hook() {
    let mut store = BlockStore::new();
    let mut state = FunctionProfiling::new(indexes(), 5);

    assert_eq!(state.feed(&mut store, OperatorSymbol::LocalGet), start(5));
    assert_eq!(state.feed(&mut store, OperatorSymbol::I32Const), vec![]);
    assert_eq!(state.feed(&mut store, OperatorSymbol::I32Add), vec![]);
    assert_eq!(store.len(), 0);
    assert_eq!(
        state.feed(&mut store, OperatorSymbol::End),
        take(5, 8893795678467789947)
    );

    assert_eq!(store.len(), 1);
    let block = store
        .get_block(profiler::code_blocks::BlockId::new(8893795678467789947))
        .unwrap();
    assert_eq!(block.len(), 3);
    assert_eq!(
        block,
        &CodeBlock::from(vec![
            OperatorSymbol::LocalGet,
            OperatorSymbol::I32Const,
            OperatorSymbol::I32Add,
        ])
    );
}

#[test]
fn call_splits_a_function_into_two_blocks() {
    let mut store = BlockStore::new();
    let mut state = FunctionProfiling::new(indexes(), 0);

    assert_eq!(state.feed(&mut store, OperatorSymbol::LocalGet), start(0));
    assert_eq!(state.feed(&mut store, OperatorSymbol::I32Const), vec![]);
    assert_eq!(state.feed(&mut store, OperatorSymbol::I32Mul), vec![]);
    assert_eq!(
        state.feed(&mut store, OperatorSymbol::Call),
        take(0, 14205319683222620312)
    );
    assert_eq!(store.len(), 1);
    assert_eq!(state.feed(&mut store, OperatorSymbol::I32Const), start(0));
    assert_eq!(state.feed(&mut store, OperatorSymbol::I32Sub), vec![]);
    assert_eq!(
        state.feed(&mut store, OperatorSymbol::End),
        take(0, 13601349546502136404)
    );
    assert_eq!(store.len(), 2);
}

#[test]
fn boundaries_in_a_row_pass_through() {
    let mut store = BlockStore::new();
    let mut state = FunctionProfiling::new(indexes(), 1);

    assert_eq!(state.feed(&mut store, OperatorSymbol::End), vec![]);
    assert_eq!(state.feed(&mut store, OperatorSymbol::Return), vec![]);
    assert_eq!(state.feed(&mut store, OperatorSymbol::Loop), vec![]);
    assert_eq!(state.feed(&mut store, OperatorSymbol::Else), vec![]);
    assert_eq!(store.len(), 0);

    assert_eq!(state.feed(&mut store, OperatorSymbol::Nop), start(1));
    assert_eq!(
        state.feed(&mut store, OperatorSymbol::Br),
        take(1, 7912899488978770657)
    );
    assert_eq!(state.feed(&mut store, OperatorSymbol::End), vec![]);
    assert_eq!(store.len(), 1);
}

#[test]
fn every_kind_of_boundary_closes_a_block() {
    let boundaries = [
        OperatorSymbol::Loop,
        OperatorSymbol::End,
        OperatorSymbol::Else,
        OperatorSymbol::Br,
        OperatorSymbol::BrTable,
        OperatorSymbol::BrIf,
        OperatorSymbol::Call,
        OperatorSymbol::CallIndirect,
        OperatorSymbol::Return,
    ];
    for boundary in boundaries.iter() {
        let mut store = BlockStore::new();
        let mut state = FunctionProfiling::new(indexes(), 2);
        assert_eq!(state.feed(&mut store, OperatorSymbol::LocalGet), start(2));
        assert_eq!(
            state.feed(&mut store, *boundary),
            take(2, 7502529970979898288)
        );
        assert_eq!(store.len(), 1);
    }
}

#[test]
fn block_and_if_do_not_close_a_block() {
    let mut store = BlockStore::new();
    let mut state = FunctionProfiling::new(indexes(), 2);
    assert_eq!(state.feed(&mut store, OperatorSymbol::LocalGet), start(2));
    assert_eq!(state.feed(&mut store, OperatorSymbol::Block), vec![]);
    assert_eq!(state.feed(&mut store, OperatorSymbol::If), vec![]);
    assert_eq!(state.feed(&mut store, OperatorSymbol::Unreachable), vec![]);
    assert_eq!(store.len(), 0);
    let closing = state.feed(&mut store, OperatorSymbol::End);
    assert_eq!(closing.len(), 4);
    let expected = CodeBlock::from(vec![
        OperatorSymbol::LocalGet,
        OperatorSymbol::Block,
        OperatorSymbol::If,
        OperatorSymbol::Unreachable,
    ]);
    assert_eq!(
        closing[2],
        Injected::I64Const(expected.get_hash().as_u64() as i64)
    );
    assert_eq!(store.get_block(expected.get_hash()), Some(&expected));
}

#[test]
fn the_block_number_stays_zero() {
    let mut store = BlockStore::new();
    let mut state = FunctionProfiling::new(indexes(), 3);
    for _ in 0..5 {
        let opening = state.feed(&mut store, OperatorSymbol::Nop);
        assert_eq!(opening[1], Injected::I32Const(0));
        let closing = state.feed(&mut store, OperatorSymbol::Call);
        assert_eq!(closing[1], Injected::I32Const(0));
    }
    assert_eq!(store.len(), 1);
}

#[test]
fn two_functions_share_one_store() {
    let mut store = BlockStore::new();
    let mut first = FunctionProfiling::new(indexes(), 0);
    let mut second = FunctionProfiling::new(indexes(), 1);

    first.feed(&mut store, OperatorSymbol::LocalGet);
    second.feed(&mut store, OperatorSymbol::LocalGet);
    first.feed(&mut store, OperatorSymbol::I32Const);
    second.feed(&mut store, OperatorSymbol::I32Const);
    first.feed(&mut store, OperatorSymbol::I32Sub);
    second.feed(&mut store, OperatorSymbol::I32Sub);
    assert_eq!(
        first.feed(&mut store, OperatorSymbol::End),
        take(0, 10205745157157101990)
    );
    assert_eq!(store.len(), 1);
    assert_eq!(
        second.feed(&mut store, OperatorSymbol::End),
        take(1, 10205745157157101990)
    );
    assert_eq!(store.len(), 1);
}

#[test]
fn large_indices_are_passed_as_negative_numbers() {
    assert_eq!(to_signed32(0), 0);
    assert_eq!(to_signed32(1), 1);
    assert_eq!(to_signed32(0x7fff_ffff), i32::MAX);
    assert_eq!(to_signed32(0x8000_0000), i32::MIN);
    assert_eq!(to_signed32(u32::MAX), -1);
    assert_eq!(to_signed64(0), 0);
    assert_eq!(to_signed64(0x7fff_ffff_ffff_ffff), i64::MAX);
    assert_eq!(to_signed64(0x8000_0000_0000_0000), i64::MIN);
    assert_eq!(to_signed64(u64::MAX), -1);
    assert_eq!(to_signed64(8893795678467789947), 8893795678467789947);
    assert_eq!(to_signed64(14205319683222620312), -4241424390486931304);
    assert_eq!(to_signed64(10205745157157101990), 10205745157157101990u64 as i64);

    let mut store = BlockStore::new();
    let mut state = FunctionProfiling::new(indexes(), u32::MAX);
    assert_eq!(
        state.feed(&mut store, OperatorSymbol::Nop),
        vec![
            Injected::I32Const(-1),
            Injected::I32Const(0),
            Injected::Call(7)
        ]
    );
}

#[test]
fn rewritten_stream_of_a_single_block() {
    let mut profiling = Profiling::new();
    profiling.resolve(&hook_imports()).unwrap();
    let stream = profiling
        .instrument_function(4, &symbols(&add_one()))
        .unwrap();
    assert_eq!(
        stream,
        vec![
            Emitted::Hook(Injected::I32Const(4)),
            Emitted::Hook(Injected::I32Const(0)),
            Emitted::Hook(Injected::Call(START)),
            Emitted::Original(0),
            Emitted::Original(1),
            Emitted::Original(2),
            Emitted::Hook(Injected::I32Const(4)),
            Emitted::Hook(Injected::I32Const(0)),
            Emitted::Hook(Injected::I64Const(8893795678467789947)),
            Emitted::Hook(Injected::Call(TAKE)),
            Emitted::Original(3),
        ]
    );
    assert_eq!(profiling.block_store().len(), 1);
}

#[test]
fn rewritten_stream_of_two_blocks() {
    let mut profiling = Profiling::new();
    profiling.resolve(&hook_imports()).unwrap();
    let stream = profiling
        .instrument_function(0, &symbols(&multisub()))
        .unwrap();
    assert_eq!(
        stream,
        vec![
            Emitted::Hook(Injected::I32Const(0)),
            Emitted::Hook(Injected::I32Const(0)),
            Emitted::Hook(Injected::Call(START)),
            Emitted::Original(0),
            Emitted::Original(1),
            Emitted::Original(2),
            Emitted::Hook(Injected::I32Const(0)),
            Emitted::Hook(Injected::I32Const(0)),
            Emitted::Hook(Injected::I64Const(14205319683222620312u64 as i64)),
            Emitted::Hook(Injected::Call(TAKE)),
            Emitted::Original(3),
            Emitted::Hook(Injected::I32Const(0)),
            Emitted::Hook(Injected::I32Const(0)),
            Emitted::Hook(Injected::Call(START)),
            Emitted::Original(4),
            Emitted::Original(5),
            Emitted::Hook(Injected::I32Const(0)),
            Emitted::Hook(Injected::I32Const(0)),
            Emitted::Hook(Injected::I64Const(13601349546502136404u64 as i64)),
            Emitted::Hook(Injected::Call(TAKE)),
            Emitted::Original(6),
        ]
    );
    assert_eq!(profiling.block_store().len(), 2);
}

#[test]
fn removing_the_hooks_gives_the_original_back() {
    let mut profiling = Profiling::new();
    profiling.resolve(&hook_imports()).unwrap();
    let body = vec![
        OperatorSymbol::Block,
        OperatorSymbol::LocalGet,
        OperatorSymbol::BrIf,
        OperatorSymbol::Loop,
        OperatorSymbol::I32Const,
        OperatorSymbol::LocalSet,
        OperatorSymbol::Br,
        OperatorSymbol::End,
        OperatorSymbol::End,
        OperatorSymbol::If,
        OperatorSymbol::Nop,
        OperatorSymbol::Else,
        OperatorSymbol::Nop,
        OperatorSymbol::End,
        OperatorSymbol::CallIndirect,
        OperatorSymbol::Return,
        OperatorSymbol::End,
    ];
    let stream = profiling.instrument_function(9, &body).unwrap();
    let kept: Vec<usize> = stream
        .iter()
        .filter_map(|emitted| match emitted {
            Emitted::Original(position) => Some(*position),
            Emitted::Hook(_) => None,
        })
        .collect();
    let all: Vec<usize> = (0..body.len()).collect();
    assert_eq!(kept, all);

    let starts = stream
        .iter()
        .filter(|emitted| **emitted == Emitted::Hook(Injected::Call(START)))
        .count();
    let takes = stream
        .iter()
        .filter(|emitted| **emitted == Emitted::Hook(Injected::Call(TAKE)))
        .count();
    assert_eq!(starts, 4);
    assert_eq!(takes, 4);
    // [block, local.get], [i32.const, local.set], [if, nop] and [nop].
    assert_eq!(profiling.block_store().len(), 4);
}

#[test]
fn empty_body_is_left_empty() {
    let mut profiling = Profiling::new();
    profiling.resolve(&hook_imports()).unwrap();
    assert_eq!(profiling.instrument_function(0, &Vec::new()), Ok(vec![]));
    assert_eq!(profiling.block_store().len(), 0);
}

#[test]
fn body_of_boundaries_only_gets_no_hooks() {
    let mut profiling = Profiling::new();
    profiling.resolve(&hook_imports()).unwrap();
    let body = vec![OperatorSymbol::Return, OperatorSymbol::End];
    assert_eq!(
        profiling.instrument_function(0, &body),
        Ok(vec![Emitted::Original(0), Emitted::Original(1)])
    );
    assert_eq!(profiling.block_store().len(), 0);
}

#[test]
fn body_that_ends_inside_a_block_is_refused() {
    let mut profiling = Profiling::new();
    profiling.resolve(&hook_imports()).unwrap();

    let body = vec![
        OperatorSymbol::LocalGet,
        OperatorSymbol::I32Const,
        OperatorSymbol::I32Add,
    ];
    assert_eq!(
        profiling.instrument_function(0, &body),
        Err(ProfilingError::UnclosedBlock)
    );
    assert_eq!(profiling.block_store().len(), 0);

    let body = vec![
        OperatorSymbol::LocalGet,
        OperatorSymbol::Call,
        OperatorSymbol::Drop,
    ];
    assert_eq!(
        profiling.instrument_function(0, &body),
        Err(ProfilingError::UnclosedBlock)
    );
    assert_eq!(profiling.block_store().len(), 0);

    let body = vec![OperatorSymbol::Nop];
    assert_eq!(
        profiling.instrument_function(0, &body),
        Err(ProfilingError::UnclosedBlock)
    );
}

#[test]
fn feeding_through_the_module_fills_its_store() {
    let mut profiling = Profiling::new();
    profiling.resolve(&hook_imports()).unwrap();
    let mut state = profiling.generate_function_middleware(6);

    assert_eq!(
        profiling.feed(&mut state, OperatorSymbol::I32Const),
        vec![
            Injected::I32Const(6),
            Injected::I32Const(0),
            Injected::Call(START)
        ]
    );
    assert_eq!(profiling.feed(&mut state, OperatorSymbol::I32Sub), vec![]);
    assert_eq!(profiling.block_store().len(), 0);
    assert_eq!(
        profiling.feed(&mut state, OperatorSymbol::Return),
        vec![
            Injected::I32Const(6),
            Injected::I32Const(0),
            Injected::I64Const(13601349546502136404u64 as i64),
            Injected::Call(TAKE)
        ]
    );
    assert_eq!(profiling.block_store().len(), 1);
    assert_eq!(
        profiling.indexes(),
        Some(ProfilingIndexes {
            start_measurement: START,
            take_measurement: TAKE
        })
    );
}

#[test]
fn all_functions_of_a_module_call_the_same_hooks() {
    let mut profiling = Profiling::new();
    let imports = vec![
        ImportEntry {
            module: "profiling".to_string(),
            field: "take_measurement".to_string(),
            target: ImportTarget::Function(31),
        },
        ImportEntry {
            module: "profiling".to_string(),
            field: "start_measurement".to_string(),
            target: ImportTarget::Function(30),
        },
    ];
    assert_eq!(profiling.resolve(&imports), Ok(()));
    for function in 0..10u32 {
        let mut state = profiling.generate_function_middleware(function);
        let opening = profiling.feed(&mut state, OperatorSymbol::Nop);
        assert_eq!(
            opening,
            vec![
                Injected::I32Const(function as i32),
                Injected::I32Const(0),
                Injected::Call(30)
            ]
        );
        let closing = profiling.feed(&mut state, OperatorSymbol::End);
        assert_eq!(closing[0], Injected::I32Const(function as i32));
        assert_eq!(closing[3], Injected::Call(31));
    }
    assert_eq!(profiling.block_store().len(), 1);
}

#[test]
fn finish_accepts_a_function_that_ends_on_a_boundary() {
    let mut store = BlockStore::new();
    let mut state = FunctionProfiling::new(indexes(), 0);
    assert_eq!(state.finish(), Ok(()));
    state.feed(&mut store, OperatorSymbol::LocalGet);
    state.feed(&mut store, OperatorSymbol::End);
    assert_eq!(state.finish(), Ok(()));
    state.feed(&mut store, OperatorSymbol::End);
    assert_eq!(state.finish(), Ok(()));
}

#[test]
fn finish_refuses_a_function_that_ends_inside_a_block() {
    let mut store = BlockStore::new();
    let mut state = FunctionProfiling::new(indexes(), 0);
    state.feed(&mut store, OperatorSymbol::LocalGet);
    assert_eq!(state.finish(), Err(ProfilingError::UnclosedBlock));
    state.feed(&mut store, OperatorSymbol::Call);
    assert_eq!(state.finish(), Ok(()));
    state.feed(&mut store, OperatorSymbol::Drop);
    assert_eq!(state.finish(), Err(ProfilingError::UnclosedBlock));
    assert_eq!(store.len(), 1);
}
