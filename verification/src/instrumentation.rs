//! The rewrite of function bodies, and the profiling of a module.
//!
//! Instructions are fed one at a time. A body instruction that follows a
//! boundary opens a block, and a call to the start hook goes in front of it. A
//! boundary instruction that follows a body instruction closes the block: the
//! block is registered in the store, and a call to the end hook with the
//! block's hash goes in front of the boundary.
//!
//! A [`Profiling`] belongs to one module. It is bound once to the two hooks
//! that the module imports, hands out the state for each function of the
//! module, and keeps the store that all of them register their blocks in.
//! Callers that compile functions on several threads keep it behind a lock.

use crate::code_blocks::{block_hash, registered, BlockStore};
use crate::imports::{
    declared_imports, find_hook, find_import, import_views, read_imports, start_params,
    take_params, ImportEntry, ImportView, ValueType, START_MEASUREMENT, TAKE_MEASUREMENT,
};
use crate::operators::OperatorSymbol;
use wasmer_types::ModuleInfo;
use vstd::prelude::*;

verus! {

/// The function indices of the two measurement hooks in one module.
#[derive(Debug, Clone, Copy, PartialEq, Eq, Structural)]
pub struct ProfilingIndexes {
    /// The hook called when a block is entered.
    pub start_measurement: u32,
    /// The hook called when a block is left.
    pub take_measurement: u32,
}

/// An instruction that the rewrite adds to a function body.
#[derive(Debug, Clone, Copy, PartialEq, Eq, Structural)]
pub enum Injected {
    /// Pushes a 32-bit constant.
    I32Const(i32),
    /// Pushes a 64-bit constant.
    I64Const(i64),
    /// Calls the function with the given index.
    Call(u32),
}

/// One instruction of a rewritten function body.
#[derive(Debug, Clone, Copy, PartialEq, Eq, Structural)]
pub enum Emitted {
    /// An instruction that the rewrite added.
    Hook(Injected),
    /// The instruction at the given position of the original body, unchanged.
    Original(usize),
}

/// Why a module could not be bound or a function body not be rewritten.
#[derive(Debug, Clone, Copy, PartialEq, Eq, Structural)]
pub enum ProfilingError {
    /// The hooks have already been resolved, for another module.
    AlreadyResolved,
    /// The module does not import the start hook as a function.
    MissingStartMeasurement,
    /// The module does not import the end hook as a function.
    MissingTakeMeasurement,
    /// The function body ends inside a block, with no boundary to close it.
    UnclosedBlock,
}

/// The signed number with the same 32 bits as `x`.
pub open spec fn signed32(x: u32) -> i32 {
    if x <= 0x7fff_ffff {
        x as i32
    } else {
        (x - 0x1_0000_0000) as i32
    }
}

/// The signed number with the same 64 bits as `x`.
pub open spec fn signed64(x: u64) -> i64 {
    if x <= 0x7fff_ffff_ffff_ffff {
        x as i64
    } else {
        (x - 0x1_0000_0000_0000_0000) as i64
    }
}

/// Reinterprets the bits of `x` as a signed number.
pub fn to_signed32(x: u32) -> (r: i32)
    ensures
        r == signed32(x),
{
    if x <= 0x7fff_ffff {
        x as i32
    } else {
        let below: u32 = u32::MAX - x;
        -1 - (below as i32)
    }
}

/// Reinterprets the bits of `x` as a signed number.
pub fn to_signed64(x: u64) -> (r: i64)
    ensures
        r == signed64(x),
{
    if x <= 0x7fff_ffff_ffff_ffff {
        x as i64
    } else {
        let below: u64 = u64::MAX - x;
        -1 - (below as i64)
    }
}

/// The call to the start hook for block `block` of function `function`: both
/// numbers are pushed, then the hook is called.
pub open spec fn start_call(indexes: ProfilingIndexes, function: u32, block: u32) -> Seq<
    Injected,
> {
    seq![
        Injected::I32Const(signed32(function)),
        Injected::I32Const(signed32(block)),
        Injected::Call(indexes.start_measurement),
    ]
}

/// The call to the end hook for block `block` of function `function`, whose
/// body has the content hash `hash`: the three numbers are pushed, then the
/// hook is called.
pub open spec fn take_call(indexes: ProfilingIndexes, function: u32, block: u32, hash: u64) -> Seq<
    Injected,
> {
    seq![
        Injected::I32Const(signed32(function)),
        Injected::I32Const(signed32(block)),
        Injected::I64Const(signed64(hash)),
        Injected::Call(indexes.take_measurement),
    ]
}

/// The types of the values that a run of injected instructions leaves on the
/// stack for a call to take: one for each constant, in order.
pub open spec fn pushed(instructions: Seq<Injected>) -> Seq<ValueType>
    decreases instructions.len(),
{
    if instructions.len() == 0 {
        Seq::empty()
    } else {
        match instructions.last() {
            Injected::I32Const(_) => pushed(instructions.drop_last()).push(ValueType::I32),
            Injected::I64Const(_) => pushed(instructions.drop_last()).push(ValueType::I64),
            Injected::Call(_) => pushed(instructions.drop_last()),
        }
    }
}

/// An injected call leaves the stack as it found it: it pushes exactly the
/// arguments that the hook is declared with, and ends with the call that
/// takes them.
pub proof fn lemma_calls_match_hooks(
    indexes: ProfilingIndexes,
    function: u32,
    block: u32,
    hash: u64,
)
    ensures
        pushed(start_call(indexes, function, block).drop_last()) == start_params(),
        start_call(indexes, function, block).last() == Injected::Call(indexes.start_measurement),
        pushed(take_call(indexes, function, block, hash).drop_last()) == take_params(),
        take_call(indexes, function, block, hash).last() == Injected::Call(
            indexes.take_measurement,
        ),
{
    reveal_with_fuel(pushed, 5);
}

/// What goes in front of `operator` when the symbols in `pending` have been
/// seen since the last boundary.
pub open spec fn injected_before(
    indexes: ProfilingIndexes,
    function: u32,
    block: u32,
    pending: Seq<OperatorSymbol>,
    operator: OperatorSymbol,
) -> Seq<Injected> {
    if operator.boundary() {
        if pending.len() > 0 {
            take_call(indexes, function, block, block_hash(pending))
        } else {
            Seq::empty()
        }
    } else if pending.len() == 0 {
        start_call(indexes, function, block)
    } else {
        Seq::empty()
    }
}

/// The symbols seen since the last boundary, once `operator` has been fed.
pub open spec fn pending_after(pending: Seq<OperatorSymbol>, operator: OperatorSymbol) -> Seq<
    OperatorSymbol,
> {
    if operator.boundary() {
        Seq::empty()
    } else {
        pending.push(operator)
    }
}

/// What the store holds once `operator` has been fed: a boundary registers
/// the pending block, if there is one.
pub open spec fn blocks_after(
    blocks: Map<u64, Seq<OperatorSymbol>>,
    pending: Seq<OperatorSymbol>,
    operator: OperatorSymbol,
) -> Map<u64, Seq<OperatorSymbol>> {
    if operator.boundary() && pending.len() > 0 {
        registered(blocks, pending)
    } else {
        blocks
    }
}

/// The state of the rewrite of one function.
#[derive(Debug)]
pub struct FunctionProfiling {
    accumulated_ops: Vec<OperatorSymbol>,
    indexes: ProfilingIndexes,
    block_count: u32,
    fn_index: u32,
}

impl FunctionProfiling {
    /// The symbols seen since the last boundary: the block being built.
    pub closed spec fn pending(&self) -> Seq<OperatorSymbol> {
        self.accumulated_ops@
    }

    /// The hooks that the injected calls go to.
    pub closed spec fn indexes(&self) -> ProfilingIndexes {
        self.indexes
    }

    /// The block number passed to the hooks.
    pub closed spec fn block_count(&self) -> u32 {
        self.block_count
    }

    /// The index of the function being rewritten.
    pub closed spec fn function_index(&self) -> u32 {
        self.fn_index
    }

    /// The state at the start of the function with index `fn_index`: no
    /// pending block, block number zero.
    pub fn new(indexes: ProfilingIndexes, fn_index: u32) -> (state: FunctionProfiling)
        ensures
            state.pending() == Seq::<OperatorSymbol>::empty(),
            state.indexes() == indexes,
            state.block_count() == 0,
            state.function_index() == fn_index,
    {
        FunctionProfiling { accumulated_ops: Vec::new(), indexes, block_count: 0, fn_index }
    }

    /// Ends the function. A function that ends inside a block, with no
    /// boundary to close it, is refused.
    pub fn finish(&self) -> (result: Result<(), ProfilingError>)
        ensures
            result == if self.pending().len() == 0 {
                Ok::<(), ProfilingError>(())
            } else {
                Err::<(), ProfilingError>(ProfilingError::UnclosedBlock)
            },
    {
        if self.accumulated_ops.len() == 0 {
            Ok(())
        } else {
            Err(ProfilingError::UnclosedBlock)
        }
    }

    /// Takes the next instruction of the function and returns what has to be
    /// emitted in front of it. The instruction itself is to be emitted
    /// unchanged after that.
    pub fn feed(&mut self, store: &mut BlockStore, operator: OperatorSymbol) -> (injected: Vec<
        Injected,
    >)
        ensures
            injected@ == injected_before(
                old(self).indexes(),
                old(self).function_index(),
                old(self).block_count(),
                old(self).pending(),
                operator,
            ),
            final(self).pending() == pending_after(old(self).pending(), operator),
            final(store)@ == blocks_after(old(store)@, old(self).pending(), operator),
            final(self).indexes() == old(self).indexes(),
            final(self).function_index() == old(self).function_index(),
            final(self).block_count() == old(self).block_count(),
    {
        let mut injected: Vec<Injected> = Vec::new();
        if operator.is_boundary() {
            if self.accumulated_ops.len() > 0 {
                let mut block: Vec<OperatorSymbol> = Vec::new();
                std::mem::swap(&mut self.accumulated_ops, &mut block);
                let block_id = store.register_block(block);
                injected.push(Injected::I32Const(to_signed32(self.fn_index)));
                injected.push(Injected::I32Const(to_signed32(self.block_count)));
                injected.push(Injected::I64Const(to_signed64(block_id.as_u64())));
                injected.push(Injected::Call(self.indexes.take_measurement));
            }
        } else {
            if self.accumulated_ops.len() == 0 {
                injected.push(Injected::I32Const(to_signed32(self.fn_index)));
                injected.push(Injected::I32Const(to_signed32(self.block_count)));
                injected.push(Injected::Call(self.indexes.start_measurement));
            }
            self.accumulated_ops.push(operator);
        }
        injected
    }
}

/// Where the block that reaches position `at` of `body` begins: the start of
/// the run of body instructions that ends just before `at`. It is `at` itself
/// when no block is open there.
pub open spec fn block_start(body: Seq<OperatorSymbol>, at: int) -> int
    decreases at,
{
    if at <= 0 {
        0
    } else if body[at - 1].boundary() {
        at
    } else {
        block_start(body, at - 1)
    }
}

/// The symbols of the block that is open when the rewrite reaches position
/// `at` of `body`.
pub open spec fn pending_at(body: Seq<OperatorSymbol>, at: int) -> Seq<OperatorSymbol> {
    body.subrange(block_start(body, at), at)
}

/// What the rewrite puts in front of the instruction at position `at`. Every
/// block of a function is reported under block number zero.
pub open spec fn injected_at(
    indexes: ProfilingIndexes,
    function: u32,
    body: Seq<OperatorSymbol>,
    at: int,
) -> Seq<Injected> {
    injected_before(indexes, function, 0, pending_at(body, at), body[at])
}

/// The rewritten form of the first `upto` instructions of `body`: each
/// instruction in its place, with the injected calls in front of it.
pub open spec fn rewritten(
    indexes: ProfilingIndexes,
    function: u32,
    body: Seq<OperatorSymbol>,
    upto: int,
) -> Seq<Emitted>
    decreases upto,
{
    if upto <= 0 {
        Seq::empty()
    } else {
        rewritten(indexes, function, body, upto - 1) + injected_at(
            indexes,
            function,
            body,
            upto - 1,
        ).map_values(|hook: Injected| Emitted::Hook(hook)) + seq![
            Emitted::Original((upto - 1) as usize),
        ]
    }
}

/// What the store holds once the first `upto` instructions of `body` have
/// been rewritten: every block closed so far has been registered, in order.
pub open spec fn blocks_registered(
    blocks: Map<u64, Seq<OperatorSymbol>>,
    body: Seq<OperatorSymbol>,
    upto: int,
) -> Map<u64, Seq<OperatorSymbol>>
    decreases upto,
{
    if upto <= 0 {
        blocks
    } else {
        blocks_after(
            blocks_registered(blocks, body, upto - 1),
            pending_at(body, upto - 1),
            body[upto - 1],
        )
    }
}

/// A body is well closed when it does not end inside a block.
pub open spec fn well_closed(body: Seq<OperatorSymbol>) -> bool {
    body.len() == 0 || body.last().boundary()
}

/// The positions of the original instructions in a rewritten stream, in the
/// order in which they occur: the stream with the injected calls removed.
pub open spec fn originals(stream: Seq<Emitted>) -> Seq<usize>
    decreases stream.len(),
{
    if stream.len() == 0 {
        Seq::empty()
    } else {
        match stream.last() {
            Emitted::Original(position) => originals(stream.drop_last()).push(position),
            Emitted::Hook(_) => originals(stream.drop_last()),
        }
    }
}

/// The block that is open at `at` begins at or before `at`, and holds body
/// instructions only.
pub proof fn lemma_block_start(body: Seq<OperatorSymbol>, at: int)
    requires
        0 <= at <= body.len(),
    ensures
        0 <= block_start(body, at) <= at,
        block_start(body, at) == 0 || body[block_start(body, at) - 1].boundary(),
        forall|k: int| block_start(body, at) <= k < at ==> !(#[trigger] body[k]).boundary(),
    decreases at,
{
    if at > 0 && !body[at - 1].boundary() {
        lemma_block_start(body, at - 1);
    }
}

/// Feeding the instruction at `at` takes the open block at `at` to the open
/// block at `at + 1`.
pub proof fn lemma_pending_step(body: Seq<OperatorSymbol>, at: int)
    requires
        0 <= at < body.len(),
    ensures
        pending_at(body, at + 1) == pending_after(pending_at(body, at), body[at]),
{
    lemma_block_start(body, at);
}

/// The injected calls are not original instructions.
pub proof fn lemma_originals_of_hooks(hooks: Seq<Injected>)
    ensures
        originals(hooks.map_values(|hook: Injected| Emitted::Hook(hook))) == Seq::<usize>::empty(),
    decreases hooks.len(),
{
    let stream = hooks.map_values(|hook: Injected| Emitted::Hook(hook));
    if hooks.len() > 0 {
        lemma_originals_of_hooks(hooks.drop_last());
        assert(stream.drop_last() =~= hooks.drop_last().map_values(
            |hook: Injected| Emitted::Hook(hook),
        ));
    }
}

/// Removing the injected calls from two streams in a row removes them from
/// each.
pub proof fn lemma_originals_concat(left: Seq<Emitted>, right: Seq<Emitted>)
    ensures
        originals(left + right) == originals(left) + originals(right),
    decreases right.len(),
{
    if right.len() > 0 {
        lemma_originals_concat(left, right.drop_last());
        assert((left + right).drop_last() =~= left + right.drop_last());
    }
}

/// The rewrite keeps the program: with the injected calls removed, the
/// rewritten stream is the original one, every instruction once and in order.
pub proof fn lemma_rewrite_keeps_instructions(
    indexes: ProfilingIndexes,
    function: u32,
    body: Seq<OperatorSymbol>,
    upto: int,
)
    requires
        0 <= upto <= body.len() <= usize::MAX,
    ensures
        originals(rewritten(indexes, function, body, upto)) == Seq::new(
            upto as nat,
            |position: int| position as usize,
        ),
    decreases upto,
{
    if upto > 0 {
        lemma_rewrite_keeps_instructions(indexes, function, body, upto - 1);
        let before = rewritten(indexes, function, body, upto - 1);
        let hooks = injected_at(indexes, function, body, upto - 1).map_values(
            |hook: Injected| Emitted::Hook(hook),
        );
        let this = seq![Emitted::Original((upto - 1) as usize)];
        lemma_originals_of_hooks(injected_at(indexes, function, body, upto - 1));
        lemma_originals_concat(before, hooks);
        lemma_originals_concat(before + hooks, this);
        assert(originals(this.drop_last()) =~= Seq::<usize>::empty());
    }
}

/// Every closed block gets one call to each hook. When the instructions from
/// `first` up to `close` are body instructions that follow a boundary (or
/// begin the function), and a boundary stands at `close`, then a start call
/// is put in front of `first`, nothing is put in front of the other
/// instructions of the block, and an end call with the block's hash is put in
/// front of `close`. Both calls carry the same function index and block
/// number.
pub proof fn lemma_block_closure(
    indexes: ProfilingIndexes,
    function: u32,
    body: Seq<OperatorSymbol>,
    first: int,
    close: int,
)
    requires
        0 <= first < close < body.len(),
        first == 0 || body[first - 1].boundary(),
        forall|k: int| first <= k < close ==> !(#[trigger] body[k]).boundary(),
        body[close].boundary(),
    ensures
        injected_at(indexes, function, body, first) == start_call(indexes, function, 0),
        forall|k: int|
            first < k < close ==> #[trigger] injected_at(indexes, function, body, k)
                == Seq::<Injected>::empty(),
        injected_at(indexes, function, body, close) == take_call(
            indexes,
            function,
            0,
            block_hash(body.subrange(first, close)),
        ),
{
    lemma_block_start_of_run(body, first, first);
    assert forall|k: int| first < k < close implies #[trigger] injected_at(
        indexes,
        function,
        body,
        k,
    ) == Seq::<Injected>::empty() by {
        lemma_block_start_of_run(body, first, k);
    }
    lemma_block_start_of_run(body, first, close);
}

/// Inside a run of body instructions that begins at `first`, the open block
/// begins at `first`.
pub proof fn lemma_block_start_of_run(body: Seq<OperatorSymbol>, first: int, at: int)
    requires
        0 <= first <= at <= body.len(),
        first == 0 || body[first - 1].boundary(),
        forall|k: int| first <= k < at ==> !(#[trigger] body[k]).boundary(),
    ensures
        block_start(body, at) == first,
    decreases at - first,
{
    if at > first {
        lemma_block_start_of_run(body, first, at - 1);
    }
}

/// A boundary gets an end call only when it closes a block, and a body
/// instruction gets a start call only when it opens one: nothing is injected
/// between two boundaries in a row, nor inside a block.
pub proof fn lemma_injected_only_at_block_edges(
    indexes: ProfilingIndexes,
    function: u32,
    body: Seq<OperatorSymbol>,
    at: int,
)
    requires
        0 <= at < body.len(),
    ensures
        (at == 0 || body[at - 1].boundary()) == (pending_at(body, at).len() == 0),
        body[at].boundary() && (at == 0 || body[at - 1].boundary()) ==> injected_at(
            indexes,
            function,
            body,
            at,
        ) == Seq::<Injected>::empty(),
        !body[at].boundary() && at > 0 && !body[at - 1].boundary() ==> injected_at(
            indexes,
            function,
            body,
            at,
        ) == Seq::<Injected>::empty(),
{
    lemma_block_start(body, at);
    if at > 0 && !body[at - 1].boundary() {
        lemma_block_start(body, at - 1);
    }
}

/// Rewriting more of a body never takes a block out of the store, nor
/// changes a block that is in it.
pub proof fn lemma_registered_blocks_stay(
    blocks: Map<u64, Seq<OperatorSymbol>>,
    body: Seq<OperatorSymbol>,
    upto: int,
    hash: u64,
)
    requires
        blocks.contains_key(hash),
    ensures
        blocks_registered(blocks, body, upto).contains_key(hash),
        blocks_registered(blocks, body, upto)[hash] == blocks[hash],
    decreases upto,
{
    if upto > 0 {
        lemma_registered_blocks_stay(blocks, body, upto - 1, hash);
    }
}

/// Every closed block is in the store afterwards: once the rewrite has
/// passed the boundary at `close`, the hash of the block from `first` up to
/// `close` is a key of the store.
pub proof fn lemma_closed_blocks_are_registered(
    blocks: Map<u64, Seq<OperatorSymbol>>,
    body: Seq<OperatorSymbol>,
    upto: int,
    first: int,
    close: int,
)
    requires
        0 <= first < close < upto <= body.len(),
        first == 0 || body[first - 1].boundary(),
        forall|k: int| first <= k < close ==> !(#[trigger] body[k]).boundary(),
        body[close].boundary(),
    ensures
        blocks_registered(blocks, body, upto).contains_key(
            block_hash(body.subrange(first, close)),
        ),
    decreases upto,
{
    if upto - 1 == close {
        lemma_block_start_of_run(body, first, close);
    } else {
        lemma_closed_blocks_are_registered(blocks, body, upto - 1, first, close);
    }
}

/// Nothing but closed blocks is added to the store, and none of them is
/// empty: a hash that the rewrite added is the hash of the block that some
/// boundary closed, and that block is what is stored under it.
pub proof fn lemma_registered_blocks_are_closed(
    blocks: Map<u64, Seq<OperatorSymbol>>,
    body: Seq<OperatorSymbol>,
    upto: int,
    hash: u64,
)
    requires
        0 <= upto <= body.len(),
        !blocks.contains_key(hash),
        blocks_registered(blocks, body, upto).contains_key(hash),
    ensures
        exists|close: int|
            {
                &&& 0 <= close < upto
                &&& body[close].boundary()
                &&& (#[trigger] pending_at(body, close)).len() > 0
                &&& block_hash(pending_at(body, close)) == hash
                &&& blocks_registered(blocks, body, upto)[hash] == pending_at(body, close)
            },
    decreases upto,
{
    if upto > 0 {
        if blocks_registered(blocks, body, upto - 1).contains_key(hash) {
            lemma_registered_blocks_are_closed(blocks, body, upto - 1, hash);
        } else {
            // The boundary at `upto - 1` added the hash.
            assert(pending_at(body, upto - 1).len() > 0);
        }
    }
}

/// The hooks that an import list declares: the first function import under
/// each of the two names. The start hook is looked for first.
pub open spec fn binding_of(imports: Seq<ImportView>) -> Result<ProfilingIndexes, ProfilingError> {
    match find_hook(imports, START_MEASUREMENT@, 0) {
        None => Err(ProfilingError::MissingStartMeasurement),
        Some(start) => match find_hook(imports, TAKE_MEASUREMENT@, 0) {
            None => Err(ProfilingError::MissingTakeMeasurement),
            Some(take) => Ok(
                ProfilingIndexes { start_measurement: start, take_measurement: take },
            ),
        },
    }
}

/// The binding after an attempt to resolve it against `imports`: a binding
/// that is resolved stays as it is, and one that is not becomes resolved when
/// the imports declare both hooks.
pub open spec fn binding_after(
    binding: Option<ProfilingIndexes>,
    imports: Seq<ImportView>,
) -> Option<ProfilingIndexes> {
    match binding {
        Some(_) => binding,
        None => match binding_of(imports) {
            Ok(indexes) => Some(indexes),
            Err(_) => None,
        },
    }
}

/// The answer to an attempt to resolve `binding` against `imports`.
pub open spec fn resolve_result(
    binding: Option<ProfilingIndexes>,
    imports: Seq<ImportView>,
) -> Result<(), ProfilingError> {
    match binding {
        Some(_) => Err(ProfilingError::AlreadyResolved),
        None => match binding_of(imports) {
            Ok(_) => Ok(()),
            Err(error) => Err(error),
        },
    }
}

/// A binding is resolved at most once: after a successful resolution, every
/// further attempt, against whatever imports, is refused and leaves the
/// binding as it is.
pub proof fn lemma_resolve_once(first: Seq<ImportView>, second: Seq<ImportView>)
    requires
        resolve_result(None, first) is Ok,
    ensures
        binding_after(None, first) is Some,
        resolve_result(binding_after(None, first), second) == Err::<(), ProfilingError>(
            ProfilingError::AlreadyResolved,
        ),
        binding_after(binding_after(None, first), second) == binding_after(None, first),
{
}

/// The profiling of one module: the store of its blocks, and the hooks once
/// they have been resolved.
#[derive(Debug)]
pub struct Profiling {
    block_store: BlockStore,
    indexes: Option<ProfilingIndexes>,
}

impl Profiling {
    /// The hooks, once resolved.
    pub closed spec fn binding(&self) -> Option<ProfilingIndexes> {
        self.indexes
    }

    /// The blocks registered so far, by hash.
    pub closed spec fn blocks(&self) -> Map<u64, Seq<OperatorSymbol>> {
        self.block_store@
    }

    /// A profiling with an empty store, not bound to any module.
    pub fn new() -> (profiling: Profiling)
        ensures
            profiling.binding() == None::<ProfilingIndexes>,
            profiling.blocks() == Map::<u64, Seq<OperatorSymbol>>::empty(),
    {
        Profiling { block_store: BlockStore::new(), indexes: None }
    }

    /// The hooks, once resolved.
    pub fn indexes(&self) -> (indexes: Option<ProfilingIndexes>)
        ensures
            indexes == self.binding(),
    {
        self.indexes
    }

    /// The store of the blocks registered so far.
    pub fn block_store(&self) -> (store: &BlockStore)
        ensures
            store@ == self.blocks(),
    {
        &self.block_store
    }

    /// Binds the profiling to the module with the given import list. Fails
    /// when it is already bound, or when a hook is missing from the list.
    pub fn resolve(&mut self, imports: &Vec<ImportEntry>) -> (result: Result<(), ProfilingError>)
        ensures
            result == resolve_result(old(self).binding(), import_views(imports@)),
            final(self).binding() == binding_after(old(self).binding(), import_views(imports@)),
            final(self).blocks() == old(self).blocks(),
    {
        if self.indexes.is_some() {
            return Err(ProfilingError::AlreadyResolved);
        }
        let start = match find_import(imports, START_MEASUREMENT) {
            Some(index) => index,
            None => {
                return Err(ProfilingError::MissingStartMeasurement);
            },
        };
        let take = match find_import(imports, TAKE_MEASUREMENT) {
            Some(index) => index,
            None => {
                return Err(ProfilingError::MissingTakeMeasurement);
            },
        };
        self.indexes = Some(ProfilingIndexes { start_measurement: start, take_measurement: take });
        Ok(())
    }

    /// Binds the profiling to the module that `module_info` describes, by
    /// its import list.
    pub fn transform_module_info(&mut self, module_info: &ModuleInfo) -> (result: Result<
        (),
        ProfilingError,
    >)
        ensures
            result == resolve_result(old(self).binding(), declared_imports(*module_info)),
            final(self).binding() == binding_after(
                old(self).binding(),
                declared_imports(*module_info),
            ),
            final(self).blocks() == old(self).blocks(),
    {
        let imports = read_imports(module_info);
        self.resolve(&imports)
    }

    /// The state for rewriting the function with the given index, bound to
    /// the hooks of this module.
    pub fn generate_function_middleware(&self, local_function_index: u32) -> (state:
        FunctionProfiling)
        requires
            self.binding() is Some,
        ensures
            state.indexes() == self.binding().unwrap(),
            state.function_index() == local_function_index,
            state.pending() == Seq::<OperatorSymbol>::empty(),
            state.block_count() == 0,
    {
        FunctionProfiling::new(self.indexes.unwrap(), local_function_index)
    }

    /// Feeds the next instruction of a function to its state, registering in
    /// this module's store the block that the instruction closes.
    pub fn feed(&mut self, state: &mut FunctionProfiling, operator: OperatorSymbol) -> (injected:
        Vec<Injected>)
        ensures
            injected@ == injected_before(
                old(state).indexes(),
                old(state).function_index(),
                old(state).block_count(),
                old(state).pending(),
                operator,
            ),
            final(state).pending() == pending_after(old(state).pending(), operator),
            final(self).blocks() == blocks_after(old(self).blocks(), old(state).pending(), operator),
            final(self).binding() == old(self).binding(),
            final(state).indexes() == old(state).indexes(),
            final(state).function_index() == old(state).function_index(),
            final(state).block_count() == old(state).block_count(),
    {
        state.feed(&mut self.block_store, operator)
    }

    /// Rewrites the body of the function with the given index. Every
    /// instruction of the body is emitted in its place, as its position, with
    /// the hook calls in front of it; every block of the body is registered.
    /// A body that ends inside a block is refused, and nothing is registered.
    pub fn instrument_function(
        &mut self,
        local_function_index: u32,
        body: &Vec<OperatorSymbol>,
    ) -> (result: Result<Vec<Emitted>, ProfilingError>)
        requires
            old(self).binding() is Some,
        ensures
            final(self).binding() == old(self).binding(),
            match result {
                Ok(stream) => {
                    &&& well_closed(body@)
                    &&& stream@ == rewritten(
                        old(self).binding().unwrap(),
                        local_function_index,
                        body@,
                        body@.len() as int,
                    )
                    &&& final(self).blocks() == blocks_registered(
                        old(self).blocks(),
                        body@,
                        body@.len() as int,
                    )
                    &&& originals(stream@) == Seq::new(
                        body@.len(),
                        |position: int| position as usize,
                    )
                },
                Err(error) => {
                    &&& !well_closed(body@)
                    &&& error == ProfilingError::UnclosedBlock
                    &&& final(self).blocks() == old(self).blocks()
                },
            },
    {
        let count: usize = body.len();
        if count > 0 && !body[count - 1].is_boundary() {
            return Err(ProfilingError::UnclosedBlock);
        }
        let mut state = self.generate_function_middleware(local_function_index);
        let ghost indexes = self.binding().unwrap();
        let mut stream: Vec<Emitted> = Vec::new();
        let mut i: usize = 0;
        while i < count
            invariant
                count == body@.len(),
                i <= count,
                self.binding() == old(self).binding(),
                state.indexes() == indexes,
                state.function_index() == local_function_index,
                state.block_count() == 0,
                state.pending() == pending_at(body@, i as int),
                stream@ == rewritten(indexes, local_function_index, body@, i as int),
                self.blocks() == blocks_registered(old(self).blocks(), body@, i as int),
            decreases count - i,
        {
            let mut injected = self.feed(&mut state, body[i]);
            let ghost hooks = injected@;
            let ghost before = stream@;
            let mut j: usize = 0;
            while j < injected.len()
                invariant
                    j <= injected@.len(),
                    injected@ == hooks,
                    stream@ == before + hooks.take(j as int).map_values(
                        |hook: Injected| Emitted::Hook(hook),
                    ),
                decreases injected@.len() - j,
            {
                stream.push(Emitted::Hook(injected[j]));
                j += 1;
            }
            stream.push(Emitted::Original(i));
            proof {
                lemma_pending_step(body@, i as int);
            }
            i += 1;
        }
        proof {
            lemma_rewrite_keeps_instructions(indexes, local_function_index, body@, count as int);
        }
        Ok(stream)
    }
}

} // verus!
