//! Code blocks and the store that keeps one copy of each.
//!
//! A block is identified by a 64-bit hash of its symbols. The store maps that
//! hash to the block; a block whose hash is already present is not stored
//! again, so the first block registered under a hash stays there.

use crate::operators::OperatorSymbol;
use std::collections::hash_map::DefaultHasher;
use std::collections::HashMap;
use std::hash::Hasher;
use vstd::bytes::{lemma_auto_spec_u64_to_from_le_bytes, spec_u64_to_le_bytes, u64_to_le_bytes};
use vstd::prelude::*;
use vstd::std_specs::cmp::PartialEqSpecImpl;
use vstd::std_specs::convert::FromSpec;
use vstd::std_specs::hash::*;

verus! {

broadcast use vstd::std_specs::hash::group_hash_axioms;

/// The codes of `symbols`, each as eight little-endian bytes, one after the
/// other.
pub open spec fn symbol_bytes(symbols: Seq<OperatorSymbol>) -> Seq<u8>
    decreases symbols.len(),
{
    if symbols.len() == 0 {
        Seq::empty()
    } else {
        symbol_bytes(symbols.drop_last()) + spec_u64_to_le_bytes(symbols.last().code_of())
    }
}

/// The bytes a block is hashed from: its length as eight little-endian
/// bytes, then the code of each symbol in order.
pub open spec fn block_encoding(symbols: Seq<OperatorSymbol>) -> Seq<u8> {
    spec_u64_to_le_bytes(symbols.len() as u64) + symbol_bytes(symbols)
}

/// The content hash of a block: what the standard library's default hasher
/// returns after one write of the block's encoding.
pub open spec fn block_hash(symbols: Seq<OperatorSymbol>) -> u64 {
    DefaultHasher::spec_finish(seq![block_encoding(symbols)])
}

/// Every symbol takes eight bytes of the encoding.
pub proof fn lemma_symbol_bytes_len(symbols: Seq<OperatorSymbol>)
    ensures
        symbol_bytes(symbols).len() == 8 * symbols.len(),
    decreases symbols.len(),
{
    lemma_auto_spec_u64_to_from_le_bytes();
    if symbols.len() > 0 {
        lemma_symbol_bytes_len(symbols.drop_last());
    }
}

/// Blocks of one length with the same symbol bytes hold the same symbols.
pub proof fn lemma_symbol_bytes_injective(first: Seq<OperatorSymbol>, second: Seq<OperatorSymbol>)
    requires
        first.len() == second.len(),
        symbol_bytes(first) == symbol_bytes(second),
    ensures
        first == second,
    decreases first.len(),
{
    lemma_auto_spec_u64_to_from_le_bytes();
    if first.len() > 0 {
        let a = symbol_bytes(first.drop_last());
        let b = symbol_bytes(second.drop_last());
        let x = spec_u64_to_le_bytes(first.last().code_of());
        let y = spec_u64_to_le_bytes(second.last().code_of());
        lemma_symbol_bytes_len(first.drop_last());
        lemma_symbol_bytes_len(second.drop_last());
        assert(a =~= (a + x).subrange(0, a.len() as int));
        assert(b =~= (b + y).subrange(0, b.len() as int));
        assert(x =~= (a + x).subrange(a.len() as int, a.len() as int + 8));
        assert(y =~= (b + y).subrange(b.len() as int, b.len() as int + 8));
        OperatorSymbol::lemma_code_injective(first.last(), second.last());
        lemma_symbol_bytes_injective(first.drop_last(), second.drop_last());
        assert(first =~= first.drop_last().push(first.last()));
        assert(second =~= second.drop_last().push(second.last()));
    }
}

/// Different blocks have different encodings, so two blocks can share a
/// hash only where the hasher maps two encodings to one number.
pub proof fn lemma_encoding_injective(first: Seq<OperatorSymbol>, second: Seq<OperatorSymbol>)
    requires
        block_encoding(first) == block_encoding(second),
    ensures
        first == second,
{
    lemma_auto_spec_u64_to_from_le_bytes();
    lemma_symbol_bytes_len(first);
    lemma_symbol_bytes_len(second);
    assert(symbol_bytes(first) =~= block_encoding(first).subrange(
        8,
        block_encoding(first).len() as int,
    ));
    assert(symbol_bytes(second) =~= block_encoding(second).subrange(
        8,
        block_encoding(second).len() as int,
    ));
    lemma_symbol_bytes_injective(first, second);
}

/// The identity of a block: its content hash.
#[derive(Debug, Clone, Copy, PartialEq, Eq, Structural, Hash)]
pub struct BlockId(u64);

impl BlockId {
    /// The hash as a number.
    pub closed spec fn value(self) -> u64 {
        self.0
    }

    /// The identity with the given hash, as recorded by a measurement hook.
    pub fn new(hash: u64) -> (id: BlockId)
        ensures
            id.value() == hash,
    {
        BlockId(hash)
    }

    /// The hash as a number.
    pub fn as_u64(&self) -> (hash: u64)
        ensures
            hash == self.value(),
    {
        self.0
    }

    /// Two identities with the same hash are the same identity.
    pub proof fn lemma_value_injective(a: BlockId, b: BlockId)
        requires
            a.value() == b.value(),
        ensures
            a == b,
    {
    }
}

/// The body of one basic block: its instruction symbols in order.
#[derive(Debug, Clone)]
pub struct CodeBlock {
    inner: Vec<OperatorSymbol>,
}

impl View for CodeBlock {
    type V = Seq<OperatorSymbol>;

    closed spec fn view(&self) -> Seq<OperatorSymbol> {
        self.inner@
    }
}

impl CodeBlock {
    /// The number of symbols in the block.
    pub fn len(&self) -> (n: usize)
        ensures
            n == self@.len(),
    {
        self.inner.len()
    }

    /// The symbol at `index`, or `None` past the end.
    pub fn get(&self, index: usize) -> (symbol: Option<OperatorSymbol>)
        ensures
            symbol == if index < self@.len() {
                Some(self@[index as int])
            } else {
                None
            },
    {
        if index < self.inner.len() {
            Some(self.inner[index])
        } else {
            None
        }
    }

    /// The content hash of the block.
    pub fn get_hash(&self) -> (id: BlockId)
        ensures
            id.value() == block_hash(self@),
    {
        let count: usize = self.inner.len();
        let mut bytes: Vec<u8> = u64_to_le_bytes(count as u64);
        let mut i: usize = 0;
        while i < count
            invariant
                count == self.inner@.len(),
                i <= count,
                bytes@ == spec_u64_to_le_bytes(count as u64) + symbol_bytes(self.inner@.take(i as int)),
            decreases count - i,
        {
            let mut piece: Vec<u8> = u64_to_le_bytes(self.inner[i].code());
            bytes.append(&mut piece);
            proof {
                let next = self.inner@.take(i + 1);
                assert(next.drop_last() == self.inner@.take(i as int));
            }
            i += 1;
        }
        proof {
            assert(self.inner@.take(count as int) == self.inner@);
        }
        let mut hasher = DefaultHasher::new();
        hasher.write(bytes.as_slice());
        BlockId(hasher.finish())
    }
}

impl vstd::std_specs::convert::FromSpecImpl<Vec<OperatorSymbol>> for CodeBlock {
    open spec fn obeys_from_spec() -> bool {
        true
    }

    closed spec fn from_spec(symbols: Vec<OperatorSymbol>) -> CodeBlock {
        CodeBlock { inner: symbols }
    }
}

impl From<Vec<OperatorSymbol>> for CodeBlock {
    /// The block with the given symbols.
    fn from(symbols: Vec<OperatorSymbol>) -> (block: CodeBlock) {
        CodeBlock { inner: symbols }
    }
}

impl CodeBlock {
    /// The block with the given symbols.
    pub fn new(symbols: Vec<OperatorSymbol>) -> (block: CodeBlock)
        ensures
            block@ == symbols@,
            block == CodeBlock::from_spec(symbols),
    {
        CodeBlock { inner: symbols }
    }

    /// Converting a vector into a block keeps its symbols.
    pub proof fn lemma_from_keeps_symbols(symbols: Vec<OperatorSymbol>)
        ensures
            CodeBlock::from_spec(symbols)@ == symbols@,
    {
    }
}

impl PartialEqSpecImpl for CodeBlock {
    open spec fn obeys_eq_spec() -> bool {
        true
    }

    open spec fn eq_spec(&self, other: &CodeBlock) -> bool {
        self@ == other@
    }
}

impl PartialEq for CodeBlock {
    /// Blocks are equal when they hold the same symbols in the same order.
    fn eq(&self, other: &CodeBlock) -> (r: bool) {
        if self.inner.len() != other.inner.len() {
            return false;
        }
        let mut i: usize = 0;
        while i < self.inner.len()
            invariant
                self.inner@.len() == other.inner@.len(),
                i <= self.inner@.len(),
                forall|j: int| 0 <= j < i ==> self.inner@[j] == other.inner@[j],
            decreases self.inner@.len() - i,
        {
            if self.inner[i] != other.inner[i] {
                return false;
            }
            i += 1;
        }
        proof {
            assert(self.inner@ =~= other.inner@);
        }
        true
    }
}

impl Eq for CodeBlock {

}

/// What a store holds after `symbols` is registered in a store holding
/// `blocks`: the same if the hash of `symbols` is taken, else one entry more.
pub open spec fn registered(
    blocks: Map<u64, Seq<OperatorSymbol>>,
    symbols: Seq<OperatorSymbol>,
) -> Map<u64, Seq<OperatorSymbol>> {
    if blocks.contains_key(block_hash(symbols)) {
        blocks
    } else {
        blocks.insert(block_hash(symbols), symbols)
    }
}

/// Every block is stored under its own hash.
pub open spec fn keyed_by_hash(blocks: Map<u64, Seq<OperatorSymbol>>) -> bool {
    forall|hash: u64| #[trigger]
        blocks.contains_key(hash) ==> block_hash(blocks[hash]) == hash
}

/// Registering keeps every block under its own hash, and the registered
/// symbols are then found under theirs.
pub proof fn lemma_registered_keyed(
    blocks: Map<u64, Seq<OperatorSymbol>>,
    symbols: Seq<OperatorSymbol>,
)
    requires
        keyed_by_hash(blocks),
    ensures
        keyed_by_hash(registered(blocks, symbols)),
        registered(blocks, symbols).contains_key(block_hash(symbols)),
{
}

/// Registering the same symbols a second time changes nothing: the store
/// and its size stay as they were after the first time.
pub proof fn lemma_register_again(
    blocks: Map<u64, Seq<OperatorSymbol>>,
    symbols: Seq<OperatorSymbol>,
)
    ensures
        registered(registered(blocks, symbols), symbols) == registered(blocks, symbols),
        registered(registered(blocks, symbols), symbols).len() == registered(
            blocks,
            symbols,
        ).len(),
{
}

/// Registering grows the store by one entry when the hash is new, and not
/// at all when it is taken.
pub proof fn lemma_register_len(
    blocks: Map<u64, Seq<OperatorSymbol>>,
    symbols: Seq<OperatorSymbol>,
)
    requires
        blocks.dom().finite(),
    ensures
        registered(blocks, symbols).dom().finite(),
        registered(blocks, symbols).len() == blocks.len() + if blocks.contains_key(
            block_hash(symbols),
        ) {
            0nat
        } else {
            1nat
        },
{
}

/// Two blocks whose hashes differ, neither of them stored yet, are both
/// stored: the store grows by one for each, and each is found under its hash.
pub proof fn lemma_register_two(
    blocks: Map<u64, Seq<OperatorSymbol>>,
    first: Seq<OperatorSymbol>,
    second: Seq<OperatorSymbol>,
)
    requires
        blocks.dom().finite(),
        block_hash(first) != block_hash(second),
        !blocks.contains_key(block_hash(first)),
        !blocks.contains_key(block_hash(second)),
    ensures
        registered(blocks, first).len() == blocks.len() + 1,
        registered(registered(blocks, first), second).len() == blocks.len() + 2,
        registered(registered(blocks, first), second)[block_hash(first)] == first,
        registered(registered(blocks, first), second)[block_hash(second)] == second,
{
    lemma_register_len(blocks, first);
    lemma_register_len(registered(blocks, first), second);
}

/// Looking up the hash that registering returned gives the registered
/// symbols back, unless other symbols with the same hash were stored before.
pub proof fn lemma_lookup_registered(
    blocks: Map<u64, Seq<OperatorSymbol>>,
    symbols: Seq<OperatorSymbol>,
)
    requires
        blocks.contains_key(block_hash(symbols)) ==> blocks[block_hash(symbols)] == symbols,
    ensures
        registered(blocks, symbols).contains_key(block_hash(symbols)),
        registered(blocks, symbols)[block_hash(symbols)] == symbols,
{
}

/// The table of registered blocks, keyed by content hash.
#[derive(Debug)]
pub struct BlockStore {
    inner: HashMap<u64, CodeBlock>,
}

impl View for BlockStore {
    type V = Map<u64, Seq<OperatorSymbol>>;

    closed spec fn view(&self) -> Map<u64, Seq<OperatorSymbol>> {
        self.inner@.map_values(|block: CodeBlock| block@)
    }
}

impl BlockStore {
    #[verifier::type_invariant]
    spec fn keys_are_hashes(&self) -> bool {
        forall|hash: u64| #[trigger]
            self.inner@.contains_key(hash) ==> block_hash(self.inner@[hash]@) == hash
    }

    /// An empty store.
    pub fn new() -> (store: BlockStore)
        ensures
            store@ == Map::<u64, Seq<OperatorSymbol>>::empty(),
    {
        let store = BlockStore { inner: HashMap::new() };
        store
    }

    /// Stores `symbols` under its content hash unless that hash is already
    /// taken, and returns the hash either way.
    pub fn register_block(&mut self, symbols: Vec<OperatorSymbol>) -> (id: BlockId)
        ensures
            id.value() == block_hash(symbols@),
            final(self)@ == registered(old(self)@, symbols@),
            keyed_by_hash(old(self)@),
            keyed_by_hash(final(self)@),
    {
        proof {
            use_type_invariant(&*self);
        }
        let block = CodeBlock::new(symbols);
        let id = block.get_hash();
        let hash: u64 = id.as_u64();
        if !self.inner.contains_key(&hash) {
            // The map is moved out while it is changed, so that the store is
            // never seen half-updated.
            let mut blocks: HashMap<u64, CodeBlock> = HashMap::new();
            std::mem::swap(&mut self.inner, &mut blocks);
            blocks.insert(hash, block);
            std::mem::swap(&mut self.inner, &mut blocks);
        }
        id
    }

    /// The block stored under `id`, if there is one.
    pub fn get_block(&self, id: BlockId) -> (block: Option<&CodeBlock>)
        ensures
            match block {
                Some(found) => self@.contains_key(id.value()) && found@ == self@[id.value()]
                    && block_hash(found@) == id.value(),
                None => !self@.contains_key(id.value()),
            },
    {
        proof {
            use_type_invariant(self);
        }
        let hash: u64 = id.as_u64();
        self.inner.get(&hash)
    }

    /// The number of distinct blocks stored.
    pub fn len(&self) -> (n: usize)
        ensures
            n == self@.len(),
            self@.dom().finite(),
            keyed_by_hash(self@),
    {
        proof {
            use_type_invariant(self);
            assert(self@.dom() =~= self.inner@.dom());
        }
        self.inner.len()
    }
}

} // verus!
