//! Proofs of headers in canonical hash tries.
//!
//! A canonical hash trie (CHT) holds the hash and the total difficulty of a run of
//! blocks. While a CHT is built, a [`ChtSearch`] looks out for the block that is to
//! be proved.
use crate::block::{BlockHeader, BlockId, H256, U256};
use crate::client::ProvingBlockChainClient;
use crate::request::HeaderProofResponse;
use vstd::prelude::*;

verus! {

/// What a CHT is built from, of one block.
#[derive(Clone, Copy, Debug, PartialEq, Eq)]
pub struct BlockInfo {
    /// Hash of the block.
    pub hash: H256,
    /// Hash of the block's parent.
    pub parent_hash: H256,
    /// Total difficulty up to the block.
    pub total_difficulty: U256,
}

/// A trie could not be read.
#[derive(Clone, Debug, PartialEq, Eq)]
pub struct TrieError {
    /// What went wrong.
    pub message: String,
}

/// Builds canonical hash tries and proves their entries.
pub trait CanonicalHashTries {
    /// A CHT while it is built.
    type Builder;

    /// A canonical hash trie.
    type Cht;

    /// The number of the CHT that holds a block, if one can.
    fn block_to_cht_number(&self, block_number: u64) -> (cht_number: Option<u64>);

    /// Starts to build a CHT. Gives its builder, and how many blocks the CHT holds.
    fn begin(&self, cht_number: u64) -> (begun: (Self::Builder, u64));

    /// The block that a CHT needs next.
    fn next_block(&self, builder: &Self::Builder) -> (id: BlockId);

    /// Adds the block that was needed.
    fn add_block(&self, builder: Self::Builder, info: BlockInfo) -> (added: Self::Builder);

    /// The CHT, when all its blocks were added.
    fn finish(&self, builder: Self::Builder) -> (cht: Option<Self::Cht>);

    /// A proof of the entry of a block, without the nodes above `from_level`.
    fn prove(&self, cht: &Self::Cht, block_number: u64, from_level: u32) -> (proof: Result<
        Option<Vec<Vec<u8>>>,
        TrieError,
    >);
}

/// The client may answer so, when it is asked for the header and for the total difficulty
/// of a block.
pub open spec fn looks_up<C: ProvingBlockChainClient + ?Sized>(
    client: &C,
    id: BlockId,
    header: Option<BlockHeader>,
    td: Option<U256>,
) -> bool {
    &&& call_ensures(C::block_header, (client, id), header)
    &&& call_ensures(C::block_total_difficulty, (client, id), td)
}

/// The information on a block whose header and total difficulty are known.
pub open spec fn block_info_of(header: Option<BlockHeader>, td: Option<U256>) -> Option<BlockInfo> {
    match (header, td) {
        (Some(header), Some(td)) => Some(
            BlockInfo {
                hash: header.hash,
                parent_hash: header.parent_hash,
                total_difficulty: td,
            },
        ),
        _ => None,
    }
}

/// The block with that number among the blocks visited: the last such block whose
/// header and total difficulty are known.
pub open spec fn visited(
    number: u64,
    visits: Seq<(Option<BlockHeader>, Option<U256>)>,
) -> Option<(BlockHeader, U256)>
    decreases visits.len(),
{
    if visits.len() == 0 {
        None
    } else {
        match visits.last() {
            (Some(header), Some(td)) if header.number == number => Some((header, td)),
            _ => visited(number, visits.drop_last()),
        }
    }
}

/// Looks out for one block among the blocks that a CHT is built from.
pub struct ChtSearch {
    number: u64,
    needed: Option<(BlockHeader, U256)>,
    visits: Ghost<Seq<(Option<BlockHeader>, Option<U256>)>>,
}

impl ChtSearch {
    /// The number that is looked for.
    pub closed spec fn target(self) -> u64 {
        self.number
    }

    /// The header and the total difficulty of each block visited, as far as known.
    pub closed spec fn seen(self) -> Seq<(Option<BlockHeader>, Option<U256>)> {
        self.visits@
    }

    #[verifier::type_invariant]
    spec fn remembers(self) -> bool {
        self.needed == visited(self.number, self.visits@)
    }

    /// Starts to look for a block.
    pub fn new(number: u64) -> (search: Self)
        ensures
            search.target() == number,
            search.seen() == Seq::<(Option<BlockHeader>, Option<U256>)>::empty(),
    {
        ChtSearch { number, needed: None, visits: Ghost(Seq::empty()) }
    }

    /// Visits a block with what is known of it. Gives what a CHT is built from.
    pub fn visit(&mut self, header: Option<BlockHeader>, td: Option<U256>) -> (info: Option<
        BlockInfo,
    >)
        ensures
            info == block_info_of(header, td),
            final(self).target() == old(self).target(),
            final(self).seen() == old(self).seen().push((header, td)),
    {
        proof {
            use_type_invariant(&*self);
        }
        let ghost seen = self.visits@;
        let ghost now = seen.push((header, td));
        assert(now.drop_last() =~= seen);
        match (header, td) {
            (Some(header), Some(td)) => {
                let info = BlockInfo {
                    hash: header.hash,
                    parent_hash: header.parent_hash,
                    total_difficulty: td,
                };
                let number = self.number;
                if header.number == number {
                    *self = ChtSearch { number, needed: Some((header, td)), visits: Ghost(now) };
                } else {
                    self.visits = Ghost(now);
                }
                Some(info)
            },
            _ => {
                self.visits = Ghost(now);
                None
            },
        }
    }

    /// Looks a block up and visits it.
    pub fn block_info<C: ProvingBlockChainClient + ?Sized>(
        &mut self,
        client: &C,
        id: BlockId,
    ) -> (info: Option<BlockInfo>)
        ensures
            exists|header: Option<BlockHeader>, td: Option<U256>|
                {
                    &&& #[trigger] looks_up(client, id, header, td)
                    &&& info == block_info_of(header, td)
                    &&& final(self).seen() == old(self).seen().push((header, td))
                },
            final(self).target() == old(self).target(),
    {
        let header = client.block_header(id);
        let td = client.block_total_difficulty(id);
        assert(looks_up(client, id, header, td));
        self.visit(header, td)
    }

    /// The block that was looked for, if it was visited: its hash and the total
    /// difficulty up to it.
    pub fn found(&self) -> (found: Option<(H256, U256)>)
        ensures
            found == found_in(self.target(), self.seen()),
    {
        proof {
            use_type_invariant(self);
        }
        match &self.needed {
            Some((header, td)) => Some((header.hash, *td)),
            None => None,
        }
    }
}

/// Hash and total difficulty of the block with that number among the blocks visited.
pub open spec fn found_in(
    number: u64,
    visits: Seq<(Option<BlockHeader>, Option<U256>)>,
) -> Option<(H256, U256)> {
    match visited(number, visits) {
        Some((header, td)) => Some((header.hash, td)),
        None => None,
    }
}

/// The visit is to the block with that number, and shows that hash and that total
/// difficulty.
pub open spec fn shows(
    visit: (Option<BlockHeader>, Option<U256>),
    number: u64,
    hash: H256,
    td: U256,
) -> bool {
    match visit {
        (Some(header), Some(difficulty)) => header.number == number && header.hash == hash
            && difficulty == td,
        _ => false,
    }
}

/// A block that was visited, with its header and total difficulty known, is found:
/// a search that passes through the block it looks for does not miss it.
pub proof fn law_visited_is_found(
    number: u64,
    visits: Seq<(Option<BlockHeader>, Option<U256>)>,
    i: int,
    hash: H256,
    td: U256,
)
    requires
        0 <= i < visits.len(),
        shows(visits[i], number, hash, td),
    ensures
        found_in(number, visits) is Some,
    decreases visits.len(),
{
    if i < visits.len() - 1 {
        law_visited_is_found(number, visits.drop_last(), i, hash, td);
    }
}

/// What is found was visited, and has the number that was looked for.
pub proof fn law_found_was_visited(
    number: u64,
    visits: Seq<(Option<BlockHeader>, Option<U256>)>,
    hash: H256,
    td: U256,
)
    requires
        found_in(number, visits) == Some((hash, td)),
    ensures
        exists|i: int| 0 <= i < visits.len() && shows(#[trigger] visits[i], number, hash, td),
    decreases visits.len(),
{
    if shows(visits.last(), number, hash, td) {
        assert(shows(visits[visits.len() - 1], number, hash, td));
    } else {
        let before = visits.drop_last();
        law_found_was_visited(number, before, hash, td);
        let i = choose|i: int| 0 <= i < before.len() && shows(#[trigger] before[i], number, hash, td);
        assert(shows(visits[i], number, hash, td));
    }
}

/// One block on the way through a CHT: the builder before it, its id, what the client
/// knows of it, and the builder after it.
pub struct Visit<B> {
    pub before: B,
    pub id: BlockId,
    pub header: BlockHeader,
    pub td: U256,
    pub after: B,
}

/// The builder after the visits.
pub open spec fn end_of<B>(start: B, visits: Seq<Visit<B>>) -> B {
    if visits.len() == 0 {
        start
    } else {
        visits.last().after
    }
}

/// The visit is to the block that the builder needs next: header and total difficulty
/// are what the client answers to its id, and it was added.
pub open spec fn is_step<T: ProvingBlockChainClient + CanonicalHashTries + ?Sized>(
    client: &T,
    builder: T::Builder,
    visit: Visit<T::Builder>,
) -> bool {
    &&& visit.before == builder
    &&& call_ensures(T::next_block, (client, &visit.before), visit.id)
    &&& looks_up(client, visit.id, Some(visit.header), Some(visit.td))
    &&& call_ensures(
        T::add_block,
        (
            client,
            visit.before,
            BlockInfo {
                hash: visit.header.hash,
                parent_hash: visit.header.parent_hash,
                total_difficulty: visit.td,
            },
        ),
        visit.after,
    )
}

/// The visits lead from block to block as the builder needs them.
pub open spec fn is_walk<T: ProvingBlockChainClient + CanonicalHashTries + ?Sized>(
    client: &T,
    start: T::Builder,
    visits: Seq<Visit<T::Builder>>,
) -> bool
    decreases visits.len(),
{
    visits.len() > 0 ==> is_walk(client, start, visits.drop_last()) && is_step(
        client,
        end_of(start, visits.drop_last()),
        visits.last(),
    )
}

/// The client does not know the header, or the total difficulty, of the block that the
/// builder needs next.
pub open spec fn is_stuck<T: ProvingBlockChainClient + CanonicalHashTries + ?Sized>(
    client: &T,
    builder: T::Builder,
) -> bool {
    exists|id: BlockId, header: Option<BlockHeader>, td: Option<U256>|
        {
            &&& call_ensures(T::next_block, (client, &builder), id)
            &&& #[trigger] looks_up(client, id, header, td)
            &&& header is None || td is None
        }
}

/// What the client answered on the way.
pub open spec fn lookups<B>(visits: Seq<Visit<B>>) -> Seq<(Option<BlockHeader>, Option<U256>)> {
    visits.map_values(|visit: Visit<B>| (Some(visit.header), Some(visit.td)))
}

/// The response is the answer once all blocks were visited: the proof from the
/// finished CHT, for the block with that number on the way.
pub open spec fn answers_walk<T: ProvingBlockChainClient + CanonicalHashTries + ?Sized>(
    client: &T,
    number: u64,
    start: T::Builder,
    visits: Seq<Visit<T::Builder>>,
    response: HeaderProofResponse,
) -> bool {
    exists|cht: Option<T::Cht>| #[trigger]
        call_ensures(T::finish, (client, end_of(start, visits)), cht) && match (
            cht,
            found_in(number, lookups(visits)),
        ) {
            (Some(cht), Some((hash, td))) => exists|
                proved: Result<Option<Vec<Vec<u8>>>, TrieError>,
            | #[trigger]
                call_ensures(T::prove, (client, &cht, number, 0u32), proved) && response.answers(
                    proved,
                    hash,
                    td,
                ),
            _ => response.is_default(),
        }
}

/// The response is the answer from a CHT of so many blocks, of which these were visited:
/// nothing is proved where the client does not know the next one.
pub open spec fn answers_along<T: ProvingBlockChainClient + CanonicalHashTries + ?Sized>(
    client: &T,
    number: u64,
    start: T::Builder,
    blocks: u64,
    visits: Seq<Visit<T::Builder>>,
    response: HeaderProofResponse,
) -> bool {
    &&& is_walk(client, start, visits)
    &&& visits.len() <= blocks
    &&& if visits.len() < blocks {
        is_stuck(client, end_of(start, visits)) && response.is_default()
    } else {
        answers_walk(client, number, start, visits, response)
    }
}

/// The response is the answer from a CHT of so many blocks.
pub open spec fn answers_from<T: ProvingBlockChainClient + CanonicalHashTries + ?Sized>(
    client: &T,
    number: u64,
    start: T::Builder,
    blocks: u64,
    response: HeaderProofResponse,
) -> bool {
    exists|visits: Seq<Visit<T::Builder>>| #[trigger]
        answers_along(client, number, start, blocks, visits, response)
}

/// The response is the answer from that CHT, which holds the block.
pub open spec fn answers_in<T: ProvingBlockChainClient + CanonicalHashTries + ?Sized>(
    client: &T,
    number: u64,
    cht_number: u64,
    start: T::Builder,
    blocks: u64,
    response: HeaderProofResponse,
) -> bool {
    &&& call_ensures(T::block_to_cht_number, (client, number), Some(cht_number))
    &&& call_ensures(T::begin, (client, cht_number), (start, blocks))
    &&& answers_from(client, number, start, blocks, response)
}

/// The response is the answer to a request for a proof of that header: nothing is proved
/// where no CHT can hold the block.
pub open spec fn answers_number<T: ProvingBlockChainClient + CanonicalHashTries + ?Sized>(
    client: &T,
    number: u64,
    response: HeaderProofResponse,
) -> bool {
    ||| call_ensures(T::block_to_cht_number, (client, number), None::<u64>)
        && response.is_default()
    ||| exists|cht_number: u64, start: T::Builder, blocks: u64| #[trigger]
        answers_in(client, number, cht_number, start, blocks, response)
}

/// Builds a CHT block by block, looking out for the one with that number on the way,
/// and proves that block. Nothing is proved where the client does not know one of the
/// blocks, where the CHT is not finished, or where the block was not on the way.
pub fn prove_header<T: ProvingBlockChainClient + CanonicalHashTries + ?Sized>(
    client: &T,
    number: u64,
    start: T::Builder,
    blocks: u64,
) -> (response: HeaderProofResponse)
    ensures
        answers_from(client, number, start, blocks, response),
{
    let ghost first = start;
    let ghost mut visits: Seq<Visit<T::Builder>> = Seq::empty();
    let mut search = ChtSearch::new(number);
    let mut builder = start;
    let mut i: u64 = 0;
    assert(lookups(visits) =~= search.seen());
    while i < blocks
        invariant
            i <= blocks,
            first == start,
            visits.len() == i,
            is_walk(client, first, visits),
            builder == end_of(first, visits),
            search.target() == number,
            search.seen() == lookups(visits),
        decreases blocks - i,
    {
        let id = client.next_block(&builder);
        assert(call_ensures(T::next_block, (client, &builder), id));
        let ghost seen = search.seen();
        match search.block_info(client, id) {
            None => {
                let response = HeaderProofResponse::default();
                assert(is_stuck(client, end_of(first, visits)));
                assert(answers_along(client, number, first, blocks, visits, response));
                return response;
            },
            Some(info) => {
                let ghost (header, td) = choose|
                    header: Option<BlockHeader>,
                    td: Option<U256>,
                |
                    {
                        &&& #[trigger] looks_up(client, id, header, td)
                        &&& Some(info) == block_info_of(header, td)
                        &&& search.seen() == seen.push((header, td))
                    };
                let ghost before = builder;
                builder = client.add_block(builder, info);
                proof {
                    assert(call_ensures(T::add_block, (client, before, info), builder));
                    let visit = Visit {
                        before,
                        id,
                        header: header->0,
                        td: td->0,
                        after: builder,
                    };
                    let now = visits.push(visit);
                    assert(now.drop_last() =~= visits);
                    assert(is_step(client, end_of(first, visits), visit));
                    assert(lookups(now) =~= lookups(visits).push((header, td)));
                    visits = now;
                }
                i += 1;
            },
        }
    }
    let ghost end = builder;
    let cht = client.finish(builder);
    assert(call_ensures(T::finish, (client, end), cht));
    match (cht, search.found()) {
        (Some(cht), Some((hash, td))) => {
            let proved = client.prove(&cht, number, 0);
            assert(call_ensures(T::prove, (client, &cht, number, 0u32), proved));
            let response = HeaderProofResponse::from_proved(proved, hash, td);
            assert(answers_along(client, number, first, blocks, visits, response));
            response
        },
        _ => {
            let response = HeaderProofResponse::default();
            assert(answers_along(client, number, first, blocks, visits, response));
            response
        },
    }
}

proof fn lemma_walk_is_known<T: ProvingBlockChainClient + CanonicalHashTries + ?Sized>(
    client: &T,
    start: T::Builder,
    visits: Seq<Visit<T::Builder>>,
)
    requires
        is_walk(client, start, visits),
    ensures
        forall|i: int|
            0 <= i < visits.len() ==> looks_up(
                client,
                (#[trigger] visits[i]).id,
                Some(visits[i].header),
                Some(visits[i].td),
            ),
    decreases visits.len(),
{
    if visits.len() > 0 {
        lemma_walk_is_known(client, start, visits.drop_last());
        assert forall|i: int| 0 <= i < visits.len() implies looks_up(
            client,
            (#[trigger] visits[i]).id,
            Some(visits[i].header),
            Some(visits[i].td),
        ) by {
            if i < visits.len() - 1 {
                assert(visits[i] == visits.drop_last()[i]);
            }
        }
    }
}

/// The whole way through the CHT that holds a block: each block that the CHT needs, with
/// what the client answers on it.
pub open spec fn is_way<T: ProvingBlockChainClient + CanonicalHashTries + ?Sized>(
    client: &T,
    number: u64,
    cht_number: u64,
    start: T::Builder,
    visits: Seq<Visit<T::Builder>>,
) -> bool {
    &&& call_ensures(T::block_to_cht_number, (client, number), Some(cht_number))
    &&& call_ensures(T::begin, (client, cht_number), (start, visits.len() as u64))
    &&& visits.len() <= u64::MAX
    &&& is_walk(client, start, visits)
}

/// An answer is the default one, or it is all of one piece: the client knows header and
/// total difficulty of every block of the CHT, and the answer's hash and total
/// difficulty are those of one of them, which has the requested number.
pub proof fn law_answer_is_whole<T: ProvingBlockChainClient + CanonicalHashTries + ?Sized>(
    client: &T,
    number: u64,
    response: HeaderProofResponse,
)
    requires
        answers_number(client, number, response),
        !response.is_default(),
    ensures
        exists|cht_number: u64, start: T::Builder, visits: Seq<Visit<T::Builder>>, i: int|
            {
                &&& #[trigger] is_way(client, number, cht_number, start, visits)
                &&& forall|j: int|
                    0 <= j < visits.len() ==> looks_up(
                        client,
                        (#[trigger] visits[j]).id,
                        Some(visits[j].header),
                        Some(visits[j].td),
                    )
                &&& 0 <= i < visits.len()
                &&& (#[trigger] visits[i]).header.number == number
                &&& visits[i].header.hash == response.hash
                &&& visits[i].td == response.td
            },
{
    let (cht_number, start, blocks) = choose|cht_number: u64, start: T::Builder, blocks: u64|
        #[trigger] answers_in(client, number, cht_number, start, blocks, response);
    let visits = choose|visits: Seq<Visit<T::Builder>>| #[trigger]
        answers_along(client, number, start, blocks, visits, response);
    lemma_walk_is_known(client, start, visits);
    let seen = lookups(visits);
    let (hash, td) = found_in(number, seen)->0;
    law_found_was_visited(number, seen, hash, td);
    let i = choose|i: int| 0 <= i < seen.len() && shows(#[trigger] seen[i], number, hash, td);
    assert(is_way(client, number, cht_number, start, visits));
    assert(visits[i].header.number == number);
}

/// The headers agree in what a CHT is built from.
pub open spec fn same_header(one: Option<BlockHeader>, other: Option<BlockHeader>) -> bool {
    match (one, other) {
        (Some(one), Some(other)) => one.number == other.number && one.hash == other.hash
            && one.parent_hash == other.parent_hash,
        (None, None) => true,
        _ => false,
    }
}

/// The bytes of each trie node.
pub open spec fn nodes(proof: Vec<Vec<u8>>) -> Seq<Seq<u8>> {
    proof@.map_values(|node: Vec<u8>| node@)
}

/// The same nodes prove the entry, or none do.
pub open spec fn same_proof(
    one: Result<Option<Vec<Vec<u8>>>, TrieError>,
    other: Result<Option<Vec<Vec<u8>>>, TrieError>,
) -> bool {
    match (one, other) {
        (Ok(Some(one)), Ok(Some(other))) => nodes(one) == nodes(other),
        (Ok(Some(_)), _) => false,
        (_, Ok(Some(_))) => false,
        _ => true,
    }
}

/// The client answers alike, then and later, on the header and on the total difficulty
/// of a block.
pub open spec fn block_alike<T: ProvingBlockChainClient + ?Sized>(
    then: &T,
    later: &T,
    id: BlockId,
) -> bool {
    &&& forall|one: Option<BlockHeader>, other: Option<BlockHeader>| #[trigger]
        call_ensures(T::block_header, (then, id), one) && #[trigger] call_ensures(
            T::block_header,
            (later, id),
            other,
        ) ==> same_header(one, other)
    &&& forall|one: Option<U256>, other: Option<U256>| #[trigger]
        call_ensures(T::block_total_difficulty, (then, id), one) && #[trigger] call_ensures(
            T::block_total_difficulty,
            (later, id),
            other,
        ) ==> one == other
}

/// The questions about tries are answered alike, then and later.
pub open spec fn tries_alike<T: CanonicalHashTries + ?Sized>(then: &T, later: &T) -> bool {
    &&& forall|number: u64, one: Option<u64>, other: Option<u64>| #[trigger]
        call_ensures(T::block_to_cht_number, (then, number), one) && #[trigger] call_ensures(
            T::block_to_cht_number,
            (later, number),
            other,
        ) ==> one == other
    &&& forall|number: u64, one: (T::Builder, u64), other: (T::Builder, u64)| #[trigger]
        call_ensures(T::begin, (then, number), one) && #[trigger] call_ensures(
            T::begin,
            (later, number),
            other,
        ) ==> one == other
    &&& forall|builder: T::Builder, one: BlockId, other: BlockId| #[trigger]
        call_ensures(T::next_block, (then, &builder), one) && #[trigger] call_ensures(
            T::next_block,
            (later, &builder),
            other,
        ) ==> one == other
    &&& forall|builder: T::Builder, info: BlockInfo, one: T::Builder, other: T::Builder| #[trigger]
        call_ensures(T::add_block, (then, builder, info), one) && #[trigger] call_ensures(
            T::add_block,
            (later, builder, info),
            other,
        ) ==> one == other
    &&& forall|builder: T::Builder, one: Option<T::Cht>, other: Option<T::Cht>| #[trigger]
        call_ensures(T::finish, (then, builder), one) && #[trigger] call_ensures(
            T::finish,
            (later, builder),
            other,
        ) ==> one == other
    &&& forall|
        cht: T::Cht,
        number: u64,
        level: u32,
        one: Result<Option<Vec<Vec<u8>>>, TrieError>,
        other: Result<Option<Vec<Vec<u8>>>, TrieError>,
    | #[trigger]
        call_ensures(T::prove, (then, &cht, number, level), one) && #[trigger] call_ensures(
            T::prove,
            (later, &cht, number, level),
            other,
        ) ==> same_proof(one, other)
}

/// The block is one of those that the CHT which holds a block is built from.
pub open spec fn is_needed<T: ProvingBlockChainClient + CanonicalHashTries + ?Sized>(
    client: &T,
    number: u64,
    id: BlockId,
) -> bool {
    exists|cht_number: u64, start: T::Builder, visits: Seq<Visit<T::Builder>>, i: int|
        {
            &&& #[trigger] is_way(client, number, cht_number, start, visits)
            &&& 0 <= i < visits.len()
            &&& (#[trigger] visits[i]).id == id
        }
}

pub(crate) proof fn lemma_walk_prefix<T: ProvingBlockChainClient + CanonicalHashTries + ?Sized>(
    client: &T,
    start: T::Builder,
    visits: Seq<Visit<T::Builder>>,
    k: int,
)
    requires
        is_walk(client, start, visits),
        0 <= k <= visits.len(),
    ensures
        is_walk(client, start, visits.take(k)),
        k < visits.len() ==> is_step(client, end_of(start, visits.take(k)), visits[k]),
    decreases visits.len(),
{
    if k == visits.len() {
        assert(visits.take(k) =~= visits);
    } else {
        let before = visits.drop_last();
        lemma_walk_prefix(client, start, before, k);
        assert(before.take(k) =~= visits.take(k));
        if k == visits.len() - 1 {
            assert(before =~= visits.take(k));
        }
    }
}

/// The visits agree in what a CHT is built from.
spec fn same_visit<B>(one: Visit<B>, other: Visit<B>) -> bool {
    one.td == other.td && same_header(Some(one.header), Some(other.header))
}

/// The visits agree one by one.
spec fn same_visits<B>(ones: Seq<Visit<B>>, others: Seq<Visit<B>>) -> bool {
    &&& ones.len() == others.len()
    &&& forall|i: int| 0 <= i < ones.len() ==> #[trigger] same_visit(ones[i], others[i])
}

proof fn lemma_walks_agree<T: ProvingBlockChainClient + CanonicalHashTries + ?Sized>(
    then: &T,
    later: &T,
    start: T::Builder,
    ones: Seq<Visit<T::Builder>>,
    others: Seq<Visit<T::Builder>>,
)
    requires
        is_walk(then, start, ones),
        is_walk(later, start, others),
        ones.len() == others.len(),
        tries_alike(then, later),
        forall|i: int| 0 <= i < ones.len() ==> block_alike(then, later, (#[trigger] ones[i]).id),
    ensures
        end_of(start, ones) == end_of(start, others),
        same_visits(ones, others),
    decreases ones.len(),
{
    if ones.len() > 0 {
        let k = ones.len() - 1;
        let ones_before = ones.drop_last();
        let others_before = others.drop_last();
        assert forall|i: int| 0 <= i < ones_before.len() implies block_alike(
            then,
            later,
            (#[trigger] ones_before[i]).id,
        ) by {
            assert(ones_before[i] == ones[i]);
        }
        lemma_walks_agree(then, later, start, ones_before, others_before);
        let one = ones[k];
        let other = others[k];
        assert(one.before == other.before);
        assert(one.id == other.id);
        assert(block_alike(then, later, one.id));
        assert(same_header(Some(one.header), Some(other.header)));
        assert(Some(one.td) == Some(other.td));
        assert(one.after == other.after);
        assert forall|i: int| 0 <= i < ones.len() implies #[trigger] same_visit(
            ones[i],
            others[i],
        ) by {
            if i < k {
                assert(same_visit(ones_before[i], others_before[i]));
            }
        }
    }
}

proof fn lemma_found_agrees<B>(number: u64, ones: Seq<Visit<B>>, others: Seq<Visit<B>>)
    requires
        same_visits(ones, others),
    ensures
        found_in(number, lookups(ones)) == found_in(number, lookups(others)),
    decreases ones.len(),
{
    if ones.len() > 0 {
        let ones_before = ones.drop_last();
        let others_before = others.drop_last();
        assert forall|i: int| 0 <= i < ones_before.len() implies #[trigger] same_visit(
            ones_before[i],
            others_before[i],
        ) by {
            assert(same_visit(ones[i], others[i]));
        }
        lemma_found_agrees(number, ones_before, others_before);
        assert(lookups(ones).drop_last() =~= lookups(ones_before));
        assert(lookups(others).drop_last() =~= lookups(others_before));
        assert(same_visit(ones[ones.len() - 1], others[ones.len() - 1]));
    }
}

/// An answer depends on the blocks of the one CHT that holds the block, and on no
/// others: where a proof was given, and later the questions about tries, and those about
/// the blocks that the CHT is built from, are answered as before, the later answer is
/// the same, whatever became of all other blocks.
pub proof fn law_answer_depends_on_cht<T: ProvingBlockChainClient + CanonicalHashTries + ?Sized>(
    then: &T,
    later: &T,
    number: u64,
    first: HeaderProofResponse,
    second: HeaderProofResponse,
)
    requires
        answers_number(then, number, first),
        !first.is_default(),
        answers_number(later, number, second),
        tries_alike(then, later),
        forall|id: BlockId| #[trigger]
            is_needed(then, number, id) ==> block_alike(then, later, id),
    ensures
        nodes(second.proof) == nodes(first.proof),
        second.hash == first.hash,
        second.td == first.td,
{
    let (cht_number, start, blocks) = choose|cht_number: u64, start: T::Builder, blocks: u64|
        #[trigger] answers_in(then, number, cht_number, start, blocks, first);
    let ones = choose|visits: Seq<Visit<T::Builder>>| #[trigger]
        answers_along(then, number, start, blocks, visits, first);
    assert(is_way(then, number, cht_number, start, ones));
    assert forall|i: int| 0 <= i < ones.len() implies block_alike(
        then,
        later,
        (#[trigger] ones[i]).id,
    ) by {
        assert(is_needed(then, number, ones[i].id));
    }
    assert(answers_from(later, number, start, blocks, second));
    let others = choose|visits: Seq<Visit<T::Builder>>| #[trigger]
        answers_along(later, number, start, blocks, visits, second);
    let k = others.len() as int;
    let prefix = ones.take(k);
    lemma_walk_prefix(then, start, ones, k);
    assert forall|i: int| 0 <= i < prefix.len() implies block_alike(
        then,
        later,
        (#[trigger] prefix[i]).id,
    ) by {
        assert(prefix[i] == ones[i]);
    }
    lemma_walks_agree(then, later, start, prefix, others);
    if k < ones.len() {
        let next = ones[k];
        assert(block_alike(then, later, next.id));
        assert(is_step(then, end_of(start, others), next));
        assert(!is_stuck(later, end_of(start, others)));
    } else {
        assert(prefix =~= ones);
        lemma_found_agrees(number, ones, others);
    }
}

} // verus!
