//! What a search in a CHT finds, and what a request for a header proof gets.
use crate::block::{BlockHeader, BlockId, H256, U256};
use crate::cht::{BlockInfo, CanonicalHashTries, ChtSearch, TrieError, Visit};
use crate::client::ProvingBlockChainClient;
use crate::full::FullProvider;
use crate::provider::Provider;
use crate::request::{CompleteHeaderProofRequest, HeaderProofResponse};
use vstd::prelude::*;

verus! {

/// Header and total difficulty of the visited block are known, and it has that number.
pub open spec fn has_number(visit: (Option<BlockHeader>, Option<U256>), number: u64) -> bool {
    visit.0 is Some && visit.1 is Some && visit.0->0.number == number
}

proof fn lemma_last_is_found(
    number: u64,
    seen: Seq<(Option<BlockHeader>, Option<U256>)>,
    k: int,
)
    requires
        0 <= k < seen.len(),
        has_number(seen[k], number),
        forall|j: int| k < j < seen.len() ==> !has_number(#[trigger] seen[j], number),
    ensures
        crate::cht::found_in(number, seen) == Some((seen[k].0->0.hash, seen[k].1->0)),
    decreases seen.len(),
{
    if k < seen.len() - 1 {
        assert(!has_number(seen[seen.len() - 1], number));
        lemma_last_is_found(number, seen.drop_last(), k);
    }
}

proof fn lemma_nothing_found(number: u64, seen: Seq<(Option<BlockHeader>, Option<U256>)>)
    requires
        forall|j: int| 0 <= j < seen.len() ==> !has_number(#[trigger] seen[j], number),
    ensures
        crate::cht::found_in(number, seen) is None,
    decreases seen.len(),
{
    if seen.len() > 0 {
        assert(!has_number(seen[seen.len() - 1], number));
        lemma_nothing_found(number, seen.drop_last());
    }
}

/// The last of the visits to a block with the number, where there is one.
proof fn lemma_last_visit(number: u64, seen: Seq<(Option<BlockHeader>, Option<U256>)>) -> (k: int)
    ensures
        -1 <= k < seen.len(),
        k >= 0 ==> has_number(seen[k], number),
        forall|j: int| k < j < seen.len() ==> !has_number(#[trigger] seen[j], number),
    decreases seen.len(),
{
    if seen.len() == 0 {
        -1
    } else if has_number(seen.last(), number) {
        seen.len() - 1
    } else {
        let before = seen.drop_last();
        let k = lemma_last_visit(number, before);
        assert forall|j: int| k < j < seen.len() implies !has_number(#[trigger] seen[j], number) by {
            if j < before.len() {
                assert(!has_number(before[j], number));
            }
        }
        k
    }
}

/// A search finds the block that it looks for where that block was visited and is known,
/// and only there; where it was visited more than once, it finds what the last such visit
/// showed.
pub proof fn law_search_finds_last(search: &ChtSearch, found: Option<(H256, U256)>)
    requires
        call_ensures(ChtSearch::found, (search,), found),
    ensures
        found is None ==> forall|i: int|
            0 <= i < search.seen().len() ==> !has_number(
                #[trigger] search.seen()[i],
                search.target(),
            ),
        found is Some ==> exists|i: int|
            {
                &&& 0 <= i < search.seen().len()
                &&& has_number(#[trigger] search.seen()[i], search.target())
                &&& found == Some((search.seen()[i].0->0.hash, search.seen()[i].1->0))
                &&& forall|j: int|
                    i < j < search.seen().len() ==> !has_number(
                        #[trigger] search.seen()[j],
                        search.target(),
                    )
            },
{
    let k = lemma_last_visit(search.target(), search.seen());
    if k >= 0 {
        lemma_last_is_found(search.target(), search.seen(), k);
    } else {
        lemma_nothing_found(search.target(), search.seen());
    }
}

/// A search starts with nothing seen.
pub proof fn law_search_starts_empty(number: u64, search: ChtSearch)
    requires
        call_ensures(ChtSearch::new, (number,), search),
    ensures
        search.target() == number,
        search.seen().len() == 0,
{
}

/// A visit adds what is known of the block behind all that was seen. A CHT is built from
/// hash, parent's hash and total difficulty of the block, where header and total
/// difficulty are known, and only there.
pub proof fn law_visit(
    search: &mut ChtSearch,
    header: Option<BlockHeader>,
    td: Option<U256>,
    info: Option<BlockInfo>,
)
    requires
        call_ensures(ChtSearch::visit, (search, header, td), info),
    ensures
        final(search).target() == old(search).target(),
        final(search).seen() == old(search).seen().push((header, td)),
        info is Some <==> header is Some && td is Some,
        info is Some ==> info->0.hash == header->0.hash,
        info is Some ==> info->0.parent_hash == header->0.parent_hash,
        info is Some ==> info->0.total_difficulty == td->0,
{
}

/// A block that is looked up is visited with what the client answers on it.
pub proof fn law_block_info<C: ProvingBlockChainClient + ?Sized>(
    search: &mut ChtSearch,
    client: &C,
    id: BlockId,
    info: Option<BlockInfo>,
)
    requires
        call_ensures(ChtSearch::block_info::<C>, (search, client, id), info),
    ensures
        final(search).target() == old(search).target(),
        exists|header: Option<BlockHeader>, td: Option<U256>|
            {
                &&& #[trigger] call_ensures(C::block_header, (client, id), header)
                &&& #[trigger] call_ensures(C::block_total_difficulty, (client, id), td)
                &&& final(search).seen() == old(search).seen().push((header, td))
                &&& info is Some <==> header is Some && td is Some
                &&& info is Some ==> info->0.hash == header->0.hash
                &&& info is Some ==> info->0.parent_hash == header->0.parent_hash
                &&& info is Some ==> info->0.total_difficulty == td->0
            },
{
}

/// The client and its tries answer so, and not otherwise, on the block that is visited:
/// which one the builder needs, what is known of it, and what the builder becomes with
/// its hash, its parent's hash and its total difficulty.
pub open spec fn answers_only<T: ProvingBlockChainClient + CanonicalHashTries + ?Sized>(
    client: &T,
    visit: Visit<T::Builder>,
) -> bool {
    &&& forall|id: BlockId| #[trigger]
        call_ensures(T::next_block, (client, &visit.before), id) ==> id == visit.id
    &&& forall|header: Option<BlockHeader>| #[trigger]
        call_ensures(T::block_header, (client, visit.id), header) ==> header == Some(visit.header)
    &&& forall|td: Option<U256>| #[trigger]
        call_ensures(T::block_total_difficulty, (client, visit.id), td) ==> td == Some(visit.td)
    &&& forall|after: T::Builder| #[trigger]
        call_ensures(
            T::add_block,
            (
                client,
                visit.before,
                BlockInfo {
                    hash: visit.header.hash,
                    parent_hash: visit.header.parent_hash,
                    total_difficulty: visit.td,
                },
            ),
            after,
        ) ==> after == visit.after
}

/// There is one way into the CHT that holds a block, and it begins with these visits: the
/// CHT is of so many blocks, its builder is `start` at first and `end` after the visits.
pub open spec fn is_only_way<T: ProvingBlockChainClient + CanonicalHashTries + ?Sized>(
    client: &T,
    number: u64,
    cht_number: u64,
    start: T::Builder,
    blocks: u64,
    visits: Seq<Visit<T::Builder>>,
    end: T::Builder,
) -> bool {
    &&& forall|answer: Option<u64>| #[trigger]
        call_ensures(T::block_to_cht_number, (client, number), answer) ==> answer == Some(
            cht_number,
        )
    &&& forall|begun: (T::Builder, u64)| #[trigger]
        call_ensures(T::begin, (client, cht_number), begun) ==> begun == (start, blocks)
    &&& visits.len() <= blocks
    &&& forall|i: int| 0 <= i < visits.len() ==> answers_only(client, #[trigger] visits[i])
    &&& forall|i: int, j: int|
        0 <= i && j == i + 1 && j < visits.len() ==> (#[trigger] visits[i]).after == (
        #[trigger] visits[j]).before
    &&& visits.len() == 0 ==> end == start
    &&& visits.len() > 0 ==> visits[0].before == start && visits[visits.len() - 1].after == end
}

proof fn lemma_only_way<T: ProvingBlockChainClient + CanonicalHashTries + ?Sized>(
    client: &T,
    number: u64,
    cht_number: u64,
    start: T::Builder,
    blocks: u64,
    visits: Seq<Visit<T::Builder>>,
    end: T::Builder,
    walk: Seq<Visit<T::Builder>>,
)
    requires
        is_only_way(client, number, cht_number, start, blocks, visits, end),
        crate::cht::is_walk(client, start, walk),
        walk.len() <= visits.len(),
    ensures
        walk.len() == visits.len() ==> crate::cht::end_of(start, walk) == end,
        walk.len() < visits.len() ==> crate::cht::end_of(start, walk)
            == visits[walk.len() as int].before,
        forall|i: int|
            0 <= i < walk.len() ==> (#[trigger] walk[i]).header == visits[i].header && walk[i].td
                == visits[i].td,
    decreases walk.len(),
{
    if walk.len() > 0 {
        let k = walk.len() - 1;
        let before = walk.drop_last();
        lemma_only_way(client, number, cht_number, start, blocks, visits, end, before);
        let one = walk[k];
        let other = visits[k];
        assert(crate::cht::is_step(client, crate::cht::end_of(start, before), one));
        assert(answers_only(client, other));
        assert(one.before == other.before);
        assert(one.id == other.id);
        assert(Some(one.header) == Some(other.header));
        assert(Some(one.td) == Some(other.td));
        assert(one.after == other.after);
        assert forall|i: int| 0 <= i < walk.len() implies (#[trigger] walk[i]).header
            == visits[i].header && walk[i].td == visits[i].td by {
            if i < k {
                assert(walk[i] == before[i]);
            }
        }
        if k + 1 < visits.len() {
            assert(visits[k].after == visits[k + 1].before);
        }
    }
}

/// The walk that an answer was found on, where there is one way into the CHT.
proof fn lemma_answer_walk<T: ProvingBlockChainClient + CanonicalHashTries + ?Sized>(
    provider: &FullProvider<T>,
    req: CompleteHeaderProofRequest,
    response: HeaderProofResponse,
    cht_number: u64,
    start: T::Builder,
    blocks: u64,
    visits: Seq<Visit<T::Builder>>,
    end: T::Builder,
) -> (walk: Seq<Visit<T::Builder>>)
    requires
        call_ensures(<FullProvider<T> as Provider>::header_proof, (provider, req), response),
        is_only_way(&*provider.client, req.num, cht_number, start, blocks, visits, end),
    ensures
        crate::cht::answers_along(&*provider.client, req.num, start, blocks, walk, response),
        visits.len() <= walk.len(),
{
    let client = &*provider.client;
    assert(crate::cht::answers_number(client, req.num, response));
    assert(!call_ensures(T::block_to_cht_number, (client, req.num), None::<u64>));
    let (number, first, count) = choose|number: u64, first: T::Builder, count: u64| #[trigger]
        crate::cht::answers_in(client, req.num, number, first, count, response);
    assert(call_ensures(T::begin, (client, cht_number), (first, count)));
    let walk = choose|walk: Seq<Visit<T::Builder>>| #[trigger]
        crate::cht::answers_along(client, req.num, start, blocks, walk, response);
    if walk.len() < visits.len() {
        lemma_only_way(client, req.num, cht_number, start, blocks, visits, end, walk);
        assert(answers_only(client, visits[walk.len() as int]));
        assert(!crate::cht::is_stuck(client, crate::cht::end_of(start, walk)));
    }
    walk
}

/// Where the finished CHT proves the block, the response has the same nodes, as many and
/// in the same order, and hash and total difficulty of the block with the requested
/// number on the way.
pub proof fn law_header_proof<T: ProvingBlockChainClient + CanonicalHashTries + ?Sized>(
    provider: &FullProvider<T>,
    req: CompleteHeaderProofRequest,
    response: HeaderProofResponse,
    cht_number: u64,
    start: T::Builder,
    blocks: u64,
    visits: Seq<Visit<T::Builder>>,
    end: T::Builder,
    cht: T::Cht,
    proof: Vec<Vec<u8>>,
    k: int,
)
    requires
        call_ensures(<FullProvider<T> as Provider>::header_proof, (provider, req), response),
        is_only_way(&*provider.client, req.num, cht_number, start, blocks, visits, end),
        visits.len() == blocks,
        0 <= k < visits.len(),
        visits[k].header.number == req.num,
        forall|j: int| k < j < visits.len() ==> (#[trigger] visits[j]).header.number != req.num,
        forall|finished: Option<T::Cht>| #[trigger]
            call_ensures(T::finish, (&*provider.client, end), finished) ==> finished == Some(cht),
        forall|proved: Result<Option<Vec<Vec<u8>>>, TrieError>| #[trigger]
            call_ensures(T::prove, (&*provider.client, &cht, req.num, 0u32), proved) ==> proved
                == Ok::<Option<Vec<Vec<u8>>>, TrieError>(Some(proof)),
    ensures
        response.proof@.len() == proof@.len(),
        forall|i: int| 0 <= i < proof@.len() ==> (#[trigger] response.proof@[i])@ == proof@[i]@,
        response.hash == visits[k].header.hash,
        response.td == visits[k].td,
{
    let client = &*provider.client;
    let walk = lemma_answer_walk(
        provider,
        req,
        response,
        cht_number,
        start,
        blocks,
        visits,
        end,
    );
    lemma_only_way(client, req.num, cht_number, start, blocks, visits, end, walk);
    let seen = crate::cht::lookups(walk);
    assert forall|j: int| 0 <= j < seen.len() implies has_number(#[trigger] seen[j], req.num) == (
    visits[j].header.number == req.num) by {
        assert(seen[j] == (Some(walk[j].header), Some(walk[j].td)));
    }
    assert(seen[k] == (Some(walk[k].header), Some(walk[k].td)));
    assert(has_number(seen[k], req.num));
    lemma_last_is_found(req.num, seen, k);
}

/// No proof is given where no CHT can hold the block.
pub proof fn law_no_proof_without_cht<T: ProvingBlockChainClient + CanonicalHashTries + ?Sized>(
    provider: &FullProvider<T>,
    req: CompleteHeaderProofRequest,
    response: HeaderProofResponse,
)
    requires
        call_ensures(<FullProvider<T> as Provider>::header_proof, (provider, req), response),
        forall|answer: Option<u64>| #[trigger]
            call_ensures(T::block_to_cht_number, (&*provider.client, req.num), answer) ==> answer
                is None,
    ensures
        crate::laws::values::nothing_proved(response),
{
    let client = &*provider.client;
    assert forall|number: u64, start: T::Builder, blocks: u64| #[trigger]
        crate::cht::answers_in(client, req.num, number, start, blocks, response) implies false by {
        assert(call_ensures(T::block_to_cht_number, (client, req.num), Some(number)));
    }
}

/// No proof is given where the client does not know the header, or the total difficulty,
/// of one of the blocks that the CHT needs.
pub proof fn law_no_proof_with_gap<T: ProvingBlockChainClient + CanonicalHashTries + ?Sized>(
    provider: &FullProvider<T>,
    req: CompleteHeaderProofRequest,
    response: HeaderProofResponse,
    cht_number: u64,
    start: T::Builder,
    blocks: u64,
    visits: Seq<Visit<T::Builder>>,
    end: T::Builder,
    gap: BlockId,
)
    requires
        call_ensures(<FullProvider<T> as Provider>::header_proof, (provider, req), response),
        is_only_way(&*provider.client, req.num, cht_number, start, blocks, visits, end),
        visits.len() < blocks,
        forall|id: BlockId| #[trigger]
            call_ensures(T::next_block, (&*provider.client, &end), id) ==> id == gap,
        (forall|header: Option<BlockHeader>| #[trigger]
            call_ensures(T::block_header, (&*provider.client, gap), header) ==> header is None) || (
        forall|td: Option<U256>| #[trigger]
            call_ensures(T::block_total_difficulty, (&*provider.client, gap), td) ==> td is None),
    ensures
        crate::laws::values::nothing_proved(response),
{
    let client = &*provider.client;
    let walk = lemma_answer_walk(
        provider,
        req,
        response,
        cht_number,
        start,
        blocks,
        visits,
        end,
    );
    let k = visits.len() as int;
    if walk.len() > k {
        crate::cht::lemma_walk_prefix(client, start, walk, k);
        lemma_only_way(client, req.num, cht_number, start, blocks, visits, end, walk.take(k));
        let next = walk[k];
        assert(next.before == end);
        assert(next.id == gap);
        assert(crate::cht::looks_up(client, gap, Some(next.header), Some(next.td)));
    }
}

/// No proof is given where the CHT cannot be finished, where the block is not on the way,
/// or where the CHT gives none.
pub proof fn law_no_proof_at_end<T: ProvingBlockChainClient + CanonicalHashTries + ?Sized>(
    provider: &FullProvider<T>,
    req: CompleteHeaderProofRequest,
    response: HeaderProofResponse,
    cht_number: u64,
    start: T::Builder,
    blocks: u64,
    visits: Seq<Visit<T::Builder>>,
    end: T::Builder,
    cht: T::Cht,
)
    requires
        call_ensures(<FullProvider<T> as Provider>::header_proof, (provider, req), response),
        is_only_way(&*provider.client, req.num, cht_number, start, blocks, visits, end),
        visits.len() == blocks,
        ({
            ||| forall|finished: Option<T::Cht>| #[trigger]
                call_ensures(T::finish, (&*provider.client, end), finished) ==> finished is None
            ||| forall|j: int|
                0 <= j < visits.len() ==> (#[trigger] visits[j]).header.number != req.num
            ||| {
                &&& forall|finished: Option<T::Cht>| #[trigger]
                    call_ensures(T::finish, (&*provider.client, end), finished) ==> finished
                        == Some(cht)
                &&& forall|proved: Result<Option<Vec<Vec<u8>>>, TrieError>| #[trigger]
                    call_ensures(T::prove, (&*provider.client, &cht, req.num, 0u32), proved)
                        ==> !(proved matches Ok(Some(_)))
            }
        }),
    ensures
        crate::laws::values::nothing_proved(response),
{
    let client = &*provider.client;
    let walk = lemma_answer_walk(
        provider,
        req,
        response,
        cht_number,
        start,
        blocks,
        visits,
        end,
    );
    lemma_only_way(client, req.num, cht_number, start, blocks, visits, end, walk);
    let seen = crate::cht::lookups(walk);
    if forall|j: int| 0 <= j < visits.len() ==> (#[trigger] visits[j]).header.number != req.num {
        assert forall|j: int| 0 <= j < seen.len() implies !has_number(
            #[trigger] seen[j],
            req.num,
        ) by {
            assert(seen[j] == (Some(walk[j].header), Some(walk[j].td)));
            assert(visits[j].header.number != req.num);
        }
        lemma_nothing_found(req.num, seen);
    }
}

/// Whatever was answered on the way, a response that is not empty has the very nodes that
/// a CHT gave for the requested block, and hash and total difficulty that the client
/// answered for one block, which has the requested number.
pub proof fn law_header_proof_has_source<
    T: ProvingBlockChainClient + CanonicalHashTries + ?Sized,
>(provider: &FullProvider<T>, req: CompleteHeaderProofRequest, response: HeaderProofResponse)
    requires
        call_ensures(<FullProvider<T> as Provider>::header_proof, (provider, req), response),
        !crate::laws::values::nothing_proved(response),
    ensures
        exists|end: T::Builder, cht: T::Cht, proof: Vec<Vec<u8>>|
            {
                &&& #[trigger] call_ensures(T::finish, (&*provider.client, end), Some(cht))
                &&& #[trigger] call_ensures(
                    T::prove,
                    (&*provider.client, &cht, req.num, 0u32),
                    Ok::<Option<Vec<Vec<u8>>>, TrieError>(Some(proof)),
                )
                &&& crate::laws::values::same_bytes(response.proof@, proof@)
            },
        exists|id: BlockId, header: BlockHeader|
            {
                &&& #[trigger] call_ensures(
                    T::block_header,
                    (&*provider.client, id),
                    Some(header),
                )
                &&& call_ensures(
                    T::block_total_difficulty,
                    (&*provider.client, id),
                    Some(response.td),
                )
                &&& header.number == req.num
                &&& header.hash == response.hash
            },
{
    let client = &*provider.client;
    let (cht_number, start, blocks) = choose|cht_number: u64, start: T::Builder, blocks: u64|
        #[trigger] crate::cht::answers_in(client, req.num, cht_number, start, blocks, response);
    let walk = choose|walk: Seq<Visit<T::Builder>>| #[trigger]
        crate::cht::answers_along(client, req.num, start, blocks, walk, response);
    let seen = crate::cht::lookups(walk);
    let k = lemma_last_visit(req.num, seen);
    if k >= 0 {
        lemma_last_is_found(req.num, seen, k);
        assert(seen[k] == (Some(walk[k].header), Some(walk[k].td)));
        crate::cht::lemma_walk_prefix(client, start, walk, k);
        assert(crate::cht::looks_up(
            client,
            walk[k].id,
            Some(walk[k].header),
            Some(walk[k].td),
        ));
    } else {
        lemma_nothing_found(req.num, seen);
    }
}

} // verus!
