//! Which headers a request for headers gets.
use crate::block::{BlockChainInfo, BlockHeader, BlockId, Header, H256};
use crate::cht::CanonicalHashTries;
use crate::client::ProvingBlockChainClient;
use crate::full::FullProvider;
use crate::headers::header_numbers;
use crate::provider::Provider;
use crate::request::{CompleteHeadersRequest, HashOrNumber, HeadersResponse};
use vstd::prelude::*;

verus! {

/// The number of the block that stands `i * (skip + 1)` blocks above the start, or below
/// it; none is greater than a block number can be.
pub open spec fn number_at(start: u64, skip: u64, reverse: bool, i: int) -> int {
    if reverse {
        start - i * (skip + 1)
    } else if start + i * (skip + 1) <= u64::MAX {
        start + i * (skip + 1)
    } else {
        u64::MAX as int
    }
}

/// A header is due so far from the start: downwards of every block but the first of all,
/// upwards of the start and of every block up to the best one.
pub open spec fn is_due(start: u64, best: u64, skip: u64, reverse: bool, i: int) -> bool {
    if reverse {
        i * (skip + 1) < start
    } else {
        i == 0 || start + i * (skip + 1) <= best || (start == 0 && best == u64::MAX)
    }
}

proof fn lemma_due(start: u64, best: u64, skip: u64, reverse: bool, i: int)
    requires
        0 <= i,
    ensures
        crate::headers::in_chain(start, best, skip, reverse, i) == is_due(
            start,
            best,
            skip,
            reverse,
            i,
        ),
        is_due(start, best, skip, reverse, i) ==> crate::headers::header_number(
            start,
            skip,
            reverse,
            i,
        ) == number_at(start, skip, reverse, i),
        is_due(start, best, skip, reverse, i) ==> 0 <= number_at(start, skip, reverse, i)
            <= u64::MAX,
{
    let far = i * (skip + 1);
    let step = if skip < u64::MAX { skip + 1 } else { u64::MAX as int };
    assert(i >= 1 && skip == u64::MAX ==> far > u64::MAX) by (nonlinear_arith)
        requires
            far == i * (skip + 1),
    ;
    assert(i >= 1 && skip == u64::MAX ==> i * u64::MAX >= u64::MAX) by (nonlinear_arith);
    assert(i == 0 ==> far == 0 && i * step == 0) by (nonlinear_arith)
        requires
            far == i * (skip + 1),
    ;
    assert(i >= 1 && step >= 1 ==> i * step >= 1) by (nonlinear_arith);
    assert(far >= 0) by (nonlinear_arith)
        requires
            far == i * (skip + 1),
            i >= 0,
    ;
}

proof fn lemma_planned(start: u64, best: u64, skip: u64, max: u64, reverse: bool)
    ensures
        ({
            let numbers = crate::headers::planned_numbers(start, best, skip, max, reverse);
            &&& numbers.len() <= max
            &&& numbers.len() <= 512
            &&& forall|i: int|
                0 <= i < numbers.len() ==> (#[trigger] numbers[i]) == number_at(
                    start,
                    skip,
                    reverse,
                    i,
                ) && is_due(start, best, skip, reverse, i)
            &&& forall|i: int|
                0 <= i < max && i < 512 && #[trigger] is_due(start, best, skip, reverse, i) ==> i
                    < numbers.len()
        }),
{
    let numbers = crate::headers::planned_numbers(start, best, skip, max, reverse);
    let limit = crate::headers::header_limit(max);
    crate::headers::lemma_header_count(start, best, skip, reverse, limit);
    assert forall|i: int| 0 <= i < numbers.len() implies (#[trigger] numbers[i]) == number_at(
        start,
        skip,
        reverse,
        i,
    ) && is_due(start, best, skip, reverse, i) by {
        assert(crate::headers::in_chain(start, best, skip, reverse, i));
        lemma_due(start, best, skip, reverse, i);
    }
    assert forall|i: int|
        0 <= i < max && i < 512 && #[trigger] is_due(start, best, skip, reverse, i) implies i
        < numbers.len() by {
        lemma_due(start, best, skip, reverse, i);
        crate::headers::law_nothing_left_out(start, best, skip, max, reverse, i);
    }
}

/// The numbers that are asked for are those of the blocks that are due, first to last: of
/// no more than `max`, of no more than 512, and none of them is left out.
pub proof fn law_header_numbers(
    start: u64,
    best: u64,
    skip: u64,
    max: u64,
    reverse: bool,
    numbers: Vec<u64>,
)
    requires
        call_ensures(header_numbers, (start, best, skip, max, reverse), numbers),
    ensures
        numbers@.len() <= max,
        numbers@.len() <= 512,
        forall|i: int|
            0 <= i < numbers@.len() ==> (#[trigger] numbers@[i]) == number_at(
                start,
                skip,
                reverse,
                i,
            ) && is_due(start, best, skip, reverse, i),
        forall|i: int|
            0 <= i < max && i < 512 && #[trigger] is_due(start, best, skip, reverse, i) ==> i
                < numbers@.len(),
{
    lemma_planned(start, best, skip, max, reverse);
}

/// The client's chain is this one: on the best block it answers with that number, and on
/// each block as `chain` says, always.
pub open spec fn has_chain<T: ProvingBlockChainClient + ?Sized>(
    client: &T,
    best: u64,
    chain: spec_fn(BlockId) -> Option<BlockHeader>,
) -> bool {
    &&& forall|info: BlockChainInfo| #[trigger]
        call_ensures(T::chain_info, (client,), info) ==> info.best_block_number == best
    &&& forall|id: BlockId, found: Option<BlockHeader>| #[trigger]
        call_ensures(T::block_header, (client, id), found) ==> found == chain(id)
}

/// The chain has a block under the hash, and under that block's number a block with the
/// hash.
pub open spec fn is_canonical(chain: spec_fn(BlockId) -> Option<BlockHeader>, hash: H256) -> bool {
    &&& chain(BlockId::Hash(hash)) is Some
    &&& chain(BlockId::Number(chain(BlockId::Hash(hash))->0.number)) is Some
    &&& forall|i: int|
        0 <= i < 32 ==> #[trigger] chain(
            BlockId::Number(chain(BlockId::Hash(hash))->0.number),
        )->0.hash.0@[i] == hash.0@[i]
}

proof fn lemma_found_on<T: ProvingBlockChainClient + CanonicalHashTries + ?Sized>(
    provider: &FullProvider<T>,
    best: u64,
    chain: spec_fn(BlockId) -> Option<BlockHeader>,
    finds: spec_fn(BlockId, Header) -> bool,
)
    requires
        has_chain(&*provider.client, best, chain),
        finds == (|id: BlockId, header: Header|
            call_ensures(<FullProvider<T> as Provider>::block_header, (provider, id), header)),
    ensures
        forall|id: BlockId, header: Header| #[trigger]
            finds(id, header) ==> match chain(id) {
                Some(block) => header == Header::Block(block),
                None => header is Empty,
            },
{
    assert forall|id: BlockId, header: Header| #[trigger]
        finds(id, header) implies match chain(id) {
        Some(block) => header == Header::Block(block),
        None => header is Empty,
    } by {
        crate::laws::full::law_block_header(provider, id, header);
    }
}

proof fn lemma_headers_answer<T: ProvingBlockChainClient + CanonicalHashTries + ?Sized>(
    provider: &FullProvider<T>,
    best: u64,
    chain: spec_fn(BlockId) -> Option<BlockHeader>,
    finds: spec_fn(BlockId, Header) -> bool,
    req: CompleteHeadersRequest,
    response: HeadersResponse,
)
    requires
        call_ensures(<FullProvider<T> as Provider>::block_headers, (provider, req), response),
        has_chain(&*provider.client, best, chain),
        finds == (|id: BlockId, header: Header|
            call_ensures(<FullProvider<T> as Provider>::block_header, (provider, id), header)),
        req.max > 0,
    ensures
        crate::headers::headers_answer(req, best, finds, response.headers@),
        forall|id: BlockId, header: Header| #[trigger]
            finds(id, header) ==> match chain(id) {
                Some(block) => header == Header::Block(block),
                None => header is Empty,
            },
{
    lemma_found_on(provider, best, chain, finds);
    let info = choose|info: BlockChainInfo| #[trigger]
        call_ensures(<FullProvider<T> as Provider>::chain_info, (provider,), info)
            && crate::headers::headers_answer(
            req,
            info.best_block_number,
            finds,
            response.headers@,
        );
    crate::laws::full::law_chain_info(provider, info);
}

/// A request for no headers gets none.
pub proof fn law_no_headers_asked<T: ProvingBlockChainClient + CanonicalHashTries + ?Sized>(
    provider: &FullProvider<T>,
    req: CompleteHeadersRequest,
    response: HeadersResponse,
)
    requires
        call_ensures(<FullProvider<T> as Provider>::block_headers, (provider, req), response),
        req.max == 0,
    ensures
        response.headers@.len() == 0,
{
}

/// The headers are those of the blocks that are due from that number on, as the chain has
/// them: no more than `max`, no more than 512, and where the chain has all blocks up to
/// one that is due, its header is among them.
pub open spec fn lists(
    chain: spec_fn(BlockId) -> Option<BlockHeader>,
    best: u64,
    start: u64,
    skip: u64,
    max: u64,
    reverse: bool,
    headers: Seq<Header>,
) -> bool {
    &&& headers.len() <= max
    &&& headers.len() <= 512
    &&& forall|i: int|
        0 <= i < headers.len() ==> {
            let number = number_at(start, skip, reverse, i);
            &&& (#[trigger] headers[i]) is Block
            &&& is_due(start, best, skip, reverse, i)
            &&& 0 <= number <= u64::MAX
            &&& chain(BlockId::Number(number as u64)) == Some(headers[i]->Block_0)
        }
    &&& forall|i: int|
        {
            &&& 0 <= i < max
            &&& i < 512
            &&& #[trigger] is_due(start, best, skip, reverse, i)
            &&& forall|j: int|
                0 <= j <= i ==> #[trigger] chain(
                    BlockId::Number(number_at(start, skip, reverse, j) as u64),
                ) is Some
        } ==> i < headers.len()
}

proof fn lemma_lists(
    chain: spec_fn(BlockId) -> Option<BlockHeader>,
    finds: spec_fn(BlockId, Header) -> bool,
    best: u64,
    start: u64,
    skip: u64,
    max: u64,
    reverse: bool,
    headers: Seq<Header>,
)
    requires
        crate::headers::headers_at(
            crate::headers::planned_numbers(start, best, skip, max, reverse),
            finds,
            headers,
        ),
        forall|id: BlockId, header: Header| #[trigger]
            finds(id, header) ==> match chain(id) {
                Some(block) => header == Header::Block(block),
                None => header is Empty,
            },
    ensures
        lists(chain, best, start, skip, max, reverse, headers),
{
    let numbers = crate::headers::planned_numbers(start, best, skip, max, reverse);
    lemma_planned(start, best, skip, max, reverse);
    assert forall|i: int| 0 <= i < headers.len() implies {
        let number = number_at(start, skip, reverse, i);
        &&& (#[trigger] headers[i]) is Block
        &&& is_due(start, best, skip, reverse, i)
        &&& 0 <= number <= u64::MAX
        &&& chain(BlockId::Number(number as u64)) == Some(headers[i]->Block_0)
    } by {
        assert(numbers[i] == number_at(start, skip, reverse, i));
        assert(finds(BlockId::Number(numbers[i]), headers[i]));
    }
    if headers.len() < numbers.len() {
        let k = headers.len() as int;
        let gap = choose|gap: Header|
            gap is Empty && #[trigger] finds(BlockId::Number(numbers[k]), gap);
        assert(numbers[k] == number_at(start, skip, reverse, k));
        assert(chain(BlockId::Number(number_at(start, skip, reverse, k) as u64)) is None);
    }
}

/// From a number on, the blocks that are due are listed.
pub proof fn law_headers_from_number<T: ProvingBlockChainClient + CanonicalHashTries + ?Sized>(
    provider: &FullProvider<T>,
    best: u64,
    chain: spec_fn(BlockId) -> Option<BlockHeader>,
    req: CompleteHeadersRequest,
    start: u64,
    response: HeadersResponse,
)
    requires
        call_ensures(<FullProvider<T> as Provider>::block_headers, (provider, req), response),
        has_chain(&*provider.client, best, chain),
        req.start == HashOrNumber::Number(start),
    ensures
        lists(chain, best, start, req.skip, req.max, req.reverse, response.headers@),
{
    if req.max > 0 {
        let finds = |id: BlockId, header: Header|
            call_ensures(<FullProvider<T> as Provider>::block_header, (provider, id), header);
        lemma_headers_answer(provider, best, chain, finds, req, response);
        lemma_lists(
            chain,
            finds,
            best,
            start,
            req.skip,
            req.max,
            req.reverse,
            response.headers@,
        );
    }
}

/// From the hash of a canonical block on, the blocks that are due from its number on are
/// listed, upwards and downwards, where more than one is asked for.
pub proof fn law_headers_from_canonical_hash<
    T: ProvingBlockChainClient + CanonicalHashTries + ?Sized,
>(
    provider: &FullProvider<T>,
    best: u64,
    chain: spec_fn(BlockId) -> Option<BlockHeader>,
    req: CompleteHeadersRequest,
    hash: H256,
    response: HeadersResponse,
)
    requires
        call_ensures(<FullProvider<T> as Provider>::block_headers, (provider, req), response),
        has_chain(&*provider.client, best, chain),
        req.start == HashOrNumber::Hash(hash),
        req.max > 1,
        is_canonical(chain, hash),
    ensures
        lists(
            chain,
            best,
            chain(BlockId::Hash(hash))->0.number,
            req.skip,
            req.max,
            req.reverse,
            response.headers@,
        ),
{
    let finds = |id: BlockId, header: Header|
        call_ensures(<FullProvider<T> as Provider>::block_header, (provider, id), header);
    lemma_headers_answer(provider, best, chain, finds, req, response);
    let first = choose|first: Header| #[trigger]
        crate::headers::headers_from(req, best, finds, hash, first, response.headers@);
    assert(finds(BlockId::Hash(hash), first));
    let number = chain(BlockId::Hash(hash))->0.number;
    assert(chain(BlockId::Number(number))->0.hash.0@ =~= hash.0@);
    assert forall|canonical: Header| #[trigger]
        finds(BlockId::Number(number), canonical) implies canonical.is_of(hash) by {}
    lemma_lists(
        chain,
        finds,
        best,
        number,
        req.skip,
        req.max,
        req.reverse,
        response.headers@,
    );
}

/// A block that the chain does not have under the requested hash has no headers.
pub proof fn law_headers_from_unknown_hash<
    T: ProvingBlockChainClient + CanonicalHashTries + ?Sized,
>(
    provider: &FullProvider<T>,
    best: u64,
    chain: spec_fn(BlockId) -> Option<BlockHeader>,
    req: CompleteHeadersRequest,
    hash: H256,
    response: HeadersResponse,
)
    requires
        call_ensures(<FullProvider<T> as Provider>::block_headers, (provider, req), response),
        has_chain(&*provider.client, best, chain),
        req.start == HashOrNumber::Hash(hash),
        chain(BlockId::Hash(hash)) is None,
    ensures
        response.headers@.len() == 0,
{
    if req.max > 0 {
        let finds = |id: BlockId, header: Header|
            call_ensures(<FullProvider<T> as Provider>::block_header, (provider, id), header);
        lemma_headers_answer(provider, best, chain, finds, req, response);
        let first = choose|first: Header| #[trigger]
            crate::headers::headers_from(
                req,
                best,
                finds,
                hash,
                first,
                response.headers@,
            );
        assert(finds(BlockId::Hash(hash), first));
    }
}

/// One header that is asked for by its hash is that header alone; so is every request
/// from a block off the canonical chain, which has another block, or none, under its
/// number.
pub proof fn law_header_alone<T: ProvingBlockChainClient + CanonicalHashTries + ?Sized>(
    provider: &FullProvider<T>,
    best: u64,
    chain: spec_fn(BlockId) -> Option<BlockHeader>,
    req: CompleteHeadersRequest,
    hash: H256,
    response: HeadersResponse,
)
    requires
        call_ensures(<FullProvider<T> as Provider>::block_headers, (provider, req), response),
        has_chain(&*provider.client, best, chain),
        req.start == HashOrNumber::Hash(hash),
        req.max > 0,
        chain(BlockId::Hash(hash)) is Some,
        req.max == 1 || !is_canonical(chain, hash),
    ensures
        response.headers@.len() == 1,
        response.headers@[0] == Header::Block(chain(BlockId::Hash(hash))->0),
{
    let finds = |id: BlockId, header: Header|
        call_ensures(<FullProvider<T> as Provider>::block_header, (provider, id), header);
    lemma_headers_answer(provider, best, chain, finds, req, response);
    let first = choose|first: Header| #[trigger]
        crate::headers::headers_from(
            req,
            best,
            finds,
            hash,
            first,
            response.headers@,
        );
    assert(finds(BlockId::Hash(hash), first));
    let number = first->Block_0.number;
    assert forall|canonical: Header| #[trigger]
        finds(BlockId::Number(number), canonical) implies req.max <= 1
        || !canonical.is_of(hash) by {}
}

/// From a canonical block on, a request for more than one header gets the same list by
/// the block's hash as by its number, upwards and downwards.
pub proof fn law_headers_from_hash_as_from_number<
    T: ProvingBlockChainClient + CanonicalHashTries + ?Sized,
>(
    provider: &FullProvider<T>,
    best: u64,
    chain: spec_fn(BlockId) -> Option<BlockHeader>,
    hash: H256,
    from_hash: CompleteHeadersRequest,
    by_hash: HeadersResponse,
    from_number: CompleteHeadersRequest,
    by_number: HeadersResponse,
)
    requires
        has_chain(&*provider.client, best, chain),
        is_canonical(chain, hash),
        from_hash.start == HashOrNumber::Hash(hash),
        from_number.start == HashOrNumber::Number(chain(BlockId::Hash(hash))->0.number),
        from_hash.skip == from_number.skip,
        from_hash.max == from_number.max,
        from_hash.reverse == from_number.reverse,
        from_hash.max > 1,
        call_ensures(
            <FullProvider<T> as Provider>::block_headers,
            (provider, from_hash),
            by_hash,
        ),
        call_ensures(
            <FullProvider<T> as Provider>::block_headers,
            (provider, from_number),
            by_number,
        ),
    ensures
        by_hash.headers@.len() == by_number.headers@.len(),
        forall|i: int|
            0 <= i < by_hash.headers@.len() ==> #[trigger] by_hash.headers@[i]
                == by_number.headers@[i],
{
    let number = chain(BlockId::Hash(hash))->0.number;
    law_headers_from_canonical_hash(provider, best, chain, from_hash, hash, by_hash);
    law_headers_from_number(provider, best, chain, from_number, number, by_number);
    let (skip, max, reverse) = (from_hash.skip, from_hash.max, from_hash.reverse);
    let ones = by_hash.headers@;
    let others = by_number.headers@;
    lemma_longer_list(chain, best, number, skip, max, reverse, ones, others);
    lemma_longer_list(chain, best, number, skip, max, reverse, others, ones);
    assert forall|i: int| 0 <= i < ones.len() implies #[trigger] ones[i] == others[i] by {
        assert(ones[i] is Block && others[i] is Block);
    }
}

proof fn lemma_longer_list(
    chain: spec_fn(BlockId) -> Option<BlockHeader>,
    best: u64,
    start: u64,
    skip: u64,
    max: u64,
    reverse: bool,
    ones: Seq<Header>,
    others: Seq<Header>,
)
    requires
        lists(chain, best, start, skip, max, reverse, ones),
        lists(chain, best, start, skip, max, reverse, others),
    ensures
        ones.len() <= others.len(),
{
    if others.len() < ones.len() {
        let k = others.len() as int;
        assert(ones[k] is Block);
        assert forall|j: int| 0 <= j <= k implies #[trigger] chain(
            BlockId::Number(number_at(start, skip, reverse, j) as u64),
        ) is Some by {
            assert(ones[j] is Block);
        }
    }
}

/// Whatever the client answers from one question to the next, the headers are its own:
/// from a number on, each is its answer on the block that stands so far from the start;
/// from a hash on, it is the answer on that hash alone, or each is the answer on the block
/// that stands so far from the block with that hash; none where there is no such block.
pub proof fn law_headers_have_source<T: ProvingBlockChainClient + CanonicalHashTries + ?Sized>(
    provider: &FullProvider<T>,
    req: CompleteHeadersRequest,
    response: HeadersResponse,
)
    requires
        call_ensures(<FullProvider<T> as Provider>::block_headers, (provider, req), response),
    ensures
        req.start is Number && response.headers@.len() > 0 ==> exists|info: BlockChainInfo|
            {
                &&& #[trigger] call_ensures(T::chain_info, (&*provider.client,), info)
                &&& are_answers(
                    &*provider.client,
                    info.best_block_number,
                    req.start->Number_0,
                    req,
                    response.headers@,
                )
            },
        req.start is Hash && response.headers@.len() > 0 ==> exists|
            info: BlockChainInfo,
            first: BlockHeader,
        |
            {
                &&& #[trigger] call_ensures(T::chain_info, (&*provider.client,), info)
                &&& #[trigger] call_ensures(
                    T::block_header,
                    (&*provider.client, BlockId::Hash(req.start->Hash_0)),
                    Some(first),
                )
                &&& {
                    ||| response.headers@ == seq![Header::Block(first)]
                    ||| req.max > 1 && are_answers(
                        &*provider.client,
                        info.best_block_number,
                        first.number,
                        req,
                        response.headers@,
                    )
                }
            },
{
    if req.max > 0 {
        let headers = response.headers@;
        let finds = |id: BlockId, header: Header|
            call_ensures(<FullProvider<T> as Provider>::block_header, (provider, id), header);
        let info = choose|info: BlockChainInfo| #[trigger]
            call_ensures(<FullProvider<T> as Provider>::chain_info, (provider,), info)
                && crate::headers::headers_answer(req, info.best_block_number, finds, headers);
        crate::laws::full::law_chain_info(provider, info);
        match req.start {
            HashOrNumber::Number(start) => {
                lemma_are_answers(provider, finds, info.best_block_number, start, req, headers);
            },
            HashOrNumber::Hash(hash) => {
                if headers.len() > 0 {
                    let first = choose|first: Header| #[trigger]
                        crate::headers::headers_from(
                            req,
                            info.best_block_number,
                            finds,
                            hash,
                            first,
                            headers,
                        );
                    crate::laws::full::law_block_header(provider, BlockId::Hash(hash), first);
                    let block = first->Block_0;
                    assert(call_ensures(
                        T::block_header,
                        (&*provider.client, BlockId::Hash(hash)),
                        Some(block),
                    ));
                    if !(headers == seq![first]) {
                        lemma_are_answers(
                            provider,
                            finds,
                            info.best_block_number,
                            block.number,
                            req,
                            headers,
                        );
                    }
                }
            },
        }
    }
}

/// Each header is the client's answer on the block that stands so far from that number,
/// and is due on a chain with that best block.
pub open spec fn are_answers<T: ProvingBlockChainClient + ?Sized>(
    client: &T,
    best: u64,
    start: u64,
    req: CompleteHeadersRequest,
    headers: Seq<Header>,
) -> bool {
    forall|i: int|
        0 <= i < headers.len() ==> {
            let number = number_at(start, req.skip, req.reverse, i);
            &&& (#[trigger] headers[i]) is Block
            &&& is_due(start, best, req.skip, req.reverse, i)
            &&& 0 <= number <= u64::MAX
            &&& call_ensures(
                T::block_header,
                (client, BlockId::Number(number as u64)),
                Some(headers[i]->Block_0),
            )
        }
}

proof fn lemma_are_answers<T: ProvingBlockChainClient + CanonicalHashTries + ?Sized>(
    provider: &FullProvider<T>,
    finds: spec_fn(BlockId, Header) -> bool,
    best: u64,
    start: u64,
    req: CompleteHeadersRequest,
    headers: Seq<Header>,
)
    requires
        finds == (|id: BlockId, header: Header|
            call_ensures(<FullProvider<T> as Provider>::block_header, (provider, id), header)),
        crate::headers::headers_at(
            crate::headers::planned_numbers(start, best, req.skip, req.max, req.reverse),
            finds,
            headers,
        ),
    ensures
        are_answers(&*provider.client, best, start, req, headers),
{
    let numbers = crate::headers::planned_numbers(start, best, req.skip, req.max, req.reverse);
    lemma_planned(start, best, req.skip, req.max, req.reverse);
    assert forall|i: int| 0 <= i < headers.len() implies {
        let number = number_at(start, req.skip, req.reverse, i);
        &&& (#[trigger] headers[i]) is Block
        &&& is_due(start, best, req.skip, req.reverse, i)
        &&& 0 <= number <= u64::MAX
        &&& call_ensures(
            T::block_header,
            (&*provider.client, BlockId::Number(number as u64)),
            Some(headers[i]->Block_0),
        )
    } by {
        assert(numbers[i] == number_at(start, req.skip, req.reverse, i));
        assert(finds(BlockId::Number(numbers[i]), headers[i]));
        crate::laws::full::law_block_header(provider, BlockId::Number(numbers[i]), headers[i]);
        let found = choose|found: Option<BlockHeader>|
            {
                &&& #[trigger] call_ensures(
                    T::block_header,
                    (&*provider.client, BlockId::Number(numbers[i])),
                    found,
                )
                &&& found is Some ==> headers[i]->Block_0 == found->0
                &&& found is None ==> headers[i] is Empty
            };
        assert(found == Some(headers[i]->Block_0));
    }
}

/// What every provider keeps to: no more than `max` headers; where it answers a number
/// with a block of that number, they start at the requested number and stand
/// `i * (skip + 1)` blocks apart, upwards or downwards; where it always answers a hash
/// with one and the same block of that hash, they start at the requested hash.
pub proof fn law_any_headers<P: Provider>(
    provider: &P,
    req: CompleteHeadersRequest,
    response: HeadersResponse,
)
    requires
        call_ensures(P::block_headers, (provider, req), response),
    ensures
        response.headers@.len() <= req.max,
        (forall|number: u64, found: Header| #[trigger]
            call_ensures(P::block_header, (provider, BlockId::Number(number)), found)
                && found is Block ==> found->Block_0.number == number) ==> {
            let headers = response.headers@;
            &&& req.start is Number && headers.len() > 0 ==> headers[0] is Block
                && headers[0]->Block_0.number == req.start->Number_0
            &&& forall|i: int|
                0 <= i < headers.len() && (req.reverse || i * (req.skip + 1) <= u64::MAX) ==> {
                    &&& (#[trigger] headers[i]) is Block
                    &&& headers[0] is Block
                    &&& req.reverse ==> headers[i]->Block_0.number == headers[0]->Block_0.number
                        - i * (req.skip + 1)
                    &&& !req.reverse ==> headers[i]->Block_0.number == headers[0]->Block_0.number
                        + i * (req.skip + 1)
                }
        },
        (forall|id: BlockId, one: Header, other: Header|
            #[trigger] call_ensures(P::block_header, (provider, id), one)
                && #[trigger] call_ensures(P::block_header, (provider, id), other) ==> one
                == other) && (forall|hash: H256, found: Header, i: int|
            #![trigger call_ensures(P::block_header, (provider, BlockId::Hash(hash)), found), hash.0@[i]]
            call_ensures(P::block_header, (provider, BlockId::Hash(hash)), found) && found is Block
                && 0 <= i < 32 ==> found->Block_0.hash.0@[i] == hash.0@[i]) && req.start is Hash
            && response.headers@.len() > 0 ==> {
            let first = response.headers@[0];
            &&& first is Block
            &&& forall|i: int|
                0 <= i < 32 ==> #[trigger] first->Block_0.hash.0@[i] == req.start->Hash_0.0@[i]
        },
{
    let headers = response.headers@;
    let finds = |id: BlockId, header: Header|
        call_ensures(P::block_header, (provider, id), header);
    assert(crate::headers::headers_serve(req, finds, headers));
    if forall|number: u64, found: Header| #[trigger]
        call_ensures(P::block_header, (provider, BlockId::Number(number)), found) && found is Block
            ==> found->Block_0.number == number {
        assert(crate::headers::numbers_hold(finds));
        assert forall|i: int|
            0 <= i < headers.len() && (req.reverse || i * (req.skip + 1) <= u64::MAX) implies {
            &&& (#[trigger] headers[i]) is Block
            &&& headers[0] is Block
            &&& req.reverse ==> headers[i]->Block_0.number == headers[0]->Block_0.number - i * (
            req.skip + 1)
            &&& !req.reverse ==> headers[i]->Block_0.number == headers[0]->Block_0.number + i * (
            req.skip + 1)
        } by {
            assert(crate::headers::adheres_at(req, headers, i));
        }
    }
    if forall|hash: H256, found: Header, i: int|
        #![trigger call_ensures(P::block_header, (provider, BlockId::Hash(hash)), found), hash.0@[i]]
        call_ensures(P::block_header, (provider, BlockId::Hash(hash)), found) && found is Block && 0
            <= i < 32 ==> found->Block_0.hash.0@[i] == hash.0@[i] {
        assert forall|hash: H256, found: Header| #[trigger]
            finds(BlockId::Hash(hash), found) && found is Block implies found.is_of(hash) by {
            assert(found->Block_0.hash.0@ =~= hash.0@);
        }
    }
}

} // verus!
