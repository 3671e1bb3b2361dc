//! Which headers answer a request for headers.
use crate::block::{BlockId, Header, H256};
use crate::request::{CompleteHeadersRequest, HashOrNumber};
use vstd::prelude::*;

verus! {

/// Maximum allowed size of a headers request.
pub const MAX_HEADERS_PER_REQUEST: u64 = 512;

/// How far from the start the `i`-th header stands, in blocks. No distance is
/// greater than a block number can be.
pub open spec fn header_offset(skip: u64, i: int) -> int {
    let step = if skip < u64::MAX { skip + 1 } else { u64::MAX as int };
    if i * step <= u64::MAX { i * step } else { u64::MAX as int }
}

/// The `i`-th header stands in the chain: upwards not behind the best block,
/// downwards not at the first block of all nor before it. Upwards the start itself
/// is always asked for.
pub open spec fn in_chain(start: u64, best: u64, skip: u64, reverse: bool, i: int) -> bool {
    if reverse {
        header_offset(skip, i) < start
    } else {
        header_offset(skip, i) == 0 || start + header_offset(skip, i) <= best
    }
}

/// The number of the `i`-th header.
pub open spec fn header_number(start: u64, skip: u64, reverse: bool, i: int) -> u64 {
    if reverse {
        (start - header_offset(skip, i)) as u64
    } else {
        (start + header_offset(skip, i)) as u64
    }
}

/// How many headers stand in the chain before the first one that does not, of
/// `limit` headers.
pub open spec fn header_count(start: u64, best: u64, skip: u64, reverse: bool, limit: nat) -> nat
    decreases limit,
{
    if limit == 0 {
        0
    } else {
        let count = header_count(start, best, skip, reverse, (limit - 1) as nat);
        if count == limit - 1 && in_chain(start, best, skip, reverse, limit - 1) {
            limit
        } else {
            count
        }
    }
}

/// How many headers a response holds at most.
pub open spec fn header_limit(max: u64) -> nat {
    if max < MAX_HEADERS_PER_REQUEST { max as nat } else { MAX_HEADERS_PER_REQUEST as nat }
}

/// The numbers of the blocks whose headers are asked for, first to last.
pub open spec fn planned_numbers(start: u64, best: u64, skip: u64, max: u64, reverse: bool) -> Seq<
    u64,
> {
    Seq::new(
        header_count(start, best, skip, reverse, header_limit(max)),
        |i: int| header_number(start, skip, reverse, i),
    )
}

/// The headers were found under the numbers, one by one, up to the first number
/// under which there is no header. `finds` says which header may be found under
/// which name.
pub open spec fn headers_at(
    numbers: Seq<u64>,
    finds: spec_fn(BlockId, Header) -> bool,
    headers: Seq<Header>,
) -> bool {
    &&& headers.len() <= numbers.len()
    &&& forall|i: int|
        0 <= i < headers.len() ==> (#[trigger] headers[i]) is Block && finds(
            BlockId::Number(numbers[i]),
            headers[i],
        )
    &&& headers.len() < numbers.len() ==> exists|gap: Header|
        gap is Empty && #[trigger] finds(BlockId::Number(numbers[headers.len() as int]), gap)
}

/// The headers answer a request whose start is named by a hash, under which `first` may
/// be found.
///
/// Where `first` is no header, no header is answered. A block that is not canonical, or
/// that is asked for alone, is answered with its own header.
pub open spec fn headers_from(
    req: CompleteHeadersRequest,
    best: u64,
    finds: spec_fn(BlockId, Header) -> bool,
    hash: H256,
    first: Header,
    headers: Seq<Header>,
) -> bool {
    finds(BlockId::Hash(hash), first) && match first {
        Header::Empty(_) => headers.len() == 0,
        Header::Block(block) => exists|canonical: Header| #[trigger]
            finds(BlockId::Number(block.number), canonical) && if req.max <= 1
                || !canonical.is_of(hash) {
                headers == seq![first]
            } else {
                headers_at(
                    planned_numbers(block.number, best, req.skip, req.max, req.reverse),
                    finds,
                    headers,
                )
            },
    }
}

/// The headers answer the request, on a chain with that best block.
pub open spec fn headers_answer(
    req: CompleteHeadersRequest,
    best: u64,
    finds: spec_fn(BlockId, Header) -> bool,
    headers: Seq<Header>,
) -> bool {
    match req.start {
        HashOrNumber::Number(start) => headers_at(
            planned_numbers(start, best, req.skip, req.max, req.reverse),
            finds,
            headers,
        ),
        HashOrNumber::Hash(hash) => exists|first: Header| #[trigger]
            headers_from(req, best, finds, hash, first, headers),
    }
}

/// The header counts are the longest prefix that stands in the chain.
pub(crate) proof fn lemma_header_count(start: u64, best: u64, skip: u64, reverse: bool, limit: nat)
    ensures
        header_count(start, best, skip, reverse, limit) <= limit,
        forall|i: int|
            0 <= i < header_count(start, best, skip, reverse, limit) ==> #[trigger] in_chain(
                start,
                best,
                skip,
                reverse,
                i,
            ),
    decreases limit,
{
    if limit > 0 {
        lemma_header_count(start, best, skip, reverse, (limit - 1) as nat);
    }
}

/// Once a header does not stand in the chain, no further header counts.
proof fn lemma_header_count_ends(
    start: u64,
    best: u64,
    skip: u64,
    reverse: bool,
    count: nat,
    limit: nat,
)
    requires
        header_count(start, best, skip, reverse, count) == count,
        !in_chain(start, best, skip, reverse, count as int),
        count <= limit,
    ensures
        header_count(start, best, skip, reverse, limit) == count,
    decreases limit,
{
    if count < limit {
        lemma_header_count_ends(start, best, skip, reverse, count, (limit - 1) as nat);
    }
}

/// How far from the start a header stands.
fn offset(skip: u64, i: u64) -> (distance: u64)
    ensures
        distance == header_offset(skip, i as int),
{
    let step = skip.saturating_add(1);
    match i.checked_mul(step) {
        Some(distance) => distance,
        None => u64::MAX,
    }
}

/// The numbers of the blocks whose headers are asked for, first to last.
pub fn header_numbers(start: u64, best: u64, skip: u64, max: u64, reverse: bool) -> (numbers: Vec<
    u64,
>)
    ensures
        numbers@ == planned_numbers(start, best, skip, max, reverse),
{
    let limit = if max < MAX_HEADERS_PER_REQUEST { max } else { MAX_HEADERS_PER_REQUEST };
    let mut numbers: Vec<u64> = Vec::new();
    let mut i: u64 = 0;
    while i < limit
        invariant
            limit == header_limit(max),
            i <= limit,
            numbers@.len() == i,
            header_count(start, best, skip, reverse, i as nat) == i,
            forall|j: int| 0 <= j < i ==> numbers@[j] == header_number(start, skip, reverse, j),
        decreases limit - i,
    {
        let distance = offset(skip, i);
        let within = if reverse {
            distance < start
        } else {
            best.saturating_sub(start) >= distance
        };
        assert(within == in_chain(start, best, skip, reverse, i as int));
        if !within {
            proof {
                lemma_header_count_ends(start, best, skip, reverse, i as nat, limit as nat);
            }
            assert(numbers@ =~= planned_numbers(start, best, skip, max, reverse));
            return numbers;
        }
        let number = if reverse {
            start.saturating_sub(distance)
        } else {
            start.saturating_add(distance)
        };
        numbers.push(number);
        i += 1;
    }
    assert(numbers@ =~= planned_numbers(start, best, skip, max, reverse));
    numbers
}

/// A response holds at most `max` headers, and at most `MAX_HEADERS_PER_REQUEST`,
/// whatever is found.
pub proof fn law_headers_limited(
    req: CompleteHeadersRequest,
    best: u64,
    finds: spec_fn(BlockId, Header) -> bool,
    headers: Seq<Header>,
)
    requires
        req.max > 0,
        headers_answer(req, best, finds, headers),
    ensures
        headers.len() <= req.max,
        headers.len() <= MAX_HEADERS_PER_REQUEST,
{
    let limit = header_limit(req.max);
    match req.start {
        HashOrNumber::Number(start) => {
            lemma_header_count(start, best, req.skip, req.reverse, limit);
        },
        HashOrNumber::Hash(hash) => {
            let first = choose|first: Header| #[trigger]
                headers_from(req, best, finds, hash, first, headers);
            if let Header::Block(block) = first {
                lemma_header_count(block.number, best, req.skip, req.reverse, limit);
            }
        },
    }
}

/// The headers that are asked for keep to `skip` and `reverse`: the `i`-th stands
/// `i * (skip + 1)` blocks above the start, or below it, as long as there is a
/// block number so far up.
pub proof fn law_spacing(start: u64, best: u64, skip: u64, max: u64, reverse: bool, i: int)
    requires
        0 <= i < planned_numbers(start, best, skip, max, reverse).len(),
        reverse || i * (skip + 1) <= u64::MAX,
    ensures
        reverse ==> planned_numbers(start, best, skip, max, reverse)[i] == start - i * (skip + 1),
        !reverse ==> planned_numbers(start, best, skip, max, reverse)[i] == start + i * (skip + 1),
{
    lemma_header_count(start, best, skip, reverse, header_limit(max));
    assert(in_chain(start, best, skip, reverse, i));
    assert(i >= 1 && skip == u64::MAX ==> i * (skip + 1) > u64::MAX) by (nonlinear_arith);
    assert(i >= 1 && skip == u64::MAX ==> i * u64::MAX >= u64::MAX) by (nonlinear_arith);
    assert(i == 0 ==> i * (skip + 1) == 0 && i * u64::MAX == 0) by (nonlinear_arith);
}

/// Going up from a block of the chain, no header is asked for behind the best
/// block; going down, none above the start and none of the first block of all.
pub proof fn law_within_chain(start: u64, best: u64, skip: u64, max: u64, reverse: bool, i: int)
    requires
        0 <= i < planned_numbers(start, best, skip, max, reverse).len(),
        reverse || start <= best,
    ensures
        reverse ==> 1 <= planned_numbers(start, best, skip, max, reverse)[i] <= start,
        !reverse ==> start <= planned_numbers(start, best, skip, max, reverse)[i] <= best,
{
    lemma_header_count(start, best, skip, reverse, header_limit(max));
    assert(in_chain(start, best, skip, reverse, i));
    assert(i * (skip + 1) >= 0 && i * u64::MAX >= 0) by (nonlinear_arith)
        requires
            i >= 0,
    ;
}

proof fn lemma_closer_in_chain(start: u64, best: u64, skip: u64, reverse: bool, i: int, j: int)
    requires
        0 <= i <= j,
        in_chain(start, best, skip, reverse, j),
    ensures
        in_chain(start, best, skip, reverse, i),
{
    let step = if skip < u64::MAX { skip + 1 } else { u64::MAX as int };
    assert(0 <= i * step <= j * step) by (nonlinear_arith)
        requires
            0 <= i <= j,
            0 < step,
    ;
}

/// No header is left out: every one that stands in the chain is asked for, up to the
/// limit.
pub proof fn law_nothing_left_out(start: u64, best: u64, skip: u64, max: u64, reverse: bool, i: int)
    requires
        0 <= i < header_limit(max),
        in_chain(start, best, skip, reverse, i),
    ensures
        i < planned_numbers(start, best, skip, max, reverse).len(),
{
    let limit = header_limit(max);
    assert forall|j: int| 0 <= j <= i implies #[trigger] in_chain(start, best, skip, reverse, j) by {
        lemma_closer_in_chain(start, best, skip, reverse, j, i);
    }
    lemma_header_count_reaches(start, best, skip, reverse, i, limit);
}

/// The headers that stand in the chain all count.
proof fn lemma_header_count_reaches(
    start: u64,
    best: u64,
    skip: u64,
    reverse: bool,
    i: int,
    limit: nat,
)
    requires
        0 <= i < limit,
        forall|j: int| 0 <= j <= i ==> #[trigger] in_chain(start, best, skip, reverse, j),
    ensures
        i < header_count(start, best, skip, reverse, limit),
    decreases limit,
{
    if i < limit - 1 {
        lemma_header_count_reaches(start, best, skip, reverse, i, (limit - 1) as nat);
    } else {
        lemma_header_count(start, best, skip, reverse, (limit - 1) as nat);
        if limit >= 2 {
            lemma_header_count_reaches(start, best, skip, reverse, i - 1, (limit - 1) as nat);
        }
        assert(in_chain(start, best, skip, reverse, i));
    }
}

/// What is found under a number is the header of a block with that number, or none.
pub open spec fn numbers_hold(finds: spec_fn(BlockId, Header) -> bool) -> bool {
    forall|number: u64, found: Header| #[trigger]
        finds(BlockId::Number(number), found) && found is Block ==> found->Block_0.number == number
}

/// What is found under a hash is the header of a block with that hash, or none.
pub open spec fn hashes_hold(finds: spec_fn(BlockId, Header) -> bool) -> bool {
    forall|hash: H256, found: Header| #[trigger]
        finds(BlockId::Hash(hash), found) && found is Block ==> found.is_of(hash)
}

/// The chain does not change: what is found under a name is always the same.
pub open spec fn is_stable(finds: spec_fn(BlockId, Header) -> bool) -> bool {
    forall|id: BlockId, one: Header, other: Header| #[trigger]
        finds(id, one) && #[trigger] finds(id, other) ==> one == other
}

/// Where the start is named by a number, the first header is of a block with that
/// number.
pub open spec fn starts_at_number(req: CompleteHeadersRequest, headers: Seq<Header>) -> bool {
    match req.start {
        HashOrNumber::Number(start) => headers.len() > 0 ==> headers[0] is Block
            && headers[0]->Block_0.number == start,
        HashOrNumber::Hash(_) => true,
    }
}

/// Where the start is named by a hash, the first header is of the block with that hash.
pub open spec fn starts_at_hash(req: CompleteHeadersRequest, headers: Seq<Header>) -> bool {
    match req.start {
        HashOrNumber::Number(_) => true,
        HashOrNumber::Hash(hash) => headers.len() > 0 ==> headers[0].is_of(hash),
    }
}

/// The headers start at the block whose number is requested, where what is found under a
/// number has that number.
pub proof fn law_starts_at_number(
    req: CompleteHeadersRequest,
    best: u64,
    finds: spec_fn(BlockId, Header) -> bool,
    headers: Seq<Header>,
)
    requires
        headers_answer(req, best, finds, headers),
        numbers_hold(finds),
    ensures
        starts_at_number(req, headers),
{
    assert(header_offset(req.skip, 0) == 0);
    if req.start is Number && headers.len() > 0 {
        assert(headers[0] is Block);
    }
}

/// The headers start at the block whose hash is requested, on a chain that does not
/// change, where what is found under a hash has that hash.
pub proof fn law_starts_at_hash(
    req: CompleteHeadersRequest,
    best: u64,
    finds: spec_fn(BlockId, Header) -> bool,
    headers: Seq<Header>,
)
    requires
        headers_answer(req, best, finds, headers),
        is_stable(finds),
        hashes_hold(finds),
    ensures
        starts_at_hash(req, headers),
{
    assert(header_offset(req.skip, 0) == 0);
    if req.start is Hash && headers.len() > 0 {
        assert(headers[0] is Block);
    }
}

/// The `i`-th header and the first are headers of blocks, and the `i`-th stands
/// `i * (skip + 1)` blocks above the first, or below it.
pub open spec fn adheres_at(req: CompleteHeadersRequest, headers: Seq<Header>, i: int) -> bool {
    &&& headers[i] is Block
    &&& headers[0] is Block
    &&& headers[i]->Block_0.number == if req.reverse {
        headers[0]->Block_0.number - i * (req.skip + 1)
    } else {
        headers[0]->Block_0.number + i * (req.skip + 1)
    }
}

/// The headers adhere to `skip` and `reverse`, as far up as there are block numbers.
pub open spec fn headers_adhere(req: CompleteHeadersRequest, headers: Seq<Header>) -> bool {
    forall|i: int|
        0 <= i < headers.len() && (req.reverse || i * (req.skip + 1) <= u64::MAX)
            ==> #[trigger] adheres_at(req, headers, i)
}

/// On a chain where what is found under a number has that number, the headers of a
/// response adhere to `skip` and `reverse`.
pub proof fn law_headers_adhere(
    req: CompleteHeadersRequest,
    best: u64,
    finds: spec_fn(BlockId, Header) -> bool,
    headers: Seq<Header>,
)
    requires
        headers_answer(req, best, finds, headers),
        numbers_hold(finds),
    ensures
        headers_adhere(req, headers),
{
    assert(0 * (req.skip + 1) == 0);
    assert forall|i: int|
        0 <= i < headers.len() && (req.reverse || i * (req.skip + 1) <= u64::MAX) implies
        #[trigger] adheres_at(req, headers, i) by {
        let start = match req.start {
            HashOrNumber::Number(start) => start,
            HashOrNumber::Hash(hash) => {
                let first = choose|first: Header| #[trigger]
                    headers_from(req, best, finds, hash, first, headers);
                first->Block_0.number
            },
        };
        let numbers = planned_numbers(start, best, req.skip, req.max, req.reverse);
        if headers_at(numbers, finds, headers) {
            assert(headers[i] is Block && headers[0] is Block);
            law_spacing(start, best, req.skip, req.max, req.reverse, i);
            law_spacing(start, best, req.skip, req.max, req.reverse, 0);
        }
    }
}

/// What the headers of any provider adhere to: they start at the requested block and
/// keep to `skip` and `reverse`, as far as the headers that are found are those that
/// were asked for.
pub open spec fn headers_serve(
    req: CompleteHeadersRequest,
    finds: spec_fn(BlockId, Header) -> bool,
    headers: Seq<Header>,
) -> bool {
    &&& numbers_hold(finds) ==> starts_at_number(req, headers)
    &&& is_stable(finds) && hashes_hold(finds) ==> starts_at_hash(req, headers)
    &&& numbers_hold(finds) ==> headers_adhere(req, headers)
}

/// Headers that answer a request serve it.
pub proof fn law_answer_serves(
    req: CompleteHeadersRequest,
    best: u64,
    finds: spec_fn(BlockId, Header) -> bool,
    headers: Seq<Header>,
)
    requires
        headers_answer(req, best, finds, headers),
    ensures
        headers_serve(req, finds, headers),
{
    if numbers_hold(finds) {
        law_starts_at_number(req, best, finds, headers);
        law_headers_adhere(req, best, finds, headers);
    }
    if is_stable(finds) && hashes_hold(finds) {
        law_starts_at_hash(req, best, finds, headers);
    }
}

/// Where no header can be found, the answer holds none.
pub proof fn law_nothing_found(
    req: CompleteHeadersRequest,
    best: u64,
    finds: spec_fn(BlockId, Header) -> bool,
    headers: Seq<Header>,
)
    requires
        headers_answer(req, best, finds, headers),
        forall|id: BlockId, found: Header| #[trigger] finds(id, found) ==> found is Empty,
    ensures
        headers.len() == 0,
{
    if headers.len() > 0 {
        match req.start {
            HashOrNumber::Number(start) => {
                assert(headers[0] is Block);
            },
            HashOrNumber::Hash(hash) => {},
        }
    }
}

} // verus!
