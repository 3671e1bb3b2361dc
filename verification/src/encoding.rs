//! The RLP that answers are made of, and the calls into the `rlp` crate.
use rlp::RlpStream;
use vstd::prelude::*;

verus! {

/// The encoder of the `rlp` crate.
#[verifier::external_type_specification]
#[verifier::external_body]
pub struct ExRlpStream(RlpStream);

/// The raw items that were appended to the list that a stream encodes.
pub uninterp spec fn stream_items(stream: RlpStream) -> Seq<Seq<u8>>;

/// The number of items that the list of a stream is to have.
pub uninterp spec fn stream_length(stream: RlpStream) -> nat;

/// The items that `rlp` finds in a list.
pub uninterp spec fn rlp_list_items(encoded: Seq<u8>) -> Seq<Seq<u8>>;

/// The RLP of a list, whose items take at most 55 bytes: one byte that gives the
/// length of the items, and the items.
pub open spec fn short_list(items: Seq<Seq<u8>>) -> Seq<u8> {
    seq![(0xc0 + items.flatten().len()) as u8] + items.flatten()
}

/// The number that bytes encode, most significant byte first.
pub open spec fn big_endian(bytes: Seq<u8>) -> nat
    decreases bytes.len(),
{
    if bytes.len() == 0 {
        0
    } else {
        big_endian(bytes.drop_last()) * 256 + bytes.last() as nat
    }
}

/// How many bytes stand before the payload of an item that begins with that byte.
pub open spec fn prefix_len(first: u8) -> nat {
    if first <= 0x7f {
        0
    } else if first <= 0xb7 {
        1
    } else if first <= 0xbf {
        (1 + first - 0xb7) as nat
    } else if first <= 0xf7 {
        1
    } else {
        (1 + first - 0xf7) as nat
    }
}

/// The bytes are one RLP item: the prefix gives the length of the payload. A payload of
/// more than 55 bytes has its length behind the first byte.
pub open spec fn is_item(bytes: Seq<u8>) -> bool {
    bytes.len() > 0 && prefix_len(bytes[0]) <= bytes.len() && {
        let first = bytes[0];
        let prefix = prefix_len(first) as int;
        let payload = bytes.len() - prefix;
        if first <= 0x7f {
            payload == 1
        } else if first <= 0xb7 {
            payload == first - 0x80
        } else if 0xc0 <= first <= 0xf7 {
            payload == first - 0xc0
        } else {
            payload > 55 && bytes[1] != 0 && big_endian(bytes.subrange(1, prefix)) == payload
        }
    }
}

/// The bytes are the RLP of the list of these items.
pub open spec fn is_list_of(encoded: Seq<u8>, items: Seq<Seq<u8>>) -> bool {
    &&& is_item(encoded)
    &&& encoded[0] >= 0xc0
    &&& forall|i: int| 0 <= i < items.len() ==> is_item(#[trigger] items[i])
    &&& encoded.skip(prefix_len(encoded[0]) as int) == items.flatten()
}

/// `RlpStream::new_list`: the stream encodes a list of `len` items and holds none
/// of them yet. A list of no items is finished as soon as it is begun, and left out.
pub assume_specification [RlpStream::new_list](len: usize) -> (stream: RlpStream)
    requires
        0 < len,
    ensures
        stream_items(stream) == Seq::<Seq<u8>>::empty(),
        stream_length(stream) == len,
;

/// `RlpStream::append_raw`, with one item: the item becomes the last one of the
/// list. A list that has all its items takes no more, and is left out: what is appended
/// then stands behind it.
#[verifier::external_body]
fn append_item(stream: &mut RlpStream, item: &Vec<u8>)
    requires
        stream_items(*old(stream)).len() < stream_length(*old(stream)),
    ensures
        stream_items(*final(stream)) == stream_items(*old(stream)).push(item@),
        stream_length(*final(stream)) == stream_length(*old(stream)),
{
    stream.append_raw(item, 1);
}

/// `RlpStream::out`: the list's RLP. It panics when an item is missing.
pub assume_specification [RlpStream::out](stream: RlpStream) -> (encoded: Vec<u8>)
    requires
        stream_items(stream).len() == stream_length(stream),
        stream_items(stream).flatten().len() <= 55,
    ensures
        encoded@ == short_list(stream_items(stream)),
;

/// `rlp::EMPTY_LIST_RLP`: the RLP of an empty list, which is the byte 0xc0.
#[verifier::external_body]
fn empty_list() -> (encoded: Vec<u8>)
    ensures
        encoded@ == seq![0xc0u8],
{
    rlp::EMPTY_LIST_RLP.to_vec()
}

/// `Rlp::iter`: the items of a list one after the other, each as its own RLP
/// (`Rlp::as_raw`). What it finds is a function of the bytes alone: of the RLP of a list
/// the items that the list was made from. Bytes that are no list have no items; where an
/// item is cut short, it ends before that item. Where further bytes stand behind the
/// list, it may, once it has found an item, read on into them.
#[verifier::external_body]
pub(crate) fn list_items(encoded: &Vec<u8>) -> (items: Vec<Vec<u8>>)
    ensures
        items@.map_values(|item: Vec<u8>| item@) == rlp_list_items(encoded@),
        forall|parts: Seq<Seq<u8>>| #[trigger]
            is_list_of(encoded@, parts) ==> items@.map_values(|item: Vec<u8>| item@) == parts,
{
    rlp::Rlp::new(encoded).iter().map(|item| item.as_raw().to_vec()).collect()
}

proof fn lemma_flatten_push(items: Seq<Seq<u8>>, item: Seq<u8>)
    ensures
        items.push(item).flatten() == items.flatten() + item,
    decreases items.len(),
{
    reveal_with_fuel(Seq::flatten, 2);
    if items.len() == 0 {
        assert(items.push(item).drop_first() =~= Seq::<Seq<u8>>::empty());
        assert(items.push(item).flatten() =~= items.flatten() + item);
    } else {
        lemma_flatten_push(items.drop_first(), item);
        assert(items.push(item).drop_first() =~= items.drop_first().push(item));
        assert(items.push(item).flatten() =~= items.flatten() + item);
    }
}

/// The RLP of a list of `count` empty lists.
pub(crate) fn list_of_empty_lists(count: usize) -> (encoded: Vec<u8>)
    requires
        0 < count <= 55,
    ensures
        encoded@ == seq![(0xc0 + count) as u8] + Seq::new(count as nat, |i: int| 0xc0u8),
{
    let empty = empty_list();
    let mut stream = RlpStream::new_list(count);
    let mut i: usize = 0;
    while i < count
        invariant
            0 < count <= 55,
            i <= count,
            empty@ == seq![0xc0u8],
            stream_length(stream) == count,
            stream_items(stream).len() == i,
            stream_items(stream).flatten() == Seq::new(i as nat, |j: int| 0xc0u8),
        decreases count - i,
    {
        proof {
            lemma_flatten_push(stream_items(stream), empty@);
        }
        append_item(&mut stream, &empty);
        i += 1;
        assert(stream_items(stream).flatten() =~= Seq::new(i as nat, |j: int| 0xc0u8));
    }
    stream.out()
}

/// What a stream writes for a list of items is, to a reader, the RLP of that list.
pub proof fn law_written_list_is_list(items: Seq<Seq<u8>>)
    requires
        forall|i: int| 0 <= i < items.len() ==> is_item(#[trigger] items[i]),
        items.flatten().len() <= 55,
    ensures
        is_list_of(short_list(items), items),
{
    let encoded = short_list(items);
    assert(encoded[0] == 0xc0 + items.flatten().len());
    assert(encoded.skip(1) =~= items.flatten());
}

/// Where one item stands at the beginning of some bytes, no other does.
proof fn lemma_item_is_determined(one: Seq<u8>, other: Seq<u8>, tail: Seq<u8>, rest: Seq<u8>)
    requires
        is_item(one),
        is_item(other),
        one + tail == other + rest,
    ensures
        one == other,
        tail == rest,
{
    let bytes = one + tail;
    assert(bytes[0] == one[0]);
    assert((other + rest)[0] == other[0]);
    let prefix = prefix_len(one[0]) as int;
    assert(prefix >= 1 ==> one.subrange(1, prefix) =~= bytes.subrange(1, prefix));
    assert(prefix >= 1 ==> other.subrange(1, prefix) =~= (other + rest).subrange(1, prefix));
    assert(one.len() == other.len());
    assert(one =~= bytes.take(one.len() as int));
    assert(other =~= (other + rest).take(one.len() as int));
    assert(tail =~= bytes.skip(one.len() as int));
    assert(rest =~= (other + rest).skip(one.len() as int));
}

proof fn lemma_items_are_determined(ones: Seq<Seq<u8>>, others: Seq<Seq<u8>>)
    requires
        forall|i: int| 0 <= i < ones.len() ==> is_item(#[trigger] ones[i]),
        forall|i: int| 0 <= i < others.len() ==> is_item(#[trigger] others[i]),
        ones.flatten() == others.flatten(),
    ensures
        ones == others,
    decreases ones.len(),
{
    if ones.len() == 0 {
        if others.len() > 0 {
            assert(is_item(others[0]));
            assert(others.flatten().len() == others[0].len() + others.drop_first().flatten().len());
        }
        assert(ones =~= others);
    } else if others.len() == 0 {
        assert(is_item(ones[0]));
        assert(ones.flatten().len() == ones[0].len() + ones.drop_first().flatten().len());
    } else {
        let ones_rest = ones.drop_first();
        let others_rest = others.drop_first();
        assert(is_item(ones[0]) && is_item(others[0]));
        lemma_item_is_determined(ones[0], others[0], ones_rest.flatten(), others_rest.flatten());
        assert forall|i: int| 0 <= i < ones_rest.len() implies is_item(#[trigger] ones_rest[i]) by {
            assert(is_item(ones[i + 1]));
        }
        assert forall|i: int| 0 <= i < others_rest.len() implies is_item(
            #[trigger] others_rest[i],
        ) by {
            assert(is_item(others[i + 1]));
        }
        lemma_items_are_determined(ones_rest, others_rest);
        assert(ones =~= seq![ones[0]] + ones_rest);
        assert(others =~= seq![others[0]] + others_rest);
    }
}

/// The bytes of a list determine its items.
pub proof fn law_list_determines_items(
    encoded: Seq<u8>,
    ones: Seq<Seq<u8>>,
    others: Seq<Seq<u8>>,
)
    requires
        is_list_of(encoded, ones),
        is_list_of(encoded, others),
    ensures
        ones == others,
{
    lemma_items_are_determined(ones, others);
}

} // verus!
