//! The bytes in which a batch of arguments travels from one instance to
//! another.
//!
//! A frame is the number of arguments, then each argument as its length and
//! its bytes. Numbers are 32 bits wide, most significant byte first. Nothing
//! follows the last argument.

use vstd::prelude::*;
use vstd::slice::{slice_subrange, slice_to_vec};

verus! {

/// The largest number that a frame can hold.
pub open spec fn limit() -> nat {
    0xFFFF_FFFF
}

/// The four bytes of a number, most significant first.
#[verifier::opaque]
pub open spec fn be32(n: nat) -> Seq<u8> {
    seq![
        ((n / 0x100_0000) % 0x100) as u8,
        ((n / 0x1_0000) % 0x100) as u8,
        ((n / 0x100) % 0x100) as u8,
        (n % 0x100) as u8,
    ]
}

/// The number that four bytes stand for.
#[verifier::opaque]
pub open spec fn from_be32(bytes: Seq<u8>) -> nat {
    (bytes[0] as nat) * 0x100_0000 + (bytes[1] as nat) * 0x1_0000 + (bytes[2] as nat) * 0x100
        + (bytes[3] as nat)
}

/// One argument in a frame: its length, then its bytes.
pub open spec fn framed_item(item: Seq<u8>) -> Seq<u8> {
    be32(item.len()) + item
}

/// The arguments of a frame, one after the other.
pub open spec fn framed_items(items: Seq<Seq<u8>>) -> Seq<u8>
    decreases items.len(),
{
    if items.len() == 0 {
        Seq::empty()
    } else {
        framed_items(items.drop_last()) + framed_item(items.last())
    }
}

/// The frame of a batch.
pub open spec fn framed(batch: Seq<Seq<u8>>) -> Seq<u8> {
    be32(batch.len()) + framed_items(batch)
}

/// Whether a batch can be framed: neither the number of its arguments nor the
/// length of any of them exceeds the limit.
pub open spec fn fits(batch: Seq<Seq<u8>>) -> bool {
    &&& batch.len() <= limit()
    &&& forall|i: int| 0 <= i < batch.len() ==> (#[trigger] batch[i]).len() <= limit()
}

/// A number takes four bytes.
pub proof fn be32_len(n: nat)
    ensures
        be32(n).len() == 4,
{
    reveal(be32);
}

/// Four bytes hold every number up to the limit without loss.
pub proof fn be32_round_trip(n: nat)
    requires
        n <= limit(),
    ensures
        be32(n).len() == 4,
        from_be32(be32(n)) == n,
{
    reveal(be32);
    reveal(from_be32);
}

/// Any four bytes are the bytes of the number they stand for, and that number
/// is within the limit.
pub proof fn from_be32_round_trip(bytes: Seq<u8>)
    requires
        bytes.len() == 4,
    ensures
        from_be32(bytes) <= limit(),
        be32(from_be32(bytes)) == bytes,
{
    reveal(be32);
    reveal(from_be32);
    assert(be32(from_be32(bytes)) =~= bytes);
}

/// Appending an argument to a batch appends its frame to theirs.
pub proof fn framed_items_push(items: Seq<Seq<u8>>, item: Seq<u8>)
    ensures
        framed_items(items.push(item)) == framed_items(items) + framed_item(item),
{
    assert(items.push(item).drop_last() =~= items);
}

/// In the frame of a batch, argument `k` stands right after the arguments
/// before it: first its length, then its bytes.
pub proof fn framed_item_at(batch: Seq<Seq<u8>>, k: int)
    requires
        0 <= k < batch.len(),
    ensures
        ({
            let at = 4 + framed_items(batch.take(k)).len() as int;
            &&& at + 4 + batch[k].len() <= framed(batch).len()
            &&& framed(batch).subrange(at, at + 4) == be32(batch[k].len())
            &&& framed(batch).subrange(at + 4, at + 4 + batch[k].len()) == batch[k]
        }),
    decreases batch.len(),
{
    let at = 4 + framed_items(batch.take(k)).len() as int;
    let rest = batch.drop_last();
    be32_len(batch.len());
    be32_len(rest.len());
    be32_len(batch[k].len());
    if k < batch.len() - 1 {
        framed_item_at(rest, k);
        assert(rest.take(k) =~= batch.take(k));
    }
}

/// Two batches with the same frame are the same batch.
pub proof fn framing_is_injective(a: Seq<Seq<u8>>, b: Seq<Seq<u8>>)
    requires
        fits(a),
        fits(b),
        framed(a) == framed(b),
    ensures
        a == b,
{
    be32_round_trip(a.len());
    be32_round_trip(b.len());
    assert(framed(a).subrange(0, 4) =~= be32(a.len()));
    assert(framed(b).subrange(0, 4) =~= be32(b.len()));
    same_prefix(a, b, a.len() as int);
    assert(b.take(b.len() as int) =~= b);
}

/// Two batches with the same frame agree on their first `k` arguments.
proof fn same_prefix(a: Seq<Seq<u8>>, b: Seq<Seq<u8>>, k: int)
    requires
        fits(a),
        fits(b),
        framed(a) == framed(b),
        a.len() == b.len(),
        0 <= k <= a.len(),
    ensures
        a.take(k) == b.take(k),
    decreases k,
{
    if k > 0 {
        same_prefix(a, b, k - 1);
        framed_item_at(a, k - 1);
        framed_item_at(b, k - 1);
        be32_round_trip(a[k - 1].len());
        be32_round_trip(b[k - 1].len());
    }
}

/// Appends the four bytes of `n`.
fn put_u32(out: &mut Vec<u8>, n: u32)
    ensures
        final(out)@ == old(out)@ + be32(n as nat),
{
    out.push(((n / 0x100_0000) % 0x100) as u8);
    out.push(((n / 0x1_0000) % 0x100) as u8);
    out.push(((n / 0x100) % 0x100) as u8);
    out.push((n % 0x100) as u8);
    proof {
        reveal(be32);
    }
}

/// Reads the number that the four bytes from `at` on stand for.
fn get_u32(bytes: &[u8], at: usize) -> (n: u32)
    requires
        at + 4 <= bytes@.len(),
    ensures
        n == from_be32(bytes@.subrange(at as int, at + 4)),
{
    let b0: u32 = bytes[at] as u32;
    let b1: u32 = bytes[at + 1] as u32;
    let b2: u32 = bytes[at + 2] as u32;
    let b3: u32 = bytes[at + 3] as u32;
    proof {
        reveal(from_be32);
    }
    b0 * 0x100_0000 + b1 * 0x1_0000 + b2 * 0x100 + b3
}

/// Frames a batch. A batch that does not fit has no frame.
pub fn frame(batch: &Vec<Vec<u8>>) -> (bytes: Option<Vec<u8>>)
    ensures
        fits(batch.deep_view()) ==> bytes is Some && bytes->0@ == framed(batch.deep_view()),
        !fits(batch.deep_view()) ==> bytes is None,
{
    let ghost whole = batch.deep_view();
    if batch.len() > 0xFFFF_FFFF {
        return None;
    }
    let mut out: Vec<u8> = Vec::new();
    put_u32(&mut out, batch.len() as u32);
    let mut i: usize = 0;
    while i < batch.len()
        invariant
            whole == batch.deep_view(),
            i <= batch.len(),
            batch.len() <= limit(),
            out@ == be32(batch.len() as nat) + framed_items(whole.take(i as int)),
            forall|j: int| 0 <= j < i ==> (#[trigger] whole[j]).len() <= limit(),
        decreases batch.len() - i,
    {
        let item = &batch[i];
        assert(item@ == whole[i as int]);
        if item.len() > 0xFFFF_FFFF {
            return None;
        }
        let ghost before = out@;
        put_u32(&mut out, item.len() as u32);
        let mut k: usize = 0;
        while k < item.len()
            invariant
                k <= item.len(),
                out@ == before + be32(item.len() as nat) + item@.take(k as int),
            decreases item.len() - k,
        {
            out.push(item[k]);
            k += 1;
        }
        proof {
            assert(whole.take(i + 1) =~= whole.take(i as int).push(item@));
            framed_items_push(whole.take(i as int), item@);
        }
        i += 1;
    }
    assert(whole.take(batch.len() as int) =~= whole);
    Some(out)
}

/// A batch whose frame is `bytes` has as many arguments as the first four
/// bytes say.
proof fn count_of_frame(bytes: Seq<u8>, any: Seq<Seq<u8>>)
    requires
        fits(any),
        framed(any) == bytes,
    ensures
        bytes.len() >= 4,
        any.len() == from_be32(bytes.subrange(0, 4)),
{
    be32_round_trip(any.len());
    assert(bytes.subrange(0, 4) =~= be32(any.len()));
}

/// In a batch whose frame is `bytes`, argument `i` is what the bytes after
/// the first `i` arguments say: its length, then its bytes.
proof fn item_of_frame(bytes: Seq<u8>, any: Seq<Seq<u8>>, i: int)
    requires
        fits(any),
        framed(any) == bytes,
        0 <= i < any.len(),
    ensures
        ({
            let at = 4 + framed_items(any.take(i)).len() as int;
            &&& at + 4 + any[i].len() <= bytes.len()
            &&& any[i].len() == from_be32(bytes.subrange(at, at + 4))
            &&& any[i] == bytes.subrange(at + 4, at + 4 + any[i].len())
        }),
{
    framed_item_at(any, i);
    be32_round_trip(any[i].len());
}

/// A batch whose frame is `bytes` is as long as the frame of all its
/// arguments.
proof fn end_of_frame(bytes: Seq<u8>, any: Seq<Seq<u8>>)
    requires
        framed(any) == bytes,
    ensures
        bytes.len() == 4 + framed_items(any).len(),
{
    be32_len(any.len());
}

/// Bytes that begin with the frame of `got`, and go on with the length and
/// the bytes of `item`, begin with the frame of `got` and `item`.
proof fn frame_grows(bytes: Seq<u8>, count: nat, got: Seq<Seq<u8>>, item: Seq<u8>, at: int)
    requires
        4 <= at,
        at + 4 + item.len() <= bytes.len(),
        bytes.subrange(0, at) == be32(count) + framed_items(got),
        item.len() == from_be32(bytes.subrange(at, at + 4)),
        item == bytes.subrange(at + 4, at + 4 + item.len()),
    ensures
        bytes.subrange(0, at + 4 + item.len()) == be32(count) + framed_items(got.push(item)),
        item.len() <= limit(),
{
    from_be32_round_trip(bytes.subrange(at, at + 4));
    framed_items_push(got, item);
    assert(be32(count) + framed_items(got) + be32(item.len()) + item =~= be32(count)
        + framed_items(got.push(item)));
}

/// Reads a batch off its frame. Bytes that are the frame of no batch are
/// refused: a frame that stops early, and one that anything follows.
pub fn unframe(bytes: &[u8]) -> (batch: Option<Vec<Vec<u8>>>)
    ensures
        batch is Some ==> fits(batch->0.deep_view()) && framed(batch->0.deep_view()) == bytes@,
        batch is None ==> forall|any: Seq<Seq<u8>>|
            fits(any) ==> #[trigger] framed(any) != bytes@,
{
    if bytes.len() < 4 {
        proof {
            assert forall|any: Seq<Seq<u8>>| fits(any) implies #[trigger] framed(any)
                != bytes@ by {
                if framed(any) == bytes@ {
                    count_of_frame(bytes@, any);
                }
            }
        }
        return None;
    }
    let count = get_u32(bytes, 0) as usize;
    let mut items: Vec<Vec<u8>> = Vec::new();
    let mut at: usize = 4;
    proof {
        from_be32_round_trip(bytes@.subrange(0, 4));
        assert forall|any: Seq<Seq<u8>>|
            fits(any) && #[trigger] framed(any) == bytes@ implies any.len() == count && any.take(0)
            == items.deep_view() by {
            count_of_frame(bytes@, any);
        }
    }
    while items.len() < count
        invariant
            items.len() <= count <= limit(),
            4 <= at <= bytes@.len(),
            bytes@.subrange(0, at as int) == be32(count as nat) + framed_items(items.deep_view()),
            forall|j: int|
                0 <= j < items.len() ==> (#[trigger] items.deep_view()[j]).len() <= limit(),
            forall|any: Seq<Seq<u8>>|
                fits(any) && #[trigger] framed(any) == bytes@ ==> any.len() == count && any.take(
                    items.len() as int,
                ) == items.deep_view(),
        decreases count - items.len(),
    {
        let ghost got = items.deep_view();
        let ghost i = items.len() as int;
        proof {
            be32_len(count as nat);
            assert(bytes@.subrange(0, at as int).len() == at);
        }
        if bytes.len() - at < 4 {
            proof {
                assert forall|any: Seq<Seq<u8>>| fits(any) implies #[trigger] framed(any)
                    != bytes@ by {
                    if framed(any) == bytes@ {
                        item_of_frame(bytes@, any, i);
                    }
                }
            }
            return None;
        }
        let length = get_u32(bytes, at) as usize;
        if bytes.len() - at - 4 < length {
            proof {
                assert forall|any: Seq<Seq<u8>>| fits(any) implies #[trigger] framed(any)
                    != bytes@ by {
                    if framed(any) == bytes@ {
                        item_of_frame(bytes@, any, i);
                    }
                }
            }
            return None;
        }
        let item = slice_to_vec(slice_subrange(bytes, at + 4, at + 4 + length));
        proof {
            frame_grows(bytes@, count as nat, got, item@, at as int);
            assert forall|any: Seq<Seq<u8>>|
                fits(any) && #[trigger] framed(any) == bytes@ implies any.len() == count
                && any.take(i + 1) == got.push(item@) by {
                item_of_frame(bytes@, any, i);
            }
        }
        assert(item.deep_view() =~= item@);
        items.push(item);
        at = at + 4 + length;
        proof {
            assert(items.deep_view() =~= got.push(item@));
        }
    }
    if at != bytes.len() {
        proof {
            be32_len(count as nat);
            assert forall|any: Seq<Seq<u8>>| fits(any) implies #[trigger] framed(any)
                != bytes@ by {
                if framed(any) == bytes@ {
                    assert(any.take(count as int) =~= any);
                    end_of_frame(bytes@, any);
                }
            }
        }
        return None;
    }
    Some(items)
}

} // verus!
