//! The format: numbers with their least significant byte first, the fields
//! of a record one after the other, a byte in front of a choice to say
//! which it is, and arrays without their length.

use vstd::prelude::*;

verus! {

/// Whether `bytes`, read from `start` on, begin with `prefix`.
pub open spec fn starts_with(bytes: Seq<u8>, start: int, prefix: Seq<u8>) -> bool {
    &&& 0 <= start
    &&& start + prefix.len() <= bytes.len()
    &&& bytes.subrange(start, start + prefix.len()) == prefix
}

/// What begins with two parts one after the other begins with the first,
/// and goes on with the second.
pub proof fn lemma_starts_with_both(bytes: Seq<u8>, start: int, first: Seq<u8>, second: Seq<u8>)
    requires
        starts_with(bytes, start, first + second),
    ensures
        starts_with(bytes, start, first),
        starts_with(bytes, start + first.len(), second),
{
    let whole = bytes.subrange(start, start + (first + second).len());
    assert(bytes.subrange(start, start + first.len()) =~= whole.subrange(0, first.len() as int));
    assert(whole.subrange(0, first.len() as int) =~= first);
    assert(bytes.subrange(start + first.len(), start + first.len() + second.len()) =~= whole.subrange(
        first.len() as int,
        (first + second).len() as int,
    ));
    assert(whole.subrange(first.len() as int, (first + second).len() as int) =~= second);
}

/// What begins with one part and goes on with another begins with both.
pub proof fn lemma_starts_with_joined(bytes: Seq<u8>, start: int, first: Seq<u8>, second: Seq<u8>)
    requires
        starts_with(bytes, start, first),
        starts_with(bytes, start + first.len(), second),
    ensures
        starts_with(bytes, start, first + second),
{
    assert(bytes.subrange(start, start + (first + second).len()) =~= bytes.subrange(start, start + first.len())
        + bytes.subrange(start + first.len(), start + first.len() + second.len()));
}

/// A kind of record with a place in the format.
pub trait Wire: Sized {
    /// The bytes of the record.
    spec fn wire(&self) -> Seq<u8>;

    /// Writes the bytes of the record behind what `out` holds.
    fn encode_to(&self, out: &mut Vec<u8>)
        ensures
            final(out)@ == old(out)@ + self.wire(),
    ;

    /// Reads a record from `bytes`, from `start` on, and says where it
    /// ends. There is a record to read exactly where the bytes begin with
    /// the bytes of one, and then it is that one.
    fn decode_from(bytes: &[u8], start: usize) -> (decoded: Option<(Self, usize)>)
        ensures
            decoded matches Some((value, end)) ==> starts_with(bytes@, start as int, value.wire()) && end == start
                + value.wire().len(),
            forall|value: Self| #[trigger]
                starts_with(bytes@, start as int, value.wire()) ==> decoded == Some(
                    (value, (start + value.wire().len()) as usize),
                ),
    ;
}

/// The `width` low bytes of `value`, the least significant first.
pub open spec fn le_bytes(value: nat, width: nat) -> Seq<u8>
    decreases width,
{
    if width == 0 {
        Seq::empty()
    } else {
        seq![(value % 256) as u8] + le_bytes(value / 256, (width - 1) as nat)
    }
}

/// The number that `bytes` spell with the least significant byte first.
pub open spec fn le_value(bytes: Seq<u8>) -> nat
    decreases bytes.len(),
{
    if bytes.len() == 0 {
        0
    } else {
        bytes[0] as nat + 256 * le_value(bytes.drop_first())
    }
}

/// One more than the largest number that `width` bytes spell.
pub open spec fn width_limit(width: nat) -> nat
    decreases width,
{
    if width == 0 {
        1
    } else {
        256 * width_limit((width - 1) as nat)
    }
}

/// A number that fits into its bytes is the number that its bytes spell.
pub proof fn lemma_le_value_of_bytes(value: nat, width: nat)
    requires
        value < width_limit(width),
    ensures
        le_bytes(value, width).len() == width,
        le_value(le_bytes(value, width)) == value,
    decreases width,
{
    if width > 0 {
        lemma_le_value_of_bytes(value / 256, (width - 1) as nat);
        assert(le_bytes(value, width).drop_first() =~= le_bytes(value / 256, (width - 1) as nat));
    }
}

/// Bytes are the bytes of the number that they spell, and that number fits into them.
pub proof fn lemma_le_bytes_of_value(bytes: Seq<u8>)
    ensures
        le_value(bytes) < width_limit(bytes.len()),
        le_bytes(le_value(bytes), bytes.len()) == bytes,
    decreases bytes.len(),
{
    if bytes.len() > 0 {
        lemma_le_bytes_of_value(bytes.drop_first());
        let rest = le_value(bytes.drop_first());
        assert((bytes[0] as nat + 256 * rest) % 256 == bytes[0] as nat);
    }
}

/// Writes the `width` low bytes of `value` behind what `out` holds.
pub fn encode_le(value: u64, width: usize, out: &mut Vec<u8>)
    ensures
        final(out)@ == old(out)@ + le_bytes(value as nat, width as nat),
{
    let mut rest: u64 = value;
    let mut done: usize = 0;
    while done < width
        invariant
            done <= width,
            out@ + le_bytes(rest as nat, (width - done) as nat) == old(out)@ + le_bytes(value as nat, width as nat),
        decreases width - done,
    {
        out.push((rest % 256) as u8);
        rest = rest / 256;
        done += 1;
    }
}

/// Reads the number that the `width` bytes of `bytes` from `start` on spell.
pub fn decode_le(bytes: &[u8], start: usize, width: usize) -> (decoded: Option<u64>)
    requires
        width <= 8,
    ensures
        decoded is Some <==> start + width <= bytes.len(),
        decoded matches Some(value) ==> value == le_value(bytes@.subrange(start as int, start + width)),
{
    if start > bytes.len() || width > bytes.len() - start {
        return None;
    }
    let ghost all = bytes@.subrange(start as int, start + width);
    let mut value: u64 = 0;
    let mut left: usize = width;
    while left > 0
        invariant
            left <= width <= 8,
            start + width <= bytes.len(),
            all == bytes@.subrange(start as int, start + width),
            value == le_value(all.subrange(left as int, width as int)),
            value < width_limit((width - left) as nat),
        decreases left,
    {
        proof {
            reveal_with_fuel(width_limit, 9);
            assert(all.subrange(left - 1, width as int).drop_first() =~= all.subrange(left as int, width as int));
        }
        left -= 1;
        value = bytes[start + left] as u64 + 256 * value;
    }
    assert(all.subrange(0, width as int) =~= all);
    Some(value)
}

/// What begins at one place with the bytes of one number begins there
/// with the bytes of no other number of that width.
pub proof fn lemma_le_is_unique(bytes: Seq<u8>, start: int, value: nat, width: nat)
    requires
        value < width_limit(width),
        starts_with(bytes, start, le_bytes(value, width)),
    ensures
        start + width <= bytes.len(),
        le_value(bytes.subrange(start, start + width)) == value,
{
    lemma_le_value_of_bytes(value, width);
}

impl Wire for u8 {
    open spec fn wire(&self) -> Seq<u8> {
        seq![*self]
    }

    fn encode_to(&self, out: &mut Vec<u8>) {
        out.push(*self);
    }

    fn decode_from(bytes: &[u8], start: usize) -> (decoded: Option<(Self, usize)>) {
        if start < bytes.len() {
            let value = bytes[start];
            assert(bytes@.subrange(start as int, start + 1) =~= seq![value]);
            assert forall|other: u8| #[trigger] starts_with(bytes@, start as int, other.wire()) implies other
                == value by {
                assert(bytes@.subrange(start as int, start + 1)[0] == other);
            }
            Some((value, start + 1))
        } else {
            None
        }
    }
}

impl Wire for u16 {
    open spec fn wire(&self) -> Seq<u8> {
        le_bytes(*self as nat, 2)
    }

    fn encode_to(&self, out: &mut Vec<u8>) {
        encode_le(*self as u64, 2, out);
    }

    fn decode_from(bytes: &[u8], start: usize) -> (decoded: Option<(Self, usize)>) {
        proof {
            reveal_with_fuel(width_limit, 9);
            assert forall|value: u16| #[trigger] starts_with(bytes@, start as int, value.wire()) implies start + 2
                <= bytes.len() && le_value(bytes@.subrange(start as int, start + 2)) == value by {
                lemma_le_is_unique(bytes@, start as int, value as nat, 2);
            }
        }
        match decode_le(bytes, start, 2) {
            None => None,
            Some(value) => {
                proof {
                    lemma_le_bytes_of_value(bytes@.subrange(start as int, start + 2));
                }
                Some((value as u16, start + 2))
            },
        }
    }
}

impl Wire for u32 {
    open spec fn wire(&self) -> Seq<u8> {
        le_bytes(*self as nat, 4)
    }

    fn encode_to(&self, out: &mut Vec<u8>) {
        encode_le(*self as u64, 4, out);
    }

    fn decode_from(bytes: &[u8], start: usize) -> (decoded: Option<(Self, usize)>) {
        proof {
            reveal_with_fuel(width_limit, 9);
            assert forall|value: u32| #[trigger] starts_with(bytes@, start as int, value.wire()) implies start + 4
                <= bytes.len() && le_value(bytes@.subrange(start as int, start + 4)) == value by {
                lemma_le_is_unique(bytes@, start as int, value as nat, 4);
            }
        }
        match decode_le(bytes, start, 4) {
            None => None,
            Some(value) => {
                proof {
                    lemma_le_bytes_of_value(bytes@.subrange(start as int, start + 4));
                }
                Some((value as u32, start + 4))
            },
        }
    }
}

impl Wire for u64 {
    open spec fn wire(&self) -> Seq<u8> {
        le_bytes(*self as nat, 8)
    }

    fn encode_to(&self, out: &mut Vec<u8>) {
        encode_le(*self, 8, out);
    }

    fn decode_from(bytes: &[u8], start: usize) -> (decoded: Option<(Self, usize)>) {
        proof {
            reveal_with_fuel(width_limit, 9);
            assert forall|value: u64| #[trigger] starts_with(bytes@, start as int, value.wire()) implies start + 8
                <= bytes.len() && le_value(bytes@.subrange(start as int, start + 8)) == value by {
                lemma_le_is_unique(bytes@, start as int, value as nat, 8);
            }
        }
        match decode_le(bytes, start, 8) {
            None => None,
            Some(value) => {
                proof {
                    lemma_le_bytes_of_value(bytes@.subrange(start as int, start + 8));
                }
                Some((value, start + 8))
            },
        }
    }
}

impl<A: Wire, B: Wire> Wire for (A, B) {
    open spec fn wire(&self) -> Seq<u8> {
        self.0.wire() + self.1.wire()
    }

    fn encode_to(&self, out: &mut Vec<u8>) {
        self.0.encode_to(out);
        self.1.encode_to(out);
    }

    fn decode_from(bytes: &[u8], start: usize) -> (decoded: Option<(Self, usize)>) {
        proof {
            assert forall|value: Self| #[trigger] starts_with(bytes@, start as int, value.wire()) implies starts_with(
                bytes@,
                start as int,
                value.0.wire(),
            ) && starts_with(bytes@, start + value.0.wire().len(), value.1.wire()) by {
                lemma_starts_with_both(bytes@, start as int, value.0.wire(), value.1.wire());
            }
        }
        match A::decode_from(bytes, start) {
            None => None,
            Some((first, middle)) => match B::decode_from(bytes, middle) {
                None => None,
                Some((second, end)) => {
                    proof {
                        lemma_starts_with_joined(bytes@, start as int, first.wire(), second.wire());
                    }
                    Some(((first, second), end))
                },
            },
        }
    }
}

impl<T: Wire> Wire for Option<T> {
    open spec fn wire(&self) -> Seq<u8> {
        match self {
            None => seq![0u8],
            Some(value) => seq![1u8] + value.wire(),
        }
    }

    fn encode_to(&self, out: &mut Vec<u8>) {
        match self {
            None => {
                out.push(0);
            },
            Some(value) => {
                out.push(1);
                value.encode_to(out);
            },
        }
    }

    fn decode_from(bytes: &[u8], start: usize) -> (decoded: Option<(Self, usize)>) {
        proof {
            assert forall|value: Self| #[trigger] starts_with(bytes@, start as int, value.wire()) implies match value {
                None => starts_with(bytes@, start as int, 0u8.wire()),
                Some(inner) => starts_with(bytes@, start as int, 1u8.wire()) && starts_with(
                    bytes@,
                    start + 1,
                    inner.wire(),
                ),
            } by {
                match value {
                    None => {},
                    Some(inner) => {
                        lemma_starts_with_both(bytes@, start as int, 1u8.wire(), inner.wire());
                    },
                }
            }
        }
        match u8::decode_from(bytes, start) {
            Some((0, end)) => Some((None, end)),
            Some((1, middle)) => match T::decode_from(bytes, middle) {
                None => None,
                Some((value, end)) => {
                    proof {
                        lemma_starts_with_joined(bytes@, start as int, 1u8.wire(), value.wire());
                    }
                    Some((Some(value), end))
                },
            },
            _ => None,
        }
    }
}

/// The bytes of the items of `items` from place `from` up to place `to`, one after the other.
pub open spec fn span_wire<T: Wire>(items: Seq<T>, from: int, to: int) -> Seq<u8>
    decreases to - from,
{
    if to <= from {
        Seq::empty()
    } else {
        span_wire(items, from, to - 1) + items[to - 1].wire()
    }
}

/// The bytes of a row of items depend on the items alone.
pub proof fn lemma_span_of_same_items<T: Wire>(left: Seq<T>, right: Seq<T>, from: int, to: int)
    requires
        forall|k: int| from <= k < to ==> left[k] == right[k],
    ensures
        span_wire(left, from, to) == span_wire(right, from, to),
    decreases to - from,
{
    if from < to {
        lemma_span_of_same_items(left, right, from, to - 1);
    }
}

/// The bytes of a row of items are those of its first part and then those of the rest.
pub proof fn lemma_span_in_two<T: Wire>(items: Seq<T>, from: int, middle: int, to: int)
    requires
        from <= middle <= to,
    ensures
        span_wire(items, from, to) == span_wire(items, from, middle) + span_wire(items, middle, to),
    decreases to - middle,
{
    if middle < to {
        lemma_span_in_two(items, from, middle, to - 1);
    }
}

/// Whether the first `count` items of `items` are the only ones whose
/// bytes follow one another in `bytes` from `start` on.
pub open spec fn items_read<T: Wire>(bytes: Seq<u8>, start: int, items: Seq<T>, count: int) -> bool {
    &&& starts_with(bytes, start, span_wire(items, 0, count))
    &&& forall|k: int, other: T|
        0 <= k < count && #[trigger] starts_with(bytes, start + span_wire(items, 0, k).len(), other.wire())
            ==> other == items[k]
}

/// Where `count` items have been read from bytes that begin with the
/// bytes of the row `row`, the items read are the first of the row, and
/// the bytes go on with the next item of the row.
pub proof fn lemma_row_agrees<T: Wire>(bytes: Seq<u8>, start: int, items: Seq<T>, count: int, row: Seq<T>, len: int)
    requires
        0 <= count <= len,
        count <= items.len(),
        len <= row.len(),
        items_read(bytes, start, items, count),
        starts_with(bytes, start, span_wire(row, 0, len)),
    ensures
        forall|k: int| 0 <= k < count ==> row[k] == items[k],
        span_wire(row, 0, count) == span_wire(items, 0, count),
        count < len ==> starts_with(bytes, start + span_wire(items, 0, count).len(), row[count].wire()),
    decreases count,
{
    if count > 0 {
        lemma_starts_with_both(bytes, start, span_wire(items, 0, count - 1), items[count - 1].wire());
        lemma_row_agrees(bytes, start, items, count - 1, row, len);
        lemma_span_of_same_items(row, items, 0, count);
    }
    if count < len {
        lemma_span_in_two(row, 0, count + 1, len);
        lemma_starts_with_both(bytes, start, span_wire(row, 0, count + 1), span_wire(row, count + 1, len));
        lemma_starts_with_both(bytes, start, span_wire(row, 0, count), row[count].wire());
    }
}

/// Writes the bytes of the items of `items`, one after the other, behind what `out` holds.
pub fn encode_items<T: Wire>(items: &[T], out: &mut Vec<u8>)
    ensures
        final(out)@ == old(out)@ + span_wire(items@, 0, items@.len() as int),
{
    let mut i: usize = 0;
    while i < items.len()
        invariant
            i <= items.len(),
            out@ == old(out)@ + span_wire(items@, 0, i as int),
        decreases items.len() - i,
    {
        let ghost before = out@;
        items[i].encode_to(out);
        i += 1;
    }
}

/// Reads `N` items from `bytes`, from `start` on, and says where they end.
pub fn decode_array<T: Wire + Copy, const N: usize>(bytes: &[u8], start: usize) -> (decoded: Option<([T; N], usize)>)
    requires
        N > 0,
    ensures
        decoded matches Some((items, end)) ==> starts_with(bytes@, start as int, span_wire(items@, 0, N as int))
            && end == start + span_wire(items@, 0, N as int).len(),
        forall|row: [T; N]| #[trigger]
            starts_with(bytes@, start as int, span_wire(row@, 0, N as int)) ==> decoded == Some(
                (row, (start + span_wire(row@, 0, N as int).len()) as usize),
            ),
{
    let (first, mut end) = match T::decode_from(bytes, start) {
        None => {
            proof {
                assert forall|row: [T; N]| #[trigger]
                    starts_with(bytes@, start as int, span_wire(row@, 0, N as int)) implies false by {
                    assert(bytes@.subrange(start as int, start as int) =~= Seq::<u8>::empty());
                    lemma_row_agrees(bytes@, start as int, Seq::<T>::empty(), 0, row@, N as int);
                }
            }
            return None;
        },
        Some(read) => read,
    };
    let mut items: [T; N] = [first; N];
    let mut i: usize = 1;
    assert(span_wire(items@, 0, 1) =~= first.wire()) by {
        assert(span_wire(items@, 0, 0) =~= Seq::<u8>::empty());
    }
    assert(items_read(bytes@, start as int, items@, 1)) by {
        assert(span_wire(items@, 0, 0) =~= Seq::<u8>::empty());
    }
    while i < N
        invariant
            1 <= i <= N,
            items_read(bytes@, start as int, items@, i as int),
            end == start + span_wire(items@, 0, i as int).len(),
        decreases N - i,
    {
        let ghost before = items@;
        match T::decode_from(bytes, end) {
            None => {
                proof {
                    assert forall|row: [T; N]| #[trigger]
                        starts_with(bytes@, start as int, span_wire(row@, 0, N as int)) implies false by {
                        lemma_row_agrees(bytes@, start as int, items@, i as int, row@, N as int);
                    }
                }
                return None;
            },
            Some((item, next)) => {
                items[i] = item;
                proof {
                    lemma_span_of_same_items(before, items@, 0, i as int);
                    lemma_starts_with_joined(bytes@, start as int, span_wire(items@, 0, i as int), item.wire());
                    assert forall|k: int, other: T|
                        0 <= k < i + 1 && #[trigger] starts_with(
                            bytes@,
                            start + span_wire(items@, 0, k).len(),
                            other.wire(),
                        ) implies other == items@[k] by {
                        lemma_span_of_same_items(before, items@, 0, k);
                    }
                }
                end = next;
                i += 1;
            },
        }
    }
    proof {
        assert forall|row: [T; N]| #[trigger]
            starts_with(bytes@, start as int, span_wire(row@, 0, N as int)) implies row == items by {
            lemma_row_agrees(bytes@, start as int, items@, N as int, row@, N as int);
        }
    }
    Some((items, end))
}

impl<T: Wire + Copy> Wire for [T; 2] {
    open spec fn wire(&self) -> Seq<u8> {
        span_wire(self@, 0, 2)
    }

    fn encode_to(&self, out: &mut Vec<u8>) {
        encode_items(self.as_slice(), out);
    }

    fn decode_from(bytes: &[u8], start: usize) -> (decoded: Option<(Self, usize)>) {
        decode_array::<T, 2>(bytes, start)
    }
}

impl<T: Wire + Copy> Wire for [T; 3] {
    open spec fn wire(&self) -> Seq<u8> {
        span_wire(self@, 0, 3)
    }

    fn encode_to(&self, out: &mut Vec<u8>) {
        encode_items(self.as_slice(), out);
    }

    fn decode_from(bytes: &[u8], start: usize) -> (decoded: Option<(Self, usize)>) {
        decode_array::<T, 3>(bytes, start)
    }
}

impl<T: Wire + Copy> Wire for [T; 10] {
    open spec fn wire(&self) -> Seq<u8> {
        span_wire(self@, 0, 10)
    }

    fn encode_to(&self, out: &mut Vec<u8>) {
        encode_items(self.as_slice(), out);
    }

    fn decode_from(bytes: &[u8], start: usize) -> (decoded: Option<(Self, usize)>) {
        decode_array::<T, 10>(bytes, start)
    }
}

impl<T: Wire + Copy> Wire for [T; 32] {
    open spec fn wire(&self) -> Seq<u8> {
        span_wire(self@, 0, 32)
    }

    fn encode_to(&self, out: &mut Vec<u8>) {
        encode_items(self.as_slice(), out);
    }

    fn decode_from(bytes: &[u8], start: usize) -> (decoded: Option<(Self, usize)>) {
        decode_array::<T, 32>(bytes, start)
    }
}

/// The bytes of the length of a list: the shortest of one, two, four or
/// five bytes that holds it, with the low two bits of the first byte to
/// say which.
pub open spec fn compact_wire(len: nat) -> Seq<u8> {
    if len < 64 {
        le_bytes(len * 4, 1)
    } else if len < 16384 {
        le_bytes(len * 4 + 1, 2)
    } else if len < 1073741824 {
        le_bytes(len * 4 + 2, 4)
    } else {
        seq![3u8] + le_bytes(len, 4)
    }
}

/// Writes the bytes of the length `len` behind what `out` holds.
pub fn encode_compact(len: u32, out: &mut Vec<u8>)
    ensures
        final(out)@ == old(out)@ + compact_wire(len as nat),
{
    if len < 64 {
        encode_le(len as u64 * 4, 1, out);
    } else if len < 16384 {
        encode_le(len as u64 * 4 + 1, 2, out);
    } else if len < 1073741824 {
        encode_le(len as u64 * 4 + 2, 4, out);
    } else {
        out.push(3);
        encode_le(len as u64, 4, out);
    }
}

/// The first of the bytes of a number is its remainder by 256.
pub proof fn lemma_le_first_byte(value: nat, width: nat)
    requires
        width >= 1,
    ensures
        le_bytes(value, width).len() >= 1,
        le_bytes(value, width)[0] == value % 256,
{
}

/// The number that bytes spell has the first byte for its remainder by 256.
pub proof fn lemma_le_value_low(bytes: Seq<u8>)
    requires
        bytes.len() >= 1,
    ensures
        le_value(bytes) % 256 == bytes[0],
{
}

/// Bytes that begin with the bytes of a length show by their first byte
/// in which form it is written, and spell it.
pub proof fn lemma_compact_read(bytes: Seq<u8>, start: int, len: u32)
    requires
        starts_with(bytes, start, compact_wire(len as nat)),
    ensures
        start < bytes.len(),
        len < 64 ==> bytes[start] % 4 == 0 && bytes[start] / 4 == len && compact_wire(len as nat).len() == 1,
        64 <= len < 16384 ==> bytes[start] % 4 == 1 && start + 2 <= bytes.len() && le_value(
            bytes.subrange(start, start + 2),
        ) == len * 4 + 1 && compact_wire(len as nat).len() == 2,
        16384 <= len < 1073741824 ==> bytes[start] % 4 == 2 && start + 4 <= bytes.len() && le_value(
            bytes.subrange(start, start + 4),
        ) == len * 4 + 2 && compact_wire(len as nat).len() == 4,
        1073741824 <= len ==> bytes[start] == 3 && start + 5 <= bytes.len() && le_value(
            bytes.subrange(start + 1, start + 5),
        ) == len && compact_wire(len as nat).len() == 5,
{
    let wire = compact_wire(len as nat);
    reveal_with_fuel(width_limit, 5);
    if len < 64 {
        lemma_le_value_of_bytes((len * 4) as nat, 1);
        lemma_le_first_byte((len * 4) as nat, 1);
    } else if len < 16384 {
        lemma_le_value_of_bytes((len * 4 + 1) as nat, 2);
        lemma_le_first_byte((len * 4 + 1) as nat, 2);
        assert(bytes[start] == bytes.subrange(start, start + wire.len())[0]);
        lemma_le_is_unique(bytes, start, (len * 4 + 1) as nat, 2);
    } else if len < 1073741824 {
        lemma_le_value_of_bytes((len * 4 + 2) as nat, 4);
        lemma_le_first_byte((len * 4 + 2) as nat, 4);
        lemma_le_is_unique(bytes, start, (len * 4 + 2) as nat, 4);
    } else {
        lemma_le_value_of_bytes(len as nat, 4);
        lemma_starts_with_both(bytes, start, seq![3u8], le_bytes(len as nat, 4));
        assert(bytes[start] == bytes.subrange(start, start + 1)[0]);
        lemma_le_is_unique(bytes, start + 1, len as nat, 4);
    }
}

/// Bytes whose first byte shows the form `mode` spell a number that goes
/// with that form, and are the bytes of that number.
pub proof fn lemma_compact_written(bytes: Seq<u8>, start: int, width: nat, mode: int)
    requires
        0 <= start,
        width >= 1,
        start + width <= bytes.len(),
        bytes[start] % 4 == mode,
    ensures
        le_value(bytes.subrange(start, start + width)) % 4 == mode,
        le_value(bytes.subrange(start, start + width)) < width_limit(width),
        le_bytes(le_value(bytes.subrange(start, start + width)), width) == bytes.subrange(start, start + width),
{
    let part = bytes.subrange(start, start + width);
    lemma_le_bytes_of_value(part);
    lemma_le_value_low(part);
}

/// Reads the length of a list from `bytes`, from `start` on, and says
/// where it ends. A length that is not written in its shortest form is not read.
pub fn decode_compact(bytes: &[u8], start: usize) -> (decoded: Option<(u32, usize)>)
    ensures
        decoded matches Some((len, end)) ==> starts_with(bytes@, start as int, compact_wire(len as nat)) && end
            == start + compact_wire(len as nat).len(),
        forall|len: u32| #[trigger]
            starts_with(bytes@, start as int, compact_wire(len as nat)) ==> decoded == Some(
                (len, (start + compact_wire(len as nat).len()) as usize),
            ),
{
    proof {
        assert forall|len: u32| #[trigger] starts_with(bytes@, start as int, compact_wire(len as nat)) implies {
            &&& start < bytes.len()
            &&& len < 64 ==> bytes@[start as int] % 4 == 0 && bytes@[start as int] / 4 == len && compact_wire(
                len as nat,
            ).len() == 1
            &&& 64 <= len < 16384 ==> bytes@[start as int] % 4 == 1 && start + 2 <= bytes.len() && le_value(
                bytes@.subrange(start as int, start + 2),
            ) == len * 4 + 1 && compact_wire(len as nat).len() == 2
            &&& 16384 <= len < 1073741824 ==> bytes@[start as int] % 4 == 2 && start + 4 <= bytes.len()
                && le_value(bytes@.subrange(start as int, start + 4)) == len * 4 + 2 && compact_wire(
                len as nat,
            ).len() == 4
            &&& 1073741824 <= len ==> bytes@[start as int] == 3 && start + 5 <= bytes.len() && le_value(
                bytes@.subrange(start + 1, start + 5),
            ) == len && compact_wire(len as nat).len() == 5
        } by {
            lemma_compact_read(bytes@, start as int, len);
        }
    }
    if start >= bytes.len() {
        return None;
    }
    let first = bytes[start];
    let mode = first % 4;
    if mode == 0 {
        let len: u32 = (first / 4) as u32;
        proof {
            lemma_compact_written(bytes@, start as int, 1, 0);
            reveal_with_fuel(le_value, 2);
        }
        Some((len, start + 1))
    } else if mode == 1 {
        match decode_le(bytes, start, 2) {
            None => None,
            Some(value) => {
                proof {
                    lemma_compact_written(bytes@, start as int, 2, 1);
                    reveal_with_fuel(width_limit, 3);
                }
                let len: u32 = (value / 4) as u32;
                if len < 64 {
                    None
                } else {
                    Some((len, start + 2))
                }
            },
        }
    } else if mode == 2 {
        match decode_le(bytes, start, 4) {
            None => None,
            Some(value) => {
                proof {
                    lemma_compact_written(bytes@, start as int, 4, 2);
                    reveal_with_fuel(width_limit, 5);
                }
                let len: u32 = (value / 4) as u32;
                if len < 16384 {
                    None
                } else {
                    Some((len, start + 4))
                }
            },
        }
    } else if first == 3 {
        match decode_le(bytes, start + 1, 4) {
            None => None,
            Some(value) => {
                proof {
                    lemma_le_bytes_of_value(bytes@.subrange(start + 1, start + 5));
                    reveal_with_fuel(width_limit, 5);
                }
                if value < 1073741824 {
                    None
                } else {
                    let len: u32 = value as u32;
                    proof {
                        assert(bytes@.subrange(start as int, start + 1) =~= seq![3u8]);
                        lemma_starts_with_joined(bytes@, start as int, seq![3u8], le_bytes(len as nat, 4));
                    }
                    Some((len, start + 5))
                }
            },
        }
    } else {
        None
    }
}

/// The bytes of a list: its length, and then its items one after the other.
pub open spec fn list_wire<T: Wire>(items: Seq<T>) -> Seq<u8> {
    compact_wire(items.len()) + span_wire(items, 0, items.len() as int)
}

/// Writes the bytes of the list `items` behind what `out` holds.
pub fn encode_list<T: Wire>(items: &Vec<T>, out: &mut Vec<u8>)
    requires
        items.len() <= u32::MAX,
    ensures
        final(out)@ == old(out)@ + list_wire(items@),
{
    encode_compact(items.len() as u32, out);
    encode_items(items.as_slice(), out);
}

/// Reads a list from `bytes`, from `start` on, and says where it ends.
pub fn decode_list<T: Wire>(bytes: &[u8], start: usize) -> (decoded: Option<(Vec<T>, usize)>)
    ensures
        decoded matches Some((items, end)) ==> starts_with(bytes@, start as int, list_wire(items@)) && end == start
            + list_wire(items@).len(),
        forall|row: Seq<T>| #[trigger]
            starts_with(bytes@, start as int, list_wire(row)) && row.len() <= u32::MAX ==> (decoded matches Some(
                (items, end),
            ) && items@ == row && end == start + list_wire(row).len()),
{
    proof {
        assert forall|row: Seq<T>| #[trigger]
            starts_with(bytes@, start as int, list_wire(row)) && row.len() <= u32::MAX implies starts_with(
            bytes@,
            start as int,
            compact_wire(row.len()),
        ) && starts_with(bytes@, start + compact_wire(row.len()).len(), span_wire(row, 0, row.len() as int)) by {
            lemma_starts_with_both(
                bytes@,
                start as int,
                compact_wire(row.len()),
                span_wire(row, 0, row.len() as int),
            );
        }
    }
    let (len, first) = match decode_compact(bytes, start) {
        None => {
            return None;
        },
        Some(read) => read,
    };
    let mut items: Vec<T> = Vec::new();
    let mut end: usize = first;
    let mut i: u32 = 0;
    assert(items_read(bytes@, first as int, items@, 0)) by {
        assert(bytes@.subrange(first as int, first as int) =~= Seq::<u8>::empty());
    }
    while i < len
        invariant
            i <= len,
            items@.len() == i,
            first <= bytes.len(),
            items_read(bytes@, first as int, items@, i as int),
            end == first + span_wire(items@, 0, i as int).len(),
            forall|row: Seq<T>| #[trigger]
                starts_with(bytes@, start as int, list_wire(row)) && row.len() <= u32::MAX ==> row.len() == len
                    && starts_with(bytes@, first as int, span_wire(row, 0, row.len() as int)),
        decreases len - i,
    {
        let ghost before = items@;
        match T::decode_from(bytes, end) {
            None => {
                proof {
                    assert forall|row: Seq<T>| #[trigger]
                        starts_with(bytes@, start as int, list_wire(row)) && row.len()
                        <= u32::MAX implies false by {
                        lemma_row_agrees(bytes@, first as int, items@, i as int, row, len as int);
                    }
                }
                return None;
            },
            Some((item, next)) => {
                items.push(item);
                proof {
                    lemma_span_of_same_items(before, items@, 0, i as int);
                    lemma_starts_with_joined(bytes@, first as int, span_wire(items@, 0, i as int), item.wire());
                    assert forall|k: int, other: T|
                        0 <= k < i + 1 && #[trigger] starts_with(
                            bytes@,
                            first + span_wire(items@, 0, k).len(),
                            other.wire(),
                        ) implies other == items@[k] by {
                        lemma_span_of_same_items(before, items@, 0, k);
                    }
                }
                end = next;
                i += 1;
            },
        }
    }
    proof {
        lemma_starts_with_joined(bytes@, start as int, compact_wire(len as nat), span_wire(items@, 0, len as int));
        assert forall|row: Seq<T>| #[trigger]
            starts_with(bytes@, start as int, list_wire(row)) && row.len() <= u32::MAX implies items@ == row by {
            lemma_row_agrees(bytes@, first as int, items@, len as int, row, len as int);
        }
    }
    Some((items, end))
}

/// The bytes of `value`.
pub fn encode<T: Wire>(value: &T) -> (bytes: Vec<u8>)
    ensures
        bytes@ == value.wire(),
{
    let mut bytes: Vec<u8> = Vec::new();
    value.encode_to(&mut bytes);
    bytes
}

/// The record whose bytes `bytes` are, where they are the bytes of one.
pub fn decode<T: Wire>(bytes: &[u8]) -> (decoded: Option<T>)
    ensures
        decoded matches Some(value) ==> bytes@ == value.wire(),
        forall|value: T| #![trigger value.wire()] bytes@ == value.wire() ==> decoded == Some(value),
{
    proof {
        assert forall|value: T| #![trigger value.wire()] bytes@ == value.wire() implies starts_with(
            bytes@,
            0,
            value.wire(),
        ) by {
            assert(bytes@.subrange(0, bytes@.len() as int) =~= bytes@);
        }
    }
    match T::decode_from(bytes, 0) {
        Some((value, end)) => {
            if end == bytes.len() {
                Some(value)
            } else {
                None
            }
        },
        None => None,
    }
}

/// What is written can be read again, and is then what it was.
pub proof fn lemma_round_trip<T: Wire>(value: T, written: Vec<u8>, read: &[u8], decoded: Option<T>)
    requires
        call_ensures(encode::<T>, (&value,), written),
        read@ == written@,
        call_ensures(decode::<T>, (read,), decoded),
    ensures
        decoded == Some(value),
{
}

} // verus!
