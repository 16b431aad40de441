//! The shape of a header block of HPACK: where its fields begin and end.
//! A block is only handed to the decoder once its shape is known to be
//! sound.

use vstd::prelude::*;

verus! {

/// The octets of an integer that follow its prefix. `count` octets of the
/// integer have been read, `value` is what they gave and `scale` is what the
/// next seven bits count for. An integer has at most five octets.
pub open spec fn integer_tail(block: Seq<u8>, at: int, value: nat, scale: nat, count: int) -> Option<
    (nat, int),
>
    decreases 5 - count,
{
    if count < 1 || count >= 5 || at < 0 || at + count >= block.len() {
        None
    } else {
        let octet = block[at + count];
        let more = value + (octet & 127u8) as nat * scale;
        if octet & 128u8 != 128u8 {
            Some((more, count + 1))
        } else if count + 1 == 5 {
            None
        } else {
            integer_tail(block, at, more, scale * 128, count + 1)
        }
    }
}

/// The integer that starts at `at` in the bits of its first octet that
/// `mask` selects: its value and the number of its octets.
pub open spec fn integer_at(block: Seq<u8>, at: int, mask: u8) -> Option<(nat, int)> {
    if at < 0 || at >= block.len() {
        None
    } else {
        let first = block[at] & mask;
        if first < mask {
            Some((first as nat, 1))
        } else {
            integer_tail(block, at, first as nat, 1, 1)
        }
    }
}

/// The number of octets of the string that starts at `at`: those of its
/// length and as many as the length says.
pub open spec fn string_at(block: Seq<u8>, at: int) -> Option<int> {
    match integer_at(block, at, 127u8) {
        Some((length, count)) => if count + length > block.len() - at {
            None
        } else {
            Some(count + length)
        },
        None => None,
    }
}

/// The number of octets of the literal field that starts at `at`: an
/// index, a name unless the index stands for one, and a value.
pub open spec fn literal_at(block: Seq<u8>, at: int, mask: u8) -> Option<int> {
    match integer_at(block, at, mask) {
        Some((index, count)) => {
            let named = if index == 0 {
                match string_at(block, at + count) {
                    Some(n) => Some(count + n),
                    None => None,
                }
            } else {
                Some(count)
            };
            match named {
                Some(n) => match string_at(block, at + n) {
                    Some(v) => Some(n + v),
                    None => None,
                },
                None => None,
            }
        },
        None => None,
    }
}

/// The number of octets of the field that starts at `at`. Its first octet
/// says what kind of field it is.
pub open spec fn field_at(block: Seq<u8>, at: int) -> Option<int> {
    if at < 0 || at >= block.len() {
        None
    } else if block[at] & 128u8 == 128u8 {
        match integer_at(block, at, 127u8) {
            Some((_, count)) => Some(count),
            None => None,
        }
    } else if block[at] & 64u8 == 64u8 {
        literal_at(block, at, 63u8)
    } else if block[at] & 32u8 == 32u8 {
        match integer_at(block, at, 31u8) {
            Some((_, count)) => Some(count),
            None => None,
        }
    } else {
        literal_at(block, at, 15u8)
    }
}

/// Whether the octets from `at` on are fields, one after the other, up to
/// the end of the block.
pub open spec fn fields_from(block: Seq<u8>, at: int) -> bool
    decreases block.len() - at,
{
    if at < 0 || at >= block.len() {
        true
    } else {
        match field_at(block, at) {
            Some(count) => if count > 0 && at + count <= block.len() {
                fields_from(block, at + count)
            } else {
                false
            },
            None => false,
        }
    }
}

/// Whether a block is made of fields, one after the other.
pub open spec fn well_formed_block(block: Seq<u8>) -> bool {
    fields_from(block, 0)
}

fn read_integer(block: &[u8], at: usize, mask: u8) -> (found: Option<(usize, usize)>)
    requires
        at <= block@.len(),
        mask == 127 || mask == 63 || mask == 31 || mask == 15,
    ensures
        match integer_at(block@, at as int, mask) {
            Some((value, count)) => found == Some((value as usize, count as usize)) && 1 <= count <= 5
                && at + count <= block@.len() && value < 0x2000_0000,
            None => found is None,
        },
{
    if at >= block.len() {
        return None;
    }
    let start: u8 = block[at];
    let first: u8 = start & mask;
    assert(first <= mask) by (bit_vector)
        requires
            first == start & mask,
    ;
    if first < mask {
        return Some((first as usize, 1));
    }
    let mut value: usize = first as usize;
    let mut scale: usize = 1;
    let mut count: usize = 1;
    while count < 5
        invariant
            1 <= count <= 5,
            block@.len() <= usize::MAX,
            at < block@.len(),
            at + count <= block@.len(),
            count == 1 ==> scale == 1 && value < 128,
            count == 2 ==> scale == 128 && value < 128 + 127 * 1,
            count == 3 ==> scale == 16384 && value < 128 + 127 * 129,
            count == 4 ==> scale == 2097152 && value < 128 + 127 * 16513,
            count == 5 ==> integer_at(block@, at as int, mask) is None,
            count < 5 ==> integer_tail(block@, at as int, value as nat, scale as nat, count as int)
                == integer_at(block@, at as int, mask),
        decreases 5 - count,
    {
        if at + count >= block.len() {
            return None;
        }
        let octet: u8 = block[at + count];
        let low: u8 = octet & 127u8;
        assert(low <= 127) by (bit_vector)
            requires
                low == octet & 127u8,
        ;
        assert(low as usize * scale <= 127 * scale) by (nonlinear_arith)
            requires
                low <= 127,
        ;
        let more: usize = value + low as usize * scale;
        if octet & 128u8 != 128u8 {
            return Some((more, count + 1));
        }
        if count + 1 == 5 {
            return None;
        }
        value = more;
        scale = scale * 128;
        count = count + 1;
    }
    None
}

fn read_string(block: &[u8], at: usize) -> (found: Option<usize>)
    requires
        at <= block@.len(),
    ensures
        match string_at(block@, at as int) {
            Some(count) => found == Some(count as usize) && 1 <= count && at + count <= block@.len(),
            None => found is None,
        },
{
    match read_integer(block, at, 127u8) {
        Some((length, count)) => {
            if length > block.len() - at - count {
                None
            } else {
                Some(count + length)
            }
        },
        None => None,
    }
}

fn read_literal(block: &[u8], at: usize, mask: u8) -> (found: Option<usize>)
    requires
        at <= block@.len(),
        mask == 63 || mask == 15,
    ensures
        match literal_at(block@, at as int, mask) {
            Some(count) => found == Some(count as usize) && 1 <= count && at + count <= block@.len(),
            None => found is None,
        },
{
    let length = block.len();
    let (index, count) = match read_integer(block, at, mask) {
        Some(found) => found,
        None => {
            return None;
        },
    };
    let named: usize = if index == 0 {
        match read_string(block, at + count) {
            Some(n) => count + n,
            None => {
                return None;
            },
        }
    } else {
        count
    };
    match read_string(block, at + named) {
        Some(v) => Some(named + v),
        None => None,
    }
}

fn read_field(block: &[u8], at: usize) -> (found: Option<usize>)
    requires
        at < block@.len(),
    ensures
        match field_at(block@, at as int) {
            Some(count) => found == Some(count as usize) && 1 <= count && at + count <= block@.len(),
            None => found is None,
        },
{
    let first: u8 = block[at];
    if first & 128u8 == 128u8 {
        match read_integer(block, at, 127u8) {
            Some((_, count)) => Some(count),
            None => None,
        }
    } else if first & 64u8 == 64u8 {
        read_literal(block, at, 63u8)
    } else if first & 32u8 == 32u8 {
        match read_integer(block, at, 31u8) {
            Some((_, count)) => Some(count),
            None => None,
        }
    } else {
        read_literal(block, at, 15u8)
    }
}

/// Whether a block is made of fields, one after the other.
pub fn is_well_formed_block(block: &[u8]) -> (b: bool)
    ensures
        b == well_formed_block(block@),
{
    let mut at: usize = 0;
    while at < block.len()
        invariant
            at <= block@.len(),
            fields_from(block@, at as int) == fields_from(block@, 0),
        decreases block@.len() - at,
    {
        match read_field(block, at) {
            Some(count) => {
                at = at + count;
            },
            None => {
                return false;
            },
        }
    }
    true
}

} // verus!
