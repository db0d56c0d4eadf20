//! Device paths and the instance ids that the cloaking helper knows
//! devices by.

use vstd::prelude::*;
use vstd::string::*;
use vstd::utf8::*;

verus! {

/// The upper-case form of a string, as the standard library's Unicode case
/// mapping gives it. A character may map to several.
pub uninterp spec fn uppercase_of(s: Seq<char>) -> Seq<char>;

/// `str::to_uppercase`: the result is the upper-case form of the argument,
/// a function of the argument alone. Nothing more is claimed of it.
#[verifier::external_body]
fn to_upper(s: &str) -> (r: String)
    ensures
        r@ == uppercase_of(s@),
{
    s.to_uppercase()
}

/// Whether the bytes of `HID#` stand at index `i` of `b`.
pub open spec fn anchor_at(b: Seq<u8>, i: int) -> bool {
    &&& 0 <= i
    &&& i + 4 <= b.len()
    &&& b[i] == 0x48
    &&& b[i + 1] == 0x49
    &&& b[i + 2] == 0x44
    &&& b[i + 3] == 0x23
}

/// The first index from `from` onwards where `HID#` stands, if any.
pub open spec fn first_anchor(b: Seq<u8>, from: int) -> Option<int>
    decreases b.len() - from,
{
    if from < 0 || from + 4 > b.len() {
        None
    } else if anchor_at(b, from) {
        Some(from)
    } else {
        first_anchor(b, from + 1)
    }
}

/// The index of the first `#` from `from` onwards, or the length of `p`
/// where there is none.
pub open spec fn next_hash(p: Seq<char>, from: int) -> int
    decreases p.len() - from,
{
    if from < 0 || from >= p.len() {
        p.len() as int
    } else if p[from] == '#' {
        from
    } else {
        next_hash(p, from + 1)
    }
}

/// The part of a device path from its anchor on. The anchor `HID#` is
/// looked for in the upper-case form `upper` of the path, and the path is
/// cut at the byte offset where it was found there. Where the upper-case
/// form has no anchor, or its offset falls inside a character of the path
/// or behind its end, there is no such part.
pub open spec fn device_tail(path: Seq<char>, upper: Seq<char>) -> Option<Seq<char>> {
    match first_anchor(encode_utf8(upper), 0) {
        None => None,
        Some(i) => if is_char_boundary(encode_utf8(path), i) {
            Some(decode_utf8(encode_utf8(path).subrange(i, encode_utf8(path).len() as int)))
        } else {
            None
        },
    }
}

/// The hardware id and the instance id in the tail of a device path: what
/// stands between its first and second `#`, and between the second and the
/// third or the end. A tail with fewer than two `#` holds none.
pub open spec fn id_parts(tail: Seq<char>) -> Option<(Seq<char>, Seq<char>)> {
    let c1 = next_hash(tail, 0);
    if c1 >= tail.len() {
        None
    } else {
        let c2 = next_hash(tail, c1 + 1);
        if c2 >= tail.len() {
            None
        } else {
            let c3 = next_hash(tail, c2 + 1);
            Some((tail.subrange(c1 + 1, c2), tail.subrange(c2 + 1, c3)))
        }
    }
}

/// The two ids of a device path, as they stand in it.
pub open spec fn ids_in(path: Seq<char>, upper: Seq<char>) -> Option<(Seq<char>, Seq<char>)> {
    match device_tail(path, upper) {
        None => None,
        Some(tail) => id_parts(tail),
    }
}

/// `HID\`, the hardware id, `\`, the instance id.
pub open spec fn joined(hardware_id: Seq<char>, instance_id: Seq<char>) -> Seq<char> {
    seq!['H', 'I', 'D', '\\'] + hardware_id + seq!['\\'] + instance_id
}

/// The instance id that a device path stands for: its two ids in upper
/// case, joined.
pub open spec fn instance_id_of(path: Seq<char>) -> Option<Seq<char>> {
    match ids_in(path, uppercase_of(path)) {
        None => None,
        Some((hw, inst)) => Some(joined(uppercase_of(hw), uppercase_of(inst))),
    }
}

fn find_anchor(bytes: &[u8]) -> (r: Option<usize>)
    ensures
        match r {
            Some(i) => first_anchor(bytes@, 0) == Some(i as int),
            None => first_anchor(bytes@, 0) is None,
        },
{
    let n = bytes.len();
    if n < 4 {
        return None;
    }
    let mut i: usize = 0;
    while i <= n - 4
        invariant
            n == bytes.len(),
            n >= 4,
            first_anchor(bytes@, 0) == first_anchor(bytes@, i as int),
        decreases n - i,
    {
        if bytes[i] == 0x48 && bytes[i + 1] == 0x49 && bytes[i + 2] == 0x44 && bytes[i + 3]
            == 0x23 {
            return Some(i);
        }
        i = i + 1;
    }
    None
}

fn find_hash(s: &str, from: usize, len: usize) -> (r: usize)
    requires
        len == s@.len(),
        from <= len,
    ensures
        r == next_hash(s@, from as int),
        from <= r <= len,
{
    let mut i: usize = from;
    while i < len
        invariant
            len == s@.len(),
            from <= i <= len,
            next_hash(s@, from as int) == next_hash(s@, i as int),
        decreases len - i,
    {
        if s.get_char(i) == '#' {
            return i;
        }
        i = i + 1;
    }
    len
}

/// Finds the hardware id and the instance id in a device path. `upper` is
/// the upper-case form of the path, in which the anchor is looked for: so
/// it is found in any case.
pub fn find_ids<'a>(path: &'a str, upper: &str) -> (r: Option<(&'a str, &'a str)>)
    ensures
        match r {
            Some((hw, inst)) => ids_in(path@, upper@) == Some((hw@, inst@)),
            None => ids_in(path@, upper@) is None,
        },
{
    let start = match find_anchor(upper.as_bytes()) {
        Some(i) => i,
        None => {
            return None;
        },
    };
    if !path.is_char_boundary(start) {
        return None;
    }
    let (_, tail) = path.split_at(start);
    proof {
        encode_utf8_decode_utf8(tail@);
        assert(device_tail(path@, upper@) == Some(tail@));
    }
    let len = tail.unicode_len();
    let c1 = find_hash(tail, 0, len);
    if c1 >= len {
        return None;
    }
    let c2 = find_hash(tail, c1 + 1, len);
    if c2 >= len {
        return None;
    }
    let c3 = find_hash(tail, c2 + 1, len);
    Some((tail.substring_char(c1 + 1, c2), tail.substring_char(c2 + 1, c3)))
}

/// Joins a hardware id and an instance id to the form that the cloaking
/// helper takes.
pub fn join_instance_id(hardware_id: &str, instance_id: &str) -> (id: String)
    ensures
        id@ == joined(hardware_id@, instance_id@),
{
    let mut id = String::from_str("HID\\");
    proof {
        reveal_strlit("HID\\");
        reveal_strlit("\\");
        assert(id@ =~= seq!['H', 'I', 'D', '\\']);
    }
    id.append(hardware_id);
    id.append("\\");
    id.append(instance_id);
    assert(id@ =~= joined(hardware_id@, instance_id@));
    id
}

/// Turns the path that the HID enumeration gives for a device into the
/// instance id that the cloaking helper hides it by. A path without the
/// anchor `HID#`, or without two `#` from the anchor on, has none.
pub fn path_to_instance_id(path: &str) -> (r: Option<String>)
    ensures
        match r {
            Some(id) => instance_id_of(path@) == Some(id@),
            None => instance_id_of(path@) is None,
        },
{
    let upper = to_upper(path);
    match find_ids(path, upper.as_str()) {
        Some((hw, inst)) => {
            let hardware_id = to_upper(hw);
            let instance_id = to_upper(inst);
            Some(join_instance_id(hardware_id.as_str(), instance_id.as_str()))
        },
        None => None,
    }
}

} // verus!
