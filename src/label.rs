use vstd::prelude::*;
use vstd::utf8::*;
use vstd::string::*;

verus! {

/// The byte `/`, which separates the parts of a path.
pub const SLASH: u8 = 47;

/// Where the last part of the path `b` begins: just past its last `/`,
/// or at the start when it has none.
pub open spec fn slash_cut(b: Seq<u8>) -> int
    decreases b.len(),
{
    if b.len() == 0 {
        0
    } else if b.last() == SLASH {
        b.len() as int
    } else {
        slash_cut(b.drop_last())
    }
}

/// The last part of the path `b`: the bytes after its last `/`, or the whole
/// path when it has none.
pub open spec fn after_last_slash(b: Seq<u8>) -> Seq<u8> {
    b.subrange(slash_cut(b), b.len() as int)
}

/// The name under which a dropped file is listed: the part of its path after
/// the last `/`.
pub fn track_label(path: &str) -> (r: &str)
    ensures
        r.spec_bytes() == after_last_slash(path.spec_bytes()),
{
    let bytes = path.as_bytes();
    let n = bytes.len();
    let mut i: usize = n;
    assert(bytes@.subrange(0, n as int) =~= bytes@);
    while i > 0
        invariant
            i <= n,
            n == bytes@.len(),
            bytes@ == path.spec_bytes(),
            slash_cut(bytes@) == slash_cut(bytes@.subrange(0, i as int)),
        ensures
            i == 0 || bytes@[i - 1] == SLASH,
            slash_cut(bytes@) == slash_cut(bytes@.subrange(0, i as int)),
        decreases i,
    {
        if bytes[i - 1] == SLASH {
            break;
        }
        assert(bytes@.subrange(0, i as int).drop_last() =~= bytes@.subrange(0, i - 1));
        i = i - 1;
    }
    if i == 0 {
        assert(bytes@.subrange(0, 0) =~= Seq::<u8>::empty());
        return path;
    }
    proof {
        broadcast use encode_utf8_valid_utf8;
        assert(valid_utf8(bytes@));
        is_char_boundary_iff_not_is_continuation_byte(bytes@, i - 1);
        assert(!is_continuation_byte(bytes@[i - 1]));
        assert(is_char_boundary(bytes@, i - 1));
    }
    let (_, tail) = path.split_at(i - 1);
    proof {
        broadcast use encode_utf8_valid_utf8;
        let tb = tail.spec_bytes();
        assert(tb[0] == SLASH);
        assert(valid_utf8(tb));
        assert(length_of_first_scalar(tb) == 1);
        reveal_with_fuel(is_char_boundary, 2);
        assert(is_char_boundary(tb, 1));
    }
    let (_, rest) = tail.split_at(1);
    assert(rest.spec_bytes() =~= bytes@.subrange(i as int, n as int));
    rest
}

} // verus!
