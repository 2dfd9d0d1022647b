//! Deriving the object key from an inbound request path.

use vstd::prelude::*;
use vstd::utf8::encode_scalar;
use vstd::utf8::encode_utf8;
use vstd::utf8::encode_utf8_decode_utf8;
use vstd::utf8::encode_utf8_first_scalar;
use vstd::utf8::encode_utf8_valid_utf8;
use vstd::utf8::is_char_boundary;
use vstd::utf8::length_of_first_scalar;
use vstd::utf8::pop_first_scalar;
use vstd::utf8::valid_utf8;

verus! {

/// The object key named by an inbound path: the path with exactly its
/// first character — the mandatory leading separator — removed.
pub open spec fn spec_object_key(path: Seq<char>) -> Seq<char> {
    path.subrange(1, path.len() as int)
}

/// Strips exactly one leading `/` from the request path to obtain the
/// object key. The inbound path always begins with the separator; handing
/// over one that does not is a contract violation of the caller, so such
/// paths are excluded here rather than handled.
pub fn object_key_of_path(path: &str) -> (key: String)
    requires
        path@.len() > 0,
        path@[0] == '/',
    ensures
        key@ == spec_object_key(path@),
{
    proof {
        lemma_slash_is_one_byte(path@);
    }
    let (_slash, rest) = path.split_at(1);
    proof {
        lemma_tail_bytes_decode(path@, rest@);
    }
    rest.to_owned()
}

/// The encoding of a path that starts with `/` begins with the single byte
/// 47, so byte offset 1 is a character boundary.
proof fn lemma_slash_is_one_byte(p: Seq<char>)
    requires
        p.len() > 0,
        p[0] == '/',
    ensures
        encode_utf8(p) =~= seq![47u8] + encode_utf8(p.drop_first()),
        is_char_boundary(encode_utf8(p), 1),
{
    broadcast use encode_utf8_valid_utf8;

    let bytes = encode_utf8(p);
    assert('/' as u32 == 47);
    assert(47u32 & 0x7F == 47) by (bit_vector);
    assert(encode_scalar(47) =~= seq![47u8]);
    assert(bytes =~= seq![47u8] + encode_utf8(p.drop_first()));
    encode_utf8_first_scalar(p);
    assert(length_of_first_scalar(bytes) == 1);
    assert(valid_utf8(bytes));
    assert(valid_utf8(pop_first_scalar(bytes)));
    assert(is_char_boundary(pop_first_scalar(bytes), 0));
    assert(is_char_boundary(bytes, 1));
}

/// A string slice whose bytes are the encoding of `p` without its first
/// (one-byte) character views as `p` without its first character.
proof fn lemma_tail_bytes_decode(p: Seq<char>, tail: Seq<char>)
    requires
        p.len() > 0,
        p[0] == '/',
        encode_utf8(tail) =~= encode_utf8(p).subrange(1, encode_utf8(p).len() as int),
    ensures
        tail =~= spec_object_key(p),
{
    lemma_slash_is_one_byte(p);
    assert(encode_utf8(p).subrange(1, encode_utf8(p).len() as int) =~= encode_utf8(
        p.drop_first(),
    ));
    encode_utf8_decode_utf8(tail);
    encode_utf8_decode_utf8(p.drop_first());
    assert(tail =~= p.drop_first());
    assert(p.drop_first() =~= spec_object_key(p));
}

} // verus!
