//! One name and the names derived from it.
//!
//! A name is derived by cutting it in front of a byte of its UTF-8 form and
//! putting a `*` in place of the rest. The model of a name is its sequence of
//! characters; cuts are counted in bytes, as the lengths of strings are.

use vstd::prelude::*;
use vstd::string::*;
use vstd::utf8::*;

verus! {

/// The name that stands for every domain or every interface.
pub const WILDCARD: &'static str = "*";

/// The length in bytes of the UTF-8 form of `name`.
pub open spec fn byte_len(name: Seq<char>) -> nat {
    encode_utf8(name).len()
}

/// Whether the UTF-8 form of `base` can be cut in front of byte `cut`: the
/// byte starts a character, or `cut` is the length of the whole form.
pub open spec fn is_cut_point(base: Seq<char>, cut: int) -> bool {
    is_char_boundary(encode_utf8(base), cut)
}

/// The characters that the first `cut` bytes of the UTF-8 form of `base` spell.
pub open spec fn byte_prefix(base: Seq<char>, cut: int) -> Seq<char> {
    decode_utf8(encode_utf8(base).subrange(0, cut))
}

/// The name derived from `base`: with a wildcard, the first `cut` bytes of
/// `base` followed by `*`; without, `base` itself.
pub open spec fn derived_name(add_wildcard: bool, base: Seq<char>, cut: int) -> Seq<char> {
    if add_wildcard {
        byte_prefix(base, cut).push('*')
    } else {
        base
    }
}

/// Whether `cut` may be drawn for `base`: any byte index but the last.
pub open spec fn is_random_cut(base: Seq<char>, cut: int) -> bool {
    0 <= cut < byte_len(base) - 1
}

/// Whether every cut that may be drawn for `base` falls between characters.
pub open spec fn is_cut_safe(base: Seq<char>) -> bool {
    forall|cut: int| is_random_cut(base, cut) ==> #[trigger] is_cut_point(base, cut)
}

/// Whether a random round may derive `name` from `base`: some coin flip and
/// some cut between characters give it.
pub open spec fn is_random_variant(base: Seq<char>, name: Seq<char>) -> bool {
    exists|add_wildcard: bool, cut: int|
        is_random_cut(base, cut) && is_cut_point(base, cut) && name == #[trigger] derived_name(
            add_wildcard,
            base,
            cut,
        )
}

/// Derives a name from `base_string`: its first `sub_string_idx` bytes with a
/// trailing `*` where `add_wildcard` is set, a copy of it where not.
pub fn create_string(
    add_wildcard: bool,
    base_string: &String,
    sub_string_idx: usize,
) -> (output_string: String)
    requires
        add_wildcard ==> is_cut_point(base_string@, sub_string_idx as int),
    ensures
        output_string@ == derived_name(add_wildcard, base_string@, sub_string_idx as int),
{
    if add_wildcard {
        let parts = base_string.as_str().split_at(sub_string_idx);
        let mut output_string = parts.0.to_owned();
        output_string.append(WILDCARD);
        proof {
            reveal_strlit("*");
            encode_utf8_decode_utf8(parts.0@);
        }
        return output_string;
    }
    base_string.clone()
}

/// Like [`create_string`], for any index: `None` where the wildcard form is
/// asked for and `sub_string_idx` is no cut point of `base_string`.
pub fn try_create_string(
    add_wildcard: bool,
    base_string: &String,
    sub_string_idx: usize,
) -> (output: Option<String>)
    ensures
        output is Some <==> (add_wildcard ==> is_cut_point(base_string@, sub_string_idx as int)),
        output is Some ==> output->0@ == derived_name(
            add_wildcard,
            base_string@,
            sub_string_idx as int,
        ),
{
    if add_wildcard && !base_string.as_str().is_char_boundary(sub_string_idx) {
        None
    } else {
        Some(create_string(add_wildcard, base_string, sub_string_idx))
    }
}

/// The length in bytes of `name`.
pub fn byte_length(name: &String) -> (length: usize)
    ensures
        length == byte_len(name@),
{
    name.as_str().as_bytes().len()
}

/// The characters in front of a cut point are a prefix of the name: a cut
/// between characters loses none and breaks none.
pub proof fn lemma_byte_prefix_is_prefix(base: Seq<char>, cut: int)
    requires
        is_cut_point(base, cut),
    ensures
        byte_prefix(base, cut).is_prefix_of(base),
{
    encode_utf8_valid_utf8(base);
    encode_utf8_decode_utf8(base);
    decode_utf8_split(encode_utf8(base), cut);
}

/// In a name of ASCII characters a byte is a character: the name has as many
/// bytes as characters, it can be cut in front of each and at its end, and
/// the first `cut` bytes spell the first `cut` characters.
pub proof fn lemma_ascii_cut(base: Seq<char>, cut: int)
    requires
        is_ascii_chars(base),
        0 <= cut <= base.len(),
    ensures
        byte_len(base) == base.len(),
        is_cut_point(base, cut),
        byte_prefix(base, cut) == base.take(cut),
{
    let bytes = encode_utf8(base);
    let front = base.take(cut);
    encode_utf8_valid_utf8(base);
    is_ascii_chars_encode_utf8(base);
    is_ascii_chars_encode_utf8(front);
    assert(encode_utf8(front) =~= bytes.subrange(0, cut));
    encode_utf8_decode_utf8(front);
    if cut < base.len() {
        is_char_boundary_iff_not_is_continuation_byte(bytes, cut);
    } else {
        is_char_boundary_start_end_of_seq(bytes);
    }
}

/// A name of ASCII characters can take every cut that may be drawn for it.
pub proof fn lemma_ascii_is_cut_safe(base: Seq<char>)
    requires
        is_ascii_chars(base),
    ensures
        is_cut_safe(base),
{
    assert forall|cut: int| is_random_cut(base, cut) implies #[trigger] is_cut_point(base, cut) by {
        is_ascii_chars_encode_utf8(base);
        lemma_ascii_cut(base, cut);
    }
}

/// A random variant of a name is the name itself, or a proper prefix of it
/// followed by `*`.
pub proof fn lemma_random_variant_shape(base: Seq<char>, name: Seq<char>)
    requires
        is_random_variant(base, name),
    ensures
        name == base || (name.len() > 0 && name.last() == '*' && name.drop_last().is_prefix_of(
            base,
        ) && name.drop_last().len() < base.len()),
{
    let (add_wildcard, cut) = choose|add_wildcard: bool, cut: int|
        is_random_cut(base, cut) && is_cut_point(base, cut) && name == #[trigger] derived_name(
            add_wildcard,
            base,
            cut,
        );
    if add_wildcard {
        let bytes = encode_utf8(base);
        let front = byte_prefix(base, cut);
        assert(name.drop_last() =~= front);
        lemma_byte_prefix_is_prefix(base, cut);
        assert(encode_utf8(front).len() == cut) by {
            encode_utf8_valid_utf8(base);
            valid_utf8_split(bytes, cut);
            decode_utf8_encode_utf8(bytes.subrange(0, cut));
        }
        if front.len() == base.len() {
            assert(front =~= base);
        }
    }
}

} // verus!
