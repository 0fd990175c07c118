//! Filesystem paths as the bytes that the operating system holds, and their
//! conversion to text.
use vstd::prelude::*;
use vstd::string::StringSliceAdditionalSpecFns;
use vstd::utf8::{
    decode_utf8, decode_utf8_split, encode_utf8, encode_utf8_decode_utf8, encode_utf8_valid_utf8,
    is_ascii_chars, is_ascii_chars_encode_utf8, is_char_boundary_iff_not_is_continuation_byte,
    valid_utf8, valid_utf8_concat, valid_utf8_split,
};

verus! {

/// The byte that separates the components of a path.
pub const SEPARATOR: u8 = 47;

/// The path `file` taken relative to the directory `dir`.
///
/// A `file` that starts at the root stands for itself. Otherwise it is
/// appended to `dir`, after a separator where `dir` is not empty and does
/// not end in one already.
pub open spec fn join_spec(dir: Seq<u8>, file: Seq<u8>) -> Seq<u8> {
    if file.len() > 0 && file[0] == SEPARATOR {
        file
    } else if dir.len() > 0 && dir.last() != SEPARATOR {
        dir + seq![SEPARATOR] + file
    } else {
        dir + file
    }
}

/// The text of a path: what its bytes decode to, where they are well-formed
/// UTF-8.
pub open spec fn path_text(bytes: Seq<u8>) -> Option<Seq<char>> {
    if valid_utf8(bytes) {
        Some(decode_utf8(bytes))
    } else {
        None
    }
}

/// The text of the path of the file called `name` in the directory `dir`,
/// where `dir` has a text: that text, a separator where `dir` is not empty
/// and does not end in one, and the name.
pub open spec fn join_text(dir: Seq<u8>, name: Seq<char>) -> Option<Seq<char>> {
    match path_text(dir) {
        None => None,
        Some(text) => if dir.len() > 0 && dir.last() != SEPARATOR {
            Some(text + seq!['/'] + name)
        } else {
            Some(text + name)
        },
    }
}

/// A file with a plain name has a path with a text exactly where its
/// directory has one, and the text is that of the directory followed by the
/// name.
pub proof fn lemma_join_text(dir: Seq<u8>, name: Seq<char>)
    requires
        name.len() > 0,
        is_ascii_chars(name),
        name[0] != '/',
    ensures
        path_text(join_spec(dir, encode_utf8(name))) == join_text(dir, name),
{
    let file = encode_utf8(name);
    is_ascii_chars_encode_utf8(name);
    assert(file[0] == name[0] as u8);
    let separated = dir.len() > 0 && dir.last() != SEPARATOR;
    let tail_text = if separated {
        seq!['/'] + name
    } else {
        name
    };
    assert(is_ascii_chars(tail_text));
    is_ascii_chars_encode_utf8(tail_text);
    encode_utf8_valid_utf8(tail_text);
    encode_utf8_decode_utf8(tail_text);
    let tail = encode_utf8(tail_text);
    let joined = join_spec(dir, file);
    assert(joined =~= dir + tail);
    assert(joined.subrange(0, dir.len() as int) =~= dir);
    assert(joined.subrange(dir.len() as int, joined.len() as int) =~= tail);
    assert(joined[dir.len() as int] == tail_text[0] as u8);
    if valid_utf8(dir) {
        valid_utf8_concat(dir, tail);
        is_char_boundary_iff_not_is_continuation_byte(joined, dir.len() as int);
        decode_utf8_split(joined, dir.len() as int);
        assert(decode_utf8(dir) + tail_text =~= join_text(dir, name)->0);
    } else if valid_utf8(joined) {
        is_char_boundary_iff_not_is_continuation_byte(joined, dir.len() as int);
        valid_utf8_split(joined, dir.len() as int);
    }
}

/// Joins `file` to the directory `dir`.
pub fn join(dir: &[u8], file: &[u8]) -> (joined: Vec<u8>)
    ensures
        joined@ == join_spec(dir@, file@),
{
    let mut joined: Vec<u8> = Vec::new();
    if file.len() > 0 && file[0] == SEPARATOR {
        joined.extend_from_slice(file);
        assert(joined@ =~= file@);
    } else {
        joined.extend_from_slice(dir);
        if dir.len() > 0 && dir[dir.len() - 1] != SEPARATOR {
            joined.push(SEPARATOR);
            joined.extend_from_slice(file);
            assert(joined@ =~= dir@ + seq![SEPARATOR] + file@);
        } else {
            joined.extend_from_slice(file);
            assert(joined@ =~= dir@ + file@);
        }
    }
    joined
}

/// `std::str::from_utf8`: succeeds exactly on well-formed UTF-8, and the
/// string it gives is made of the given bytes.
#[verifier::external_body]
pub(crate) fn decode(bytes: &[u8]) -> (text: Option<&str>)
    ensures
        text is Some <==> valid_utf8(bytes@),
        text is Some ==> text->0.spec_bytes() == bytes@,
{
    match std::str::from_utf8(bytes) {
        Ok(text) => Some(text),
        Err(_) => None,
    }
}

/// The text of the path that `bytes` holds, where it has one.
pub fn to_text(bytes: &[u8]) -> (text: Option<String>)
    ensures
        match text {
            Some(t) => path_text(bytes@) == Some(t@),
            None => path_text(bytes@) is None,
        },
{
    match decode(bytes) {
        Some(t) => {
            proof {
                encode_utf8_decode_utf8(t@);
            }
            Some(t.to_owned())
        },
        None => None,
    }
}

} // verus!
