//! Reading and updating an image in place: its name, its element type and the
//! write flag that serialises its writers.
use crate::datatype::{
    lemma_datatype_code_decode, lemma_datatype_code_roundtrip, spec_datatype_code,
    spec_datatype_from_code, spec_datatype_try_from, DataType,
};
use crate::encoding::{dec_chars, read_chars};
use crate::error::Error;
use crate::imagestreamio::spec_name_chars;
use crate::imagestreamio::byte_structs::{METADATA_SIZE, WRITE_FLAG_OFFSET};
use vstd::prelude::*;

verus! {

/// Appends a character to a string: `String::push`, which the standard
/// library documents as appending the character to the end of the string.
#[verifier::external_body]
fn push_char(s: &mut String, c: char)
    ensures
        final(s)@ == old(s)@.push(c),
{
    s.push(c);
}

/// The characters of a NUL-terminated name: those before the first NUL.
pub open spec fn name_prefix(s: Seq<i8>) -> Seq<i8>
    decreases s.len(),
{
    if s.len() == 0 {
        Seq::empty()
    } else if s[0] == 0 {
        Seq::empty()
    } else {
        seq![s[0]] + name_prefix(s.drop_first())
    }
}

/// A C character read as a byte and shown as the character of that code.
pub open spec fn char_of(c: i8) -> char {
    ((c as u8) as u32) as char
}

/// The name that the characters `s` hold, as a string.
pub open spec fn spec_name_string(s: Seq<i8>) -> Seq<char> {
    name_prefix(s).map_values(|c: i8| char_of(c))
}

/// A prefix without NUL of a sequence that then holds a NUL (or ends) is its
/// name.
proof fn lemma_name_prefix_take(s: Seq<i8>, i: int)
    requires
        0 <= i <= s.len(),
        forall|j: int| 0 <= j < i ==> s[j] != 0,
        i == s.len() || s[i] == 0,
    ensures
        name_prefix(s) == s.take(i),
    decreases i,
{
    if i == 0 {
        assert(s.take(0) =~= Seq::<i8>::empty());
    } else {
        lemma_name_prefix_take(s.drop_first(), i - 1);
        assert(s.take(i) =~= seq![s[0]] + s.drop_first().take(i - 1));
    }
}

/// The name held by an array of C characters: the characters before the first
/// NUL, each byte read as the character of that code.
pub fn name_string(chars: &[i8]) -> (r: String)
    ensures
        r@ == spec_name_string(chars@),
{
    let mut r = String::new();
    let mut i: usize = 0;
    while i < chars.len() && chars[i] != 0
        invariant
            i <= chars@.len(),
            forall|j: int| 0 <= j < i ==> chars@[j] != 0,
            r@ == chars@.take(i as int).map_values(|c: i8| char_of(c)),
        decreases chars@.len() - i,
    {
        let c = chars[i];
        push_char(&mut r, (c as u8) as char);
        assert(chars@.take(i + 1).map_values(|c: i8| char_of(c)) =~= chars@.take(i as int).map_values(
            |c: i8| char_of(c),
        ).push(char_of(c)));
        i = i + 1;
    }
    proof {
        lemma_name_prefix_take(chars@, i as int);
    }
    r
}

/// The name stored in the metadata at the start of `s`.
pub open spec fn spec_stored_name(s: Seq<u8>) -> Seq<char> {
    spec_name_string(dec_chars(s.subrange(32, 112)))
}

/// The name stored in the metadata at the start of an image's bytes.
pub fn stored_name(bytes: &[u8]) -> (r: String)
    requires
        bytes@.len() >= METADATA_SIZE,
    ensures
        r@ == spec_stored_name(bytes@),
{
    let chars = read_chars::<80>(bytes, 32);
    name_string(&chars)
}

/// Whether the write flag of the image whose bytes are `s` is raised.
pub open spec fn write_flag_raised(s: Seq<u8>) -> bool {
    s[WRITE_FLAG_OFFSET as int] != 0
}

/// Takes the write flag of an image: if no one holds it, raises it; if
/// someone does, leaves the image as it is and reports the image's name.
pub fn acquire_write(bytes: &mut [u8]) -> (r: Result<(), Error>)
    requires
        old(bytes)@.len() >= METADATA_SIZE,
    ensures
        !write_flag_raised(old(bytes)@) ==> r is Ok && final(bytes)@ == old(bytes)@.update(
            WRITE_FLAG_OFFSET as int,
            1,
        ),
        write_flag_raised(old(bytes)@) ==> final(bytes)@ == old(bytes)@ && (r matches Err(
            Error::ImageIsBeingWritten(n),
        ) && n@ == spec_stored_name(old(bytes)@)),
{
    if bytes[WRITE_FLAG_OFFSET] != 0 {
        return Err(Error::ImageIsBeingWritten(stored_name(bytes)));
    }
    bytes[WRITE_FLAG_OFFSET] = 1;
    Ok(())
}

/// Lowers the write flag of an image.
pub fn release_write(bytes: &mut [u8])
    requires
        old(bytes)@.len() >= METADATA_SIZE,
    ensures
        final(bytes)@ == old(bytes)@.update(WRITE_FLAG_OFFSET as int, 0),
{
    bytes[WRITE_FLAG_OFFSET] = 0;
}

/// Taking the write flag of an image no one writes and then lowering it gives
/// back the image's bytes as they were.
pub proof fn lemma_write_cycle_restores(s: Seq<u8>)
    requires
        s.len() >= METADATA_SIZE,
        !write_flag_raised(s),
    ensures
        s.update(WRITE_FLAG_OFFSET as int, 1).update(WRITE_FLAG_OFFSET as int, 0) == s,
{
    assert(s.update(WRITE_FLAG_OFFSET as int, 1).update(WRITE_FLAG_OFFSET as int, 0) =~= s);
}

/// The outcome of opening an image of element type `expected` that holds
/// the type code `found`.
pub open spec fn spec_check_datatype(expected: DataType, found: u8) -> Result<(), Error> {
    if found == spec_datatype_code(expected) {
        Ok(())
    } else {
        match spec_datatype_try_from(found) {
            Ok(d) => Err(Error::MismatchDataType { expected, found: d }),
            Err(e) => Err(e),
        }
    }
}

/// Checks that an image holding the type code `found` holds elements of type
/// `expected`; otherwise reports the type it holds, or that its code names
/// no type.
pub fn check_datatype(expected: DataType, found: u8) -> (r: Result<(), Error>)
    ensures
        r == spec_check_datatype(expected, found),
{
    if u8::from(expected) != found {
        match DataType::try_from(found) {
            Ok(d) => Err(Error::MismatchDataType { expected, found: d }),
            Err(e) => Err(e),
        }
    } else {
        Ok(())
    }
}

/// Opening an image as type `expected` succeeds exactly when the stored code
/// is the code of `expected`; otherwise a stored code of another type gives
/// `MismatchDataType` with that other type (never `expected` itself), and a
/// code that names no type gives `UnsupportedDataType` with that code.
pub proof fn lemma_check_datatype_exact(expected: DataType, found: u8)
    ensures
        spec_check_datatype(expected, found) is Ok <==> found == spec_datatype_code(expected),
        found != spec_datatype_code(expected) ==> match spec_datatype_from_code(found) {
            Some(d) => d != expected && spec_check_datatype(expected, found) == Err::<(), Error>(
                Error::MismatchDataType { expected, found: d },
            ),
            None => !(1 <= found <= 13) && spec_check_datatype(expected, found) == Err::<
                (),
                Error,
            >(Error::UnsupportedDataType(found)),
        },
{
    lemma_datatype_code_decode(found);
    lemma_datatype_code_roundtrip(expected);
}

/// A name without NUL bytes is read back from the name field it is stored in
/// as its first 79 bytes (all of it when it is shorter): the field ends with
/// a NUL.
pub proof fn lemma_name_roundtrip(bytes: Seq<u8>)
    requires
        forall|i: int| 0 <= i < bytes.len() ==> bytes[i] != 0,
    ensures
        spec_name_string(spec_name_chars(bytes)) == bytes.take(
            if bytes.len() <= 79 { bytes.len() as int } else { 79 },
        ).map_values(|b: u8| (b as u32) as char),
{
    let chars = spec_name_chars(bytes);
    let n: int = if bytes.len() <= 79 { bytes.len() as int } else { 79 };
    assert forall|j: int| 0 <= j < n implies chars[j] != 0 && char_of(chars[j]) == (bytes[j] as u32) as char by {
        let b = bytes[j];
        assert(b != 0 ==> (b as i8) != 0i8) by (bit_vector);
        assert(((b as i8) as u8) == b) by (bit_vector);
    }
    assert(chars[n] == 0i8);
    lemma_name_prefix_take(chars, n);
    assert(spec_name_string(chars) =~= bytes.take(n).map_values(|b: u8| (b as u32) as char));
}

} // verus!
