use vstd::prelude::*;
use bincode_next::error::{DecodeError, EncodeError};
use crate::text::{decimal, lemma_decimal_injective, push_decimal};

verus! {

/// FNV-1a 64-bit offset basis.
pub const FNV_OFFSET_BASIS: u64 = 0xcbf29ce484222325;

/// FNV-1a 64-bit prime.
pub const FNV_PRIME: u64 = 0x100000001b3;

/// One FNV-1a step: mix a byte into the running hash.
pub open spec fn fnv1a_step(hash: u64, byte: u8) -> u64 {
    (hash ^ (byte as u64)).wrapping_mul(FNV_PRIME)
}

/// FNV-1a hash of a byte sequence, folding from the first byte to the last.
pub open spec fn fnv1a(bytes: Seq<u8>) -> u64
    decreases bytes.len(),
{
    if bytes.len() == 0 {
        FNV_OFFSET_BASIS
    } else {
        fnv1a_step(fnv1a(bytes.drop_last()), bytes.last())
    }
}

/// Every byte enters the checksum, in order: the hash of no data is the
/// FNV-1a offset basis, and appending a byte xors it into the running hash
/// and multiplies by the FNV-1a prime (modulo 2^64), however long the data.
pub proof fn lemma_fnv1a_appends(data: Seq<u8>, b: u8)
    ensures
        fnv1a(Seq::<u8>::empty()) == 0xcbf29ce484222325u64,
        fnv1a(data.push(b)) == (fnv1a(data) ^ (b as u64)).wrapping_mul(0x100000001b3u64),
{
    assert(data.push(b).drop_last() =~= data);
}

/// Checksum guarding the payload of a save file (64-bit FNV-1a).
pub fn compute_checksum(data: &[u8]) -> (hash: u64)
    ensures
        hash == fnv1a(data@),
{
    let mut hash: u64 = FNV_OFFSET_BASIS;
    let mut i: usize = 0;
    while i < data.len()
        invariant
            i <= data@.len(),
            hash == fnv1a(data@.take(i as int)),
        decreases data@.len() - i,
    {
        assert(data@.take(i + 1).drop_last() =~= data@.take(i as int));
        hash = (hash ^ (data[i] as u64)).wrapping_mul(FNV_PRIME);
        i = i + 1;
    }
    assert(data@.take(i as int) =~= data@);
    hash
}

} // verus!

verus! {

/// Version number written into every save; loading accepts only this version.
pub const SAVE_VERSION: u32 = 1;

/// Number of save slots offered by the save/load screen.
pub const MAX_SLOTS: usize = 5;

/// File name of a slot: `slot_`, the decimal notation of `slot`, then `ext`.
pub open spec fn slot_file_name(slot: nat, ext: Seq<char>) -> Seq<char> {
    seq!['s', 'l', 'o', 't', '_'] + decimal(slot) + ext
}

/// Extension of a save file.
pub open spec fn save_ext() -> Seq<char> {
    seq!['.', 's', 'a', 'v']
}

/// Extension of a slot's metadata file.
pub open spec fn meta_ext() -> Seq<char> {
    seq!['.', 'm', 'e', 't', 'a']
}

/// Joining a relative file name onto a directory: a separator is inserted
/// unless the directory is empty or already ends with one.
pub open spec fn join_path(dir: Seq<char>, separator: char, name: Seq<char>) -> Seq<char> {
    if dir.len() == 0 || dir.last() == separator {
        dir + name
    } else {
        dir + seq![separator] + name
    }
}

/// Path of the save file of `slot` inside `saves_dir`.
pub open spec fn spec_save_file_path(saves_dir: Seq<char>, separator: char, slot: nat) -> Seq<char> {
    join_path(saves_dir, separator, slot_file_name(slot, save_ext()))
}

/// Path of the metadata file of `slot` inside `saves_dir`.
pub open spec fn spec_meta_file_path(saves_dir: Seq<char>, separator: char, slot: nat) -> Seq<char> {
    join_path(saves_dir, separator, slot_file_name(slot, meta_ext()))
}

fn join_file_name(saves_dir: &str, separator: &str, name: &str) -> (path: String)
    requires
        separator@.len() == 1,
    ensures
        path@ == join_path(saves_dir@, separator@[0], name@),
{
    let mut path = String::from_str(saves_dir);
    let n = saves_dir.unicode_len();
    if n > 0 && saves_dir.get_char(n - 1) != separator.get_char(0) {
        path.append(separator);
    }
    path.append(name);
    assert(separator@ =~= seq![separator@[0]]);
    proof {
        if n > 0 {
            assert(saves_dir@.last() == saves_dir@[n - 1]);
        }
    }
    path
}

fn slot_name_with_ext(slot: usize, ext: &str) -> (name: String)
    ensures
        name@ == slot_file_name(slot as nat, ext@),
{
    proof { reveal_strlit("slot_"); }
    let mut name = String::from_str("slot_");
    push_decimal(&mut name, slot as u64);
    name.append(ext);
    assert(name@ =~= slot_file_name(slot as nat, ext@));
    name
}

/// File name of the save file of `slot`: `slot_<n>.sav`.
pub fn save_file_name(slot: usize) -> (name: String)
    ensures
        name@ == slot_file_name(slot as nat, save_ext()),
{
    proof { reveal_strlit(".sav"); }
    slot_name_with_ext(slot, ".sav")
}

/// File name of the metadata file of `slot`: `slot_<n>.meta`.
pub fn meta_file_name(slot: usize) -> (name: String)
    ensures
        name@ == slot_file_name(slot as nat, meta_ext()),
{
    proof { reveal_strlit(".meta"); }
    slot_name_with_ext(slot, ".meta")
}

/// Path of the save file of `slot`, `slot_<n>.sav` inside the saves directory.
/// `separator` is the platform's path separator (one character).
pub fn save_file_path(saves_dir: &str, separator: &str, slot: usize) -> (path: String)
    requires
        separator@.len() == 1,
    ensures
        path@ == spec_save_file_path(saves_dir@, separator@[0], slot as nat),
{
    let name = save_file_name(slot);
    join_file_name(saves_dir, separator, name.as_str())
}

/// Path of the metadata file of `slot`, `slot_<n>.meta` inside the saves directory.
/// `separator` is the platform's path separator (one character).
pub fn meta_file_path(saves_dir: &str, separator: &str, slot: usize) -> (path: String)
    requires
        separator@.len() == 1,
    ensures
        path@ == spec_meta_file_path(saves_dir@, separator@[0], slot as nat),
{
    let name = meta_file_name(slot);
    join_file_name(saves_dir, separator, name.as_str())
}

proof fn lemma_join_cancel(dir: Seq<char>, sep: char, a: Seq<char>, b: Seq<char>)
    requires
        join_path(dir, sep, a) == join_path(dir, sep, b),
    ensures
        a == b,
{
    let k: int = if dir.len() == 0 || dir.last() == sep { dir.len() as int } else { dir.len() + 1 as int };
    let ja = join_path(dir, sep, a);
    let jb = join_path(dir, sep, b);
    assert(ja.subrange(k, ja.len() as int) =~= a);
    assert(jb.subrange(k, jb.len() as int) =~= b);
}

proof fn lemma_slot_name_cancel(a: nat, b: nat, ext: Seq<char>)
    requires
        slot_file_name(a, ext) == slot_file_name(b, ext),
    ensures
        a == b,
{
    let na = slot_file_name(a, ext);
    let nb = slot_file_name(b, ext);
    assert(na.len() == 5 + decimal(a).len() + ext.len());
    assert(nb.len() == 5 + decimal(b).len() + ext.len());
    assert(decimal(a).len() == decimal(b).len());
    assert(na.subrange(5, 5 + decimal(a).len() as int) =~= decimal(a));
    assert(nb.subrange(5, 5 + decimal(b).len() as int) =~= decimal(b));
    lemma_decimal_injective(a, b);
}

/// Every slot has its own save file and its own metadata file, and no save
/// file is ever the metadata file of a slot: writing one slot never
/// overwrites another slot's data.
pub proof fn lemma_slot_paths_distinct(saves_dir: Seq<char>, separator: char, a: nat, b: nat)
    ensures
        a != b ==> spec_save_file_path(saves_dir, separator, a) != spec_save_file_path(saves_dir, separator, b),
        a != b ==> spec_meta_file_path(saves_dir, separator, a) != spec_meta_file_path(saves_dir, separator, b),
        spec_save_file_path(saves_dir, separator, a) != spec_meta_file_path(saves_dir, separator, b),
{
    if spec_save_file_path(saves_dir, separator, a) == spec_save_file_path(saves_dir, separator, b) {
        lemma_join_cancel(saves_dir, separator, slot_file_name(a, save_ext()), slot_file_name(b, save_ext()));
        lemma_slot_name_cancel(a, b, save_ext());
    }
    if spec_meta_file_path(saves_dir, separator, a) == spec_meta_file_path(saves_dir, separator, b) {
        lemma_join_cancel(saves_dir, separator, slot_file_name(a, meta_ext()), slot_file_name(b, meta_ext()));
        lemma_slot_name_cancel(a, b, meta_ext());
    }
    let s = spec_save_file_path(saves_dir, separator, a);
    let m = spec_meta_file_path(saves_dir, separator, b);
    assert(s.last() == 'v');
    assert(m.last() == 'a');
}

} // verus!

verus! {

/// On-disk envelope of a save: the serialized game data and its checksum.
pub struct SaveFile {
    pub checksum: u64,
    pub data: Vec<u8>,
}

/// Why a save could not be written or read back.
pub enum SaveError {
    /// The envelope could not be serialized.
    Serialize(EncodeError),
    /// The bytes are not a serialized envelope.
    Deserialize(DecodeError),
    /// The payload does not match the checksum stored beside it.
    Corrupted,
    /// The save was written by another version of the game.
    IncompatibleVersion { found: u32, expected: u32 },
}

/// The payload of an envelope holding `checksum` and `data`, if the checksum
/// is the data's FNV-1a hash; `None` when the envelope was tampered with.
pub open spec fn checked_payload(checksum: u64, data: Seq<u8>) -> Option<Seq<u8>> {
    if fnv1a(data) == checksum {
        Some(data)
    } else {
        None
    }
}

/// What reading the bytes of a save file yields: the payload of the envelope
/// they encode, if they encode one and its checksum holds.
pub open spec fn saved_payload(bytes: Seq<u8>) -> Option<Seq<u8>> {
    match envelope_decoding(bytes) {
        Some((checksum, data, _)) => checked_payload(checksum, data),
        None => None,
    }
}

/// Wraps serialized game data in an envelope carrying its checksum.
pub fn seal_save_data(data: Vec<u8>) -> (file: SaveFile)
    ensures
        file.data@ == data@,
        file.checksum == fnv1a(data@),
{
    let checksum = compute_checksum(data.as_slice());
    SaveFile { checksum, data }
}

/// Checks the envelope's checksum and hands back the payload; a payload that
/// does not match its checksum is reported as corrupted.
pub fn verify_save_file(file: SaveFile) -> (result: Result<Vec<u8>, SaveError>)
    ensures
        checked_payload(file.checksum, file.data@) matches Some(payload)
            ==> (result matches Ok(data) && data@ == payload),
        checked_payload(file.checksum, file.data@) is None ==> result matches Err(SaveError::Corrupted),
{
    let computed = compute_checksum(file.data.as_slice());
    if computed != file.checksum {
        return Err(SaveError::Corrupted);
    }
    Ok(file.data)
}

/// Accepts a save only if it was written by this version of the game.
pub fn check_save_version(version: u32) -> (result: Result<(), SaveError>)
    ensures
        version == SAVE_VERSION ==> result is Ok,
        version != SAVE_VERSION ==> (result matches Err(SaveError::IncompatibleVersion { found, expected })
            && found == version && expected == SAVE_VERSION),
{
    if version != SAVE_VERSION {
        return Err(SaveError::IncompatibleVersion { found: version, expected: SAVE_VERSION });
    }
    Ok(())
}

/// Serializes an envelope into the bytes of a save file; this always
/// succeeds.
pub fn encode_save_file(file: &SaveFile) -> (result: Result<Vec<u8>, SaveError>)
    ensures
        result is Ok,
        result matches Ok(out) ==> out@ == envelope_bytes(file.checksum, file.data@),
        result matches Ok(out) ==> (envelope_decoding(out@) matches Some((c, d, _))
            && c == file.checksum && d == file.data@),
{
    match encode_envelope(file.checksum, &file.data) {
        Ok(bytes) => Ok(bytes),
        Err(e) => Err(SaveError::Serialize(e)),
    }
}

/// Reads an envelope back from the bytes of a save file.
pub fn decode_save_file(bytes: &[u8]) -> (result: Result<SaveFile, SaveError>)
    ensures
        envelope_decoding(bytes@) matches Some((c, d, _))
            ==> (result matches Ok(file) && file.checksum == c && file.data@ == d),
        envelope_decoding(bytes@) is None ==> result matches Err(SaveError::Deserialize(_)),
{
    match decode_envelope(bytes) {
        Ok(((checksum, data), _)) => Ok(SaveFile { checksum, data }),
        Err(e) => Err(SaveError::Deserialize(e)),
    }
}

/// The bytes of a save file holding `data`: the data sealed with its checksum
/// and serialized. This always succeeds, and whatever it writes reads back
/// as `data`.
pub fn write_save_bytes(data: Vec<u8>) -> (result: Result<Vec<u8>, SaveError>)
    ensures
        result is Ok,
        result matches Ok(out) ==> out@ == envelope_bytes(fnv1a(data@), data@),
        result matches Ok(out) ==> saved_payload(out@) == Some(data@),
{
    let file = seal_save_data(data);
    let result = encode_save_file(&file);
    proof {
        lemma_sealed_payload_checks(file.data@);
    }
    result
}

/// The game data stored in the bytes of a save file: fails when the bytes
/// are not an envelope, or when the payload does not match its checksum.
pub fn read_save_bytes(bytes: &[u8]) -> (result: Result<Vec<u8>, SaveError>)
    ensures
        saved_payload(bytes@) matches Some(payload) ==> (result matches Ok(data) && data@ == payload),
        envelope_decoding(bytes@) is None ==> result matches Err(SaveError::Deserialize(_)),
        envelope_decoding(bytes@) is Some && saved_payload(bytes@) is None
            ==> result matches Err(SaveError::Corrupted),
{
    let file = decode_save_file(bytes)?;
    verify_save_file(file)
}

/// Sealing data and checking the seal gives back exactly the data sealed.
pub proof fn lemma_sealed_payload_checks(data: Seq<u8>)
    ensures
        checked_payload(fnv1a(data), data) == Some(data),
{
}

/// A payload only passes the check under the checksum of its own bytes.
pub proof fn lemma_checked_payload_needs_hash(checksum: u64, data: Seq<u8>)
    ensures
        checked_payload(checksum, data) is Some <==> checksum == fnv1a(data),
{
}

/// The `n` lowest bytes of `v`, least significant first.
pub open spec fn le_bytes(v: nat, n: nat) -> Seq<u8>
    decreases n,
{
    if n == 0 {
        Seq::empty()
    } else {
        seq![(v % 256) as u8] + le_bytes(v / 256, (n - 1) as nat)
    }
}

/// bincode's variable-length integer encoding: a value below 251 is one
/// byte; larger values are a marker byte (251, 252 or 253) followed by the
/// value as a little-endian `u16`, `u32` or `u64`.
pub open spec fn varint(v: nat) -> Seq<u8> {
    if v < 251 {
        seq![v as u8]
    } else if v < 0x1_0000 {
        seq![251u8] + le_bytes(v, 2)
    } else if v < 0x1_0000_0000 {
        seq![252u8] + le_bytes(v, 4)
    } else {
        seq![253u8] + le_bytes(v, 8)
    }
}

/// Bytes of the envelope `(checksum, data)` under
/// `bincode_next::config::standard()`: the checksum as a varint, the length
/// of the data as a varint, then the data bytes themselves.
pub open spec fn envelope_bytes(checksum: u64, data: Seq<u8>) -> Seq<u8> {
    varint(checksum as nat) + varint(data.len()) + data
}

/// The `(checksum, data)` envelope that `bytes` decode to under
/// `bincode_next::config::standard()`, with the number of bytes read, or `None`
/// when they do not decode.
pub uninterp spec fn envelope_decoding(bytes: Seq<u8>) -> Option<(u64, Seq<u8>, usize)>;

/// `bincode_next::error::EncodeError`, the error of bincode's encoders.
#[verifier::external_type_specification]
#[verifier::external_body]
pub struct ExEncodeError(bincode_next::error::EncodeError);

/// `bincode_next::error::DecodeError`, the error of bincode's decoders.
#[verifier::external_type_specification]
#[verifier::external_body]
pub struct ExDecodeError(bincode_next::error::DecodeError);

/// Calls `bincode_next::serde::encode_to_vec` on the pair `(checksum, data)`
/// with the standard configuration; the pair serializes exactly as a struct
/// with these two fields. Trusted: encoding into a `Vec` never fails (its
/// writer always accepts bytes and a `Vec` always reports its length), the
/// bytes are those of bincode's documented format (`envelope_bytes`), and
/// (as bincode's documentation shows with its round-trip example) decoding
/// them gives back the same pair.
#[verifier::external_body]
fn encode_envelope(checksum: u64, data: &Vec<u8>) -> (result: Result<Vec<u8>, EncodeError>)
    ensures
        result is Ok,
        result matches Ok(bytes) ==> bytes@ == envelope_bytes(checksum, data@),
        result matches Ok(bytes) ==> (envelope_decoding(bytes@) matches Some((c, d, _))
            && c == checksum && d == data@),
{
    bincode_next::serde::encode_to_vec((checksum, data), bincode_next::config::standard())
}

/// Calls `bincode_next::serde::decode_from_slice` for the pair `(u64, Vec<u8>)`
/// with the standard configuration. Trusted: the result is the named decoding
/// of the bytes.
#[verifier::external_body]
fn decode_envelope(bytes: &[u8]) -> (result: Result<((u64, Vec<u8>), usize), DecodeError>)
    ensures
        match result {
            Ok(((checksum, data), read)) => envelope_decoding(bytes@) == Some((checksum, data@, read)),
            Err(_) => envelope_decoding(bytes@) is None,
        },
{
    bincode_next::serde::decode_from_slice::<(u64, Vec<u8>), _>(bytes, bincode_next::config::standard())
}

} // verus!
