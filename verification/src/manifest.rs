//! The manifest that seals an application image, the hash it holds, and
//! the check that decides whether the flash holds an image that can run.
//!
//! The manifest is stored at `MANIFEST_REGION_START` as the image's length,
//! a little-endian `u32`, followed by the SHA-1 of the image.

use vstd::prelude::*;
use crate::flash::Flash;
use crate::layout::{
    byte_at,
    bytes_at,
    word_at,
    APPLICATION_LENGTH,
    APPLICATION_REGION_START,
    FLASH_SIZE,
    HASH_LENGTH,
    MANIFEST_REGION_START,
    MANIFEST_SIZE,
    SRAM_END,
    SRAM_START,
};

verus! {

/// The SHA-1 of `data`, 20 bytes.
pub uninterp spec fn sha1_digest(data: Seq<u8>) -> Seq<u8>;

/// `sha1::Sha1`: a fresh hasher, fed `data` once, then `digest().bytes()`.
/// The contract names the result, which depends on `data` alone.
#[verifier::external_body]
fn sha1_of(data: &[u8]) -> (digest: [u8; 20])
    ensures
        digest@ == sha1_digest(data@),
{
    let mut hasher = sha1::Sha1::new();
    hasher.update(data);
    hasher.digest().bytes()
}

/// The four bytes of `value`, least significant first.
pub open spec fn le_bytes(value: u32) -> Seq<u8> {
    seq![
        (value % 0x100) as u8,
        (value / 0x100 % 0x100) as u8,
        (value / 0x1_0000 % 0x100) as u8,
        (value / 0x100_0000) as u8,
    ]
}

/// The number that the first four of `bytes` encode, least significant
/// first.
pub open spec fn le_value(bytes: Seq<u8>) -> int {
    bytes[0] + 0x100 * bytes[1] + 0x1_0000 * bytes[2] + 0x100_0000 * bytes[3]
}

/// A manifest as it is stored: the length, then the hash.
pub open spec fn manifest_bytes(length: u32, hash: Seq<u8>) -> Seq<u8> {
    le_bytes(length) + hash
}

/// The length in the manifest that the flash holds.
pub open spec fn stored_length(contents: Seq<u8>) -> int {
    word_at(contents, MANIFEST_REGION_START as int)
}

/// The hash in the manifest that the flash holds.
pub open spec fn stored_hash(contents: Seq<u8>) -> Seq<u8> {
    bytes_at(contents, MANIFEST_REGION_START + 4, HASH_LENGTH as int)
}

/// The bytes of the application region that a manifest with `length`
/// covers: the first `length`, or the whole region if that is less.
pub open spec fn application_bytes(contents: Seq<u8>, length: int) -> Seq<u8> {
    bytes_at(
        contents,
        APPLICATION_REGION_START as int,
        if length < APPLICATION_LENGTH {
            length
        } else {
            APPLICATION_LENGTH as int
        },
    )
}

/// The rule by which an image counts as one that can run: the bootloader is
/// not forced, the manifest's length fits the application region, the hash
/// computed over the image is the stored one, the initial stack pointer
/// lies in the SRAM and the reset vector in the application region.
pub open spec fn firmware_valid(
    force_bootloader: bool,
    length: int,
    stored: Seq<u8>,
    computed: Seq<u8>,
    stack_pointer: int,
    reset_vector: int,
) -> bool {
    &&& !force_bootloader
    &&& length <= APPLICATION_LENGTH
    &&& computed == stored
    &&& SRAM_START <= stack_pointer < SRAM_END
    &&& APPLICATION_REGION_START <= reset_vector < MANIFEST_REGION_START
}

/// Whether a flash that holds `contents` holds an image that can run.
pub open spec fn firmware_valid_in(force_bootloader: bool, contents: Seq<u8>) -> bool {
    firmware_valid(
        force_bootloader,
        stored_length(contents),
        stored_hash(contents),
        sha1_digest(application_bytes(contents, stored_length(contents))),
        word_at(contents, APPLICATION_REGION_START as int),
        word_at(contents, APPLICATION_REGION_START + 4),
    )
}

/// A valid image has a length that fits the application region, a stack
/// pointer in the SRAM and a reset vector in the application region.
pub proof fn lemma_valid_firmware(force_bootloader: bool, contents: Seq<u8>)
    requires
        firmware_valid_in(force_bootloader, contents),
    ensures
        stored_length(contents) <= APPLICATION_LENGTH,
        SRAM_START <= word_at(contents, APPLICATION_REGION_START as int) < SRAM_END,
        APPLICATION_REGION_START <= word_at(contents, APPLICATION_REGION_START + 4)
            < MANIFEST_REGION_START,
        stored_hash(contents) == sha1_digest(
            bytes_at(contents, APPLICATION_REGION_START as int, stored_length(contents)),
        ),
{
}

/// Decoding four bytes gives back the number they encode.
pub proof fn lemma_le_round_trip(value: u32)
    ensures
        le_bytes(value).len() == 4,
        le_value(le_bytes(value)) == value,
{
}

/// The record that seals an image.
#[derive(Debug, Clone, Copy, PartialEq, Eq)]
pub struct Manifest {
    /// Number of bytes of the image.
    pub length: u32,
    /// SHA-1 of the image.
    pub hash: [u8; 20],
}

/// The number that the four bytes from `at` on encode, least significant
/// first.
fn le_u32(bytes: &[u8], at: usize) -> (value: u32)
    requires
        at + 4 <= bytes@.len(),
    ensures
        value == bytes@[at as int] + 0x100 * bytes@[at + 1] + 0x1_0000 * bytes@[at + 2] + 0x100_0000
            * bytes@[at + 3],
{
    let b0: u32 = bytes[at] as u32;
    let b1: u32 = bytes[at + 1] as u32;
    let b2: u32 = bytes[at + 2] as u32;
    let b3: u32 = bytes[at + 3] as u32;
    b0 + 0x100 * b1 + 0x1_0000 * b2 + 0x100_0000 * b3
}

/// The 32-bit little-endian word that the flash holds at `addr`.
pub fn read_word<F: Flash>(flash: &F, addr: usize) -> (word: u32)
    requires
        flash.contents().len() == FLASH_SIZE,
        crate::layout::FLASH_START <= addr,
        addr + 4 <= crate::layout::FLASH_END,
    ensures
        word == word_at(flash.contents(), addr as int),
{
    let bytes = flash.read(addr, 4);
    assert(bytes@[0] == byte_at(flash.contents(), addr as int));
    assert(bytes@[1] == byte_at(flash.contents(), addr + 1));
    assert(bytes@[2] == byte_at(flash.contents(), addr + 2));
    assert(bytes@[3] == byte_at(flash.contents(), addr + 3));
    le_u32(bytes, 0)
}

impl Manifest {
    /// The manifest as it is stored.
    pub open spec fn bytes(self) -> Seq<u8> {
        manifest_bytes(self.length, self.hash@)
    }

    /// The manifest as it is stored: the length, least significant byte
    /// first, then the hash.
    pub fn to_bytes(&self) -> (bytes: [u8; 24])
        ensures
            bytes@ == self.bytes(),
    {
        let mut bytes: [u8; 24] = [0u8; 24];
        bytes[0] = (self.length % 0x100) as u8;
        bytes[1] = (self.length / 0x100 % 0x100) as u8;
        bytes[2] = (self.length / 0x1_0000 % 0x100) as u8;
        bytes[3] = (self.length / 0x100_0000) as u8;
        let mut i: usize = 0;
        while i < 20
            invariant
                i <= 20,
                bytes@[0] == le_bytes(self.length)[0],
                bytes@[1] == le_bytes(self.length)[1],
                bytes@[2] == le_bytes(self.length)[2],
                bytes@[3] == le_bytes(self.length)[3],
                forall|j: int| 0 <= j < i ==> bytes@[4 + j] == self.hash@[j],
            decreases 20 - i,
        {
            bytes[4 + i] = self.hash[i];
            i += 1;
        }
        assert(bytes@ =~= self.bytes());
        bytes
    }

    /// The manifest that `bytes` start with; `None` if they are fewer than
    /// a manifest has.
    pub fn from_bytes(bytes: &[u8]) -> (r: Option<Manifest>)
        ensures
            r is Some <==> bytes@.len() >= MANIFEST_SIZE,
            r matches Some(m) ==> m.length == le_value(bytes@) && m.hash@ == bytes@.subrange(
                4,
                MANIFEST_SIZE as int,
            ),
    {
        if bytes.len() < MANIFEST_SIZE {
            return None;
        }
        let length = le_u32(bytes, 0);
        let mut hash: [u8; 20] = [0u8; 20];
        let mut i: usize = 0;
        while i < 20
            invariant
                i <= 20,
                bytes@.len() >= MANIFEST_SIZE,
                forall|j: int| 0 <= j < i ==> hash@[j] == bytes@[4 + j],
            decreases 20 - i,
        {
            hash[i] = bytes[4 + i];
            i += 1;
        }
        assert(hash@ =~= bytes@.subrange(4, MANIFEST_SIZE as int));
        Some(Manifest { length, hash })
    }

    /// The manifest that the flash holds.
    pub fn get<F: Flash>(flash: &F) -> (manifest: Manifest)
        requires
            flash.contents().len() == FLASH_SIZE,
        ensures
            manifest.length == stored_length(flash.contents()),
            manifest.hash@ == stored_hash(flash.contents()),
    {
        let bytes = flash.read(MANIFEST_REGION_START, MANIFEST_SIZE);
        let length = le_u32(bytes, 0);
        let mut hash: [u8; 20] = [0u8; 20];
        let mut i: usize = 0;
        while i < 20
            invariant
                i <= 20,
                bytes@.len() == MANIFEST_SIZE,
                forall|j: int| 0 <= j < i ==> hash@[j] == bytes@[4 + j],
            decreases 20 - i,
        {
            hash[i] = bytes[4 + i];
            i += 1;
        }
        proof {
            let contents = flash.contents();
            assert(bytes@[0] == byte_at(contents, MANIFEST_REGION_START as int));
            assert(bytes@[1] == byte_at(contents, MANIFEST_REGION_START + 1));
            assert(bytes@[2] == byte_at(contents, MANIFEST_REGION_START + 2));
            assert(bytes@[3] == byte_at(contents, MANIFEST_REGION_START + 3));
            assert(hash@ =~= stored_hash(contents));
        }
        Manifest { length, hash }
    }
}

/// A manifest read back from its stored form is the manifest that was stored.
pub proof fn lemma_manifest_round_trip(manifest: Manifest)
    ensures
        manifest.bytes().len() == MANIFEST_SIZE,
        le_value(manifest.bytes()) == manifest.length,
        manifest.bytes().subrange(4, MANIFEST_SIZE as int) == manifest.hash@,
{
    assert(manifest.bytes().subrange(4, MANIFEST_SIZE as int) =~= manifest.hash@);
}

/// The start of the application region, as far as a manifest covers it.
pub struct ApplicationRef<'a>(&'a [u8]);

impl<'a> ApplicationRef<'a> {
    /// The bytes referred to.
    pub closed spec fn view(&self) -> Seq<u8> {
        self.0@
    }

    /// The first `length` bytes of the application region, or the whole
    /// region if it has fewer.
    pub fn get_with_length<F: Flash>(flash: &'a F, length: usize) -> (app: Self)
        requires
            flash.contents().len() == FLASH_SIZE,
        ensures
            app@ == application_bytes(flash.contents(), length as int),
    {
        let length = if length < APPLICATION_LENGTH {
            length
        } else {
            APPLICATION_LENGTH
        };
        Self(flash.read(APPLICATION_REGION_START, length))
    }

    /// The part of the application region that the stored manifest covers.
    pub fn get<F: Flash>(flash: &'a F) -> (app: Self)
        requires
            flash.contents().len() == FLASH_SIZE,
        ensures
            app@ == application_bytes(flash.contents(), stored_length(flash.contents())),
    {
        let manifest = Manifest::get(flash);
        Self::get_with_length(flash, manifest.length as usize)
    }

    /// The number of bytes referred to.
    pub fn len(&self) -> (len: usize)
        ensures
            len == self@.len(),
    {
        self.0.len()
    }

    /// The SHA-1 of the bytes referred to.
    pub fn compute_hash(&self) -> (hash: [u8; 20])
        ensures
            hash@ == sha1_digest(self@),
    {
        sha1_of(self.0)
    }
}

/// Whether two hashes are the same.
fn same_hash(a: &[u8; 20], b: &[u8; 20]) -> (same: bool)
    ensures
        same == (a@ == b@),
{
    let mut i: usize = 0;
    while i < 20
        invariant
            i <= 20,
            forall|j: int| 0 <= j < i ==> a@[j] == b@[j],
        decreases 20 - i,
    {
        if a[i] != b[i] {
            return false;
        }
        i += 1;
    }
    assert(a@ =~= b@);
    true
}

/// Decides by `firmware_valid` from what was read and computed: the
/// manifest, the hash computed over the image, and the first two words of
/// the image, its initial stack pointer and its reset vector.
pub fn check_firmware(
    force_bootloader: bool,
    manifest: &Manifest,
    computed: &[u8; 20],
    stack_pointer: u32,
    reset_vector: u32,
) -> (valid: bool)
    ensures
        valid == firmware_valid(
            force_bootloader,
            manifest.length as int,
            manifest.hash@,
            computed@,
            stack_pointer as int,
            reset_vector as int,
        ),
{
    if force_bootloader {
        return false;
    }
    if manifest.length as usize > APPLICATION_LENGTH {
        return false;
    }
    if !same_hash(computed, &manifest.hash) {
        return false;
    }
    SRAM_START <= stack_pointer as usize && (stack_pointer as usize) < SRAM_END
        && APPLICATION_REGION_START <= reset_vector as usize && (reset_vector as usize)
        < MANIFEST_REGION_START
}

/// Whether the flash holds an application image that can run. With
/// `force_bootloader` it never does.
pub fn is_firmware_valid<F: Flash>(flash: &F, force_bootloader: bool) -> (valid: bool)
    requires
        flash.contents().len() == FLASH_SIZE,
    ensures
        valid == firmware_valid_in(force_bootloader, flash.contents()),
{
    let manifest = Manifest::get(flash);
    if force_bootloader {
        return false;
    }
    let app = ApplicationRef::get(flash);
    let computed = app.compute_hash();
    let stack_pointer = read_word(flash, APPLICATION_REGION_START);
    let reset_vector = read_word(flash, APPLICATION_REGION_START + 4);
    check_firmware(force_bootloader, &manifest, &computed, stack_pointer, reset_vector)
}

} // verus!
