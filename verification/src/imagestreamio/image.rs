//! An image held in local memory: its bytes, laid out as in shared memory,
//! and how it is created from metadata and read back from bytes.
use crate::datatype::{spec_datatype_from_code, spec_typesize, DataType, ImageType};
use crate::encoding::{
    enc_i32, lemma_integer_encodings_roundtrip, lemma_repeat_bytes_len, push_bytes, push_repeated,
    push_zeros, read_chars, repeat_bytes, zeros,
};
use crate::error::Error;
use crate::imagestreamio::access::{
    acquire_write, lemma_name_roundtrip, release_write, spec_stored_name, stored_name,
    write_flag_raised,
};
use crate::imagestreamio::byte_structs::{
    lemma_metadata_bytes_read, lemma_metadata_read_prefix, lemma_metadata_read_unique,
    lemma_metadata_bytes_len, metadata_read_from, spec_metadata_bytes, Byteable, CBFrameMetadata,
    Cnt, ImageKeyword, ImageMetadata, SemCtrl, SemPid, StreamProcTrace, TimeSpec, KEYWORD_UNUSED,
    METADATA_SIZE, WRITE_FLAG_OFFSET,
};
use crate::imagestreamio::layout::{
    layout_chain, layout_counts, layout_of, lemma_image_size_formula, lemma_layout_total,
    lemma_layout_aligned, lemma_r8_nonneg, r8, spec_image_size, spec_size_of, ImageLayout,
    CB_FRAME_METADATA_SIZE, CNT_SIZE, KEYWORD_SIZE, PROC_TRACE_SIZE, SEM_SLOT_SIZE, TIMESPEC_SIZE,
    WORD_SIZE,
};
use crate::imagestreamio::{
    new_local_check, new_local_error, new_local_fields, round_up_8, spec_name_chars, spec_nelement,
    spec_shape3, IMAGE_NB_PROCTRACE, IMAGE_NB_SEMAPHORE,
};
use vstd::bytes::{
    spec_u16_from_le_bytes, spec_u32_from_le_bytes, spec_u32_to_le_bytes, spec_u64_from_le_bytes,
    spec_u64_to_le_bytes,
};
use vstd::prelude::*;
use vstd::string::StringSliceAdditionalSpecFns;

verus! {

broadcast use vstd::seq::group_seq_axioms;

/// The bytes of an unused keyword.
pub open spec fn new_keyword_bytes() -> Seq<u8> {
    zeros(16) + seq![KEYWORD_UNUSED] + zeros(7) + zeros(16) + spec_u64_to_le_bytes(0) + zeros(80)
}

/// The bytes of an empty process trace.
pub open spec fn new_trace_bytes() -> Seq<u8> {
    let zero = TimeSpec { tv_sec: 0, tv_nsec: 0 };
    (StreamProcTrace {
        triggermode: 0,
        procwrite_pid: 0,
        trigger_inode: 0,
        ts_procstart: zero,
        ts_streamupdate: zero,
        trigsemindex: -1i32,
        triggerstatus: 0,
        cnt0: 0,
    }).spec_to_bytes()
}

/// The bytes of empty circular-buffer frame metadata.
pub open spec fn new_frame_bytes() -> Seq<u8> {
    let zero = TimeSpec { tv_sec: 0, tv_nsec: 0 };
    (CBFrameMetadata {
        cnt0: Cnt { cnt: 0 },
        cnt1: Cnt { cnt: 0 },
        atime: zero,
        writetime: zero,
    }).spec_to_bytes()
}

/// The padding after `n` words of 4 bytes.
pub open spec fn word_padding(n: int) -> Seq<u8> {
    zeros((r8(4 * n) - 4 * n) as nat)
}

/// The slot of a semaphore initialised as `sem`: its bytes, then zeros up to
/// the slot size.
pub open spec fn sem_slot(sem: Seq<u8>) -> Seq<u8> {
    sem + zeros((SEM_SLOT_SIZE - sem.len()) as nat)
}

/// The bytes of a new image with metadata `md`, each semaphore initialised as
/// `sem` in a slot of its own: zero data, unused keywords, initialised semaphores, reader and
/// writer PIDs -1, control words 0, status words -1, empty process traces,
/// zero timestamps and counters, empty circular-buffer frames and zero
/// circular-buffer data.
pub open spec fn spec_image_bytes(md: ImageMetadata, sem: Seq<u8>) -> Seq<u8> {
    let a = md.imdatamemsize as int;
    let c = md.sem as nat;
    let e = md.size[2] as nat;
    let f = md.cb_size as nat;
    let zero = TimeSpec { tv_sec: 0, tv_nsec: 0 };
    spec_metadata_bytes(md) + zeros(r8(a) as nat) + repeat_bytes(new_keyword_bytes(), md.nb_kw as nat)
        + repeat_bytes(sem_slot(sem), c) + sem_slot(sem) + repeat_bytes(enc_i32(-1i32), c) + word_padding(c as int)
        + repeat_bytes(enc_i32(-1i32), c) + word_padding(c as int) + repeat_bytes(
        spec_u32_to_le_bytes(0),
        c,
    ) + word_padding(c as int) + repeat_bytes(enc_i32(-1i32), c) + word_padding(c as int)
        + repeat_bytes(new_trace_bytes(), md.nb_proc_trace as nat) + repeat_bytes(
        zero.spec_to_bytes(),
        e,
    ) + repeat_bytes(zero.spec_to_bytes(), e) + repeat_bytes(spec_u64_to_le_bytes(0), e)
        + repeat_bytes(new_frame_bytes(), f) + zeros(r8(a * f) as nat)
}

/// The element counts of `l` are those stored in the metadata at the start of
/// `s`, and `s` names a supported element type.
pub open spec fn counts_stored(l: ImageLayout, s: Seq<u8>) -> bool {
    &&& l.imdatamemsize == spec_u64_from_le_bytes(s.subrange(312, 320))
    &&& l.nb_kw == spec_u16_from_le_bytes(s.subrange(290, 292))
    &&& l.nb_sem == spec_u16_from_le_bytes(s.subrange(258, 260))
    &&& l.nb_proc_trace == spec_u16_from_le_bytes(s.subrange(260, 262))
    &&& l.nb_slices == spec_u32_from_le_bytes(s.subrange(124, 128))
    &&& l.cb_size == spec_u32_from_le_bytes(s.subrange(292, 296))
    &&& spec_datatype_from_code(s[136]) is Some
}

/// The metadata stored at the start of `s`.
pub open spec fn stored_metadata(s: Seq<u8>) -> ImageMetadata {
    choose|md: ImageMetadata| metadata_read_from(md, s)
}

/// Why `s` cannot be read as an image, or `None` if it can: too short for
/// metadata, an unsupported element type, or not exactly as long as the
/// image its metadata describes (the size requested is capped at
/// `usize::MAX`).
pub open spec fn read_error(s: Seq<u8>) -> Option<Error> {
    if s.len() < METADATA_SIZE {
        Some(Error::RequestingPointerBeyondRange { map_len: s.len() as usize, requested: METADATA_SIZE })
    } else if spec_datatype_from_code(s[136]) is None {
        Some(Error::UnsupportedDataType(s[136]))
    } else {
        let size = spec_image_size(stored_metadata(s), SEM_SLOT_SIZE as int);
        if size != s.len() {
            Some(
                Error::RequestingPointerBeyondRange {
                    map_len: s.len() as usize,
                    requested: if size > usize::MAX { usize::MAX } else { size as usize },
                },
            )
        } else {
            None
        }
    }
}

/// An image held in local memory.
pub struct Image {
    /// local name (can be different from name in shared memory)
    pub name: [i8; 80],
    /// Image usage flag: 1 if image is used, 0 otherwise.
    pub used: u8,
    /// increments when image is (re)-created
    pub create_cnt: i64,
    /// Where each region of the image lies in `data_handle`.
    pub layout: ImageLayout,
    /// The image's bytes.
    pub data_handle: Vec<u8>,
}

/// Reading metadata from bytes and computing its layout agree with the
/// element counts stored in the bytes.
proof fn lemma_counts_stored(l: ImageLayout, md: ImageMetadata, s: Seq<u8>)
    requires
        metadata_read_from(md, s),
    ensures
        (layout_counts(l, md) && spec_datatype_from_code(md.datatype) is Some) <==> counts_stored(
            l,
            s,
        ),
{
}

/// The lengths of the repeated pieces of a new image.
proof fn lemma_piece_lengths(md: ImageMetadata, sem: Seq<u8>)
    requires
        sem.len() <= SEM_SLOT_SIZE,
    ensures
        sem_slot(sem).len() == SEM_SLOT_SIZE,
        repeat_bytes(new_keyword_bytes(), md.nb_kw as nat).len() == KEYWORD_SIZE * md.nb_kw,
        repeat_bytes(sem_slot(sem), md.sem as nat).len() == SEM_SLOT_SIZE * md.sem,
        repeat_bytes(enc_i32(-1i32), md.sem as nat).len() == WORD_SIZE * md.sem,
        repeat_bytes(spec_u32_to_le_bytes(0), md.sem as nat).len() == WORD_SIZE * md.sem,
        repeat_bytes(new_trace_bytes(), md.nb_proc_trace as nat).len() == PROC_TRACE_SIZE
            * md.nb_proc_trace,
        repeat_bytes(TimeSpec { tv_sec: 0, tv_nsec: 0 }.spec_to_bytes(), md.size[2] as nat).len()
            == TIMESPEC_SIZE * md.size[2],
        repeat_bytes(spec_u64_to_le_bytes(0), md.size[2] as nat).len() == CNT_SIZE * md.size[2],
        repeat_bytes(new_frame_bytes(), md.cb_size as nat).len() == CB_FRAME_METADATA_SIZE
            * md.cb_size,
{
    lemma_integer_encodings_roundtrip();
    let b = md.nb_kw as nat;
    let c = md.sem as nat;
    let e = md.size[2] as nat;
    let f = md.cb_size as nat;
    let t = md.nb_proc_trace as nat;
    let zero = TimeSpec { tv_sec: 0, tv_nsec: 0 };
    assert(new_keyword_bytes().len() == 128);
    assert(new_trace_bytes().len() == 64);
    assert(new_frame_bytes().len() == 48);
    assert(zero.spec_to_bytes().len() == 16);
    assert(enc_i32(-1i32).len() == 4);
    assert(spec_u32_to_le_bytes(0).len() == 4);
    assert(spec_u64_to_le_bytes(0).len() == 8);
    lemma_repeat_bytes_len(new_keyword_bytes(), b);
    lemma_repeat_bytes_len(sem_slot(sem), c);
    lemma_repeat_bytes_len(enc_i32(-1i32), c);
    lemma_repeat_bytes_len(spec_u32_to_le_bytes(0), c);
    lemma_repeat_bytes_len(new_trace_bytes(), t);
    lemma_repeat_bytes_len(zero.spec_to_bytes(), e);
    lemma_repeat_bytes_len(spec_u64_to_le_bytes(0), e);
    lemma_repeat_bytes_len(new_frame_bytes(), f);
    assert(b * 128 == 128 * b) by (nonlinear_arith);
    assert(c * 256 == 256 * c) by (nonlinear_arith);
    assert(c * 4 == 4 * c) by (nonlinear_arith);
    assert(t * 64 == 64 * t) by (nonlinear_arith);
    assert(e * 16 == 16 * e) by (nonlinear_arith);
    assert(e * 8 == 8 * e) by (nonlinear_arith);
    assert(f * 48 == 48 * f) by (nonlinear_arith);
}

/// A new image takes exactly the size its layout gives.
#[verifier::spinoff_prover]
proof fn lemma_image_bytes_len(md: ImageMetadata, sem: Seq<u8>)
    requires
        sem.len() <= SEM_SLOT_SIZE,
    ensures
        spec_image_bytes(md, sem).len() == spec_image_size(md, SEM_SLOT_SIZE as int),
{
    let a = md.imdatamemsize as int;
    let c = md.sem as int;
    let f = md.cb_size as int;
    lemma_image_size_formula(md, SEM_SLOT_SIZE as int);
    lemma_piece_lengths(md, sem);
    lemma_metadata_bytes_len(md);
    assert(r8(4 * c) >= 4 * c);
    assert(r8(a) >= a);
    assert(a * f >= 0) by (nonlinear_arith)
        requires
            a >= 0,
            f >= 0,
    ;
    assert(r8(a * f) >= a * f);
}

/// The bytes of a new image read back as that image: they hold its metadata,
/// take exactly the size its layout gives, and read without error when its
/// element type is supported (with `UnsupportedDataType` otherwise).
pub proof fn lemma_image_bytes_read_back(md: ImageMetadata, sem: Seq<u8>)
    requires
        sem.len() <= SEM_SLOT_SIZE,
    ensures
        spec_image_bytes(md, sem).len() == spec_image_size(md, SEM_SLOT_SIZE as int),
        metadata_read_from(md, spec_image_bytes(md, sem)),
        stored_metadata(spec_image_bytes(md, sem)) == md,
        read_error(spec_image_bytes(md, sem)) == if spec_datatype_from_code(md.datatype) is Some {
            None
        } else {
            Some(Error::UnsupportedDataType(md.datatype))
        },
{
    let s = spec_image_bytes(md, sem);
    lemma_image_bytes_len(md, sem);
    lemma_metadata_bytes_len(md);
    lemma_metadata_bytes_read(md);
    assert(s.len() >= METADATA_SIZE) by {
        lemma_image_size_formula(md, SEM_SLOT_SIZE as int);
    }
    assert(s.subrange(0, METADATA_SIZE as int) =~= spec_metadata_bytes(md));
    lemma_metadata_read_prefix(md, s);
    lemma_metadata_read_unique(stored_metadata(s), md, s);
}

/// The name stored in a new image whose metadata names it `name`, a name
/// without NUL bytes, reads back as the first 79 bytes of `name` (all of it
/// when it is shorter).
pub proof fn lemma_image_name_reads_back(md: ImageMetadata, sem: Seq<u8>, name: Seq<u8>)
    requires
        sem.len() <= SEM_SLOT_SIZE,
        md.name@ == spec_name_chars(name),
        forall|i: int| 0 <= i < name.len() ==> name[i] != 0,
    ensures
        spec_stored_name(spec_image_bytes(md, sem)) == name.take(
            if name.len() <= 79 { name.len() as int } else { 79 },
        ).map_values(|b: u8| (b as u32) as char),
{
    lemma_image_bytes_read_back(md, sem);
    lemma_name_roundtrip(name);
}

/// The sizes a new image's bytes are built from fit in `usize`.
proof fn lemma_build_bounds(md: ImageMetadata)
    requires
        spec_image_size(md, SEM_SLOT_SIZE as int) <= usize::MAX,
    ensures
        md.imdatamemsize <= usize::MAX - 7,
        md.imdatamemsize * md.cb_size <= usize::MAX - 7,
{
    let a = md.imdatamemsize as int;
    let f = md.cb_size as int;
    assert(a * f >= 0) by (nonlinear_arith)
        requires
            a >= 0,
            f >= 0,
    ;
    assert(usize::MAX % 8 == 7);
}

/// The bytes of an unused keyword.
fn keyword_bytes() -> (r: Vec<u8>)
    ensures
        r@ == new_keyword_bytes(),
{
    let r = ImageKeyword::new().to_bytes();
    assert(r@ =~= new_keyword_bytes());
    r
}

/// The bytes of an empty process trace.
fn trace_bytes() -> (r: Vec<u8>)
    ensures
        r@ == new_trace_bytes(),
{
    StreamProcTrace::new().to_bytes()
}

/// The bytes of empty circular-buffer frame metadata.
fn frame_bytes() -> (r: Vec<u8>)
    ensures
        r@ == new_frame_bytes(),
{
    CBFrameMetadata::new().to_bytes()
}

/// Appends `n` words and their padding to a multiple of 8 bytes.
fn push_words(v: &mut Vec<u8>, word: &[u8], n: usize)
    requires
        word@.len() == 4,
        n <= 0xffff,
    ensures
        final(v)@ == old(v)@ + repeat_bytes(word@, n as nat) + word_padding(n as int),
{
    push_repeated(v, word, n);
    let words = 4 * n;
    push_zeros(v, round_up_8(words) - words);
}

/// The bytes of a new image with metadata `md` (see `spec_image_bytes`).
fn image_bytes(md: ImageMetadata, sem_init: &[u8]) -> (r: Vec<u8>)
    requires
        sem_init@.len() <= SEM_SLOT_SIZE,
        md.imdatamemsize <= usize::MAX - 7,
        md.imdatamemsize * md.cb_size <= usize::MAX - 7,
    ensures
        r@ == spec_image_bytes(md, sem_init@),
{
    proof {
        lemma_integer_encodings_roundtrip();
    }
    let imdatamemsize = md.imdatamemsize as usize;
    let nb_sem = md.sem as usize;
    let nb_slices = md.size[2] as usize;
    let cb_size = md.cb_size as usize;
    let mut data = md.to_bytes();
    push_zeros(&mut data, round_up_8(imdatamemsize));
    push_repeated(&mut data, keyword_bytes().as_slice(), md.nb_kw as usize);
    let mut slot = vstd::slice::slice_to_vec(sem_init);
    push_zeros(&mut slot, SEM_SLOT_SIZE - sem_init.len());
    push_repeated(&mut data, slot.as_slice(), nb_sem);
    push_bytes(&mut data, slot.as_slice());
    let pid = SemPid::new().to_bytes();
    push_words(&mut data, pid.as_slice(), nb_sem);
    push_words(&mut data, pid.as_slice(), nb_sem);
    push_words(&mut data, SemCtrl::new().to_bytes().as_slice(), nb_sem);
    push_words(&mut data, pid.as_slice(), nb_sem);
    push_repeated(&mut data, trace_bytes().as_slice(), md.nb_proc_trace as usize);
    let time = TimeSpec::new().to_bytes();
    push_repeated(&mut data, time.as_slice(), nb_slices);
    push_repeated(&mut data, time.as_slice(), nb_slices);
    push_repeated(&mut data, Cnt::new().to_bytes().as_slice(), nb_slices);
    push_repeated(&mut data, frame_bytes().as_slice(), cb_size);
    push_zeros(&mut data, round_up_8(imdatamemsize * cb_size));
    data
}

/// Changing the write flag leaves the element counts stored in the metadata
/// unchanged.
proof fn lemma_flag_update_keeps_counts(l: ImageLayout, s: Seq<u8>, t: Seq<u8>)
    requires
        s.len() >= METADATA_SIZE,
        counts_stored(l, s),
        t.len() == s.len(),
        forall|i: int| 0 <= i < s.len() && i != WRITE_FLAG_OFFSET ==> t[i] == s[i],
    ensures
        counts_stored(l, t),
{
    assert(t.subrange(312, 320) =~= s.subrange(312, 320));
    assert(t.subrange(290, 292) =~= s.subrange(290, 292));
    assert(t.subrange(258, 260) =~= s.subrange(258, 260));
    assert(t.subrange(260, 262) =~= s.subrange(260, 262));
    assert(t.subrange(124, 128) =~= s.subrange(124, 128));
    assert(t.subrange(292, 296) =~= s.subrange(292, 296));
    assert(t[136] == s[136]);
}

/// Reads the layout of an image from its bytes; fails as `read_error` says.
pub fn read_layout(data: &[u8]) -> (r: Result<ImageLayout, Error>)
    ensures
        match r {
            Ok(l) => {
                &&& read_error(data@) is None
                &&& l.total == data@.len()
                &&& layout_of(l, stored_metadata(data@), SEM_SLOT_SIZE as int)
                &&& counts_stored(l, data@)
            },
            Err(e) => read_error(data@) == Some(e),
        },
{
    let len = data.len();
    if len < METADATA_SIZE {
        return Err(Error::RequestingPointerBeyondRange { map_len: len, requested: METADATA_SIZE });
    }
    let md = ImageMetadata::from_bytes(data);
    proof {
        lemma_metadata_read_unique(stored_metadata(data@), md, data@);
    }
    if let Err(e) = DataType::try_from(md.datatype) {
        return Err(e);
    }
    match ImageLayout::new(&md, SEM_SLOT_SIZE) {
        Some(layout) => {
            proof {
                lemma_layout_total(layout, md, SEM_SLOT_SIZE as int);
                lemma_counts_stored(layout, md, data@);
            }
            if layout.total != len {
                Err(Error::RequestingPointerBeyondRange { map_len: len, requested: layout.total })
            } else {
                Ok(layout)
            }
        },
        None => Err(Error::RequestingPointerBeyondRange { map_len: len, requested: usize::MAX }),
    }
}

/// The data region of image bytes laid out as `l`: `l.imdatamemsize` bytes
/// from `l.array`, without the padding that follows them.
pub fn data_region<'a>(data: &'a [u8], l: &ImageLayout) -> (r: &'a [u8])
    requires
        l.array + l.imdatamemsize <= data@.len(),
    ensures
        r@ == data@.subrange(l.array as int, l.array + l.imdatamemsize),
{
    let len = data.len();
    vstd::slice::slice_subrange(data, l.array, l.array + l.imdatamemsize)
}

/// The data region of image bytes laid out as `l`, to be written: the bytes
/// outside it stay as they are.
pub fn data_region_mut<'a>(data: &'a mut [u8], l: &ImageLayout) -> (r: &'a mut [u8])
    requires
        l.array + l.imdatamemsize <= old(data)@.len(),
    ensures
        r@ == old(data)@.subrange(l.array as int, l.array + l.imdatamemsize),
        final(data)@ == old(data)@.subrange(0, l.array as int) + final(r)@ + old(data)@.subrange(
            l.array + l.imdatamemsize,
            old(data)@.len() as int,
        ),
{
    let len = data.len();
    let (head, rest) = data.split_at_mut(l.array);
    let (mid, tail) = rest.split_at_mut(l.imdatamemsize);
    mid
}

/// Once the running product of the element size and the first `k`
/// dimensions overflows, so does the product with all of them.
proof fn lemma_product_grows(t: int, shape: Seq<usize>, k: int)
    requires
        1 <= t,
        0 <= k < shape.len() <= 3,
        forall|j: int| 0 <= j < shape.len() ==> shape[j] >= 1,
        t * (if k == 0 { 1 } else if k == 1 { shape[0] as int } else { shape[0] * shape[1] })
            * shape[k] > usize::MAX,
    ensures
        t * spec_nelement(shape) > usize::MAX,
{
    let s0 = shape[0] as int;
    if shape.len() == 1 {
    } else if shape.len() == 2 {
        let s1 = shape[1] as int;
        if k == 0 {
            assert(t * s0 <= t * (s0 * s1)) by (nonlinear_arith)
                requires t >= 1, s0 >= 1, s1 >= 1;
        } else {
            assert(t * s0 * s1 == t * (s0 * s1)) by (nonlinear_arith);
        }
    } else {
        let s1 = shape[1] as int;
        let s2 = shape[2] as int;
        if k == 0 {
            assert(t * s0 <= t * (s0 * s1 * s2)) by (nonlinear_arith)
                requires t >= 1, s0 >= 1, s1 >= 1, s2 >= 1;
        } else if k == 1 {
            assert(t * s0 * s1 <= t * (s0 * s1 * s2)) by (nonlinear_arith)
                requires t >= 1, s0 >= 1, s1 >= 1, s2 >= 1;
        } else {
            assert(t * (s0 * s1) * s2 == t * (s0 * s1 * s2)) by (nonlinear_arith);
        }
    }
}

impl Image {
    /// The image is consistent: its bytes start with metadata of a supported
    /// element type and are laid out as `layout` says, to the last byte.
    pub open spec fn wf(&self) -> bool {
        let s = self.data_handle@;
        &&& s.len() >= METADATA_SIZE
        &&& self.layout.total == s.len()
        &&& layout_chain(self.layout, SEM_SLOT_SIZE as int)
        &&& counts_stored(self.layout, s)
    }

    /// Reads an image from its bytes; fails as `read_error` says.
    pub fn try_from(data: Vec<u8>) -> (r: Result<Image, Error>)
        ensures
            match r {
                Ok(im) => {
                    &&& read_error(data@) is None
                    &&& im.wf()
                    &&& im.data_handle@ == data@
                    &&& im.used == 1
                    &&& im.create_cnt == 1
                    &&& im.name@ == im.data_handle@.subrange(32, 112).map_values(|x: u8| x as i8)
                    &&& layout_of(im.layout, stored_metadata(data@), SEM_SLOT_SIZE as int)
                },
                Err(e) => read_error(data@) == Some(e),
            },
    {
        let layout = read_layout(data.as_slice())?;
        let name = read_chars::<80>(data.as_slice(), 32);
        Ok(Image { name, used: 1, create_cnt: 1, layout, data_handle: data })
    }

    /// Builds a new image from its metadata, each semaphore initialised with
    /// the bytes `sem_init` of a freshly initialised semaphore. Metadata of an
    /// unsupported element type gives `UnsupportedDataType`.
    pub fn from_metadata(md: ImageMetadata, sem_init: &[u8]) -> (r: Result<Image, Error>)
        requires
            sem_init@.len() <= SEM_SLOT_SIZE,
            spec_image_size(md, SEM_SLOT_SIZE as int) <= usize::MAX,
        ensures
            match r {
                Ok(im) => {
                    &&& spec_datatype_from_code(md.datatype) is Some
                    &&& im.wf()
                    &&& im.data_handle@ == spec_image_bytes(md, sem_init@)
                    &&& im.data_handle@.len() == spec_image_size(md, SEM_SLOT_SIZE as int)
                    &&& metadata_read_from(md, im.data_handle@)
                    &&& layout_of(im.layout, md, SEM_SLOT_SIZE as int)
                    &&& im.name == md.name
                    &&& im.used == 1
                    &&& im.create_cnt == 1
                },
                Err(e) => spec_datatype_from_code(md.datatype) is None && e
                    == Error::UnsupportedDataType(md.datatype),
            },
    {
        proof {
            lemma_build_bounds(md);
        }
        let data = image_bytes(md, sem_init);
        proof {
            lemma_image_bytes_read_back(md, sem_init@);
            lemma_metadata_read_prefix(md, data@);
            lemma_metadata_bytes_read(md);
            lemma_integer_encodings_roundtrip();
        }
        Image::try_from(data)
    }

    /// Creates and initialises a new local image named `name`, of shape
    /// `shape` (1, 2 or 3 non-zero dimensions; a circular buffer needs 3),
    /// element type `datatype`, `nb_kw` keywords and `cb_size`
    /// circular-buffer frames, created at `creation_time` (last accessed at
    /// `last_access_time`) by process `creator_pid`, with semaphores
    /// initialised as `sem_init`.
    pub fn new_local(
        name: &str,
        shape: &[usize],
        datatype: DataType,
        nb_kw: usize,
        imagetype: ImageType,
        cb_size: usize,
        creation_time: TimeSpec,
        last_access_time: TimeSpec,
        creator_pid: i32,
        sem_init: &[u8],
    ) -> (r: Result<Image, Error>)
        requires
            sem_init@.len() <= SEM_SLOT_SIZE,
            new_local_check(shape@, imagetype) is Ok ==> spec_size_of(
                spec_typesize(datatype) * spec_nelement(shape@),
                nb_kw as u16 as int,
                IMAGE_NB_SEMAPHORE as int,
                IMAGE_NB_PROCTRACE as int,
                spec_shape3(shape@)[2] as int,
                cb_size as u32 as int,
                SEM_SLOT_SIZE as int,
            ) <= usize::MAX,
        ensures
            match r {
                Ok(im) => {
                    &&& new_local_check(shape@, imagetype) is Ok
                    &&& im.wf()
                    &&& exists|md: ImageMetadata|
                        {
                            &&& #[trigger] metadata_read_from(md, im.data_handle@)
                            &&& new_local_fields(
                                md,
                                name.spec_bytes(),
                                shape@,
                                datatype,
                                nb_kw,
                                imagetype,
                                cb_size,
                                creation_time,
                                last_access_time,
                                creator_pid,
                            )
                            &&& im.data_handle@ == spec_image_bytes(md, sem_init@)
                            &&& layout_of(im.layout, md, SEM_SLOT_SIZE as int)
                            &&& im.name == md.name
                        }
                    &&& im.used == 1
                    &&& im.create_cnt == 1
                },
                Err(e) => new_local_check(shape@, imagetype) is Err && new_local_error(
                    e,
                    shape@,
                    imagetype,
                ),
            },
    {
        proof {
            if new_local_check(shape@, imagetype) is Ok {
                let a = spec_typesize(datatype) * spec_nelement(shape@);
                assert(r8(a) >= a);
                assert(a <= usize::MAX);
            }
        }
        let md = ImageMetadata::new_local(
            name,
            shape,
            datatype,
            nb_kw,
            imagetype,
            cb_size,
            creation_time,
            last_access_time,
            creator_pid,
        )?;
        assert(md.size[2] == spec_shape3(shape@)[2]);
        let r = Image::from_metadata(md, sem_init);
        assert(spec_datatype_from_code(md.datatype) is Some);
        r
    }

    /// The metadata at the start of the image.
    pub fn metadata(&self) -> (r: ImageMetadata)
        requires
            self.wf(),
        ensures
            metadata_read_from(r, self.data_handle@),
            layout_of(self.layout, r, SEM_SLOT_SIZE as int),
    {
        let r = ImageMetadata::from_bytes(self.data_handle.as_slice());
        proof {
            lemma_counts_stored(self.layout, r, self.data_handle@);
        }
        r
    }

    /// The name stored in the image's metadata: its characters before the
    /// first NUL, each byte read as the character of that code.
    pub fn stored_name(&self) -> (r: String)
        requires
            self.wf(),
        ensures
            r@ == spec_stored_name(self.data_handle@),
    {
        stored_name(self.data_handle.as_slice())
    }

    /// The image data: the `imdatamemsize` bytes of the data region, without
    /// the padding after them.
    pub fn bytes(&self) -> (r: &[u8])
        requires
            self.wf(),
        ensures
            r@ == self.data_handle@.subrange(
                self.layout.array as int,
                self.layout.array + self.layout.imdatamemsize,
            ),
            r@.len() == self.layout.imdatamemsize,
    {
        proof {
            lemma_layout_aligned(self.layout, SEM_SLOT_SIZE as int);
            assert(r8(self.layout.imdatamemsize as int) >= self.layout.imdatamemsize);
        }
        data_region(self.data_handle.as_slice(), &self.layout)
    }

    /// Takes the image's write flag before its data is modified; if someone
    /// else holds it, the image is left as it is and the error names it.
    pub fn begin_write(&mut self) -> (r: Result<(), Error>)
        requires
            old(self).wf(),
        ensures
            final(self).wf(),
            final(self).layout == old(self).layout,
            final(self).name == old(self).name,
            final(self).used == old(self).used,
            final(self).create_cnt == old(self).create_cnt,
            !write_flag_raised(old(self).data_handle@) ==> r is Ok && final(self).data_handle@
                == old(self).data_handle@.update(WRITE_FLAG_OFFSET as int, 1),
            write_flag_raised(old(self).data_handle@) ==> final(self).data_handle@ == old(
                self,
            ).data_handle@ && (r matches Err(Error::ImageIsBeingWritten(n)) && n@
                == spec_stored_name(old(self).data_handle@)),
    {
        let r = acquire_write(self.data_handle.as_mut_slice());
        proof {
            lemma_flag_update_keeps_counts(self.layout, old(self).data_handle@, self.data_handle@);
        }
        r
    }

    /// Lowers the image's write flag once its data is modified.
    pub fn end_write(&mut self)
        requires
            old(self).wf(),
        ensures
            final(self).wf(),
            final(self).layout == old(self).layout,
            final(self).name == old(self).name,
            final(self).used == old(self).used,
            final(self).create_cnt == old(self).create_cnt,
            final(self).data_handle@ == old(self).data_handle@.update(WRITE_FLAG_OFFSET as int, 0),
    {
        release_write(self.data_handle.as_mut_slice());
        proof {
            lemma_flag_update_keeps_counts(self.layout, old(self).data_handle@, self.data_handle@);
        }
    }


    /// Whether `Image::new_local` can lay out the requested image in the
    /// address space: the test to make before calling it.
    pub fn new_local_fits(
        shape: &[usize],
        datatype: DataType,
        nb_kw: usize,
        imagetype: ImageType,
        cb_size: usize,
    ) -> (r: bool)
        ensures
            r == (new_local_check(shape@, imagetype) is Ok ==> spec_size_of(
                spec_typesize(datatype) * spec_nelement(shape@),
                nb_kw as u16 as int,
                IMAGE_NB_SEMAPHORE as int,
                IMAGE_NB_PROCTRACE as int,
                spec_shape3(shape@)[2] as int,
                cb_size as u32 as int,
                SEM_SLOT_SIZE as int,
            ) <= usize::MAX),
    {
        let zero = TimeSpec::new();
        let n = shape.len();
        if n == 0 || n > 3 || (imagetype.circular_buffer && n != 3) {
            return true;
        }
        let mut i: usize = 0;
        while i < n
            invariant
                i <= n,
                n == shape@.len(),
                forall|j: int| 0 <= j < i ==> shape@[j] != 0,
            decreases n - i,
        {
            if shape[i] == 0 {
                return true;
            }
            i = i + 1;
        }
        let ghost t: int = spec_typesize(datatype) as int;
        let mut total: usize = datatype.typesize();
        let mut k: usize = 0;
        while k < n
            invariant
                k <= n <= 3,
                n == shape@.len(),
                t == spec_typesize(datatype),
                forall|j: int| 0 <= j < n ==> shape@[j] != 0,
                !(imagetype.circular_buffer && n != 3),
                total == t * (if k == 0 { 1 } else if k == 1 { shape@[0] as int } else if k == 2 {
                    shape@[0] * shape@[1]
                } else {
                    shape@[0] * shape@[1] * shape@[2]
                }),
            decreases n - k,
        {
            match total.checked_mul(shape[k]) {
                Some(x) => {
                    proof {
                        if k == 1 {
                            assert(t * shape@[0] * shape@[1] == t * (shape@[0] * shape@[1])) by (nonlinear_arith);
                        } else if k == 2 {
                            assert(t * (shape@[0] * shape@[1]) * shape@[2] == t * (shape@[0] * shape@[1] * shape@[2])) by (nonlinear_arith);
                        }
                    }
                    total = x;
                },
                None => {
                    proof {
                        lemma_product_grows(t, shape@, k as int);
                        let a = t * spec_nelement(shape@);
                        assert(r8(a) >= a);
                        lemma_r8_nonneg(KEYWORD_SIZE as int, nb_kw as u16 as int);
                        lemma_r8_nonneg(SEM_SLOT_SIZE as int, IMAGE_NB_SEMAPHORE as int);
                        lemma_r8_nonneg(SEM_SLOT_SIZE as int, 1);
                        lemma_r8_nonneg(WORD_SIZE as int, IMAGE_NB_SEMAPHORE as int);
                        lemma_r8_nonneg(PROC_TRACE_SIZE as int, IMAGE_NB_PROCTRACE as int);
                        lemma_r8_nonneg(TIMESPEC_SIZE as int, spec_shape3(shape@)[2] as int);
                        lemma_r8_nonneg(CNT_SIZE as int, spec_shape3(shape@)[2] as int);
                        lemma_r8_nonneg(CB_FRAME_METADATA_SIZE as int, cb_size as u32 as int);
                        lemma_r8_nonneg(a, cb_size as u32 as int);
                        assert(SEM_SLOT_SIZE * 1 == SEM_SLOT_SIZE);
                    }
                    return false;
                },
            }
            k = k + 1;
        }
        let md = match ImageMetadata::new_local("", shape, datatype, nb_kw, imagetype, cb_size, zero, zero, 0) {
            Ok(md) => md,
            Err(_) => return true,
        };
        ImageLayout::new(&md, SEM_SLOT_SIZE).is_some()
    }

}

} // verus!
