//! Planning an image created from scratch in shared memory: the checks on its
//! requested dimensions and the sizes of its data and of its memory.
use crate::datatype::{spec_datatype_code, spec_imagetype_code, spec_typesize, DataType, ImageType};
use crate::imagestreamio::layout::{lemma_r8_nonneg, r8, spec_size_of, CB_FRAME_METADATA_SIZE, CNT_SIZE, KEYWORD_SIZE, PROC_TRACE_SIZE, TIMESPEC_SIZE, WORD_SIZE};
use crate::imagestreamio::byte_structs::{ImageMetadata, TimeSpec, METADATA_SIZE};
use crate::imagestreamio::{
    image_name, round_up_8, spec_name_chars, spec_nelement, spec_version_chars, version,
    IMAGE_NB_PROCTRACE,
};
use vstd::string::StringSliceAdditionalSpecFns;
use vstd::prelude::*;

verus! {

/// Why an image cannot be created from scratch.
#[derive(Debug, Clone, Copy, PartialEq, Eq, Structural)]
pub enum ScratchError {
    /// The number of axes is not 1, 2 or 3.
    InvalidNaxis(usize),
    /// The size array does not have 1, 2 or 3 entries; it has this many.
    InvalidSize(usize),
    /// A circular buffer must have 3 dimensions; it had this many.
    CircBuffDimsWrong(usize),
}

/// What an image created from scratch will be: its axes, sizes, element
/// count, data size and total memory size.
#[derive(Debug, Clone, Copy)]
pub struct ScratchPlan {
    pub naxis: usize,
    pub size: [u32; 3],
    pub nelement: usize,
    pub imdatamemsize: usize,
    pub image_memsize: usize,
}

/// The number of elements of an image of the given sizes, a zero size
/// counting as 1.
pub open spec fn spec_scratch_nelement(size: Seq<usize>) -> int
    decreases size.len(),
{
    if size.len() == 0 {
        1
    } else {
        spec_scratch_nelement(size.drop_last()) * (if size.last() == 0 {
            1
        } else {
            size.last() as int
        })
    }
}

/// The element count of a prefix is at least 1 and at most that of the whole.
proof fn lemma_scratch_nelement_prefix(size: Seq<usize>, i: int)
    requires
        0 <= i <= size.len(),
    ensures
        1 <= spec_scratch_nelement(size.take(i)) <= spec_scratch_nelement(size),
    decreases size.len(),
{
    if size.len() > 0 {
        if i < size.len() {
            lemma_scratch_nelement_prefix(size.drop_last(), i);
            assert(size.drop_last().take(i) =~= size.take(i));
        } else {
            assert(size.take(i) =~= size);
            lemma_scratch_nelement_prefix(size.drop_last(), i - 1);
            assert(size.drop_last().take(i - 1) =~= size.drop_last());
        }
        let p = spec_scratch_nelement(size.drop_last());
        let x = if size.last() == 0 { 1 } else { size.last() as int };
        assert(p <= p * x && 1 <= p * x) by (nonlinear_arith)
            requires
                p >= 1,
                x >= 1,
        ;
    }
}

/// The outcome of planning an image from scratch, in the order the checks
/// are made: the size array's length, then the number of axes, then the
/// circular buffer's axes.
pub open spec fn spec_scratch_check(naxis: usize, size: Seq<usize>, imagetype: ImageType) -> Result<(), ScratchError> {
    if !(1 <= size.len() <= 3) {
        Err(ScratchError::InvalidSize(size.len() as usize))
    } else if !(1 <= naxis <= 3) {
        Err(ScratchError::InvalidNaxis(naxis))
    } else if imagetype.circular_buffer && naxis != 3 {
        Err(ScratchError::CircBuffDimsWrong(naxis))
    } else {
        Ok(())
    }
}

/// The element count of a size array of any length.
fn scratch_nelement(size: &[usize]) -> (r: usize)
    requires
        spec_scratch_nelement(size@) <= usize::MAX,
    ensures
        r == spec_scratch_nelement(size@),
{
    let mut acc: usize = 1;
    let mut i: usize = 0;
    while i < size.len()
        invariant
            i <= size@.len(),
            acc == spec_scratch_nelement(size@.take(i as int)),
            spec_scratch_nelement(size@) <= usize::MAX,
        decreases size@.len() - i,
    {
        proof {
            lemma_scratch_nelement_prefix(size@, i + 1);
            assert(size@.take(i + 1).drop_last() =~= size@.take(i as int));
        }
        let x = if size[i] == 0 { 1 } else { size[i] };
        acc = acc * x;
        i = i + 1;
    }
    assert(size@.take(size@.len() as int) =~= size@);
    acc
}

/// Plans an image of `naxis` axes with sizes `size`, element type
/// `datatype`, `nb_sem` semaphores, `nb_kw` keywords and `cb_size` frames of
/// circular buffer, whose semaphore files take `semfile_size` bytes each and
/// whose semaphores take `sem_size` bytes.
pub fn plan_image_from_scratch(
    naxis: usize,
    size: &[usize],
    datatype: DataType,
    nb_sem: usize,
    nb_kw: usize,
    imagetype: ImageType,
    cb_size: usize,
    semfile_size: usize,
    sem_size: usize,
) -> (r: Result<ScratchPlan, ScratchError>)
    requires
        spec_typesize(datatype) * spec_scratch_nelement(size@) <= usize::MAX,
        spec_scratch_check(naxis, size@, imagetype) is Ok ==> spec_scratch_memsize(
            spec_typesize(datatype) * spec_scratch_nelement(size@),
            nb_kw as int,
            nb_sem as int,
            if size@.len() == 3 { size@[2] as u32 as int } else { 0 },
            cb_size as int,
            semfile_size as int,
            sem_size as int,
        ) <= usize::MAX,
    ensures
        match r {
            Ok(p) => {
                &&& spec_scratch_check(naxis, size@, imagetype) is Ok
                &&& p.naxis == naxis
                &&& p.size@ == Seq::new(3, |i: int| if i < size@.len() { size@[i] as u32 } else { 0u32 })
                &&& p.nelement == spec_scratch_nelement(size@)
                &&& p.imdatamemsize == spec_typesize(datatype) * spec_scratch_nelement(size@)
                &&& p.image_memsize == spec_scratch_memsize(
                    p.imdatamemsize as int,
                    nb_kw as int,
                    nb_sem as int,
                    p.size[2] as int,
                    cb_size as int,
                    semfile_size as int,
                    sem_size as int,
                )
            },
            Err(e) => spec_scratch_check(naxis, size@, imagetype) == Err::<(), ScratchError>(e),
        },
{
    proof {
        lemma_scratch_nelement_prefix(size@, 0);
        let n = spec_scratch_nelement(size@);
        assert(n <= spec_typesize(datatype) * n) by (nonlinear_arith)
            requires
                n >= 1,
                spec_typesize(datatype) >= 1,
        ;
    }
    let nelement = scratch_nelement(size);
    let imdatamemsize = datatype.typesize() * nelement;
    let size3: [u32; 3] = if size.len() == 1 {
        [size[0] as u32, 0u32, 0u32]
    } else if size.len() == 2 {
        [size[0] as u32, size[1] as u32, 0u32]
    } else if size.len() == 3 {
        [size[0] as u32, size[1] as u32, size[2] as u32]
    } else {
        return Err(ScratchError::InvalidSize(size.len()));
    };
    if !(1 <= naxis && naxis <= 3) {
        return Err(ScratchError::InvalidNaxis(naxis));
    }
    if imagetype.circular_buffer && naxis != 3 {
        return Err(ScratchError::CircBuffDimsWrong(naxis));
    }
    let image_memsize = scratch_memsize(
        imdatamemsize,
        nb_kw,
        nb_sem,
        size3[2] as usize,
        cb_size,
        semfile_size,
        sem_size,
    );
    let p = ScratchPlan { naxis, size: size3, nelement, imdatamemsize, image_memsize };
    assert(p.size@ =~= Seq::new(3, |i: int| if i < size@.len() { size@[i] as u32 } else { 0u32 }));
    Ok(p)
}

/// The record of an image created from scratch in shared memory: its local
/// name, usage flag, creation count, shared-memory file descriptor, memory
/// size and metadata.
#[derive(Debug, Clone, Copy)]
pub struct ScratchRecord {
    pub name: [i8; 80],
    pub used: u8,
    pub create_cnt: i64,
    pub shmfd: i32,
    pub memsize: u64,
    pub md: ImageMetadata,
}

/// The metadata of an image created from scratch as `plan`, named `name`,
/// with `nb_sem` semaphores, `nb_kw` keywords and `cb_size` frames, in the
/// shared-memory file of inode `inode`, created at `creation_time` (last
/// accessed at `last_access_time`) by process `creator_pid`.
pub open spec fn scratch_metadata_fields(
    md: ImageMetadata,
    name: Seq<u8>,
    plan: ScratchPlan,
    datatype: DataType,
    nb_sem: usize,
    nb_kw: usize,
    imagetype: ImageType,
    cb_size: usize,
    inode: u64,
    creation_time: TimeSpec,
    last_access_time: TimeSpec,
    creator_pid: i32,
) -> bool {
    let zero = TimeSpec { tv_sec: 0, tv_nsec: 0 };
    &&& md.version@ == spec_version_chars()
    &&& md.name@ == spec_name_chars(name)
    &&& md.naxis == plan.naxis
    &&& md.size == plan.size
    &&& md.nelement == plan.nelement
    &&& md.datatype == spec_datatype_code(datatype)
    &&& md.imagetype == spec_imagetype_code(imagetype)
    &&& md.creationtime == creation_time
    &&& md.lastaccesstime == last_access_time
    &&& md.atime == zero
    &&& md.writetime == zero
    &&& md.creator_pid == creator_pid
    &&& md.owner_pid == 0
    &&& md.shared == 1
    &&& md.inode == inode
    &&& md.location == -1
    &&& md.status == 0
    &&& md.flag == 0
    &&& md.logflag == 0
    &&& md.sem == nb_sem as u16
    &&& md.nb_proc_trace == IMAGE_NB_PROCTRACE
    &&& md.cnt0 == 0
    &&& md.cnt1 == 0
    &&& md.cnt2 == 0
    &&& md.write == 0
    &&& md.nb_kw == nb_kw as u16
    &&& md.cb_size == cb_size as u32
    &&& md.cb_index == 0
    &&& md.cb_cycle == 0
    &&& md.imdatamemsize == plan.imdatamemsize
    &&& md.cuda_mem_handle@ == Seq::new(64, |i: int| 0i8)
}

/// The record of an image created from scratch as `plan` (with the
/// arguments `plan_image_from_scratch` was given), in the shared-memory file
/// `shmfd` of inode `inode`, created at `creation_time` (last accessed at
/// `last_access_time`) by process `creator_pid`: in use, created once, of
/// the planned memory size.
pub fn scratch_record(
    name: &str,
    plan: &ScratchPlan,
    datatype: DataType,
    nb_sem: usize,
    nb_kw: usize,
    imagetype: ImageType,
    cb_size: usize,
    shmfd: i32,
    inode: u64,
    creation_time: TimeSpec,
    last_access_time: TimeSpec,
    creator_pid: i32,
) -> (r: ScratchRecord)
    requires
        plan.naxis <= 3,
    ensures
        r.name@ == spec_name_chars(name.spec_bytes()),
        r.used == 1,
        r.create_cnt == 1,
        r.shmfd == shmfd,
        r.memsize == plan.image_memsize,
        scratch_metadata_fields(
            r.md,
            name.spec_bytes(),
            *plan,
            datatype,
            nb_sem,
            nb_kw,
            imagetype,
            cb_size,
            inode,
            creation_time,
            last_access_time,
            creator_pid,
        ),
{
    let zero = TimeSpec::new();
    let md = ImageMetadata {
        version: version(),
        name: image_name(name),
        naxis: plan.naxis as u8,
        size: plan.size,
        nelement: plan.nelement as u64,
        datatype: u8::from(datatype),
        imagetype: u64::from(imagetype),
        creationtime: creation_time,
        lastaccesstime: last_access_time,
        atime: zero,
        writetime: zero,
        creator_pid,
        owner_pid: 0,
        shared: 1,
        inode,
        location: -1i8,
        status: 0,
        flag: 0,
        logflag: 0,
        sem: nb_sem as u16,
        nb_proc_trace: IMAGE_NB_PROCTRACE,
        cnt0: 0,
        cnt1: 0,
        cnt2: 0,
        write: 0,
        nb_kw: nb_kw as u16,
        cb_size: cb_size as u32,
        cb_index: 0,
        cb_cycle: 0,
        imdatamemsize: plan.imdatamemsize as u64,
        cuda_mem_handle: [0i8; 64],
    };
    assert(md.cuda_mem_handle@ =~= Seq::new(64, |i: int| 0i8));
    ScratchRecord {
        name: image_name(name),
        used: 1,
        create_cnt: 1,
        shmfd,
        memsize: plan.image_memsize as u64,
        md,
    }
}

/// The memory size of an image from scratch: the regions of an image, the
/// semaphore files taking `semfile_size` bytes each.
pub open spec fn spec_scratch_memsize(a: int, b: int, c: int, e: int, f: int, semfile_size: int, sem_size: int) -> int {
    METADATA_SIZE + r8(a) + r8(KEYWORD_SIZE * b) + r8(semfile_size * c) + r8(sem_size) + 4 * r8(
        WORD_SIZE * c,
    ) + r8(PROC_TRACE_SIZE * IMAGE_NB_PROCTRACE) + 2 * r8(TIMESPEC_SIZE * e) + r8(CNT_SIZE * e)
        + r8(CB_FRAME_METADATA_SIZE * f) + r8(a * f)
}

/// The memory planned for an image from scratch, with semaphore files as
/// large as semaphores, is the size of the ISIO layout of an image with the
/// same data, keywords, semaphores, slices and frames and the default number
/// of process traces: every region, the access and write timestamps of each
/// slice among them.
pub proof fn lemma_scratch_memsize_is_image_size(a: int, b: int, c: int, e: int, f: int, s: int)
    ensures
        spec_scratch_memsize(a, b, c, e, f, s, s) == spec_size_of(
            a,
            b,
            c,
            IMAGE_NB_PROCTRACE as int,
            e,
            f,
            s,
        ),
        spec_scratch_memsize(a, b, c, e, f, s, s) == METADATA_SIZE + r8(a) + r8(KEYWORD_SIZE * b)
            + r8(s * c) + r8(s) + 4 * r8(WORD_SIZE * c) + r8(PROC_TRACE_SIZE * IMAGE_NB_PROCTRACE)
            + r8(TIMESPEC_SIZE * e) + r8(TIMESPEC_SIZE * e) + r8(CNT_SIZE * e) + r8(
            CB_FRAME_METADATA_SIZE * f,
        ) + r8(a * f),
{
}

/// The argument rules of an image from scratch: it is planned exactly when
/// its size array has 1 to 3 entries, its number of axes is 1 to 3, and a
/// circular buffer has 3 axes. With a size array of 1 to 3 entries, a number
/// of axes outside 1 to 3 gives `InvalidNaxis` with that number.
pub proof fn lemma_scratch_check_rules(naxis: usize, size: Seq<usize>, imagetype: ImageType)
    ensures
        spec_scratch_check(naxis, size, imagetype) is Ok <==> (1 <= size.len() <= 3 && 1 <= naxis
            <= 3 && (imagetype.circular_buffer ==> naxis == 3)),
        1 <= size.len() <= 3 && !(1 <= naxis <= 3) ==> spec_scratch_check(naxis, size, imagetype)
            == Err::<(), ScratchError>(ScratchError::InvalidNaxis(naxis)),
        !(1 <= size.len() <= 3) ==> spec_scratch_check(naxis, size, imagetype) == Err::<
            (),
            ScratchError,
        >(ScratchError::InvalidSize(size.len() as usize)),
{
}

/// For a shape of 1 to 3 non-zero dimensions, an image from scratch and a
/// new local image count the same number of elements: the product of the
/// dimensions.
pub proof fn lemma_scratch_nelement_agrees(size: Seq<usize>)
    requires
        1 <= size.len() <= 3,
        forall|i: int| 0 <= i < size.len() ==> size[i] != 0,
    ensures
        spec_scratch_nelement(size) == spec_nelement(size),
{
    let s1 = size.drop_last();
    assert(size.last() == size[size.len() - 1]);
    if size.len() >= 2 {
        let s2 = s1.drop_last();
        assert(s1.last() == size[size.len() - 2]);
        if size.len() == 3 {
            let s3 = s2.drop_last();
            assert(s2.last() == size[0]);
            assert(s3.len() == 0);
            assert(spec_scratch_nelement(s3) == 1);
            assert(spec_scratch_nelement(s2) == size[0] as int);
            assert(spec_scratch_nelement(s1) == size[0] * size[1]);
        } else {
            assert(s2.len() == 0);
            assert(spec_scratch_nelement(s2) == 1);
            assert(spec_scratch_nelement(s1) == size[0] as int);
        }
    } else {
        assert(s1.len() == 0);
        assert(spec_scratch_nelement(s1) == 1);
    }
    assert(spec_scratch_nelement(size) == spec_scratch_nelement(s1) * (size.last() as int));
}

/// The bytes of `n` elements of `size` bytes, rounded up to a multiple of 8.
fn region(size: usize, n: usize) -> (r: usize)
    requires
        r8(size * n) <= usize::MAX,
    ensures
        r == r8(size * n),
{
    proof {
        assert(size * n >= 0) by (nonlinear_arith);
        assert(r8(size * n) >= size * n);
        assert(usize::MAX % 8 == 7);
    }
    round_up_8(size * n)
}

/// Computes `spec_scratch_memsize`.
fn scratch_memsize(a: usize, b: usize, c: usize, e: usize, f: usize, semfile_size: usize, sem_size: usize) -> (r: usize)
    requires
        spec_scratch_memsize(a as int, b as int, c as int, e as int, f as int, semfile_size as int, sem_size as int) <= usize::MAX,
    ensures
        r == spec_scratch_memsize(a as int, b as int, c as int, e as int, f as int, semfile_size as int, sem_size as int),
{
    proof {
        lemma_r8_nonneg(a as int, 1);
        lemma_r8_nonneg(KEYWORD_SIZE as int, b as int);
        lemma_r8_nonneg(semfile_size as int, c as int);
        lemma_r8_nonneg(sem_size as int, 1);
        lemma_r8_nonneg(WORD_SIZE as int, c as int);
        lemma_r8_nonneg(PROC_TRACE_SIZE as int, IMAGE_NB_PROCTRACE as int);
        lemma_r8_nonneg(TIMESPEC_SIZE as int, e as int);
        lemma_r8_nonneg(CNT_SIZE as int, e as int);
        lemma_r8_nonneg(CB_FRAME_METADATA_SIZE as int, f as int);
        lemma_r8_nonneg(a as int, f as int);
        assert(a * 1 == a);
        assert(sem_size * 1 == sem_size);
    }
    let mut m: usize = METADATA_SIZE;
    m = m + region(a, 1);
    m = m + region(KEYWORD_SIZE, b);
    m = m + region(semfile_size, c);
    m = m + region(sem_size, 1);
    let words = region(WORD_SIZE, c);
    m = m + words;
    m = m + words;
    m = m + words;
    m = m + words;
    m = m + region(PROC_TRACE_SIZE, IMAGE_NB_PROCTRACE as usize);
    let times = region(TIMESPEC_SIZE, e);
    m = m + times;
    m = m + times;
    m = m + region(CNT_SIZE, e);
    m = m + region(CB_FRAME_METADATA_SIZE, f);
    m = m + region(a, f);
    m
}

/// The 200-character file-name field of the image called `name`: its name
/// field, padded with NULs.
pub fn sm_fname(name: &str) -> (r: [i8; 200])
    ensures
        r@ == spec_name_chars(name.spec_bytes()) + Seq::new(120, |i: int| 0i8),
{
    let short = image_name(name);
    let mut out: [i8; 200] = [0i8; 200];
    let mut i: usize = 0;
    while i < 80
        invariant
            i <= 80,
            out@.len() == 200,
            short@ == spec_name_chars(name.spec_bytes()),
            forall|j: int| 0 <= j < i ==> out@[j] == short@[j],
            forall|j: int| i <= j < 200 ==> out@[j] == 0i8,
        decreases 80 - i,
    {
        out[i] = short[i];
        i = i + 1;
    }
    assert(out@ =~= spec_name_chars(name.spec_bytes()) + Seq::new(120, |i: int| 0i8));
    out
}

/// `r8(size * n)`, or `None` when it exceeds `usize`.
fn region_checked(size: usize, n: usize) -> (r: Option<usize>)
    ensures
        r matches Some(x) ==> x == r8(size * n),
        r is None <==> r8(size * n) > usize::MAX,
{
    proof {
        lemma_r8_nonneg(size as int, n as int);
        assert(size * n >= 0) by (nonlinear_arith);
        assert(r8(size * n) >= size * n);
        assert(usize::MAX % 8 == 7);
    }
    match size.checked_mul(n) {
        Some(x) => if x <= usize::MAX - 7 {
            Some(round_up_8(x))
        } else {
            None
        },
        None => None,
    }
}

/// Adds a region's size to a running total, or gives `None` when either is
/// missing or the sum exceeds `usize`.
fn sum_checked(total: Option<usize>, region: Option<usize>) -> (r: Option<usize>)
    ensures
        r matches Some(x) ==> (total matches Some(t) && region matches Some(g) && x == t + g),
        r is None ==> (total is None || region is None || (total matches Some(t) && region matches Some(g) && t + g > usize::MAX)),
{
    match (total, region) {
        (Some(t), Some(g)) => t.checked_add(g),
        _ => None,
    }
}

/// Whether `plan_image_from_scratch` can compute its sizes within `usize`:
/// the test to make before calling it.
pub fn scratch_plan_fits(
    naxis: usize,
    size: &[usize],
    datatype: DataType,
    nb_sem: usize,
    nb_kw: usize,
    imagetype: ImageType,
    cb_size: usize,
    semfile_size: usize,
    sem_size: usize,
) -> (r: bool)
    ensures
        r == (spec_typesize(datatype) * spec_scratch_nelement(size@) <= usize::MAX && (spec_scratch_check(naxis, size@, imagetype) is Ok ==> spec_scratch_memsize(
            spec_typesize(datatype) * spec_scratch_nelement(size@),
            nb_kw as int,
            nb_sem as int,
            if size@.len() == 3 { size@[2] as u32 as int } else { 0 },
            cb_size as int,
            semfile_size as int,
            sem_size as int,
        ) <= usize::MAX)),
{
    let ghost t: int = spec_typesize(datatype) as int;
    let mut acc: usize = datatype.typesize();
    let mut i: usize = 0;
    while i < size.len()
        invariant
            i <= size@.len(),
            t == spec_typesize(datatype),
            acc == t * spec_scratch_nelement(size@.take(i as int)),
        decreases size@.len() - i,
    {
        let x = if size[i] == 0 { 1 } else { size[i] };
        proof {
            assert(size@.take(i + 1).drop_last() =~= size@.take(i as int));
            let p = spec_scratch_nelement(size@.take(i as int));
            assert(t * (p * x) == (t * p) * x) by (nonlinear_arith);
        }
        match acc.checked_mul(x) {
            Some(y) => acc = y,
            None => {
                proof {
                    lemma_scratch_nelement_prefix(size@, i + 1);
                    let q = spec_scratch_nelement(size@.take(i + 1));
                    assert(t * q <= t * spec_scratch_nelement(size@)) by (nonlinear_arith)
                        requires
                            t >= 0,
                            q <= spec_scratch_nelement(size@),
                    ;
                }
                return false;
            },
        }
        i = i + 1;
    }
    assert(size@.take(size@.len() as int) =~= size@);
    let a = acc;
    if !(1 <= size.len() && size.len() <= 3) || !(1 <= naxis && naxis <= 3) || (imagetype.circular_buffer && naxis != 3) {
        return true;
    }
    let e: usize = if size.len() == 3 { size[2] as u32 as usize } else { 0 };
    let mut m = Some(METADATA_SIZE);
    m = sum_checked(m, region_checked(a, 1));
    m = sum_checked(m, region_checked(KEYWORD_SIZE, nb_kw));
    m = sum_checked(m, region_checked(semfile_size, nb_sem));
    m = sum_checked(m, region_checked(sem_size, 1));
    let words = region_checked(WORD_SIZE, nb_sem);
    m = sum_checked(m, words);
    m = sum_checked(m, words);
    m = sum_checked(m, words);
    m = sum_checked(m, words);
    m = sum_checked(m, region_checked(PROC_TRACE_SIZE, IMAGE_NB_PROCTRACE as usize));
    let times = region_checked(TIMESPEC_SIZE, e);
    m = sum_checked(m, times);
    m = sum_checked(m, times);
    m = sum_checked(m, region_checked(CNT_SIZE, e));
    m = sum_checked(m, region_checked(CB_FRAME_METADATA_SIZE, cb_size));
    m = sum_checked(m, region_checked(a, cb_size));
    proof {
        lemma_r8_nonneg(a as int, 1);
        lemma_r8_nonneg(KEYWORD_SIZE as int, nb_kw as int);
        lemma_r8_nonneg(semfile_size as int, nb_sem as int);
        lemma_r8_nonneg(sem_size as int, 1);
        lemma_r8_nonneg(WORD_SIZE as int, nb_sem as int);
        lemma_r8_nonneg(PROC_TRACE_SIZE as int, IMAGE_NB_PROCTRACE as int);
        lemma_r8_nonneg(TIMESPEC_SIZE as int, e as int);
        lemma_r8_nonneg(CNT_SIZE as int, e as int);
        lemma_r8_nonneg(CB_FRAME_METADATA_SIZE as int, cb_size as int);
        lemma_r8_nonneg(a as int, cb_size as int);
        assert(a * 1 == a && sem_size * 1 == sem_size);
    }
    m.is_some()
}

} // verus!
