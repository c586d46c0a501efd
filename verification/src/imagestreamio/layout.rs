//! Where each region of an image lies in its memory.
//!
//! An image is one contiguous block of bytes: its metadata, then its data,
//! keywords, semaphores, semaphore bookkeeping, process traces, per-slice
//! timestamps and counters, and circular-buffer metadata and data. Every
//! region starts at a multiple of 8.
use crate::imagestreamio::byte_structs::{ImageMetadata, METADATA_SIZE};
use crate::imagestreamio::{round_up_8, spec_round_up_8};
use vstd::prelude::*;

verus! {

/// Space in bytes given to each semaphore in an image: the semaphore
/// itself, then zeros.
pub const SEM_SLOT_SIZE: usize = 256;

/// Size in bytes of one keyword.
pub const KEYWORD_SIZE: usize = 128;

/// Size in bytes of one process trace.
pub const PROC_TRACE_SIZE: usize = 64;

/// Size in bytes of one timestamp.
pub const TIMESPEC_SIZE: usize = 16;

/// Size in bytes of one counter.
pub const CNT_SIZE: usize = 8;

/// Size in bytes of one circular-buffer frame's metadata.
pub const CB_FRAME_METADATA_SIZE: usize = 48;

/// Size in bytes of a PID, control or status word.
pub const WORD_SIZE: usize = 4;

/// The offsets of the regions of an image and the counts of their elements.
#[derive(Debug, Clone, Copy, PartialEq, Eq, Structural)]
pub struct ImageLayout {
    /// Size of one semaphore.
    pub sem_size: usize,
    /// Bytes of image data (without padding).
    pub imdatamemsize: usize,
    /// Number of keywords.
    pub nb_kw: usize,
    /// Number of semaphores.
    pub nb_sem: usize,
    /// Number of process traces.
    pub nb_proc_trace: usize,
    /// Number of slices along the third axis (size[2]).
    pub nb_slices: usize,
    /// Number of frames in the circular buffer.
    pub cb_size: usize,
    pub array: usize,
    pub kw: usize,
    pub sem_file: usize,
    pub sem_log: usize,
    pub sem_read_pid: usize,
    pub sem_write_pid: usize,
    pub sem_ctrl: usize,
    pub sem_status: usize,
    pub proc_trace: usize,
    pub a_time: usize,
    pub write_time: usize,
    pub cnt: usize,
    pub cb_md: usize,
    pub cb_data: usize,
    /// Total size of the image.
    pub total: usize,
}

/// Shorthand for rounding up to a multiple of 8.
pub open spec fn r8(x: int) -> int {
    spec_round_up_8(x)
}

/// The element counts of `l` are those that `md` gives.
pub open spec fn layout_counts(l: ImageLayout, md: ImageMetadata) -> bool {
    &&& l.imdatamemsize == md.imdatamemsize
    &&& l.nb_kw == md.nb_kw
    &&& l.nb_sem == md.sem
    &&& l.nb_proc_trace == md.nb_proc_trace
    &&& l.nb_slices == md.size[2]
    &&& l.cb_size == md.cb_size
}

/// The regions of `l` follow one another from the end of the metadata, each
/// sized by the element counts of `l` and rounded up to a multiple of 8.
pub open spec fn layout_chain(l: ImageLayout, sem_size: int) -> bool {
    let a = l.imdatamemsize as int;
    let c = l.nb_sem as int;
    let e = l.nb_slices as int;
    let f = l.cb_size as int;
    &&& l.sem_size == sem_size
    &&& l.array == METADATA_SIZE
    &&& l.kw == l.array + r8(a)
    &&& l.sem_file == l.kw + r8(KEYWORD_SIZE * l.nb_kw)
    &&& l.sem_log == l.sem_file + r8(sem_size * c)
    &&& l.sem_read_pid == l.sem_log + r8(sem_size)
    &&& l.sem_write_pid == l.sem_read_pid + r8(WORD_SIZE * c)
    &&& l.sem_ctrl == l.sem_write_pid + r8(WORD_SIZE * c)
    &&& l.sem_status == l.sem_ctrl + r8(WORD_SIZE * c)
    &&& l.proc_trace == l.sem_status + r8(WORD_SIZE * c)
    &&& l.a_time == l.proc_trace + r8(PROC_TRACE_SIZE * l.nb_proc_trace)
    &&& l.write_time == l.a_time + r8(TIMESPEC_SIZE * e)
    &&& l.cnt == l.write_time + r8(TIMESPEC_SIZE * e)
    &&& l.cb_md == l.cnt + r8(CNT_SIZE * e)
    &&& l.cb_data == l.cb_md + r8(CB_FRAME_METADATA_SIZE * f)
    &&& l.total == l.cb_data + r8(a * f)
}

/// `l` is the layout of an image with metadata `md` and semaphores of
/// `sem_size` bytes.
pub open spec fn layout_of(l: ImageLayout, md: ImageMetadata, sem_size: int) -> bool {
    layout_counts(l, md) && layout_chain(l, sem_size)
}

/// The total size of an image with `a` bytes of data, `b` keywords, `c`
/// semaphores of `sem_size` bytes, `d` process traces, `e` slices and `f`
/// circular-buffer frames, as a sum of its regions.
pub open spec fn spec_size_of(a: int, b: int, c: int, d: int, e: int, f: int, sem_size: int) -> int {
    METADATA_SIZE + r8(a) + r8(KEYWORD_SIZE * b) + r8(sem_size * c) + r8(sem_size) + 4 * r8(
        WORD_SIZE * c,
    ) + r8(PROC_TRACE_SIZE * d) + 2 * r8(TIMESPEC_SIZE * e) + r8(CNT_SIZE * e) + r8(
        CB_FRAME_METADATA_SIZE * f,
    ) + r8(a * f)
}

/// The total size of an image with metadata `md`.
pub open spec fn spec_image_size(md: ImageMetadata, sem_size: int) -> int {
    spec_size_of(
        md.imdatamemsize as int,
        md.nb_kw as int,
        md.sem as int,
        md.nb_proc_trace as int,
        md.size[2] as int,
        md.cb_size as int,
        sem_size,
    )
}

/// Adds two sizes, or gives `None` if the sum exceeds `usize`.
fn checked_sum(x: usize, y: usize) -> (r: Option<usize>)
    ensures
        r matches Some(z) ==> z == x + y,
        r is None <==> x + y > usize::MAX,
{
    x.checked_add(y)
}

/// Rounds a size up to a multiple of 8, or gives `None` if that exceeds `usize`.
fn up8(x: usize) -> (r: Option<usize>)
    ensures
        r matches Some(z) ==> z == r8(x as int),
        r is None <==> r8(x as int) > usize::MAX,
{
    if x <= usize::MAX - 7 {
        Some(round_up_8(x))
    } else {
        None
    }
}

/// Multiplies two sizes, or gives `None` if the product exceeds `usize`.
fn checked_product(x: usize, y: usize) -> (r: Option<usize>)
    ensures
        r matches Some(z) ==> z == x * y,
        r is None <==> x * y > usize::MAX,
{
    x.checked_mul(y)
}

/// The next region's offset: `off` plus `n` elements of `size` bytes, rounded
/// up to a multiple of 8.
fn next_region(off: usize, size: usize, n: usize) -> (r: Option<usize>)
    ensures
        r matches Some(z) ==> z == off + r8(size * n),
        r is None <==> off + r8(size * n) > usize::MAX,
{
    proof {
        assert(size * n >= 0) by (nonlinear_arith);
    }
    match checked_product(size, n) {
        Some(bytes) => match up8(bytes) {
            Some(padded) => checked_sum(off, padded),
            None => None,
        },
        None => {
            assert(r8(size * n) >= size * n);
            None
        },
    }
}

impl ImageLayout {
    /// The layout of an image with metadata `md` whose semaphores take
    /// `sem_size` bytes each, or `None` if the image would not fit in the
    /// address space.
    pub fn new(md: &ImageMetadata, sem_size: usize) -> (r: Option<ImageLayout>)
        ensures
            r matches Some(l) ==> layout_of(l, *md, sem_size as int),
            r is None <==> spec_image_size(*md, sem_size as int) > usize::MAX,
    {
        if md.imdatamemsize > usize::MAX as u64 {
            assert(r8(md.imdatamemsize as int) >= md.imdatamemsize);
            return None;
        }
        let a = md.imdatamemsize as usize;
        let c = md.sem as usize;
        let d = md.nb_proc_trace as usize;
        let e = md.size[2] as usize;
        let f = md.cb_size as usize;
        let array: usize = METADATA_SIZE;
        let ghost sz = spec_image_size(*md, sem_size as int);
        proof {
            assert(r8(a * f) >= 0 && r8(sem_size * c) >= 0 && r8(sem_size as int) >= 0
                && r8(KEYWORD_SIZE * md.nb_kw) >= 0 && r8(TIMESPEC_SIZE * e) >= 0
                && r8(CNT_SIZE * e) >= 0 && r8(CB_FRAME_METADATA_SIZE * f) >= 0
                && r8(WORD_SIZE * c) >= 0 && r8(a as int) >= 0 && r8(PROC_TRACE_SIZE * d) >= 0)
                by (nonlinear_arith);
        }
        let kw = match next_region(array, 1, a) {
            Some(x) => x,
            None => return None,
        };
        let sem_file = match next_region(kw, KEYWORD_SIZE, md.nb_kw as usize) {
            Some(x) => x,
            None => return None,
        };
        let sem_log = match next_region(sem_file, sem_size, c) {
            Some(x) => x,
            None => return None,
        };
        let sem_read_pid = match next_region(sem_log, sem_size, 1) {
            Some(x) => x,
            None => return None,
        };
        let sem_write_pid = match next_region(sem_read_pid, WORD_SIZE, c) {
            Some(x) => x,
            None => return None,
        };
        let sem_ctrl = match next_region(sem_write_pid, WORD_SIZE, c) {
            Some(x) => x,
            None => return None,
        };
        let sem_status = match next_region(sem_ctrl, WORD_SIZE, c) {
            Some(x) => x,
            None => return None,
        };
        let proc_trace = match next_region(sem_status, WORD_SIZE, c) {
            Some(x) => x,
            None => return None,
        };
        let a_time = match next_region(proc_trace, PROC_TRACE_SIZE, d) {
            Some(x) => x,
            None => return None,
        };
        let write_time = match next_region(a_time, TIMESPEC_SIZE, e) {
            Some(x) => x,
            None => return None,
        };
        let cnt = match next_region(write_time, TIMESPEC_SIZE, e) {
            Some(x) => x,
            None => return None,
        };
        let cb_md = match next_region(cnt, CNT_SIZE, e) {
            Some(x) => x,
            None => return None,
        };
        let cb_data = match next_region(cb_md, CB_FRAME_METADATA_SIZE, f) {
            Some(x) => x,
            None => return None,
        };
        let total = match next_region(cb_data, a, f) {
            Some(x) => x,
            None => return None,
        };
        Some(
            ImageLayout {
                sem_size,
                imdatamemsize: a,
                nb_kw: md.nb_kw as usize,
                nb_sem: c,
                nb_proc_trace: d,
                nb_slices: e,
                cb_size: f,
                array,
                kw,
                sem_file,
                sem_log,
                sem_read_pid,
                sem_write_pid,
                sem_ctrl,
                sem_status,
                proc_trace,
                a_time,
                write_time,
                cnt,
                cb_md,
                cb_data,
                total,
            },
        )
    }
}

impl ImageLayout {
    /// The offset of semaphore `idx` within the semaphore region.
    pub fn sem_offset(&self, idx: usize) -> (r: usize)
        requires
            layout_chain(*self, self.sem_size as int),
            idx < self.nb_sem,
        ensures
            r == self.sem_file + idx * self.sem_size,
            r + self.sem_size <= self.sem_log,
    {
        let s = self.sem_size;
        let c = self.nb_sem;
        proof {
            assert(idx * s + s <= c * s) by (nonlinear_arith)
                requires
                    idx < c,
                    s >= 0,
            ;
            assert(r8(s * c) >= s * c);
            assert(s * c == c * s) by (nonlinear_arith);
        }
        self.sem_file + idx * s
    }
}

/// The total size of a laid-out image is the sum of its regions' sizes.
pub proof fn lemma_layout_total(l: ImageLayout, md: ImageMetadata, sem_size: int)
    requires
        layout_of(l, md, sem_size),
    ensures
        l.total == spec_image_size(md, sem_size),
{
}

/// The size of an image, for semaphores whose size is a multiple of 8, as the
/// sum of its regions without the roundings that change nothing:
/// `384 + pad(a) + 128 b + s (c + 1) + 4 pad(4 c) + 64 d + 40 e + 48 f + pad(a f)`
/// for `a` bytes of data, `b` keywords, `c` semaphores of `s` bytes, `d`
/// process traces, `e` slices and `f` circular-buffer frames, `pad` rounding
/// up to a multiple of 8.
pub proof fn lemma_image_size_formula(md: ImageMetadata, sem_size: int)
    requires
        sem_size >= 0,
        sem_size % 8 == 0,
    ensures
        spec_image_size(md, sem_size) == METADATA_SIZE + r8(md.imdatamemsize as int) + KEYWORD_SIZE
            * md.nb_kw + sem_size * (md.sem + 1) + 4 * r8(WORD_SIZE * md.sem) + PROC_TRACE_SIZE
            * md.nb_proc_trace + (2 * TIMESPEC_SIZE + CNT_SIZE) * md.size[2]
            + CB_FRAME_METADATA_SIZE * md.cb_size + r8(md.imdatamemsize * md.cb_size),
{
    let b = md.nb_kw as int;
    let c = md.sem as int;
    let e = md.size[2] as int;
    let f = md.cb_size as int;
    lemma_r8_of_multiple(16 * b);
    lemma_r8_of_multiple(sem_size / 8 * c);
    lemma_r8_of_multiple(sem_size / 8);
    lemma_r8_of_multiple(8 * md.nb_proc_trace);
    lemma_r8_of_multiple(2 * e);
    lemma_r8_of_multiple(e);
    lemma_r8_of_multiple(6 * f);
    assert(sem_size * c == 8 * (sem_size / 8 * c)) by (nonlinear_arith)
        requires
            sem_size % 8 == 0,
    ;
    assert(sem_size * (c + 1) == sem_size * c + sem_size) by (nonlinear_arith);
    assert(sem_size == 8 * (sem_size / 8));
    assert(r8(KEYWORD_SIZE * b) == KEYWORD_SIZE * b);
    assert(r8(sem_size * c) == sem_size * c);
    assert(r8(sem_size) == sem_size);
    assert(r8(PROC_TRACE_SIZE * md.nb_proc_trace) == PROC_TRACE_SIZE * md.nb_proc_trace);
    assert(r8(TIMESPEC_SIZE * e) == TIMESPEC_SIZE * e);
    assert(r8(CNT_SIZE * e) == CNT_SIZE * e);
    assert(r8(CB_FRAME_METADATA_SIZE * f) == CB_FRAME_METADATA_SIZE * f);
    assert((2 * TIMESPEC_SIZE + CNT_SIZE) * e == 2 * (TIMESPEC_SIZE * e) + CNT_SIZE * e)
        by (nonlinear_arith);
}

/// An image whose data takes a multiple of 8 bytes (as with 64-bit elements)
/// and that has an even number of semaphores (of a multiple of 8 bytes each)
/// is packed tightly: no region is padded, and its size is the sum of its
/// contents.
pub proof fn lemma_tightly_packed(md: ImageMetadata, sem_size: int)
    requires
        sem_size >= 0,
        sem_size % 8 == 0,
        md.imdatamemsize % 8 == 0,
        md.sem % 2 == 0,
    ensures
        spec_image_size(md, sem_size) == METADATA_SIZE + md.imdatamemsize + KEYWORD_SIZE * md.nb_kw
            + sem_size * (md.sem + 1) + 4 * (WORD_SIZE * md.sem) + PROC_TRACE_SIZE
            * md.nb_proc_trace + (2 * TIMESPEC_SIZE + CNT_SIZE) * md.size[2]
            + CB_FRAME_METADATA_SIZE * md.cb_size + md.imdatamemsize * md.cb_size,
{
    let a = md.imdatamemsize as int;
    let c = md.sem as int;
    let f = md.cb_size as int;
    lemma_image_size_formula(md, sem_size);
    lemma_r8_of_multiple(a / 8);
    lemma_r8_of_multiple(c / 2);
    lemma_r8_of_multiple(a / 8 * f);
    assert(a * f == 8 * (a / 8 * f)) by (nonlinear_arith)
        requires
            a % 8 == 0,
    ;
}

/// Rounding a multiple of 8 up to a multiple of 8 leaves it unchanged.
pub proof fn lemma_r8_of_multiple(k: int)
    requires
        k >= 0,
    ensures
        r8(8 * k) == 8 * k,
{
}

/// Every region of a laid-out image starts at a multiple of 8, after the
/// region before it.
#[verifier::spinoff_prover]
pub proof fn lemma_layout_aligned(l: ImageLayout, sem_size: int)
    requires
        layout_chain(l, sem_size),
        sem_size >= 0,
    ensures
        l.array % 8 == 0 && l.kw % 8 == 0 && l.sem_file % 8 == 0 && l.sem_log % 8 == 0
            && l.sem_read_pid % 8 == 0 && l.sem_write_pid % 8 == 0 && l.sem_ctrl % 8 == 0
            && l.sem_status % 8 == 0 && l.proc_trace % 8 == 0 && l.a_time % 8 == 0
            && l.write_time % 8 == 0 && l.cnt % 8 == 0 && l.cb_md % 8 == 0 && l.cb_data % 8 == 0
            && l.total % 8 == 0,
        l.array <= l.kw <= l.sem_file <= l.sem_log <= l.sem_read_pid <= l.sem_write_pid
            <= l.sem_ctrl <= l.sem_status <= l.proc_trace <= l.a_time <= l.write_time <= l.cnt
            <= l.cb_md <= l.cb_data <= l.total,
{
    let a = l.imdatamemsize as int;
    let c = l.nb_sem as int;
    let e = l.nb_slices as int;
    let f = l.cb_size as int;
    lemma_r8_nonneg(a, 1);
    lemma_r8_nonneg(KEYWORD_SIZE as int, l.nb_kw as int);
    lemma_r8_nonneg(sem_size, c);
    lemma_r8_nonneg(sem_size, 1);
    lemma_r8_nonneg(WORD_SIZE as int, c);
    lemma_r8_nonneg(PROC_TRACE_SIZE as int, l.nb_proc_trace as int);
    lemma_r8_nonneg(TIMESPEC_SIZE as int, e);
    lemma_r8_nonneg(CNT_SIZE as int, e);
    lemma_r8_nonneg(CB_FRAME_METADATA_SIZE as int, f);
    lemma_r8_nonneg(a, f);
    assert(a * 1 == a && sem_size * 1 == sem_size);
    lemma_add_mult8(l.array as int, r8(a));
    lemma_add_mult8(l.kw as int, r8(KEYWORD_SIZE * l.nb_kw));
    lemma_add_mult8(l.sem_file as int, r8(sem_size * c));
    lemma_add_mult8(l.sem_log as int, r8(sem_size));
    lemma_add_mult8(l.sem_read_pid as int, r8(WORD_SIZE * c));
    lemma_add_mult8(l.sem_write_pid as int, r8(WORD_SIZE * c));
    lemma_add_mult8(l.sem_ctrl as int, r8(WORD_SIZE * c));
    lemma_add_mult8(l.sem_status as int, r8(WORD_SIZE * c));
    lemma_add_mult8(l.proc_trace as int, r8(PROC_TRACE_SIZE * l.nb_proc_trace));
    lemma_add_mult8(l.a_time as int, r8(TIMESPEC_SIZE * e));
    lemma_add_mult8(l.write_time as int, r8(TIMESPEC_SIZE * e));
    lemma_add_mult8(l.cnt as int, r8(CNT_SIZE * e));
    lemma_add_mult8(l.cb_md as int, r8(CB_FRAME_METADATA_SIZE * f));
    lemma_add_mult8(l.cb_data as int, r8(a * f));
}

/// The sum of two multiples of 8 is a multiple of 8.
proof fn lemma_add_mult8(x: int, y: int)
    ensures
        x % 8 == 0 && y % 8 == 0 ==> (x + y) % 8 == 0,
{
}

/// A rounded-up product of sizes is a non-negative multiple of 8.
pub proof fn lemma_r8_nonneg(x: int, y: int)
    requires
        x >= 0,
        y >= 0,
    ensures
        r8(x * y) >= 0,
        r8(x * y) % 8 == 0,
{
    let p = x * y;
    assert(p >= 0) by (nonlinear_arith)
        requires
            x >= 0,
            y >= 0,
            p == x * y,
    ;
    assert(r8(p) == (p + 7) / 8 * 8);
    assert(((p + 7) / 8 * 8) % 8 == 0) by (nonlinear_arith)
        requires
            p >= 0,
    ;
}

} // verus!
