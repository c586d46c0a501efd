//! The fixed-size structures stored in an image's memory, each with the exact
//! byte representation (little-endian, C layout) that ImageStreamIO gives it.
use crate::encoding::{
    dec_chars, dec_i32, enc_chars, enc_i32, enc_i64, lemma_integer_encodings_roundtrip, push_all,
    push_bytes, push_chars, push_i32, push_i64, push_u16, push_u32, push_u64, push_u8, push_zeros,
    read_chars, read_i32, read_u16, read_u32, read_u64, repeat_bytes, zeros,
};
use vstd::bytes::*;
use vstd::prelude::*;

verus! {

broadcast use vstd::seq::group_seq_axioms;

/// A value with a fixed byte representation in an image's memory.
pub trait Byteable: Sized {
    /// The bytes that represent the value.
    spec fn spec_to_bytes(self) -> Seq<u8>;

    /// The bytes that represent the value.
    fn to_bytes(self) -> (r: Vec<u8>)
        ensures
            r@ == self.spec_to_bytes(),
    ;
}

/// The concatenated representations of the values of a sequence, in order.
pub open spec fn concat_bytes<T: Byteable>(s: Seq<T>) -> Seq<u8> {
    s.map_values(|x: T| x.spec_to_bytes()).flatten()
}

impl<T: Byteable + Copy> Byteable for Vec<T> {
    open spec fn spec_to_bytes(self) -> Seq<u8> {
        concat_bytes(self@)
    }

    /// The representations of the elements, one after the other.
    fn to_bytes(self) -> (r: Vec<u8>) {
        let mut out: Vec<u8> = Vec::new();
        let mut i: usize = 0;
        while i < self.len()
            invariant
                i <= self@.len(),
                out@ == concat_bytes(self@.take(i as int)),
            decreases self@.len() - i,
        {
            let x = self[i];
            push_all(&mut out, x.to_bytes());
            proof {
                let f = |x: T| x.spec_to_bytes();
                assert(self@.take(i + 1) =~= self@.take(i as int).push(self@[i as int]));
                assert(self@.take(i + 1).map_values(f) =~= self@.take(i as int).map_values(f).push(
                    f(self@[i as int]),
                ));
                self@.take(i as int).map_values(f).lemma_flatten_push(f(self@[i as int]));
            }
            i = i + 1;
        }
        assert(self@.take(self@.len() as int) =~= self@);
        out
    }
}

/// The representation of two sequences one after the other is the
/// representation of the first followed by that of the second, and an empty
/// sequence is represented by no bytes.
pub proof fn lemma_concat_bytes_append<T: Byteable>(a: Seq<T>, b: Seq<T>)
    ensures
        concat_bytes(a + b) == concat_bytes(a) + concat_bytes(b),
        concat_bytes(Seq::<T>::empty()) == Seq::<u8>::empty(),
{
    let f = |x: T| x.spec_to_bytes();
    assert((a + b).map_values(f) =~= a.map_values(f) + b.map_values(f));
    vstd::seq_lib::lemma_flatten_concat(a.map_values(f), b.map_values(f));
    assert(Seq::<T>::empty().map_values(f) =~= Seq::<Seq<u8>>::empty());
}

/// `n` copies of one value are represented by `n` copies of its bytes.
pub proof fn lemma_concat_bytes_repeat<T: Byteable>(x: T, n: nat)
    ensures
        concat_bytes(Seq::new(n, |i: int| x)) == repeat_bytes(x.spec_to_bytes(), n),
    decreases n,
{
    let f = |y: T| y.spec_to_bytes();
    if n == 0 {
        assert(Seq::new(0, |i: int| x) =~= Seq::<T>::empty());
        lemma_concat_bytes_append(Seq::<T>::empty(), Seq::<T>::empty());
    } else {
        let m = (n - 1) as nat;
        lemma_concat_bytes_repeat(x, m);
        assert(Seq::new(n, |i: int| x) =~= Seq::new(m, |i: int| x) + seq![x]);
        lemma_concat_bytes_append(Seq::new(m, |i: int| x), seq![x]);
        assert(seq![x].map_values(f) =~= seq![x.spec_to_bytes()]);
        seq![x].map_values(f).lemma_flatten_one_element();
    }
}

/// A timestamp: seconds and nanoseconds.
#[derive(Debug, Clone, Copy, PartialEq, Eq, Structural)]
pub struct TimeSpec {
    pub tv_sec: u64,
    pub tv_nsec: u64,
}

impl TimeSpec {
    /// The zero timestamp.
    pub fn new() -> (r: Self)
        ensures
            r == (TimeSpec { tv_sec: 0, tv_nsec: 0 }),
    {
        Self { tv_sec: 0, tv_nsec: 0 }
    }
}

impl Default for TimeSpec {
    fn default() -> (r: Self)
        ensures
            r == (TimeSpec { tv_sec: 0, tv_nsec: 0 }),
    {
        Self::new()
    }
}

/// The 16 bytes of a timestamp.
pub open spec fn enc_timespec(t: TimeSpec) -> Seq<u8> {
    spec_u64_to_le_bytes(t.tv_sec) + spec_u64_to_le_bytes(t.tv_nsec)
}

impl Byteable for TimeSpec {
    open spec fn spec_to_bytes(self) -> Seq<u8> {
        enc_timespec(self)
    }

    fn to_bytes(self) -> (r: Vec<u8>) {
        let mut v: Vec<u8> = Vec::new();
        push_u64(&mut v, self.tv_sec);
        push_u64(&mut v, self.tv_nsec);
        v
    }
}

/// A counter.
#[derive(Debug, Clone, Copy, PartialEq, Eq, Structural)]
pub struct Cnt {
    pub cnt: u64,
}

impl Cnt {
    /// A counter at zero.
    pub fn new() -> (r: Self)
        ensures
            r.cnt == 0,
    {
        Self { cnt: 0 }
    }
}

impl Default for Cnt {
    fn default() -> (r: Self)
        ensures
            r.cnt == 0,
    {
        Self::new()
    }
}

impl Byteable for Cnt {
    open spec fn spec_to_bytes(self) -> Seq<u8> {
        spec_u64_to_le_bytes(self.cnt)
    }

    fn to_bytes(self) -> (r: Vec<u8>) {
        let mut v: Vec<u8> = Vec::new();
        push_u64(&mut v, self.cnt);
        v
    }
}

/// The PID of the last reader or writer of a semaphore.
#[derive(Debug, Clone, Copy, PartialEq, Eq, Structural)]
pub struct SemPid {
    pub pid: i32,
}

impl SemPid {
    /// No process: PID -1, as ImageStreamIO initialises it.
    pub fn new() -> (r: Self)
        ensures
            r.pid == -1,
    {
        Self { pid: -1 }
    }
}

impl Default for SemPid {
    fn default() -> (r: Self)
        ensures
            r.pid == -1,
    {
        Self::new()
    }
}

impl Byteable for SemPid {
    open spec fn spec_to_bytes(self) -> Seq<u8> {
        enc_i32(self.pid)
    }

    fn to_bytes(self) -> (r: Vec<u8>) {
        let mut v: Vec<u8> = Vec::new();
        push_i32(&mut v, self.pid);
        v
    }
}

/// The control word of a semaphore, written by the stream's writer.
#[derive(Debug, Clone, Copy, PartialEq, Eq, Structural)]
pub struct SemCtrl {
    pub ctrl: u32,
}

impl SemCtrl {
    /// Control word zero.
    pub fn new() -> (r: Self)
        ensures
            r.ctrl == 0,
    {
        Self { ctrl: 0 }
    }
}

impl Default for SemCtrl {
    fn default() -> (r: Self)
        ensures
            r.ctrl == 0,
    {
        Self::new()
    }
}

impl Byteable for SemCtrl {
    open spec fn spec_to_bytes(self) -> Seq<u8> {
        spec_u32_to_le_bytes(self.ctrl)
    }

    fn to_bytes(self) -> (r: Vec<u8>) {
        let mut v: Vec<u8> = Vec::new();
        push_u32(&mut v, self.ctrl);
        v
    }
}

/// The status word of a semaphore, written by the stream's readers.
#[derive(Debug, Clone, Copy, PartialEq, Eq, Structural)]
pub struct SemStatus {
    pub status: u32,
}

impl SemStatus {
    /// Status word zero.
    pub fn new() -> (r: Self)
        ensures
            r.status == 0,
    {
        Self { status: 0 }
    }
}

impl Default for SemStatus {
    fn default() -> (r: Self)
        ensures
            r.status == 0,
    {
        Self::new()
    }
}

impl Byteable for SemStatus {
    open spec fn spec_to_bytes(self) -> Seq<u8> {
        spec_u32_to_le_bytes(self.status)
    }

    fn to_bytes(self) -> (r: Vec<u8>) {
        let mut v: Vec<u8> = Vec::new();
        push_u32(&mut v, self.status);
        v
    }
}

/// Trigger and timing information of a process that writes the stream.
#[derive(Debug, Clone, Copy, PartialEq, Eq, Structural)]
pub struct StreamProcTrace {
    pub triggermode: i32,
    /// PID of process writing stream. 0 if no entry
    pub procwrite_pid: i32,
    /// trigger stream inode
    pub trigger_inode: i64,
    /// timestamp process triggered
    pub ts_procstart: TimeSpec,
    /// timestamp write this stream
    pub ts_streamupdate: TimeSpec,
    /// trigger semaphore
    pub trigsemindex: i32,
    pub triggerstatus: i32,
    /// trigger stream cnt0 value at trigger
    pub cnt0: u64,
}

impl StreamProcTrace {
    /// An empty trace: all zero, but the trigger semaphore index, which is -1.
    pub fn new() -> (r: Self)
        ensures
            r == (StreamProcTrace {
                triggermode: 0,
                procwrite_pid: 0,
                trigger_inode: 0,
                ts_procstart: TimeSpec { tv_sec: 0, tv_nsec: 0 },
                ts_streamupdate: TimeSpec { tv_sec: 0, tv_nsec: 0 },
                trigsemindex: -1i32,
                triggerstatus: 0,
                cnt0: 0,
            }),
    {
        Self {
            triggermode: 0,
            procwrite_pid: 0,
            trigger_inode: 0,
            ts_procstart: TimeSpec::new(),
            ts_streamupdate: TimeSpec::new(),
            trigsemindex: -1,
            triggerstatus: 0,
            cnt0: 0,
        }
    }
}

impl Default for StreamProcTrace {
    fn default() -> (r: Self)
        ensures
            r == (StreamProcTrace {
                triggermode: 0,
                procwrite_pid: 0,
                trigger_inode: 0,
                ts_procstart: TimeSpec { tv_sec: 0, tv_nsec: 0 },
                ts_streamupdate: TimeSpec { tv_sec: 0, tv_nsec: 0 },
                trigsemindex: -1i32,
                triggerstatus: 0,
                cnt0: 0,
            }),
    {
        Self::new()
    }
}

impl Byteable for StreamProcTrace {
    open spec fn spec_to_bytes(self) -> Seq<u8> {
        enc_i32(self.triggermode) + enc_i32(self.procwrite_pid) + enc_i64(self.trigger_inode)
            + enc_timespec(self.ts_procstart) + enc_timespec(self.ts_streamupdate) + enc_i32(
            self.trigsemindex,
        ) + enc_i32(self.triggerstatus) + spec_u64_to_le_bytes(self.cnt0)
    }

    fn to_bytes(self) -> (r: Vec<u8>) {
        let mut v: Vec<u8> = Vec::new();
        push_i32(&mut v, self.triggermode);
        push_i32(&mut v, self.procwrite_pid);
        push_i64(&mut v, self.trigger_inode);
        push_all(&mut v, self.ts_procstart.to_bytes());
        push_all(&mut v, self.ts_streamupdate.to_bytes());
        push_i32(&mut v, self.trigsemindex);
        push_i32(&mut v, self.triggerstatus);
        push_u64(&mut v, self.cnt0);
        v
    }
}

/// Metadata of one frame of a circular buffer.
#[derive(Debug, Clone, Copy, PartialEq, Eq, Structural)]
pub struct CBFrameMetadata {
    pub cnt0: Cnt,
    pub cnt1: Cnt,
    pub atime: TimeSpec,
    pub writetime: TimeSpec,
}

impl CBFrameMetadata {
    /// Zero counters and zero timestamps.
    pub fn new() -> (r: Self)
        ensures
            r == (CBFrameMetadata {
                cnt0: Cnt { cnt: 0 },
                cnt1: Cnt { cnt: 0 },
                atime: TimeSpec { tv_sec: 0, tv_nsec: 0 },
                writetime: TimeSpec { tv_sec: 0, tv_nsec: 0 },
            }),
    {
        Self { cnt0: Cnt::new(), cnt1: Cnt::new(), atime: TimeSpec::new(), writetime: TimeSpec::new() }
    }
}

impl Default for CBFrameMetadata {
    fn default() -> (r: Self)
        ensures
            r == (CBFrameMetadata {
                cnt0: Cnt { cnt: 0 },
                cnt1: Cnt { cnt: 0 },
                atime: TimeSpec { tv_sec: 0, tv_nsec: 0 },
                writetime: TimeSpec { tv_sec: 0, tv_nsec: 0 },
            }),
    {
        Self::new()
    }
}

impl Byteable for CBFrameMetadata {
    open spec fn spec_to_bytes(self) -> Seq<u8> {
        spec_u64_to_le_bytes(self.cnt0.cnt) + spec_u64_to_le_bytes(self.cnt1.cnt) + enc_timespec(
            self.atime,
        ) + enc_timespec(self.writetime)
    }

    fn to_bytes(self) -> (r: Vec<u8>) {
        let mut v: Vec<u8> = Vec::new();
        push_all(&mut v, self.cnt0.to_bytes());
        push_all(&mut v, self.cnt1.to_bytes());
        push_all(&mut v, self.atime.to_bytes());
        push_all(&mut v, self.writetime.to_bytes());
        v
    }
}

/// The keyword-type tag of an unused keyword.
pub const KEYWORD_UNUSED: u8 = 78;

/// A keyword of an image: a name, a type tag (`N` unused, `L` long, `D`
/// double, `S` 16-character string), a 16-byte value whose meaning the tag
/// gives, a count and a comment.
#[derive(Clone, Copy)]
pub struct ImageKeyword {
    pub name: [u8; 16],
    /// N: unused, L: long, D: double, S: 16-char string
    pub keyword_type: u8,
    /// The raw bytes of the value: a little-endian integer or float in the
    /// first eight bytes, or a 16-character string.
    pub value: [u8; 16],
    pub cnt: u64,
    pub comment: [u8; 80],
}

impl ImageKeyword {
    /// An unused keyword: tag `N`, everything else zero.
    pub fn new() -> (r: Self)
        ensures
            r.name@ == Seq::new(16, |i: int| 0u8),
            r.keyword_type == KEYWORD_UNUSED,
            r.value@ == Seq::new(16, |i: int| 0u8),
            r.cnt == 0,
            r.comment@ == Seq::new(80, |i: int| 0u8),
    {
        let r = Self {
            name: [0u8; 16],
            keyword_type: KEYWORD_UNUSED,
            value: [0u8; 16],
            cnt: 0,
            comment: [0u8; 80],
        };
        assert(r.name@ =~= Seq::new(16, |i: int| 0u8));
        assert(r.value@ =~= Seq::new(16, |i: int| 0u8));
        assert(r.comment@ =~= Seq::new(80, |i: int| 0u8));
        r
    }
}

impl Default for ImageKeyword {
    fn default() -> (r: Self)
        ensures
            r.name@ == Seq::new(16, |i: int| 0u8),
            r.keyword_type == KEYWORD_UNUSED,
            r.value@ == Seq::new(16, |i: int| 0u8),
            r.cnt == 0,
            r.comment@ == Seq::new(80, |i: int| 0u8),
    {
        Self::new()
    }
}

impl Byteable for ImageKeyword {
    open spec fn spec_to_bytes(self) -> Seq<u8> {
        self.name@ + seq![self.keyword_type] + zeros(7) + self.value@ + spec_u64_to_le_bytes(
            self.cnt,
        ) + self.comment@
    }

    fn to_bytes(self) -> (r: Vec<u8>) {
        let mut v: Vec<u8> = Vec::new();
        push_bytes(&mut v, &self.name);
        push_u8(&mut v, self.keyword_type);
        push_zeros(&mut v, 7);
        push_bytes(&mut v, &self.value);
        push_u64(&mut v, self.cnt);
        push_bytes(&mut v, &self.comment);
        v
    }
}

/// Length of an image name, terminating NUL included.
pub const STRINGMAXLEN_IMAGE_NAME: usize = 80;

/// Size in bytes of the image metadata in memory.
pub const METADATA_SIZE: usize = 384;

/// Byte offset of the write flag within the metadata.
pub const WRITE_FLAG_OFFSET: usize = 288;

/// The metadata of an image: its identity, shape, type, timestamps,
/// counters and the sizes of its other regions.
#[derive(Debug, Clone, Copy, PartialEq)]
pub struct ImageMetadata {
    pub version: [i8; 32],
    /// Image name
    pub name: [i8; 80],
    /// Number of axes: 1, 2 or 3.
    pub naxis: u8,
    /// Image size along each axis
    pub size: [u32; 3],
    /// Number of elements in image
    pub nelement: u64,
    /// Data type code
    pub datatype: u8,
    /// Image type code
    pub imagetype: u64,
    pub creationtime: TimeSpec,
    pub lastaccesstime: TimeSpec,
    pub atime: TimeSpec,
    pub writetime: TimeSpec,
    /// PID of process that created the stream
    pub creator_pid: i32,
    /// PID of process owning the stream
    pub owner_pid: i32,
    /// stream is in shared memory
    pub shared: u8,
    /// inode number if shared memory
    pub inode: u64,
    /// -1 if in CPU memory, >=0 if in GPU memory on `location` device
    pub location: i8,
    /// 1 to log image (default); 0 : do not log: 2 : stop log
    pub status: u8,
    /// bitmask, encodes read/write permissions
    pub flag: u64,
    /// set to 1 to start logging
    pub logflag: u8,
    /// number of semaphores supported, specified at image creation
    pub sem: u16,
    /// number of streamproctrace entries
    pub nb_proc_trace: u16,
    /// counter (incremented if image is updated)
    pub cnt0: u64,
    /// in 3D rolling buffer image, this is the last slice written
    pub cnt1: u64,
    /// in cnt2-based syncronization, proceed until cnt0=cnt2
    pub cnt2: u64,
    /// 1 if image is being written
    pub write: u8,
    /// number of keywords
    pub nb_kw: u16,
    pub cb_size: u32,
    pub cb_index: u32,
    pub cb_cycle: u64,
    pub imdatamemsize: u64,
    pub cuda_mem_handle: [i8; 64],
}

/// Bytes 0..128: version, name, number of axes and size.
pub open spec fn metadata_bytes_a(md: ImageMetadata) -> Seq<u8> {
    enc_chars(md.version@) + enc_chars(md.name@) + seq![md.naxis] + zeros(3) + spec_u32_to_le_bytes(
        md.size[0],
    ) + spec_u32_to_le_bytes(md.size[1]) + spec_u32_to_le_bytes(md.size[2])
}

/// Bytes 128..216: element count, data type, image type and timestamps.
pub open spec fn metadata_bytes_b(md: ImageMetadata) -> Seq<u8> {
    spec_u64_to_le_bytes(md.nelement) + seq![md.datatype] + zeros(7) + spec_u64_to_le_bytes(
        md.imagetype,
    ) + enc_timespec(md.creationtime) + enc_timespec(md.lastaccesstime) + enc_timespec(md.atime)
        + enc_timespec(md.writetime)
}

/// Bytes 216..264: processes, sharing, flags and counts of semaphores and traces.
pub open spec fn metadata_bytes_c(md: ImageMetadata) -> Seq<u8> {
    enc_i32(md.creator_pid) + enc_i32(md.owner_pid) + seq![md.shared] + zeros(7)
        + spec_u64_to_le_bytes(md.inode) + seq![md.location as u8] + seq![md.status] + zeros(6)
        + spec_u64_to_le_bytes(md.flag) + seq![md.logflag] + zeros(1) + spec_u16_to_le_bytes(md.sem)
        + spec_u16_to_le_bytes(md.nb_proc_trace) + zeros(2)
}

/// Bytes 264..384: counters, write flag, keyword count, circular buffer and
/// data size.
pub open spec fn metadata_bytes_d(md: ImageMetadata) -> Seq<u8> {
    spec_u64_to_le_bytes(md.cnt0) + spec_u64_to_le_bytes(md.cnt1) + spec_u64_to_le_bytes(md.cnt2)
        + seq![md.write] + zeros(1) + spec_u16_to_le_bytes(md.nb_kw) + spec_u32_to_le_bytes(
        md.cb_size,
    ) + spec_u32_to_le_bytes(md.cb_index) + zeros(4) + spec_u64_to_le_bytes(md.cb_cycle)
        + spec_u64_to_le_bytes(md.imdatamemsize) + enc_chars(md.cuda_mem_handle@)
}

/// The 384 bytes that represent image metadata (padding bytes are zero).
pub open spec fn spec_metadata_bytes(md: ImageMetadata) -> Seq<u8> {
    metadata_bytes_a(md) + metadata_bytes_b(md) + metadata_bytes_c(md) + metadata_bytes_d(md)
}

/// The timestamp stored at `off` in `s`.
pub open spec fn dec_timespec(s: Seq<u8>, off: int) -> TimeSpec {
    TimeSpec {
        tv_sec: spec_u64_from_le_bytes(s.subrange(off, off + 8)),
        tv_nsec: spec_u64_from_le_bytes(s.subrange(off + 8, off + 16)),
    }
}

/// `md` is the metadata that the first 384 bytes of `s` represent: each field
/// is decoded from its offset.
pub open spec fn metadata_read_from(md: ImageMetadata, s: Seq<u8>) -> bool {
    &&& md.version@ == dec_chars(s.subrange(0, 32))
    &&& md.name@ == dec_chars(s.subrange(32, 112))
    &&& md.naxis == s[112]
    &&& md.size[0] == spec_u32_from_le_bytes(s.subrange(116, 120))
    &&& md.size[1] == spec_u32_from_le_bytes(s.subrange(120, 124))
    &&& md.size[2] == spec_u32_from_le_bytes(s.subrange(124, 128))
    &&& md.nelement == spec_u64_from_le_bytes(s.subrange(128, 136))
    &&& md.datatype == s[136]
    &&& md.imagetype == spec_u64_from_le_bytes(s.subrange(144, 152))
    &&& md.creationtime == dec_timespec(s, 152)
    &&& md.lastaccesstime == dec_timespec(s, 168)
    &&& md.atime == dec_timespec(s, 184)
    &&& md.writetime == dec_timespec(s, 200)
    &&& md.creator_pid == dec_i32(s.subrange(216, 220))
    &&& md.owner_pid == dec_i32(s.subrange(220, 224))
    &&& md.shared == s[224]
    &&& md.inode == spec_u64_from_le_bytes(s.subrange(232, 240))
    &&& md.location == s[240] as i8
    &&& md.status == s[241]
    &&& md.flag == spec_u64_from_le_bytes(s.subrange(248, 256))
    &&& md.logflag == s[256]
    &&& md.sem == spec_u16_from_le_bytes(s.subrange(258, 260))
    &&& md.nb_proc_trace == spec_u16_from_le_bytes(s.subrange(260, 262))
    &&& md.cnt0 == spec_u64_from_le_bytes(s.subrange(264, 272))
    &&& md.cnt1 == spec_u64_from_le_bytes(s.subrange(272, 280))
    &&& md.cnt2 == spec_u64_from_le_bytes(s.subrange(280, 288))
    &&& md.write == s[288]
    &&& md.nb_kw == spec_u16_from_le_bytes(s.subrange(290, 292))
    &&& md.cb_size == spec_u32_from_le_bytes(s.subrange(292, 296))
    &&& md.cb_index == spec_u32_from_le_bytes(s.subrange(296, 300))
    &&& md.cb_cycle == spec_u64_from_le_bytes(s.subrange(304, 312))
    &&& md.imdatamemsize == spec_u64_from_le_bytes(s.subrange(312, 320))
    &&& md.cuda_mem_handle@ == dec_chars(s.subrange(320, 384))
}

impl ImageMetadata {
    /// The 384-byte representation of the metadata.
    pub fn to_bytes(self) -> (r: Vec<u8>)
        ensures
            r@ == spec_metadata_bytes(self),
            r@.len() == METADATA_SIZE,
    {
        proof {
            lemma_integer_encodings_roundtrip();
        }
        let mut v: Vec<u8> = Vec::new();
        push_chars(&mut v, &self.version);
        push_chars(&mut v, &self.name);
        push_u8(&mut v, self.naxis);
        push_zeros(&mut v, 3);
        push_u32(&mut v, self.size[0]);
        push_u32(&mut v, self.size[1]);
        push_u32(&mut v, self.size[2]);
        let ghost a = v@;
        push_u64(&mut v, self.nelement);
        push_u8(&mut v, self.datatype);
        push_zeros(&mut v, 7);
        push_u64(&mut v, self.imagetype);
        push_all(&mut v, self.creationtime.to_bytes());
        push_all(&mut v, self.lastaccesstime.to_bytes());
        push_all(&mut v, self.atime.to_bytes());
        push_all(&mut v, self.writetime.to_bytes());
        let ghost b = v@;
        push_i32(&mut v, self.creator_pid);
        push_i32(&mut v, self.owner_pid);
        push_u8(&mut v, self.shared);
        push_zeros(&mut v, 7);
        push_u64(&mut v, self.inode);
        push_u8(&mut v, self.location as u8);
        push_u8(&mut v, self.status);
        push_zeros(&mut v, 6);
        push_u64(&mut v, self.flag);
        push_u8(&mut v, self.logflag);
        push_zeros(&mut v, 1);
        push_u16(&mut v, self.sem);
        push_u16(&mut v, self.nb_proc_trace);
        push_zeros(&mut v, 2);
        let ghost c = v@;
        push_u64(&mut v, self.cnt0);
        push_u64(&mut v, self.cnt1);
        push_u64(&mut v, self.cnt2);
        push_u8(&mut v, self.write);
        push_zeros(&mut v, 1);
        push_u16(&mut v, self.nb_kw);
        push_u32(&mut v, self.cb_size);
        push_u32(&mut v, self.cb_index);
        push_zeros(&mut v, 4);
        push_u64(&mut v, self.cb_cycle);
        push_u64(&mut v, self.imdatamemsize);
        push_chars(&mut v, &self.cuda_mem_handle);
        assert(a =~= metadata_bytes_a(self));
        assert(b =~= metadata_bytes_a(self) + metadata_bytes_b(self));
        assert(c =~= metadata_bytes_a(self) + metadata_bytes_b(self) + metadata_bytes_c(self));
        assert(v@ =~= spec_metadata_bytes(self));
        v
    }

    /// The metadata represented by the first 384 bytes of `b`.
    pub fn from_bytes(b: &[u8]) -> (r: ImageMetadata)
        requires
            b@.len() >= METADATA_SIZE,
        ensures
            metadata_read_from(r, b@),
    {
        let r = ImageMetadata {
            version: read_chars::<32>(b, 0),
            name: read_chars::<80>(b, 32),
            naxis: b[112],
            size: [read_u32(b, 116), read_u32(b, 120), read_u32(b, 124)],
            nelement: read_u64(b, 128),
            datatype: b[136],
            imagetype: read_u64(b, 144),
            creationtime: TimeSpec { tv_sec: read_u64(b, 152), tv_nsec: read_u64(b, 160) },
            lastaccesstime: TimeSpec { tv_sec: read_u64(b, 168), tv_nsec: read_u64(b, 176) },
            atime: TimeSpec { tv_sec: read_u64(b, 184), tv_nsec: read_u64(b, 192) },
            writetime: TimeSpec { tv_sec: read_u64(b, 200), tv_nsec: read_u64(b, 208) },
            creator_pid: read_i32(b, 216),
            owner_pid: read_i32(b, 220),
            shared: b[224],
            inode: read_u64(b, 232),
            location: b[240] as i8,
            status: b[241],
            flag: read_u64(b, 248),
            logflag: b[256],
            sem: read_u16(b, 258),
            nb_proc_trace: read_u16(b, 260),
            cnt0: read_u64(b, 264),
            cnt1: read_u64(b, 272),
            cnt2: read_u64(b, 280),
            write: b[288],
            nb_kw: read_u16(b, 290),
            cb_size: read_u32(b, 292),
            cb_index: read_u32(b, 296),
            cb_cycle: read_u64(b, 304),
            imdatamemsize: read_u64(b, 312),
            cuda_mem_handle: read_chars::<64>(b, 320),
        };
        r
    }
}

/// The bytes of every piece of the metadata sit at the offset from which
/// `metadata_read_from` decodes it.
proof fn lemma_metadata_pieces(md: ImageMetadata)
    ensures
        ({
            let s = spec_metadata_bytes(md);
            &&& s.len() == METADATA_SIZE
            &&& s.subrange(0, 32) == enc_chars(md.version@)
            &&& s.subrange(32, 112) == enc_chars(md.name@)
            &&& s[112] == md.naxis
            &&& s.subrange(116, 120) == spec_u32_to_le_bytes(md.size[0])
            &&& s.subrange(120, 124) == spec_u32_to_le_bytes(md.size[1])
            &&& s.subrange(124, 128) == spec_u32_to_le_bytes(md.size[2])
            &&& s.subrange(128, 136) == spec_u64_to_le_bytes(md.nelement)
            &&& s[136] == md.datatype
            &&& s.subrange(144, 152) == spec_u64_to_le_bytes(md.imagetype)
            &&& s.subrange(152, 160) == spec_u64_to_le_bytes(md.creationtime.tv_sec)
            &&& s.subrange(160, 168) == spec_u64_to_le_bytes(md.creationtime.tv_nsec)
            &&& s.subrange(168, 176) == spec_u64_to_le_bytes(md.lastaccesstime.tv_sec)
            &&& s.subrange(176, 184) == spec_u64_to_le_bytes(md.lastaccesstime.tv_nsec)
            &&& s.subrange(184, 192) == spec_u64_to_le_bytes(md.atime.tv_sec)
            &&& s.subrange(192, 200) == spec_u64_to_le_bytes(md.atime.tv_nsec)
            &&& s.subrange(200, 208) == spec_u64_to_le_bytes(md.writetime.tv_sec)
            &&& s.subrange(208, 216) == spec_u64_to_le_bytes(md.writetime.tv_nsec)
            &&& s.subrange(216, 220) == enc_i32(md.creator_pid)
            &&& s.subrange(220, 224) == enc_i32(md.owner_pid)
            &&& s[224] == md.shared
            &&& s.subrange(232, 240) == spec_u64_to_le_bytes(md.inode)
            &&& s[240] == md.location as u8
            &&& s[241] == md.status
            &&& s.subrange(248, 256) == spec_u64_to_le_bytes(md.flag)
            &&& s[256] == md.logflag
            &&& s.subrange(258, 260) == spec_u16_to_le_bytes(md.sem)
            &&& s.subrange(260, 262) == spec_u16_to_le_bytes(md.nb_proc_trace)
            &&& s.subrange(264, 272) == spec_u64_to_le_bytes(md.cnt0)
            &&& s.subrange(272, 280) == spec_u64_to_le_bytes(md.cnt1)
            &&& s.subrange(280, 288) == spec_u64_to_le_bytes(md.cnt2)
            &&& s[288] == md.write
            &&& s.subrange(290, 292) == spec_u16_to_le_bytes(md.nb_kw)
            &&& s.subrange(292, 296) == spec_u32_to_le_bytes(md.cb_size)
            &&& s.subrange(296, 300) == spec_u32_to_le_bytes(md.cb_index)
            &&& s.subrange(304, 312) == spec_u64_to_le_bytes(md.cb_cycle)
            &&& s.subrange(312, 320) == spec_u64_to_le_bytes(md.imdatamemsize)
            &&& s.subrange(320, 384) == enc_chars(md.cuda_mem_handle@)
        }),
{
    lemma_integer_encodings_roundtrip();
    let a = metadata_bytes_a(md);
    let b = metadata_bytes_b(md);
    let c = metadata_bytes_c(md);
    let d = metadata_bytes_d(md);
    let s = spec_metadata_bytes(md);
    assert(a.len() == 128);
    assert(b.len() == 88);
    assert(c.len() == 48);
    assert(d.len() == 120);
    assert(s.subrange(0, 128) =~= a);
    assert(s.subrange(128, 216) =~= b);
    assert(s.subrange(216, 264) =~= c);
    assert(s.subrange(264, 384) =~= d);
    assert(a.subrange(0, 32) =~= enc_chars(md.version@));
    assert(a.subrange(32, 112) =~= enc_chars(md.name@));
    assert(a.subrange(116, 120) =~= spec_u32_to_le_bytes(md.size[0]));
    assert(a.subrange(120, 124) =~= spec_u32_to_le_bytes(md.size[1]));
    assert(a.subrange(124, 128) =~= spec_u32_to_le_bytes(md.size[2]));
    assert(s.subrange(0, 32) =~= a.subrange(0, 32));
    assert(s.subrange(32, 112) =~= a.subrange(32, 112));
    assert(s.subrange(116, 120) =~= a.subrange(116, 120));
    assert(s.subrange(120, 124) =~= a.subrange(120, 124));
    assert(s.subrange(124, 128) =~= a.subrange(124, 128));
    assert(b.subrange(0, 8) =~= spec_u64_to_le_bytes(md.nelement));
    assert(b.subrange(16, 24) =~= spec_u64_to_le_bytes(md.imagetype));
    assert(b.subrange(24, 32) =~= spec_u64_to_le_bytes(md.creationtime.tv_sec));
    assert(b.subrange(32, 40) =~= spec_u64_to_le_bytes(md.creationtime.tv_nsec));
    assert(b.subrange(40, 48) =~= spec_u64_to_le_bytes(md.lastaccesstime.tv_sec));
    assert(b.subrange(48, 56) =~= spec_u64_to_le_bytes(md.lastaccesstime.tv_nsec));
    assert(b.subrange(56, 64) =~= spec_u64_to_le_bytes(md.atime.tv_sec));
    assert(b.subrange(64, 72) =~= spec_u64_to_le_bytes(md.atime.tv_nsec));
    assert(b.subrange(72, 80) =~= spec_u64_to_le_bytes(md.writetime.tv_sec));
    assert(b.subrange(80, 88) =~= spec_u64_to_le_bytes(md.writetime.tv_nsec));
    assert(s.subrange(128, 136) =~= b.subrange(0, 8));
    assert(s.subrange(144, 152) =~= b.subrange(16, 24));
    assert(s.subrange(152, 160) =~= b.subrange(24, 32));
    assert(s.subrange(160, 168) =~= b.subrange(32, 40));
    assert(s.subrange(168, 176) =~= b.subrange(40, 48));
    assert(s.subrange(176, 184) =~= b.subrange(48, 56));
    assert(s.subrange(184, 192) =~= b.subrange(56, 64));
    assert(s.subrange(192, 200) =~= b.subrange(64, 72));
    assert(s.subrange(200, 208) =~= b.subrange(72, 80));
    assert(s.subrange(208, 216) =~= b.subrange(80, 88));
    assert(c.subrange(0, 4) =~= enc_i32(md.creator_pid));
    assert(c.subrange(4, 8) =~= enc_i32(md.owner_pid));
    assert(c.subrange(16, 24) =~= spec_u64_to_le_bytes(md.inode));
    assert(c.subrange(32, 40) =~= spec_u64_to_le_bytes(md.flag));
    assert(c.subrange(42, 44) =~= spec_u16_to_le_bytes(md.sem));
    assert(c.subrange(44, 46) =~= spec_u16_to_le_bytes(md.nb_proc_trace));
    assert(s.subrange(216, 220) =~= c.subrange(0, 4));
    assert(s.subrange(220, 224) =~= c.subrange(4, 8));
    assert(s.subrange(232, 240) =~= c.subrange(16, 24));
    assert(s.subrange(248, 256) =~= c.subrange(32, 40));
    assert(s.subrange(258, 260) =~= c.subrange(42, 44));
    assert(s.subrange(260, 262) =~= c.subrange(44, 46));
    assert(d.subrange(0, 8) =~= spec_u64_to_le_bytes(md.cnt0));
    assert(d.subrange(8, 16) =~= spec_u64_to_le_bytes(md.cnt1));
    assert(d.subrange(16, 24) =~= spec_u64_to_le_bytes(md.cnt2));
    assert(d.subrange(26, 28) =~= spec_u16_to_le_bytes(md.nb_kw));
    assert(d.subrange(28, 32) =~= spec_u32_to_le_bytes(md.cb_size));
    assert(d.subrange(32, 36) =~= spec_u32_to_le_bytes(md.cb_index));
    assert(d.subrange(40, 48) =~= spec_u64_to_le_bytes(md.cb_cycle));
    assert(d.subrange(48, 56) =~= spec_u64_to_le_bytes(md.imdatamemsize));
    assert(d.subrange(56, 120) =~= enc_chars(md.cuda_mem_handle@));
    assert(s.subrange(264, 272) =~= d.subrange(0, 8));
    assert(s.subrange(272, 280) =~= d.subrange(8, 16));
    assert(s.subrange(280, 288) =~= d.subrange(16, 24));
    assert(s.subrange(290, 292) =~= d.subrange(26, 28));
    assert(s.subrange(292, 296) =~= d.subrange(28, 32));
    assert(s.subrange(296, 300) =~= d.subrange(32, 36));
    assert(s.subrange(304, 312) =~= d.subrange(40, 48));
    assert(s.subrange(312, 320) =~= d.subrange(48, 56));
    assert(s.subrange(320, 384) =~= d.subrange(56, 120));
}

/// Reading back the representation of metadata gives that metadata: any
/// metadata read from `spec_metadata_bytes(md)` is `md` itself.
pub proof fn lemma_metadata_roundtrip(md: ImageMetadata, r: ImageMetadata)
    requires
        metadata_read_from(r, spec_metadata_bytes(md)),
    ensures
        r == md,
{
    lemma_integer_encodings_roundtrip();
    lemma_metadata_pieces(md);
    assert(r.version =~= md.version);
    assert(r.name =~= md.name);
    assert(r.size =~= md.size);
    assert(r.cuda_mem_handle =~= md.cuda_mem_handle);
    let l = md.location;
    assert((l as u8) as i8 == l) by (bit_vector);
}

/// Whether `md` is what `s` holds depends only on the first 384 bytes of `s`.
pub proof fn lemma_metadata_read_prefix(md: ImageMetadata, s: Seq<u8>)
    requires
        s.len() >= METADATA_SIZE,
    ensures
        metadata_read_from(md, s) <==> metadata_read_from(md, s.subrange(0, METADATA_SIZE as int)),
{
    let t = s.subrange(0, METADATA_SIZE as int);
    assert(t.subrange(0, 32) =~= s.subrange(0, 32));
    assert(t.subrange(32, 112) =~= s.subrange(32, 112));
    assert(t.subrange(116, 120) =~= s.subrange(116, 120));
    assert(t.subrange(120, 124) =~= s.subrange(120, 124));
    assert(t.subrange(124, 128) =~= s.subrange(124, 128));
    assert(t.subrange(128, 136) =~= s.subrange(128, 136));
    assert(t.subrange(144, 152) =~= s.subrange(144, 152));
    assert(t.subrange(152, 160) =~= s.subrange(152, 160));
    assert(t.subrange(160, 168) =~= s.subrange(160, 168));
    assert(t.subrange(168, 176) =~= s.subrange(168, 176));
    assert(t.subrange(176, 184) =~= s.subrange(176, 184));
    assert(t.subrange(184, 192) =~= s.subrange(184, 192));
    assert(t.subrange(192, 200) =~= s.subrange(192, 200));
    assert(t.subrange(200, 208) =~= s.subrange(200, 208));
    assert(t.subrange(208, 216) =~= s.subrange(208, 216));
    assert(t.subrange(216, 220) =~= s.subrange(216, 220));
    assert(t.subrange(220, 224) =~= s.subrange(220, 224));
    assert(t.subrange(232, 240) =~= s.subrange(232, 240));
    assert(t.subrange(248, 256) =~= s.subrange(248, 256));
    assert(t.subrange(258, 260) =~= s.subrange(258, 260));
    assert(t.subrange(260, 262) =~= s.subrange(260, 262));
    assert(t.subrange(264, 272) =~= s.subrange(264, 272));
    assert(t.subrange(272, 280) =~= s.subrange(272, 280));
    assert(t.subrange(280, 288) =~= s.subrange(280, 288));
    assert(t.subrange(290, 292) =~= s.subrange(290, 292));
    assert(t.subrange(292, 296) =~= s.subrange(292, 296));
    assert(t.subrange(296, 300) =~= s.subrange(296, 300));
    assert(t.subrange(304, 312) =~= s.subrange(304, 312));
    assert(t.subrange(312, 320) =~= s.subrange(312, 320));
    assert(t.subrange(320, 384) =~= s.subrange(320, 384));
}

/// The first 384 bytes of a sequence determine the metadata read from it.
pub proof fn lemma_metadata_read_unique(a: ImageMetadata, b: ImageMetadata, s: Seq<u8>)
    requires
        metadata_read_from(a, s),
        metadata_read_from(b, s),
    ensures
        a == b,
{
    assert(a.version =~= b.version);
    assert(a.name =~= b.name);
    assert(a.size =~= b.size);
    assert(a.cuda_mem_handle =~= b.cuda_mem_handle);
}

/// Metadata is what its own representation holds.
pub proof fn lemma_metadata_bytes_read(md: ImageMetadata)
    ensures
        metadata_read_from(md, spec_metadata_bytes(md)),
{
    lemma_integer_encodings_roundtrip();
    lemma_metadata_pieces(md);
    let l = md.location;
    assert((l as u8) as i8 == l) by (bit_vector);
}

/// Each structure takes the number of bytes ImageStreamIO gives it: 16 for a
/// timestamp, 8 for a counter, 4 for a PID, control or status word, 64 for a
/// process trace, 48 for circular-buffer frame metadata, 128 for a keyword
/// and 384 for image metadata.
pub proof fn lemma_struct_sizes(
    t: TimeSpec,
    c: Cnt,
    p: SemPid,
    k: SemCtrl,
    s: SemStatus,
    tr: StreamProcTrace,
    f: CBFrameMetadata,
    kw: ImageKeyword,
    md: ImageMetadata,
)
    ensures
        t.spec_to_bytes().len() == 16,
        c.spec_to_bytes().len() == 8,
        p.spec_to_bytes().len() == 4,
        k.spec_to_bytes().len() == 4,
        s.spec_to_bytes().len() == 4,
        tr.spec_to_bytes().len() == 64,
        f.spec_to_bytes().len() == 48,
        kw.spec_to_bytes().len() == 128,
        spec_metadata_bytes(md).len() == METADATA_SIZE,
{
    lemma_integer_encodings_roundtrip();
    lemma_metadata_pieces(md);
}

/// The representation of metadata takes 384 bytes.
pub proof fn lemma_metadata_bytes_len(md: ImageMetadata)
    ensures
        spec_metadata_bytes(md).len() == METADATA_SIZE,
{
    lemma_integer_encodings_roundtrip();
    lemma_metadata_pieces(md);
}

} // verus!
