//! Images of an ImageStreamIO stream: how they are opened, named, laid out in
//! memory, created and read back.
pub mod access;
pub mod byte_structs;
pub mod image;
pub mod layout;

use crate::datatype::{spec_datatype_code, spec_imagetype_code, spec_typesize, DataType, ImageType};
use crate::error::Error;
use crate::imagestreamio::byte_structs::{ImageMetadata, TimeSpec};
use vstd::prelude::*;
use vstd::string::StringExecFns;
use vstd::string::StringSliceAdditionalSpecFns;

verus! {

/// Length of the version string field of the metadata.
pub const VERSION_LEN: usize = 32;

/// The version of the image structure: "2.00", NUL-terminated.
pub const IMAGESTRUCT_VERSION: [u8; 5] = [50u8, 46u8, 48u8, 48u8, 0u8];

/// Number of semaphores of a new image.
pub const IMAGE_NB_SEMAPHORE: u16 = 10;

/// Number of process-trace entries of an image.
pub const IMAGE_NB_PROCTRACE: u16 = 10;

/// `x` rounded up to the next multiple of 8.
pub open spec fn spec_round_up_8(x: int) -> int {
    (x + 7) / 8 * 8
}

/// Rounds `x` up to the next multiple of 8.
pub fn round_up_8(x: usize) -> (r: usize)
    requires
        x <= usize::MAX - 7,
    ensures
        r == spec_round_up_8(x as int),
        r % 8 == 0,
        x <= r < x + 8,
{
    let y: usize = x + 7;
    let r: usize = y & !7usize;
    assert(r == y - y % 8 && r % 8 == 0) by (bit_vector)
        requires
            r == y & !7usize,
    ;
    r
}

/// How a shared-memory image file is to be opened.
#[derive(Debug, Clone, Copy, PartialEq, Eq, Structural)]
pub struct ShmImOpenOptions {
    /// An image will always be at least read
    pub read: bool,
    /// An image will often also be write
    pub write: bool,
    /// An image will never be append
    pub append: bool,
    /// An image should usually not be truncated, since this destroys the
    /// memory previously held by the image.
    pub truncate: bool,
    /// Open the image if it exists, or create it if it does not. The library
    /// rather tries to create an image exclusively and falls back to opening.
    pub create: bool,
    /// A new image will always be created with `create_new==true`.
    pub create_new: bool,
}

impl Default for ShmImOpenOptions {
    /// Read/write, without creating the image.
    fn default() -> (r: Self)
        ensures
            r == (ShmImOpenOptions {
                read: true,
                write: true,
                append: false,
                truncate: false,
                create: false,
                create_new: false,
            }),
    {
        ShmImOpenOptions {
            read: true,
            write: true,
            append: false,
            truncate: false,
            create: false,
            create_new: false,
        }
    }
}

impl ShmImOpenOptions {
    /// Allows the creation of a new image, failing if it already exists; a
    /// created image has length zero at first.
    pub fn create_new(&mut self) -> (r: &mut Self)
        ensures
            *r == (ShmImOpenOptions { create_new: true, truncate: true, ..*old(self) }),
            *final(self) == *final(r),
    {
        self.create_new = true;
        self.truncate = true;
        self
    }
}

/// The name field of an image named by `bytes`: its first 79 bytes, padded
/// with NULs to 80 characters, the last always NUL.
pub open spec fn spec_name_chars(bytes: Seq<u8>) -> Seq<i8> {
    Seq::new(80, |i: int| if i < 79 && i < bytes.len() { bytes[i] as i8 } else { 0i8 })
}

/// The version field: the version string, padded with NULs.
pub open spec fn spec_version_chars() -> Seq<i8> {
    Seq::new(32, |i: int| if i < 5 { IMAGESTRUCT_VERSION@[i] as i8 } else { 0i8 })
}

/// The NUL-terminated name field of an image called `name`.
pub fn image_name(name: &str) -> (r: [i8; 80])
    ensures
        r@ == spec_name_chars(name.spec_bytes()),
{
    let bytes = name.as_bytes();
    let mut out: [i8; 80] = [0i8; 80];
    let mut i: usize = 0;
    while i < 80 && i < bytes.len()
        invariant
            i <= 80,
            i <= bytes@.len(),
            bytes@ == name.spec_bytes(),
            out@.len() == 80,
            forall|j: int| 0 <= j < i ==> out@[j] == bytes@[j] as i8,
            forall|j: int| i <= j < 80 ==> out@[j] == 0i8,
        decreases 80 - i,
    {
        out[i] = bytes[i] as i8;
        i = i + 1;
    }
    out[79] = 0i8;
    assert(out@ =~= spec_name_chars(name.spec_bytes()));
    out
}

/// The version field of new metadata.
pub fn version() -> (r: [i8; 32])
    ensures
        r@ == spec_version_chars(),
{
    let mut out: [i8; 32] = [0i8; 32];
    let mut i: usize = 0;
    while i < 5
        invariant
            i <= 5,
            out@.len() == 32,
            forall|j: int| 0 <= j < i ==> out@[j] == IMAGESTRUCT_VERSION@[j] as i8,
            forall|j: int| i <= j < 32 ==> out@[j] == 0i8,
        decreases 5 - i,
    {
        out[i] = IMAGESTRUCT_VERSION[i] as i8;
        i = i + 1;
    }
    assert(out@ =~= spec_version_chars());
    out
}

/// The path of the shared-memory file of the image called `name`:
/// `/dev/shm/{name}.im.shm`.
pub fn sm_pname(name: &str) -> (r: String)
    ensures
        r@ == "/dev/shm/"@ + name@ + ".im.shm"@,
{
    let mut p = "/dev/shm/".to_owned();
    p.append(name);
    p.append(".im.shm");
    p
}

/// Whether every entry of a shape requested as signed integers is positive.
pub fn shape_all_positive(shape: &[i32]) -> (r: bool)
    ensures
        r == forall|i: int| 0 <= i < shape@.len() ==> shape@[i] > 0,
{
    let mut i: usize = 0;
    while i < shape.len()
        invariant
            i <= shape@.len(),
            forall|j: int| 0 <= j < i ==> shape@[j] > 0,
        decreases shape@.len() - i,
    {
        if shape[i] <= 0 {
            return false;
        }
        i = i + 1;
    }
    true
}

/// Whether a shape has a zero dimension.
pub open spec fn spec_has_zero(shape: Seq<usize>) -> bool {
    exists|i: int| 0 <= i < shape.len() && shape[i] == 0
}

/// The number of elements of an image with a shape of at most 3 axes: the
/// product of its dimensions, or 0 for an empty shape.
pub open spec fn spec_nelement(shape: Seq<usize>) -> int {
    if shape.len() == 0 {
        0
    } else if shape.len() == 1 {
        shape[0] as int
    } else if shape.len() == 2 {
        shape[0] * shape[1]
    } else {
        shape[0] * shape[1] * shape[2]
    }
}

/// The three ISIO dimensions of a shape of at most 3 axes, missing axes 0.
pub open spec fn spec_shape3(shape: Seq<usize>) -> Seq<u32> {
    Seq::new(3, |i: int| if i < shape.len() { shape[i] as u32 } else { 0u32 })
}

/// The fields of the metadata of a new local image.
pub open spec fn new_local_fields(
    md: ImageMetadata,
    name: Seq<u8>,
    shape: Seq<usize>,
    datatype: DataType,
    nb_kw: usize,
    imagetype: ImageType,
    cb_size: usize,
    creation_time: TimeSpec,
    last_access_time: TimeSpec,
    creator_pid: i32,
) -> bool {
    let zero = TimeSpec { tv_sec: 0, tv_nsec: 0 };
    &&& md.version@ == spec_version_chars()
    &&& md.name@ == spec_name_chars(name)
    &&& md.naxis == shape.len()
    &&& md.size@ == spec_shape3(shape)
    &&& md.nelement == spec_nelement(shape)
    &&& md.datatype == spec_datatype_code(datatype)
    &&& md.imagetype == spec_imagetype_code(imagetype)
    &&& md.creationtime == creation_time
    &&& md.lastaccesstime == last_access_time
    &&& md.atime == zero
    &&& md.writetime == zero
    &&& md.creator_pid == creator_pid
    &&& md.owner_pid == 0
    &&& md.shared == 1
    &&& md.inode == 0
    &&& md.location == -1
    &&& md.status == 0
    &&& md.flag == 0
    &&& md.logflag == 0
    &&& md.sem == IMAGE_NB_SEMAPHORE
    &&& md.nb_proc_trace == IMAGE_NB_PROCTRACE
    &&& md.cnt0 == 0
    &&& md.cnt1 == 0
    &&& md.cnt2 == 0
    &&& md.write == 0
    &&& md.nb_kw == nb_kw as u16
    &&& md.cb_size == cb_size as u32
    &&& md.cb_index == 0
    &&& md.cb_cycle == 0
    &&& md.imdatamemsize == spec_typesize(datatype) * spec_nelement(shape)
    &&& md.cuda_mem_handle@ == Seq::new(64, |i: int| 0i8)
}

/// The result of validating a requested shape, `Ok` when an image can be
/// made with it.
pub open spec fn new_local_check(shape: Seq<usize>, imagetype: ImageType) -> Result<(), ()> {
    if spec_has_zero(shape) || shape.len() == 0 || shape.len() > 3 || (imagetype.circular_buffer
        && shape.len() != 3) {
        Err(())
    } else {
        Ok(())
    }
}

/// The error for a requested shape, in the order the checks are made: a zero
/// dimension, then no axis or more than 3, then a circular buffer without 3
/// axes.
pub open spec fn new_local_error(e: Error, shape: Seq<usize>, imagetype: ImageType) -> bool {
    if spec_has_zero(shape) {
        e matches Error::InvalidShapeArray { shape: v } && v@ == shape
    } else if shape.len() == 0 || shape.len() > 3 {
        e matches Error::InvalidNaxis { shape: v } && v@ == shape
    } else {
        imagetype.circular_buffer && shape.len() != 3 && e == Error::CircBuffDimsWrong(
            shape.len() as usize,
        )
    }
}

/// The shape rules of a new image: a shape of 1 to 3 non-zero dimensions is
/// accepted for any image that is not a circular buffer, and for a circular
/// buffer exactly when it has 3 axes; every other shape is refused. A zero
/// dimension gives `InvalidShapeArray`, then a number of axes outside 1 to 3
/// gives `InvalidNaxis`, and `CircBuffDimsWrong` (with the number of axes)
/// comes only for a circular buffer whose shape has not 3 axes.
pub proof fn lemma_new_local_shape_rules(shape: Seq<usize>, imagetype: ImageType, e: Error)
    ensures
        new_local_check(shape, imagetype) is Ok <==> (1 <= shape.len() <= 3 && (forall|i: int|
            0 <= i < shape.len() ==> shape[i] != 0) && (imagetype.circular_buffer ==> shape.len()
            == 3)),
        !imagetype.circular_buffer && 1 <= shape.len() <= 3 && (forall|i: int|
            0 <= i < shape.len() ==> shape[i] != 0) ==> new_local_check(shape, imagetype) is Ok,
        new_local_check(shape, imagetype) is Err && new_local_error(e, shape, imagetype) ==> {
            &&& (e is InvalidShapeArray <==> exists|i: int| 0 <= i < shape.len() && shape[i] == 0)
            &&& (e is InvalidNaxis ==> shape.len() == 0 || shape.len() > 3)
            &&& (e is CircBuffDimsWrong ==> imagetype.circular_buffer && shape.len() != 3
                && e == Error::CircBuffDimsWrong(shape.len() as usize))
            &&& (e is InvalidShapeArray || e is InvalidNaxis || e is CircBuffDimsWrong)
        },
{
}

/// The number of elements of a shape of at most 3 non-zero dimensions.
fn nelement_of(shape: &[usize]) -> (r: usize)
    requires
        shape@.len() <= 3,
        !spec_has_zero(shape@),
        spec_nelement(shape@) <= usize::MAX,
    ensures
        r == spec_nelement(shape@),
{
    if shape.len() == 0 {
        0
    } else if shape.len() == 1 {
        shape[0]
    } else if shape.len() == 2 {
        shape[0] * shape[1]
    } else {
        let (x, y, z) = (shape[0], shape[1], shape[2]);
        assert(z >= 1);
        assert(x * y <= x * y * z) by (nonlinear_arith)
            requires
                z >= 1,
                x * y >= 0,
        ;
        x * y * z
    }
}

impl ImageMetadata {
    /// The metadata of a new local image named `name`, of shape `shape`
    /// (1, 2 or 3 non-zero dimensions), element type `datatype`, `nb_kw`
    /// keywords and a circular buffer of `cb_size` frames, created at
    /// `creation_time` by process `creator_pid`.
    pub fn new_local(
        name: &str,
        shape: &[usize],
        datatype: DataType,
        nb_kw: usize,
        imagetype: ImageType,
        cb_size: usize,
        creation_time: TimeSpec,
        last_access_time: TimeSpec,
        creator_pid: i32,
    ) -> (r: Result<ImageMetadata, Error>)
        requires
            new_local_check(shape@, imagetype) is Ok ==> spec_typesize(datatype) * spec_nelement(
                shape@,
            ) <= usize::MAX,
        ensures
            match r {
                Ok(md) => new_local_check(shape@, imagetype) is Ok && new_local_fields(
                    md,
                    name.spec_bytes(),
                    shape@,
                    datatype,
                    nb_kw,
                    imagetype,
                    cb_size,
                    creation_time,
                    last_access_time,
                    creator_pid,
                ),
                Err(e) => new_local_check(shape@, imagetype) is Err && new_local_error(
                    e,
                    shape@,
                    imagetype,
                ),
            },
    {
        let naxis = shape.len();
        let mut i: usize = 0;
        while i < naxis
            invariant
                i <= naxis,
                naxis == shape@.len(),
                forall|j: int| 0 <= j < i ==> shape@[j] != 0,
            decreases naxis - i,
        {
            if shape[i] == 0 {
                return Err(Error::InvalidShapeArray { shape: vstd::slice::slice_to_vec(shape) });
            }
            i = i + 1;
        }
        if naxis == 0 || naxis > 3 {
            return Err(Error::InvalidNaxis { shape: vstd::slice::slice_to_vec(shape) });
        }
        let shape3d: [u32; 3] = if naxis == 1 {
            [shape[0] as u32, 0u32, 0u32]
        } else if naxis == 2 {
            [shape[0] as u32, shape[1] as u32, 0u32]
        } else {
            [shape[0] as u32, shape[1] as u32, shape[2] as u32]
        };
        if imagetype.circular_buffer && naxis != 3 {
            return Err(Error::CircBuffDimsWrong(naxis));
        }
        proof {
            assert(spec_nelement(shape@) >= 0) by (nonlinear_arith)
                requires
                    forall|j: int| 0 <= j < shape@.len() ==> shape@[j] >= 0,
            ;
            assert(spec_nelement(shape@) <= spec_typesize(datatype) * spec_nelement(shape@))
                by (nonlinear_arith)
                requires
                    spec_typesize(datatype) >= 1,
                    spec_nelement(shape@) >= 0,
            ;
        }
        let nelement = nelement_of(shape);
        let imdatamemsize = datatype.typesize() * nelement;
        let zero = TimeSpec::new();
        let md = ImageMetadata {
            version: version(),
            name: image_name(name),
            naxis: naxis as u8,
            size: shape3d,
            nelement: nelement as u64,
            datatype: u8::from(datatype),
            imagetype: u64::from(imagetype),
            creationtime: creation_time,
            lastaccesstime: last_access_time,
            atime: zero,
            writetime: zero,
            creator_pid,
            owner_pid: 0,
            shared: 1,
            inode: 0,
            location: -1i8,
            status: 0,
            flag: 0,
            logflag: 0,
            sem: IMAGE_NB_SEMAPHORE,
            nb_proc_trace: IMAGE_NB_PROCTRACE,
            cnt0: 0,
            cnt1: 0,
            cnt2: 0,
            write: 0,
            nb_kw: nb_kw as u16,
            cb_size: cb_size as u32,
            cb_index: 0,
            cb_cycle: 0,
            imdatamemsize: imdatamemsize as u64,
            cuda_mem_handle: [0i8; 64],
        };
        assert(md.size@ =~= spec_shape3(shape@));
        assert(md.cuda_mem_handle@ =~= Seq::new(64, |i: int| 0i8));
        Ok(md)
    }
}

} // verus!
