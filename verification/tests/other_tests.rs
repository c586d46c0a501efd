use risio::datatype::{DataType, ImageType};
use risio::interface::Context;
use risio::imagestreamio::byte_structs::TimeSpec;
use risio::imagestreamio::layout::SEM_SLOT_SIZE;
use risio::scratch::{plan_image_from_scratch, scratch_record, sm_fname, ScratchError};
use risio::sem::{image_flush_step, named_flush_step, FlushAction, FlushPhase};
use risio::shm::shm_object_name;

#[test]
fn scratch_plan_of_example_image() {
    let p = plan_image_from_scratch(2, &[3, 4, 0], DataType::F64, 3, 2, ImageType::image(), 2, 32, 32)
        .unwrap();
    assert_eq!(p.naxis, 2);
    assert_eq!(p.size, [3, 4, 0]);
    assert_eq!(p.nelement, 12);
    assert_eq!(p.imdatamemsize, 96);
    assert_eq!(p.image_memsize, 1856);
}

#[test]
fn scratch_record_of_example_image() {
    let p = plan_image_from_scratch(
        2,
        &[3, 4, 0],
        DataType::F64,
        3,
        2,
        ImageType::image(),
        2,
        SEM_SLOT_SIZE,
        SEM_SLOT_SIZE,
    )
    .unwrap();
    assert_eq!(p.image_memsize, 2752);
    let t0 = TimeSpec { tv_sec: 1, tv_nsec: 2 };
    let t1 = TimeSpec { tv_sec: 3, tv_nsec: 4 };
    let r = scratch_record("scr", &p, DataType::F64, 3, 2, ImageType::image(), 2, 17, 99, t0, t1, 55);
    assert_eq!(&r.name[..4], &[115, 99, 114, 0]);
    assert_eq!(r.used, 1);
    assert_eq!(r.create_cnt, 1);
    assert_eq!(r.shmfd, 17);
    assert_eq!(r.memsize, 2752);
    let md = r.md;
    assert_eq!(md.name, r.name);
    assert_eq!(md.naxis, 2);
    assert_eq!(md.size, [3, 4, 0]);
    assert_eq!(md.nelement, 12);
    assert_eq!(md.datatype, 10);
    assert_eq!(md.imagetype, 2);
    assert_eq!(md.creationtime, t0);
    assert_eq!(md.lastaccesstime, t1);
    assert_eq!(md.creator_pid, 55);
    assert_eq!(md.inode, 99);
    assert_eq!(md.shared, 1);
    assert_eq!(md.location, -1);
    assert_eq!(md.sem, 3);
    assert_eq!(md.nb_proc_trace, 10);
    assert_eq!(md.nb_kw, 2);
    assert_eq!(md.cb_size, 2);
    assert_eq!(md.imdatamemsize, 96);
    assert_eq!(&md.version[..5], &[50, 46, 48, 48, 0]);
}

#[test]
fn scratch_plan_errors() {
    assert_eq!(
        plan_image_from_scratch(1, &[], DataType::U8, 1, 0, ImageType::image(), 0, 32, 32).unwrap_err(),
        ScratchError::InvalidSize(0)
    );
    assert_eq!(
        plan_image_from_scratch(1, &[1, 2, 3, 4], DataType::U8, 1, 0, ImageType::image(), 0, 32, 32)
            .unwrap_err(),
        ScratchError::InvalidSize(4)
    );
    assert_eq!(
        plan_image_from_scratch(4, &[1, 2], DataType::U8, 1, 0, ImageType::image(), 0, 32, 32)
            .unwrap_err(),
        ScratchError::InvalidNaxis(4)
    );
    assert_eq!(
        plan_image_from_scratch(2, &[1, 2], DataType::U8, 1, 0, ImageType::circular_buffer(), 0, 32, 32)
            .unwrap_err(),
        ScratchError::CircBuffDimsWrong(2)
    );
}

#[test]
fn scratch_file_name() {
    let f = sm_fname("shm1");
    assert_eq!(&f[..5], &[115, 104, 109, 49, 0]);
    assert!(f[4..].iter().all(|c| *c == 0));
}

#[test]
fn shm_object_names() {
    assert_eq!(shm_object_name("noise").unwrap(), b"/noise.im.shm\0".to_vec());
    assert_eq!(shm_object_name("").unwrap(), b"/.im.shm\0".to_vec());
    assert!(shm_object_name("a\0b").is_none());
}

#[test]
fn contexts() {
    assert_ne!(Context::Initialising, Context::Running);
    assert_ne!(Context::Running, Context::Exiting);
}

#[test]
fn flush_steps() {
    assert_eq!(image_flush_step(0), FlushAction::Done);
    assert_eq!(image_flush_step(3), FlushAction::Wait);
    let d = FlushPhase::Draining;
    let r = FlushPhase::Raising;
    assert_eq!(named_flush_step(d, 3), (d, FlushAction::Wait));
    assert_eq!(named_flush_step(d, -2), (r, FlushAction::Post));
    assert_eq!(named_flush_step(d, 0), (r, FlushAction::Done));
    assert_eq!(named_flush_step(r, -1), (r, FlushAction::Post));
    assert_eq!(named_flush_step(r, 0), (r, FlushAction::Done));
    assert_eq!(named_flush_step(r, 5), (r, FlushAction::Done));
}
