use risio::datatype::{DataType, ImageType};
use risio::error::Error;
use risio::imagestreamio::access::{acquire_write, check_datatype, name_string, release_write};
use risio::imagestreamio::byte_structs::{
    Byteable, CBFrameMetadata, Cnt, ImageKeyword, ImageMetadata, SemCtrl, SemPid, SemStatus,
    StreamProcTrace, TimeSpec,
};
use risio::imagestreamio::image::{data_region, data_region_mut, Image};
use risio::imagestreamio::layout::{ImageLayout, SEM_SLOT_SIZE};
use risio::imagestreamio::{
    image_name, round_up_8, shape_all_positive, sm_pname, version, ShmImOpenOptions,
};

fn ts(s: u64, n: u64) -> TimeSpec {
    TimeSpec { tv_sec: s, tv_nsec: n }
}

fn local(name: &str, shape: &[usize], datatype: DataType) -> Result<Image, Error> {
    Image::new_local(
        name,
        shape,
        datatype,
        10,
        ImageType::image(),
        0,
        ts(5, 6),
        ts(7, 8),
        4321,
        &[0u8; 32],
    )
}

#[test]
fn round_up_8_values() {
    assert_eq!(round_up_8(0), 0);
    assert_eq!(round_up_8(1), 8);
    assert_eq!(round_up_8(7), 8);
    assert_eq!(round_up_8(8), 8);
    assert_eq!(round_up_8(9), 16);
    assert_eq!(round_up_8(383), 384);
    assert_eq!(round_up_8(usize::MAX - 7), usize::MAX - 7);
}

#[test]
fn open_options() {
    let d = ShmImOpenOptions::default();
    assert!(d.read && d.write && !d.append && !d.truncate && !d.create && !d.create_new);
    let mut o = ShmImOpenOptions::default();
    let n = *o.create_new();
    assert!(n.create_new && n.truncate && n.read && n.write && !n.append && !n.create);
    assert_eq!(o, n);
}

#[test]
fn name_and_version_fields() {
    let n = image_name("noise");
    assert_eq!(&n[..6], &[110, 111, 105, 115, 101, 0]);
    assert!(n[5..].iter().all(|c| *c == 0));
    let long: String = std::iter::repeat('x').take(100).collect();
    let n = image_name(&long);
    assert!(n[..79].iter().all(|c| *c == 120));
    assert_eq!(n[79], 0);
    let v = version();
    assert_eq!(&v[..5], &[50, 46, 48, 48, 0]);
    assert!(v[5..].iter().all(|c| *c == 0));
}

#[test]
fn shm_path() {
    assert_eq!(sm_pname("noise"), "/dev/shm/noise.im.shm");
}

#[test]
fn struct_bytes() {
    assert_eq!(
        ts(1, 2).to_bytes(),
        vec![1, 0, 0, 0, 0, 0, 0, 0, 2, 0, 0, 0, 0, 0, 0, 0]
    );
    assert_eq!(Cnt::new().to_bytes(), vec![0u8; 8]);
    assert_eq!(SemPid::new().to_bytes(), vec![255u8; 4]);
    assert_eq!(SemCtrl::new().to_bytes(), vec![0u8; 4]);
    assert_eq!(SemStatus::new().to_bytes(), vec![0u8; 4]);
    assert_eq!(SemStatus { status: 0x01020304 }.to_bytes(), vec![4, 3, 2, 1]);
    let t = StreamProcTrace::new().to_bytes();
    assert_eq!(t.len(), 64);
    assert_eq!(&t[48..52], &[255u8; 4]);
    assert!(t[..48].iter().all(|b| *b == 0) && t[52..].iter().all(|b| *b == 0));
    assert_eq!(CBFrameMetadata::new().to_bytes(), vec![0u8; 48]);
    let k = ImageKeyword::new().to_bytes();
    assert_eq!(k.len(), 128);
    assert_eq!(k[16], b'N');
    assert_eq!(k.iter().filter(|b| **b != 0).count(), 1);
    let cs = vec![Cnt { cnt: 1 }, Cnt { cnt: 0x0203 }].to_bytes();
    assert_eq!(cs, vec![1, 0, 0, 0, 0, 0, 0, 0, 3, 2, 0, 0, 0, 0, 0, 0]);
    assert_eq!(TimeSpec::default(), ts(0, 0));
    assert_eq!(SemPid::default().pid, -1);
}

#[test]
fn new_local_metadata_fields() {
    let md = ImageMetadata::new_local(
        "noise",
        &[100, 100],
        DataType::F64,
        10,
        ImageType::image(),
        0,
        ts(1, 2),
        ts(3, 4),
        1234,
    )
    .unwrap();
    assert_eq!(md.naxis, 2);
    assert_eq!(md.size, [100, 100, 0]);
    assert_eq!(md.nelement, 10000);
    assert_eq!(md.datatype, 10);
    assert_eq!(md.imagetype, 2);
    assert_eq!(md.imdatamemsize, 80000);
    assert_eq!(md.creationtime, ts(1, 2));
    assert_eq!(md.lastaccesstime, ts(3, 4));
    assert_eq!(md.creator_pid, 1234);
    assert_eq!(md.sem, 10);
    assert_eq!(md.nb_proc_trace, 10);
    assert_eq!(md.nb_kw, 10);
    assert_eq!(md.location, -1);
    assert_eq!(md.shared, 1);
    let b = md.to_bytes();
    assert_eq!(b.len(), 384);
    assert_eq!(&b[0..5], b"2.00\0");
    assert_eq!(&b[32..38], b"noise\0");
    assert_eq!(b[112], 2);
    assert_eq!(&b[116..128], &[100, 0, 0, 0, 100, 0, 0, 0, 0, 0, 0, 0]);
    assert_eq!(&b[128..136], &10000u64.to_le_bytes());
    assert_eq!(b[136], 10);
    assert_eq!(&b[144..152], &2u64.to_le_bytes());
    assert_eq!(&b[152..168], &ts(1, 2).to_bytes()[..]);
    assert_eq!(&b[216..220], &1234i32.to_le_bytes());
    assert_eq!(b[240], 0xff);
    assert_eq!(&b[258..260], &[10, 0]);
    assert_eq!(&b[260..262], &[10, 0]);
    assert_eq!(&b[290..292], &[10, 0]);
    assert_eq!(&b[312..320], &80000u64.to_le_bytes());
    assert_eq!(ImageMetadata::from_bytes(&b), md);
}

#[test]
fn metadata_roundtrip_of_arbitrary_values() {
    let mut md = ImageMetadata::new_local(
        "roundtrip",
        &[3, 4, 5],
        DataType::C128,
        7,
        ImageType::circular_buffer(),
        9,
        ts(u64::MAX, 1),
        ts(2, u64::MAX),
        -5,
    )
    .unwrap();
    md.owner_pid = i32::MIN;
    md.inode = 0x0102030405060708;
    md.status = 2;
    md.flag = u64::MAX;
    md.logflag = 1;
    md.cnt0 = 11;
    md.cnt1 = 12;
    md.cnt2 = 13;
    md.write = 1;
    md.cb_index = 3;
    md.cb_cycle = 99;
    md.cuda_mem_handle[63] = -1;
    md.version[31] = 7;
    let b = md.to_bytes();
    assert_eq!(ImageMetadata::from_bytes(&b), md);
    let mut longer = b.clone();
    longer.extend_from_slice(&[9u8; 20]);
    assert_eq!(ImageMetadata::from_bytes(&longer), md);
}

#[test]
fn new_local_errors() {
    match local("x", &[10, 0], DataType::U8) {
        Err(Error::InvalidShapeArray { shape }) => assert_eq!(shape, vec![10, 0]),
        _ => panic!("expected InvalidShapeArray"),
    }
    match local("x", &[1, 2, 3, 4], DataType::U8) {
        Err(Error::InvalidNaxis { shape }) => assert_eq!(shape, vec![1, 2, 3, 4]),
        _ => panic!("expected InvalidNaxis"),
    }
    match local("x", &[], DataType::U8) {
        Err(Error::InvalidNaxis { shape }) => assert_eq!(shape, Vec::<usize>::new()),
        _ => panic!("expected InvalidNaxis"),
    }
    match local("x", &[1, 2, 3, 0, 5], DataType::U8) {
        Err(Error::InvalidShapeArray { shape }) => assert_eq!(shape, vec![1, 2, 3, 0, 5]),
        _ => panic!("expected InvalidShapeArray"),
    }
    let circ = Image::new_local(
        "c",
        &[10, 10],
        DataType::U8,
        0,
        ImageType::circular_buffer(),
        4,
        ts(0, 0),
        ts(0, 0),
        1,
        &[0u8; 32],
    );
    assert!(matches!(circ, Err(Error::CircBuffDimsWrong(2))));
}

#[test]
fn new_local_image_layout() {
    let im = local("myimname", &[10, 12], DataType::U64).unwrap();
    let l = im.layout;
    assert_eq!(l.array, 384);
    assert_eq!(l.kw, 384 + 960);
    assert_eq!(l.sem_file, 1344 + 1280);
    assert_eq!(l.sem_log, 2624 + 2560);
    assert_eq!(l.sem_read_pid, 5184 + 256);
    assert_eq!(l.sem_write_pid, 5480);
    assert_eq!(l.sem_ctrl, 5520);
    assert_eq!(l.sem_status, 5560);
    assert_eq!(l.proc_trace, 5600);
    assert_eq!(l.a_time, 6240);
    assert_eq!(l.total, 6240);
    assert_eq!(im.data_handle.len(), 6240);
    assert_eq!(im.used, 1);
    assert_eq!(im.create_cnt, 1);
    assert_eq!(im.bytes().len(), 960);
    assert!(im.bytes().iter().all(|b| *b == 0));
    assert_eq!(im.stored_name(), "myimname");
    assert_eq!(l.sem_offset(3), 2624 + 768);
    let d = &im.data_handle;
    assert_eq!(d[1344 + 16], b'N');
    assert_eq!(d[1344 + 128 + 16], b'N');
    assert!(d[5440..5520].iter().all(|b| *b == 0xff));
    assert!(d[5520..5560].iter().all(|b| *b == 0));
    assert!(d[5560..5600].iter().all(|b| *b == 0xff));
    assert_eq!(&d[5600 + 48..5600 + 52], &[0xff; 4]);
    let md = im.metadata();
    assert_eq!(md.nelement, 120);
    assert_eq!(md.creator_pid, 4321);
    assert_eq!(md.creationtime, ts(5, 6));
    assert_eq!(md.lastaccesstime, ts(7, 8));
    assert_eq!(ImageLayout::new(&md, SEM_SLOT_SIZE), Some(l));
}

#[test]
fn circular_buffer_image_layout() {
    let im = Image::new_local(
        "cb",
        &[2, 3, 5],
        DataType::I16,
        1,
        ImageType::circular_buffer(),
        3,
        ts(0, 0),
        ts(0, 0),
        1,
        &[7u8; 32],
    )
    .unwrap();
    let l = im.layout;
    // 60 bytes of data, padded to 64
    assert_eq!(l.kw, 384 + 64);
    assert_eq!(l.sem_file, 448 + 128);
    assert_eq!(l.sem_log, l.sem_file + 2560);
    assert_eq!(l.sem_read_pid, l.sem_log + 256);
    for slot in im.data_handle[l.sem_file..l.sem_read_pid].chunks(256) {
        assert!(slot[..32].iter().all(|b| *b == 7));
        assert!(slot[32..].iter().all(|b| *b == 0));
    }
    assert_eq!(im.bytes().len(), 60);
    assert_eq!(l.a_time, l.proc_trace + 640);
    assert_eq!(l.write_time, l.a_time + 80);
    assert_eq!(l.cnt, l.write_time + 80);
    assert_eq!(l.cb_md, l.cnt + 40);
    assert_eq!(l.cb_data, l.cb_md + 144);
    assert_eq!(l.total, l.cb_data + 184);
    assert_eq!(im.data_handle.len(), l.total);
    assert_eq!(im.metadata().imagetype, 0x23);
    let offsets = [
        l.array, l.kw, l.sem_file, l.sem_log, l.sem_read_pid, l.sem_write_pid, l.sem_ctrl,
        l.sem_status, l.proc_trace, l.a_time, l.write_time, l.cnt, l.cb_md, l.cb_data, l.total,
    ];
    assert!(offsets.iter().all(|o| o % 8 == 0));
    assert!(offsets.windows(2).all(|w| w[0] <= w[1]));
}

#[test]
fn layout_size_example() {
    // A 6x8x10 f64 image with 2 keywords, 10 semaphores, 10 process traces
    // and 20 circular-buffer frames takes 86256 bytes.
    let mut md = ImageMetadata::new_local(
        "example",
        &[6, 8, 10],
        DataType::F64,
        2,
        ImageType::circular_buffer(),
        20,
        ts(0, 0),
        ts(0, 0),
        0,
    )
    .unwrap();
    assert_eq!(md.imdatamemsize, 3840);
    assert_eq!(ImageLayout::new(&md, SEM_SLOT_SIZE).unwrap().total, 86256);
    assert_eq!(ImageLayout::new(&md, 32).unwrap().total, 86256 - 224 * 11);
    md.imdatamemsize = u64::MAX / 2;
    assert_eq!(ImageLayout::new(&md, SEM_SLOT_SIZE), None);
}

#[test]
fn new_local_size_example() {
    let im = Image::new_local(
        "im",
        &[6, 8, 10],
        DataType::F64,
        2,
        ImageType::circular_buffer(),
        20,
        ts(0, 0),
        ts(0, 0),
        0,
        &[0u8; 32],
    )
    .unwrap();
    assert_eq!(im.metadata().imdatamemsize, 3840);
    assert_eq!(im.data_handle.len(), 86256);
    assert_eq!(im.bytes().len(), 3840);
}

#[test]
fn data_view_has_no_padding() {
    let im = local("a", &[3, 3], DataType::U8).unwrap();
    assert_eq!(im.bytes().len(), 9);
    assert_eq!(im.bytes().len() as u64, im.metadata().nelement);
    assert!(im.bytes().iter().all(|b| *b == 0));
    assert_eq!(im.layout.kw - im.layout.array, 16);
    let mut raw = im.data_handle.clone();
    data_region_mut(&mut raw, &im.layout).copy_from_slice(&[1, 2, 3, 4, 5, 6, 7, 8, 9]);
    assert_eq!(data_region(&raw, &im.layout), &[1, 2, 3, 4, 5, 6, 7, 8, 9]);
    assert_eq!(&raw[..384], &im.data_handle[..384]);
    assert_eq!(&raw[393..], &im.data_handle[393..]);
}

#[test]
fn process_traces_follow_metadata() {
    let mut md = ImageMetadata::new_local(
        "t",
        &[4],
        DataType::U8,
        0,
        ImageType::image(),
        0,
        ts(0, 0),
        ts(0, 0),
        0,
    )
    .unwrap();
    md.nb_proc_trace = 3;
    let im = Image::from_metadata(md, &[0u8; 32]).unwrap();
    let l = im.layout;
    assert_eq!(l.nb_proc_trace, 3);
    assert_eq!(l.a_time, l.proc_trace + 192);
    assert_eq!(im.data_handle.len(), l.total);
    assert_eq!(&im.data_handle[l.proc_trace + 48..l.proc_trace + 52], &[0xff; 4]);
    assert_eq!(&im.data_handle[l.proc_trace + 128 + 48..l.proc_trace + 128 + 52], &[0xff; 4]);
    let back = Image::try_from(im.data_handle.clone()).unwrap();
    assert_eq!(back.layout, l);
    assert_eq!(back.metadata(), md);
}

#[test]
fn read_image_back() {
    let im = local("again", &[3, 3], DataType::I32).unwrap();
    let data = im.data_handle.clone();
    let back = Image::try_from(data.clone()).unwrap();
    assert_eq!(back.layout, im.layout);
    assert_eq!(back.metadata(), im.metadata());
    assert_eq!(back.name, im.name);
    assert_eq!(back.used, 1);
    assert_eq!(back.create_cnt, 1);
    let len = data.len();
    match Image::try_from(data[..len - 8].to_vec()) {
        Err(Error::RequestingPointerBeyondRange { map_len, requested }) => {
            assert_eq!(map_len, len - 8);
            assert_eq!(requested, len);
        }
        _ => panic!("expected RequestingPointerBeyondRange"),
    }
    match Image::try_from(data[..100].to_vec()) {
        Err(Error::RequestingPointerBeyondRange { map_len, requested }) => {
            assert_eq!(map_len, 100);
            assert_eq!(requested, 384);
        }
        _ => panic!("expected RequestingPointerBeyondRange"),
    }
    let mut longer = data.clone();
    longer.extend_from_slice(&[0u8; 16]);
    match Image::try_from(longer) {
        Err(Error::RequestingPointerBeyondRange { map_len, requested }) => {
            assert_eq!(map_len, len + 16);
            assert_eq!(requested, len);
        }
        _ => panic!("expected RequestingPointerBeyondRange"),
    }
    let mut one_more = data.clone();
    one_more.push(0);
    assert!(Image::try_from(one_more).is_err());
    let mut bad = data.clone();
    bad[136] = 0;
    assert!(matches!(Image::try_from(bad), Err(Error::UnsupportedDataType(0))));
    let mut huge = data.clone();
    huge[312..320].copy_from_slice(&(u64::MAX - 3).to_le_bytes());
    match Image::try_from(huge) {
        Err(Error::RequestingPointerBeyondRange { map_len, requested }) => {
            assert_eq!(map_len, len);
            assert_eq!(requested, usize::MAX);
        }
        _ => panic!("expected RequestingPointerBeyondRange"),
    }
}

#[test]
fn long_names_keep_79_bytes() {
    let long: String = std::iter::repeat('x').take(100).collect();
    let im = local(&long, &[2], DataType::U8).unwrap();
    assert_eq!(im.stored_name(), long[..79]);
    let im = local("noise", &[2], DataType::U8).unwrap();
    assert_eq!(im.stored_name(), "noise");
}

#[test]
fn vec_bytes_concatenate() {
    let a = vec![Cnt { cnt: 1 }, Cnt { cnt: 2 }];
    let b = vec![Cnt { cnt: 0x0304 }];
    let ab = [a.clone(), b.clone()].concat();
    assert_eq!(ab.to_bytes(), [a.to_bytes(), b.to_bytes()].concat());
    assert_eq!(Vec::<Cnt>::new().to_bytes(), Vec::<u8>::new());
    let t = ts(9, 10);
    let reps = vec![t; 4].to_bytes();
    assert_eq!(reps.len(), 4 * 16);
    assert_eq!(reps, t.to_bytes().repeat(4));
}

#[test]
fn from_metadata_rejects_unknown_datatype() {
    let mut md = ImageMetadata::new_local(
        "m",
        &[4],
        DataType::U8,
        0,
        ImageType::image(),
        0,
        ts(0, 0),
        ts(0, 0),
        0,
    )
    .unwrap();
    md.datatype = 42;
    assert!(matches!(
        Image::from_metadata(md, &[0u8; 32]),
        Err(Error::UnsupportedDataType(42))
    ));
}

#[test]
fn write_flag_protocol() {
    let mut im = local("myimname", &[4, 4], DataType::U8).unwrap();
    let before = im.data_handle.clone();
    im.begin_write().unwrap();
    assert_eq!(im.data_handle[288], 1);
    match im.begin_write() {
        Err(Error::ImageIsBeingWritten(name)) => assert_eq!(name, "myimname"),
        _ => panic!("expected ImageIsBeingWritten"),
    }
    assert_eq!(im.data_handle[288], 1);
    im.end_write();
    assert_eq!(im.data_handle, before);
    assert_eq!(im.metadata().write, 0);
}

#[test]
fn write_flag_on_raw_bytes() {
    let im = local("raw", &[2], DataType::U8).unwrap();
    let mut bytes = im.data_handle.clone();
    acquire_write(&mut bytes).unwrap();
    assert_eq!(bytes[288], 1);
    assert!(matches!(acquire_write(&mut bytes), Err(Error::ImageIsBeingWritten(_))));
    release_write(&mut bytes);
    assert_eq!(bytes, im.data_handle);
}

#[test]
fn name_strings() {
    assert_eq!(name_string(&[104, 105, 0, 106]), "hi");
    assert_eq!(name_string(&[104, 105]), "hi");
    assert_eq!(name_string(&[0, 105]), "");
    assert_eq!(name_string(&[-23, 0]), "\u{e9}");
}

#[test]
fn datatype_checks() {
    assert!(check_datatype(DataType::F64, 10).is_ok());
    assert!(matches!(
        check_datatype(DataType::F64, 7),
        Err(Error::MismatchDataType { expected: DataType::F64, found: DataType::U64 })
    ));
    assert!(matches!(check_datatype(DataType::F64, 99), Err(Error::UnsupportedDataType(99))));
}

#[test]
fn positive_shapes() {
    assert!(shape_all_positive(&[3, 4, 5]));
    assert!(shape_all_positive(&[]));
    assert!(!shape_all_positive(&[3, 0, 5]));
    assert!(!shape_all_positive(&[-1]));
}
