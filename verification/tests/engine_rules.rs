use opencc_rust::engine::append_chunk;
use opencc_rust::engine::append_spare_capacity;
use opencc_rust::engine::appended_length;
use opencc_rust::engine::own_output;
use opencc_rust::engine::EngineHandle;
use opencc_rust::engine::OPEN_FAILURE_SENTINEL;
use opencc_rust::OpenCCError;

#[test]
fn open_rejects_exactly_the_sentinel() {
    assert_eq!(OPEN_FAILURE_SENTINEL, usize::MAX);
    match EngineHandle::from_open_result(usize::MAX) {
        Ok(_) => panic!("the sentinel must not open"),
        Err(e) => {
            assert_eq!(e, OpenCCError::ConfigLoad);
            assert_eq!(e.message(), "Cannot use this config file path.");
        },
    }
    assert!(EngineHandle::from_open_result(usize::MAX - 1).is_ok());
    assert!(EngineHandle::from_open_result(0x1000).is_ok());
    // A null handle is not the failure sentinel: it opens, per the native
    // engine's signalling convention.
    assert!(EngineHandle::from_open_result(0).is_ok());
}

#[test]
fn close_is_owed_once_for_a_non_null_handle() {
    let mut h = EngineHandle::from_open_result(0x1000).unwrap();
    assert_eq!(h.raw(), 0x1000);
    assert!(h.needs_close());
    h.mark_closed();
    assert!(!h.needs_close());
}

#[test]
fn close_is_never_owed_for_a_null_handle() {
    let h = EngineHandle::from_open_result(0).unwrap();
    assert_eq!(h.raw(), 0);
    assert!(!h.needs_close());
}

#[test]
fn spare_capacity_is_twice_the_input_bytes() {
    assert_eq!(append_spare_capacity(0), Some(0));
    assert_eq!(append_spare_capacity(5), Some(10));
    assert_eq!(append_spare_capacity(usize::MAX / 2), Some(usize::MAX - 1));
    assert_eq!(append_spare_capacity(usize::MAX / 2 + 1), None);
}

#[test]
fn appended_length_adds_written_bytes() {
    assert_eq!(appended_length(0, 0), Some(0));
    assert_eq!(appended_length(3, 4), Some(7));
    assert_eq!(appended_length(usize::MAX, 0), Some(usize::MAX));
    assert_eq!(appended_length(usize::MAX, 1), None);
}

#[test]
fn own_output_copies_the_native_bytes() {
    let native: Vec<u8> = vec![1, 2, 3, 250];
    let owned = own_output(native.as_slice());
    assert_eq!(owned, native);
    assert_eq!(own_output(&[]), Vec::<u8>::new());
}

#[test]
fn append_with_empty_input_keeps_the_destination() {
    // An empty destination and an empty conversion result give an empty
    // buffer.
    let mut buf: Vec<u8> = Vec::new();
    append_chunk(&mut buf, &[]);
    assert_eq!(buf, Vec::<u8>::new());

    // A non-empty destination is returned unchanged when the conversion
    // result is empty.
    let mut buf = "凉风有讯".as_bytes().to_vec();
    append_chunk(&mut buf, &[]);
    assert_eq!(buf, "凉风有讯".as_bytes());
}

#[test]
fn append_accumulates_converted_pieces() {
    // Accumulating two conversion results, piece by piece, leaves exactly
    // their concatenation behind the existing content.
    let first = "凉风有讯，秋月无边，亏我思娇的情绪好比度日如年。";
    let second = "虽然我不是玉树临风，潇洒倜傥，但我有广阔的胸襟，加强劲的臂弯。";
    let mut buf: Vec<u8> = Vec::new();
    append_chunk(&mut buf, first.as_bytes());
    append_chunk(&mut buf, second.as_bytes());
    let whole = String::from_utf8(buf).expect("byte-wise accumulation keeps UTF-8 intact");
    assert_eq!(
        whole,
        "凉风有讯，秋月无边，亏我思娇的情绪好比度日如年。虽然我不是玉树临风，潇洒倜傥，但我有广阔的胸襟，加强劲的臂弯。"
    );
}
