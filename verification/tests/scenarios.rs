use byte::{BytesExt, Error};

#[test]
fn read_two_bools_advancing_offset() {
    let bytes: &[u8] = &[1, 0];
    let mut offset: usize = 0;
    let first: bool = bytes.read(&mut offset).unwrap();
    assert_eq!(first, true);
    assert_eq!(offset, 1);
    let second: bool = bytes.read(&mut offset).unwrap();
    assert_eq!(second, false);
    assert_eq!(offset, 2);
}

#[test]
fn read_invalid_bool_is_bad_input_and_offset_unchanged() {
    let bytes: &[u8] = &[2];
    let mut offset: usize = 0;
    let r: Result<bool, Error> = bytes.read(&mut offset);
    assert!(matches!(r, Err(Error::BadInput { .. })));
    assert_eq!(offset, 0);
}

#[test]
fn read_from_empty_buffer_is_bad_offset() {
    let bytes: &[u8] = &[];
    let mut offset: usize = 0;
    let r: Result<bool, Error> = bytes.read(&mut offset);
    assert_eq!(r, Err(Error::BadOffset(0)));
    assert_eq!(offset, 0);
}

#[test]
fn adapter_yields_all_five_bools() {
    let bytes: &[u8] = &[1, 0, 1, 0, 1];
    let mut offset: usize = 0;
    {
        let mut iter = bytes.read_iter::<bool>(&mut offset, ());
        assert_eq!(iter.next(), Some(true));
        assert_eq!(iter.next(), Some(false));
        assert_eq!(iter.next(), Some(true));
        assert_eq!(iter.next(), Some(false));
        assert_eq!(iter.next(), Some(true));
        assert_eq!(iter.next(), None);
    }
    assert_eq!(offset, 5);
}

#[test]
fn write_into_empty_buffer_is_bad_offset() {
    let bytes: &mut [u8] = &mut [];
    let mut offset: usize = 0;
    let r = bytes.write(&mut offset, true);
    assert_eq!(r, Err(Error::BadOffset(0)));
    assert_eq!(offset, 0);
}
