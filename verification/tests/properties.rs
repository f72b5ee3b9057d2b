use byte::ctx::read_all_bools;
use byte::{check_len, BytesExt, Error, TryRead, TryWrite};

#[test]
fn boundary_check_accepts_up_to_length() {
    let bytes = [0u8; 4];
    for len in 0..=4usize {
        assert_eq!(check_len(&bytes, len), Ok(len));
    }
    assert_eq!(check_len(&bytes, 5), Err(Error::Incomplete));
    assert_eq!(check_len(&bytes, 6), Err(Error::Incomplete));
    assert_eq!(check_len(&[], 0), Ok(0));
    assert_eq!(check_len(&[], 1), Err(Error::Incomplete));
}

#[test]
fn round_trip_both_bool_values() {
    for value in [false, true] {
        let mut bytes = [7u8; 3];
        let mut write_offset: usize = 0;
        bytes.write(&mut write_offset, value).unwrap();
        let mut read_offset: usize = 0;
        let back: bool = bytes.read(&mut read_offset).unwrap();
        assert_eq!(back, value);
        assert_eq!(read_offset, write_offset);
    }
}

#[test]
fn write_encodes_one_for_true_and_zero_for_false() {
    let mut bytes = [9u8; 2];
    let mut offset: usize = 0;
    bytes.write(&mut offset, true).unwrap();
    assert_eq!(offset, 1);
    bytes.write(&mut offset, false).unwrap();
    assert_eq!(offset, 2);
    assert_eq!(bytes, [1, 0]);
}

#[test]
fn with_context_and_default_context_forms_agree() {
    let bytes: &[u8] = &[1];
    let mut offset_a: usize = 0;
    let mut offset_b: usize = 0;
    let a: Result<bool, Error> = bytes.read(&mut offset_a);
    let b: Result<bool, Error> = bytes.read_with(&mut offset_b, ());
    assert_eq!(a, b);
    assert_eq!(offset_a, offset_b);
}

#[test]
fn direct_codec_calls_report_consumed_and_written_sizes() {
    let ok = <bool as TryRead<'_, ()>>::try_read(&[1, 1, 1], ());
    assert_eq!(ok, Ok((true, 1)));
    let short = <bool as TryRead<'_, ()>>::try_read(&[], ());
    assert_eq!(short, Err(Error::Incomplete));
    let bad = <bool as TryRead<'_, ()>>::try_read(&[3], ());
    assert!(matches!(bad, Err(Error::BadInput { .. })));

    let mut room = [0u8; 1];
    assert_eq!(TryWrite::try_write(true, &mut room, ()), Ok(1));
    assert_eq!(room, [1]);
    let mut no_room: [u8; 0] = [];
    assert_eq!(TryWrite::try_write(true, &mut no_room, ()), Err(Error::Incomplete));
}

#[test]
fn adapter_stops_at_first_invalid_byte() {
    let bytes: &[u8] = &[1, 0, 2, 1];
    let mut offset: usize = 0;
    {
        let mut iter = bytes.read_iter::<bool>(&mut offset, ());
        assert_eq!(iter.next(), Some(true));
        assert_eq!(iter.next(), Some(false));
        assert_eq!(iter.next(), None);
        assert_eq!(iter.next(), None);
    }
    assert_eq!(offset, 2);
}

#[test]
fn adapter_resumes_from_where_consumption_left_off() {
    let bytes: &[u8] = &[1, 1, 0];
    let mut offset: usize = 0;
    {
        let mut iter = bytes.read_iter::<bool>(&mut offset, ());
        assert_eq!(iter.next(), Some(true));
    }
    assert_eq!(offset, 1);
    {
        let mut iter = bytes.read_iter::<bool>(&mut offset, ());
        assert_eq!(iter.next(), Some(true));
        assert_eq!(iter.next(), Some(false));
        assert_eq!(iter.next(), None);
    }
    assert_eq!(offset, 3);
}

#[test]
fn adapter_size_hint_is_always_unknown() {
    let bytes: &[u8] = &[1, 0];
    let mut offset: usize = 0;
    let iter = bytes.read_iter::<bool>(&mut offset, ());
    assert_eq!(iter.size_hint(), (0, None));
}

#[test]
fn drain_collects_values_and_leaves_offset_at_stop() {
    let bytes: &[u8] = &[1, 0, 1, 0, 1];
    let mut offset: usize = 0;
    let values = read_all_bools(bytes, &mut offset);
    assert_eq!(values, vec![true, false, true, false, true]);
    assert_eq!(offset, 5);

    let trailing: &[u8] = &[0, 1, 7, 1];
    let mut trailing_offset: usize = 0;
    let trailing_values = read_all_bools(trailing, &mut trailing_offset);
    assert_eq!(trailing_values, vec![false, true]);
    assert_eq!(trailing_offset, 2);

    let empty: &[u8] = &[];
    let mut empty_offset: usize = 0;
    assert_eq!(read_all_bools(empty, &mut empty_offset), Vec::<bool>::new());
    assert_eq!(empty_offset, 0);
}

#[test]
fn failed_reads_and_writes_leave_offset_untouched() {
    let bytes: &[u8] = &[1, 5];
    let mut offset: usize = 1;
    let r: Result<bool, Error> = bytes.read(&mut offset);
    assert!(matches!(r, Err(Error::BadInput { .. })));
    assert_eq!(offset, 1);

    let mut out = [0u8; 2];
    let mut out_offset: usize = 2;
    let w = out.write(&mut out_offset, true);
    assert_eq!(w, Err(Error::BadOffset(2)));
    assert_eq!(out_offset, 2);
}

#[test]
fn error_values_compare_and_copy() {
    let a = Error::Incomplete;
    let b = a;
    assert_eq!(a, b);
    assert_ne!(Error::BadOffset(1), Error::BadOffset(2));
    assert_ne!(Error::Incomplete, Error::BadOffset(0));
    let bad = Error::BadInput { err: "diagnostic" };
    assert_eq!(bad, bad.clone());
}
