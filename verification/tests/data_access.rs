use xplm::api::data_access::{
    can_write_data_ref, count_data_refs, element_at, find_data_ref, get_data_b, get_data_d,
    get_data_f, get_data_i, get_data_ref_info, get_data_ref_types, get_data_refs_by_index,
    get_data_vf, get_data_vi, is_data_ref_good, set_data_b, set_data_d, set_data_f, set_data_i,
    set_data_vf, set_data_vi, ArrayRead, ArrayWrite, DataAccessError, DataCall, DataRead, DataRef,
    DataRefArray, DataRefInfo, DataRefString, DataRefValue, DataRefsIter, DataType, DataTypeId,
    DataWrite, Info, IntoDataType, LiveDataRef, RawInfo, ReadOnly, ReadWrite,
};
use xplm::api::plugin::PluginError;
use xplm::ffi::{Double, NulError, Single, Utf8Error};

fn live(raw: usize) -> LiveDataRef {
    DataRef::try_from(raw).unwrap().live(true).unwrap()
}

/// A host that keeps one float array in a buffer and counts what it is asked.
struct ArrayHost {
    data_ref: usize,
    floats: Vec<f32>,
    reads: usize,
    writes: usize,
}

impl ArrayHost {
    fn read(&mut self, call: &DataCall, dest: &mut [Single]) -> usize {
        match call {
            DataCall::GetDatavf { data_ref, offset, max } => {
                assert_eq!(*data_ref, self.data_ref);
                self.reads += 1;
                let offset = *offset as usize;
                let max = *max as usize;
                let mut copied = 0;
                while copied < dest.len()
                    && offset + copied < max
                    && offset + copied < self.floats.len()
                {
                    dest[copied] = Single(self.floats[offset + copied].to_bits());
                    copied += 1;
                }
                copied
            }
            other => panic!("not a float array read: {:?}", other),
        }
    }

    fn write(&mut self, call: &DataCall, src: &[Single]) {
        match call {
            DataCall::SetDatavf { data_ref, offset, count } => {
                assert_eq!(*data_ref, self.data_ref);
                self.writes += 1;
                for i in 0..(*count as usize) {
                    let at = *offset as usize + i;
                    if at < self.floats.len() {
                        self.floats[at] = f32::from_bits(src[i].0);
                    }
                }
            }
            other => panic!("not a float array write: {:?}", other),
        }
    }
}

#[test]
fn orphaned_data_ref_is_refused() {
    let data_ref = DataRef::try_from(4usize).unwrap();
    assert_eq!(data_ref.live(false), Err(DataAccessError::OrphanedDataRef));
    assert_eq!(data_ref.live(true).unwrap().data_ref(), data_ref);
}

#[test]
fn type_bitmap_holds_its_bits() {
    let types = DataTypeId::from(1 | 8);
    assert!(types.contains(DataType::Int));
    assert!(types.contains(DataType::FloatArray));
    assert!(!types.contains(DataType::Float));
    assert!(!types.contains(DataType::Double));
    assert!(!types.contains(DataType::IntArray));
    assert!(!types.contains(DataType::Data));
    assert!(!types.contains(DataType::Unknown));
    assert!(types.is_int_type());
    assert!(types.is_float_array_type());
    assert!(!types.is_float_type());
    assert!(!types.is_double_type());
    assert!(!types.is_int_array_type());
    assert!(!types.is_data_type());
    assert!(!types.is_unknown_type());
}

#[test]
fn empty_type_bitmap_is_unknown() {
    let types = DataTypeId::from(0);
    assert!(types.is_unknown_type());
    assert!(types.contains(DataType::Unknown));
    assert!(!types.contains(DataType::Int));
    let all = DataTypeId::from(63);
    assert!(all.is_int_type() && all.is_float_type() && all.is_double_type());
    assert!(all.is_float_array_type() && all.is_int_array_type() && all.is_data_type());
    assert!(!all.is_unknown_type());
}

#[test]
fn single_type_codes_convert_both_ways() {
    let pairs = [
        (0, DataType::Unknown),
        (1, DataType::Int),
        (2, DataType::Float),
        (4, DataType::Double),
        (8, DataType::FloatArray),
        (16, DataType::IntArray),
        (32, DataType::Data),
    ];
    for (code, data_type) in pairs {
        assert_eq!(DataType::try_from(code), Ok(data_type));
        assert_eq!(i32::from(data_type), code);
    }
    assert_eq!(DataType::try_from(3), Err(DataAccessError::UnknownDataTypeId(3)));
    assert_eq!(DataType::try_from(64), Err(DataAccessError::UnknownDataTypeId(64)));
    assert_eq!(DataType::try_from(-1), Err(DataAccessError::UnknownDataTypeId(-1)));
}

#[test]
fn plugin_types_stand_for_data_types() {
    assert_eq!(<i32 as IntoDataType>::data_type(), DataType::Int);
    assert_eq!(<Single as IntoDataType>::data_type(), DataType::Float);
    assert_eq!(<Double as IntoDataType>::data_type(), DataType::Double);
    assert_eq!(<u8 as IntoDataType>::data_type(), DataType::Data);
}

#[test]
fn value_of_absent_type_is_a_type_mismatch() {
    // The host reports float and double, not integer.
    let types = DataTypeId::from(2 | 4);
    let r = DataRefValue::<i32, ReadOnly>::try_from(live(10), types);
    assert!(matches!(r, Err(DataAccessError::InvalidType)));
    let r = DataRefValue::<Single, ReadOnly>::try_from(live(10), types);
    assert!(r.is_ok());
    let r = DataRefValue::<Double, ReadOnly>::try_from(live(10), types);
    assert!(r.is_ok());
    let r = DataRefValue::<i32, ReadOnly>::try_from(live(10), DataTypeId::from(0));
    assert!(matches!(r, Err(DataAccessError::InvalidType)));
}

#[test]
fn array_of_absent_type_is_a_type_mismatch() {
    // A float alone is no float array.
    let r = DataRefArray::<Single, ReadOnly>::try_from(live(10), DataTypeId::from(2));
    assert!(matches!(r, Err(DataAccessError::InvalidType)));
    let r = DataRefArray::<Single, ReadOnly>::try_from(live(10), DataTypeId::from(8));
    assert!(r.is_ok());
    let r = DataRefArray::<i32, ReadOnly>::try_from(live(10), DataTypeId::from(16));
    assert!(r.is_ok());
    let r = DataRefArray::<i32, ReadOnly>::try_from(live(10), DataTypeId::from(1));
    assert!(matches!(r, Err(DataAccessError::InvalidType)));
    let r = DataRefArray::<u8, ReadOnly>::try_from(live(10), DataTypeId::from(32));
    assert!(r.is_ok());
    // There are no arrays of doubles.
    let r = DataRefArray::<Double, ReadOnly>::try_from(live(10), DataTypeId::from(63));
    assert!(matches!(r, Err(DataAccessError::InvalidType)));
}

#[test]
fn upgrade_follows_the_host() {
    let value = DataRefValue::<i32, ReadOnly>::try_from(live(10), DataTypeId::from(1)).unwrap();
    assert!(matches!(value.writeable(false), Err(DataAccessError::ReadOnlyDataRef)));
    let value = DataRefValue::<i32, ReadOnly>::try_from(live(10), DataTypeId::from(1)).unwrap();
    let mut writable: DataRefValue<i32, ReadWrite> = value.writeable(true).unwrap();
    assert_eq!(writable.write(-7), DataCall::SetDatai { data_ref: 10, value: -7 });
    assert_eq!(writable.read(), DataCall::GetDatai { data_ref: 10 });
    assert_eq!(**writable.inner(), 10);

    let array = DataRefArray::<u8, ReadOnly>::try_from(live(11), DataTypeId::from(32)).unwrap();
    assert!(matches!(array.writeable(false), Err(DataAccessError::ReadOnlyDataRef)));
    let array = DataRefArray::<u8, ReadOnly>::try_from(live(11), DataTypeId::from(32)).unwrap();
    assert!(array.writeable(true).is_ok());
}

#[test]
fn scalar_calls_carry_the_value() {
    let types = DataTypeId::from(1 | 2 | 4);
    let int = DataRefValue::<i32, ReadOnly>::try_from(live(20), types).unwrap();
    assert_eq!(int.read(), DataCall::GetDatai { data_ref: 20 });
    let float = DataRefValue::<Single, ReadOnly>::try_from(live(21), types).unwrap();
    assert_eq!(float.read(), DataCall::GetDataf { data_ref: 21 });
    let mut float = float.writeable(true).unwrap();
    assert_eq!(
        float.write(Single(1.5f32.to_bits())),
        DataCall::SetDataf { data_ref: 21, value: Single(0x3FC0_0000) }
    );
    let double = DataRefValue::<Double, ReadOnly>::try_from(live(22), types).unwrap();
    assert_eq!(double.read(), DataCall::GetDatad { data_ref: 22 });
    let mut double = double.writeable(true).unwrap();
    assert_eq!(
        double.write(Double(2.0f64.to_bits())),
        DataCall::SetDatad { data_ref: 22, value: Double(0x4000_0000_0000_0000) }
    );
}

#[test]
fn offsets_inside_the_window_make_one_call() {
    let array = DataRefArray::<Single, ReadOnly>::try_from(live(30), DataTypeId::from(8))
        .unwrap()
        .writeable(true)
        .unwrap();
    let mut array = array;
    for offset in 0..4usize {
        assert_eq!(
            array.read_at::<4>(offset),
            Ok(DataCall::GetDatavf { data_ref: 30, offset: 0, max: 4 })
        );
        let write = array.write_at::<4>(offset, Single(9)).unwrap();
        assert_eq!(
            write.call,
            DataCall::SetDatavf { data_ref: 30, offset: offset as i32, count: 1 }
        );
        assert_eq!(write.value, Single(9));
    }
}

#[test]
fn offsets_outside_the_window_make_no_call() {
    let mut array = DataRefArray::<Single, ReadOnly>::try_from(live(30), DataTypeId::from(8))
        .unwrap()
        .writeable(true)
        .unwrap();
    for offset in [4usize, 5, 100, usize::MAX] {
        assert_eq!(array.read_at::<4>(offset), Err(DataAccessError::OutOfBounds));
        assert!(matches!(
            array.write_at::<4>(offset, Single(9)),
            Err(DataAccessError::OutOfBounds)
        ));
    }
    assert_eq!(array.read_at::<0>(0), Err(DataAccessError::OutOfBounds));
}

#[test]
fn byte_arrays_use_the_byte_calls() {
    let mut array = DataRefArray::<u8, ReadOnly>::try_from(live(31), DataTypeId::from(32))
        .unwrap()
        .writeable(true)
        .unwrap();
    assert_eq!(array.read(&[0u8; 6]), DataCall::GetDatab { data_ref: 31, offset: 0, max: 6 });
    assert_eq!(
        array.read_at::<16>(15),
        Ok(DataCall::GetDatab { data_ref: 31, offset: 0, max: 16 })
    );
    assert_eq!(array.read_at::<16>(16), Err(DataAccessError::OutOfBounds));
    assert_eq!(array.write(&[1, 2, 3]), DataCall::SetDatab { data_ref: 31, offset: 0, count: 3 });
    let write = array.write_at::<16>(2, 0xAB).unwrap();
    assert_eq!(write.call, DataCall::SetDatab { data_ref: 31, offset: 2, count: 1 });
    assert_eq!(write.value, 0xAB);
    assert!(matches!(array.write_at::<16>(16, 1), Err(DataAccessError::OutOfBounds)));
}

#[test]
fn element_is_read_from_a_full_window_only() {
    let window = [Single(1), Single(2), Single(3), Single(4)];
    assert_eq!(element_at(&window, 4, 0), Ok(Single(1)));
    assert_eq!(element_at(&window, 4, 3), Ok(Single(4)));
    assert_eq!(element_at(&window, 4, 4), Err(DataAccessError::OutOfBounds));
    // The host had fewer than four elements.
    assert_eq!(element_at(&window, 3, 0), Err(DataAccessError::OutOfBounds));
    assert_eq!(element_at(&window, 0, 0), Err(DataAccessError::OutOfBounds));
    assert_eq!(element_at(&window, 5, 0), Err(DataAccessError::OutOfBounds));
}

#[test]
fn written_element_is_read_back() {
    let mut host = ArrayHost { data_ref: 40, floats: vec![0.0; 8], reads: 0, writes: 0 };
    let mut array = DataRefArray::<Single, ReadOnly>::try_from(live(40), DataTypeId::from(8))
        .unwrap()
        .writeable(true)
        .unwrap();

    let write = array.write_at::<8>(3, Single(42.0f32.to_bits())).unwrap();
    host.write(&write.call, &[write.value]);
    assert_eq!(host.writes, 1);
    assert_eq!(host.floats[3], 42.0);

    let call = array.read_at::<8>(3).unwrap();
    let mut window = [Single(0); 8];
    let copied = host.read(&call, &mut window);
    assert_eq!(host.reads, 1);
    let element = element_at(&window, copied, 3).unwrap();
    assert_eq!(f32::from_bits(element.0), 42.0);
}

#[test]
fn out_of_window_access_never_reaches_the_host() {
    let mut host = ArrayHost { data_ref: 40, floats: vec![0.0; 8], reads: 0, writes: 0 };
    let mut array = DataRefArray::<Single, ReadOnly>::try_from(live(40), DataTypeId::from(8))
        .unwrap()
        .writeable(true)
        .unwrap();
    if let Ok(write) = array.write_at::<4>(4, Single(1)) {
        host.write(&write.call, &[write.value]);
    }
    if let Ok(call) = array.read_at::<4>(4) {
        host.read(&call, &mut [Single(0); 4]);
    }
    assert_eq!(host.reads, 0);
    assert_eq!(host.writes, 0);
}

#[test]
fn short_host_array_is_out_of_bounds() {
    let mut host = ArrayHost { data_ref: 40, floats: vec![1.0; 5], reads: 0, writes: 0 };
    let array =
        DataRefArray::<Single, ReadOnly>::try_from(live(40), DataTypeId::from(8)).unwrap();
    let call = array.read_at::<8>(2).unwrap();
    let mut window = [Single(0); 8];
    let copied = host.read(&call, &mut window);
    assert_eq!(copied, 5);
    assert_eq!(element_at(&window, copied, 2), Err(DataAccessError::OutOfBounds));
}

#[test]
fn read_limit_is_the_end_index() {
    let data_ref = DataRef::try_from(50usize).unwrap();
    assert_eq!(
        get_data_vf(&data_ref, 3, &[Single(0); 5]),
        DataCall::GetDatavf { data_ref: 50, offset: 3, max: 8 }
    );
    assert_eq!(
        get_data_vi(&data_ref, 10, &[0i32; 2]),
        DataCall::GetDatavi { data_ref: 50, offset: 10, max: 12 }
    );
    assert_eq!(
        get_data_b(&data_ref, 1, &[0u8; 1]),
        DataCall::GetDatab { data_ref: 50, offset: 1, max: 2 }
    );
    assert_eq!(
        get_data_vf(&data_ref, 0, &[]),
        DataCall::GetDatavf { data_ref: 50, offset: 0, max: 0 }
    );
}

#[test]
fn write_count_is_the_length() {
    let data_ref = DataRef::try_from(50usize).unwrap();
    assert_eq!(
        set_data_vf(&data_ref, 3, &[Single(0); 5]),
        DataCall::SetDatavf { data_ref: 50, offset: 3, count: 5 }
    );
    assert_eq!(
        set_data_vi(&data_ref, 10, &[0i32; 2]),
        DataCall::SetDatavi { data_ref: 50, offset: 10, count: 2 }
    );
    assert_eq!(
        set_data_b(&data_ref, 1, &[0u8; 1]),
        DataCall::SetDatab { data_ref: 50, offset: 1, count: 1 }
    );
}

#[test]
fn plain_calls_name_the_data_ref() {
    let data_ref = DataRef::try_from(60usize).unwrap();
    assert_eq!(count_data_refs(), DataCall::CountDataRefs);
    assert_eq!(get_data_ref_info(&data_ref), DataCall::GetDataRefInfo { data_ref: 60 });
    assert_eq!(can_write_data_ref(&data_ref), DataCall::CanWriteDataRef { data_ref: 60 });
    assert_eq!(is_data_ref_good(&data_ref), DataCall::IsDataRefGood { data_ref: 60 });
    assert_eq!(get_data_ref_types(&data_ref), DataCall::GetDataRefTypes { data_ref: 60 });
    assert_eq!(get_data_i(&data_ref), DataCall::GetDatai { data_ref: 60 });
    assert_eq!(set_data_i(&data_ref, 5), DataCall::SetDatai { data_ref: 60, value: 5 });
    assert_eq!(get_data_f(&data_ref), DataCall::GetDataf { data_ref: 60 });
    assert_eq!(
        set_data_f(&data_ref, Single(7)),
        DataCall::SetDataf { data_ref: 60, value: Single(7) }
    );
    assert_eq!(get_data_d(&data_ref), DataCall::GetDatad { data_ref: 60 });
    assert_eq!(
        set_data_d(&data_ref, Double(8)),
        DataCall::SetDatad { data_ref: 60, value: Double(8) }
    );
}

#[test]
fn lookup_name_becomes_a_c_string() {
    assert_eq!(
        find_data_ref("sim/x"),
        Ok(DataCall::FindDataRef { name: b"sim/x\0".to_vec() })
    );
    assert_eq!(find_data_ref(""), Ok(DataCall::FindDataRef { name: vec![0] }));
}

#[test]
fn lookup_name_with_nul_is_refused() {
    assert_eq!(
        find_data_ref("sim\0x"),
        Err(DataAccessError::InvalidDataRefName(NulError { position: 3 }))
    );
    assert_eq!(
        find_data_ref("\0"),
        Err(DataAccessError::InvalidDataRefName(NulError { position: 0 }))
    );
}

#[test]
fn enumeration_range_is_cut_at_the_end() {
    assert_eq!(
        get_data_refs_by_index(10, 2, 3),
        DataCall::GetDataRefsByIndex { offset: 2, count: 3 }
    );
    assert_eq!(
        get_data_refs_by_index(10, 8, 5),
        DataCall::GetDataRefsByIndex { offset: 8, count: 2 }
    );
    assert_eq!(
        get_data_refs_by_index(10, 12, 5),
        DataCall::GetDataRefsByIndex { offset: 10, count: 0 }
    );
    assert_eq!(
        get_data_refs_by_index(10, 0, 10),
        DataCall::GetDataRefsByIndex { offset: 0, count: 10 }
    );
    assert_eq!(
        get_data_refs_by_index(0, 0, 1),
        DataCall::GetDataRefsByIndex { offset: 0, count: 0 }
    );
    assert_eq!(
        get_data_refs_by_index(10, 1, usize::MAX),
        DataCall::GetDataRefsByIndex { offset: 1, count: 9 }
    );
}

#[test]
fn null_list_is_no_iterator() {
    assert!(matches!(
        DataRefsIter::try_from(None),
        Err(DataAccessError::InvalidDataRefsIterator)
    ));
}

#[test]
fn listed_data_refs_come_in_order() {
    let mut iter = DataRefsIter::try_from(Some(vec![5, 0, 7])).unwrap();
    assert_eq!(iter.next().map(|d| *d), Some(5));
    // A null handle in the list yields nothing.
    assert_eq!(iter.next().map(|d| *d), None);
    assert_eq!(iter.next().map(|d| *d), Some(7));
    assert_eq!(iter.next().map(|d| *d), None);
    assert_eq!(iter.next().map(|d| *d), None);
    let mut empty = DataRefsIter::try_from(Some(vec![])).unwrap();
    assert!(empty.next().is_none());
}

#[test]
fn info_is_read_from_what_the_host_filled() {
    let raw = RawInfo { name: b"sim/time\0junk".to_vec(), data_type: 2, writable: 1, owner: 0 };
    let info = Info::try_from(&raw).unwrap();
    assert_eq!(info.name, "sim/time");
    assert!(info.data_type.is_float_type());
    assert_eq!(*info.owner, 0);
    match DataRefInfo::try_from(&raw).unwrap() {
        DataRefInfo::ReadWrite(info) => assert_eq!(info.name, "sim/time"),
        DataRefInfo::ReadOnly(_) => panic!("writable was set"),
    }
    let raw = RawInfo { writable: 0, ..raw };
    assert!(matches!(DataRefInfo::try_from(&raw), Ok(DataRefInfo::ReadOnly(_))));
    // Only 1 means writable.
    let raw = RawInfo { writable: 2, ..raw };
    assert!(matches!(DataRefInfo::try_from(&raw), Ok(DataRefInfo::ReadOnly(_))));
}

#[test]
fn bad_info_is_refused() {
    let raw = RawInfo { name: vec![0xFF, 0xFE, 0], data_type: 2, writable: 1, owner: -3 };
    assert!(matches!(
        Info::try_from(&raw),
        Err(DataAccessError::InvalidInfoName(Utf8Error))
    ));
    assert!(matches!(
        DataRefInfo::try_from(&raw),
        Err(DataAccessError::InvalidInfoName(Utf8Error))
    ));
    let raw = RawInfo { name: b"ok\0".to_vec(), ..raw };
    assert!(matches!(
        Info::try_from(&raw),
        Err(DataAccessError::Plugin(PluginError::InvalidId(-3)))
    ));
    assert_eq!(
        DataAccessError::from(PluginError::InvalidId(-3)),
        DataAccessError::Plugin(PluginError::InvalidId(-3))
    );
}

#[test]
fn text_data_ref_reads_a_c_string() {
    let text =
        DataRefString::<16, ReadOnly>::try_from(live(70), DataTypeId::from(32)).unwrap();
    assert_eq!(text.try_read(), DataCall::GetDatab { data_ref: 70, offset: 0, max: 16 });
    assert_eq!(text.read(), DataCall::GetDatab { data_ref: 70, offset: 0, max: 16 });
    assert!(matches!(
        DataRefString::<16, ReadOnly>::try_from(live(70), DataTypeId::from(1)),
        Err(DataAccessError::InvalidType)
    ));
    let mut buffer = [0u8; 16];
    buffer[..5].copy_from_slice(b"KSEA\0");
    buffer[6] = b'x';
    assert_eq!(DataRefString::<16, ReadOnly>::try_text(&buffer).unwrap(), "KSEA");
    assert_eq!(DataRefString::<16, ReadOnly>::text(&buffer), "KSEA");
    assert_eq!(DataRefString::<16, ReadOnly>::text(&[0u8; 16]), "");
    // No terminator: the buffer is taken whole.
    assert_eq!(DataRefString::<2, ReadOnly>::try_text(b"ab").unwrap(), "ab");
}

#[test]
fn text_data_ref_refuses_bad_bytes() {
    let buffer = [0xC3u8, 0x28, 0, 0];
    assert_eq!(
        DataRefString::<4, ReadOnly>::try_text(&buffer),
        Err(DataAccessError::InvalidValueString)
    );
    assert_eq!(DataRefString::<4, ReadOnly>::text(&buffer), "");
}

#[test]
fn written_element_is_read_back_at_every_offset() {
    for offset in 0..8usize {
        let before: Vec<f32> = (0..10).map(|i| i as f32).collect();
        let mut host = ArrayHost { data_ref: 40, floats: before.clone(), reads: 0, writes: 0 };
        let mut array = DataRefArray::<Single, ReadOnly>::try_from(live(40), DataTypeId::from(8))
            .unwrap()
            .writeable(true)
            .unwrap();
        let write = array.write_at::<8>(offset, Single(42.5f32.to_bits())).unwrap();
        host.write(&write.call, &[write.value]);
        let call = array.read_at::<8>(offset).unwrap();
        let mut window = [Single(0); 8];
        let copied = host.read(&call, &mut window);
        assert_eq!(copied, 8);
        assert_eq!(element_at(&window, copied, offset), Ok(Single(42.5f32.to_bits())));
        // No other element of the window changed.
        for other in 0..8usize {
            if other != offset {
                assert_eq!(
                    element_at(&window, copied, other),
                    Ok(Single(before[other].to_bits()))
                );
            }
        }
        assert_eq!((host.reads, host.writes), (1, 1));
    }
}
