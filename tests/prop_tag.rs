use outlook_mapi::sys;
use outlook_mapi::{value_kind, PropTag, PropType, PropValueKind, Row, RowSet};

#[test]
fn prop_tag_parts() {
    let tag = PropTag::new(PropType::new(sys::PT_UNICODE as u16), 0x3001);
    assert_eq!(tag.0, 0x3001_001F);
    assert_eq!(tag.prop_id(), 0x3001);
    assert_eq!(u32::from(tag.prop_type()), sys::PT_UNICODE);
    assert_eq!(u32::from(tag), 0x3001_001F);
}

#[test]
fn prop_type_unknown_is_unspecified() {
    assert_eq!(PropType::new(0x0099).value(), sys::PT_UNSPECIFIED);
    assert_eq!(PropType::new(sys::PT_BINARY as u16).value(), sys::PT_BINARY);
    let mv_instance = (sys::PT_MV_LONG | sys::MV_INSTANCE) as u16;
    assert_eq!(PropType::new(mv_instance).value(), 0x3003);
    assert_eq!(PropTag(0x0FFF_4321).prop_type().value(), sys::PT_UNSPECIFIED);
}

#[test]
fn prop_type_flags() {
    let long = PropType::new(sys::PT_LONG as u16);
    let multi = long.add_flags(sys::MV_FLAG);
    assert_eq!(multi.value(), sys::PT_MV_LONG);
    assert_eq!(multi.remove_flags(sys::MV_FLAG).value(), sys::PT_LONG);
    assert_eq!(long.add_flags(0xFFFF_0000).value(), sys::PT_LONG);
}

#[test]
fn change_prop_type_keeps_id() {
    let tag = PropTag(0x0FFF_0102);
    let changed = tag.change_prop_type(PropType::new(sys::PT_NULL as u16));
    assert_eq!(changed.0, 0x0FFF_0001);
    assert_eq!(changed.prop_id(), 0x0FFF);
}

#[test]
fn row_takes_members() {
    let mut source = sys::SRow {
        ulAdrEntryPad: 7,
        cValues: 3,
        lpProps: 0x5000,
    };
    let row = Row::new(&mut source);
    assert_eq!(source.cValues, 0);
    assert_eq!(source.lpProps, 0);
    assert_eq!(source.ulAdrEntryPad, 7);
    assert_eq!(row.len(), 3);
    assert!(!row.is_empty());
    assert_eq!(row.release(), Some(0x5000));
    let mut null_props = sys::SRow {
        ulAdrEntryPad: 0,
        cValues: 3,
        lpProps: 0,
    };
    let row = Row::new(&mut null_props);
    assert_eq!(row.len(), 0);
    assert!(row.is_empty());
    assert_eq!(row.release(), None);
}

#[test]
fn row_set_lengths_and_rows() {
    let mut rows = RowSet::default();
    assert!(rows.is_empty());
    assert_eq!(rows.len(), 0);
    *rows.as_mut_ptr() = Some(sys::SRowSet {
        cRows: 2,
        aRow: vec![
            sys::SRow {
                ulAdrEntryPad: 0,
                cValues: 1,
                lpProps: 0x100,
            },
            sys::SRow {
                ulAdrEntryPad: 0,
                cValues: 4,
                lpProps: 0x200,
            },
        ],
    });
    assert!(!rows.is_empty());
    assert_eq!(rows.len(), 2);
    let out = rows.into_rows();
    assert_eq!(out.len(), 2);
    assert_eq!(out[1].len(), 4);
    assert_eq!(
        out.into_iter().map(|r| r.release()).collect::<Vec<_>>(),
        vec![Some(0x100), Some(0x200)]
    );
    assert!(RowSet::default().into_rows().is_empty());
}

#[test]
fn value_kinds() {
    let tag = |t: u32| PropTag(0x0037_0000 | t);
    assert_eq!(value_kind(tag(sys::PT_NULL)), PropValueKind::Null);
    assert_eq!(value_kind(tag(sys::PT_I2)), PropValueKind::Short);
    assert_eq!(value_kind(tag(sys::PT_PTR)), PropValueKind::Pointer);
    assert_eq!(value_kind(tag(sys::PT_I8)), PropValueKind::LargeInteger);
    assert_eq!(value_kind(tag(sys::PT_UNICODE)), PropValueKind::Unicode);
    assert_eq!(value_kind(tag(sys::PT_MV_CLSID)), PropValueKind::GuidArray);
    assert_eq!(
        value_kind(tag(sys::PT_MV_LONG | sys::MV_INSTANCE)),
        PropValueKind::LongArray
    );
    assert_eq!(value_kind(tag(sys::PT_OBJECT)), PropValueKind::Object);
    assert_eq!(value_kind(tag(sys::PT_ERROR)), PropValueKind::Error);
    assert_eq!(value_kind(tag(0x0099)), PropValueKind::Invalid);
    assert_eq!(value_kind(tag(sys::PT_UNSPECIFIED)), PropValueKind::Invalid);
}
