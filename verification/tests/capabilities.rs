use jvmti_abi::capabilities::{jvmtiCapabilities, Endian, Index, FLAGS};
use jvmti_abi::capability_list::{Position, CAPABILITIES};

fn native() -> Endian {
    if u16::from_ne_bytes([0, 1]) == 1 {
        Endian::Big
    } else {
        Endian::Little
    }
}

#[test]
fn target_order_is_the_order_of_this_machine() {
    assert_eq!(Endian::target(), native());
}

#[test]
fn order_told_by_the_probe() {
    assert_eq!(Endian::from_probe(1), Endian::Big);
    assert_eq!(Endian::from_probe(0x100), Endian::Little);
    assert_eq!(Endian::from_probe(1u16.to_be()), native());
    assert_eq!(Endian::from_probe(1u16.to_be()), Endian::target());
}

#[test]
fn position_under_each_order() {
    assert_eq!(Index::position_in(Endian::Little, 0), Index { byte: 0, mask: 0x01 });
    assert_eq!(Index::position_in(Endian::Little, 7), Index { byte: 0, mask: 0x80 });
    assert_eq!(Index::position_in(Endian::Little, 8), Index { byte: 1, mask: 0x01 });
    assert_eq!(Index::position_in(Endian::Little, 44), Index { byte: 5, mask: 0x10 });
    assert_eq!(Index::position_in(Endian::Little, 127), Index { byte: 15, mask: 0x80 });
    assert_eq!(Index::position_in(Endian::Big, 0), Index { byte: 0, mask: 0x80 });
    assert_eq!(Index::position_in(Endian::Big, 7), Index { byte: 0, mask: 0x01 });
    assert_eq!(Index::position_in(Endian::Big, 8), Index { byte: 1, mask: 0x80 });
    assert_eq!(Index::position_in(Endian::Big, 44), Index { byte: 5, mask: 0x08 });
    assert_eq!(Index::position_in(Endian::Big, 127), Index { byte: 15, mask: 0x01 });
}

#[test]
fn position_on_this_target() {
    for index in 0..FLAGS {
        assert_eq!(Index::position(index), Index::position_in(native(), index));
    }
}

#[test]
fn new_register_is_empty() {
    let empty = jvmtiCapabilities::empty();
    assert_eq!(empty.inner, [0u8; 16]);
    assert_eq!(jvmtiCapabilities::default().inner, [0u8; 16]);
    for bit in 0..FLAGS {
        assert!(!empty.get(bit));
        assert!(!empty.get_in(Endian::Little, bit));
        assert!(!empty.get_in(Endian::Big, bit));
    }
}

#[test]
fn set_then_get() {
    for bit in 0..FLAGS {
        let mut c = jvmtiCapabilities::empty();
        c.set(bit, true);
        assert!(c.get(bit));
        c.set(bit, false);
        assert!(!c.get(bit));
        assert_eq!(c.inner, [0u8; 16]);
    }
}

#[test]
fn set_leaves_every_other_flag() {
    for order in [Endian::Little, Endian::Big] {
        for bit in 0..FLAGS {
            let mut c = jvmtiCapabilities::empty();
            c.set_in(order, bit, true);
            for other in 0..FLAGS {
                assert_eq!(c.get_in(order, other), other == bit);
            }
            let mut full = jvmtiCapabilities { inner: [0xff; 16] };
            full.set_in(order, bit, false);
            for other in 0..FLAGS {
                assert_eq!(full.get_in(order, other), other != bit);
            }
        }
    }
}

#[test]
fn setting_twice_is_setting_once() {
    let mut c = jvmtiCapabilities::empty();
    c.set(5, true);
    let once = c.inner;
    c.set(5, true);
    assert_eq!(c.inner, once);
    c.set(5, false);
    c.set(5, false);
    assert_eq!(c.inner, [0u8; 16]);
}

#[test]
fn bytes_under_each_order() {
    let mut c = jvmtiCapabilities::empty();
    c.set_in(Endian::Little, 0, true);
    c.set_in(Endian::Little, 9, true);
    c.set_in(Endian::Little, 127, true);
    let mut expected = [0u8; 16];
    expected[0] = 0x01;
    expected[1] = 0x02;
    expected[15] = 0x80;
    assert_eq!(c.inner, expected);

    let mut c = jvmtiCapabilities::empty();
    c.set_in(Endian::Big, 0, true);
    c.set_in(Endian::Big, 9, true);
    c.set_in(Endian::Big, 127, true);
    let mut expected = [0u8; 16];
    expected[0] = 0x80;
    expected[1] = 0x40;
    expected[15] = 0x01;
    assert_eq!(c.inner, expected);
}

#[test]
fn bytes_on_this_target() {
    let mut c = jvmtiCapabilities::empty();
    c.set(0, true);
    c.set(44, true);
    let mut expected = jvmtiCapabilities::empty();
    expected.set_in(native(), 0, true);
    expected.set_in(native(), 44, true);
    assert_eq!(c.inner, expected.inner);
    match native() {
        Endian::Little => {
            assert_eq!(c.inner[0], 0x01);
            assert_eq!(c.inner[5], 0x10);
        }
        Endian::Big => {
            assert_eq!(c.inner[0], 0x80);
            assert_eq!(c.inner[5], 0x08);
        }
    }
}

#[test]
fn canonical_list_gives_each_capability_its_position() {
    assert_eq!(CAPABILITIES, 45);
    for n in 0..CAPABILITIES {
        let capability = Position::from_index(n).unwrap();
        assert_eq!(capability.index(), n);
    }
    assert_eq!(Position::from_index(45), None);
    assert_eq!(Position::from_index(usize::MAX), None);
    assert_eq!(Position::can_tag_objects.index(), 0);
    assert_eq!(Position::can_suspend.index(), 20);
    assert_eq!(Position::can_support_virtual_threads.index(), 44);
}

#[test]
fn bit_constants() {
    assert_eq!(jvmtiCapabilities::CAN_TAG_OBJECTS_BIT, 0);
    assert_eq!(jvmtiCapabilities::CAN_GENERATE_FIELD_MODIFICATION_EVENTS_BIT, 1);
    assert_eq!(jvmtiCapabilities::CAN_GET_BYTECODES_BIT, 3);
    assert_eq!(jvmtiCapabilities::CAN_MAINTAIN_ORIGINAL_METHOD_ORDER_BIT, 15);
    assert_eq!(jvmtiCapabilities::CAN_GENERATE_SINGLE_STEP_EVENTS_BIT, 16);
    assert_eq!(jvmtiCapabilities::CAN_GENERATE_GARBAGE_COLLECTION_EVENTS_BIT, 31);
    assert_eq!(jvmtiCapabilities::CAN_GENERATE_OBJECT_FREE_EVENTS_BIT, 32);
    assert_eq!(jvmtiCapabilities::CAN_GENERATE_EARLY_VMSTART_BIT, 41);
    assert_eq!(jvmtiCapabilities::CAN_GENERATE_SAMPLED_OBJECT_ALLOC_EVENTS_BIT, 43);
    assert_eq!(jvmtiCapabilities::CAN_SUPPORT_VIRTUAL_THREADS_BIT, 44);
}

#[test]
fn names() {
    assert_eq!(Position::can_tag_objects.name(), "can_tag_objects");
    assert_eq!(Position::can_pop_frame.name(), "can_pop_frame");
    assert_eq!(
        Position::can_generate_resource_exhaustion_threads_events.name(),
        "can_generate_resource_exhaustion_threads_events"
    );
    assert_eq!(Position::can_support_virtual_threads.name(), "can_support_virtual_threads");
    for n in 0..CAPABILITIES {
        for m in 0..n {
            assert_ne!(
                Position::from_index(n).unwrap().name(),
                Position::from_index(m).unwrap().name()
            );
        }
    }
}

#[test]
fn named_accessors() {
    let mut c = jvmtiCapabilities::empty();
    assert!(!c.can_tag_objects());
    c.set_can_tag_objects(true);
    assert!(c.can_tag_objects());
    assert!(c.get(0));
    assert!(!c.can_generate_field_modification_events());

    c.set_can_suspend(true);
    assert!(c.can_suspend());
    assert!(c.get(jvmtiCapabilities::CAN_SUSPEND_BIT));
    assert!(!c.can_generate_breakpoint_events());
    assert!(!c.can_redefine_any_class());

    c.set_can_support_virtual_threads(true);
    assert!(c.can_support_virtual_threads());
    assert!(c.get(44));
    assert!(!c.can_generate_sampled_object_alloc_events());

    c.set_can_tag_objects(false);
    assert!(!c.can_tag_objects());
    assert!(c.can_suspend());
    assert!(c.can_support_virtual_threads());

    let mut expected = jvmtiCapabilities::empty();
    expected.set(20, true);
    expected.set(44, true);
    assert_eq!(c.inner, expected.inner);
}

#[test]
fn snapshot_names_every_capability() {
    let mut c = jvmtiCapabilities::empty();
    c.set_can_get_bytecodes(true);
    c.set_can_retransform_classes(true);
    let snapshot = c.snapshot();
    assert_eq!(snapshot.len(), 45);
    for (n, (name, value)) in snapshot.iter().enumerate() {
        assert_eq!(*name, Position::from_index(n).unwrap().name());
        assert_eq!(*value, n == 3 || n == 37);
    }
    assert_eq!(snapshot[3], ("can_get_bytecodes", true));
    assert_eq!(snapshot[37], ("can_retransform_classes", true));
    assert_eq!(snapshot[0], ("can_tag_objects", false));
    assert_eq!(c.snapshot_in(native()), snapshot);
}

#[test]
fn snapshot_under_the_other_order_reads_the_other_bits() {
    let mut c = jvmtiCapabilities::empty();
    c.set_in(Endian::Little, 0, true);
    let little = c.snapshot_in(Endian::Little);
    let big = c.snapshot_in(Endian::Big);
    assert!(little[0].1);
    assert!(!little[7].1);
    assert!(!big[0].1);
    assert!(big[7].1);
}
