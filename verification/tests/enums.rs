use jvmti_abi::constants::{
    JVMTI_CLASS_STATUS_PRIMITIVE, JVMTI_HEAP_FILTER_CLASS_UNTAGGED,
    JVMTI_JAVA_LANG_THREAD_STATE_BLOCKED, JVMTI_JAVA_LANG_THREAD_STATE_MASK,
    JVMTI_JAVA_LANG_THREAD_STATE_NEW, JVMTI_JAVA_LANG_THREAD_STATE_RUNNABLE,
    JVMTI_JAVA_LANG_THREAD_STATE_TERMINATED, JVMTI_JAVA_LANG_THREAD_STATE_TIMED_WAITING,
    JVMTI_JAVA_LANG_THREAD_STATE_WAITING, JVMTI_RESOURCE_EXHAUSTED_THREADS,
    JVMTI_THREAD_MAX_PRIORITY, JVMTI_THREAD_STATE_VENDOR_3, JVMTI_VERSION, JVMTI_VERSION_1,
    JVMTI_VERSION_11, JVMTI_VERSION_19, JVMTI_VERSION_1_0, JVMTI_VERSION_1_1, JVMTI_VERSION_1_2,
    JVMTI_VERSION_21, JVMTI_VERSION_9, JVMTI_VERSION_INTERFACE_JVMTI, JVMTI_VERSION_MASK_MAJOR,
    JVMTI_VERSION_MASK_MINOR, JVMTI_VERSION_SHIFT_MAJOR, JVMTI_VERSION_SHIFT_MINOR,
    JVMTI_VISIT_ABORT,
};
use jvmti_abi::enums::{
    jvmtiError, jvmtiEvent, jvmtiEventMode, jvmtiHeapObjectFilter, jvmtiHeapReferenceKind,
    jvmtiHeapRootKind, jvmtiIterationControl, jvmtiJlocationFormat, jvmtiObjectReferenceKind,
    jvmtiParamKind, jvmtiParamTypes, jvmtiPhase, jvmtiPrimitiveType, jvmtiTimerKind,
    jvmtiVerboseFlag,
};

#[test]
fn error_codes() {
    assert_eq!(jvmtiError::JVMTI_ERROR_NONE.code(), 0);
    assert_eq!(jvmtiError::JVMTI_ERROR_INVALID_THREAD.code(), 10);
    assert_eq!(jvmtiError::JVMTI_ERROR_NO_MORE_FRAMES.code(), 31);
    assert_eq!(jvmtiError::JVMTI_ERROR_UNMODIFIABLE_MODULE.code(), 80);
    assert_eq!(jvmtiError::JVMTI_ERROR_MUST_POSSESS_CAPABILITY.code(), 99);
    assert_eq!(jvmtiError::JVMTI_ERROR_INVALID_ENVIRONMENT.code(), 116);
    assert_eq!(jvmtiError::JVMTI_ERROR_MAX, jvmtiError::JVMTI_ERROR_INVALID_ENVIRONMENT);
    assert_eq!(jvmtiError::JVMTI_ERROR_MAX.code(), 116);
}

#[test]
fn event_codes() {
    assert_eq!(jvmtiEvent::JVMTI_EVENT_VM_INIT.code(), 50);
    assert_eq!(jvmtiEvent::JVMTI_EVENT_DATA_DUMP_REQUEST.code(), 71);
    assert_eq!(jvmtiEvent::JVMTI_EVENT_MONITOR_WAIT.code(), 73);
    assert_eq!(jvmtiEvent::JVMTI_EVENT_VM_OBJECT_ALLOC.code(), 84);
    assert_eq!(jvmtiEvent::JVMTI_EVENT_SAMPLED_OBJECT_ALLOC.code(), 86);
    assert_eq!(jvmtiEvent::JVMTI_EVENT_VIRTUAL_THREAD_END.code(), 88);
    assert_eq!(jvmtiEvent::JVMTI_MIN_EVENT_TYPE_VAL.code(), 50);
    assert_eq!(jvmtiEvent::JVMTI_MAX_EVENT_TYPE_VAL.code(), 88);
}

#[test]
fn codes_that_are_not_in_declaration_order() {
    assert_eq!(jvmtiPrimitiveType::JVMTI_PRIMITIVE_TYPE_BOOLEAN.code(), 90);
    assert_eq!(jvmtiPrimitiveType::JVMTI_PRIMITIVE_TYPE_BYTE.code(), 66);
    assert_eq!(jvmtiPrimitiveType::JVMTI_PRIMITIVE_TYPE_CHAR.code(), 67);
    assert_eq!(jvmtiPrimitiveType::JVMTI_PRIMITIVE_TYPE_SHORT.code(), 83);
    assert_eq!(jvmtiPrimitiveType::JVMTI_PRIMITIVE_TYPE_INT.code(), 73);
    assert_eq!(jvmtiPrimitiveType::JVMTI_PRIMITIVE_TYPE_LONG.code(), 74);
    assert_eq!(jvmtiPrimitiveType::JVMTI_PRIMITIVE_TYPE_FLOAT.code(), 70);
    assert_eq!(jvmtiPrimitiveType::JVMTI_PRIMITIVE_TYPE_DOUBLE.code(), 68);
    assert_eq!(jvmtiIterationControl::JVMTI_ITERATION_CONTINUE.code(), 1);
    assert_eq!(jvmtiIterationControl::JVMTI_ITERATION_IGNORE.code(), 2);
    assert_eq!(jvmtiIterationControl::JVMTI_ITERATION_ABORT.code(), 0);
    assert_eq!(jvmtiEventMode::JVMTI_ENABLE.code(), 1);
    assert_eq!(jvmtiEventMode::JVMTI_DISABLE.code(), 0);
    assert_eq!(jvmtiPhase::JVMTI_PHASE_START.code(), 6);
    assert_eq!(jvmtiPhase::JVMTI_PHASE_LIVE.code(), 4);
    assert_eq!(jvmtiPhase::JVMTI_PHASE_DEAD.code(), 8);
    assert_eq!(jvmtiJlocationFormat::JVMTI_JLOCATION_OTHER.code(), 0);
    assert_eq!(jvmtiJlocationFormat::JVMTI_JLOCATION_JVMBCI.code(), 1);
}

#[test]
fn codes_of_the_other_enumerations() {
    assert_eq!(jvmtiHeapReferenceKind::JVMTI_HEAP_REFERENCE_CLASS.code(), 1);
    assert_eq!(jvmtiHeapReferenceKind::JVMTI_HEAP_REFERENCE_SUPERCLASS.code(), 10);
    assert_eq!(jvmtiHeapReferenceKind::JVMTI_HEAP_REFERENCE_JNI_GLOBAL.code(), 21);
    assert_eq!(jvmtiHeapReferenceKind::JVMTI_HEAP_REFERENCE_OTHER.code(), 27);
    assert_eq!(jvmtiHeapObjectFilter::JVMTI_HEAP_OBJECT_EITHER.code(), 3);
    assert_eq!(jvmtiHeapRootKind::JVMTI_HEAP_ROOT_OTHER.code(), 7);
    assert_eq!(jvmtiObjectReferenceKind::JVMTI_REFERENCE_CONSTANT_POOL.code(), 9);
    assert_eq!(jvmtiParamTypes::JVMTI_TYPE_JBYTE.code(), 101);
    assert_eq!(jvmtiParamTypes::JVMTI_TYPE_JNIENV.code(), 117);
    assert_eq!(jvmtiParamKind::JVMTI_KIND_IN.code(), 91);
    assert_eq!(jvmtiParamKind::JVMTI_KIND_OUT_BUF.code(), 97);
    assert_eq!(jvmtiTimerKind::JVMTI_TIMER_USER_CPU.code(), 30);
    assert_eq!(jvmtiTimerKind::JVMTI_TIMER_ELAPSED.code(), 32);
    assert_eq!(jvmtiVerboseFlag::JVMTI_VERBOSE_OTHER.code(), 0);
    assert_eq!(jvmtiVerboseFlag::JVMTI_VERBOSE_JNI.code(), 4);
}

#[test]
fn version_constants() {
    assert_eq!(JVMTI_VERSION_1, 0x30010000);
    assert_eq!(JVMTI_VERSION_1_0, 0x30010000);
    assert_eq!(JVMTI_VERSION_1_1, 0x30010100);
    assert_eq!(JVMTI_VERSION_1_2, 0x30010200);
    assert_eq!(JVMTI_VERSION_9, 0x30090000);
    assert_eq!(JVMTI_VERSION_11, 0x300B0000);
    assert_eq!(JVMTI_VERSION_19, 0x30130000);
    assert_eq!(JVMTI_VERSION_21, 0x30150000);
    assert_eq!(JVMTI_VERSION, 0x30190000);
    assert_eq!(JVMTI_VERSION_INTERFACE_JVMTI, 0x30000000);
    assert_eq!((JVMTI_VERSION_21 & JVMTI_VERSION_MASK_MAJOR) >> JVMTI_VERSION_SHIFT_MAJOR, 21);
    assert_eq!((JVMTI_VERSION_1_2 & JVMTI_VERSION_MASK_MINOR) >> JVMTI_VERSION_SHIFT_MINOR, 2);
}

#[test]
fn thread_state_constants() {
    assert_eq!(JVMTI_JAVA_LANG_THREAD_STATE_MASK, 0x04b7);
    assert_eq!(JVMTI_JAVA_LANG_THREAD_STATE_NEW, 0);
    assert_eq!(JVMTI_JAVA_LANG_THREAD_STATE_TERMINATED, 0x0002);
    assert_eq!(JVMTI_JAVA_LANG_THREAD_STATE_RUNNABLE, 0x0005);
    assert_eq!(JVMTI_JAVA_LANG_THREAD_STATE_BLOCKED, 0x0401);
    assert_eq!(JVMTI_JAVA_LANG_THREAD_STATE_WAITING, 0x0091);
    assert_eq!(JVMTI_JAVA_LANG_THREAD_STATE_TIMED_WAITING, 0x00a1);
    assert_eq!(JVMTI_THREAD_STATE_VENDOR_3, 0x40000000);
}

#[test]
fn other_constants() {
    assert_eq!(JVMTI_THREAD_MAX_PRIORITY, 10);
    assert_eq!(JVMTI_HEAP_FILTER_CLASS_UNTAGGED, 0x20);
    assert_eq!(JVMTI_VISIT_ABORT, 0x8000);
    assert_eq!(JVMTI_CLASS_STATUS_PRIMITIVE, 32);
    assert_eq!(JVMTI_RESOURCE_EXHAUSTED_THREADS, 4);
}
