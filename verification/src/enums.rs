//! The enumerations of the native interface. A value crosses to the native
//! side as the number that `code` gives for it.

use vstd::prelude::*;

verus! {

/// The integer type of the native side's enumerations and constants.
#[allow(non_camel_case_types)]
pub type enum_t = i32;

/// The kind of a reference that a heap walk reports.
#[allow(non_camel_case_types)]
#[derive(Clone, Copy, PartialEq, Eq, Debug, Structural)]
pub enum jvmtiHeapReferenceKind {
    JVMTI_HEAP_REFERENCE_CLASS,
    JVMTI_HEAP_REFERENCE_FIELD,
    JVMTI_HEAP_REFERENCE_ARRAY_ELEMENT,
    JVMTI_HEAP_REFERENCE_CLASS_LOADER,
    JVMTI_HEAP_REFERENCE_SIGNERS,
    JVMTI_HEAP_REFERENCE_PROTECTION_DOMAIN,
    JVMTI_HEAP_REFERENCE_INTERFACE,
    JVMTI_HEAP_REFERENCE_STATIC_FIELD,
    JVMTI_HEAP_REFERENCE_CONSTANT_POOL,
    JVMTI_HEAP_REFERENCE_SUPERCLASS,
    JVMTI_HEAP_REFERENCE_JNI_GLOBAL,
    JVMTI_HEAP_REFERENCE_SYSTEM_CLASS,
    JVMTI_HEAP_REFERENCE_MONITOR,
    JVMTI_HEAP_REFERENCE_STACK_LOCAL,
    JVMTI_HEAP_REFERENCE_JNI_LOCAL,
    JVMTI_HEAP_REFERENCE_THREAD,
    JVMTI_HEAP_REFERENCE_OTHER,
}

impl jvmtiHeapReferenceKind {
    /// The number that stands for the value on the native side.
    pub open spec fn code_of(self) -> int {
        match self {
            jvmtiHeapReferenceKind::JVMTI_HEAP_REFERENCE_CLASS => 1,
            jvmtiHeapReferenceKind::JVMTI_HEAP_REFERENCE_FIELD => 2,
            jvmtiHeapReferenceKind::JVMTI_HEAP_REFERENCE_ARRAY_ELEMENT => 3,
            jvmtiHeapReferenceKind::JVMTI_HEAP_REFERENCE_CLASS_LOADER => 4,
            jvmtiHeapReferenceKind::JVMTI_HEAP_REFERENCE_SIGNERS => 5,
            jvmtiHeapReferenceKind::JVMTI_HEAP_REFERENCE_PROTECTION_DOMAIN => 6,
            jvmtiHeapReferenceKind::JVMTI_HEAP_REFERENCE_INTERFACE => 7,
            jvmtiHeapReferenceKind::JVMTI_HEAP_REFERENCE_STATIC_FIELD => 8,
            jvmtiHeapReferenceKind::JVMTI_HEAP_REFERENCE_CONSTANT_POOL => 9,
            jvmtiHeapReferenceKind::JVMTI_HEAP_REFERENCE_SUPERCLASS => 10,
            jvmtiHeapReferenceKind::JVMTI_HEAP_REFERENCE_JNI_GLOBAL => 21,
            jvmtiHeapReferenceKind::JVMTI_HEAP_REFERENCE_SYSTEM_CLASS => 22,
            jvmtiHeapReferenceKind::JVMTI_HEAP_REFERENCE_MONITOR => 23,
            jvmtiHeapReferenceKind::JVMTI_HEAP_REFERENCE_STACK_LOCAL => 24,
            jvmtiHeapReferenceKind::JVMTI_HEAP_REFERENCE_JNI_LOCAL => 25,
            jvmtiHeapReferenceKind::JVMTI_HEAP_REFERENCE_THREAD => 26,
            jvmtiHeapReferenceKind::JVMTI_HEAP_REFERENCE_OTHER => 27,
        }
    }

    /// The number that stands for the value on the native side.
    pub fn code(self) -> (c: enum_t)
        ensures
            c == self.code_of(),
    {
        match self {
            jvmtiHeapReferenceKind::JVMTI_HEAP_REFERENCE_CLASS => 1,
            jvmtiHeapReferenceKind::JVMTI_HEAP_REFERENCE_FIELD => 2,
            jvmtiHeapReferenceKind::JVMTI_HEAP_REFERENCE_ARRAY_ELEMENT => 3,
            jvmtiHeapReferenceKind::JVMTI_HEAP_REFERENCE_CLASS_LOADER => 4,
            jvmtiHeapReferenceKind::JVMTI_HEAP_REFERENCE_SIGNERS => 5,
            jvmtiHeapReferenceKind::JVMTI_HEAP_REFERENCE_PROTECTION_DOMAIN => 6,
            jvmtiHeapReferenceKind::JVMTI_HEAP_REFERENCE_INTERFACE => 7,
            jvmtiHeapReferenceKind::JVMTI_HEAP_REFERENCE_STATIC_FIELD => 8,
            jvmtiHeapReferenceKind::JVMTI_HEAP_REFERENCE_CONSTANT_POOL => 9,
            jvmtiHeapReferenceKind::JVMTI_HEAP_REFERENCE_SUPERCLASS => 10,
            jvmtiHeapReferenceKind::JVMTI_HEAP_REFERENCE_JNI_GLOBAL => 21,
            jvmtiHeapReferenceKind::JVMTI_HEAP_REFERENCE_SYSTEM_CLASS => 22,
            jvmtiHeapReferenceKind::JVMTI_HEAP_REFERENCE_MONITOR => 23,
            jvmtiHeapReferenceKind::JVMTI_HEAP_REFERENCE_STACK_LOCAL => 24,
            jvmtiHeapReferenceKind::JVMTI_HEAP_REFERENCE_JNI_LOCAL => 25,
            jvmtiHeapReferenceKind::JVMTI_HEAP_REFERENCE_THREAD => 26,
            jvmtiHeapReferenceKind::JVMTI_HEAP_REFERENCE_OTHER => 27,
        }
    }

    /// No two values share a number.
    pub proof fn law_code_identifies(a: jvmtiHeapReferenceKind, b: jvmtiHeapReferenceKind)
        requires
            a.code_of() == b.code_of(),
        ensures
            a == b,
    {
    }
}

/// The type of a primitive value that a heap walk reports.
#[allow(non_camel_case_types)]
#[derive(Clone, Copy, PartialEq, Eq, Debug, Structural)]
pub enum jvmtiPrimitiveType {
    JVMTI_PRIMITIVE_TYPE_BOOLEAN,
    JVMTI_PRIMITIVE_TYPE_BYTE,
    JVMTI_PRIMITIVE_TYPE_CHAR,
    JVMTI_PRIMITIVE_TYPE_SHORT,
    JVMTI_PRIMITIVE_TYPE_INT,
    JVMTI_PRIMITIVE_TYPE_LONG,
    JVMTI_PRIMITIVE_TYPE_FLOAT,
    JVMTI_PRIMITIVE_TYPE_DOUBLE,
}

impl jvmtiPrimitiveType {
    /// The number that stands for the value on the native side.
    pub open spec fn code_of(self) -> int {
        match self {
            jvmtiPrimitiveType::JVMTI_PRIMITIVE_TYPE_BOOLEAN => 90,
            jvmtiPrimitiveType::JVMTI_PRIMITIVE_TYPE_BYTE => 66,
            jvmtiPrimitiveType::JVMTI_PRIMITIVE_TYPE_CHAR => 67,
            jvmtiPrimitiveType::JVMTI_PRIMITIVE_TYPE_SHORT => 83,
            jvmtiPrimitiveType::JVMTI_PRIMITIVE_TYPE_INT => 73,
            jvmtiPrimitiveType::JVMTI_PRIMITIVE_TYPE_LONG => 74,
            jvmtiPrimitiveType::JVMTI_PRIMITIVE_TYPE_FLOAT => 70,
            jvmtiPrimitiveType::JVMTI_PRIMITIVE_TYPE_DOUBLE => 68,
        }
    }

    /// The number that stands for the value on the native side.
    pub fn code(self) -> (c: enum_t)
        ensures
            c == self.code_of(),
    {
        match self {
            jvmtiPrimitiveType::JVMTI_PRIMITIVE_TYPE_BOOLEAN => 90,
            jvmtiPrimitiveType::JVMTI_PRIMITIVE_TYPE_BYTE => 66,
            jvmtiPrimitiveType::JVMTI_PRIMITIVE_TYPE_CHAR => 67,
            jvmtiPrimitiveType::JVMTI_PRIMITIVE_TYPE_SHORT => 83,
            jvmtiPrimitiveType::JVMTI_PRIMITIVE_TYPE_INT => 73,
            jvmtiPrimitiveType::JVMTI_PRIMITIVE_TYPE_LONG => 74,
            jvmtiPrimitiveType::JVMTI_PRIMITIVE_TYPE_FLOAT => 70,
            jvmtiPrimitiveType::JVMTI_PRIMITIVE_TYPE_DOUBLE => 68,
        }
    }

    /// No two values share a number.
    pub proof fn law_code_identifies(a: jvmtiPrimitiveType, b: jvmtiPrimitiveType)
        requires
            a.code_of() == b.code_of(),
        ensures
            a == b,
    {
    }
}

/// Which objects a heap iteration visits, by whether they are tagged.
#[allow(non_camel_case_types)]
#[derive(Clone, Copy, PartialEq, Eq, Debug, Structural)]
pub enum jvmtiHeapObjectFilter {
    JVMTI_HEAP_OBJECT_TAGGED,
    JVMTI_HEAP_OBJECT_UNTAGGED,
    JVMTI_HEAP_OBJECT_EITHER,
}

impl jvmtiHeapObjectFilter {
    /// The number that stands for the value on the native side.
    pub open spec fn code_of(self) -> int {
        match self {
            jvmtiHeapObjectFilter::JVMTI_HEAP_OBJECT_TAGGED => 1,
            jvmtiHeapObjectFilter::JVMTI_HEAP_OBJECT_UNTAGGED => 2,
            jvmtiHeapObjectFilter::JVMTI_HEAP_OBJECT_EITHER => 3,
        }
    }

    /// The number that stands for the value on the native side.
    pub fn code(self) -> (c: enum_t)
        ensures
            c == self.code_of(),
    {
        match self {
            jvmtiHeapObjectFilter::JVMTI_HEAP_OBJECT_TAGGED => 1,
            jvmtiHeapObjectFilter::JVMTI_HEAP_OBJECT_UNTAGGED => 2,
            jvmtiHeapObjectFilter::JVMTI_HEAP_OBJECT_EITHER => 3,
        }
    }

    /// No two values share a number.
    pub proof fn law_code_identifies(a: jvmtiHeapObjectFilter, b: jvmtiHeapObjectFilter)
        requires
            a.code_of() == b.code_of(),
        ensures
            a == b,
    {
    }
}

/// The kind of a heap root.
#[allow(non_camel_case_types)]
#[derive(Clone, Copy, PartialEq, Eq, Debug, Structural)]
pub enum jvmtiHeapRootKind {
    JVMTI_HEAP_ROOT_JNI_GLOBAL,
    JVMTI_HEAP_ROOT_SYSTEM_CLASS,
    JVMTI_HEAP_ROOT_MONITOR,
    JVMTI_HEAP_ROOT_STACK_LOCAL,
    JVMTI_HEAP_ROOT_JNI_LOCAL,
    JVMTI_HEAP_ROOT_THREAD,
    JVMTI_HEAP_ROOT_OTHER,
}

impl jvmtiHeapRootKind {
    /// The number that stands for the value on the native side.
    pub open spec fn code_of(self) -> int {
        match self {
            jvmtiHeapRootKind::JVMTI_HEAP_ROOT_JNI_GLOBAL => 1,
            jvmtiHeapRootKind::JVMTI_HEAP_ROOT_SYSTEM_CLASS => 2,
            jvmtiHeapRootKind::JVMTI_HEAP_ROOT_MONITOR => 3,
            jvmtiHeapRootKind::JVMTI_HEAP_ROOT_STACK_LOCAL => 4,
            jvmtiHeapRootKind::JVMTI_HEAP_ROOT_JNI_LOCAL => 5,
            jvmtiHeapRootKind::JVMTI_HEAP_ROOT_THREAD => 6,
            jvmtiHeapRootKind::JVMTI_HEAP_ROOT_OTHER => 7,
        }
    }

    /// The number that stands for the value on the native side.
    pub fn code(self) -> (c: enum_t)
        ensures
            c == self.code_of(),
    {
        match self {
            jvmtiHeapRootKind::JVMTI_HEAP_ROOT_JNI_GLOBAL => 1,
            jvmtiHeapRootKind::JVMTI_HEAP_ROOT_SYSTEM_CLASS => 2,
            jvmtiHeapRootKind::JVMTI_HEAP_ROOT_MONITOR => 3,
            jvmtiHeapRootKind::JVMTI_HEAP_ROOT_STACK_LOCAL => 4,
            jvmtiHeapRootKind::JVMTI_HEAP_ROOT_JNI_LOCAL => 5,
            jvmtiHeapRootKind::JVMTI_HEAP_ROOT_THREAD => 6,
            jvmtiHeapRootKind::JVMTI_HEAP_ROOT_OTHER => 7,
        }
    }

    /// No two values share a number.
    pub proof fn law_code_identifies(a: jvmtiHeapRootKind, b: jvmtiHeapRootKind)
        requires
            a.code_of() == b.code_of(),
        ensures
            a == b,
    {
    }
}

/// The kind of a reference from one object to another.
#[allow(non_camel_case_types)]
#[derive(Clone, Copy, PartialEq, Eq, Debug, Structural)]
pub enum jvmtiObjectReferenceKind {
    JVMTI_REFERENCE_CLASS,
    JVMTI_REFERENCE_FIELD,
    JVMTI_REFERENCE_ARRAY_ELEMENT,
    JVMTI_REFERENCE_CLASS_LOADER,
    JVMTI_REFERENCE_SIGNERS,
    JVMTI_REFERENCE_PROTECTION_DOMAIN,
    JVMTI_REFERENCE_INTERFACE,
    JVMTI_REFERENCE_STATIC_FIELD,
    JVMTI_REFERENCE_CONSTANT_POOL,
}

impl jvmtiObjectReferenceKind {
    /// The number that stands for the value on the native side.
    pub open spec fn code_of(self) -> int {
        match self {
            jvmtiObjectReferenceKind::JVMTI_REFERENCE_CLASS => 1,
            jvmtiObjectReferenceKind::JVMTI_REFERENCE_FIELD => 2,
            jvmtiObjectReferenceKind::JVMTI_REFERENCE_ARRAY_ELEMENT => 3,
            jvmtiObjectReferenceKind::JVMTI_REFERENCE_CLASS_LOADER => 4,
            jvmtiObjectReferenceKind::JVMTI_REFERENCE_SIGNERS => 5,
            jvmtiObjectReferenceKind::JVMTI_REFERENCE_PROTECTION_DOMAIN => 6,
            jvmtiObjectReferenceKind::JVMTI_REFERENCE_INTERFACE => 7,
            jvmtiObjectReferenceKind::JVMTI_REFERENCE_STATIC_FIELD => 8,
            jvmtiObjectReferenceKind::JVMTI_REFERENCE_CONSTANT_POOL => 9,
        }
    }

    /// The number that stands for the value on the native side.
    pub fn code(self) -> (c: enum_t)
        ensures
            c == self.code_of(),
    {
        match self {
            jvmtiObjectReferenceKind::JVMTI_REFERENCE_CLASS => 1,
            jvmtiObjectReferenceKind::JVMTI_REFERENCE_FIELD => 2,
            jvmtiObjectReferenceKind::JVMTI_REFERENCE_ARRAY_ELEMENT => 3,
            jvmtiObjectReferenceKind::JVMTI_REFERENCE_CLASS_LOADER => 4,
            jvmtiObjectReferenceKind::JVMTI_REFERENCE_SIGNERS => 5,
            jvmtiObjectReferenceKind::JVMTI_REFERENCE_PROTECTION_DOMAIN => 6,
            jvmtiObjectReferenceKind::JVMTI_REFERENCE_INTERFACE => 7,
            jvmtiObjectReferenceKind::JVMTI_REFERENCE_STATIC_FIELD => 8,
            jvmtiObjectReferenceKind::JVMTI_REFERENCE_CONSTANT_POOL => 9,
        }
    }

    /// No two values share a number.
    pub proof fn law_code_identifies(a: jvmtiObjectReferenceKind, b: jvmtiObjectReferenceKind)
        requires
            a.code_of() == b.code_of(),
        ensures
            a == b,
    {
    }
}

/// What a heap callback asks the iteration to do next.
#[allow(non_camel_case_types)]
#[derive(Clone, Copy, PartialEq, Eq, Debug, Structural)]
pub enum jvmtiIterationControl {
    JVMTI_ITERATION_CONTINUE,
    JVMTI_ITERATION_IGNORE,
    JVMTI_ITERATION_ABORT,
}

impl jvmtiIterationControl {
    /// The number that stands for the value on the native side.
    pub open spec fn code_of(self) -> int {
        match self {
            jvmtiIterationControl::JVMTI_ITERATION_CONTINUE => 1,
            jvmtiIterationControl::JVMTI_ITERATION_IGNORE => 2,
            jvmtiIterationControl::JVMTI_ITERATION_ABORT => 0,
        }
    }

    /// The number that stands for the value on the native side.
    pub fn code(self) -> (c: enum_t)
        ensures
            c == self.code_of(),
    {
        match self {
            jvmtiIterationControl::JVMTI_ITERATION_CONTINUE => 1,
            jvmtiIterationControl::JVMTI_ITERATION_IGNORE => 2,
            jvmtiIterationControl::JVMTI_ITERATION_ABORT => 0,
        }
    }

    /// No two values share a number.
    pub proof fn law_code_identifies(a: jvmtiIterationControl, b: jvmtiIterationControl)
        requires
            a.code_of() == b.code_of(),
        ensures
            a == b,
    {
    }
}

/// Whether the notification of an event is switched on or off.
#[allow(non_camel_case_types)]
#[derive(Clone, Copy, PartialEq, Eq, Debug, Structural)]
pub enum jvmtiEventMode {
    JVMTI_ENABLE,
    JVMTI_DISABLE,
}

impl jvmtiEventMode {
    /// The number that stands for the value on the native side.
    pub open spec fn code_of(self) -> int {
        match self {
            jvmtiEventMode::JVMTI_ENABLE => 1,
            jvmtiEventMode::JVMTI_DISABLE => 0,
        }
    }

    /// The number that stands for the value on the native side.
    pub fn code(self) -> (c: enum_t)
        ensures
            c == self.code_of(),
    {
        match self {
            jvmtiEventMode::JVMTI_ENABLE => 1,
            jvmtiEventMode::JVMTI_DISABLE => 0,
        }
    }

    /// No two values share a number.
    pub proof fn law_code_identifies(a: jvmtiEventMode, b: jvmtiEventMode)
        requires
            a.code_of() == b.code_of(),
        ensures
            a == b,
    {
    }
}

/// The base type of a parameter of an extension function or event.
#[allow(non_camel_case_types)]
#[derive(Clone, Copy, PartialEq, Eq, Debug, Structural)]
pub enum jvmtiParamTypes {
    JVMTI_TYPE_JBYTE,
    JVMTI_TYPE_JCHAR,
    JVMTI_TYPE_JSHORT,
    JVMTI_TYPE_JINT,
    JVMTI_TYPE_JLONG,
    JVMTI_TYPE_JFLOAT,
    JVMTI_TYPE_JDOUBLE,
    JVMTI_TYPE_JBOOLEAN,
    JVMTI_TYPE_JOBJECT,
    JVMTI_TYPE_JTHREAD,
    JVMTI_TYPE_JCLASS,
    JVMTI_TYPE_JVALUE,
    JVMTI_TYPE_JFIELDID,
    JVMTI_TYPE_JMETHODID,
    JVMTI_TYPE_CCHAR,
    JVMTI_TYPE_CVOID,
    JVMTI_TYPE_JNIENV,
}

impl jvmtiParamTypes {
    /// The number that stands for the value on the native side.
    pub open spec fn code_of(self) -> int {
        match self {
            jvmtiParamTypes::JVMTI_TYPE_JBYTE => 101,
            jvmtiParamTypes::JVMTI_TYPE_JCHAR => 102,
            jvmtiParamTypes::JVMTI_TYPE_JSHORT => 103,
            jvmtiParamTypes::JVMTI_TYPE_JINT => 104,
            jvmtiParamTypes::JVMTI_TYPE_JLONG => 105,
            jvmtiParamTypes::JVMTI_TYPE_JFLOAT => 106,
            jvmtiParamTypes::JVMTI_TYPE_JDOUBLE => 107,
            jvmtiParamTypes::JVMTI_TYPE_JBOOLEAN => 108,
            jvmtiParamTypes::JVMTI_TYPE_JOBJECT => 109,
            jvmtiParamTypes::JVMTI_TYPE_JTHREAD => 110,
            jvmtiParamTypes::JVMTI_TYPE_JCLASS => 111,
            jvmtiParamTypes::JVMTI_TYPE_JVALUE => 112,
            jvmtiParamTypes::JVMTI_TYPE_JFIELDID => 113,
            jvmtiParamTypes::JVMTI_TYPE_JMETHODID => 114,
            jvmtiParamTypes::JVMTI_TYPE_CCHAR => 115,
            jvmtiParamTypes::JVMTI_TYPE_CVOID => 116,
            jvmtiParamTypes::JVMTI_TYPE_JNIENV => 117,
        }
    }

    /// The number that stands for the value on the native side.
    pub fn code(self) -> (c: enum_t)
        ensures
            c == self.code_of(),
    {
        match self {
            jvmtiParamTypes::JVMTI_TYPE_JBYTE => 101,
            jvmtiParamTypes::JVMTI_TYPE_JCHAR => 102,
            jvmtiParamTypes::JVMTI_TYPE_JSHORT => 103,
            jvmtiParamTypes::JVMTI_TYPE_JINT => 104,
            jvmtiParamTypes::JVMTI_TYPE_JLONG => 105,
            jvmtiParamTypes::JVMTI_TYPE_JFLOAT => 106,
            jvmtiParamTypes::JVMTI_TYPE_JDOUBLE => 107,
            jvmtiParamTypes::JVMTI_TYPE_JBOOLEAN => 108,
            jvmtiParamTypes::JVMTI_TYPE_JOBJECT => 109,
            jvmtiParamTypes::JVMTI_TYPE_JTHREAD => 110,
            jvmtiParamTypes::JVMTI_TYPE_JCLASS => 111,
            jvmtiParamTypes::JVMTI_TYPE_JVALUE => 112,
            jvmtiParamTypes::JVMTI_TYPE_JFIELDID => 113,
            jvmtiParamTypes::JVMTI_TYPE_JMETHODID => 114,
            jvmtiParamTypes::JVMTI_TYPE_CCHAR => 115,
            jvmtiParamTypes::JVMTI_TYPE_CVOID => 116,
            jvmtiParamTypes::JVMTI_TYPE_JNIENV => 117,
        }
    }

    /// No two values share a number.
    pub proof fn law_code_identifies(a: jvmtiParamTypes, b: jvmtiParamTypes)
        requires
            a.code_of() == b.code_of(),
        ensures
            a == b,
    {
    }
}

/// How a parameter of an extension function or event is passed.
#[allow(non_camel_case_types)]
#[derive(Clone, Copy, PartialEq, Eq, Debug, Structural)]
pub enum jvmtiParamKind {
    JVMTI_KIND_IN,
    JVMTI_KIND_IN_PTR,
    JVMTI_KIND_IN_BUF,
    JVMTI_KIND_ALLOC_BUF,
    JVMTI_KIND_ALLOC_ALLOC_BUF,
    JVMTI_KIND_OUT,
    JVMTI_KIND_OUT_BUF,
}

impl jvmtiParamKind {
    /// The number that stands for the value on the native side.
    pub open spec fn code_of(self) -> int {
        match self {
            jvmtiParamKind::JVMTI_KIND_IN => 91,
            jvmtiParamKind::JVMTI_KIND_IN_PTR => 92,
            jvmtiParamKind::JVMTI_KIND_IN_BUF => 93,
            jvmtiParamKind::JVMTI_KIND_ALLOC_BUF => 94,
            jvmtiParamKind::JVMTI_KIND_ALLOC_ALLOC_BUF => 95,
            jvmtiParamKind::JVMTI_KIND_OUT => 96,
            jvmtiParamKind::JVMTI_KIND_OUT_BUF => 97,
        }
    }

    /// The number that stands for the value on the native side.
    pub fn code(self) -> (c: enum_t)
        ensures
            c == self.code_of(),
    {
        match self {
            jvmtiParamKind::JVMTI_KIND_IN => 91,
            jvmtiParamKind::JVMTI_KIND_IN_PTR => 92,
            jvmtiParamKind::JVMTI_KIND_IN_BUF => 93,
            jvmtiParamKind::JVMTI_KIND_ALLOC_BUF => 94,
            jvmtiParamKind::JVMTI_KIND_ALLOC_ALLOC_BUF => 95,
            jvmtiParamKind::JVMTI_KIND_OUT => 96,
            jvmtiParamKind::JVMTI_KIND_OUT_BUF => 97,
        }
    }

    /// No two values share a number.
    pub proof fn law_code_identifies(a: jvmtiParamKind, b: jvmtiParamKind)
        requires
            a.code_of() == b.code_of(),
        ensures
            a == b,
    {
    }
}

/// What a timer measures.
#[allow(non_camel_case_types)]
#[derive(Clone, Copy, PartialEq, Eq, Debug, Structural)]
pub enum jvmtiTimerKind {
    JVMTI_TIMER_USER_CPU,
    JVMTI_TIMER_TOTAL_CPU,
    JVMTI_TIMER_ELAPSED,
}

impl jvmtiTimerKind {
    /// The number that stands for the value on the native side.
    pub open spec fn code_of(self) -> int {
        match self {
            jvmtiTimerKind::JVMTI_TIMER_USER_CPU => 30,
            jvmtiTimerKind::JVMTI_TIMER_TOTAL_CPU => 31,
            jvmtiTimerKind::JVMTI_TIMER_ELAPSED => 32,
        }
    }

    /// The number that stands for the value on the native side.
    pub fn code(self) -> (c: enum_t)
        ensures
            c == self.code_of(),
    {
        match self {
            jvmtiTimerKind::JVMTI_TIMER_USER_CPU => 30,
            jvmtiTimerKind::JVMTI_TIMER_TOTAL_CPU => 31,
            jvmtiTimerKind::JVMTI_TIMER_ELAPSED => 32,
        }
    }

    /// No two values share a number.
    pub proof fn law_code_identifies(a: jvmtiTimerKind, b: jvmtiTimerKind)
        requires
            a.code_of() == b.code_of(),
        ensures
            a == b,
    {
    }
}

/// The phase of the execution of the virtual machine.
#[allow(non_camel_case_types)]
#[derive(Clone, Copy, PartialEq, Eq, Debug, Structural)]
pub enum jvmtiPhase {
    JVMTI_PHASE_ONLOAD,
    JVMTI_PHASE_PRIMORDIAL,
    JVMTI_PHASE_START,
    JVMTI_PHASE_LIVE,
    JVMTI_PHASE_DEAD,
}

impl jvmtiPhase {
    /// The number that stands for the value on the native side.
    pub open spec fn code_of(self) -> int {
        match self {
            jvmtiPhase::JVMTI_PHASE_ONLOAD => 1,
            jvmtiPhase::JVMTI_PHASE_PRIMORDIAL => 2,
            jvmtiPhase::JVMTI_PHASE_START => 6,
            jvmtiPhase::JVMTI_PHASE_LIVE => 4,
            jvmtiPhase::JVMTI_PHASE_DEAD => 8,
        }
    }

    /// The number that stands for the value on the native side.
    pub fn code(self) -> (c: enum_t)
        ensures
            c == self.code_of(),
    {
        match self {
            jvmtiPhase::JVMTI_PHASE_ONLOAD => 1,
            jvmtiPhase::JVMTI_PHASE_PRIMORDIAL => 2,
            jvmtiPhase::JVMTI_PHASE_START => 6,
            jvmtiPhase::JVMTI_PHASE_LIVE => 4,
            jvmtiPhase::JVMTI_PHASE_DEAD => 8,
        }
    }

    /// No two values share a number.
    pub proof fn law_code_identifies(a: jvmtiPhase, b: jvmtiPhase)
        requires
            a.code_of() == b.code_of(),
        ensures
            a == b,
    {
    }
}

/// A kind of verbose output.
#[allow(non_camel_case_types)]
#[derive(Clone, Copy, PartialEq, Eq, Debug, Structural)]
pub enum jvmtiVerboseFlag {
    JVMTI_VERBOSE_OTHER,
    JVMTI_VERBOSE_GC,
    JVMTI_VERBOSE_CLASS,
    JVMTI_VERBOSE_JNI,
}

impl jvmtiVerboseFlag {
    /// The number that stands for the value on the native side.
    pub open spec fn code_of(self) -> int {
        match self {
            jvmtiVerboseFlag::JVMTI_VERBOSE_OTHER => 0,
            jvmtiVerboseFlag::JVMTI_VERBOSE_GC => 1,
            jvmtiVerboseFlag::JVMTI_VERBOSE_CLASS => 2,
            jvmtiVerboseFlag::JVMTI_VERBOSE_JNI => 4,
        }
    }

    /// The number that stands for the value on the native side.
    pub fn code(self) -> (c: enum_t)
        ensures
            c == self.code_of(),
    {
        match self {
            jvmtiVerboseFlag::JVMTI_VERBOSE_OTHER => 0,
            jvmtiVerboseFlag::JVMTI_VERBOSE_GC => 1,
            jvmtiVerboseFlag::JVMTI_VERBOSE_CLASS => 2,
            jvmtiVerboseFlag::JVMTI_VERBOSE_JNI => 4,
        }
    }

    /// No two values share a number.
    pub proof fn law_code_identifies(a: jvmtiVerboseFlag, b: jvmtiVerboseFlag)
        requires
            a.code_of() == b.code_of(),
        ensures
            a == b,
    {
    }
}

/// What a location value stands for.
#[allow(non_camel_case_types)]
#[derive(Clone, Copy, PartialEq, Eq, Debug, Structural)]
pub enum jvmtiJlocationFormat {
    JVMTI_JLOCATION_JVMBCI,
    JVMTI_JLOCATION_MACHINEPC,
    JVMTI_JLOCATION_OTHER,
}

impl jvmtiJlocationFormat {
    /// The number that stands for the value on the native side.
    pub open spec fn code_of(self) -> int {
        match self {
            jvmtiJlocationFormat::JVMTI_JLOCATION_JVMBCI => 1,
            jvmtiJlocationFormat::JVMTI_JLOCATION_MACHINEPC => 2,
            jvmtiJlocationFormat::JVMTI_JLOCATION_OTHER => 0,
        }
    }

    /// The number that stands for the value on the native side.
    pub fn code(self) -> (c: enum_t)
        ensures
            c == self.code_of(),
    {
        match self {
            jvmtiJlocationFormat::JVMTI_JLOCATION_JVMBCI => 1,
            jvmtiJlocationFormat::JVMTI_JLOCATION_MACHINEPC => 2,
            jvmtiJlocationFormat::JVMTI_JLOCATION_OTHER => 0,
        }
    }

    /// No two values share a number.
    pub proof fn law_code_identifies(a: jvmtiJlocationFormat, b: jvmtiJlocationFormat)
        requires
            a.code_of() == b.code_of(),
        ensures
            a == b,
    {
    }
}

/// The result of a call of an interface function.
#[allow(non_camel_case_types)]
#[derive(Clone, Copy, PartialEq, Eq, Debug, Structural)]
pub enum jvmtiError {
    JVMTI_ERROR_NONE,
    JVMTI_ERROR_INVALID_THREAD,
    JVMTI_ERROR_INVALID_THREAD_GROUP,
    JVMTI_ERROR_INVALID_PRIORITY,
    JVMTI_ERROR_THREAD_NOT_SUSPENDED,
    JVMTI_ERROR_THREAD_SUSPENDED,
    JVMTI_ERROR_THREAD_NOT_ALIVE,
    JVMTI_ERROR_INVALID_OBJECT,
    JVMTI_ERROR_INVALID_CLASS,
    JVMTI_ERROR_CLASS_NOT_PREPARED,
    JVMTI_ERROR_INVALID_METHODID,
    JVMTI_ERROR_INVALID_LOCATION,
    JVMTI_ERROR_INVALID_FIELDID,
    JVMTI_ERROR_INVALID_MODULE,
    JVMTI_ERROR_NO_MORE_FRAMES,
    JVMTI_ERROR_OPAQUE_FRAME,
    JVMTI_ERROR_TYPE_MISMATCH,
    JVMTI_ERROR_INVALID_SLOT,
    JVMTI_ERROR_DUPLICATE,
    JVMTI_ERROR_NOT_FOUND,
    JVMTI_ERROR_INVALID_MONITOR,
    JVMTI_ERROR_NOT_MONITOR_OWNER,
    JVMTI_ERROR_INTERRUPT,
    JVMTI_ERROR_INVALID_CLASS_FORMAT,
    JVMTI_ERROR_CIRCULAR_CLASS_DEFINITION,
    JVMTI_ERROR_FAILS_VERIFICATION,
    JVMTI_ERROR_UNSUPPORTED_REDEFINITION_METHOD_ADDED,
    JVMTI_ERROR_UNSUPPORTED_REDEFINITION_SCHEMA_CHANGED,
    JVMTI_ERROR_INVALID_TYPESTATE,
    JVMTI_ERROR_UNSUPPORTED_REDEFINITION_HIERARCHY_CHANGED,
    JVMTI_ERROR_UNSUPPORTED_REDEFINITION_METHOD_DELETED,
    JVMTI_ERROR_UNSUPPORTED_VERSION,
    JVMTI_ERROR_NAMES_DONT_MATCH,
    JVMTI_ERROR_UNSUPPORTED_REDEFINITION_CLASS_MODIFIERS_CHANGED,
    JVMTI_ERROR_UNSUPPORTED_REDEFINITION_METHOD_MODIFIERS_CHANGED,
    JVMTI_ERROR_UNSUPPORTED_REDEFINITION_CLASS_ATTRIBUTE_CHANGED,
    JVMTI_ERROR_UNSUPPORTED_OPERATION,
    JVMTI_ERROR_UNMODIFIABLE_CLASS,
    JVMTI_ERROR_UNMODIFIABLE_MODULE,
    JVMTI_ERROR_NOT_AVAILABLE,
    JVMTI_ERROR_MUST_POSSESS_CAPABILITY,
    JVMTI_ERROR_NULL_POINTER,
    JVMTI_ERROR_ABSENT_INFORMATION,
    JVMTI_ERROR_INVALID_EVENT_TYPE,
    JVMTI_ERROR_ILLEGAL_ARGUMENT,
    JVMTI_ERROR_NATIVE_METHOD,
    JVMTI_ERROR_CLASS_LOADER_UNSUPPORTED,
    JVMTI_ERROR_OUT_OF_MEMORY,
    JVMTI_ERROR_ACCESS_DENIED,
    JVMTI_ERROR_WRONG_PHASE,
    JVMTI_ERROR_INTERNAL,
    JVMTI_ERROR_UNATTACHED_THREAD,
    JVMTI_ERROR_INVALID_ENVIRONMENT,
}

impl jvmtiError {
    pub const JVMTI_ERROR_MAX: jvmtiError = jvmtiError::JVMTI_ERROR_INVALID_ENVIRONMENT;

    /// The number that stands for the value on the native side.
    pub open spec fn code_of(self) -> int {
        match self {
            jvmtiError::JVMTI_ERROR_NONE => 0,
            jvmtiError::JVMTI_ERROR_INVALID_THREAD => 10,
            jvmtiError::JVMTI_ERROR_INVALID_THREAD_GROUP => 11,
            jvmtiError::JVMTI_ERROR_INVALID_PRIORITY => 12,
            jvmtiError::JVMTI_ERROR_THREAD_NOT_SUSPENDED => 13,
            jvmtiError::JVMTI_ERROR_THREAD_SUSPENDED => 14,
            jvmtiError::JVMTI_ERROR_THREAD_NOT_ALIVE => 15,
            jvmtiError::JVMTI_ERROR_INVALID_OBJECT => 20,
            jvmtiError::JVMTI_ERROR_INVALID_CLASS => 21,
            jvmtiError::JVMTI_ERROR_CLASS_NOT_PREPARED => 22,
            jvmtiError::JVMTI_ERROR_INVALID_METHODID => 23,
            jvmtiError::JVMTI_ERROR_INVALID_LOCATION => 24,
            jvmtiError::JVMTI_ERROR_INVALID_FIELDID => 25,
            jvmtiError::JVMTI_ERROR_INVALID_MODULE => 26,
            jvmtiError::JVMTI_ERROR_NO_MORE_FRAMES => 31,
            jvmtiError::JVMTI_ERROR_OPAQUE_FRAME => 32,
            jvmtiError::JVMTI_ERROR_TYPE_MISMATCH => 34,
            jvmtiError::JVMTI_ERROR_INVALID_SLOT => 35,
            jvmtiError::JVMTI_ERROR_DUPLICATE => 40,
            jvmtiError::JVMTI_ERROR_NOT_FOUND => 41,
            jvmtiError::JVMTI_ERROR_INVALID_MONITOR => 50,
            jvmtiError::JVMTI_ERROR_NOT_MONITOR_OWNER => 51,
            jvmtiError::JVMTI_ERROR_INTERRUPT => 52,
            jvmtiError::JVMTI_ERROR_INVALID_CLASS_FORMAT => 60,
            jvmtiError::JVMTI_ERROR_CIRCULAR_CLASS_DEFINITION => 61,
            jvmtiError::JVMTI_ERROR_FAILS_VERIFICATION => 62,
            jvmtiError::JVMTI_ERROR_UNSUPPORTED_REDEFINITION_METHOD_ADDED => 63,
            jvmtiError::JVMTI_ERROR_UNSUPPORTED_REDEFINITION_SCHEMA_CHANGED => 64,
            jvmtiError::JVMTI_ERROR_INVALID_TYPESTATE => 65,
            jvmtiError::JVMTI_ERROR_UNSUPPORTED_REDEFINITION_HIERARCHY_CHANGED => 66,
            jvmtiError::JVMTI_ERROR_UNSUPPORTED_REDEFINITION_METHOD_DELETED => 67,
            jvmtiError::JVMTI_ERROR_UNSUPPORTED_VERSION => 68,
            jvmtiError::JVMTI_ERROR_NAMES_DONT_MATCH => 69,
            jvmtiError::JVMTI_ERROR_UNSUPPORTED_REDEFINITION_CLASS_MODIFIERS_CHANGED => 70,
            jvmtiError::JVMTI_ERROR_UNSUPPORTED_REDEFINITION_METHOD_MODIFIERS_CHANGED => 71,
            jvmtiError::JVMTI_ERROR_UNSUPPORTED_REDEFINITION_CLASS_ATTRIBUTE_CHANGED => 72,
            jvmtiError::JVMTI_ERROR_UNSUPPORTED_OPERATION => 73,
            jvmtiError::JVMTI_ERROR_UNMODIFIABLE_CLASS => 79,
            jvmtiError::JVMTI_ERROR_UNMODIFIABLE_MODULE => 80,
            jvmtiError::JVMTI_ERROR_NOT_AVAILABLE => 98,
            jvmtiError::JVMTI_ERROR_MUST_POSSESS_CAPABILITY => 99,
            jvmtiError::JVMTI_ERROR_NULL_POINTER => 100,
            jvmtiError::JVMTI_ERROR_ABSENT_INFORMATION => 101,
            jvmtiError::JVMTI_ERROR_INVALID_EVENT_TYPE => 102,
            jvmtiError::JVMTI_ERROR_ILLEGAL_ARGUMENT => 103,
            jvmtiError::JVMTI_ERROR_NATIVE_METHOD => 104,
            jvmtiError::JVMTI_ERROR_CLASS_LOADER_UNSUPPORTED => 106,
            jvmtiError::JVMTI_ERROR_OUT_OF_MEMORY => 110,
            jvmtiError::JVMTI_ERROR_ACCESS_DENIED => 111,
            jvmtiError::JVMTI_ERROR_WRONG_PHASE => 112,
            jvmtiError::JVMTI_ERROR_INTERNAL => 113,
            jvmtiError::JVMTI_ERROR_UNATTACHED_THREAD => 115,
            jvmtiError::JVMTI_ERROR_INVALID_ENVIRONMENT => 116,
        }
    }

    /// The number that stands for the value on the native side.
    pub fn code(self) -> (c: enum_t)
        ensures
            c == self.code_of(),
    {
        match self {
            jvmtiError::JVMTI_ERROR_NONE => 0,
            jvmtiError::JVMTI_ERROR_INVALID_THREAD => 10,
            jvmtiError::JVMTI_ERROR_INVALID_THREAD_GROUP => 11,
            jvmtiError::JVMTI_ERROR_INVALID_PRIORITY => 12,
            jvmtiError::JVMTI_ERROR_THREAD_NOT_SUSPENDED => 13,
            jvmtiError::JVMTI_ERROR_THREAD_SUSPENDED => 14,
            jvmtiError::JVMTI_ERROR_THREAD_NOT_ALIVE => 15,
            jvmtiError::JVMTI_ERROR_INVALID_OBJECT => 20,
            jvmtiError::JVMTI_ERROR_INVALID_CLASS => 21,
            jvmtiError::JVMTI_ERROR_CLASS_NOT_PREPARED => 22,
            jvmtiError::JVMTI_ERROR_INVALID_METHODID => 23,
            jvmtiError::JVMTI_ERROR_INVALID_LOCATION => 24,
            jvmtiError::JVMTI_ERROR_INVALID_FIELDID => 25,
            jvmtiError::JVMTI_ERROR_INVALID_MODULE => 26,
            jvmtiError::JVMTI_ERROR_NO_MORE_FRAMES => 31,
            jvmtiError::JVMTI_ERROR_OPAQUE_FRAME => 32,
            jvmtiError::JVMTI_ERROR_TYPE_MISMATCH => 34,
            jvmtiError::JVMTI_ERROR_INVALID_SLOT => 35,
            jvmtiError::JVMTI_ERROR_DUPLICATE => 40,
            jvmtiError::JVMTI_ERROR_NOT_FOUND => 41,
            jvmtiError::JVMTI_ERROR_INVALID_MONITOR => 50,
            jvmtiError::JVMTI_ERROR_NOT_MONITOR_OWNER => 51,
            jvmtiError::JVMTI_ERROR_INTERRUPT => 52,
            jvmtiError::JVMTI_ERROR_INVALID_CLASS_FORMAT => 60,
            jvmtiError::JVMTI_ERROR_CIRCULAR_CLASS_DEFINITION => 61,
            jvmtiError::JVMTI_ERROR_FAILS_VERIFICATION => 62,
            jvmtiError::JVMTI_ERROR_UNSUPPORTED_REDEFINITION_METHOD_ADDED => 63,
            jvmtiError::JVMTI_ERROR_UNSUPPORTED_REDEFINITION_SCHEMA_CHANGED => 64,
            jvmtiError::JVMTI_ERROR_INVALID_TYPESTATE => 65,
            jvmtiError::JVMTI_ERROR_UNSUPPORTED_REDEFINITION_HIERARCHY_CHANGED => 66,
            jvmtiError::JVMTI_ERROR_UNSUPPORTED_REDEFINITION_METHOD_DELETED => 67,
            jvmtiError::JVMTI_ERROR_UNSUPPORTED_VERSION => 68,
            jvmtiError::JVMTI_ERROR_NAMES_DONT_MATCH => 69,
            jvmtiError::JVMTI_ERROR_UNSUPPORTED_REDEFINITION_CLASS_MODIFIERS_CHANGED => 70,
            jvmtiError::JVMTI_ERROR_UNSUPPORTED_REDEFINITION_METHOD_MODIFIERS_CHANGED => 71,
            jvmtiError::JVMTI_ERROR_UNSUPPORTED_REDEFINITION_CLASS_ATTRIBUTE_CHANGED => 72,
            jvmtiError::JVMTI_ERROR_UNSUPPORTED_OPERATION => 73,
            jvmtiError::JVMTI_ERROR_UNMODIFIABLE_CLASS => 79,
            jvmtiError::JVMTI_ERROR_UNMODIFIABLE_MODULE => 80,
            jvmtiError::JVMTI_ERROR_NOT_AVAILABLE => 98,
            jvmtiError::JVMTI_ERROR_MUST_POSSESS_CAPABILITY => 99,
            jvmtiError::JVMTI_ERROR_NULL_POINTER => 100,
            jvmtiError::JVMTI_ERROR_ABSENT_INFORMATION => 101,
            jvmtiError::JVMTI_ERROR_INVALID_EVENT_TYPE => 102,
            jvmtiError::JVMTI_ERROR_ILLEGAL_ARGUMENT => 103,
            jvmtiError::JVMTI_ERROR_NATIVE_METHOD => 104,
            jvmtiError::JVMTI_ERROR_CLASS_LOADER_UNSUPPORTED => 106,
            jvmtiError::JVMTI_ERROR_OUT_OF_MEMORY => 110,
            jvmtiError::JVMTI_ERROR_ACCESS_DENIED => 111,
            jvmtiError::JVMTI_ERROR_WRONG_PHASE => 112,
            jvmtiError::JVMTI_ERROR_INTERNAL => 113,
            jvmtiError::JVMTI_ERROR_UNATTACHED_THREAD => 115,
            jvmtiError::JVMTI_ERROR_INVALID_ENVIRONMENT => 116,
        }
    }

    /// No two values share a number.
    pub proof fn law_code_identifies(a: jvmtiError, b: jvmtiError)
        requires
            a.code_of() == b.code_of(),
        ensures
            a == b,
    {
    }
}

/// The kind of an event.
#[allow(non_camel_case_types)]
#[derive(Clone, Copy, PartialEq, Eq, Debug, Structural)]
pub enum jvmtiEvent {
    JVMTI_EVENT_VM_INIT,
    JVMTI_EVENT_VM_DEATH,
    JVMTI_EVENT_THREAD_START,
    JVMTI_EVENT_THREAD_END,
    JVMTI_EVENT_CLASS_FILE_LOAD_HOOK,
    JVMTI_EVENT_CLASS_LOAD,
    JVMTI_EVENT_CLASS_PREPARE,
    JVMTI_EVENT_VM_START,
    JVMTI_EVENT_EXCEPTION,
    JVMTI_EVENT_EXCEPTION_CATCH,
    JVMTI_EVENT_SINGLE_STEP,
    JVMTI_EVENT_FRAME_POP,
    JVMTI_EVENT_BREAKPOINT,
    JVMTI_EVENT_FIELD_ACCESS,
    JVMTI_EVENT_FIELD_MODIFICATION,
    JVMTI_EVENT_METHOD_ENTRY,
    JVMTI_EVENT_METHOD_EXIT,
    JVMTI_EVENT_NATIVE_METHOD_BIND,
    JVMTI_EVENT_COMPILED_METHOD_LOAD,
    JVMTI_EVENT_COMPILED_METHOD_UNLOAD,
    JVMTI_EVENT_DYNAMIC_CODE_GENERATED,
    JVMTI_EVENT_DATA_DUMP_REQUEST,
    JVMTI_EVENT_MONITOR_WAIT,
    JVMTI_EVENT_MONITOR_WAITED,
    JVMTI_EVENT_MONITOR_CONTENDED_ENTER,
    JVMTI_EVENT_MONITOR_CONTENDED_ENTERED,
    JVMTI_EVENT_RESOURCE_EXHAUSTED,
    JVMTI_EVENT_GARBAGE_COLLECTION_START,
    JVMTI_EVENT_GARBAGE_COLLECTION_FINISH,
    JVMTI_EVENT_OBJECT_FREE,
    JVMTI_EVENT_VM_OBJECT_ALLOC,
    JVMTI_EVENT_SAMPLED_OBJECT_ALLOC,
    JVMTI_EVENT_VIRTUAL_THREAD_START,
    JVMTI_EVENT_VIRTUAL_THREAD_END,
}

impl jvmtiEvent {
    pub const JVMTI_MIN_EVENT_TYPE_VAL: jvmtiEvent = jvmtiEvent::JVMTI_EVENT_VM_INIT;

    pub const JVMTI_MAX_EVENT_TYPE_VAL: jvmtiEvent = jvmtiEvent::JVMTI_EVENT_VIRTUAL_THREAD_END;

    /// The number that stands for the value on the native side.
    pub open spec fn code_of(self) -> int {
        match self {
            jvmtiEvent::JVMTI_EVENT_VM_INIT => 50,
            jvmtiEvent::JVMTI_EVENT_VM_DEATH => 51,
            jvmtiEvent::JVMTI_EVENT_THREAD_START => 52,
            jvmtiEvent::JVMTI_EVENT_THREAD_END => 53,
            jvmtiEvent::JVMTI_EVENT_CLASS_FILE_LOAD_HOOK => 54,
            jvmtiEvent::JVMTI_EVENT_CLASS_LOAD => 55,
            jvmtiEvent::JVMTI_EVENT_CLASS_PREPARE => 56,
            jvmtiEvent::JVMTI_EVENT_VM_START => 57,
            jvmtiEvent::JVMTI_EVENT_EXCEPTION => 58,
            jvmtiEvent::JVMTI_EVENT_EXCEPTION_CATCH => 59,
            jvmtiEvent::JVMTI_EVENT_SINGLE_STEP => 60,
            jvmtiEvent::JVMTI_EVENT_FRAME_POP => 61,
            jvmtiEvent::JVMTI_EVENT_BREAKPOINT => 62,
            jvmtiEvent::JVMTI_EVENT_FIELD_ACCESS => 63,
            jvmtiEvent::JVMTI_EVENT_FIELD_MODIFICATION => 64,
            jvmtiEvent::JVMTI_EVENT_METHOD_ENTRY => 65,
            jvmtiEvent::JVMTI_EVENT_METHOD_EXIT => 66,
            jvmtiEvent::JVMTI_EVENT_NATIVE_METHOD_BIND => 67,
            jvmtiEvent::JVMTI_EVENT_COMPILED_METHOD_LOAD => 68,
            jvmtiEvent::JVMTI_EVENT_COMPILED_METHOD_UNLOAD => 69,
            jvmtiEvent::JVMTI_EVENT_DYNAMIC_CODE_GENERATED => 70,
            jvmtiEvent::JVMTI_EVENT_DATA_DUMP_REQUEST => 71,
            jvmtiEvent::JVMTI_EVENT_MONITOR_WAIT => 73,
            jvmtiEvent::JVMTI_EVENT_MONITOR_WAITED => 74,
            jvmtiEvent::JVMTI_EVENT_MONITOR_CONTENDED_ENTER => 75,
            jvmtiEvent::JVMTI_EVENT_MONITOR_CONTENDED_ENTERED => 76,
            jvmtiEvent::JVMTI_EVENT_RESOURCE_EXHAUSTED => 80,
            jvmtiEvent::JVMTI_EVENT_GARBAGE_COLLECTION_START => 81,
            jvmtiEvent::JVMTI_EVENT_GARBAGE_COLLECTION_FINISH => 82,
            jvmtiEvent::JVMTI_EVENT_OBJECT_FREE => 83,
            jvmtiEvent::JVMTI_EVENT_VM_OBJECT_ALLOC => 84,
            jvmtiEvent::JVMTI_EVENT_SAMPLED_OBJECT_ALLOC => 86,
            jvmtiEvent::JVMTI_EVENT_VIRTUAL_THREAD_START => 87,
            jvmtiEvent::JVMTI_EVENT_VIRTUAL_THREAD_END => 88,
        }
    }

    /// The number that stands for the value on the native side.
    pub fn code(self) -> (c: enum_t)
        ensures
            c == self.code_of(),
    {
        match self {
            jvmtiEvent::JVMTI_EVENT_VM_INIT => 50,
            jvmtiEvent::JVMTI_EVENT_VM_DEATH => 51,
            jvmtiEvent::JVMTI_EVENT_THREAD_START => 52,
            jvmtiEvent::JVMTI_EVENT_THREAD_END => 53,
            jvmtiEvent::JVMTI_EVENT_CLASS_FILE_LOAD_HOOK => 54,
            jvmtiEvent::JVMTI_EVENT_CLASS_LOAD => 55,
            jvmtiEvent::JVMTI_EVENT_CLASS_PREPARE => 56,
            jvmtiEvent::JVMTI_EVENT_VM_START => 57,
            jvmtiEvent::JVMTI_EVENT_EXCEPTION => 58,
            jvmtiEvent::JVMTI_EVENT_EXCEPTION_CATCH => 59,
            jvmtiEvent::JVMTI_EVENT_SINGLE_STEP => 60,
            jvmtiEvent::JVMTI_EVENT_FRAME_POP => 61,
            jvmtiEvent::JVMTI_EVENT_BREAKPOINT => 62,
            jvmtiEvent::JVMTI_EVENT_FIELD_ACCESS => 63,
            jvmtiEvent::JVMTI_EVENT_FIELD_MODIFICATION => 64,
            jvmtiEvent::JVMTI_EVENT_METHOD_ENTRY => 65,
            jvmtiEvent::JVMTI_EVENT_METHOD_EXIT => 66,
            jvmtiEvent::JVMTI_EVENT_NATIVE_METHOD_BIND => 67,
            jvmtiEvent::JVMTI_EVENT_COMPILED_METHOD_LOAD => 68,
            jvmtiEvent::JVMTI_EVENT_COMPILED_METHOD_UNLOAD => 69,
            jvmtiEvent::JVMTI_EVENT_DYNAMIC_CODE_GENERATED => 70,
            jvmtiEvent::JVMTI_EVENT_DATA_DUMP_REQUEST => 71,
            jvmtiEvent::JVMTI_EVENT_MONITOR_WAIT => 73,
            jvmtiEvent::JVMTI_EVENT_MONITOR_WAITED => 74,
            jvmtiEvent::JVMTI_EVENT_MONITOR_CONTENDED_ENTER => 75,
            jvmtiEvent::JVMTI_EVENT_MONITOR_CONTENDED_ENTERED => 76,
            jvmtiEvent::JVMTI_EVENT_RESOURCE_EXHAUSTED => 80,
            jvmtiEvent::JVMTI_EVENT_GARBAGE_COLLECTION_START => 81,
            jvmtiEvent::JVMTI_EVENT_GARBAGE_COLLECTION_FINISH => 82,
            jvmtiEvent::JVMTI_EVENT_OBJECT_FREE => 83,
            jvmtiEvent::JVMTI_EVENT_VM_OBJECT_ALLOC => 84,
            jvmtiEvent::JVMTI_EVENT_SAMPLED_OBJECT_ALLOC => 86,
            jvmtiEvent::JVMTI_EVENT_VIRTUAL_THREAD_START => 87,
            jvmtiEvent::JVMTI_EVENT_VIRTUAL_THREAD_END => 88,
        }
    }

    /// No two values share a number.
    pub proof fn law_code_identifies(a: jvmtiEvent, b: jvmtiEvent)
        requires
            a.code_of() == b.code_of(),
        ensures
            a == b,
    {
    }
}

} // verus!
