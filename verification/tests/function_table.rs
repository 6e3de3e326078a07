use jvmti_abi::assemble::{jni_to_union_impl, Declaration, Shape, Visibility};
use jvmti_abi::config::Config;
use jvmti_abi::fields::FieldDecl;
use jvmti_abi::layout::Member;
use jvmti_abi::version::Version;

const FUNCTIONS: [(&str, Option<&str>); 156] = [
    ("reserved1", Some("reserved")),
    ("SetEventNotificationMode", None),
    ("GetAllModules", Some("9")),
    ("GetAllThreads", None),
    ("SuspendThread", None),
    ("ResumeThread", None),
    ("StopThread", None),
    ("InterruptThread", None),
    ("GetThreadInfo", None),
    ("GetOwnedMonitorInfo", None),
    ("GetCurrentContendedMonitor", None),
    ("RunAgentThread", None),
    ("GetTopThreadGroups", None),
    ("GetThreadGroupInfo", None),
    ("GetThreadGroupChildren", None),
    ("GetFrameCount", None),
    ("GetThreadState", None),
    ("GetCurrentThread", Some("1.1")),
    ("GetFrameLocation", None),
    ("NotifyFramePop", None),
    ("GetLocalObject", None),
    ("GetLocalInt", None),
    ("GetLocalLong", None),
    ("GetLocalFloat", None),
    ("GetLocalDouble", None),
    ("SetLocalObject", None),
    ("SetLocalInt", None),
    ("SetLocalLong", None),
    ("SetLocalFloat", None),
    ("SetLocalDouble", None),
    ("CreateRawMonitor", None),
    ("DestroyRawMonitor", None),
    ("RawMonitorEnter", None),
    ("RawMonitorExit", None),
    ("RawMonitorWait", None),
    ("RawMonitorNotify", None),
    ("RawMonitorNotifyAll", None),
    ("SetBreakpoint", None),
    ("ClearBreakpoint", None),
    ("GetNamedModule", Some("9")),
    ("SetFieldAccessWatch", None),
    ("ClearFieldAccessWatch", None),
    ("SetFieldModificationWatch", None),
    ("ClearFieldModificationWatch", None),
    ("IsModifiableClass", Some("1.1")),
    ("Allocate", None),
    ("Deallocate", None),
    ("GetClassSignature", None),
    ("GetClassStatus", None),
    ("GetSourceFileName", None),
    ("GetClassModifiers", None),
    ("GetClassMethods", None),
    ("GetClassFields", None),
    ("GetImplementedInterfaces", None),
    ("IsInterface", None),
    ("IsArrayClass", None),
    ("GetClassLoader", None),
    ("GetObjectHashCode", None),
    ("GetObjectMonitorUsage", None),
    ("GetFieldName", None),
    ("GetFieldDeclaringClass", None),
    ("GetFieldModifiers", None),
    ("IsFieldSynthetic", None),
    ("GetMethodName", None),
    ("GetMethodDeclaringClass", None),
    ("GetMethodModifiers", None),
    ("ClearAllFramePops", Some("25")),
    ("GetMaxLocals", None),
    ("GetArgumentsSize", None),
    ("GetLineNumberTable", None),
    ("GetMethodLocation", None),
    ("GetLocalVariableTable", None),
    ("SetNativeMethodPrefix", Some("1.1")),
    ("SetNativeMethodPrefixes", Some("1.1")),
    ("GetBytecodes", None),
    ("IsMethodNative", None),
    ("IsMethodSynthetic", None),
    ("GetLoadedClasses", None),
    ("GetClassLoaderClasses", None),
    ("PopFrame", None),
    ("ForceEarlyReturnObject", Some("1.1")),
    ("ForceEarlyReturnInt", Some("1.1")),
    ("ForceEarlyReturnLong", Some("1.1")),
    ("ForceEarlyReturnFloat", Some("1.1")),
    ("ForceEarlyReturnDouble", Some("1.1")),
    ("ForceEarlyReturnVoid", Some("1.1")),
    ("RedefineClasses", None),
    ("GetVersionNumber", None),
    ("GetCapabilities", None),
    ("GetSourceDebugExtension", None),
    ("IsMethodObsolete", None),
    ("SuspendThreadList", None),
    ("ResumeThreadList", None),
    ("AddModuleReads", Some("9")),
    ("AddModuleExports", Some("9")),
    ("AddModuleOpens", Some("9")),
    ("AddModuleUses", Some("9")),
    ("AddModuleProvides", Some("9")),
    ("IsModifiableModule", Some("9")),
    ("GetAllStackTraces", None),
    ("GetThreadListStackTraces", None),
    ("GetThreadLocalStorage", None),
    ("SetThreadLocalStorage", None),
    ("GetStackTrace", None),
    ("reserved105", Some("reserved")),
    ("GetTag", None),
    ("SetTag", None),
    ("ForceGarbageCollection", None),
    ("IterateOverObjectsReachableFromObject", None),
    ("IterateOverReachableObjects", None),
    ("IterateOverHeap", None),
    ("IterateOverInstancesOfClass", None),
    ("reserved113", Some("reserved")),
    ("GetObjectsWithTags", None),
    ("FollowReferences", Some("1.1")),
    ("IterateThroughHeap", Some("1.1")),
    ("reserved117", Some("reserved")),
    ("SuspendAllVirtualThreads", Some("21")),
    ("ResumeAllVirtualThreads", Some("21")),
    ("SetJNIFunctionTable", None),
    ("GetJNIFunctionTable", None),
    ("SetEventCallbacks", None),
    ("GenerateEvents", None),
    ("GetExtensionFunctions", None),
    ("GetExtensionEvents", None),
    ("SetExtensionEventCallback", None),
    ("DisposeEnvironment", None),
    ("GetErrorName", None),
    ("GetJLocationFormat", None),
    ("GetSystemProperties", None),
    ("GetSystemProperty", None),
    ("SetSystemProperty", None),
    ("GetPhase", None),
    ("GetCurrentThreadCpuTimerInfo", None),
    ("GetCurrentThreadCpuTime", None),
    ("GetThreadCpuTimerInfo", None),
    ("GetThreadCpuTime", None),
    ("GetTimerInfo", None),
    ("GetTime", None),
    ("GetPotentialCapabilities", None),
    ("reserved141", Some("reserved")),
    ("AddCapabilities", None),
    ("RelinquishCapabilities", None),
    ("GetAvailableProcessors", None),
    ("GetClassVersionNumbers", Some("1.1")),
    ("GetConstantPool", Some("1.1")),
    ("GetEnvironmentLocalStorage", None),
    ("SetEnvironmentLocalStorage", None),
    ("AddToBootstrapClassLoaderSearch", None),
    ("SetVerboseFlag", None),
    ("AddToSystemClassLoaderSearch", Some("1.1")),
    ("RetransformClasses", Some("1.1")),
    ("GetOwnedMonitorStackDepthInfo", Some("1.1")),
    ("GetObjectSize", None),
    ("GetLocalInstance", Some("1.2")),
    ("SetHeapSamplingInterval", Some("11")),
];

fn table() -> Declaration {
    Declaration {
        visibility: Visibility::Public,
        name: "jvmtiInterface_1_".to_string(),
        shape: Shape::NamedStruct,
        fields: FUNCTIONS
            .iter()
            .map(|(name, added)| FieldDecl { name: name.to_string(), added: added.map(str::to_string) })
            .collect(),
    }
}

fn config() -> Config {
    Config { name: "JVMTI".to_string(), version_default: Version { major: 1, minor: 0 } }
}

#[test]
fn function_table_has_one_layout_for_each_of_its_versions() {
    let generated = jni_to_union_impl(config(), table()).ok().unwrap();
    let expected = [
        ((1, 0), "jvmtiInterface_1__1", "v1", 154, 33),
        ((1, 1), "jvmtiInterface_1__1_1", "v1_1", 154, 16),
        ((1, 2), "jvmtiInterface_1__1_2", "v1_2", 155, 16),
        ((9, 0), "jvmtiInterface_1__9", "v9", 155, 8),
        ((11, 0), "jvmtiInterface_1__11", "v11", 156, 8),
        ((21, 0), "jvmtiInterface_1__21", "v21", 156, 6),
        ((25, 0), "jvmtiInterface_1__25", "v25", 156, 5),
        ((999, 0), "jvmtiInterface_1__reserved", "reserved", 156, 0),
    ];
    assert_eq!(generated.structs.len(), expected.len());
    assert_eq!(generated.union_type.alternatives.len(), expected.len());
    assert_eq!(generated.union_type.name, "jvmtiInterface_1_");
    for (k, ((major, minor), name, alternative, members, paddings)) in expected.iter().enumerate() {
        let layout = &generated.structs[k];
        assert_eq!(layout.version, Version { major: *major, minor: *minor });
        assert_eq!(layout.name, *name);
        assert_eq!(layout.members.len(), *members);
        let padded = layout.members.iter().filter(|m| matches!(m, Member::Padding(_))).count();
        assert_eq!(padded, *paddings);
        assert_eq!(generated.union_type.alternatives[k].name, *alternative);
        assert_eq!(generated.union_type.alternatives[k].struct_name, *name);
    }
    assert_eq!(
        generated.union_type.alternatives[0].doc,
        "valid when runtime version ≥ JVMTI_VERSION_1"
    );
    assert_eq!(
        generated.union_type.alternatives[7].doc,
        "valid when runtime version ≥ JVMTI_VERSION_reserved"
    );
}

#[test]
fn function_table_keeps_every_function_at_its_place() {
    let generated = jni_to_union_impl(config(), table()).ok().unwrap();
    for layout in &generated.structs {
        let mut paddings = 0;
        for (place, member) in layout.members.iter().enumerate() {
            match member {
                Member::Field(index) => assert_eq!(*index, place),
                Member::Padding(number) => {
                    assert_eq!(*number, paddings);
                    paddings += 1;
                }
            }
        }
    }
    let first = &generated.structs[0].members;
    assert_eq!(FUNCTIONS[0].0, "reserved1");
    assert_eq!(first[0], Member::Padding(0));
    assert_eq!(FUNCTIONS[1].0, "SetEventNotificationMode");
    assert_eq!(first[1], Member::Field(1));
    assert_eq!(FUNCTIONS[2].0, "GetAllModules");
    assert_eq!(first[2], Member::Padding(1));
    assert_eq!(FUNCTIONS[3].0, "GetAllThreads");
    assert_eq!(first[3], Member::Field(3));
    let reserved = &generated.structs[7].members;
    for place in 0..156 {
        assert_eq!(reserved[place], Member::Field(place));
    }
    assert_eq!(generated.structs[3].members[2], Member::Field(2));
    assert_eq!(FUNCTIONS[155].1, Some("11"));
    assert_eq!(generated.structs[3].members.len(), 155);
    assert_eq!(generated.structs[4].members[155], Member::Field(155));
}
