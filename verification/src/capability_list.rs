//! The canonical list of capabilities and, for each of them, the index of its
//! bit and its two accessors.
//!
//! The list is append-only: a capability keeps the position, and so the bit,
//! that it was given when it was added.

use vstd::prelude::*;

use crate::capabilities::{jvmtiCapabilities, Endian, FLAGS};

verus! {

/// How many capabilities the canonical list names.
pub const CAPABILITIES: usize = 45;

/// The capabilities, in the order of the canonical list.
#[allow(non_camel_case_types)]
#[derive(Debug, Copy, Clone, PartialEq, Eq, Hash, Structural)]
pub enum Position {
    can_tag_objects,
    can_generate_field_modification_events,
    can_generate_field_access_events,
    can_get_bytecodes,
    can_get_synthetic_attribute,
    can_get_owned_monitor_info,
    can_get_current_contended_monitor,
    can_get_monitor_info,
    can_pop_frame,
    can_redefine_classes,
    can_signal_thread,
    can_get_source_file_name,
    can_get_line_numbers,
    can_get_source_debug_extension,
    can_access_local_variables,
    can_maintain_original_method_order,
    can_generate_single_step_events,
    can_generate_exception_events,
    can_generate_frame_pop_events,
    can_generate_breakpoint_events,
    can_suspend,
    can_redefine_any_class,
    can_get_current_thread_cpu_time,
    can_get_thread_cpu_time,
    can_generate_method_entry_events,
    can_generate_method_exit_events,
    can_generate_all_class_hook_events,
    can_generate_compiled_method_load_events,
    can_generate_monitor_events,
    can_generate_vm_object_alloc_events,
    can_generate_native_method_bind_events,
    can_generate_garbage_collection_events,
    can_generate_object_free_events,
    can_force_early_return,
    can_get_owned_monitor_stack_depth_info,
    can_get_constant_pool,
    can_set_native_method_prefix,
    can_retransform_classes,
    can_retransform_any_class,
    can_generate_resource_exhaustion_heap_events,
    can_generate_resource_exhaustion_threads_events,
    can_generate_early_vmstart,
    can_generate_early_class_hook_events,
    can_generate_sampled_object_alloc_events,
    can_support_virtual_threads,
}

/// The canonical list.
pub open spec fn canonical_list() -> Seq<Position> {
    seq![
        Position::can_tag_objects,
        Position::can_generate_field_modification_events,
        Position::can_generate_field_access_events,
        Position::can_get_bytecodes,
        Position::can_get_synthetic_attribute,
        Position::can_get_owned_monitor_info,
        Position::can_get_current_contended_monitor,
        Position::can_get_monitor_info,
        Position::can_pop_frame,
        Position::can_redefine_classes,
        Position::can_signal_thread,
        Position::can_get_source_file_name,
        Position::can_get_line_numbers,
        Position::can_get_source_debug_extension,
        Position::can_access_local_variables,
        Position::can_maintain_original_method_order,
        Position::can_generate_single_step_events,
        Position::can_generate_exception_events,
        Position::can_generate_frame_pop_events,
        Position::can_generate_breakpoint_events,
        Position::can_suspend,
        Position::can_redefine_any_class,
        Position::can_get_current_thread_cpu_time,
        Position::can_get_thread_cpu_time,
        Position::can_generate_method_entry_events,
        Position::can_generate_method_exit_events,
        Position::can_generate_all_class_hook_events,
        Position::can_generate_compiled_method_load_events,
        Position::can_generate_monitor_events,
        Position::can_generate_vm_object_alloc_events,
        Position::can_generate_native_method_bind_events,
        Position::can_generate_garbage_collection_events,
        Position::can_generate_object_free_events,
        Position::can_force_early_return,
        Position::can_get_owned_monitor_stack_depth_info,
        Position::can_get_constant_pool,
        Position::can_set_native_method_prefix,
        Position::can_retransform_classes,
        Position::can_retransform_any_class,
        Position::can_generate_resource_exhaustion_heap_events,
        Position::can_generate_resource_exhaustion_threads_events,
        Position::can_generate_early_vmstart,
        Position::can_generate_early_class_hook_events,
        Position::can_generate_sampled_object_alloc_events,
        Position::can_support_virtual_threads,
    ]
}

impl Position {
    /// The index of the capability's bit in the register.
    pub open spec fn bit(self) -> int {
        match self {
            Position::can_tag_objects => jvmtiCapabilities::CAN_TAG_OBJECTS_BIT as int,
            Position::can_generate_field_modification_events => jvmtiCapabilities::CAN_GENERATE_FIELD_MODIFICATION_EVENTS_BIT as int,
            Position::can_generate_field_access_events => jvmtiCapabilities::CAN_GENERATE_FIELD_ACCESS_EVENTS_BIT as int,
            Position::can_get_bytecodes => jvmtiCapabilities::CAN_GET_BYTECODES_BIT as int,
            Position::can_get_synthetic_attribute => jvmtiCapabilities::CAN_GET_SYNTHETIC_ATTRIBUTE_BIT as int,
            Position::can_get_owned_monitor_info => jvmtiCapabilities::CAN_GET_OWNED_MONITOR_INFO_BIT as int,
            Position::can_get_current_contended_monitor => jvmtiCapabilities::CAN_GET_CURRENT_CONTENDED_MONITOR_BIT as int,
            Position::can_get_monitor_info => jvmtiCapabilities::CAN_GET_MONITOR_INFO_BIT as int,
            Position::can_pop_frame => jvmtiCapabilities::CAN_POP_FRAME_BIT as int,
            Position::can_redefine_classes => jvmtiCapabilities::CAN_REDEFINE_CLASSES_BIT as int,
            Position::can_signal_thread => jvmtiCapabilities::CAN_SIGNAL_THREAD_BIT as int,
            Position::can_get_source_file_name => jvmtiCapabilities::CAN_GET_SOURCE_FILE_NAME_BIT as int,
            Position::can_get_line_numbers => jvmtiCapabilities::CAN_GET_LINE_NUMBERS_BIT as int,
            Position::can_get_source_debug_extension => jvmtiCapabilities::CAN_GET_SOURCE_DEBUG_EXTENSION_BIT as int,
            Position::can_access_local_variables => jvmtiCapabilities::CAN_ACCESS_LOCAL_VARIABLES_BIT as int,
            Position::can_maintain_original_method_order => jvmtiCapabilities::CAN_MAINTAIN_ORIGINAL_METHOD_ORDER_BIT as int,
            Position::can_generate_single_step_events => jvmtiCapabilities::CAN_GENERATE_SINGLE_STEP_EVENTS_BIT as int,
            Position::can_generate_exception_events => jvmtiCapabilities::CAN_GENERATE_EXCEPTION_EVENTS_BIT as int,
            Position::can_generate_frame_pop_events => jvmtiCapabilities::CAN_GENERATE_FRAME_POP_EVENTS_BIT as int,
            Position::can_generate_breakpoint_events => jvmtiCapabilities::CAN_GENERATE_BREAKPOINT_EVENTS_BIT as int,
            Position::can_suspend => jvmtiCapabilities::CAN_SUSPEND_BIT as int,
            Position::can_redefine_any_class => jvmtiCapabilities::CAN_REDEFINE_ANY_CLASS_BIT as int,
            Position::can_get_current_thread_cpu_time => jvmtiCapabilities::CAN_GET_CURRENT_THREAD_CPU_TIME_BIT as int,
            Position::can_get_thread_cpu_time => jvmtiCapabilities::CAN_GET_THREAD_CPU_TIME_BIT as int,
            Position::can_generate_method_entry_events => jvmtiCapabilities::CAN_GENERATE_METHOD_ENTRY_EVENTS_BIT as int,
            Position::can_generate_method_exit_events => jvmtiCapabilities::CAN_GENERATE_METHOD_EXIT_EVENTS_BIT as int,
            Position::can_generate_all_class_hook_events => jvmtiCapabilities::CAN_GENERATE_ALL_CLASS_HOOK_EVENTS_BIT as int,
            Position::can_generate_compiled_method_load_events => jvmtiCapabilities::CAN_GENERATE_COMPILED_METHOD_LOAD_EVENTS_BIT as int,
            Position::can_generate_monitor_events => jvmtiCapabilities::CAN_GENERATE_MONITOR_EVENTS_BIT as int,
            Position::can_generate_vm_object_alloc_events => jvmtiCapabilities::CAN_GENERATE_VM_OBJECT_ALLOC_EVENTS_BIT as int,
            Position::can_generate_native_method_bind_events => jvmtiCapabilities::CAN_GENERATE_NATIVE_METHOD_BIND_EVENTS_BIT as int,
            Position::can_generate_garbage_collection_events => jvmtiCapabilities::CAN_GENERATE_GARBAGE_COLLECTION_EVENTS_BIT as int,
            Position::can_generate_object_free_events => jvmtiCapabilities::CAN_GENERATE_OBJECT_FREE_EVENTS_BIT as int,
            Position::can_force_early_return => jvmtiCapabilities::CAN_FORCE_EARLY_RETURN_BIT as int,
            Position::can_get_owned_monitor_stack_depth_info => jvmtiCapabilities::CAN_GET_OWNED_MONITOR_STACK_DEPTH_INFO_BIT as int,
            Position::can_get_constant_pool => jvmtiCapabilities::CAN_GET_CONSTANT_POOL_BIT as int,
            Position::can_set_native_method_prefix => jvmtiCapabilities::CAN_SET_NATIVE_METHOD_PREFIX_BIT as int,
            Position::can_retransform_classes => jvmtiCapabilities::CAN_RETRANSFORM_CLASSES_BIT as int,
            Position::can_retransform_any_class => jvmtiCapabilities::CAN_RETRANSFORM_ANY_CLASS_BIT as int,
            Position::can_generate_resource_exhaustion_heap_events => jvmtiCapabilities::CAN_GENERATE_RESOURCE_EXHAUSTION_HEAP_EVENTS_BIT as int,
            Position::can_generate_resource_exhaustion_threads_events => jvmtiCapabilities::CAN_GENERATE_RESOURCE_EXHAUSTION_THREADS_EVENTS_BIT as int,
            Position::can_generate_early_vmstart => jvmtiCapabilities::CAN_GENERATE_EARLY_VMSTART_BIT as int,
            Position::can_generate_early_class_hook_events => jvmtiCapabilities::CAN_GENERATE_EARLY_CLASS_HOOK_EVENTS_BIT as int,
            Position::can_generate_sampled_object_alloc_events => jvmtiCapabilities::CAN_GENERATE_SAMPLED_OBJECT_ALLOC_EVENTS_BIT as int,
            Position::can_support_virtual_threads => jvmtiCapabilities::CAN_SUPPORT_VIRTUAL_THREADS_BIT as int,
        }
    }

    /// The capability's name.
    pub open spec fn name_of(self) -> Seq<char> {
        match self {
            Position::can_tag_objects => "can_tag_objects"@,
            Position::can_generate_field_modification_events => "can_generate_field_modification_events"@,
            Position::can_generate_field_access_events => "can_generate_field_access_events"@,
            Position::can_get_bytecodes => "can_get_bytecodes"@,
            Position::can_get_synthetic_attribute => "can_get_synthetic_attribute"@,
            Position::can_get_owned_monitor_info => "can_get_owned_monitor_info"@,
            Position::can_get_current_contended_monitor => "can_get_current_contended_monitor"@,
            Position::can_get_monitor_info => "can_get_monitor_info"@,
            Position::can_pop_frame => "can_pop_frame"@,
            Position::can_redefine_classes => "can_redefine_classes"@,
            Position::can_signal_thread => "can_signal_thread"@,
            Position::can_get_source_file_name => "can_get_source_file_name"@,
            Position::can_get_line_numbers => "can_get_line_numbers"@,
            Position::can_get_source_debug_extension => "can_get_source_debug_extension"@,
            Position::can_access_local_variables => "can_access_local_variables"@,
            Position::can_maintain_original_method_order => "can_maintain_original_method_order"@,
            Position::can_generate_single_step_events => "can_generate_single_step_events"@,
            Position::can_generate_exception_events => "can_generate_exception_events"@,
            Position::can_generate_frame_pop_events => "can_generate_frame_pop_events"@,
            Position::can_generate_breakpoint_events => "can_generate_breakpoint_events"@,
            Position::can_suspend => "can_suspend"@,
            Position::can_redefine_any_class => "can_redefine_any_class"@,
            Position::can_get_current_thread_cpu_time => "can_get_current_thread_cpu_time"@,
            Position::can_get_thread_cpu_time => "can_get_thread_cpu_time"@,
            Position::can_generate_method_entry_events => "can_generate_method_entry_events"@,
            Position::can_generate_method_exit_events => "can_generate_method_exit_events"@,
            Position::can_generate_all_class_hook_events => "can_generate_all_class_hook_events"@,
            Position::can_generate_compiled_method_load_events => "can_generate_compiled_method_load_events"@,
            Position::can_generate_monitor_events => "can_generate_monitor_events"@,
            Position::can_generate_vm_object_alloc_events => "can_generate_vm_object_alloc_events"@,
            Position::can_generate_native_method_bind_events => "can_generate_native_method_bind_events"@,
            Position::can_generate_garbage_collection_events => "can_generate_garbage_collection_events"@,
            Position::can_generate_object_free_events => "can_generate_object_free_events"@,
            Position::can_force_early_return => "can_force_early_return"@,
            Position::can_get_owned_monitor_stack_depth_info => "can_get_owned_monitor_stack_depth_info"@,
            Position::can_get_constant_pool => "can_get_constant_pool"@,
            Position::can_set_native_method_prefix => "can_set_native_method_prefix"@,
            Position::can_retransform_classes => "can_retransform_classes"@,
            Position::can_retransform_any_class => "can_retransform_any_class"@,
            Position::can_generate_resource_exhaustion_heap_events => "can_generate_resource_exhaustion_heap_events"@,
            Position::can_generate_resource_exhaustion_threads_events => "can_generate_resource_exhaustion_threads_events"@,
            Position::can_generate_early_vmstart => "can_generate_early_vmstart"@,
            Position::can_generate_early_class_hook_events => "can_generate_early_class_hook_events"@,
            Position::can_generate_sampled_object_alloc_events => "can_generate_sampled_object_alloc_events"@,
            Position::can_support_virtual_threads => "can_support_virtual_threads"@,
        }
    }

    /// The index of the capability's bit in the register, which is its
    /// position in the canonical list.
    pub fn index(self) -> (i: usize)
        ensures
            i == self.bit(),
            i < CAPABILITIES,
            canonical_list()[i as int] == self,
    {
        match self {
            Position::can_tag_objects => jvmtiCapabilities::CAN_TAG_OBJECTS_BIT,
            Position::can_generate_field_modification_events => jvmtiCapabilities::CAN_GENERATE_FIELD_MODIFICATION_EVENTS_BIT,
            Position::can_generate_field_access_events => jvmtiCapabilities::CAN_GENERATE_FIELD_ACCESS_EVENTS_BIT,
            Position::can_get_bytecodes => jvmtiCapabilities::CAN_GET_BYTECODES_BIT,
            Position::can_get_synthetic_attribute => jvmtiCapabilities::CAN_GET_SYNTHETIC_ATTRIBUTE_BIT,
            Position::can_get_owned_monitor_info => jvmtiCapabilities::CAN_GET_OWNED_MONITOR_INFO_BIT,
            Position::can_get_current_contended_monitor => jvmtiCapabilities::CAN_GET_CURRENT_CONTENDED_MONITOR_BIT,
            Position::can_get_monitor_info => jvmtiCapabilities::CAN_GET_MONITOR_INFO_BIT,
            Position::can_pop_frame => jvmtiCapabilities::CAN_POP_FRAME_BIT,
            Position::can_redefine_classes => jvmtiCapabilities::CAN_REDEFINE_CLASSES_BIT,
            Position::can_signal_thread => jvmtiCapabilities::CAN_SIGNAL_THREAD_BIT,
            Position::can_get_source_file_name => jvmtiCapabilities::CAN_GET_SOURCE_FILE_NAME_BIT,
            Position::can_get_line_numbers => jvmtiCapabilities::CAN_GET_LINE_NUMBERS_BIT,
            Position::can_get_source_debug_extension => jvmtiCapabilities::CAN_GET_SOURCE_DEBUG_EXTENSION_BIT,
            Position::can_access_local_variables => jvmtiCapabilities::CAN_ACCESS_LOCAL_VARIABLES_BIT,
            Position::can_maintain_original_method_order => jvmtiCapabilities::CAN_MAINTAIN_ORIGINAL_METHOD_ORDER_BIT,
            Position::can_generate_single_step_events => jvmtiCapabilities::CAN_GENERATE_SINGLE_STEP_EVENTS_BIT,
            Position::can_generate_exception_events => jvmtiCapabilities::CAN_GENERATE_EXCEPTION_EVENTS_BIT,
            Position::can_generate_frame_pop_events => jvmtiCapabilities::CAN_GENERATE_FRAME_POP_EVENTS_BIT,
            Position::can_generate_breakpoint_events => jvmtiCapabilities::CAN_GENERATE_BREAKPOINT_EVENTS_BIT,
            Position::can_suspend => jvmtiCapabilities::CAN_SUSPEND_BIT,
            Position::can_redefine_any_class => jvmtiCapabilities::CAN_REDEFINE_ANY_CLASS_BIT,
            Position::can_get_current_thread_cpu_time => jvmtiCapabilities::CAN_GET_CURRENT_THREAD_CPU_TIME_BIT,
            Position::can_get_thread_cpu_time => jvmtiCapabilities::CAN_GET_THREAD_CPU_TIME_BIT,
            Position::can_generate_method_entry_events => jvmtiCapabilities::CAN_GENERATE_METHOD_ENTRY_EVENTS_BIT,
            Position::can_generate_method_exit_events => jvmtiCapabilities::CAN_GENERATE_METHOD_EXIT_EVENTS_BIT,
            Position::can_generate_all_class_hook_events => jvmtiCapabilities::CAN_GENERATE_ALL_CLASS_HOOK_EVENTS_BIT,
            Position::can_generate_compiled_method_load_events => jvmtiCapabilities::CAN_GENERATE_COMPILED_METHOD_LOAD_EVENTS_BIT,
            Position::can_generate_monitor_events => jvmtiCapabilities::CAN_GENERATE_MONITOR_EVENTS_BIT,
            Position::can_generate_vm_object_alloc_events => jvmtiCapabilities::CAN_GENERATE_VM_OBJECT_ALLOC_EVENTS_BIT,
            Position::can_generate_native_method_bind_events => jvmtiCapabilities::CAN_GENERATE_NATIVE_METHOD_BIND_EVENTS_BIT,
            Position::can_generate_garbage_collection_events => jvmtiCapabilities::CAN_GENERATE_GARBAGE_COLLECTION_EVENTS_BIT,
            Position::can_generate_object_free_events => jvmtiCapabilities::CAN_GENERATE_OBJECT_FREE_EVENTS_BIT,
            Position::can_force_early_return => jvmtiCapabilities::CAN_FORCE_EARLY_RETURN_BIT,
            Position::can_get_owned_monitor_stack_depth_info => jvmtiCapabilities::CAN_GET_OWNED_MONITOR_STACK_DEPTH_INFO_BIT,
            Position::can_get_constant_pool => jvmtiCapabilities::CAN_GET_CONSTANT_POOL_BIT,
            Position::can_set_native_method_prefix => jvmtiCapabilities::CAN_SET_NATIVE_METHOD_PREFIX_BIT,
            Position::can_retransform_classes => jvmtiCapabilities::CAN_RETRANSFORM_CLASSES_BIT,
            Position::can_retransform_any_class => jvmtiCapabilities::CAN_RETRANSFORM_ANY_CLASS_BIT,
            Position::can_generate_resource_exhaustion_heap_events => jvmtiCapabilities::CAN_GENERATE_RESOURCE_EXHAUSTION_HEAP_EVENTS_BIT,
            Position::can_generate_resource_exhaustion_threads_events => jvmtiCapabilities::CAN_GENERATE_RESOURCE_EXHAUSTION_THREADS_EVENTS_BIT,
            Position::can_generate_early_vmstart => jvmtiCapabilities::CAN_GENERATE_EARLY_VMSTART_BIT,
            Position::can_generate_early_class_hook_events => jvmtiCapabilities::CAN_GENERATE_EARLY_CLASS_HOOK_EVENTS_BIT,
            Position::can_generate_sampled_object_alloc_events => jvmtiCapabilities::CAN_GENERATE_SAMPLED_OBJECT_ALLOC_EVENTS_BIT,
            Position::can_support_virtual_threads => jvmtiCapabilities::CAN_SUPPORT_VIRTUAL_THREADS_BIT,
        }
    }

    /// The capability at position `n` of the canonical list, or `None` where
    /// the list is shorter.
    pub fn from_index(n: usize) -> (p: Option<Position>)
        ensures
            n < CAPABILITIES ==> p == Some(canonical_list()[n as int]),
            n >= CAPABILITIES ==> p is None,
    {
        if n == 0 {
            Some(Position::can_tag_objects)
        } else if n == 1 {
            Some(Position::can_generate_field_modification_events)
        } else if n == 2 {
            Some(Position::can_generate_field_access_events)
        } else if n == 3 {
            Some(Position::can_get_bytecodes)
        } else if n == 4 {
            Some(Position::can_get_synthetic_attribute)
        } else if n == 5 {
            Some(Position::can_get_owned_monitor_info)
        } else if n == 6 {
            Some(Position::can_get_current_contended_monitor)
        } else if n == 7 {
            Some(Position::can_get_monitor_info)
        } else if n == 8 {
            Some(Position::can_pop_frame)
        } else if n == 9 {
            Some(Position::can_redefine_classes)
        } else if n == 10 {
            Some(Position::can_signal_thread)
        } else if n == 11 {
            Some(Position::can_get_source_file_name)
        } else if n == 12 {
            Some(Position::can_get_line_numbers)
        } else if n == 13 {
            Some(Position::can_get_source_debug_extension)
        } else if n == 14 {
            Some(Position::can_access_local_variables)
        } else if n == 15 {
            Some(Position::can_maintain_original_method_order)
        } else if n == 16 {
            Some(Position::can_generate_single_step_events)
        } else if n == 17 {
            Some(Position::can_generate_exception_events)
        } else if n == 18 {
            Some(Position::can_generate_frame_pop_events)
        } else if n == 19 {
            Some(Position::can_generate_breakpoint_events)
        } else if n == 20 {
            Some(Position::can_suspend)
        } else if n == 21 {
            Some(Position::can_redefine_any_class)
        } else if n == 22 {
            Some(Position::can_get_current_thread_cpu_time)
        } else if n == 23 {
            Some(Position::can_get_thread_cpu_time)
        } else if n == 24 {
            Some(Position::can_generate_method_entry_events)
        } else if n == 25 {
            Some(Position::can_generate_method_exit_events)
        } else if n == 26 {
            Some(Position::can_generate_all_class_hook_events)
        } else if n == 27 {
            Some(Position::can_generate_compiled_method_load_events)
        } else if n == 28 {
            Some(Position::can_generate_monitor_events)
        } else if n == 29 {
            Some(Position::can_generate_vm_object_alloc_events)
        } else if n == 30 {
            Some(Position::can_generate_native_method_bind_events)
        } else if n == 31 {
            Some(Position::can_generate_garbage_collection_events)
        } else if n == 32 {
            Some(Position::can_generate_object_free_events)
        } else if n == 33 {
            Some(Position::can_force_early_return)
        } else if n == 34 {
            Some(Position::can_get_owned_monitor_stack_depth_info)
        } else if n == 35 {
            Some(Position::can_get_constant_pool)
        } else if n == 36 {
            Some(Position::can_set_native_method_prefix)
        } else if n == 37 {
            Some(Position::can_retransform_classes)
        } else if n == 38 {
            Some(Position::can_retransform_any_class)
        } else if n == 39 {
            Some(Position::can_generate_resource_exhaustion_heap_events)
        } else if n == 40 {
            Some(Position::can_generate_resource_exhaustion_threads_events)
        } else if n == 41 {
            Some(Position::can_generate_early_vmstart)
        } else if n == 42 {
            Some(Position::can_generate_early_class_hook_events)
        } else if n == 43 {
            Some(Position::can_generate_sampled_object_alloc_events)
        } else if n == 44 {
            Some(Position::can_support_virtual_threads)
        } else {
            None
        }
    }

    /// The capability's name.
    pub fn name(self) -> (s: &'static str)
        ensures
            s@ == self.name_of(),
    {
        match self {
            Position::can_tag_objects => "can_tag_objects",
            Position::can_generate_field_modification_events => "can_generate_field_modification_events",
            Position::can_generate_field_access_events => "can_generate_field_access_events",
            Position::can_get_bytecodes => "can_get_bytecodes",
            Position::can_get_synthetic_attribute => "can_get_synthetic_attribute",
            Position::can_get_owned_monitor_info => "can_get_owned_monitor_info",
            Position::can_get_current_contended_monitor => "can_get_current_contended_monitor",
            Position::can_get_monitor_info => "can_get_monitor_info",
            Position::can_pop_frame => "can_pop_frame",
            Position::can_redefine_classes => "can_redefine_classes",
            Position::can_signal_thread => "can_signal_thread",
            Position::can_get_source_file_name => "can_get_source_file_name",
            Position::can_get_line_numbers => "can_get_line_numbers",
            Position::can_get_source_debug_extension => "can_get_source_debug_extension",
            Position::can_access_local_variables => "can_access_local_variables",
            Position::can_maintain_original_method_order => "can_maintain_original_method_order",
            Position::can_generate_single_step_events => "can_generate_single_step_events",
            Position::can_generate_exception_events => "can_generate_exception_events",
            Position::can_generate_frame_pop_events => "can_generate_frame_pop_events",
            Position::can_generate_breakpoint_events => "can_generate_breakpoint_events",
            Position::can_suspend => "can_suspend",
            Position::can_redefine_any_class => "can_redefine_any_class",
            Position::can_get_current_thread_cpu_time => "can_get_current_thread_cpu_time",
            Position::can_get_thread_cpu_time => "can_get_thread_cpu_time",
            Position::can_generate_method_entry_events => "can_generate_method_entry_events",
            Position::can_generate_method_exit_events => "can_generate_method_exit_events",
            Position::can_generate_all_class_hook_events => "can_generate_all_class_hook_events",
            Position::can_generate_compiled_method_load_events => "can_generate_compiled_method_load_events",
            Position::can_generate_monitor_events => "can_generate_monitor_events",
            Position::can_generate_vm_object_alloc_events => "can_generate_vm_object_alloc_events",
            Position::can_generate_native_method_bind_events => "can_generate_native_method_bind_events",
            Position::can_generate_garbage_collection_events => "can_generate_garbage_collection_events",
            Position::can_generate_object_free_events => "can_generate_object_free_events",
            Position::can_force_early_return => "can_force_early_return",
            Position::can_get_owned_monitor_stack_depth_info => "can_get_owned_monitor_stack_depth_info",
            Position::can_get_constant_pool => "can_get_constant_pool",
            Position::can_set_native_method_prefix => "can_set_native_method_prefix",
            Position::can_retransform_classes => "can_retransform_classes",
            Position::can_retransform_any_class => "can_retransform_any_class",
            Position::can_generate_resource_exhaustion_heap_events => "can_generate_resource_exhaustion_heap_events",
            Position::can_generate_resource_exhaustion_threads_events => "can_generate_resource_exhaustion_threads_events",
            Position::can_generate_early_vmstart => "can_generate_early_vmstart",
            Position::can_generate_early_class_hook_events => "can_generate_early_class_hook_events",
            Position::can_generate_sampled_object_alloc_events => "can_generate_sampled_object_alloc_events",
            Position::can_support_virtual_threads => "can_support_virtual_threads",
        }
    }
}

/// The capability at position `n` of the canonical list has bit `n`.
pub proof fn law_position_is_bit(n: int)
    requires
        0 <= n < CAPABILITIES,
    ensures
        canonical_list()[n].bit() == n,
{
}

/// Every capability stands in the canonical list, at the position that is the
/// index of its bit, and its bit is one of the register's.
pub proof fn law_bit_is_position(p: Position)
    ensures
        0 <= p.bit() < CAPABILITIES,
        p.bit() < FLAGS,
        canonical_list().len() == CAPABILITIES,
        canonical_list()[p.bit()] == p,
{
}

impl jvmtiCapabilities {
    pub const CAN_TAG_OBJECTS_BIT: usize = 0;

    pub const CAN_GENERATE_FIELD_MODIFICATION_EVENTS_BIT: usize = 1;

    pub const CAN_GENERATE_FIELD_ACCESS_EVENTS_BIT: usize = 2;

    pub const CAN_GET_BYTECODES_BIT: usize = 3;

    pub const CAN_GET_SYNTHETIC_ATTRIBUTE_BIT: usize = 4;

    pub const CAN_GET_OWNED_MONITOR_INFO_BIT: usize = 5;

    pub const CAN_GET_CURRENT_CONTENDED_MONITOR_BIT: usize = 6;

    pub const CAN_GET_MONITOR_INFO_BIT: usize = 7;

    pub const CAN_POP_FRAME_BIT: usize = 8;

    pub const CAN_REDEFINE_CLASSES_BIT: usize = 9;

    pub const CAN_SIGNAL_THREAD_BIT: usize = 10;

    pub const CAN_GET_SOURCE_FILE_NAME_BIT: usize = 11;

    pub const CAN_GET_LINE_NUMBERS_BIT: usize = 12;

    pub const CAN_GET_SOURCE_DEBUG_EXTENSION_BIT: usize = 13;

    pub const CAN_ACCESS_LOCAL_VARIABLES_BIT: usize = 14;

    pub const CAN_MAINTAIN_ORIGINAL_METHOD_ORDER_BIT: usize = 15;

    pub const CAN_GENERATE_SINGLE_STEP_EVENTS_BIT: usize = 16;

    pub const CAN_GENERATE_EXCEPTION_EVENTS_BIT: usize = 17;

    pub const CAN_GENERATE_FRAME_POP_EVENTS_BIT: usize = 18;

    pub const CAN_GENERATE_BREAKPOINT_EVENTS_BIT: usize = 19;

    pub const CAN_SUSPEND_BIT: usize = 20;

    pub const CAN_REDEFINE_ANY_CLASS_BIT: usize = 21;

    pub const CAN_GET_CURRENT_THREAD_CPU_TIME_BIT: usize = 22;

    pub const CAN_GET_THREAD_CPU_TIME_BIT: usize = 23;

    pub const CAN_GENERATE_METHOD_ENTRY_EVENTS_BIT: usize = 24;

    pub const CAN_GENERATE_METHOD_EXIT_EVENTS_BIT: usize = 25;

    pub const CAN_GENERATE_ALL_CLASS_HOOK_EVENTS_BIT: usize = 26;

    pub const CAN_GENERATE_COMPILED_METHOD_LOAD_EVENTS_BIT: usize = 27;

    pub const CAN_GENERATE_MONITOR_EVENTS_BIT: usize = 28;

    pub const CAN_GENERATE_VM_OBJECT_ALLOC_EVENTS_BIT: usize = 29;

    pub const CAN_GENERATE_NATIVE_METHOD_BIND_EVENTS_BIT: usize = 30;

    pub const CAN_GENERATE_GARBAGE_COLLECTION_EVENTS_BIT: usize = 31;

    pub const CAN_GENERATE_OBJECT_FREE_EVENTS_BIT: usize = 32;

    pub const CAN_FORCE_EARLY_RETURN_BIT: usize = 33;

    pub const CAN_GET_OWNED_MONITOR_STACK_DEPTH_INFO_BIT: usize = 34;

    pub const CAN_GET_CONSTANT_POOL_BIT: usize = 35;

    pub const CAN_SET_NATIVE_METHOD_PREFIX_BIT: usize = 36;

    pub const CAN_RETRANSFORM_CLASSES_BIT: usize = 37;

    pub const CAN_RETRANSFORM_ANY_CLASS_BIT: usize = 38;

    pub const CAN_GENERATE_RESOURCE_EXHAUSTION_HEAP_EVENTS_BIT: usize = 39;

    pub const CAN_GENERATE_RESOURCE_EXHAUSTION_THREADS_EVENTS_BIT: usize = 40;

    pub const CAN_GENERATE_EARLY_VMSTART_BIT: usize = 41;

    pub const CAN_GENERATE_EARLY_CLASS_HOOK_EVENTS_BIT: usize = 42;

    pub const CAN_GENERATE_SAMPLED_OBJECT_ALLOC_EVENTS_BIT: usize = 43;

    pub const CAN_SUPPORT_VIRTUAL_THREADS_BIT: usize = 44;

    #[inline(always)]
    pub fn can_tag_objects(&self) -> (r: bool)
        ensures
            self.reads(jvmtiCapabilities::CAN_TAG_OBJECTS_BIT as int, r),
    {
        self.get(Self::CAN_TAG_OBJECTS_BIT)
    }

    #[inline(always)]
    pub fn set_can_tag_objects(&mut self, value: bool)
        ensures
            old(self).writes(*final(self), jvmtiCapabilities::CAN_TAG_OBJECTS_BIT as int, value),
    {
        self.set(Self::CAN_TAG_OBJECTS_BIT, value);
    }

    #[inline(always)]
    pub fn can_generate_field_modification_events(&self) -> (r: bool)
        ensures
            self.reads(jvmtiCapabilities::CAN_GENERATE_FIELD_MODIFICATION_EVENTS_BIT as int, r),
    {
        self.get(Self::CAN_GENERATE_FIELD_MODIFICATION_EVENTS_BIT)
    }

    #[inline(always)]
    pub fn set_can_generate_field_modification_events(&mut self, value: bool)
        ensures
            old(self).writes(*final(self), jvmtiCapabilities::CAN_GENERATE_FIELD_MODIFICATION_EVENTS_BIT as int, value),
    {
        self.set(Self::CAN_GENERATE_FIELD_MODIFICATION_EVENTS_BIT, value);
    }

    #[inline(always)]
    pub fn can_generate_field_access_events(&self) -> (r: bool)
        ensures
            self.reads(jvmtiCapabilities::CAN_GENERATE_FIELD_ACCESS_EVENTS_BIT as int, r),
    {
        self.get(Self::CAN_GENERATE_FIELD_ACCESS_EVENTS_BIT)
    }

    #[inline(always)]
    pub fn set_can_generate_field_access_events(&mut self, value: bool)
        ensures
            old(self).writes(*final(self), jvmtiCapabilities::CAN_GENERATE_FIELD_ACCESS_EVENTS_BIT as int, value),
    {
        self.set(Self::CAN_GENERATE_FIELD_ACCESS_EVENTS_BIT, value);
    }

    #[inline(always)]
    pub fn can_get_bytecodes(&self) -> (r: bool)
        ensures
            self.reads(jvmtiCapabilities::CAN_GET_BYTECODES_BIT as int, r),
    {
        self.get(Self::CAN_GET_BYTECODES_BIT)
    }

    #[inline(always)]
    pub fn set_can_get_bytecodes(&mut self, value: bool)
        ensures
            old(self).writes(*final(self), jvmtiCapabilities::CAN_GET_BYTECODES_BIT as int, value),
    {
        self.set(Self::CAN_GET_BYTECODES_BIT, value);
    }

    #[inline(always)]
    pub fn can_get_synthetic_attribute(&self) -> (r: bool)
        ensures
            self.reads(jvmtiCapabilities::CAN_GET_SYNTHETIC_ATTRIBUTE_BIT as int, r),
    {
        self.get(Self::CAN_GET_SYNTHETIC_ATTRIBUTE_BIT)
    }

    #[inline(always)]
    pub fn set_can_get_synthetic_attribute(&mut self, value: bool)
        ensures
            old(self).writes(*final(self), jvmtiCapabilities::CAN_GET_SYNTHETIC_ATTRIBUTE_BIT as int, value),
    {
        self.set(Self::CAN_GET_SYNTHETIC_ATTRIBUTE_BIT, value);
    }

    #[inline(always)]
    pub fn can_get_owned_monitor_info(&self) -> (r: bool)
        ensures
            self.reads(jvmtiCapabilities::CAN_GET_OWNED_MONITOR_INFO_BIT as int, r),
    {
        self.get(Self::CAN_GET_OWNED_MONITOR_INFO_BIT)
    }

    #[inline(always)]
    pub fn set_can_get_owned_monitor_info(&mut self, value: bool)
        ensures
            old(self).writes(*final(self), jvmtiCapabilities::CAN_GET_OWNED_MONITOR_INFO_BIT as int, value),
    {
        self.set(Self::CAN_GET_OWNED_MONITOR_INFO_BIT, value);
    }

    #[inline(always)]
    pub fn can_get_current_contended_monitor(&self) -> (r: bool)
        ensures
            self.reads(jvmtiCapabilities::CAN_GET_CURRENT_CONTENDED_MONITOR_BIT as int, r),
    {
        self.get(Self::CAN_GET_CURRENT_CONTENDED_MONITOR_BIT)
    }

    #[inline(always)]
    pub fn set_can_get_current_contended_monitor(&mut self, value: bool)
        ensures
            old(self).writes(*final(self), jvmtiCapabilities::CAN_GET_CURRENT_CONTENDED_MONITOR_BIT as int, value),
    {
        self.set(Self::CAN_GET_CURRENT_CONTENDED_MONITOR_BIT, value);
    }

    #[inline(always)]
    pub fn can_get_monitor_info(&self) -> (r: bool)
        ensures
            self.reads(jvmtiCapabilities::CAN_GET_MONITOR_INFO_BIT as int, r),
    {
        self.get(Self::CAN_GET_MONITOR_INFO_BIT)
    }

    #[inline(always)]
    pub fn set_can_get_monitor_info(&mut self, value: bool)
        ensures
            old(self).writes(*final(self), jvmtiCapabilities::CAN_GET_MONITOR_INFO_BIT as int, value),
    {
        self.set(Self::CAN_GET_MONITOR_INFO_BIT, value);
    }

    #[inline(always)]
    pub fn can_pop_frame(&self) -> (r: bool)
        ensures
            self.reads(jvmtiCapabilities::CAN_POP_FRAME_BIT as int, r),
    {
        self.get(Self::CAN_POP_FRAME_BIT)
    }

    #[inline(always)]
    pub fn set_can_pop_frame(&mut self, value: bool)
        ensures
            old(self).writes(*final(self), jvmtiCapabilities::CAN_POP_FRAME_BIT as int, value),
    {
        self.set(Self::CAN_POP_FRAME_BIT, value);
    }

    #[inline(always)]
    pub fn can_redefine_classes(&self) -> (r: bool)
        ensures
            self.reads(jvmtiCapabilities::CAN_REDEFINE_CLASSES_BIT as int, r),
    {
        self.get(Self::CAN_REDEFINE_CLASSES_BIT)
    }

    #[inline(always)]
    pub fn set_can_redefine_classes(&mut self, value: bool)
        ensures
            old(self).writes(*final(self), jvmtiCapabilities::CAN_REDEFINE_CLASSES_BIT as int, value),
    {
        self.set(Self::CAN_REDEFINE_CLASSES_BIT, value);
    }

    #[inline(always)]
    pub fn can_signal_thread(&self) -> (r: bool)
        ensures
            self.reads(jvmtiCapabilities::CAN_SIGNAL_THREAD_BIT as int, r),
    {
        self.get(Self::CAN_SIGNAL_THREAD_BIT)
    }

    #[inline(always)]
    pub fn set_can_signal_thread(&mut self, value: bool)
        ensures
            old(self).writes(*final(self), jvmtiCapabilities::CAN_SIGNAL_THREAD_BIT as int, value),
    {
        self.set(Self::CAN_SIGNAL_THREAD_BIT, value);
    }

    #[inline(always)]
    pub fn can_get_source_file_name(&self) -> (r: bool)
        ensures
            self.reads(jvmtiCapabilities::CAN_GET_SOURCE_FILE_NAME_BIT as int, r),
    {
        self.get(Self::CAN_GET_SOURCE_FILE_NAME_BIT)
    }

    #[inline(always)]
    pub fn set_can_get_source_file_name(&mut self, value: bool)
        ensures
            old(self).writes(*final(self), jvmtiCapabilities::CAN_GET_SOURCE_FILE_NAME_BIT as int, value),
    {
        self.set(Self::CAN_GET_SOURCE_FILE_NAME_BIT, value);
    }

    #[inline(always)]
    pub fn can_get_line_numbers(&self) -> (r: bool)
        ensures
            self.reads(jvmtiCapabilities::CAN_GET_LINE_NUMBERS_BIT as int, r),
    {
        self.get(Self::CAN_GET_LINE_NUMBERS_BIT)
    }

    #[inline(always)]
    pub fn set_can_get_line_numbers(&mut self, value: bool)
        ensures
            old(self).writes(*final(self), jvmtiCapabilities::CAN_GET_LINE_NUMBERS_BIT as int, value),
    {
        self.set(Self::CAN_GET_LINE_NUMBERS_BIT, value);
    }

    #[inline(always)]
    pub fn can_get_source_debug_extension(&self) -> (r: bool)
        ensures
            self.reads(jvmtiCapabilities::CAN_GET_SOURCE_DEBUG_EXTENSION_BIT as int, r),
    {
        self.get(Self::CAN_GET_SOURCE_DEBUG_EXTENSION_BIT)
    }

    #[inline(always)]
    pub fn set_can_get_source_debug_extension(&mut self, value: bool)
        ensures
            old(self).writes(*final(self), jvmtiCapabilities::CAN_GET_SOURCE_DEBUG_EXTENSION_BIT as int, value),
    {
        self.set(Self::CAN_GET_SOURCE_DEBUG_EXTENSION_BIT, value);
    }

    #[inline(always)]
    pub fn can_access_local_variables(&self) -> (r: bool)
        ensures
            self.reads(jvmtiCapabilities::CAN_ACCESS_LOCAL_VARIABLES_BIT as int, r),
    {
        self.get(Self::CAN_ACCESS_LOCAL_VARIABLES_BIT)
    }

    #[inline(always)]
    pub fn set_can_access_local_variables(&mut self, value: bool)
        ensures
            old(self).writes(*final(self), jvmtiCapabilities::CAN_ACCESS_LOCAL_VARIABLES_BIT as int, value),
    {
        self.set(Self::CAN_ACCESS_LOCAL_VARIABLES_BIT, value);
    }

    #[inline(always)]
    pub fn can_maintain_original_method_order(&self) -> (r: bool)
        ensures
            self.reads(jvmtiCapabilities::CAN_MAINTAIN_ORIGINAL_METHOD_ORDER_BIT as int, r),
    {
        self.get(Self::CAN_MAINTAIN_ORIGINAL_METHOD_ORDER_BIT)
    }

    #[inline(always)]
    pub fn set_can_maintain_original_method_order(&mut self, value: bool)
        ensures
            old(self).writes(*final(self), jvmtiCapabilities::CAN_MAINTAIN_ORIGINAL_METHOD_ORDER_BIT as int, value),
    {
        self.set(Self::CAN_MAINTAIN_ORIGINAL_METHOD_ORDER_BIT, value);
    }

    #[inline(always)]
    pub fn can_generate_single_step_events(&self) -> (r: bool)
        ensures
            self.reads(jvmtiCapabilities::CAN_GENERATE_SINGLE_STEP_EVENTS_BIT as int, r),
    {
        self.get(Self::CAN_GENERATE_SINGLE_STEP_EVENTS_BIT)
    }

    #[inline(always)]
    pub fn set_can_generate_single_step_events(&mut self, value: bool)
        ensures
            old(self).writes(*final(self), jvmtiCapabilities::CAN_GENERATE_SINGLE_STEP_EVENTS_BIT as int, value),
    {
        self.set(Self::CAN_GENERATE_SINGLE_STEP_EVENTS_BIT, value);
    }

    #[inline(always)]
    pub fn can_generate_exception_events(&self) -> (r: bool)
        ensures
            self.reads(jvmtiCapabilities::CAN_GENERATE_EXCEPTION_EVENTS_BIT as int, r),
    {
        self.get(Self::CAN_GENERATE_EXCEPTION_EVENTS_BIT)
    }

    #[inline(always)]
    pub fn set_can_generate_exception_events(&mut self, value: bool)
        ensures
            old(self).writes(*final(self), jvmtiCapabilities::CAN_GENERATE_EXCEPTION_EVENTS_BIT as int, value),
    {
        self.set(Self::CAN_GENERATE_EXCEPTION_EVENTS_BIT, value);
    }

    #[inline(always)]
    pub fn can_generate_frame_pop_events(&self) -> (r: bool)
        ensures
            self.reads(jvmtiCapabilities::CAN_GENERATE_FRAME_POP_EVENTS_BIT as int, r),
    {
        self.get(Self::CAN_GENERATE_FRAME_POP_EVENTS_BIT)
    }

    #[inline(always)]
    pub fn set_can_generate_frame_pop_events(&mut self, value: bool)
        ensures
            old(self).writes(*final(self), jvmtiCapabilities::CAN_GENERATE_FRAME_POP_EVENTS_BIT as int, value),
    {
        self.set(Self::CAN_GENERATE_FRAME_POP_EVENTS_BIT, value);
    }

    #[inline(always)]
    pub fn can_generate_breakpoint_events(&self) -> (r: bool)
        ensures
            self.reads(jvmtiCapabilities::CAN_GENERATE_BREAKPOINT_EVENTS_BIT as int, r),
    {
        self.get(Self::CAN_GENERATE_BREAKPOINT_EVENTS_BIT)
    }

    #[inline(always)]
    pub fn set_can_generate_breakpoint_events(&mut self, value: bool)
        ensures
            old(self).writes(*final(self), jvmtiCapabilities::CAN_GENERATE_BREAKPOINT_EVENTS_BIT as int, value),
    {
        self.set(Self::CAN_GENERATE_BREAKPOINT_EVENTS_BIT, value);
    }

    #[inline(always)]
    pub fn can_suspend(&self) -> (r: bool)
        ensures
            self.reads(jvmtiCapabilities::CAN_SUSPEND_BIT as int, r),
    {
        self.get(Self::CAN_SUSPEND_BIT)
    }

    #[inline(always)]
    pub fn set_can_suspend(&mut self, value: bool)
        ensures
            old(self).writes(*final(self), jvmtiCapabilities::CAN_SUSPEND_BIT as int, value),
    {
        self.set(Self::CAN_SUSPEND_BIT, value);
    }

    #[inline(always)]
    pub fn can_redefine_any_class(&self) -> (r: bool)
        ensures
            self.reads(jvmtiCapabilities::CAN_REDEFINE_ANY_CLASS_BIT as int, r),
    {
        self.get(Self::CAN_REDEFINE_ANY_CLASS_BIT)
    }

    #[inline(always)]
    pub fn set_can_redefine_any_class(&mut self, value: bool)
        ensures
            old(self).writes(*final(self), jvmtiCapabilities::CAN_REDEFINE_ANY_CLASS_BIT as int, value),
    {
        self.set(Self::CAN_REDEFINE_ANY_CLASS_BIT, value);
    }

    #[inline(always)]
    pub fn can_get_current_thread_cpu_time(&self) -> (r: bool)
        ensures
            self.reads(jvmtiCapabilities::CAN_GET_CURRENT_THREAD_CPU_TIME_BIT as int, r),
    {
        self.get(Self::CAN_GET_CURRENT_THREAD_CPU_TIME_BIT)
    }

    #[inline(always)]
    pub fn set_can_get_current_thread_cpu_time(&mut self, value: bool)
        ensures
            old(self).writes(*final(self), jvmtiCapabilities::CAN_GET_CURRENT_THREAD_CPU_TIME_BIT as int, value),
    {
        self.set(Self::CAN_GET_CURRENT_THREAD_CPU_TIME_BIT, value);
    }

    #[inline(always)]
    pub fn can_get_thread_cpu_time(&self) -> (r: bool)
        ensures
            self.reads(jvmtiCapabilities::CAN_GET_THREAD_CPU_TIME_BIT as int, r),
    {
        self.get(Self::CAN_GET_THREAD_CPU_TIME_BIT)
    }

    #[inline(always)]
    pub fn set_can_get_thread_cpu_time(&mut self, value: bool)
        ensures
            old(self).writes(*final(self), jvmtiCapabilities::CAN_GET_THREAD_CPU_TIME_BIT as int, value),
    {
        self.set(Self::CAN_GET_THREAD_CPU_TIME_BIT, value);
    }

    #[inline(always)]
    pub fn can_generate_method_entry_events(&self) -> (r: bool)
        ensures
            self.reads(jvmtiCapabilities::CAN_GENERATE_METHOD_ENTRY_EVENTS_BIT as int, r),
    {
        self.get(Self::CAN_GENERATE_METHOD_ENTRY_EVENTS_BIT)
    }

    #[inline(always)]
    pub fn set_can_generate_method_entry_events(&mut self, value: bool)
        ensures
            old(self).writes(*final(self), jvmtiCapabilities::CAN_GENERATE_METHOD_ENTRY_EVENTS_BIT as int, value),
    {
        self.set(Self::CAN_GENERATE_METHOD_ENTRY_EVENTS_BIT, value);
    }

    #[inline(always)]
    pub fn can_generate_method_exit_events(&self) -> (r: bool)
        ensures
            self.reads(jvmtiCapabilities::CAN_GENERATE_METHOD_EXIT_EVENTS_BIT as int, r),
    {
        self.get(Self::CAN_GENERATE_METHOD_EXIT_EVENTS_BIT)
    }

    #[inline(always)]
    pub fn set_can_generate_method_exit_events(&mut self, value: bool)
        ensures
            old(self).writes(*final(self), jvmtiCapabilities::CAN_GENERATE_METHOD_EXIT_EVENTS_BIT as int, value),
    {
        self.set(Self::CAN_GENERATE_METHOD_EXIT_EVENTS_BIT, value);
    }

    #[inline(always)]
    pub fn can_generate_all_class_hook_events(&self) -> (r: bool)
        ensures
            self.reads(jvmtiCapabilities::CAN_GENERATE_ALL_CLASS_HOOK_EVENTS_BIT as int, r),
    {
        self.get(Self::CAN_GENERATE_ALL_CLASS_HOOK_EVENTS_BIT)
    }

    #[inline(always)]
    pub fn set_can_generate_all_class_hook_events(&mut self, value: bool)
        ensures
            old(self).writes(*final(self), jvmtiCapabilities::CAN_GENERATE_ALL_CLASS_HOOK_EVENTS_BIT as int, value),
    {
        self.set(Self::CAN_GENERATE_ALL_CLASS_HOOK_EVENTS_BIT, value);
    }

    #[inline(always)]
    pub fn can_generate_compiled_method_load_events(&self) -> (r: bool)
        ensures
            self.reads(jvmtiCapabilities::CAN_GENERATE_COMPILED_METHOD_LOAD_EVENTS_BIT as int, r),
    {
        self.get(Self::CAN_GENERATE_COMPILED_METHOD_LOAD_EVENTS_BIT)
    }

    #[inline(always)]
    pub fn set_can_generate_compiled_method_load_events(&mut self, value: bool)
        ensures
            old(self).writes(*final(self), jvmtiCapabilities::CAN_GENERATE_COMPILED_METHOD_LOAD_EVENTS_BIT as int, value),
    {
        self.set(Self::CAN_GENERATE_COMPILED_METHOD_LOAD_EVENTS_BIT, value);
    }

    #[inline(always)]
    pub fn can_generate_monitor_events(&self) -> (r: bool)
        ensures
            self.reads(jvmtiCapabilities::CAN_GENERATE_MONITOR_EVENTS_BIT as int, r),
    {
        self.get(Self::CAN_GENERATE_MONITOR_EVENTS_BIT)
    }

    #[inline(always)]
    pub fn set_can_generate_monitor_events(&mut self, value: bool)
        ensures
            old(self).writes(*final(self), jvmtiCapabilities::CAN_GENERATE_MONITOR_EVENTS_BIT as int, value),
    {
        self.set(Self::CAN_GENERATE_MONITOR_EVENTS_BIT, value);
    }

    #[inline(always)]
    pub fn can_generate_vm_object_alloc_events(&self) -> (r: bool)
        ensures
            self.reads(jvmtiCapabilities::CAN_GENERATE_VM_OBJECT_ALLOC_EVENTS_BIT as int, r),
    {
        self.get(Self::CAN_GENERATE_VM_OBJECT_ALLOC_EVENTS_BIT)
    }

    #[inline(always)]
    pub fn set_can_generate_vm_object_alloc_events(&mut self, value: bool)
        ensures
            old(self).writes(*final(self), jvmtiCapabilities::CAN_GENERATE_VM_OBJECT_ALLOC_EVENTS_BIT as int, value),
    {
        self.set(Self::CAN_GENERATE_VM_OBJECT_ALLOC_EVENTS_BIT, value);
    }

    #[inline(always)]
    pub fn can_generate_native_method_bind_events(&self) -> (r: bool)
        ensures
            self.reads(jvmtiCapabilities::CAN_GENERATE_NATIVE_METHOD_BIND_EVENTS_BIT as int, r),
    {
        self.get(Self::CAN_GENERATE_NATIVE_METHOD_BIND_EVENTS_BIT)
    }

    #[inline(always)]
    pub fn set_can_generate_native_method_bind_events(&mut self, value: bool)
        ensures
            old(self).writes(*final(self), jvmtiCapabilities::CAN_GENERATE_NATIVE_METHOD_BIND_EVENTS_BIT as int, value),
    {
        self.set(Self::CAN_GENERATE_NATIVE_METHOD_BIND_EVENTS_BIT, value);
    }

    #[inline(always)]
    pub fn can_generate_garbage_collection_events(&self) -> (r: bool)
        ensures
            self.reads(jvmtiCapabilities::CAN_GENERATE_GARBAGE_COLLECTION_EVENTS_BIT as int, r),
    {
        self.get(Self::CAN_GENERATE_GARBAGE_COLLECTION_EVENTS_BIT)
    }

    #[inline(always)]
    pub fn set_can_generate_garbage_collection_events(&mut self, value: bool)
        ensures
            old(self).writes(*final(self), jvmtiCapabilities::CAN_GENERATE_GARBAGE_COLLECTION_EVENTS_BIT as int, value),
    {
        self.set(Self::CAN_GENERATE_GARBAGE_COLLECTION_EVENTS_BIT, value);
    }

    #[inline(always)]
    pub fn can_generate_object_free_events(&self) -> (r: bool)
        ensures
            self.reads(jvmtiCapabilities::CAN_GENERATE_OBJECT_FREE_EVENTS_BIT as int, r),
    {
        self.get(Self::CAN_GENERATE_OBJECT_FREE_EVENTS_BIT)
    }

    #[inline(always)]
    pub fn set_can_generate_object_free_events(&mut self, value: bool)
        ensures
            old(self).writes(*final(self), jvmtiCapabilities::CAN_GENERATE_OBJECT_FREE_EVENTS_BIT as int, value),
    {
        self.set(Self::CAN_GENERATE_OBJECT_FREE_EVENTS_BIT, value);
    }

    #[inline(always)]
    pub fn can_force_early_return(&self) -> (r: bool)
        ensures
            self.reads(jvmtiCapabilities::CAN_FORCE_EARLY_RETURN_BIT as int, r),
    {
        self.get(Self::CAN_FORCE_EARLY_RETURN_BIT)
    }

    #[inline(always)]
    pub fn set_can_force_early_return(&mut self, value: bool)
        ensures
            old(self).writes(*final(self), jvmtiCapabilities::CAN_FORCE_EARLY_RETURN_BIT as int, value),
    {
        self.set(Self::CAN_FORCE_EARLY_RETURN_BIT, value);
    }

    #[inline(always)]
    pub fn can_get_owned_monitor_stack_depth_info(&self) -> (r: bool)
        ensures
            self.reads(jvmtiCapabilities::CAN_GET_OWNED_MONITOR_STACK_DEPTH_INFO_BIT as int, r),
    {
        self.get(Self::CAN_GET_OWNED_MONITOR_STACK_DEPTH_INFO_BIT)
    }

    #[inline(always)]
    pub fn set_can_get_owned_monitor_stack_depth_info(&mut self, value: bool)
        ensures
            old(self).writes(*final(self), jvmtiCapabilities::CAN_GET_OWNED_MONITOR_STACK_DEPTH_INFO_BIT as int, value),
    {
        self.set(Self::CAN_GET_OWNED_MONITOR_STACK_DEPTH_INFO_BIT, value);
    }

    #[inline(always)]
    pub fn can_get_constant_pool(&self) -> (r: bool)
        ensures
            self.reads(jvmtiCapabilities::CAN_GET_CONSTANT_POOL_BIT as int, r),
    {
        self.get(Self::CAN_GET_CONSTANT_POOL_BIT)
    }

    #[inline(always)]
    pub fn set_can_get_constant_pool(&mut self, value: bool)
        ensures
            old(self).writes(*final(self), jvmtiCapabilities::CAN_GET_CONSTANT_POOL_BIT as int, value),
    {
        self.set(Self::CAN_GET_CONSTANT_POOL_BIT, value);
    }

    #[inline(always)]
    pub fn can_set_native_method_prefix(&self) -> (r: bool)
        ensures
            self.reads(jvmtiCapabilities::CAN_SET_NATIVE_METHOD_PREFIX_BIT as int, r),
    {
        self.get(Self::CAN_SET_NATIVE_METHOD_PREFIX_BIT)
    }

    #[inline(always)]
    pub fn set_can_set_native_method_prefix(&mut self, value: bool)
        ensures
            old(self).writes(*final(self), jvmtiCapabilities::CAN_SET_NATIVE_METHOD_PREFIX_BIT as int, value),
    {
        self.set(Self::CAN_SET_NATIVE_METHOD_PREFIX_BIT, value);
    }

    #[inline(always)]
    pub fn can_retransform_classes(&self) -> (r: bool)
        ensures
            self.reads(jvmtiCapabilities::CAN_RETRANSFORM_CLASSES_BIT as int, r),
    {
        self.get(Self::CAN_RETRANSFORM_CLASSES_BIT)
    }

    #[inline(always)]
    pub fn set_can_retransform_classes(&mut self, value: bool)
        ensures
            old(self).writes(*final(self), jvmtiCapabilities::CAN_RETRANSFORM_CLASSES_BIT as int, value),
    {
        self.set(Self::CAN_RETRANSFORM_CLASSES_BIT, value);
    }

    #[inline(always)]
    pub fn can_retransform_any_class(&self) -> (r: bool)
        ensures
            self.reads(jvmtiCapabilities::CAN_RETRANSFORM_ANY_CLASS_BIT as int, r),
    {
        self.get(Self::CAN_RETRANSFORM_ANY_CLASS_BIT)
    }

    #[inline(always)]
    pub fn set_can_retransform_any_class(&mut self, value: bool)
        ensures
            old(self).writes(*final(self), jvmtiCapabilities::CAN_RETRANSFORM_ANY_CLASS_BIT as int, value),
    {
        self.set(Self::CAN_RETRANSFORM_ANY_CLASS_BIT, value);
    }

    #[inline(always)]
    pub fn can_generate_resource_exhaustion_heap_events(&self) -> (r: bool)
        ensures
            self.reads(jvmtiCapabilities::CAN_GENERATE_RESOURCE_EXHAUSTION_HEAP_EVENTS_BIT as int, r),
    {
        self.get(Self::CAN_GENERATE_RESOURCE_EXHAUSTION_HEAP_EVENTS_BIT)
    }

    #[inline(always)]
    pub fn set_can_generate_resource_exhaustion_heap_events(&mut self, value: bool)
        ensures
            old(self).writes(*final(self), jvmtiCapabilities::CAN_GENERATE_RESOURCE_EXHAUSTION_HEAP_EVENTS_BIT as int, value),
    {
        self.set(Self::CAN_GENERATE_RESOURCE_EXHAUSTION_HEAP_EVENTS_BIT, value);
    }

    #[inline(always)]
    pub fn can_generate_resource_exhaustion_threads_events(&self) -> (r: bool)
        ensures
            self.reads(jvmtiCapabilities::CAN_GENERATE_RESOURCE_EXHAUSTION_THREADS_EVENTS_BIT as int, r),
    {
        self.get(Self::CAN_GENERATE_RESOURCE_EXHAUSTION_THREADS_EVENTS_BIT)
    }

    #[inline(always)]
    pub fn set_can_generate_resource_exhaustion_threads_events(&mut self, value: bool)
        ensures
            old(self).writes(*final(self), jvmtiCapabilities::CAN_GENERATE_RESOURCE_EXHAUSTION_THREADS_EVENTS_BIT as int, value),
    {
        self.set(Self::CAN_GENERATE_RESOURCE_EXHAUSTION_THREADS_EVENTS_BIT, value);
    }

    #[inline(always)]
    pub fn can_generate_early_vmstart(&self) -> (r: bool)
        ensures
            self.reads(jvmtiCapabilities::CAN_GENERATE_EARLY_VMSTART_BIT as int, r),
    {
        self.get(Self::CAN_GENERATE_EARLY_VMSTART_BIT)
    }

    #[inline(always)]
    pub fn set_can_generate_early_vmstart(&mut self, value: bool)
        ensures
            old(self).writes(*final(self), jvmtiCapabilities::CAN_GENERATE_EARLY_VMSTART_BIT as int, value),
    {
        self.set(Self::CAN_GENERATE_EARLY_VMSTART_BIT, value);
    }

    #[inline(always)]
    pub fn can_generate_early_class_hook_events(&self) -> (r: bool)
        ensures
            self.reads(jvmtiCapabilities::CAN_GENERATE_EARLY_CLASS_HOOK_EVENTS_BIT as int, r),
    {
        self.get(Self::CAN_GENERATE_EARLY_CLASS_HOOK_EVENTS_BIT)
    }

    #[inline(always)]
    pub fn set_can_generate_early_class_hook_events(&mut self, value: bool)
        ensures
            old(self).writes(*final(self), jvmtiCapabilities::CAN_GENERATE_EARLY_CLASS_HOOK_EVENTS_BIT as int, value),
    {
        self.set(Self::CAN_GENERATE_EARLY_CLASS_HOOK_EVENTS_BIT, value);
    }

    #[inline(always)]
    pub fn can_generate_sampled_object_alloc_events(&self) -> (r: bool)
        ensures
            self.reads(jvmtiCapabilities::CAN_GENERATE_SAMPLED_OBJECT_ALLOC_EVENTS_BIT as int, r),
    {
        self.get(Self::CAN_GENERATE_SAMPLED_OBJECT_ALLOC_EVENTS_BIT)
    }

    #[inline(always)]
    pub fn set_can_generate_sampled_object_alloc_events(&mut self, value: bool)
        ensures
            old(self).writes(*final(self), jvmtiCapabilities::CAN_GENERATE_SAMPLED_OBJECT_ALLOC_EVENTS_BIT as int, value),
    {
        self.set(Self::CAN_GENERATE_SAMPLED_OBJECT_ALLOC_EVENTS_BIT, value);
    }

    #[inline(always)]
    pub fn can_support_virtual_threads(&self) -> (r: bool)
        ensures
            self.reads(jvmtiCapabilities::CAN_SUPPORT_VIRTUAL_THREADS_BIT as int, r),
    {
        self.get(Self::CAN_SUPPORT_VIRTUAL_THREADS_BIT)
    }

    #[inline(always)]
    pub fn set_can_support_virtual_threads(&mut self, value: bool)
        ensures
            old(self).writes(*final(self), jvmtiCapabilities::CAN_SUPPORT_VIRTUAL_THREADS_BIT as int, value),
    {
        self.set(Self::CAN_SUPPORT_VIRTUAL_THREADS_BIT, value);
    }

    /// Whether `entries` names every capability in the order of the canonical
    /// list, each with its flag as it reads under the given order.
    pub open spec fn is_snapshot(self, order: Endian, entries: Seq<(&'static str, bool)>) -> bool {
        &&& entries.len() == CAPABILITIES
        &&& forall|i: int|
            0 <= i < CAPABILITIES ==> {
                &&& (#[trigger] entries[i]).0@ == canonical_list()[i].name_of()
                &&& entries[i].1 == self.flag(order, i)
            }
    }

    /// Every capability by name with its flag, in the order of the canonical
    /// list, the bits being numbered in the given order.
    pub fn snapshot_in(&self, order: Endian) -> (entries: Vec<(&'static str, bool)>)
        ensures
            self.is_snapshot(order, entries@),
    {
        let mut entries: Vec<(&'static str, bool)> = Vec::new();
        let mut i: usize = 0;
        while i < CAPABILITIES
            invariant
                i <= CAPABILITIES,
                entries@.len() == i,
                forall|k: int|
                    0 <= k < i ==> {
                        &&& (#[trigger] entries@[k]).0@ == canonical_list()[k].name_of()
                        &&& entries@[k].1 == self.flag(order, k)
                    },
            decreases CAPABILITIES - i,
        {
            match Position::from_index(i) {
                Some(capability) => {
                    entries.push((capability.name(), self.get_in(order, i)));
                },
                None => {},
            }
            i += 1;
        }
        entries
    }

    /// Every capability by name with its flag, in the order of the canonical
    /// list, as the flags read on the target that this runs on.
    pub fn snapshot(&self) -> (entries: Vec<(&'static str, bool)>)
        ensures
            self.is_snapshot(Endian::Little, entries@) || self.is_snapshot(Endian::Big, entries@),
    {
        self.snapshot_in(Endian::target())
    }
}

} // verus!
