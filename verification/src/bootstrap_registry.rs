//! The symbols, method and field keys and core class ids that the runtime
//! looks up again and again, interned once.
use crate::error::JvmError;
use crate::interner::{intern, interned_strings};
use crate::keys::{ClassId, FieldKey, MethodKey, Symbol};
use crate::value::PrimitiveType;
use lasso::ThreadedRodeo;
use vstd::prelude::*;

verus! {

/// Whether `k` is the interned key of `s`, the one key the interner gives it.
pub open spec fn interned_as(i: ThreadedRodeo, k: Symbol, s: Seq<char>) -> bool {
    &&& interned_strings(i).contains_key(k)
    &&& interned_strings(i)[k] == s
    &&& forall|other: Symbol|
        #![trigger interned_strings(i)[other]]
        interned_strings(i).contains_key(other) && interned_strings(i)[other] == s ==> other == k
}

/// Keys interned for equal texts are equal.
pub proof fn law_equal_texts_equal_keys(i: ThreadedRodeo, k1: Symbol, k2: Symbol, s: Seq<char>)
    requires
        interned_as(i, k1, s),
        interned_as(i, k2, s),
    ensures
        k1 == k2,
{
    assert(interned_strings(i)[k2] == s);
}

/// The registry's keys for equal texts are equal: both `fd` fields share
/// their name, and the descriptor of `FileDescriptor.fd` is the `int`
/// descriptor.
pub proof fn law_registry_shares_keys(i: ThreadedRodeo, r: BootstrapRegistry)
    requires
        registry_names(i, r),
    ensures
        r.fd_fd_fk.name == r.file_output_stream_fd_fk.name,
        r.fd_fd_fk.desc == r.int_desc,
        r.clinit_mk.desc == r.no_arg_constructor_mk.desc,
{
    law_equal_texts_equal_keys(i, r.fd_fd_fk.name, r.file_output_stream_fd_fk.name, "fd"@);
    law_equal_texts_equal_keys(i, r.fd_fd_fk.desc, r.int_desc, "I"@);
    law_equal_texts_equal_keys(i, r.clinit_mk.desc, r.no_arg_constructor_mk.desc, "()V"@);
}

/// The interned names and keys of the runtime, and the ids of its core
/// classes once they are loaded.
pub struct BootstrapRegistry {
    pub clinit_mk: MethodKey,
    pub no_arg_constructor_mk: MethodKey,
    pub main_mk: MethodKey,
    pub system_init_phase1_mk: MethodKey,
    pub system_init_phase2_mk: MethodKey,
    pub system_init_phase3_mk: MethodKey,
    pub print_stack_trace_mk: MethodKey,
    pub thread_group_parent_and_name_constructor_mk: MethodKey,
    pub thread_thread_group_and_name_constructor_mk: MethodKey,
    pub thread_group_uncaught_exception_mk: MethodKey,
    pub thread_get_thread_group_mk: MethodKey,
    pub class_name_fk: FieldKey,
    pub class_primitive_fk: FieldKey,
    pub system_out_fk: FieldKey,
    pub system_err_fk: FieldKey,
    pub file_output_stream_fd_fk: FieldKey,
    pub fd_fd_fk: FieldKey,
    pub throwable_backtrace_fk: FieldKey,
    pub throwable_depth_fk: FieldKey,
    pub stack_trace_declaring_class_fk: FieldKey,
    pub stack_trace_method_name_fk: FieldKey,
    pub stack_trace_file_name_fk: FieldKey,
    pub stack_trace_line_number_fk: FieldKey,
    pub stack_trace_declaring_class_name_fk: FieldKey,
    pub reference_referent_fk: FieldKey,
    pub file_path_fk: FieldKey,
    pub java_lang_object_sym: Symbol,
    pub java_lang_class_sym: Symbol,
    pub java_lang_throwable_sym: Symbol,
    pub java_lang_string_sym: Symbol,
    pub java_lang_system_sym: Symbol,
    pub java_lang_thread_sym: Symbol,
    pub java_lang_thread_group_sym: Symbol,
    pub java_lang_ref_reference_sym: Symbol,
    pub java_io_file_sym: Symbol,
    pub int_sym: Symbol,
    pub byte_sym: Symbol,
    pub short_sym: Symbol,
    pub long_sym: Symbol,
    pub float_sym: Symbol,
    pub double_sym: Symbol,
    pub char_sym: Symbol,
    pub boolean_sym: Symbol,
    pub void_sym: Symbol,
    pub init_sym: Symbol,
    pub clinit_sym: Symbol,
    pub main_sym: Symbol,
    pub arraycopy_sym: Symbol,
    pub clone_sym: Symbol,
    pub void_desc: Symbol,
    pub string_desc: Symbol,
    pub object_desc: Symbol,
    pub class_desc: Symbol,
    pub string_array_desc: Symbol,
    pub byte_array_desc: Symbol,
    pub int_array_desc: Symbol,
    pub int_desc: Symbol,
    pub boolean_desc: Symbol,
    pub clone_desc: Symbol,
    pub java_lang_class_id: Option<ClassId>,
    pub java_lang_object_id: Option<ClassId>,
    pub java_lang_throwable_id: Option<ClassId>,
    pub java_lang_thread_group_id: Option<ClassId>,
    pub java_lang_thread_id: Option<ClassId>,
    pub java_lang_string_id: Option<ClassId>,
    pub byte_array_class_id: Option<ClassId>,
    pub java_lang_system_id: Option<ClassId>,
}

/// Whether every symbol and key of `r` is the interned key of its text.
pub open spec fn registry_names(i: ThreadedRodeo, r: BootstrapRegistry) -> bool {
    &&& interned_as(i, r.clinit_mk.name, "<clinit>"@) && interned_as(i, r.clinit_mk.desc, "()V"@)
    &&& interned_as(i, r.no_arg_constructor_mk.name, "<init>"@) && interned_as(i, r.no_arg_constructor_mk.desc, "()V"@)
    &&& interned_as(i, r.main_mk.name, "main"@) && interned_as(i, r.main_mk.desc, "([Ljava/lang/String;)V"@)
    &&& interned_as(i, r.system_init_phase1_mk.name, "initPhase1"@) && interned_as(i, r.system_init_phase1_mk.desc, "()V"@)
    &&& interned_as(i, r.system_init_phase2_mk.name, "initPhase2"@) && interned_as(i, r.system_init_phase2_mk.desc, "(ZZ)I"@)
    &&& interned_as(i, r.system_init_phase3_mk.name, "initPhase3"@) && interned_as(i, r.system_init_phase3_mk.desc, "()V"@)
    &&& interned_as(i, r.print_stack_trace_mk.name, "printStackTrace"@) && interned_as(i, r.print_stack_trace_mk.desc, "()V"@)
    &&& interned_as(i, r.thread_group_parent_and_name_constructor_mk.name, "<init>"@) && interned_as(i, r.thread_group_parent_and_name_constructor_mk.desc, "(Ljava/lang/ThreadGroup;Ljava/lang/String;)V"@)
    &&& interned_as(i, r.thread_thread_group_and_name_constructor_mk.name, "<init>"@) && interned_as(i, r.thread_thread_group_and_name_constructor_mk.desc, "(Ljava/lang/ThreadGroup;Ljava/lang/String;)V"@)
    &&& interned_as(i, r.thread_group_uncaught_exception_mk.name, "uncaughtException"@) && interned_as(i, r.thread_group_uncaught_exception_mk.desc, "(Ljava/lang/Thread;Ljava/lang/Throwable;)V"@)
    &&& interned_as(i, r.thread_get_thread_group_mk.name, "getThreadGroup"@) && interned_as(i, r.thread_get_thread_group_mk.desc, "()Ljava/lang/ThreadGroup;"@)
    &&& interned_as(i, r.class_name_fk.name, "name"@) && interned_as(i, r.class_name_fk.desc, "Ljava/lang/String;"@)
    &&& interned_as(i, r.class_primitive_fk.name, "primitive"@) && interned_as(i, r.class_primitive_fk.desc, "Z"@)
    &&& interned_as(i, r.system_out_fk.name, "out"@) && interned_as(i, r.system_out_fk.desc, "Ljava/io/PrintStream;"@)
    &&& interned_as(i, r.system_err_fk.name, "err"@) && interned_as(i, r.system_err_fk.desc, "Ljava/io/PrintStream;"@)
    &&& interned_as(i, r.file_output_stream_fd_fk.name, "fd"@) && interned_as(i, r.file_output_stream_fd_fk.desc, "Ljava/io/FileDescriptor;"@)
    &&& interned_as(i, r.fd_fd_fk.name, "fd"@) && interned_as(i, r.fd_fd_fk.desc, "I"@)
    &&& interned_as(i, r.throwable_backtrace_fk.name, "backtrace"@) && interned_as(i, r.throwable_backtrace_fk.desc, "Ljava/lang/Object;"@)
    &&& interned_as(i, r.throwable_depth_fk.name, "depth"@) && interned_as(i, r.throwable_depth_fk.desc, "I"@)
    &&& interned_as(i, r.stack_trace_declaring_class_fk.name, "declaringClassObject"@) && interned_as(i, r.stack_trace_declaring_class_fk.desc, "Ljava/lang/Class;"@)
    &&& interned_as(i, r.stack_trace_method_name_fk.name, "methodName"@) && interned_as(i, r.stack_trace_method_name_fk.desc, "Ljava/lang/String;"@)
    &&& interned_as(i, r.stack_trace_file_name_fk.name, "fileName"@) && interned_as(i, r.stack_trace_file_name_fk.desc, "Ljava/lang/String;"@)
    &&& interned_as(i, r.stack_trace_line_number_fk.name, "lineNumber"@) && interned_as(i, r.stack_trace_line_number_fk.desc, "I"@)
    &&& interned_as(i, r.stack_trace_declaring_class_name_fk.name, "declaringClass"@) && interned_as(i, r.stack_trace_declaring_class_name_fk.desc, "Ljava/lang/String;"@)
    &&& interned_as(i, r.reference_referent_fk.name, "referent"@) && interned_as(i, r.reference_referent_fk.desc, "Ljava/lang/Object;"@)
    &&& interned_as(i, r.file_path_fk.name, "path"@) && interned_as(i, r.file_path_fk.desc, "Ljava/lang/String;"@)
    &&& interned_as(i, r.java_lang_object_sym, "java/lang/Object"@)
    &&& interned_as(i, r.java_lang_class_sym, "java/lang/Class"@)
    &&& interned_as(i, r.java_lang_throwable_sym, "java/lang/Throwable"@)
    &&& interned_as(i, r.java_lang_string_sym, "java/lang/String"@)
    &&& interned_as(i, r.java_lang_system_sym, "java/lang/System"@)
    &&& interned_as(i, r.java_lang_thread_sym, "java/lang/Thread"@)
    &&& interned_as(i, r.java_lang_thread_group_sym, "java/lang/ThreadGroup"@)
    &&& interned_as(i, r.java_lang_ref_reference_sym, "java/lang/ref/Reference"@)
    &&& interned_as(i, r.java_io_file_sym, "java/io/File"@)
    &&& interned_as(i, r.int_sym, "int"@)
    &&& interned_as(i, r.byte_sym, "byte"@)
    &&& interned_as(i, r.short_sym, "short"@)
    &&& interned_as(i, r.long_sym, "long"@)
    &&& interned_as(i, r.float_sym, "float"@)
    &&& interned_as(i, r.double_sym, "double"@)
    &&& interned_as(i, r.char_sym, "char"@)
    &&& interned_as(i, r.boolean_sym, "boolean"@)
    &&& interned_as(i, r.void_sym, "void"@)
    &&& interned_as(i, r.init_sym, "<init>"@)
    &&& interned_as(i, r.clinit_sym, "<clinit>"@)
    &&& interned_as(i, r.main_sym, "main"@)
    &&& interned_as(i, r.arraycopy_sym, "arraycopy"@)
    &&& interned_as(i, r.clone_sym, "clone"@)
    &&& interned_as(i, r.void_desc, "()V"@)
    &&& interned_as(i, r.string_desc, "Ljava/lang/String;"@)
    &&& interned_as(i, r.object_desc, "Ljava/lang/Object;"@)
    &&& interned_as(i, r.class_desc, "Ljava/lang/Class;"@)
    &&& interned_as(i, r.string_array_desc, "[Ljava/lang/String;"@)
    &&& interned_as(i, r.byte_array_desc, "[B"@)
    &&& interned_as(i, r.int_array_desc, "[I"@)
    &&& interned_as(i, r.int_desc, "I"@)
    &&& interned_as(i, r.boolean_desc, "Z"@)
    &&& interned_as(i, r.clone_desc, "()Ljava/lang/Object;"@)
}

/// Whether no core class id is known yet.
pub open spec fn no_class_ids(r: BootstrapRegistry) -> bool {
    &&& r.java_lang_class_id is None
    &&& r.java_lang_object_id is None
    &&& r.java_lang_throwable_id is None
    &&& r.java_lang_thread_group_id is None
    &&& r.java_lang_thread_id is None
    &&& r.java_lang_string_id is None
    &&& r.byte_array_class_id is None
    &&& r.java_lang_system_id is None
}

fn intern_or_fail(interner: &ThreadedRodeo, s: &str) -> (r: Result<Symbol, JvmError>)
    ensures
        match r {
            Ok(k) => interned_as(*interner, k, s@),
            Err(e) => e is OutOfMemory,
        },
{
    match intern(interner, s) {
        Some(k) => Ok(k),
        None => Err(JvmError::OutOfMemory),
    }
}

impl BootstrapRegistry {
    /// Interns the names, descriptors and keys the runtime uses; no core
    /// class id is known yet. Fails when the interner refuses a string.
    pub fn new(interner: &ThreadedRodeo) -> (r: Result<BootstrapRegistry, JvmError>)
        ensures
            match r {
                Ok(br) => registry_names(*interner, br) && no_class_ids(br),
                Err(e) => e is OutOfMemory,
            },
    {
        let s0 = intern_or_fail(interner, "<clinit>")?;
        let s1 = intern_or_fail(interner, "()V")?;
        let s2 = intern_or_fail(interner, "<init>")?;
        let s3 = intern_or_fail(interner, "main")?;
        let s4 = intern_or_fail(interner, "([Ljava/lang/String;)V")?;
        let s5 = intern_or_fail(interner, "initPhase1")?;
        let s6 = intern_or_fail(interner, "initPhase2")?;
        let s7 = intern_or_fail(interner, "(ZZ)I")?;
        let s8 = intern_or_fail(interner, "initPhase3")?;
        let s9 = intern_or_fail(interner, "printStackTrace")?;
        let s10 = intern_or_fail(interner, "(Ljava/lang/ThreadGroup;Ljava/lang/String;)V")?;
        let s11 = intern_or_fail(interner, "uncaughtException")?;
        let s12 = intern_or_fail(interner, "(Ljava/lang/Thread;Ljava/lang/Throwable;)V")?;
        let s13 = intern_or_fail(interner, "getThreadGroup")?;
        let s14 = intern_or_fail(interner, "()Ljava/lang/ThreadGroup;")?;
        let s15 = intern_or_fail(interner, "name")?;
        let s16 = intern_or_fail(interner, "Ljava/lang/String;")?;
        let s17 = intern_or_fail(interner, "primitive")?;
        let s18 = intern_or_fail(interner, "Z")?;
        let s19 = intern_or_fail(interner, "out")?;
        let s20 = intern_or_fail(interner, "Ljava/io/PrintStream;")?;
        let s21 = intern_or_fail(interner, "err")?;
        let s22 = intern_or_fail(interner, "fd")?;
        let s23 = intern_or_fail(interner, "Ljava/io/FileDescriptor;")?;
        let s24 = intern_or_fail(interner, "I")?;
        let s25 = intern_or_fail(interner, "backtrace")?;
        let s26 = intern_or_fail(interner, "Ljava/lang/Object;")?;
        let s27 = intern_or_fail(interner, "depth")?;
        let s28 = intern_or_fail(interner, "declaringClassObject")?;
        let s29 = intern_or_fail(interner, "Ljava/lang/Class;")?;
        let s30 = intern_or_fail(interner, "methodName")?;
        let s31 = intern_or_fail(interner, "fileName")?;
        let s32 = intern_or_fail(interner, "lineNumber")?;
        let s33 = intern_or_fail(interner, "declaringClass")?;
        let s34 = intern_or_fail(interner, "referent")?;
        let s35 = intern_or_fail(interner, "path")?;
        let s36 = intern_or_fail(interner, "java/lang/Object")?;
        let s37 = intern_or_fail(interner, "java/lang/Class")?;
        let s38 = intern_or_fail(interner, "java/lang/Throwable")?;
        let s39 = intern_or_fail(interner, "java/lang/String")?;
        let s40 = intern_or_fail(interner, "java/lang/System")?;
        let s41 = intern_or_fail(interner, "java/lang/Thread")?;
        let s42 = intern_or_fail(interner, "java/lang/ThreadGroup")?;
        let s43 = intern_or_fail(interner, "java/lang/ref/Reference")?;
        let s44 = intern_or_fail(interner, "java/io/File")?;
        let s45 = intern_or_fail(interner, "int")?;
        let s46 = intern_or_fail(interner, "byte")?;
        let s47 = intern_or_fail(interner, "short")?;
        let s48 = intern_or_fail(interner, "long")?;
        let s49 = intern_or_fail(interner, "float")?;
        let s50 = intern_or_fail(interner, "double")?;
        let s51 = intern_or_fail(interner, "char")?;
        let s52 = intern_or_fail(interner, "boolean")?;
        let s53 = intern_or_fail(interner, "void")?;
        let s54 = intern_or_fail(interner, "arraycopy")?;
        let s55 = intern_or_fail(interner, "clone")?;
        let s56 = intern_or_fail(interner, "[Ljava/lang/String;")?;
        let s57 = intern_or_fail(interner, "[B")?;
        let s58 = intern_or_fail(interner, "[I")?;
        let s59 = intern_or_fail(interner, "()Ljava/lang/Object;")?;
        Ok(BootstrapRegistry {
            clinit_mk: MethodKey { name: s0, desc: s1 },
            no_arg_constructor_mk: MethodKey { name: s2, desc: s1 },
            main_mk: MethodKey { name: s3, desc: s4 },
            system_init_phase1_mk: MethodKey { name: s5, desc: s1 },
            system_init_phase2_mk: MethodKey { name: s6, desc: s7 },
            system_init_phase3_mk: MethodKey { name: s8, desc: s1 },
            print_stack_trace_mk: MethodKey { name: s9, desc: s1 },
            thread_group_parent_and_name_constructor_mk: MethodKey { name: s2, desc: s10 },
            thread_thread_group_and_name_constructor_mk: MethodKey { name: s2, desc: s10 },
            thread_group_uncaught_exception_mk: MethodKey { name: s11, desc: s12 },
            thread_get_thread_group_mk: MethodKey { name: s13, desc: s14 },
            class_name_fk: FieldKey { name: s15, desc: s16 },
            class_primitive_fk: FieldKey { name: s17, desc: s18 },
            system_out_fk: FieldKey { name: s19, desc: s20 },
            system_err_fk: FieldKey { name: s21, desc: s20 },
            file_output_stream_fd_fk: FieldKey { name: s22, desc: s23 },
            fd_fd_fk: FieldKey { name: s22, desc: s24 },
            throwable_backtrace_fk: FieldKey { name: s25, desc: s26 },
            throwable_depth_fk: FieldKey { name: s27, desc: s24 },
            stack_trace_declaring_class_fk: FieldKey { name: s28, desc: s29 },
            stack_trace_method_name_fk: FieldKey { name: s30, desc: s16 },
            stack_trace_file_name_fk: FieldKey { name: s31, desc: s16 },
            stack_trace_line_number_fk: FieldKey { name: s32, desc: s24 },
            stack_trace_declaring_class_name_fk: FieldKey { name: s33, desc: s16 },
            reference_referent_fk: FieldKey { name: s34, desc: s26 },
            file_path_fk: FieldKey { name: s35, desc: s16 },
            java_lang_object_sym: s36,
            java_lang_class_sym: s37,
            java_lang_throwable_sym: s38,
            java_lang_string_sym: s39,
            java_lang_system_sym: s40,
            java_lang_thread_sym: s41,
            java_lang_thread_group_sym: s42,
            java_lang_ref_reference_sym: s43,
            java_io_file_sym: s44,
            int_sym: s45,
            byte_sym: s46,
            short_sym: s47,
            long_sym: s48,
            float_sym: s49,
            double_sym: s50,
            char_sym: s51,
            boolean_sym: s52,
            void_sym: s53,
            init_sym: s2,
            clinit_sym: s0,
            main_sym: s3,
            arraycopy_sym: s54,
            clone_sym: s55,
            void_desc: s1,
            string_desc: s16,
            object_desc: s26,
            class_desc: s29,
            string_array_desc: s56,
            byte_array_desc: s57,
            int_array_desc: s58,
            int_desc: s24,
            boolean_desc: s18,
            clone_desc: s59,
            java_lang_class_id: None,
            java_lang_object_id: None,
            java_lang_throwable_id: None,
            java_lang_thread_group_id: None,
            java_lang_thread_id: None,
            java_lang_string_id: None,
            byte_array_class_id: None,
            java_lang_system_id: None,
        })
    }

    /// Records the id of java/lang/Class; refused when it is already known.
    pub fn set_java_lang_class_id(&mut self, class_id: ClassId) -> (r: Result<(), JvmError>)
        ensures
            old(self).java_lang_class_id is Some ==> *final(self) == *old(self) && (r matches Err(JvmError::Todo(s)) && s@ == "java/lang/Class ID already set"@),
            old(self).java_lang_class_id is None ==> *final(self) == (BootstrapRegistry { java_lang_class_id: Some(class_id), ..*old(self) }) && r is Ok,
    {
        if self.java_lang_class_id.is_some() {
            return Err(JvmError::Todo("java/lang/Class ID already set".to_string()));
        }
        self.java_lang_class_id = Some(class_id);
        Ok(())
    }

    /// The id of java/lang/Class, once recorded.
    pub fn get_java_lang_class_id(&self) -> (r: Result<ClassId, JvmError>)
        ensures
            match self.java_lang_class_id {
                Some(id) => r == Ok::<ClassId, JvmError>(id),
                None => r matches Err(JvmError::Todo(s)) && s@ == "java/lang/Class is not loaded"@,
            },
    {
        match self.java_lang_class_id {
            Some(id) => Ok(id),
            None => Err(JvmError::Todo("java/lang/Class is not loaded".to_string())),
        }
    }

    /// Records the id of java/lang/Object; refused when it is already known.
    pub fn set_java_lang_object_id(&mut self, class_id: ClassId) -> (r: Result<(), JvmError>)
        ensures
            old(self).java_lang_object_id is Some ==> *final(self) == *old(self) && (r matches Err(JvmError::Todo(s)) && s@ == "java/lang/Object ID already set"@),
            old(self).java_lang_object_id is None ==> *final(self) == (BootstrapRegistry { java_lang_object_id: Some(class_id), ..*old(self) }) && r is Ok,
    {
        if self.java_lang_object_id.is_some() {
            return Err(JvmError::Todo("java/lang/Object ID already set".to_string()));
        }
        self.java_lang_object_id = Some(class_id);
        Ok(())
    }

    /// The id of java/lang/Object, once recorded.
    pub fn get_java_lang_object_id(&self) -> (r: Result<ClassId, JvmError>)
        ensures
            match self.java_lang_object_id {
                Some(id) => r == Ok::<ClassId, JvmError>(id),
                None => r matches Err(JvmError::Todo(s)) && s@ == "java/lang/Object is not loaded"@,
            },
    {
        match self.java_lang_object_id {
            Some(id) => Ok(id),
            None => Err(JvmError::Todo("java/lang/Object is not loaded".to_string())),
        }
    }

    /// Records the id of java/lang/Throwable; refused when it is already known.
    pub fn set_java_lang_throwable_id(&mut self, class_id: ClassId) -> (r: Result<(), JvmError>)
        ensures
            old(self).java_lang_throwable_id is Some ==> *final(self) == *old(self) && (r matches Err(JvmError::Todo(s)) && s@ == "java/lang/Throwable ID already set"@),
            old(self).java_lang_throwable_id is None ==> *final(self) == (BootstrapRegistry { java_lang_throwable_id: Some(class_id), ..*old(self) }) && r is Ok,
    {
        if self.java_lang_throwable_id.is_some() {
            return Err(JvmError::Todo("java/lang/Throwable ID already set".to_string()));
        }
        self.java_lang_throwable_id = Some(class_id);
        Ok(())
    }

    /// The id of java/lang/Throwable, once recorded.
    pub fn get_java_lang_throwable_id(&self) -> (r: Result<ClassId, JvmError>)
        ensures
            match self.java_lang_throwable_id {
                Some(id) => r == Ok::<ClassId, JvmError>(id),
                None => r matches Err(JvmError::Todo(s)) && s@ == "java/lang/Throwable is not loaded"@,
            },
    {
        match self.java_lang_throwable_id {
            Some(id) => Ok(id),
            None => Err(JvmError::Todo("java/lang/Throwable is not loaded".to_string())),
        }
    }

    /// Records the id of java/lang/ThreadGroup; refused when it is already known.
    pub fn set_java_lang_thread_group_id(&mut self, class_id: ClassId) -> (r: Result<(), JvmError>)
        ensures
            old(self).java_lang_thread_group_id is Some ==> *final(self) == *old(self) && (r matches Err(JvmError::Todo(s)) && s@ == "java/lang/ThreadGroup ID already set"@),
            old(self).java_lang_thread_group_id is None ==> *final(self) == (BootstrapRegistry { java_lang_thread_group_id: Some(class_id), ..*old(self) }) && r is Ok,
    {
        if self.java_lang_thread_group_id.is_some() {
            return Err(JvmError::Todo("java/lang/ThreadGroup ID already set".to_string()));
        }
        self.java_lang_thread_group_id = Some(class_id);
        Ok(())
    }

    /// The id of java/lang/ThreadGroup, once recorded.
    pub fn get_java_lang_thread_group_id(&self) -> (r: Result<ClassId, JvmError>)
        ensures
            match self.java_lang_thread_group_id {
                Some(id) => r == Ok::<ClassId, JvmError>(id),
                None => r matches Err(JvmError::Todo(s)) && s@ == "java/lang/ThreadGroup is not loaded"@,
            },
    {
        match self.java_lang_thread_group_id {
            Some(id) => Ok(id),
            None => Err(JvmError::Todo("java/lang/ThreadGroup is not loaded".to_string())),
        }
    }

    /// Records the id of java/lang/Thread; refused when it is already known.
    pub fn set_java_lang_thread_id(&mut self, class_id: ClassId) -> (r: Result<(), JvmError>)
        ensures
            old(self).java_lang_thread_id is Some ==> *final(self) == *old(self) && (r matches Err(JvmError::Todo(s)) && s@ == "java/lang/Thread ID already set"@),
            old(self).java_lang_thread_id is None ==> *final(self) == (BootstrapRegistry { java_lang_thread_id: Some(class_id), ..*old(self) }) && r is Ok,
    {
        if self.java_lang_thread_id.is_some() {
            return Err(JvmError::Todo("java/lang/Thread ID already set".to_string()));
        }
        self.java_lang_thread_id = Some(class_id);
        Ok(())
    }

    /// The id of java/lang/Thread, once recorded.
    pub fn get_java_lang_thread_id(&self) -> (r: Result<ClassId, JvmError>)
        ensures
            match self.java_lang_thread_id {
                Some(id) => r == Ok::<ClassId, JvmError>(id),
                None => r matches Err(JvmError::Todo(s)) && s@ == "java/lang/Thread is not loaded"@,
            },
    {
        match self.java_lang_thread_id {
            Some(id) => Ok(id),
            None => Err(JvmError::Todo("java/lang/Thread is not loaded".to_string())),
        }
    }

    /// Records the id of java/lang/String; refused when it is already known.
    pub fn set_java_lang_string_id(&mut self, class_id: ClassId) -> (r: Result<(), JvmError>)
        ensures
            old(self).java_lang_string_id is Some ==> *final(self) == *old(self) && (r matches Err(JvmError::Todo(s)) && s@ == "java/lang/String ID already set"@),
            old(self).java_lang_string_id is None ==> *final(self) == (BootstrapRegistry { java_lang_string_id: Some(class_id), ..*old(self) }) && r is Ok,
    {
        if self.java_lang_string_id.is_some() {
            return Err(JvmError::Todo("java/lang/String ID already set".to_string()));
        }
        self.java_lang_string_id = Some(class_id);
        Ok(())
    }

    /// The id of java/lang/String, once recorded.
    pub fn get_java_lang_string_id(&self) -> (r: Result<ClassId, JvmError>)
        ensures
            match self.java_lang_string_id {
                Some(id) => r == Ok::<ClassId, JvmError>(id),
                None => r matches Err(JvmError::Todo(s)) && s@ == "java/lang/String is not loaded"@,
            },
    {
        match self.java_lang_string_id {
            Some(id) => Ok(id),
            None => Err(JvmError::Todo("java/lang/String is not loaded".to_string())),
        }
    }

    /// Records the id of [B class; refused when it is already known.
    pub fn set_byte_array_class_id(&mut self, class_id: ClassId) -> (r: Result<(), JvmError>)
        ensures
            old(self).byte_array_class_id is Some ==> *final(self) == *old(self) && (r matches Err(JvmError::Todo(s)) && s@ == "[B class ID already set"@),
            old(self).byte_array_class_id is None ==> *final(self) == (BootstrapRegistry { byte_array_class_id: Some(class_id), ..*old(self) }) && r is Ok,
    {
        if self.byte_array_class_id.is_some() {
            return Err(JvmError::Todo("[B class ID already set".to_string()));
        }
        self.byte_array_class_id = Some(class_id);
        Ok(())
    }

    /// The id of [B class, once recorded.
    pub fn get_byte_array_class_id(&self) -> (r: Result<ClassId, JvmError>)
        ensures
            match self.byte_array_class_id {
                Some(id) => r == Ok::<ClassId, JvmError>(id),
                None => r matches Err(JvmError::Todo(s)) && s@ == "[B class is not loaded"@,
            },
    {
        match self.byte_array_class_id {
            Some(id) => Ok(id),
            None => Err(JvmError::Todo("[B class is not loaded".to_string())),
        }
    }

    /// Records the id of java/lang/System; refused when it is already known.
    pub fn set_java_lang_system_id(&mut self, class_id: ClassId) -> (r: Result<(), JvmError>)
        ensures
            old(self).java_lang_system_id is Some ==> *final(self) == *old(self) && (r matches Err(JvmError::Todo(s)) && s@ == "java/lang/System ID already set"@),
            old(self).java_lang_system_id is None ==> *final(self) == (BootstrapRegistry { java_lang_system_id: Some(class_id), ..*old(self) }) && r is Ok,
    {
        if self.java_lang_system_id.is_some() {
            return Err(JvmError::Todo("java/lang/System ID already set".to_string()));
        }
        self.java_lang_system_id = Some(class_id);
        Ok(())
    }

    /// The id of java/lang/System, once recorded.
    pub fn get_java_lang_system_id(&self) -> (r: Result<ClassId, JvmError>)
        ensures
            match self.java_lang_system_id {
                Some(id) => r == Ok::<ClassId, JvmError>(id),
                None => r matches Err(JvmError::Todo(s)) && s@ == "java/lang/System is not loaded"@,
            },
    {
        match self.java_lang_system_id {
            Some(id) => Ok(id),
            None => Err(JvmError::Todo("java/lang/System is not loaded".to_string())),
        }
    }

    /// The interned name of a primitive type, such as `int`.
    pub fn get_primitive_sym(&self, primitive: &PrimitiveType) -> (r: Symbol)
        ensures
            r == primitive_sym(*self, *primitive),
    {
        match primitive {
            PrimitiveType::Int => self.int_sym,
            PrimitiveType::Byte => self.byte_sym,
            PrimitiveType::Short => self.short_sym,
            PrimitiveType::Long => self.long_sym,
            PrimitiveType::Float => self.float_sym,
            PrimitiveType::Double => self.double_sym,
            PrimitiveType::Char => self.char_sym,
            PrimitiveType::Boolean => self.boolean_sym,
        }
    }
}

/// The interned name of a primitive type.
pub open spec fn primitive_sym(r: BootstrapRegistry, p: PrimitiveType) -> Symbol {
    match p {
        PrimitiveType::Int => r.int_sym,
        PrimitiveType::Byte => r.byte_sym,
        PrimitiveType::Short => r.short_sym,
        PrimitiveType::Long => r.long_sym,
        PrimitiveType::Float => r.float_sym,
        PrimitiveType::Double => r.double_sym,
        PrimitiveType::Char => r.char_sym,
        PrimitiveType::Boolean => r.boolean_sym,
    }
}

} // verus!
