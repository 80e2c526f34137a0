//! The native methods the runtime provides, and the registry that finds
//! them by class, name and descriptor.
use crate::error::JvmError;
use crate::interner::{intern, interned_strings};
use crate::keys::Symbol;
use lasso::ThreadedRodeo;
use std::sync::Arc;
use vstd::prelude::*;

verus! {

/// A method named by its class, name and descriptor; a native that arrays
/// share has no class.
#[derive(Clone, Copy, Debug, PartialEq, Eq, Structural)]
pub struct FullyQualifiedMethodKey {
    pub class: Option<Symbol>,
    pub name: Symbol,
    pub desc: Symbol,
}

/// The native methods of the runtime.
#[derive(Clone, Copy, Debug, PartialEq, Eq, Structural)]
pub enum NativeMethod {
    ObjectGetClass,
    ThrowableFillInStackTrace,
    FloatToRawIntBits,
    DoubleToRawLongBits,
    ObjectHashCode,
    RuntimeMaxMemory,
    RuntimeAvailableProcessors,
    ObjectNotifyAll,
    StackTraceElementInitStackTraceElements,
    IntBitsToFloat,
    NullPointerExceptionGetExtendedNpeMessage,
    SystemArraycopy,
    StringIntern,
    LongBitsToDouble,
    FileOutputStreamWriteBytes,
    FileInputStreamInitIds,
    FileDescriptorInitIds,
    FileDescriptorGetHandle,
    FileDescriptorGetAppend,
    FileOutputStreamInitIds,
    UnixFileSystemInitIds,
    UnixFileSystemCanonicalize0,
    UnixFileSystemGetBooleanAttributes0,
    ReferenceRefersTo0
}

/// The key an interner holds for `s`, if it holds one.
pub open spec fn key_of(i: ThreadedRodeo, s: Seq<char>) -> Symbol {
    choose|k: Symbol| interned_strings(i).contains_key(k) && interned_strings(i)[k] == s
}

/// The key of the method named by `class`, `name` and `desc`.
pub open spec fn method_key_of(i: ThreadedRodeo, class: Seq<char>, name: Seq<char>, desc: Seq<char>) -> FullyQualifiedMethodKey {
    FullyQualifiedMethodKey { class: Some(key_of(i, class)), name: key_of(i, name), desc: key_of(i, desc) }
}

/// `m` with the natives of `table` registered in order, each under the key
/// of its class, name and descriptor.
pub open spec fn registered_all(
    m: Map<FullyQualifiedMethodKey, NativeMethod>,
    i: ThreadedRodeo,
    table: Seq<(Seq<char>, Seq<char>, Seq<char>, NativeMethod)>,
) -> Map<FullyQualifiedMethodKey, NativeMethod>
    decreases table.len(),
{
    if table.len() == 0 {
        m
    } else {
        let e = table.last();
        registered_all(m, i, table.drop_last()).insert(method_key_of(i, e.0, e.1, e.2), e.3)
    }
}

/// A native with the text of its class, name and descriptor.
pub struct NativeEntry {
    pub class: &'static str,
    pub name: &'static str,
    pub desc: &'static str,
    pub native: NativeMethod,
}

/// The texts and natives of `entries`.
pub open spec fn entries_text(entries: Seq<NativeEntry>) -> Seq<(Seq<char>, Seq<char>, Seq<char>, NativeMethod)> {
    entries.map_values(|e: NativeEntry| (e.class@, e.name@, e.desc@, e.native))
}

/// The natives registered under their keys, last registration first.
pub open spec fn lookup(entries: Seq<(FullyQualifiedMethodKey, NativeMethod)>, k: FullyQualifiedMethodKey) -> Option<NativeMethod>
    decreases entries.len(),
{
    if entries.len() == 0 {
        None
    } else if entries.last().0 == k {
        Some(entries.last().1)
    } else {
        lookup(entries.drop_last(), k)
    }
}

/// The natives the runtime knows, by key.
pub struct NativeRegistry {
    entries: Vec<(FullyQualifiedMethodKey, NativeMethod)>,
    pub string_interner: Arc<ThreadedRodeo>,
}

impl FullyQualifiedMethodKey {
    /// The key of the method named by the texts `class`, `name` and `desc`,
    /// interning them. Fails when the interner refuses one.
    pub fn new_with_str(class: &str, name: &str, desc: &str, interner: &ThreadedRodeo) -> (r: Result<
        FullyQualifiedMethodKey,
        JvmError,
    >)
        ensures
            match r {
                Ok(k) => k == method_key_of(*interner, class@, name@, desc@),
                Err(e) => e is OutOfMemory,
            },
    {
        let class_sym = match intern(interner, class) {
            Some(k) => k,
            None => {
                return Err(JvmError::OutOfMemory);
            },
        };
        let name_sym = match intern(interner, name) {
            Some(k) => k,
            None => {
                return Err(JvmError::OutOfMemory);
            },
        };
        let desc_sym = match intern(interner, desc) {
            Some(k) => k,
            None => {
                return Err(JvmError::OutOfMemory);
            },
        };
        proof {
            assert(interned_strings(*interner)[key_of(*interner, class@)] == class@);
            assert(interned_strings(*interner)[key_of(*interner, name@)] == name@);
            assert(interned_strings(*interner)[key_of(*interner, desc@)] == desc@);
        }
        Ok(FullyQualifiedMethodKey { class: Some(class_sym), name: name_sym, desc: desc_sym })
    }
}

impl NativeRegistry {
    /// The natives registered, by key.
    pub closed spec fn natives(&self) -> Map<FullyQualifiedMethodKey, NativeMethod> {
        Map::new(|k: FullyQualifiedMethodKey| lookup(self.entries@, k) is Some, |k: FullyQualifiedMethodKey| lookup(self.entries@, k)->0)
    }

    /// The interner the registry names methods with.
    pub closed spec fn interner(&self) -> ThreadedRodeo {
        *self.string_interner
    }

    /// An empty registry naming methods with `string_interner`.
    pub fn new(string_interner: Arc<ThreadedRodeo>) -> (r: NativeRegistry)
        ensures
            r.natives() == Map::<FullyQualifiedMethodKey, NativeMethod>::empty(),
            r.interner() == *string_interner,
    {
        let r = NativeRegistry { entries: Vec::new(), string_interner };
        assert(r.natives() =~= Map::<FullyQualifiedMethodKey, NativeMethod>::empty());
        r
    }

    /// Registers `native` under `key`, replacing what was there.
    pub fn register(&mut self, key: FullyQualifiedMethodKey, native: NativeMethod)
        ensures
            final(self).natives() == old(self).natives().insert(key, native),
            final(self).interner() == old(self).interner(),
    {
        self.entries.push((key, native));
        proof {
            assert(self.entries@.drop_last() =~= old(self).entries@);
            assert(self.natives() =~= old(self).natives().insert(key, native));
        }
    }

    /// The native registered under `key`.
    pub fn get(&self, key: &FullyQualifiedMethodKey) -> (r: Option<NativeMethod>)
        ensures
            r == (if self.natives().contains_key(*key) {
                Some(self.natives()[*key])
            } else {
                None::<NativeMethod>
            }),
    {
        let mut i = self.entries.len();
        assert(self.entries@.take(i as int) =~= self.entries@);
        while i > 0
            invariant
                i <= self.entries@.len(),
                lookup(self.entries@, *key) == lookup(self.entries@.take(i as int), *key),
            decreases i,
        {
            let (k, native) = self.entries[i - 1];
            proof {
                assert(self.entries@.take(i as int).drop_last() =~= self.entries@.take(i - 1));
            }
            if k == *key {
                return Some(native);
            }
            i = i - 1;
        }
        None
    }

    /// Registers every native of `table` in order.
    fn register_all(&mut self, table: &Vec<NativeEntry>) -> (r: Result<(), JvmError>)
        ensures
            final(self).interner() == old(self).interner(),
            match r {
                Ok(_) => final(self).natives() == registered_all(old(self).natives(), old(self).interner(), entries_text(table@)),
                Err(e) => e is OutOfMemory,
            },
    {
        let mut i: usize = 0;
        while i < table.len()
            invariant
                i <= table@.len(),
                self.interner() == old(self).interner(),
                self.natives() == registered_all(
                    old(self).natives(),
                    old(self).interner(),
                    entries_text(table@).take(i as int),
                ),
            decreases table@.len() - i,
        {
            let entry = &table[i];
            let key = FullyQualifiedMethodKey::new_with_str(entry.class, entry.name, entry.desc, &*self.string_interner)?;
            self.register(key, entry.native);
            proof {
                assert(entries_text(table@).take(i + 1).drop_last() =~= entries_text(table@).take(i as int));
            }
            i = i + 1;
        }
        assert(entries_text(table@).take(table@.len() as int) =~= entries_text(table@));
        Ok(())
    }
}

/// The natives of `java.lang` the runtime registers first.
pub open spec fn java_lang_natives() -> Seq<(Seq<char>, Seq<char>, Seq<char>, NativeMethod)> {
    seq![
        ("java/lang/Object"@, "getClass"@, "()Ljava/lang/Class;"@, NativeMethod::ObjectGetClass),
        ("java/lang/Throwable"@, "fillInStackTrace"@, "(I)Ljava/lang/Throwable;"@, NativeMethod::ThrowableFillInStackTrace),
        ("java/lang/Float"@, "floatToRawIntBits"@, "(F)I"@, NativeMethod::FloatToRawIntBits),
        ("java/lang/Double"@, "doubleToRawLongBits"@, "(D)J"@, NativeMethod::DoubleToRawLongBits),
        ("java/lang/Object"@, "hashCode"@, "()I"@, NativeMethod::ObjectHashCode),
        ("java/lang/Runtime"@, "maxMemory"@, "()J"@, NativeMethod::RuntimeMaxMemory),
        ("java/lang/Runtime"@, "availableProcessors"@, "()I"@, NativeMethod::RuntimeAvailableProcessors),
        ("java/lang/Object"@, "notifyAll"@, "()V"@, NativeMethod::ObjectNotifyAll),
        ("java/lang/StackTraceElement"@, "initStackTraceElements"@, "([Ljava/lang/StackTraceElement;Ljava/lang/Object;I)V"@, NativeMethod::StackTraceElementInitStackTraceElements),
        ("java/lang/Float"@, "intBitsToFloat"@, "(I)F"@, NativeMethod::IntBitsToFloat),
        ("java/lang/NullPointerException"@, "getExtendedNPEMessage"@, "()Ljava/lang/String;"@, NativeMethod::NullPointerExceptionGetExtendedNpeMessage),
        ("java/lang/System"@, "arraycopy"@, "(Ljava/lang/Object;ILjava/lang/Object;II)V"@, NativeMethod::SystemArraycopy),
        ("java/lang/String"@, "intern"@, "()Ljava/lang/String;"@, NativeMethod::StringIntern),
        ("java/lang/Double"@, "longBitsToDouble"@, "(J)D"@, NativeMethod::LongBitsToDouble)
    ]
}

/// The natives of `java.io` the runtime registers first.
pub open spec fn java_io_natives() -> Seq<(Seq<char>, Seq<char>, Seq<char>, NativeMethod)> {
    seq![
        ("java/io/FileOutputStream"@, "writeBytes"@, "([BIIZ)V"@, NativeMethod::FileOutputStreamWriteBytes),
        ("java/io/FileInputStream"@, "initIDs"@, "()V"@, NativeMethod::FileInputStreamInitIds),
        ("java/io/FileDescriptor"@, "initIDs"@, "()V"@, NativeMethod::FileDescriptorInitIds),
        ("java/io/FileDescriptor"@, "getHandle"@, "(I)J"@, NativeMethod::FileDescriptorGetHandle),
        ("java/io/FileDescriptor"@, "getAppend"@, "(I)Z"@, NativeMethod::FileDescriptorGetAppend),
        ("java/io/FileOutputStream"@, "initIDs"@, "()V"@, NativeMethod::FileOutputStreamInitIds),
        ("java/io/UnixFileSystem"@, "initIDs"@, "()V"@, NativeMethod::UnixFileSystemInitIds),
        ("java/io/UnixFileSystem"@, "canonicalize0"@, "(Ljava/lang/String;)Ljava/lang/String;"@, NativeMethod::UnixFileSystemCanonicalize0),
        ("java/io/UnixFileSystem"@, "getBooleanAttributes0"@, "(Ljava/io/File;)I"@, NativeMethod::UnixFileSystemGetBooleanAttributes0)
    ]
}

/// The natives of `java.lang.ref` the runtime registers first.
pub open spec fn java_lang_ref_natives() -> Seq<(Seq<char>, Seq<char>, Seq<char>, NativeMethod)> {
    seq![
        ("java/lang/ref/Reference"@, "refersTo0"@, "(Ljava/lang/Object;)Z"@, NativeMethod::ReferenceRefersTo0)
    ]
}

fn java_lang_table() -> (r: Vec<NativeEntry>)
    ensures
        entries_text(r@) == java_lang_natives(),
{
    let mut t: Vec<NativeEntry> = Vec::new();
    t.push(NativeEntry { class: "java/lang/Object", name: "getClass", desc: "()Ljava/lang/Class;", native: NativeMethod::ObjectGetClass });
    t.push(NativeEntry { class: "java/lang/Throwable", name: "fillInStackTrace", desc: "(I)Ljava/lang/Throwable;", native: NativeMethod::ThrowableFillInStackTrace });
    t.push(NativeEntry { class: "java/lang/Float", name: "floatToRawIntBits", desc: "(F)I", native: NativeMethod::FloatToRawIntBits });
    t.push(NativeEntry { class: "java/lang/Double", name: "doubleToRawLongBits", desc: "(D)J", native: NativeMethod::DoubleToRawLongBits });
    t.push(NativeEntry { class: "java/lang/Object", name: "hashCode", desc: "()I", native: NativeMethod::ObjectHashCode });
    t.push(NativeEntry { class: "java/lang/Runtime", name: "maxMemory", desc: "()J", native: NativeMethod::RuntimeMaxMemory });
    t.push(NativeEntry { class: "java/lang/Runtime", name: "availableProcessors", desc: "()I", native: NativeMethod::RuntimeAvailableProcessors });
    t.push(NativeEntry { class: "java/lang/Object", name: "notifyAll", desc: "()V", native: NativeMethod::ObjectNotifyAll });
    t.push(NativeEntry { class: "java/lang/StackTraceElement", name: "initStackTraceElements", desc: "([Ljava/lang/StackTraceElement;Ljava/lang/Object;I)V", native: NativeMethod::StackTraceElementInitStackTraceElements });
    t.push(NativeEntry { class: "java/lang/Float", name: "intBitsToFloat", desc: "(I)F", native: NativeMethod::IntBitsToFloat });
    t.push(NativeEntry { class: "java/lang/NullPointerException", name: "getExtendedNPEMessage", desc: "()Ljava/lang/String;", native: NativeMethod::NullPointerExceptionGetExtendedNpeMessage });
    t.push(NativeEntry { class: "java/lang/System", name: "arraycopy", desc: "(Ljava/lang/Object;ILjava/lang/Object;II)V", native: NativeMethod::SystemArraycopy });
    t.push(NativeEntry { class: "java/lang/String", name: "intern", desc: "()Ljava/lang/String;", native: NativeMethod::StringIntern });
    t.push(NativeEntry { class: "java/lang/Double", name: "longBitsToDouble", desc: "(J)D", native: NativeMethod::LongBitsToDouble });
    assert(entries_text(t@) =~= java_lang_natives());
    t
}

fn java_io_table() -> (r: Vec<NativeEntry>)
    ensures
        entries_text(r@) == java_io_natives(),
{
    let mut t: Vec<NativeEntry> = Vec::new();
    t.push(NativeEntry { class: "java/io/FileOutputStream", name: "writeBytes", desc: "([BIIZ)V", native: NativeMethod::FileOutputStreamWriteBytes });
    t.push(NativeEntry { class: "java/io/FileInputStream", name: "initIDs", desc: "()V", native: NativeMethod::FileInputStreamInitIds });
    t.push(NativeEntry { class: "java/io/FileDescriptor", name: "initIDs", desc: "()V", native: NativeMethod::FileDescriptorInitIds });
    t.push(NativeEntry { class: "java/io/FileDescriptor", name: "getHandle", desc: "(I)J", native: NativeMethod::FileDescriptorGetHandle });
    t.push(NativeEntry { class: "java/io/FileDescriptor", name: "getAppend", desc: "(I)Z", native: NativeMethod::FileDescriptorGetAppend });
    t.push(NativeEntry { class: "java/io/FileOutputStream", name: "initIDs", desc: "()V", native: NativeMethod::FileOutputStreamInitIds });
    t.push(NativeEntry { class: "java/io/UnixFileSystem", name: "initIDs", desc: "()V", native: NativeMethod::UnixFileSystemInitIds });
    t.push(NativeEntry { class: "java/io/UnixFileSystem", name: "canonicalize0", desc: "(Ljava/lang/String;)Ljava/lang/String;", native: NativeMethod::UnixFileSystemCanonicalize0 });
    t.push(NativeEntry { class: "java/io/UnixFileSystem", name: "getBooleanAttributes0", desc: "(Ljava/io/File;)I", native: NativeMethod::UnixFileSystemGetBooleanAttributes0 });
    assert(entries_text(t@) =~= java_io_natives());
    t
}

fn java_lang_ref_table() -> (r: Vec<NativeEntry>)
    ensures
        entries_text(r@) == java_lang_ref_natives(),
{
    let mut t: Vec<NativeEntry> = Vec::new();
    t.push(NativeEntry { class: "java/lang/ref/Reference", name: "refersTo0", desc: "(Ljava/lang/Object;)Z", native: NativeMethod::ReferenceRefersTo0 });
    assert(entries_text(t@) =~= java_lang_ref_natives());
    t
}

/// Registers the natives of `java.lang`. Fails when the interner refuses a name.
pub fn do_register_java_lang_preregistered_natives(native_registry: &mut NativeRegistry) -> (r: Result<(), JvmError>)
    ensures
        final(native_registry).interner() == old(native_registry).interner(),
        match r {
            Ok(_) => final(native_registry).natives() == registered_all(
                old(native_registry).natives(),
                old(native_registry).interner(),
                java_lang_natives(),
            ),
            Err(e) => e is OutOfMemory,
        },
{
    let table = java_lang_table();
    native_registry.register_all(&table)
}

/// Registers the natives of `java.io`. Fails when the interner refuses a name.
pub fn do_register_java_io_preregistered_natives(native_registry: &mut NativeRegistry) -> (r: Result<(), JvmError>)
    ensures
        final(native_registry).interner() == old(native_registry).interner(),
        match r {
            Ok(_) => final(native_registry).natives() == registered_all(
                old(native_registry).natives(),
                old(native_registry).interner(),
                java_io_natives(),
            ),
            Err(e) => e is OutOfMemory,
        },
{
    let table = java_io_table();
    native_registry.register_all(&table)
}

/// Registers the natives of `java.lang.ref`. Fails when the interner refuses a name.
pub fn do_register_java_lang_ref_preregistered_natives(native_registry: &mut NativeRegistry) -> (r: Result<(), JvmError>)
    ensures
        final(native_registry).interner() == old(native_registry).interner(),
        match r {
            Ok(_) => final(native_registry).natives() == registered_all(
                old(native_registry).natives(),
                old(native_registry).interner(),
                java_lang_ref_natives(),
            ),
            Err(e) => e is OutOfMemory,
        },
{
    let table = java_lang_ref_table();
    native_registry.register_all(&table)
}

/// A native registered under a key is what looking that key up gives, and
/// registering it leaves every other key as it was.
pub proof fn law_registered_native_is_found(
    before: NativeRegistry,
    after: NativeRegistry,
    key: FullyQualifiedMethodKey,
    native: NativeMethod,
    other: FullyQualifiedMethodKey,
)
    requires
        after.natives() == before.natives().insert(key, native),
        other != key,
    ensures
        after.natives().contains_key(key),
        after.natives()[key] == native,
        after.natives().contains_key(other) == before.natives().contains_key(other),
        before.natives().contains_key(other) ==> after.natives()[other] == before.natives()[other],
{
}

/// After the natives of a table are registered, the key made from the texts
/// of any of its entries finds that entry's native, provided later entries
/// name other methods.
pub proof fn law_preregistered_native_is_found(
    m: Map<FullyQualifiedMethodKey, NativeMethod>,
    i: ThreadedRodeo,
    table: Seq<(Seq<char>, Seq<char>, Seq<char>, NativeMethod)>,
    j: int,
)
    requires
        0 <= j < table.len(),
        forall|k: int| j < k < table.len() ==> method_key_of(i, table[k].0, table[k].1, table[k].2)
            != method_key_of(i, table[j].0, table[j].1, table[j].2),
    ensures
        registered_all(m, i, table).contains_key(method_key_of(i, table[j].0, table[j].1, table[j].2)),
        registered_all(m, i, table)[method_key_of(i, table[j].0, table[j].1, table[j].2)] == table[j].3,
    decreases table.len(),
{
    if j < table.len() - 1 {
        law_preregistered_native_is_found(m, i, table.drop_last(), j);
    }
}

} // verus!
