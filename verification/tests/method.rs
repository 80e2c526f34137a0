use lagertha_runtime::error::{JvmError, LinkageError};
use lagertha_runtime::keys::{ClassId, MethodDescriptorId};
use lagertha_runtime::method::{
    CodeAttribute, CodeAttributeInfo, CodeBody, ExceptionTableEntry, LineNumberEntry, Method, MethodAttribute,
    MethodFlags, MethodInfo, StackMapFrame, ACC_NATIVE, ACC_STATIC,
};

fn code_attr(attributes: Vec<CodeAttributeInfo>) -> CodeAttribute {
    CodeAttribute {
        max_stack: 2,
        max_locals: 1,
        code: vec![0x03, 0xac],
        exception_table: vec![ExceptionTableEntry { start_pc: 0, end_pc: 2, handler_pc: 1, catch_type: 0 }],
        attributes,
    }
}

fn lines(v: &[(u16, u16)]) -> Vec<LineNumberEntry> {
    v.iter().map(|&(start_pc, line_number)| LineNumberEntry { start_pc, line_number }).collect()
}

fn method_with_lines(table: Vec<LineNumberEntry>) -> Method {
    let info = MethodInfo {
        access_flags: MethodFlags(ACC_STATIC),
        name_index: 1,
        descriptor_index: 2,
        attributes: vec![
            MethodAttribute::Signature(3),
            MethodAttribute::Code(code_attr(vec![CodeAttributeInfo::LineNumberTable(table)])),
        ],
    };
    Method::new(info, ClassId(4), MethodDescriptorId(5), 6, 7)
}

#[test]
fn duplicated_stack_map_table_is_refused() {
    let attr = code_attr(vec![
        CodeAttributeInfo::StackMapTable(vec![StackMapFrame { frame_type: 0 }]),
        CodeAttributeInfo::StackMapTable(vec![]),
    ]);
    assert!(matches!(CodeBody::try_from(attr), Err(LinkageError::DuplicatedStackMapTable)));
}

#[test]
fn line_number_tables_are_joined() {
    let attr = code_attr(vec![
        CodeAttributeInfo::LineNumberTable(lines(&[(0, 10)])),
        CodeAttributeInfo::LocalVariableTable(vec![]),
        CodeAttributeInfo::LineNumberTable(lines(&[(4, 11)])),
    ]);
    let body = CodeBody::try_from(attr).unwrap();
    assert_eq!(body.code, vec![0x03, 0xac]);
    assert_eq!(body.exception_table.len(), 1);
}

#[test]
fn line_numbers_follow_pc() {
    let m = method_with_lines(lines(&[(2, 10), (5, 11), (9, 12)]));
    assert_eq!(m.get_line_number_by_cp(-2), Some(-2));
    assert_eq!(m.get_line_number_by_cp(0), Some(10));
    assert_eq!(m.get_line_number_by_cp(5), Some(11));
    assert_eq!(m.get_line_number_by_cp(8), Some(11));
    assert_eq!(m.get_line_number_by_cp(100), Some(12));
    assert_eq!(m.get_line_number_by_cp(-7), Some(12));
    let empty = method_with_lines(vec![]);
    assert_eq!(empty.get_line_number_by_cp(3), None);
}

#[test]
fn method_keeps_its_description() {
    let m = method_with_lines(vec![]);
    assert!(m.is_static());
    assert!(!m.is_native());
    assert_eq!(m.class_id(), ClassId(4));
    assert_eq!(m.descriptor_id(), MethodDescriptorId(5));
    assert_eq!(m.name, 6);
    assert_eq!(m.get_frame_attributes().unwrap(), (256, 256));
    assert_eq!(m.get_code().unwrap(), &[0x03, 0xac]);
    assert_eq!(m.get_exception_table().unwrap()[0].handler_pc, 1);
}

#[test]
fn native_method_has_no_code() {
    let info = MethodInfo { access_flags: MethodFlags(ACC_NATIVE), name_index: 1, descriptor_index: 2, attributes: vec![] };
    let m = Method::new(info, ClassId(1), MethodDescriptorId(1), 1, 2);
    assert!(m.is_native());
    match m.get_code().unwrap_err() {
        JvmError::JavaException(ex) => {
            assert_eq!(ex.kind.class_name(), "java/lang/InternalError");
        }
        other => panic!("unexpected {:?}", other),
    }
    assert_eq!(m.get_line_number_by_cp(0), None);
}
