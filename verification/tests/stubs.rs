use clr_backend::access_modifier::{AccessModifer, Visibility};
use clr_backend::assembly::{AssemblyBuilder, AssemblyExporter};
use clr_backend::cil_op::{CILOp, CallSite, FieldDescriptor, FieldName};
use clr_backend::codegen_error::CodegenError;
use clr_backend::libc::{insert_libc, math};
use clr_backend::types::{FnSig, Type};

#[test]
fn insert_libc_registers_catalogue() {
    let mut builder = AssemblyBuilder::new();
    insert_libc(&mut builder);
    assert_eq!(builder.type_defs.len(), 1);
    assert_eq!(
        builder.type_defs[0],
        Type::Class { name: "core.panic.PanicInfo".to_string(), fields: Vec::new() }
    );
    assert_eq!(builder.method_defs.len(), 2);
    assert_eq!(builder.method_defs[0].name, "sqrtf32");
    assert_eq!(builder.method_defs[1].name, "puts");
}

#[test]
fn sqrtf32_stub_shape() {
    let mut builder = AssemblyBuilder::new();
    math(&mut builder);
    let m = &builder.method_defs[0];
    assert_eq!(m.signature.inputs, vec![Type::F32]);
    assert_eq!(m.signature.output, Type::F32);
    assert!(m.locals.is_empty());
    assert_eq!(m.ops, vec![CILOp::LDArg(0), CILOp::Ret]);
}

#[test]
fn puts_stub_shape() {
    let mut builder = AssemblyBuilder::new();
    insert_libc(&mut builder);
    let m = &builder.method_defs[1];
    assert_eq!(m.signature.inputs, vec![Type::Ptr(Box::new(Type::U8))]);
    assert_eq!(m.signature.output, Type::Void);
    assert_eq!(m.locals, vec![Type::U8]);
    assert_eq!(m.ops.len(), 17);
    assert_eq!(m.ops[0], CILOp::BBLabel { bb_id: 0 });
    assert_eq!(m.ops[2], CILOp::LDInd { tpe: Type::U8, volatile: true });
    assert_eq!(m.ops[6], CILOp::BEq { target: 1 });
    match &m.ops[9] {
        CILOp::Call(cs) => {
            assert!(cs.is_static);
            assert_eq!(cs.name, "Write");
            assert_eq!(
                cs.owner,
                Some(Type::ExternType {
                    assembly: "System.Console".to_string(),
                    name: "System.Console".to_string(),
                })
            );
        }
        other => panic!("expected the console write call, got {other:?}"),
    }
    assert_eq!(m.ops[14], CILOp::GoTo { target: 0 });
    assert_eq!(m.ops[16], CILOp::Ret);
}

#[test]
fn exporter_keeps_registration_order() {
    let mut builder = AssemblyBuilder::new();
    builder.add_type(Type::I32);
    builder.add_type(Type::Bool);
    assert_eq!(builder.type_defs, vec![Type::I32, Type::Bool]);
}

#[test]
fn from_visibility_is_total_and_two_valued() {
    assert_eq!(AccessModifer::from_visibility(Visibility::<u32>::Public), AccessModifer::Public);
    assert_eq!(
        AccessModifer::from_visibility(Visibility::Restricted(7u32)),
        AccessModifer::Private
    );
    assert_eq!(
        AccessModifer::from_visibility(Visibility::Restricted("module")),
        AccessModifer::Private
    );
}

#[test]
fn call_site_resolution_is_deterministic() {
    let a = CallSite::resolve(
        Some(Type::Class { name: "Arr".to_string(), fields: vec![Type::I32] }),
        "GetLength".to_string(),
        FnSig::new(Vec::new(), Type::USize),
        false,
    );
    let b = CallSite::resolve(
        Some(Type::Class { name: "Arr".to_string(), fields: vec![Type::I32] }),
        "GetLength".to_string(),
        FnSig::new(Vec::new(), Type::USize),
        false,
    );
    assert_eq!(a, b);
}

#[test]
fn field_descriptor_holds_its_parts() {
    let fd = FieldDescriptor::new(
        Type::Class { name: "E".to_string(), fields: vec![Type::U8] },
        Type::U8,
        FieldName::Tag,
    );
    assert_eq!(fd.tpe, Type::U8);
    assert_eq!(fd.name, FieldName::Tag);
}

#[test]
fn codegen_error_names() {
    assert_eq!(CodegenError::UnresolvedGeneric.as_str(), "UnresolvedGeneric");
    assert_eq!(CodegenError::UnimplementedLowering.as_str(), "UnimplementedLowering");
}

#[test]
fn codegen_error_report_returns_same_condition() {
    assert_eq!(CodegenError::UnresolvedGeneric.report(), CodegenError::UnresolvedGeneric);
    assert_eq!(
        CodegenError::UnimplementedLowering.report(),
        CodegenError::UnimplementedLowering
    );
}
