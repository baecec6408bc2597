use clr_backend::casts::{int_to_float, int_to_int};
use clr_backend::cil_op::{CILOp, FieldName};
use clr_backend::codegen_error::CodegenError;
use clr_backend::ir::{AggregateKind, BinOp, Body, CastKind, Constant, NullOp, Operand, Place,
    PlaceElem, Rvalue, UnOp};
use clr_backend::rvalue::handle_rvalue;
use clr_backend::place::{place_address, place_get};
use clr_backend::types::{Instantiation, IntTy, SourceType, Type, UintTy, translate};

/// A reference stack-machine simulator for the subset of the instruction
/// vocabulary the tests exercise. Addresses are plain indices into `mem`;
/// local/argument address loads push synthetic addresses that the tests
/// only count, never dereference.
struct Machine {
    stack: Vec<i64>,
    args: Vec<i64>,
    locals: Vec<i64>,
    mem: Vec<u8>,
    out: Vec<u8>,
}

fn find_label(ops: &[CILOp], id: u32) -> Option<usize> {
    for (i, op) in ops.iter().enumerate() {
        if let CILOp::BBLabel { bb_id } = op {
            if *bb_id == id {
                return Some(i);
            }
        }
    }
    None
}

fn run(ops: &[CILOp], args: Vec<i64>, locals: Vec<i64>, mem: Vec<u8>) -> Option<Machine> {
    let mut m = Machine { stack: Vec::new(), args, locals, mem, out: Vec::new() };
    let mut pc: usize = 0;
    let mut fuel: usize = 10_000;
    while pc < ops.len() {
        if fuel == 0 {
            return None;
        }
        fuel -= 1;
        match &ops[pc] {
            CILOp::BBLabel { .. } => {}
            CILOp::GoTo { target } => {
                pc = find_label(ops, *target)?;
                continue;
            }
            CILOp::BEq { target } => {
                let b = m.stack.pop()?;
                let a = m.stack.pop()?;
                if a == b {
                    pc = find_label(ops, *target)?;
                    continue;
                }
            }
            CILOp::LDArg(i) => m.stack.push(m.args[*i as usize]),
            CILOp::STArg(i) => {
                let v = m.stack.pop()?;
                m.args[*i as usize] = v;
            }
            CILOp::LDArgA(i) => m.stack.push(20_000 + *i as i64),
            CILOp::LDLoc(i) => m.stack.push(m.locals[*i as usize]),
            CILOp::STLoc(i) => {
                let v = m.stack.pop()?;
                m.locals[*i as usize] = v;
            }
            CILOp::LDLocA(i) => m.stack.push(10_000 + *i as i64),
            CILOp::LDConstI32(v) => m.stack.push(*v as i64),
            CILOp::LDConstI64(v) => m.stack.push(*v),
            CILOp::LDInd { .. } => {
                let addr = m.stack.pop()?;
                m.stack.push(*m.mem.get(addr as usize)? as i64);
            }
            CILOp::ConvI16 => {
                let v = m.stack.pop()?;
                m.stack.push((v as i16) as i64);
            }
            CILOp::ConvI32 => {
                let v = m.stack.pop()?;
                m.stack.push((v as i32) as i64);
            }
            CILOp::ConvU32 => {
                let v = m.stack.pop()?;
                m.stack.push((v as u32) as i64);
            }
            CILOp::Add => {
                let b = m.stack.pop()?;
                let a = m.stack.pop()?;
                m.stack.push(a.wrapping_add(b));
            }
            CILOp::Call(cs) => {
                if cs.name == "Write" {
                    let v = m.stack.pop()?;
                    m.out.push(v as u8);
                } else {
                    return None;
                }
            }
            CILOp::Ret => return Some(m),
            _ => return None,
        }
        pc += 1;
    }
    Some(m)
}

fn no_args() -> Instantiation {
    Instantiation { args: Vec::new() }
}

fn local_place(i: u32) -> Place {
    Place { local: i, projection: Vec::new() }
}

fn const_i32(v: i64) -> Operand {
    Operand::Constant(Constant { ty: SourceType::Int(IntTy::I32), value: v })
}

#[test]
fn translate_scalar_types() {
    let inst = no_args();
    assert_eq!(translate(&SourceType::Int(IntTy::I32), &inst), Ok(Type::I32));
    assert_eq!(translate(&SourceType::Uint(UintTy::Usize), &inst), Ok(Type::USize));
    assert_eq!(translate(&SourceType::Bool, &inst), Ok(Type::Bool));
    assert_eq!(translate(&SourceType::Unit, &inst), Ok(Type::Void));
}

#[test]
fn translate_pointer_and_class() {
    let inst = no_args();
    let ptr = SourceType::RawPtr(Box::new(SourceType::Uint(UintTy::U8)));
    assert_eq!(translate(&ptr, &inst), Ok(Type::Ptr(Box::new(Type::U8))));
    let pair = SourceType::Adt {
        name: "Pair".to_string(),
        fields: vec![SourceType::Int(IntTy::I32), SourceType::Bool],
    };
    assert_eq!(
        translate(&pair, &inst),
        Ok(Type::Class { name: "Pair".to_string(), fields: vec![Type::I32, Type::Bool] })
    );
}

#[test]
fn translate_resolves_bound_parameter() {
    let inst = Instantiation { args: vec![SourceType::Uint(UintTy::U8)] };
    assert_eq!(translate(&SourceType::Param(0), &inst), Ok(Type::U8));
    let ptr_to_param = SourceType::RawPtr(Box::new(SourceType::Param(0)));
    assert_eq!(translate(&ptr_to_param, &inst), Ok(Type::Ptr(Box::new(Type::U8))));
}

#[test]
fn translate_unbound_parameter_fails() {
    let inst = no_args();
    assert_eq!(translate(&SourceType::Param(0), &inst), Err(CodegenError::UnresolvedGeneric));
}

#[test]
fn int_cast_to_itself_is_empty() {
    assert_eq!(int_to_int(&Type::I32, &Type::I32), Ok(Vec::new()));
    assert_eq!(int_to_int(&Type::U64, &Type::U64), Ok(Vec::new()));
    assert_eq!(int_to_int(&Type::ISize, &Type::ISize), Ok(Vec::new()));
}

#[test]
fn int_cast_widening_and_narrowing() {
    assert_eq!(int_to_int(&Type::I16, &Type::I32), Ok(vec![CILOp::ConvI32]));
    assert_eq!(int_to_int(&Type::U16, &Type::U32), Ok(vec![CILOp::ConvU32]));
    assert_eq!(int_to_int(&Type::U8, &Type::I64), Ok(vec![CILOp::ConvU64]));
    assert_eq!(int_to_int(&Type::I64, &Type::I8), Ok(vec![CILOp::ConvI8]));
    assert_eq!(int_to_int(&Type::I64, &Type::U8), Ok(vec![CILOp::ConvU8]));
}

#[test]
fn int_cast_uncovered_pair_is_unimplemented() {
    assert_eq!(
        int_to_int(&Type::F32, &Type::I32),
        Err(CodegenError::UnimplementedLowering)
    );
}

#[test]
fn ptr_native_word_reinterpretation_is_empty() {
    let ptr = Type::Ptr(Box::new(Type::U8));
    assert_eq!(int_to_int(&ptr, &Type::USize), Ok(Vec::new()));
    assert_eq!(int_to_int(&ptr, &Type::ISize), Ok(Vec::new()));
    assert_eq!(int_to_int(&Type::USize, &ptr), Ok(Vec::new()));
    assert_eq!(int_to_int(&Type::ISize, &ptr), Ok(Vec::new()));
}

#[test]
fn transmute_ptr_to_usize_emits_nothing() {
    let body = Body {
        locals: vec![SourceType::RawPtr(Box::new(SourceType::Uint(UintTy::U8)))],
        arg_count: 0,
    };
    let rv = Rvalue::Cast(
        CastKind::Transmute,
        Operand::Move(local_place(0)),
        SourceType::Uint(UintTy::Usize),
    );
    let r = handle_rvalue(&rv, &local_place(0), &body, &no_args());
    assert_eq!(r, Ok(Vec::new()));
}

#[test]
fn transmute_usize_to_ptr_emits_nothing() {
    let body = Body { locals: vec![SourceType::Uint(UintTy::Usize)], arg_count: 0 };
    let rv = Rvalue::Cast(
        CastKind::Transmute,
        Operand::Move(local_place(0)),
        SourceType::RawPtr(Box::new(SourceType::Uint(UintTy::U8))),
    );
    assert_eq!(handle_rvalue(&rv, &local_place(0), &body, &no_args()), Ok(Vec::new()));
}

#[test]
fn transmute_other_pair_is_unimplemented() {
    let body = Body { locals: vec![SourceType::Int(IntTy::I32)], arg_count: 0 };
    let rv = Rvalue::Cast(
        CastKind::Transmute,
        Operand::Move(local_place(0)),
        SourceType::Int(IntTy::I64),
    );
    assert_eq!(
        handle_rvalue(&rv, &local_place(0), &body, &no_args()),
        Err(CodegenError::UnimplementedLowering)
    );
}

#[test]
fn sizeof_unresolved_generic_fails() {
    let body = Body { locals: Vec::new(), arg_count: 0 };
    let rv = Rvalue::NullaryOp(NullOp::SizeOf, SourceType::Param(0));
    assert_eq!(
        handle_rvalue(&rv, &local_place(0), &body, &no_args()),
        Err(CodegenError::UnresolvedGeneric)
    );
}

#[test]
fn sizeof_resolved_type_is_one_query() {
    let body = Body { locals: Vec::new(), arg_count: 0 };
    let rv = Rvalue::NullaryOp(NullOp::SizeOf, SourceType::Int(IntTy::I32));
    assert_eq!(
        handle_rvalue(&rv, &local_place(0), &body, &no_args()),
        Ok(vec![CILOp::SizeOf(Type::I32)])
    );
}

#[test]
fn alignof_is_unimplemented() {
    let body = Body { locals: Vec::new(), arg_count: 0 };
    let rv = Rvalue::NullaryOp(NullOp::AlignOf, SourceType::Int(IntTy::I32));
    assert_eq!(
        handle_rvalue(&rv, &local_place(0), &body, &no_args()),
        Err(CodegenError::UnimplementedLowering)
    );
}

#[test]
fn repeat_is_unimplemented() {
    let body = Body { locals: Vec::new(), arg_count: 0 };
    let rv = Rvalue::Repeat(const_i32(0), 4);
    assert_eq!(
        handle_rvalue(&rv, &local_place(0), &body, &no_args()),
        Err(CodegenError::UnimplementedLowering)
    );
}

#[test]
fn use_of_constant_loads_it() {
    let body = Body { locals: Vec::new(), arg_count: 0 };
    let rv = Rvalue::Use(const_i32(7));
    assert_eq!(
        handle_rvalue(&rv, &local_place(0), &body, &no_args()),
        Ok(vec![CILOp::LDConstI32(7)])
    );
}

#[test]
fn pointer_coercion_is_plain_operand_fetch() {
    let body = Body {
        locals: vec![SourceType::RawPtr(Box::new(SourceType::Uint(UintTy::U8)))],
        arg_count: 0,
    };
    let rv = Rvalue::Cast(
        CastKind::PtrToPtr,
        Operand::Move(local_place(0)),
        SourceType::RawPtr(Box::new(SourceType::Int(IntTy::I32))),
    );
    assert_eq!(handle_rvalue(&rv, &local_place(0), &body, &no_args()), Ok(vec![CILOp::LDLoc(0)]));
}

#[test]
fn address_producer_pushes_one_pointer() {
    let body = Body { locals: vec![SourceType::Int(IntTy::I32)], arg_count: 0 };
    let ops = place_address(&local_place(0), &body, &no_args());
    assert_eq!(ops, vec![CILOp::LDLocA(0)]);
    let mut with_ret = ops;
    with_ret.push(CILOp::Ret);
    let m = run(&with_ret, vec![], vec![5], vec![]).unwrap();
    assert_eq!(m.stack.len(), 1);
}

#[test]
fn value_producer_pushes_one_value() {
    let body = Body { locals: vec![SourceType::Int(IntTy::I32)], arg_count: 0 };
    let ops = place_get(&local_place(0), &body, &no_args());
    assert_eq!(ops, vec![CILOp::LDLoc(0)]);
    let mut with_ret = ops;
    with_ret.push(CILOp::Ret);
    let m = run(&with_ret, vec![], vec![42], vec![]).unwrap();
    assert_eq!(m.stack, vec![42]);
}

#[test]
fn deref_value_is_indirect_load() {
    let body = Body {
        locals: vec![SourceType::RawPtr(Box::new(SourceType::Uint(UintTy::U8)))],
        arg_count: 0,
    };
    let place = Place { local: 0, projection: vec![PlaceElem::Deref] };
    let ops = place_get(&place, &body, &no_args());
    assert_eq!(ops, vec![CILOp::LDLoc(0), CILOp::LDInd { tpe: Type::U8, volatile: false }]);
}

#[test]
fn field_value_loads_through_owner_address() {
    let body = Body {
        locals: vec![SourceType::Adt {
            name: "P".to_string(),
            fields: vec![SourceType::Int(IntTy::I32), SourceType::Bool],
        }],
        arg_count: 0,
    };
    let place = Place { local: 0, projection: vec![PlaceElem::Field(1)] };
    let ops = place_get(&place, &body, &no_args());
    assert_eq!(ops.len(), 2);
    assert_eq!(ops[0], CILOp::LDLocA(0));
    match &ops[1] {
        CILOp::LDField(fd) => {
            assert_eq!(fd.name, FieldName::Ordinal(1));
            assert_eq!(fd.tpe, Type::Bool);
            assert_eq!(
                fd.owner,
                Type::Class { name: "P".to_string(), fields: vec![Type::I32, Type::Bool] }
            );
        }
        other => panic!("expected a field load, got {other:?}"),
    }
}

#[test]
fn binop_add_constants() {
    let body = Body { locals: Vec::new(), arg_count: 0 };
    let rv = Rvalue::BinaryOp(BinOp::Add, const_i32(2), const_i32(3));
    let ops = handle_rvalue(&rv, &local_place(0), &body, &no_args()).unwrap();
    assert_eq!(ops, vec![CILOp::LDConstI32(2), CILOp::LDConstI32(3), CILOp::Add]);
    let mut with_ret = ops;
    with_ret.push(CILOp::Ret);
    let m = run(&with_ret, vec![], vec![], vec![]).unwrap();
    assert_eq!(m.stack, vec![5]);
}

#[test]
fn binop_unsigned_division_selects_unsigned_variant() {
    let body = Body { locals: Vec::new(), arg_count: 0 };
    let u = Operand::Constant(Constant { ty: SourceType::Uint(UintTy::U32), value: 8 });
    let v = Operand::Constant(Constant { ty: SourceType::Uint(UintTy::U32), value: 2 });
    let rv = Rvalue::BinaryOp(BinOp::Div, u, v);
    let ops = handle_rvalue(&rv, &local_place(0), &body, &no_args()).unwrap();
    assert_eq!(ops[2], CILOp::DivUn);
    let s = Rvalue::BinaryOp(BinOp::Div, const_i32(8), const_i32(2));
    let ops = handle_rvalue(&s, &local_place(0), &body, &no_args()).unwrap();
    assert_eq!(ops[2], CILOp::Div);
}

#[test]
fn unop_neg_appends_one_instruction() {
    let body = Body { locals: Vec::new(), arg_count: 0 };
    let rv = Rvalue::UnaryOp(UnOp::Neg, const_i32(9));
    assert_eq!(
        handle_rvalue(&rv, &local_place(0), &body, &no_args()),
        Ok(vec![CILOp::LDConstI32(9), CILOp::Neg])
    );
}

#[test]
fn discriminant_reads_single_byte_tag_field() {
    let body = Body {
        locals: vec![SourceType::Adt {
            name: "E".to_string(),
            fields: vec![SourceType::Uint(UintTy::U8)],
        }],
        arg_count: 0,
    };
    let rv = Rvalue::Discriminant(local_place(0));
    let ops = handle_rvalue(&rv, &local_place(0), &body, &no_args()).unwrap();
    assert_eq!(ops.len(), 2);
    assert_eq!(ops[0], CILOp::LDLocA(0));
    match &ops[1] {
        CILOp::LDField(fd) => {
            assert_eq!(fd.name, FieldName::Tag);
            assert_eq!(fd.tpe, Type::U8);
        }
        other => panic!("expected a tag field load, got {other:?}"),
    }
}

#[test]
fn length_query_calls_length_accessor() {
    let body = Body {
        locals: vec![SourceType::Adt {
            name: "Arr".to_string(),
            fields: vec![SourceType::Uint(UintTy::Usize)],
        }],
        arg_count: 0,
    };
    let rv = Rvalue::Len(local_place(0));
    let ops = handle_rvalue(&rv, &local_place(0), &body, &no_args()).unwrap();
    assert_eq!(ops.len(), 2);
    assert_eq!(ops[0], CILOp::LDLocA(0));
    match &ops[1] {
        CILOp::Call(cs) => {
            assert_eq!(cs.name, "GetLength");
            assert!(!cs.is_static);
            assert!(matches!(cs.owner, Some(Type::Class { .. })));
            assert_eq!(cs.signature.output, Type::USize);
            assert!(cs.signature.inputs.is_empty());
        }
        other => panic!("expected a call, got {other:?}"),
    }
}

#[test]
fn aggregate_struct_writes_fields_in_declaration_order() {
    let body = Body {
        locals: vec![SourceType::Adt {
            name: "P".to_string(),
            fields: vec![SourceType::Int(IntTy::I32), SourceType::Int(IntTy::I32)],
        }],
        arg_count: 0,
    };
    let rv = Rvalue::Aggregate(AggregateKind::Struct, vec![const_i32(1), const_i32(2)]);
    let ops = handle_rvalue(&rv, &local_place(0), &body, &no_args()).unwrap();
    assert_eq!(ops.len(), 6);
    assert_eq!(ops[0], CILOp::LDLocA(0));
    assert_eq!(ops[1], CILOp::LDConstI32(1));
    assert!(matches!(&ops[2], CILOp::STField(fd) if fd.name == FieldName::Ordinal(0)));
    assert_eq!(ops[3], CILOp::LDLocA(0));
    assert_eq!(ops[4], CILOp::LDConstI32(2));
    assert!(matches!(&ops[5], CILOp::STField(fd) if fd.name == FieldName::Ordinal(1)));
}

#[test]
fn aggregate_variant_initializes_tag_first() {
    let body = Body {
        locals: vec![SourceType::Adt {
            name: "E".to_string(),
            fields: vec![SourceType::Int(IntTy::I32)],
        }],
        arg_count: 0,
    };
    let rv = Rvalue::Aggregate(AggregateKind::Variant(3), vec![const_i32(7)]);
    let ops = handle_rvalue(&rv, &local_place(0), &body, &no_args()).unwrap();
    assert_eq!(ops.len(), 6);
    assert_eq!(ops[0], CILOp::LDLocA(0));
    assert_eq!(ops[1], CILOp::LDConstI32(3));
    match &ops[2] {
        CILOp::STField(fd) => {
            assert_eq!(fd.name, FieldName::Tag);
            assert_eq!(fd.tpe, Type::U8);
        }
        other => panic!("expected a tag store, got {other:?}"),
    }
    assert!(matches!(&ops[5], CILOp::STField(fd) if fd.name == FieldName::Ordinal(0)));
}

#[test]
fn unsigned_int_to_float_uses_unsigned_prelude() {
    assert_eq!(int_to_float(&Type::U32, &Type::F32), Ok(vec![CILOp::ConvRUn, CILOp::ConvF32]));
    assert_eq!(int_to_float(&Type::I32, &Type::F64), Ok(vec![CILOp::ConvF64]));
}

#[test]
fn float_to_float_cast_is_unimplemented() {
    let body = Body { locals: Vec::new(), arg_count: 0 };
    let rv = Rvalue::Cast(
        CastKind::FloatToFloat,
        const_i32(0),
        SourceType::Int(IntTy::I32),
    );
    assert_eq!(
        handle_rvalue(&rv, &local_place(0), &body, &no_args()),
        Err(CodegenError::UnimplementedLowering)
    );
}

#[test]
fn widening_cast_scenario() {
    let body = Body { locals: vec![SourceType::Int(IntTy::I16)], arg_count: 0 };
    let rv = Rvalue::Cast(
        CastKind::IntToInt,
        Operand::Move(local_place(0)),
        SourceType::Int(IntTy::I32),
    );
    let ops = handle_rvalue(&rv, &local_place(0), &body, &no_args()).unwrap();
    assert_eq!(ops, vec![CILOp::LDLoc(0), CILOp::ConvI32]);
    let mut with_ret = ops;
    with_ret.push(CILOp::Ret);
    let m = run(&with_ret, vec![], vec![-5], vec![]).unwrap();
    assert_eq!(m.stack, vec![-5]);
}

#[test]
fn text_output_stub_control_flow() {
    let mut builder = clr_backend::assembly::AssemblyBuilder::new();
    clr_backend::libc::io(&mut builder);
    let puts = &builder.method_defs[0];
    assert_eq!(puts.name, "puts");
    let m = run(&puts.ops, vec![0], vec![0], b"hi\0".to_vec()).unwrap();
    assert_eq!(m.out, b"hi".to_vec());
    assert!(m.stack.is_empty());
}

#[test]
fn field_address_producer_uses_field_address_load() {
    let body = Body {
        locals: vec![SourceType::Adt {
            name: "P".to_string(),
            fields: vec![SourceType::Int(IntTy::I32), SourceType::Bool],
        }],
        arg_count: 0,
    };
    let place = Place { local: 0, projection: vec![PlaceElem::Field(0)] };
    let ops = place_address(&place, &body, &no_args());
    assert_eq!(ops.len(), 2);
    assert_eq!(ops[0], CILOp::LDLocA(0));
    assert!(matches!(&ops[1], CILOp::LDFieldA(fd) if fd.name == FieldName::Ordinal(0)));
}

#[test]
fn argument_slots_load_through_argument_instructions() {
    let body = Body {
        locals: vec![SourceType::Int(IntTy::I32), SourceType::Int(IntTy::I32)],
        arg_count: 1,
    };
    assert_eq!(place_get(&local_place(0), &body, &no_args()), vec![CILOp::LDArg(0)]);
    assert_eq!(place_get(&local_place(1), &body, &no_args()), vec![CILOp::LDLoc(0)]);
}

#[test]
fn empty_aggregate_emits_nothing() {
    let body = Body {
        locals: vec![SourceType::Adt { name: "Unit".to_string(), fields: Vec::new() }],
        arg_count: 0,
    };
    let rv = Rvalue::Aggregate(AggregateKind::Struct, Vec::new());
    assert_eq!(handle_rvalue(&rv, &local_place(0), &body, &no_args()), Ok(Vec::new()));
}
