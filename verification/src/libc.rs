//! The intrinsic stub library: a small fixed catalogue of hand-authored
//! target methods, each defined directly as a literal instruction sequence
//! plus a signature, registered into the output assembly independently of
//! IR lowering.

use vstd::prelude::*;
use crate::assembly::AssemblyExporter;
use crate::cil_op::{CILOp, CallSite};
use crate::clr_method::CLRMethod;
use crate::types::{FnSig, Type};

verus! {

/// The square-root stub: takes and returns a 32-bit float. The body is a
/// pass-through placeholder (argument load, return) until a real
/// square-root primitive is wired to the target's math library.
pub open spec fn is_sqrtf32_stub(m: CLRMethod) -> bool {
    &&& m.name@ == "sqrtf32"@
    &&& m.signature.inputs@ == seq![Type::F32]
    &&& m.signature.output == Type::F32
    &&& m.locals@ == Seq::<Type>::empty()
    &&& m.ops@ == seq![CILOp::LDArg(0), CILOp::Ret]
}

/// The call the text-output stub makes for each byte: a static call to the
/// console's one-character write, taking the target's character type and
/// returning nothing.
pub open spec fn is_console_write_call(op: CILOp) -> bool {
    op matches CILOp::Call(cs) && cs.is_static && cs.name@ == "Write"@ && (cs.owner matches Some(
        o,
    ) && o matches Type::ExternType { assembly, name } && assembly@ == "System.Console"@ && name@
        == "System.Console"@) && cs.signature.output == Type::Void && cs.signature.inputs@.len()
        == 1 && (cs.signature.inputs@[0] matches Type::ExternType { assembly, name } && assembly@
        == ""@ && name@ == "char"@)
}

/// The text-output stub: takes a pointer to a zero-terminated byte string,
/// returns nothing, and uses one byte-typed local. Its body is hand-built
/// control flow: a labelled loop reads successive bytes through a volatile
/// indirect load, tests each against the zero terminator with a conditional
/// branch to the exit label, writes the non-zero byte to the console,
/// advances the pointer, and loops back with an unconditional branch.
pub open spec fn is_puts_stub(m: CLRMethod) -> bool {
    &&& m.name@ == "puts"@
    &&& m.signature.inputs@.len() == 1
    &&& (m.signature.inputs@[0] matches Type::Ptr(p) && *p == Type::U8)
    &&& m.signature.output == Type::Void
    &&& m.locals@ == seq![Type::U8]
    &&& m.ops@.len() == 17
    &&& m.ops@[0] == (CILOp::BBLabel { bb_id: 0 })
    &&& m.ops@[1] == CILOp::LDArg(0)
    &&& m.ops@[2] == (CILOp::LDInd { tpe: Type::U8, volatile: true })
    &&& m.ops@[3] == CILOp::STLoc(0)
    &&& m.ops@[4] == CILOp::LDLoc(0)
    &&& m.ops@[5] == CILOp::LDConstI32(0)
    &&& m.ops@[6] == (CILOp::BEq { target: 1 })
    &&& m.ops@[7] == CILOp::LDLoc(0)
    &&& m.ops@[8] == CILOp::ConvI16
    &&& is_console_write_call(m.ops@[9])
    &&& m.ops@[10] == CILOp::LDArg(0)
    &&& m.ops@[11] == CILOp::LDConstI32(1)
    &&& m.ops@[12] == CILOp::Add
    &&& m.ops@[13] == CILOp::STArg(0)
    &&& m.ops@[14] == (CILOp::GoTo { target: 0 })
    &&& m.ops@[15] == (CILOp::BBLabel { bb_id: 1 })
    &&& m.ops@[16] == CILOp::Ret
}

/// The runtime-scaffolding type every emitted assembly carries.
pub open spec fn is_panic_info_type(t: Type) -> bool {
    t matches Type::Class { name, fields } && name@ == "core.panic.PanicInfo"@ && fields@
        == Seq::<Type>::empty()
}

/// An owned string with the characters of a literal.
fn stub_name(s: &str) -> (r: String)
    ensures
        r@ == s@,
{
    broadcast use vstd::string::to_string_from_display_ensures_for_str;

    s.to_string()
}

/// Registers the square-root stub.
pub fn sqrtf32<A: AssemblyExporter>(exporter: &mut A)
    ensures
        final(exporter).methods().len() == old(exporter).methods().len() + 1,
        final(exporter).methods().drop_last() == old(exporter).methods(),
        is_sqrtf32_stub(final(exporter).methods().last()),
        final(exporter).types() == old(exporter).types(),
{
    let mut inputs: Vec<Type> = Vec::new();
    inputs.push(Type::F32);
    proof {
        assert(inputs@ =~= seq![Type::F32]);
    }
    let mut ops: Vec<CILOp> = Vec::new();
    ops.push(CILOp::LDArg(0));
    ops.push(CILOp::Ret);
    proof {
        assert(ops@ =~= seq![CILOp::LDArg(0), CILOp::Ret]);
    }
    let method = CLRMethod::from_raw(
        ops,
        Vec::new(),
        stub_name("sqrtf32"),
        FnSig::new(inputs, Type::F32),
    );
    exporter.add_method(method);
    proof {
        assert(exporter.methods().drop_last() =~= old(exporter).methods());
    }
}

/// Registers the text-output stub.
pub fn puts<A: AssemblyExporter>(exporter: &mut A)
    ensures
        final(exporter).methods().len() == old(exporter).methods().len() + 1,
        final(exporter).methods().drop_last() == old(exporter).methods(),
        is_puts_stub(final(exporter).methods().last()),
        final(exporter).types() == old(exporter).types(),
{
    let mut char_ty_in: Vec<Type> = Vec::new();
    char_ty_in.push(Type::ExternType { assembly: stub_name(""), name: stub_name("char") });
    let write = CallSite::resolve(
        Some(
            Type::ExternType {
                assembly: stub_name("System.Console"),
                name: stub_name("System.Console"),
            },
        ),
        stub_name("Write"),
        FnSig::new(char_ty_in, Type::Void),
        true,
    );
    let mut ops: Vec<CILOp> = Vec::new();
    ops.push(CILOp::BBLabel { bb_id: 0 });
    ops.push(CILOp::LDArg(0));
    ops.push(CILOp::LDInd { tpe: Type::U8, volatile: true });
    ops.push(CILOp::STLoc(0));
    ops.push(CILOp::LDLoc(0));
    ops.push(CILOp::LDConstI32(0));
    ops.push(CILOp::BEq { target: 1 });
    ops.push(CILOp::LDLoc(0));
    ops.push(CILOp::ConvI16);
    ops.push(CILOp::Call(write));
    ops.push(CILOp::LDArg(0));
    ops.push(CILOp::LDConstI32(1));
    ops.push(CILOp::Add);
    ops.push(CILOp::STArg(0));
    ops.push(CILOp::GoTo { target: 0 });
    ops.push(CILOp::BBLabel { bb_id: 1 });
    ops.push(CILOp::Ret);
    let mut inputs: Vec<Type> = Vec::new();
    inputs.push(Type::Ptr(Box::new(Type::U8)));
    let mut locals: Vec<Type> = Vec::new();
    locals.push(Type::U8);
    proof {
        assert(locals@ =~= seq![Type::U8]);
    }
    let method = CLRMethod::from_raw(
        ops,
        locals,
        stub_name("puts"),
        FnSig::new(inputs, Type::Void),
    );
    exporter.add_method(method);
    proof {
        assert(exporter.methods().drop_last() =~= old(exporter).methods());
    }
}

/// Registers the math stubs.
pub fn math<A: AssemblyExporter>(exporter: &mut A)
    ensures
        final(exporter).methods().len() == old(exporter).methods().len() + 1,
        final(exporter).methods().drop_last() == old(exporter).methods(),
        is_sqrtf32_stub(final(exporter).methods().last()),
        final(exporter).types() == old(exporter).types(),
{
    sqrtf32(exporter);
}

/// Registers the text-I/O stubs.
pub fn io<A: AssemblyExporter>(exporter: &mut A)
    ensures
        final(exporter).methods().len() == old(exporter).methods().len() + 1,
        final(exporter).methods().drop_last() == old(exporter).methods(),
        is_puts_stub(final(exporter).methods().last()),
        final(exporter).types() == old(exporter).types(),
{
    puts(exporter);
}

/// Registers the whole intrinsic catalogue into the output assembly: the
/// runtime-scaffolding type, then the math stubs, then the text-I/O stubs.
pub fn insert_libc<A: AssemblyExporter>(exporter: &mut A)
    ensures
        final(exporter).types().len() == old(exporter).types().len() + 1,
        final(exporter).types().drop_last() == old(exporter).types(),
        is_panic_info_type(final(exporter).types().last()),
        final(exporter).methods().len() == old(exporter).methods().len() + 2,
        final(exporter).methods().drop_last().drop_last() == old(exporter).methods(),
        is_sqrtf32_stub(final(exporter).methods()[final(exporter).methods().len() - 2]),
        is_puts_stub(final(exporter).methods().last()),
{
    exporter.add_type(Type::Class { name: stub_name("core.panic.PanicInfo"), fields: Vec::new() });
    proof {
        assert(exporter.types().drop_last() =~= old(exporter).types());
    }
    math(exporter);
    io(exporter);
    proof {
        assert(exporter.methods().drop_last().drop_last() =~= old(exporter).methods());
    }
}

} // verus!
