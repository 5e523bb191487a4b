use spv::builder::{field_index, Array, BuilderInner, Operand, ShaderStage, Struct};
use spv::scope::{FuncScope, Scope};
use spv::ir::{CmpType, Instruction, OpLhsRhsType, OpLoadStoreData};
use spv::io::IOType;
use spv::types::{ArrayType, ScalarType, ScalarVal, StructMember, StructType, Type, Val, VectorType};

fn float() -> Type {
    Type::Scalar(ScalarType::Float(32))
}

fn recorded(b: &BuilderInner) -> usize {
    match &b.scope {
        Some(Scope::Func(f)) => f.instructions.len(),
        Some(Scope::If(i)) => i.instructions.len(),
        None => 0,
    }
}

#[test]
fn resources_get_their_place_as_handle() {
    let mut b = BuilderInner::new();
    let i0 = b.input(IOType::Vec3, 0, false, None);
    let i1 = b.input(IOType::Float, 1, true, Some("depth".to_string()));
    let o0 = b.output(IOType::Vec4, 0, false, None);
    assert_eq!(i0.id, 0);
    assert_eq!(i1.id, 1);
    assert_eq!(i1.ty, IOType::Float);
    assert_eq!(o0.id, 0);
    assert_eq!(b.inputs.len(), 2);
    assert_eq!(b.outputs.len(), 1);
    let u0 = b.uniform(float(), 0, 0, None);
    let u1 = b.uniform(float(), 0, 1, None);
    assert_eq!(u1.id, u0.id + 1);
}

#[test]
fn function_body_is_recorded_and_closed() {
    let mut b = BuilderInner::new();
    let input = b.input(IOType::Float, 0, false, None);
    let output = b.output(IOType::Float, 0, false, None);
    let f = b.begin_func(Type::Void, Some("main".to_string()));
    assert_eq!(f, 0);
    let x = input.load(&mut b);
    let y = b.basic_op(Operand::Var(x, float()), Operand::Const(Val::Scalar(ScalarVal::Float(0x4000_0000))), float(), OpLhsRhsType::Mul);
    assert_ne!(x, y);
    output.store(&mut b, y);
    b.end_func(f);
    assert!(b.scope.is_none());
    // the load, the constant, the multiplication and the store
    assert_eq!(b.functions[0].instructions.len(), 4);
    assert!(matches!(b.functions[0].instructions[2], Instruction::LhsRhs(_)));
}

#[test]
fn if_chain_is_recorded_at_its_place() {
    let mut b = BuilderInner::new();
    let f = b.begin_func(Type::Void, None);
    let x = b.set_const(Val::Scalar(ScalarVal::Int(1)));
    let c = b.compare((x, Type::Scalar(ScalarType::Signed(32))), Operand::Const(Val::Scalar(ScalarVal::Int(0))), CmpType::Gt);
    let before = recorded(&b);
    b.begin_if();
    assert_eq!(recorded(&b), 0);
    b.set_const(Val::Scalar(ScalarVal::Bool(true)));
    let chain = b.end_if(c);
    assert_eq!(chain.index, before);
    b.begin_if();
    b.end_else_if(&chain, c);
    b.begin_if();
    b.end_else(chain);
    assert_eq!(recorded(&b), before + 1);
    b.end_func(f);
    match &b.functions[0].instructions[before] {
        Instruction::If(o) => {
            assert_eq!(o.condition, c);
            assert_eq!(o.instructions.len(), 1);
            assert!(o.otherwise.is_some());
        },
        _ => panic!("expected a branch"),
    }
}

#[test]
fn entry_points_are_replaced_per_stage() {
    let mut b = BuilderInner::new();
    let f = b.begin_func(Type::Void, Some("a".to_string()));
    b.end_func(f);
    let g = b.begin_func(Type::Void, Some("b".to_string()));
    b.end_func(g);
    b.set_entry(ShaderStage::Vertex, f);
    b.set_entry(ShaderStage::Fragment, f);
    b.set_entry(ShaderStage::Vertex, g);
    assert_eq!(b.entry_points.len(), 2);
    assert!(b.entry_points.contains(&(ShaderStage::Vertex, g)));
    assert!(b.entry_points.contains(&(ShaderStage::Fragment, f)));
    assert!(!b.entry_points.contains(&(ShaderStage::Vertex, f)));
}

#[test]
fn field_index_finds_first_named_member() {
    let st = StructType {
        name: Some("S".to_string()),
        members: vec![
            StructMember { name: Some("a".to_string()), ty: float(), offset: 0 },
            StructMember { name: None, ty: float(), offset: 4 },
            StructMember { name: Some("b".to_string()), ty: float(), offset: 8 },
            StructMember { name: Some("b".to_string()), ty: float(), offset: 12 },
        ],
    };
    let t = Type::Struct(st);
    assert_eq!(field_index(&t, "a"), Some(0));
    assert_eq!(field_index(&t, "b"), Some(2));
    assert_eq!(field_index(&t, "c"), None);
    assert_eq!(field_index(&float(), "a"), None);
}

#[test]
fn compiled_module_starts_with_header() {
    let mut b = BuilderInner::new();
    let input = b.input(IOType::Vec2, 0, false, None);
    let output = b.output(IOType::Vec2, 0, false, None);
    let f = b.begin_func(Type::Void, Some("main".to_string()));
    let x = input.load(&mut b);
    let v2 = Type::Vector(VectorType { scalar_ty: ScalarType::Float(32), n_scalar: 2 });
    let y = b.basic_op(Operand::Var(x, v2.copy()), Operand::Var(x, v2.copy()), v2.copy(), OpLhsRhsType::Add);
    output.store(&mut b, y);
    b.end_func(f);
    b.set_entry(ShaderStage::Fragment, f);
    assert!(b.check_compilable());
    let words = b.compile().unwrap();
    assert_eq!(words[0], 0x0723_0203);
    assert_eq!(words[4], 0);
}

#[test]
fn entry_point_needs_a_named_function() {
    let mut b = BuilderInner::new();
    let f = b.begin_func(Type::Void, None);
    b.end_func(f);
    b.set_entry(ShaderStage::Compute, f);
    assert!(!b.check_compilable());
}

#[test]
fn struct_and_array_loads_record_their_place() {
    let mut b = BuilderInner::new();
    let f = b.begin_func(Type::Void, None);
    let st = StructType {
        name: None,
        members: vec![
            StructMember { name: Some("x".to_string()), ty: float(), offset: 0 },
            StructMember { name: Some("y".to_string()), ty: float(), offset: 4 },
        ],
    };
    let s = Struct { id: 40, ty: st };
    let v = s.load_field(&mut b, float(), "y");
    let a = Array { id: 41, ty: ArrayType { element_ty: Box::new(float()), length: Some(8) } };
    let e = a.index(&mut b, float(), Operand::Const(Val::Scalar(ScalarVal::Int(3))));
    assert_ne!(v, e);
    b.end_func(f);
    let ins = &b.functions[0].instructions;
    // the field load, the index constant, the element load
    assert_eq!(ins.len(), 3);
    match &ins[0] {
        Instruction::LoadStore(o) => {
            assert!(matches!(o.src, OpLoadStoreData::Struct { id: 40, field: 1, .. }));
            assert!(matches!(o.dst, OpLoadStoreData::Variable { id } if id == v));
        },
        _ => panic!("expected a load"),
    }
    match &ins[2] {
        Instruction::LoadStore(o) => {
            assert!(matches!(o.src, OpLoadStoreData::ArrayElement { id: 41, .. }));
        },
        _ => panic!("expected a load"),
    }
}

#[test]
fn module_without_functions_compiles() {
    let mut b = BuilderInner::new();
    b.input(IOType::Float, 0, false, None);
    assert!(b.check_compilable());
    let words = b.compile().unwrap();
    assert_eq!(words[0], 0x0723_0203);
}

#[test]
fn variable_numbers_count_up_from_zero() {
    let mut s = Scope::Func(FuncScope::new());
    assert_eq!(s.get_new_id(), 0);
    assert_eq!(s.get_new_id(), 1);
    s.name_var(0, "x".to_string());
    s.name_var(7, "y".to_string());
    assert_eq!(s.get_new_id(), 2);
}

/// The instructions after the header, each as its words.
fn typed_instructions(words: &[u32]) -> Vec<Vec<u32>> {
    let mut out = Vec::new();
    let mut i = 5;
    while i < words.len() {
        let count = (words[i] >> 16) as usize;
        out.push(words[i..i + count].to_vec());
        i += count;
    }
    out
}

#[test]
fn entry_point_names_its_function_and_interface() {
    let mut b = BuilderInner::new();
    let input = b.input(IOType::Vec2, 0, false, None);
    let output = b.output(IOType::Vec2, 1, false, None);
    let g = b.begin_func(Type::Void, Some("helper".to_string()));
    b.end_func(g);
    let f = b.begin_func(Type::Void, Some("main".to_string()));
    let x = input.load(&mut b);
    output.store(&mut b, x);
    b.end_func(f);
    b.set_entry(ShaderStage::Fragment, f);
    assert!(b.check_compilable());
    let insts = typed_instructions(&b.compile().unwrap());
    let functions: Vec<u32> = insts.iter().filter(|i| (i[0] & 0xffff) == 54).map(|i| i[2]).collect();
    assert_eq!(functions.len(), 2);
    let inputs: Vec<u32> = insts.iter().filter(|i| (i[0] & 0xffff) == 59 && i.len() == 4 && i[3] == 1).map(|i| i[2]).collect();
    let outputs: Vec<u32> = insts.iter().filter(|i| (i[0] & 0xffff) == 59 && i.len() == 4 && i[3] == 3).map(|i| i[2]).collect();
    let entry = insts.iter().find(|i| (i[0] & 0xffff) == 15).unwrap();
    assert_eq!(entry[1], 4);
    assert_eq!(entry[2], functions[1]);
    let n = entry.len();
    assert_eq!(&entry[n - 2..], &[inputs[0], outputs[0]]);
    let ops: Vec<u32> = insts.iter().map(|i| i[0] & 0xffff).collect();
    let store = ops.iter().rposition(|o| *o == 62).unwrap();
    assert_eq!(insts[store][1], outputs[0]);
}

#[test]
fn sized_types_are_told_apart() {
    assert!(spv::types::is_sized(&float()));
    let runtime = Type::Array(ArrayType { element_ty: Box::new(float()), length: None });
    assert!(!spv::types::is_sized(&runtime));
    let fixed = Type::Array(ArrayType { element_ty: Box::new(float()), length: Some(4) });
    assert!(spv::types::is_sized(&fixed));
}
