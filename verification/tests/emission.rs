use spv::builder::{BuilderInner, ShaderStage};
use spv::prim::{PrimitiveType, PrimitiveVal};
use spv::prim_ir::Instruction;
use spv::prim_module::PrimModule;
use spv::types::{MatrixVal, ScalarVal, Type, Val, VectorVal};

const OP_UDIV: u32 = 134;
const OP_SDIV: u32 = 135;
const OP_FDIV: u32 = 136;
const OP_IADD: u32 = 128;
const OP_BITWISE_XOR: u32 = 198;

/// The opcodes of the instructions after the header, in order.
fn opcodes(words: &[u32]) -> Vec<u32> {
    let mut out = Vec::new();
    let mut i = 5;
    while i < words.len() {
        let count = (words[i] >> 16) as usize;
        out.push(words[i] & 0xffff);
        assert!(count > 0);
        i += count;
    }
    assert_eq!(i, words.len());
    out
}

fn binary_module(a: PrimitiveVal, b: PrimitiveVal, op: Instruction) -> Vec<u32> {
    let mut m = PrimModule::new(ShaderStage::Vertex);
    m.push_instruction(Instruction::Store { val: a, store: 0 });
    m.push_instruction(Instruction::Store { val: b, store: 1 });
    m.push_instruction(op);
    assert!(m.check());
    m.compile().unwrap()
}

fn div(ty: PrimitiveType) -> Instruction {
    Instruction::Div { lhs: (0, ty), rhs: (1, ty), res: (2, ty) }
}

#[test]
fn unsigned_division_emits_unsigned_divide() {
    let words = binary_module(PrimitiveVal::UInt(7), PrimitiveVal::UInt(2), div(PrimitiveType::UInt));
    let ops = opcodes(&words);
    assert_eq!(ops.iter().filter(|o| **o == OP_UDIV).count(), 1);
    assert!(!ops.contains(&OP_SDIV));
    assert!(!ops.contains(&OP_FDIV));
}

#[test]
fn signed_division_emits_signed_divide() {
    let words = binary_module(PrimitiveVal::Int(-7), PrimitiveVal::Int(2), div(PrimitiveType::Int));
    let ops = opcodes(&words);
    assert_eq!(ops.iter().filter(|o| **o == OP_SDIV).count(), 1);
    assert!(!ops.contains(&OP_UDIV));
}

#[test]
fn float_division_emits_float_divide() {
    let words = binary_module(PrimitiveVal::Float(0x4000_0000),
        PrimitiveVal::Float(0x3f80_0000),
        div(PrimitiveType::Float),
    );
    let ops = opcodes(&words);
    assert_eq!(ops.iter().filter(|o| **o == OP_FDIV).count(), 1);
    assert!(!ops.contains(&OP_UDIV) && !ops.contains(&OP_SDIV));
}

#[test]
fn unsigned_divide_assign_emits_unsigned_divide() {
    let op = Instruction::DivAssign { lhs: (0, PrimitiveType::UInt), rhs: (1, PrimitiveType::UInt) };
    let words = binary_module(PrimitiveVal::UInt(9), PrimitiveVal::UInt(3), op);
    let ops = opcodes(&words);
    assert_eq!(ops.iter().filter(|o| **o == OP_UDIV).count(), 1);
    assert!(!ops.contains(&OP_SDIV));
}

#[test]
fn integer_addition_and_xor_emit_their_instructions() {
    let add = Instruction::Add { lhs: (0, PrimitiveType::Int), rhs: (1, PrimitiveType::Int), res: (2, PrimitiveType::Int) };
    let ops = opcodes(&binary_module(PrimitiveVal::Int(1), PrimitiveVal::Int(2), add));
    assert!(ops.contains(&OP_IADD));
    let xor = Instruction::BitXor { lhs: (0, PrimitiveType::UInt), rhs: (1, PrimitiveType::UInt), res: (2, PrimitiveType::UInt) };
    let ops = opcodes(&binary_module(PrimitiveVal::UInt(1), PrimitiveVal::UInt(2), xor));
    assert!(ops.contains(&OP_BITWISE_XOR));
    assert!(!ops.contains(&OP_IADD));
}

#[test]
fn module_holds_one_function_with_a_return() {
    let words = binary_module(PrimitiveVal::UInt(1), PrimitiveVal::UInt(1), div(PrimitiveType::UInt));
    let ops = opcodes(&words);
    assert_eq!(ops.iter().filter(|o| **o == 54).count(), 1);
    assert_eq!(ops.iter().filter(|o| **o == 56).count(), 1);
    assert!(ops.contains(&253));
}

#[test]
fn entry_name_is_the_entry_functions_name() {
    let mut b = BuilderInner::new();
    let f = b.begin_func(Type::Void, Some("main".to_string()));
    b.end_func(f);
    let g = b.begin_func(Type::Void, None);
    b.end_func(g);
    b.set_entry(ShaderStage::Fragment, f);
    b.set_entry(ShaderStage::Vertex, g);
    assert_eq!(b.entry_name(ShaderStage::Fragment), Some("main".to_string()));
    assert_eq!(b.entry_name(ShaderStage::Vertex), None);
    assert_eq!(b.entry_name(ShaderStage::Compute), None);
}

#[test]
fn primitive_constants_become_shader_constants() {
    assert_eq!(PrimitiveVal::UInt(3).to_shader_val(), (Val::Scalar(ScalarVal::UInt(3)), PrimitiveType::UInt));
    assert_eq!(
        PrimitiveVal::IVec2([1, -1]).to_shader_val(),
        (Val::Vector(VectorVal::IVec2([1, -1])), PrimitiveType::IVec2)
    );
    assert_eq!(
        PrimitiveVal::Mat2([[1, 2], [3, 4]]).to_shader_val(),
        (Val::Matrix(MatrixVal::Mat2([[1, 2], [3, 4]])), PrimitiveType::Mat2)
    );
}

/// The instructions after the header, each as its words.
fn instructions(words: &[u32]) -> Vec<Vec<u32>> {
    let mut out = Vec::new();
    let mut i = 5;
    while i < words.len() {
        let count = (words[i] >> 16) as usize;
        out.push(words[i..i + count].to_vec());
        i += count;
    }
    out
}

#[test]
fn inputs_outputs_and_entry_point_are_declared() {
    let mut m = PrimModule::new(ShaderStage::Fragment);
    m.input(PrimitiveType::Vec4, 3, None);
    m.output(PrimitiveType::Vec4, 0, None);
    m.push_instruction(Instruction::LoadIn { index: 0, ty: PrimitiveType::Vec4, store: 0 });
    m.push_instruction(Instruction::StoreOut { index: 0, ty: PrimitiveType::Vec4, read: 0 });
    assert!(m.check());
    let insts = instructions(&m.compile().unwrap());
    let vars: Vec<&Vec<u32>> = insts.iter().filter(|i| (i[0] & 0xffff) == 59 && i.len() == 4).collect();
    let input = vars.iter().find(|v| v[3] == 1).expect("an input variable");
    let output = vars.iter().find(|v| v[3] == 3).expect("an output variable");
    assert!(insts.iter().any(|i| (i[0] & 0xffff) == 71 && i[1] == input[2] && i[2] == 30 && i[3] == 3));
    assert!(insts.iter().any(|i| (i[0] & 0xffff) == 71 && i[1] == output[2] && i[2] == 30 && i[3] == 0));
    let entries: Vec<&Vec<u32>> = insts.iter().filter(|i| (i[0] & 0xffff) == 15).collect();
    assert_eq!(entries.len(), 1);
    assert_eq!(entries[0][1], 4);
    let n = entries[0].len();
    assert_eq!(&entries[0][n - 2..], &[input[2], output[2]]);
    let ops: Vec<u32> = insts.iter().map(|i| i[0] & 0xffff).collect();
    let last_store = ops.iter().rposition(|o| *o == 62).unwrap();
    assert_eq!(ops[last_store - 1], 61);
    assert_eq!(insts[last_store][1], output[2]);
}

#[test]
fn loops_and_chains_emit_their_structure() {
    let mut m = PrimModule::new(ShaderStage::Vertex);
    m.push_instruction(Instruction::Store { val: PrimitiveVal::Bool(true), store: 0 });
    m.push_instruction(Instruction::Store { val: PrimitiveVal::UInt(1), store: 1 });
    m.push_instruction(Instruction::Loop { condition: 0, body: vec![div(PrimitiveType::UInt)] });
    m.push_instruction(Instruction::IfChain { conditions: vec![0], instructions: vec![vec![]], else_instructions: None });
    assert!(m.check());
    let ops = opcodes(&m.compile().unwrap());
    assert_eq!(ops.iter().filter(|o| **o == 246).count(), 1);
    assert_eq!(ops.iter().filter(|o| **o == 247).count(), 1);
    assert_eq!(ops.iter().filter(|o| **o == 250).count(), 2);
    assert!(ops.contains(&OP_UDIV));
}
