use spv::builder::ShaderStage;
use spv::data::DataType;
use spv::emit::{BuildError, CompileError};
use spv::prim::{PrimitiveType, PrimitiveVal};
use spv::prim_ir::{check_instr, check_list, defines, Instruction, PrimCounts};
use spv::prim_module::PrimModule;
use std::collections::HashSet;

fn counts(inputs: usize, outputs: usize) -> PrimCounts {
    PrimCounts { inputs, outputs, uniforms: 0, textures: 0, samplers: 0 }
}

fn one() -> PrimitiveVal {
    PrimitiveVal::Float(0x3f80_0000)
}

fn add(l: usize, r: usize, res: usize) -> Instruction {
    Instruction::Add {
        lhs: (l, PrimitiveType::Float),
        rhs: (r, PrimitiveType::Float),
        res: (res, PrimitiveType::Float),
    }
}

#[test]
fn straight_line_program_defines_its_results() {
    let prog = vec![
        Instruction::Store { val: one(), store: 0 },
        Instruction::Store { val: one(), store: 1 },
        add(0, 1, 2),
        Instruction::StoreOut { index: 0, ty: PrimitiveType::Float, read: 2 },
    ];
    let mut d = HashSet::new();
    assert!(check_list(&prog, &mut d, &counts(0, 1), false));
    let mut expected = HashSet::new();
    expected.insert(0usize);
    expected.insert(1);
    expected.insert(2);
    assert_eq!(d, expected);
}

#[test]
fn reading_an_undefined_variable_is_refused() {
    let prog = vec![Instruction::Store { val: one(), store: 0 }, add(0, 7, 2)];
    let mut d = HashSet::new();
    assert!(!check_list(&prog, &mut d, &counts(0, 0), false));
}

#[test]
fn resources_must_exist() {
    let mut d = HashSet::new();
    assert!(!check_instr(&Instruction::LoadIn { index: 0, ty: PrimitiveType::Vec2, store: 0 }, &mut d, &counts(0, 0), false));
    let mut d = HashSet::new();
    assert!(check_instr(&Instruction::LoadIn { index: 0, ty: PrimitiveType::Vec2, store: 0 }, &mut d, &counts(1, 0), false));
    assert!(d.contains(&0));
    let mut d = HashSet::new();
    assert!(!check_instr(&Instruction::LoadStorage, &mut d, &counts(1, 1), false));
}

#[test]
fn break_and_continue_only_in_loops() {
    let mut d = HashSet::new();
    assert!(!check_instr(&Instruction::Break, &mut d, &counts(0, 0), false));
    let prog = vec![
        Instruction::Store { val: PrimitiveVal::Bool(true), store: 0 },
        Instruction::Loop { condition: 0, body: vec![Instruction::Continue, Instruction::Break] },
    ];
    let mut d = HashSet::new();
    assert!(check_list(&prog, &mut d, &counts(0, 0), false));
    let undefined_condition = vec![Instruction::Loop { condition: 3, body: vec![] }];
    let mut d = HashSet::new();
    assert!(!check_list(&undefined_condition, &mut d, &counts(0, 0), false));
}

#[test]
fn branch_definitions_carry_on() {
    let prog = vec![
        Instruction::Store { val: PrimitiveVal::Bool(false), store: 0 },
        Instruction::IfChain {
            conditions: vec![0],
            instructions: vec![vec![Instruction::Store { val: one(), store: 5 }]],
            else_instructions: Some(vec![add(5, 5, 6)]),
        },
        add(6, 5, 7),
    ];
    let mut d = HashSet::new();
    assert!(check_list(&prog, &mut d, &counts(0, 0), false));
    assert!(d.contains(&7));
    let missing_block = vec![
        Instruction::Store { val: PrimitiveVal::Bool(false), store: 0 },
        Instruction::IfChain { conditions: vec![0, 0], instructions: vec![vec![]], else_instructions: None },
    ];
    let mut d = HashSet::new();
    assert!(!check_list(&missing_block, &mut d, &counts(0, 0), false));
}

#[test]
fn unsupported_operand_types_are_refused() {
    let mut d = HashSet::new();
    d.insert(0usize);
    d.insert(1usize);
    let vm = Instruction::Mul {
        lhs: (0, PrimitiveType::Vec2),
        rhs: (1, PrimitiveType::Mat2),
        res: (2, PrimitiveType::Vec2),
    };
    assert!(!check_instr(&vm, &mut d.clone(), &counts(0, 0), false));
    let mv = Instruction::Mul {
        lhs: (0, PrimitiveType::Mat2),
        rhs: (1, PrimitiveType::Vec2),
        res: (2, PrimitiveType::Vec2),
    };
    assert!(check_instr(&mv, &mut d.clone(), &counts(0, 0), false));
    let bools = Instruction::Add {
        lhs: (0, PrimitiveType::Bool),
        rhs: (1, PrimitiveType::Bool),
        res: (2, PrimitiveType::Bool),
    };
    assert!(!check_instr(&bools, &mut d.clone(), &counts(0, 0), false));
    assert_eq!(defines(&mv), Some(2));
    assert_eq!(defines(&Instruction::StoreOut { index: 0, ty: PrimitiveType::Float, read: 0 }), None);
}

#[test]
fn module_with_io_compiles_to_spirv_words() {
    let mut m = PrimModule::new(ShaderStage::Fragment);
    let i = m.input(PrimitiveType::Vec4, 0, Some("colour".to_string()));
    assert_eq!(i, 0);
    let o = m.output(PrimitiveType::Vec4, 0, None);
    assert_eq!(o, 1);
    m.push_instruction(Instruction::LoadIn { index: 0, ty: PrimitiveType::Vec4, store: 0 });
    m.push_instruction(Instruction::StoreOut { index: 0, ty: PrimitiveType::Vec4, read: 0 });
    assert!(m.check());
    let words = m.compile().unwrap();
    assert_eq!(words[0], 0x0723_0203);
    assert_eq!(words[4], 0);
    assert!(words.len() > 5);
}

#[test]
fn module_with_control_flow_compiles() {
    let mut m = PrimModule::new(ShaderStage::Vertex);
    m.output(PrimitiveType::Float, 0, None);
    m.uniform(DataType::Primitive(PrimitiveType::Float), 0, 1);
    m.push_instruction(Instruction::LoadUniform { index: 0, ty: DataType::Primitive(PrimitiveType::Float), store: 0 });
    m.push_instruction(Instruction::Store { val: PrimitiveVal::Bool(true), store: 1 });
    m.push_instruction(Instruction::IfChain {
        conditions: vec![1],
        instructions: vec![vec![add(0, 0, 2), Instruction::StoreOut { index: 0, ty: PrimitiveType::Float, read: 2 }]],
        else_instructions: Some(vec![Instruction::StoreOut { index: 0, ty: PrimitiveType::Float, read: 0 }]),
    });
    m.push_instruction(Instruction::Loop { condition: 1, body: vec![add(0, 0, 3)] });
    assert!(m.check());
    let words = m.compile().unwrap();
    assert_eq!(words[0], 0x0723_0203);
}

#[test]
fn loop_body_ending_in_break_leaves_no_block_to_continue() {
    let mut m = PrimModule::new(ShaderStage::Vertex);
    m.push_instruction(Instruction::Store { val: PrimitiveVal::Bool(true), store: 0 });
    m.push_instruction(Instruction::Loop { condition: 0, body: vec![Instruction::Break] });
    assert!(m.check());
    assert_eq!(m.compile(), Err(CompileError::Build(BuildError::MismatchedTerminator)));
}

#[test]
fn module_check_refuses_missing_output() {
    let mut m = PrimModule::new(ShaderStage::Fragment);
    m.push_instruction(Instruction::Store { val: one(), store: 0 });
    m.push_instruction(Instruction::StoreOut { index: 0, ty: PrimitiveType::Float, read: 0 });
    assert!(!m.check());
}
