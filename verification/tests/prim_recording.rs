use spv::builder::ShaderStage;
use spv::prim::{PrimitiveType, PrimitiveVal};
use spv::prim_ir::Instruction;
use spv::prim_module::{ChainRecorder, LoopRecorder, PrimModule, Variables};

fn store(id: usize) -> Instruction {
    Instruction::Store { val: PrimitiveVal::UInt(1), store: id }
}

#[test]
fn chain_recorder_routes_instructions_to_open_block() {
    let mut c = ChainRecorder::new(3);
    c.push_instruction(store(10));
    c.else_if(4);
    c.push_instruction(store(11));
    c.push_instruction(store(12));
    c.open_else();
    c.push_instruction(store(13));
    assert_eq!(c.conditions, vec![3, 4]);
    assert_eq!(c.instructions.len(), 2);
    assert_eq!(c.instructions[0].len(), 1);
    assert_eq!(c.instructions[1].len(), 2);
    assert_eq!(c.else_instructions.as_ref().map(|e| e.len()), Some(1));
    match c.finish() {
        Instruction::IfChain { conditions, instructions, else_instructions } => {
            assert_eq!(conditions.len(), instructions.len());
            assert!(else_instructions.is_some());
        },
        _ => panic!("expected a chain"),
    }
}

#[test]
fn reopening_else_discards_its_block() {
    let mut c = ChainRecorder::new(0);
    c.open_else();
    c.push_instruction(store(1));
    c.open_else();
    assert_eq!(c.else_instructions.as_ref().map(|e| e.len()), Some(0));
}

#[test]
fn loop_recorder_collects_body() {
    let mut l = LoopRecorder::new(9);
    l.push_instruction(store(1));
    l.push_instruction(Instruction::Break);
    match l.finish() {
        Instruction::Loop { condition, body } => {
            assert_eq!(condition, 9);
            assert_eq!(body.len(), 2);
        },
        _ => panic!("expected a loop"),
    }
}

#[test]
fn variable_numbers_are_fresh() {
    let mut v = Variables::new();
    let a = v.get_new_id();
    let b = v.get_new_id();
    assert_ne!(a, b);
    v.name_var(a, "position".to_string());
    assert_eq!(v.vars.get(a), Some(&Some("position".to_string())));
    assert_eq!(v.vars.get(b), Some(&None));
    let mut m = PrimModule::new(ShaderStage::Compute);
    let x = m.new_var();
    let y = m.new_var();
    assert_ne!(x, y);
    m.push_instruction(Instruction::Store { val: PrimitiveVal::Int(2), store: x });
    m.push_instruction(Instruction::Add {
        lhs: (x, PrimitiveType::Int),
        rhs: (x, PrimitiveType::Int),
        res: (y, PrimitiveType::Int),
    });
    assert!(m.check());
}

#[test]
fn function_bodies_are_kept_by_number() {
    let mut m = PrimModule::new(ShaderStage::Fragment);
    m.set_function(0, vec![store(1), store(2)]);
    m.set_function(0, vec![store(3)]);
    m.set_function(5, Vec::new());
    assert_eq!(m.functions.len(), 2);
    assert_eq!(m.functions[&0].len(), 1);
    assert!(m.functions[&5].is_empty());
    assert!(m.check());
    assert_eq!(m.compile().unwrap()[0], 0x0723_0203);
}
