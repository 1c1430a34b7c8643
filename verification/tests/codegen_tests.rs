use cranelift::codegen::ir::types::I32;
use cranelift::codegen::ir::{Function, Inst, InstBuilder, Signature, UserFuncName};
use cranelift::codegen::isa::CallConv;
use cranelift::prelude::{FunctionBuilder, FunctionBuilderContext};
use saltwater::codegen::{can_ask_filled, FunctionBuilderExt};

fn empty_function() -> Function {
    Function::with_name_signature(UserFuncName::user(0, 0), Signature::new(CallConv::SystemV))
}

#[test]
fn without_a_block_neither_filled_nor_pristine() {
    let mut func = empty_function();
    let mut context = FunctionBuilderContext::new();
    let mut builder = FunctionBuilder::new(&mut func, &mut context);
    assert!(builder.current_block().is_none());
    assert!(can_ask_filled(&mut builder));
    assert!(!builder.is_filled());
    assert!(!builder.is_pristine());
}

#[test]
fn a_block_outside_the_layout_is_neither() {
    let mut func = empty_function();
    let mut context = FunctionBuilderContext::new();
    let mut builder = FunctionBuilder::new(&mut func, &mut context);
    let block = builder.create_block();
    builder.switch_to_block(block);
    assert!(!builder.func.layout.is_block_inserted(block));
    assert!(can_ask_filled(&mut builder));
    assert!(!builder.is_filled());
    assert!(!builder.is_pristine());
}

#[test]
fn an_inserted_block_without_instructions_is_pristine() {
    let mut func = empty_function();
    let mut context = FunctionBuilderContext::new();
    let mut builder = FunctionBuilder::new(&mut func, &mut context);
    let block = builder.create_block();
    builder.switch_to_block(block);
    builder.func.layout.append_block(block);
    assert!(can_ask_filled(&mut builder));
    assert!(builder.is_pristine());
    assert!(!builder.is_filled());
    assert_eq!(builder.current_block(), Some(block));
}

#[test]
fn a_block_with_an_instruction_is_not_pristine() {
    let mut func = empty_function();
    let mut context = FunctionBuilderContext::new();
    let mut builder = FunctionBuilder::new(&mut func, &mut context);
    let block = builder.create_block();
    builder.switch_to_block(block);
    builder.ins().iconst(I32, 1);
    assert!(can_ask_filled(&mut builder));
    assert!(!builder.is_pristine());
    assert!(!builder.is_filled());
}

#[test]
fn a_block_that_ends_in_a_return_is_filled() {
    let mut func = empty_function();
    let mut context = FunctionBuilderContext::new();
    let mut builder = FunctionBuilder::new(&mut func, &mut context);
    let block = builder.create_block();
    builder.switch_to_block(block);
    builder.ins().iconst(I32, 1);
    builder.ins().return_(&[]);
    assert!(can_ask_filled(&mut builder));
    assert!(builder.is_filled());
    assert!(!builder.is_pristine());
    let last = builder.func.layout.last_inst(block);
    assert!(builder.is_filled());
    assert_eq!(builder.func.layout.last_inst(block), last);
    assert_eq!(builder.current_block(), Some(block));
}

#[test]
fn the_answer_is_about_the_current_block() {
    let mut func = empty_function();
    let mut context = FunctionBuilderContext::new();
    let mut builder = FunctionBuilder::new(&mut func, &mut context);
    let first = builder.create_block();
    let second = builder.create_block();
    builder.switch_to_block(first);
    builder.ins().jump(second, &[]);
    assert!(builder.is_filled());
    builder.switch_to_block(second);
    assert!(!builder.is_filled());
    builder.ins().iconst(I32, 5);
    assert!(!builder.is_filled());
    assert!(!builder.is_pristine());
    builder.ins().return_(&[]);
    assert!(builder.is_filled());
}

#[test]
fn an_instruction_without_data_cannot_be_asked_about() {
    let mut func = empty_function();
    let mut context = FunctionBuilderContext::new();
    let mut builder = FunctionBuilder::new(&mut func, &mut context);
    let block = builder.create_block();
    builder.switch_to_block(block);
    builder.func.layout.append_block(block);
    builder.func.layout.append_inst(Inst::from_u32(40), block);
    assert!(!can_ask_filled(&mut builder));
    assert!(!builder.is_pristine());
}
