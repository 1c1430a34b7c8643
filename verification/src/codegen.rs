//! Questions about the block that a Cranelift function builder is positioned at.
//!
//! The builder and the function it fills belong to Cranelift, so what they hold is
//! known here only through three names: the builder's position, the layout of the
//! function (which blocks are inserted, and the instructions of each in program
//! order), and, for each instruction that the function has data for, whether its
//! opcode is a terminator. The four functions that read a builder are trusted to
//! report those names faithfully; the answers built from them are verified.

use cranelift::codegen::cursor::{Cursor, FuncCursor};
use cranelift::codegen::ir::{Block, Inst};
use cranelift::prelude::FunctionBuilder;
use vstd::prelude::*;

verus! {

/// Cranelift's `FunctionBuilder`, of which nothing is known but what the names below say.
#[verifier::external_type_specification]
#[verifier::external_body]
pub struct ExFunctionBuilder<'a>(FunctionBuilder<'a>);

/// The block that the builder is positioned at, as the bits of its reference.
pub uninterp spec fn builder_position(builder: &FunctionBuilder) -> Option<u32>;

/// The blocks that are inserted in the layout of the builder's function, each with the
/// references of its instructions in program order.
pub uninterp spec fn builder_layout(builder: &FunctionBuilder) -> Map<u32, Seq<u32>>;

/// The instructions that the builder's function has data for, each with whether its opcode
/// is a terminator.
pub uninterp spec fn builder_opcodes(builder: &FunctionBuilder) -> Map<u32, bool>;

/// The instructions of the block that the builder is positioned at, if that block is
/// inserted in the layout.
pub open spec fn current_instructions(builder: &FunctionBuilder) -> Option<Seq<u32>> {
    match builder_position(builder) {
        Some(block) if builder_layout(builder).dom().contains(block) => Some(
            builder_layout(builder)[block],
        ),
        _ => None,
    }
}

/// Whether the function has data for the last instruction of the builder's current block.
/// It holds of every builder whose current block is absent, not inserted or empty.
pub open spec fn last_instruction_known(builder: &FunctionBuilder) -> bool {
    match current_instructions(builder) {
        Some(instructions) if instructions.len() > 0 => builder_opcodes(builder).dom().contains(
            instructions.last(),
        ),
        _ => true,
    }
}

/// Whether two builders agree on position, layout and opcodes.
pub open spec fn same_function(a: &FunctionBuilder, b: &FunctionBuilder) -> bool {
    &&& builder_position(a) == builder_position(b)
    &&& builder_layout(a) == builder_layout(b)
    &&& builder_opcodes(a) == builder_opcodes(b)
}

/// `FunctionBuilder::current_block`, each block given by the bits of its reference.
/// Trusted: the result is the builder's position.
#[verifier::external_body]
fn current_block_bits(builder: &FunctionBuilder) -> (r: Option<u32>)
    ensures
        r == builder_position(builder),
{
    builder.current_block().map(|block| block.as_bits())
}

/// `Layout::is_block_inserted`, reached through a `FuncCursor` on the builder's function.
/// Trusted: the answer is whether the layout holds the block, and making the cursor changes
/// nothing in the function.
#[verifier::external_body]
fn block_is_inserted(builder: &mut FunctionBuilder, block: u32) -> (r: bool)
    ensures
        r == builder_layout(old(builder)).dom().contains(block),
        same_function(final(builder), old(builder)),
{
    FuncCursor::new(&mut *builder.func).layout().is_block_inserted(Block::from_bits(block))
}

/// `Cursor::prev_inst` on a `FuncCursor` placed at the bottom of an inserted block.
/// Trusted: the result is the block's last instruction, none for a block without
/// instructions, and moving the cursor changes nothing in the function.
#[verifier::external_body]
fn last_instruction(builder: &mut FunctionBuilder, block: u32) -> (r: Option<u32>)
    requires
        builder_layout(old(builder)).dom().contains(block),
    ensures
        r == (if builder_layout(old(builder))[block].len() > 0 {
            Some(builder_layout(old(builder))[block].last())
        } else {
            None
        }),
        same_function(final(builder), old(builder)),
{
    let mut cursor = FuncCursor::new(&mut *builder.func).at_bottom(Block::from_bits(block));
    cursor.prev_inst().map(|inst| inst.as_bits())
}

/// `DataFlowGraph::inst_is_valid`. Trusted: the answer is whether the function has data
/// for the instruction.
#[verifier::external_body]
fn instruction_is_known(builder: &FunctionBuilder, inst: u32) -> (r: bool)
    ensures
        r == builder_opcodes(builder).dom().contains(inst),
{
    builder.func.dfg.inst_is_valid(Inst::from_bits(inst))
}

/// `Opcode::is_terminator` of the opcode that the function's data holds for an
/// instruction. Trusted: the answer is the one recorded for that instruction.
#[verifier::external_body]
fn opcode_is_terminator(builder: &FunctionBuilder, inst: u32) -> (r: bool)
    requires
        builder_opcodes(builder).dom().contains(inst),
    ensures
        r == builder_opcodes(builder)[inst],
{
    builder.func.dfg.insts[Inst::from_bits(inst)].opcode().is_terminator()
}

/// The last instruction of the builder's current block, if the block is inserted in the
/// layout and has one.
fn current_last_instruction(builder: &mut FunctionBuilder) -> (r: Option<u32>)
    ensures
        r == (match current_instructions(old(builder)) {
            Some(instructions) if instructions.len() > 0 => Some(instructions.last()),
            _ => None,
        }),
        same_function(final(builder), old(builder)),
{
    let block = match current_block_bits(builder) {
        Some(block) => block,
        None => return None,
    };
    if !block_is_inserted(builder, block) {
        return None;
    }
    last_instruction(builder, block)
}

/// Whether `is_filled` may be asked of this builder: whether the function has data for the
/// last instruction of the current block.
pub fn can_ask_filled(builder: &mut FunctionBuilder) -> (r: bool)
    ensures
        r == last_instruction_known(old(builder)),
        same_function(final(builder), old(builder)),
{
    match current_last_instruction(builder) {
        Some(inst) => instruction_is_known(builder, inst),
        None => true,
    }
}

/// What the code generator asks of the block it is filling.
pub trait FunctionBuilderExt {
    /// What `is_filled` answers.
    spec fn filled(&self) -> bool;

    /// What `is_pristine` answers.
    spec fn pristine(&self) -> bool;

    /// The builders of which `is_filled` may be asked.
    spec fn inspectable(&self) -> bool;

    /// Whether `other` describes the same function at the same position.
    spec fn unchanged(&self, other: &Self) -> bool;

    /// Checks if the current block has a terminator as its last instruction.
    fn is_filled(&mut self) -> (r: bool)
        requires
            old(self).inspectable(),
        ensures
            r == old(self).filled(),
            final(self).unchanged(old(self)),
    ;

    /// Checks if the current block has no instructions.
    fn is_pristine(&mut self) -> (r: bool)
        ensures
            r == old(self).pristine(),
            final(self).unchanged(old(self)),
    ;
}

impl<'a> FunctionBuilderExt for FunctionBuilder<'a> {
    /// The current block is inserted in the layout, has an instruction, and the opcode of
    /// its last instruction is a terminator.
    open spec fn filled(&self) -> bool {
        match current_instructions(self) {
            Some(instructions) => instructions.len() > 0 && builder_opcodes(
                self,
            )[instructions.last()],
            None => false,
        }
    }

    /// The current block is inserted in the layout and has no instruction.
    open spec fn pristine(&self) -> bool {
        match current_instructions(self) {
            Some(instructions) => instructions.len() == 0,
            None => false,
        }
    }

    open spec fn inspectable(&self) -> bool {
        last_instruction_known(self)
    }

    open spec fn unchanged(&self, other: &Self) -> bool {
        same_function(self, other)
    }

    fn is_filled(&mut self) -> (r: bool) {
        let last_inst = match current_last_instruction(self) {
            Some(inst) => inst,
            // Without a last instruction the block is absent, detached or empty.
            None => return false,
        };
        opcode_is_terminator(self, last_inst)
    }

    fn is_pristine(&mut self) -> (r: bool) {
        let block = match current_block_bits(self) {
            Some(block) => block,
            None => return false,
        };
        if !block_is_inserted(self, block) {
            return false;
        }
        last_instruction(self, block).is_none()
    }
}

} // verus!
