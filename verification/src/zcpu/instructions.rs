//! The variable-length binary instruction decoder.
//!
//! An instruction is laid out in memory as an opcode of one or two bytes,
//! an optional byte or two of packed 2-bit operand types, then zero to eight
//! operands of one or two bytes each; store-variable, branch and text parts
//! belong to particular opcodes and are consumed by the execution engine.
//! The decoder pulls bytes through an explicit program-counter cursor handed
//! in by the processing unit, and never owns the counter itself.

use vstd::prelude::*;

use crate::errors::{ZmError, ZmResult};
use crate::zmachine::header::ZMachineVersion;
use crate::zmemory::{spec_word_be, wrap_add, ZMemory, ZMemoryAddress};

verus! {

/// The different types of operand for an operation.
#[derive(Copy, Clone, Debug, PartialEq, Eq, Structural)]
pub enum InstructionOperand {
    /// A two-byte constant, big-endian.
    ConstantLarge(u16),
    /// A one-byte constant.
    ConstantSmall(u8),
    /// A variable in the context of the current routine: 0x00 is the top of
    /// the evaluation stack, 0x01 to 0x0F the routine's locals, and 0x10 to
    /// 0xFF the global variables.
    Variable(u8),
    /// No operand.
    Omitted,
}

/// The expected number of operands for an operation.
#[derive(Copy, Clone, Debug, PartialEq, Eq, Structural)]
pub enum InstructionOperandCount {
    /// Exactly this many operands.
    Fixed(u8),
    /// A count signalled by the operand-types byte that follows the opcode.
    Variable,
}

/// The different forms an instruction can take. The extended form is only
/// reachable from version 5.
#[derive(Copy, Clone, Debug, PartialEq, Eq, Structural)]
pub enum InstructionForm {
    Long,
    Short,
    Extended,
    Variable,
}

/// The form selected by the first opcode byte: the extended marker byte 0xBE
/// from version 5; otherwise the top two bits pick variable form on 11,
/// short form on 10, and long form on everything else.
pub open spec fn spec_form(opcode_msb: u8, target: ZMachineVersion) -> InstructionForm {
    if opcode_msb == 0xBE && target.spec_number() >= 5 {
        InstructionForm::Extended
    } else if opcode_msb & 0xC0 == 0xC0 {
        InstructionForm::Variable
    } else if opcode_msb & 0xC0 == 0x80 {
        InstructionForm::Short
    } else {
        InstructionForm::Long
    }
}

impl InstructionForm {
    /// Determines an instruction's form from the first byte of its opcode.
    pub fn from_opcode(opcode_msb: u8, target: ZMachineVersion) -> (r: Self)
        ensures
            r == spec_form(opcode_msb, target),
    {
        if opcode_msb == 0xBE && target.number() >= 5 {
            InstructionForm::Extended
        } else {
            match opcode_msb & 0xC0 {
                0xC0 => InstructionForm::Variable,
                0x80 => InstructionForm::Short,
                _ => InstructionForm::Long,
            }
        }
    }
}

/// Law: the form is a total function of the first opcode byte and the
/// version. The marker byte 0xBE selects the extended form exactly from
/// version 5; before version 5 its top two bits (10) select the short form
/// as for any other byte; and every byte other than the extended marker is
/// decided by its top two bits alone, the same way under every version.
pub proof fn lemma_form_selection(opcode_msb: u8, target: ZMachineVersion)
    ensures
        (spec_form(opcode_msb, target) == InstructionForm::Extended <==> (opcode_msb == 0xBE
            && target.spec_number() >= 5)),
        opcode_msb == 0xBE && target.spec_number() < 5 ==> spec_form(opcode_msb, target)
            == InstructionForm::Short,
        !(opcode_msb == 0xBE && target.spec_number() >= 5) ==> spec_form(opcode_msb, target) == (
        if opcode_msb & 0xC0 == 0xC0 {
            InstructionForm::Variable
        } else if opcode_msb & 0xC0 == 0x80 {
            InstructionForm::Short
        } else {
            InstructionForm::Long
        }),
{
    assert(0xBEu8 & 0xC0 == 0x80) by (bit_vector);
}

/// The byte a one-byte fetch at `pc` yields, with the cursor after it; an
/// out-of-bounds fault with the cursor unmoved when `pc` lies past the end.
pub open spec fn spec_next_byte(s: Seq<u8>, pc: u16) -> Result<(u8, u16), (ZmError, u16)> {
    if pc < s.len() {
        Ok((s[pc as int], wrap_add(pc, 1)))
    } else {
        Err((ZmError::MemoryInvalidAccess(pc as usize), pc))
    }
}

/// The four 2-bit operand-type fields of a types byte, most significant
/// first: 00 large constant, 01 small constant, 10 variable, 11 omitted.
pub open spec fn spec_type_fields(tb: u8) -> Seq<u8> {
    seq![(tb >> 6) & 3, (tb >> 4) & 3, (tb >> 2) & 3, tb & 3]
}

/// The prefix of a type-field sequence before the first omitted field: once
/// one type is given as omitted, all subsequent ones are too.
pub open spec fn spec_truncate_kinds(kinds: Seq<u8>) -> Seq<u8>
    decreases kinds.len(),
{
    if kinds.len() == 0 {
        Seq::<u8>::empty()
    } else if kinds[0] == 3 {
        Seq::<u8>::empty()
    } else {
        seq![kinds[0]] + spec_truncate_kinds(kinds.skip(1))
    }
}

/// The operands read at `pc` for a sequence of type fields, with the cursor
/// after them: two bytes forming a big-endian large constant for type 0, one
/// byte for types 1 (small constant) and 2 (variable). A fetch past the
/// buffer end is an out-of-bounds fault with the cursor where the fetches
/// stopped.
pub open spec fn spec_read_operands(s: Seq<u8>, pc: u16, kinds: Seq<u8>) -> Result<
    (Seq<InstructionOperand>, u16),
    (ZmError, u16),
>
    decreases kinds.len(),
{
    if kinds.len() == 0 {
        Ok((Seq::<InstructionOperand>::empty(), pc))
    } else if kinds[0] == 0 {
        match spec_next_byte(s, pc) {
            Ok((hi, pc1)) => match spec_next_byte(s, pc1) {
                Ok((lo, pc2)) => match spec_read_operands(s, pc2, kinds.skip(1)) {
                    Ok((rest, end)) => Ok(
                        (
                            seq![InstructionOperand::ConstantLarge(spec_word_be(hi, lo))] + rest,
                            end,
                        ),
                    ),
                    Err(e) => Err(e),
                },
                Err(e) => Err(e),
            },
            Err(e) => Err(e),
        }
    } else if kinds[0] == 3 {
        spec_read_operands(s, pc, kinds.skip(1))
    } else {
        match spec_next_byte(s, pc) {
            Ok((b, pc1)) => match spec_read_operands(s, pc1, kinds.skip(1)) {
                Ok((rest, end)) => Ok(
                    (
                        seq![
                            if kinds[0] == 1 {
                                InstructionOperand::ConstantSmall(b)
                            } else {
                                InstructionOperand::Variable(b)
                            },
                        ] + rest,
                        end,
                    ),
                ),
                Err(e) => Err(e),
            },
            Err(e) => Err(e),
        }
    }
}

/// A decoded operation, at the specification level.
pub struct SpecOperation {
    /// The form selected by the first opcode byte.
    pub form: InstructionForm,
    /// The opcode number within its form and operand count.
    pub opcode_number: u8,
    /// The operands, in the order they were read.
    pub operands: Seq<InstructionOperand>,
}

/// Pairs a form and opcode number with the outcome of an operand read.
pub open spec fn spec_finish_decode(
    form: InstructionForm,
    opcode_number: u8,
    rd: Result<(Seq<InstructionOperand>, u16), (ZmError, u16)>,
) -> Result<(SpecOperation, u16), (ZmError, u16)> {
    match rd {
        Ok((ops, end)) => Ok((SpecOperation { form, opcode_number, operands: ops }, end)),
        Err(e) => Err(e),
    }
}

/// What decoding one instruction at `pc` of image `s` yields: the decoded
/// operation and the cursor past it, or the fault and the cursor where the
/// fetches stopped.
///
/// The first byte selects the form. Short form: bits 4 and 5 give the single
/// operand's type, with 11 meaning no operand, and the opcode number is the
/// low 4 bits. Long form: always two operands, each a small constant or a
/// variable by bits 6 and 5, and the opcode number is the low 5 bits.
/// Variable form: the opcode number is the low 5 bits, and a types byte
/// follows — two types bytes for the two long-call opcodes 12 and 26 with
/// bit 5 set. Extended form: the next byte is the opcode number, then one
/// types byte.
pub open spec fn spec_decode(target: ZMachineVersion, s: Seq<u8>, pc: u16) -> Result<
    (SpecOperation, u16),
    (ZmError, u16),
> {
    match spec_next_byte(s, pc) {
        Err(e) => Err(e),
        Ok((b0, pc1)) => {
            let form = spec_form(b0, target);
            match form {
                InstructionForm::Short => {
                    let kinds = if (b0 >> 4) & 3 == 3 {
                        Seq::<u8>::empty()
                    } else {
                        seq![(b0 >> 4) & 3]
                    };
                    spec_finish_decode(form, b0 & 0x0F, spec_read_operands(s, pc1, kinds))
                },
                InstructionForm::Long => {
                    let kinds = seq![
                        if b0 & 0x40 != 0 {
                            2u8
                        } else {
                            1u8
                        },
                        if b0 & 0x20 != 0 {
                            2u8
                        } else {
                            1u8
                        },
                    ];
                    spec_finish_decode(form, b0 & 0x1F, spec_read_operands(s, pc1, kinds))
                },
                InstructionForm::Variable => {
                    let opcode = b0 & 0x1F;
                    match spec_next_byte(s, pc1) {
                        Err(e) => Err(e),
                        Ok((tb, pc2)) => if b0 & 0x20 != 0 && (opcode == 12 || opcode == 26) {
                            match spec_next_byte(s, pc2) {
                                Err(e) => Err(e),
                                Ok((tb2, pc3)) => spec_finish_decode(
                                    form,
                                    opcode,
                                    spec_read_operands(
                                        s,
                                        pc3,
                                        spec_truncate_kinds(
                                            spec_type_fields(tb) + spec_type_fields(tb2),
                                        ),
                                    ),
                                ),
                            }
                        } else {
                            spec_finish_decode(
                                form,
                                opcode,
                                spec_read_operands(
                                    s,
                                    pc2,
                                    spec_truncate_kinds(spec_type_fields(tb)),
                                ),
                            )
                        },
                    }
                },
                InstructionForm::Extended => {
                    match spec_next_byte(s, pc1) {
                        Err(e) => Err(e),
                        Ok((opcode, pc2)) => match spec_next_byte(s, pc2) {
                            Err(e) => Err(e),
                            Ok((tb, pc3)) => spec_finish_decode(
                                form,
                                opcode,
                                spec_read_operands(
                                    s,
                                    pc3,
                                    spec_truncate_kinds(spec_type_fields(tb)),
                                ),
                            ),
                        },
                    }
                },
            }
        },
    }
}

/// Operands already read, put before the outcome of reading the remaining
/// ones.
pub open spec fn spec_prepend_operands(
    prefix: Seq<InstructionOperand>,
    rd: Result<(Seq<InstructionOperand>, u16), (ZmError, u16)>,
) -> Result<(Seq<InstructionOperand>, u16), (ZmError, u16)> {
    match rd {
        Ok((ops, end)) => Ok((prefix + ops, end)),
        Err(e) => Err(e),
    }
}

/// Fetches the byte at the cursor and advances the cursor past it, wrapping
/// around the address space; a fetch past the buffer end faults and leaves
/// the cursor unmoved.
fn next_byte(memory: &ZMemory, pc: &mut u16) -> (r: ZmResult<u8>)
    ensures
        match spec_next_byte(memory@, *old(pc)) {
            Ok((b, end)) => r == Ok::<u8, ZmError>(b) && *final(pc) == end,
            Err((e, end)) => r == Err::<u8, ZmError>(e) && *final(pc) == end,
        },
{
    let next = memory.read_byte(ZMemoryAddress::Byte(*pc))?;
    *pc = pc.wrapping_add(1);
    Ok(next)
}

/// The operand-type fields of one or two types bytes, truncated at the
/// first omitted field.
fn truncate_type_fields(tb: u8, tb2: Option<u8>) -> (ks: Vec<u8>)
    ensures
        ks@ == spec_truncate_kinds(
            match tb2 {
                Some(t2) => spec_type_fields(tb) + spec_type_fields(t2),
                None => spec_type_fields(tb),
            },
        ),
        forall|j: int| 0 <= j < ks@.len() ==> ks@[j] != 3,
{
    let mut fields: Vec<u8> = Vec::new();
    fields.push((tb >> 6) & 3);
    fields.push((tb >> 4) & 3);
    fields.push((tb >> 2) & 3);
    fields.push(tb & 3);
    match tb2 {
        Some(t2) => {
            fields.push((t2 >> 6) & 3);
            fields.push((t2 >> 4) & 3);
            fields.push((t2 >> 2) & 3);
            fields.push(t2 & 3);
            proof {
                assert(fields@ =~= spec_type_fields(tb) + spec_type_fields(t2));
            }
        },
        None => {
            proof {
                assert(fields@ =~= spec_type_fields(tb));
            }
        },
    }
    let ghost fs = fields@;
    let mut ks: Vec<u8> = Vec::new();
    let mut j: usize = 0;
    let mut done = false;
    proof {
        assert(fs.skip(0) =~= fs);
        assert(ks@ + spec_truncate_kinds(fs) =~= spec_truncate_kinds(fs));
    }
    while j < fields.len() && !done
        invariant
            j <= fields.len(),
            fields@ == fs,
            forall|i: int| 0 <= i < ks@.len() ==> ks@[i] != 3,
            done ==> spec_truncate_kinds(fs) == ks@,
            !done ==> spec_truncate_kinds(fs) == ks@ + spec_truncate_kinds(fs.skip(j as int)),
        decreases fields.len() - j + (if done { 0int } else { 1int }),
    {
        let f = fields[j];
        proof {
            assert(fs.skip(j as int).len() > 0);
            assert(fs.skip(j as int)[0] == fs[j as int]);
            assert(fs.skip(j as int).skip(1) =~= fs.skip(j as int + 1));
        }
        if f == 3 {
            proof {
                assert(spec_truncate_kinds(fs.skip(j as int)) =~= Seq::<u8>::empty());
                assert(ks@ + Seq::<u8>::empty() =~= ks@);
            }
            done = true;
        } else {
            let ghost old_ks = ks@;
            ks.push(f);
            proof {
                assert(spec_truncate_kinds(fs.skip(j as int)) == seq![fs[j as int]]
                    + spec_truncate_kinds(fs.skip(j as int + 1)));
                assert(old_ks + (seq![fs[j as int]] + spec_truncate_kinds(fs.skip(j as int + 1)))
                    =~= ks@ + spec_truncate_kinds(fs.skip(j as int + 1)));
            }
            j = j + 1;
        }
    }
    proof {
        if !done {
            assert(fs.skip(j as int) =~= Seq::<u8>::empty());
            assert(spec_truncate_kinds(fs.skip(j as int)) =~= Seq::<u8>::empty());
            assert(ks@ + Seq::<u8>::empty() =~= ks@);
        }
    }
    ks
}

/// A decoded instruction for the processing unit to execute.
#[derive(Clone, Debug)]
pub struct Operation {
    /// The form selected by the first opcode byte.
    pub form: InstructionForm,
    /// The opcode number within its form and operand count.
    pub opcode_number: u8,
    /// The operands, in the order they were read.
    pub operands: Vec<InstructionOperand>,
}

impl Operation {
    /// Decodes one instruction at the cursor, advancing the cursor past the
    /// bytes read. The cursor wraps around the address space as it advances;
    /// a fetch past the buffer end faults with the cursor where the fetches
    /// stopped.
    pub fn decoded(target: ZMachineVersion, memory: &ZMemory, pc: &mut u16) -> (r: ZmResult<
        Operation,
    >)
        ensures
            (spec_decode(target, memory@, *old(pc)) matches Ok((op, end)) ==> r matches Ok(o)
                && o.form == op.form && o.opcode_number == op.opcode_number && o.operands@
                == op.operands && *final(pc) == end),
            (spec_decode(target, memory@, *old(pc)) matches Err((e, end)) ==> r == Err::<
                Operation,
                ZmError,
            >(e) && *final(pc) == end),
    {
        let ghost s = memory@;
        let b0 = next_byte(memory, pc)?;
        let form = InstructionForm::from_opcode(b0, target);
        let (opcode_number, kinds): (u8, Vec<u8>) = match form {
            InstructionForm::Short => {
                let mut ks: Vec<u8> = Vec::new();
                let field = (b0 >> 4) & 3;
                if field != 3 {
                    ks.push(field);
                    proof {
                        assert(ks@ =~= seq![(b0 >> 4) & 3]);
                    }
                } else {
                    proof {
                        assert(ks@ =~= Seq::<u8>::empty());
                    }
                }
                proof {
                    assert(forall|i: int| 0 <= i < ks@.len() ==> ks@[i] != 3);
                }
                (b0 & 0x0F, ks)
            },
            InstructionForm::Long => {
                let mut ks: Vec<u8> = Vec::new();
                ks.push(
                    if b0 & 0x40 != 0 {
                        2
                    } else {
                        1
                    },
                );
                ks.push(
                    if b0 & 0x20 != 0 {
                        2
                    } else {
                        1
                    },
                );
                proof {
                    assert(ks@ =~= seq![
                        if b0 & 0x40 != 0 {
                            2u8
                        } else {
                            1u8
                        },
                        if b0 & 0x20 != 0 {
                            2u8
                        } else {
                            1u8
                        },
                    ]);
                    assert(forall|i: int| 0 <= i < ks@.len() ==> ks@[i] != 3);
                }
                (b0 & 0x1F, ks)
            },
            InstructionForm::Variable => {
                let opcode = b0 & 0x1F;
                let tb = next_byte(memory, pc)?;
                if b0 & 0x20 != 0 && (opcode == 12 || opcode == 26) {
                    let tb2 = next_byte(memory, pc)?;
                    (opcode, truncate_type_fields(tb, Some(tb2)))
                } else {
                    (opcode, truncate_type_fields(tb, None))
                }
            },
            InstructionForm::Extended => {
                let opcode = next_byte(memory, pc)?;
                let tb = next_byte(memory, pc)?;
                (opcode, truncate_type_fields(tb, None))
            },
        };
        let ghost pc0 = *pc;
        let ghost ksq = kinds@;
        proof {
            assert(spec_decode(target, s, *old(pc)) == spec_finish_decode(
                form,
                opcode_number,
                spec_read_operands(s, pc0, ksq),
            ));
        }
        let mut operands: Vec<InstructionOperand> = Vec::new();
        let mut i: usize = 0;
        proof {
            assert(ksq.skip(0) =~= ksq);
            assert(operands@ + Seq::<InstructionOperand>::empty() =~= operands@);
        }
        while i < kinds.len()
            invariant
                i <= kinds.len(),
                kinds@ == ksq,
                memory@ == s,
                forall|jj: int| 0 <= jj < ksq.len() ==> ksq[jj] != 3,
                spec_read_operands(s, pc0, ksq) == spec_prepend_operands(
                    operands@,
                    spec_read_operands(s, *pc, ksq.skip(i as int)),
                ),
                spec_decode(target, s, *old(pc)) == spec_finish_decode(
                    form,
                    opcode_number,
                    spec_read_operands(s, pc0, ksq),
                ),
            decreases kinds.len() - i,
        {
            let k = kinds[i];
            proof {
                assert(ksq.skip(i as int).len() > 0);
                assert(ksq.skip(i as int)[0] == ksq[i as int]);
                assert(ksq.skip(i as int).skip(1) =~= ksq.skip(i as int + 1));
            }
            let ghost old_ops = operands@;
            if k == 0 {
                let hi = next_byte(memory, pc)?;
                let lo = next_byte(memory, pc)?;
                operands.push(InstructionOperand::ConstantLarge((hi as u16) * 256 + (lo as u16)));
                proof {
                    let inner = spec_read_operands(s, *pc, ksq.skip(i as int + 1));
                    if inner is Ok {
                        let (rest, end) = inner->Ok_0;
                        assert(old_ops + (seq![
                            InstructionOperand::ConstantLarge(spec_word_be(hi, lo)),
                        ] + rest) =~= operands@ + rest);
                    }
                }
            } else {
                let b = next_byte(memory, pc)?;
                let operand = if k == 1 {
                    InstructionOperand::ConstantSmall(b)
                } else {
                    InstructionOperand::Variable(b)
                };
                operands.push(operand);
                proof {
                    let inner = spec_read_operands(s, *pc, ksq.skip(i as int + 1));
                    if inner is Ok {
                        let (rest, end) = inner->Ok_0;
                        assert(old_ops + (seq![operand] + rest) =~= operands@ + rest);
                    }
                }
            }
            i = i + 1;
        }
        proof {
            assert(ksq.skip(i as int) =~= Seq::<u8>::empty());
            assert(operands@ + Seq::<InstructionOperand>::empty() =~= operands@);
        }
        Ok(Operation { form, opcode_number, operands })
    }
}

} // verus!
