use vstd::prelude::*;
use vstd::utf8::{decode_utf8, valid_utf8};
use crate::reader::{
    be_u32_at, fits, le_u16_at, le_u24_at, le_u32_at, read_float, read_string, read_u16_le,
    read_u32_le, read_u8, read_uint24, truncated,
};
use crate::registers::{dst_reg, read_dst_reg, read_src_reg, src_reg};
use crate::types::{
    opcode_of, qualifier_of, type_opcode_of, MetadataModel, Opcode, Operation, OperationModel,
    ParamModel, PixelBenderError, PixelBenderMetadata, PixelBenderParam,
    PixelBenderParamQualifier, PixelBenderRegKind, PixelBenderTypeOpcode,
};
use crate::values::{read_value, string_at, value_at};

verus! {

/// What one instruction of the stream contributes to the program.
#[derive(Debug, Clone, PartialEq)]
pub enum Instruction {
    Name(String),
    Version(i32),
    Meta(PixelBenderMetadata),
    Param(PixelBenderParam),
    Op(Operation),
}

pub ghost enum InstrModel {
    Name(Seq<char>),
    Version(i32),
    Meta(MetadataModel),
    Param(ParamModel),
    Op(OperationModel),
}

impl View for Instruction {
    type V = InstrModel;

    open spec fn view(&self) -> InstrModel {
        match self {
            Instruction::Name(s) => InstrModel::Name(s@),
            Instruction::Version(v) => InstrModel::Version(*v),
            Instruction::Meta(m) => InstrModel::Meta(m@),
            Instruction::Param(p) => InstrModel::Param(p@),
            Instruction::Op(o) => InstrModel::Op(o@),
        }
    }
}

pub open spec fn reserved(op: Opcode, s: int) -> PixelBenderError {
    PixelBenderError::MalformedReservedField { opcode: op, offset: s as usize }
}

pub open spec fn unsupported(op: Opcode, s: int) -> PixelBenderError {
    PixelBenderError::UnsupportedConstruct { opcode: op, offset: s as usize }
}

/// `Nop`: a 32-bit and a 16-bit field, both zero.
pub open spec fn nop_at(d: Seq<u8>, s: int) -> Result<(InstrModel, int), PixelBenderError> {
    let p = s + 1;
    if !fits(d, p, 4) {
        Err(truncated(p))
    } else if le_u32_at(d, p) != 0 {
        Err(reserved(Opcode::Nop, s))
    } else if !fits(d, p, 6) {
        Err(truncated(p + 4))
    } else if le_u16_at(d, p + 4) != 0 {
        Err(reserved(Opcode::Nop, s))
    } else {
        Ok((InstrModel::Op(OperationModel::Nop), p + 6))
    }
}

/// Metadata: a type tag byte, a key string and a literal of that type.
pub open spec fn meta_at(d: Seq<u8>, s: int, op: Opcode) -> Result<(InstrModel, int), PixelBenderError> {
    let p = s + 1;
    if !fits(d, p, 1) {
        Err(truncated(p))
    } else {
        match string_at(d, p + 1) {
            Err(e) => Err(e),
            Ok((key, q)) => match type_opcode_of(d[p]) {
                None => Err(
                    PixelBenderError::UnknownTypeTag { byte: d[p], opcode: op, offset: s as usize },
                ),
                Some(t) => match value_at(d, q, t) {
                    Err(e) => Err(e),
                    Ok((v, q2)) => Ok((InstrModel::Meta(MetadataModel { key, value: v }), q2)),
                },
            },
        }
    }
}

/// A parameter: qualifier and type tag bytes, a register word, a write mask and a name.
pub open spec fn param_at(d: Seq<u8>, s: int) -> Result<(InstrModel, int), PixelBenderError> {
    let p = s + 1;
    if !fits(d, p, 1) {
        Err(truncated(p))
    } else if !fits(d, p, 2) {
        Err(truncated(p + 1))
    } else if !fits(d, p, 4) {
        Err(truncated(p + 2))
    } else if !fits(d, p, 5) {
        Err(truncated(p + 4))
    } else {
        match string_at(d, p + 5) {
            Err(e) => Err(e),
            Ok((name, q)) => match type_opcode_of(d[p + 1]) {
                None => Err(
                    PixelBenderError::UnknownTypeTag {
                        byte: d[p + 1],
                        opcode: Opcode::PBJParam,
                        offset: s as usize,
                    },
                ),
                Some(t) => match qualifier_of(d[p]) {
                    None => Err(PixelBenderError::UnknownQualifier { byte: d[p], offset: s as usize }),
                    Some(qual) => Ok(
                        (
                            InstrModel::Param(
                                ParamModel::Normal {
                                    qualifier: qual,
                                    param_type: t,
                                    reg: dst_reg(le_u16_at(d, p + 2), d[p + 4]),
                                    name,
                                    metadata: seq![],
                                },
                            ),
                            q,
                        ),
                    ),
                },
            },
        }
    }
}

/// A texture parameter: index and channel count bytes and a name.
pub open spec fn texture_at(d: Seq<u8>, s: int) -> Result<(InstrModel, int), PixelBenderError> {
    let p = s + 1;
    if !fits(d, p, 1) {
        Err(truncated(p))
    } else if !fits(d, p, 2) {
        Err(truncated(p + 1))
    } else {
        match string_at(d, p + 2) {
            Err(e) => Err(e),
            Ok((name, q)) => Ok(
                (
                    InstrModel::Param(ParamModel::Texture { index: d[p], channels: d[p + 1], name }),
                    q,
                ),
            ),
        }
    }
}

/// The program name: a 16-bit length and that many bytes of UTF-8.
pub open spec fn name_at(d: Seq<u8>, s: int) -> Result<(InstrModel, int), PixelBenderError> {
    let p = s + 1;
    if !fits(d, p, 2) {
        Err(truncated(p))
    } else if !fits(d, p + 2, le_u16_at(d, p) as int) {
        Err(truncated(p + 2))
    } else {
        let bytes = d.subrange(p + 2, p + 2 + le_u16_at(d, p));
        if valid_utf8(bytes) {
            Ok((InstrModel::Name(decode_utf8(bytes)), p + 2 + le_u16_at(d, p)))
        } else {
            Err(PixelBenderError::InvalidUtf8 { offset: s as usize })
        }
    }
}

/// The program version: a little-endian signed 32-bit integer.
pub open spec fn version_at(d: Seq<u8>, s: int) -> Result<(InstrModel, int), PixelBenderError> {
    let p = s + 1;
    if !fits(d, p, 4) {
        Err(truncated(p))
    } else {
        Ok((InstrModel::Version(#[verifier::truncate] (le_u32_at(d, p) as i32)), p + 4))
    }
}

/// `If`: a zero 24-bit field, a 24-bit source register word and a zero byte.
pub open spec fn if_at(d: Seq<u8>, s: int) -> Result<(InstrModel, int), PixelBenderError> {
    let p = s + 1;
    if !fits(d, p, 3) {
        Err(truncated(p))
    } else if le_u24_at(d, p) != 0 {
        Err(reserved(Opcode::If, s))
    } else if !fits(d, p, 6) {
        Err(truncated(p + 3))
    } else if !fits(d, p, 7) {
        Err(truncated(p + 6))
    } else if d[p + 6] != 0 {
        Err(reserved(Opcode::If, s))
    } else {
        Ok((InstrModel::Op(OperationModel::If { src: src_reg(le_u24_at(d, p + 3), 1) }), p + 7))
    }
}

/// `Else` and `EndIf`: a zero 32-bit field and a zero 24-bit field.
pub open spec fn branch_marker_at(d: Seq<u8>, s: int, op: Opcode) -> Result<(InstrModel, int), PixelBenderError> {
    let p = s + 1;
    if !fits(d, p, 4) {
        Err(truncated(p))
    } else if le_u32_at(d, p) != 0 {
        Err(reserved(op, s))
    } else if !fits(d, p, 7) {
        Err(truncated(p + 4))
    } else if le_u24_at(d, p + 4) != 0 {
        Err(reserved(op, s))
    } else if op == Opcode::Else {
        Ok((InstrModel::Op(OperationModel::Else), p + 7))
    } else {
        Ok((InstrModel::Op(OperationModel::EndIf), p + 7))
    }
}

/// `LoadIntOrFloat`: a destination word, a mask with a zero low nibble, then a big-endian float
/// for a float register or a little-endian 32-bit integer for an int register.
pub open spec fn load_at(d: Seq<u8>, s: int) -> Result<(InstrModel, int), PixelBenderError> {
    let p = s + 1;
    if !fits(d, p, 2) {
        Err(truncated(p))
    } else if !fits(d, p, 3) {
        Err(truncated(p + 2))
    } else if d[p + 2] & 0xFu8 != 0 {
        Err(reserved(Opcode::LoadIntOrFloat, s))
    } else if !fits(d, p, 7) {
        Err(truncated(p + 3))
    } else {
        let reg = dst_reg(le_u16_at(d, p), d[p + 2] >> 4u8);
        if reg.kind == PixelBenderRegKind::Float {
            Ok((InstrModel::Op(OperationModel::LoadFloat { dst: reg, val: be_u32_at(d, p + 3) }), p + 7))
        } else {
            Ok(
                (
                    InstrModel::Op(
                        OperationModel::LoadInt {
                            dst: reg,
                            val: #[verifier::truncate] (le_u32_at(d, p + 3) as i32),
                        },
                    ),
                    p + 7,
                ),
            )
        }
    }
}

/// The 7 bytes shared by sampling and arithmetic instructions are all present.
pub open spec fn operand_fields_error(d: Seq<u8>, p: int) -> Option<PixelBenderError> {
    if !fits(d, p, 2) {
        Some(truncated(p))
    } else if !fits(d, p, 3) {
        Some(truncated(p + 2))
    } else if !fits(d, p, 6) {
        Some(truncated(p + 3))
    } else if !fits(d, p, 7) {
        Some(truncated(p + 6))
    } else {
        None
    }
}

/// Sampling: destination word, mask, 24-bit source word and a sampler selector byte.
pub open spec fn sample_at(d: Seq<u8>, s: int, op: Opcode) -> Result<(InstrModel, int), PixelBenderError> {
    let p = s + 1;
    match operand_fields_error(d, p) {
        Some(e) => Err(e),
        None => {
            let dst = dst_reg(le_u16_at(d, p), d[p + 2] >> 4u8);
            let src = src_reg(le_u24_at(d, p + 3), 2);
            if op == Opcode::SampleNearest {
                Ok((InstrModel::Op(OperationModel::SampleNearest { dst, src, tf: d[p + 6] }), p + 7))
            } else {
                Ok((InstrModel::Op(OperationModel::SampleLinear { dst, src, tf: d[p + 6] }), p + 7))
            }
        },
    }
}

/// Any other instruction: destination word, mask, 24-bit source word and a zero byte. The mask's
/// low two bits give the source channel count less one, the next two a matrix mode that is not
/// supported, the high nibble the destination channels.
pub open spec fn arith_at(d: Seq<u8>, s: int, op: Opcode) -> Result<(InstrModel, int), PixelBenderError> {
    let p = s + 1;
    match operand_fields_error(d, p) {
        Some(e) => Err(e),
        None => {
            let mask = d[p + 2];
            if d[p + 6] != 0 {
                Err(reserved(op, s))
            } else if (mask >> 2u8) & 3u8 != 0 {
                Err(unsupported(op, s))
            } else {
                Ok(
                    (
                        InstrModel::Op(
                            OperationModel::Normal {
                                opcode: op,
                                dst: dst_reg(le_u16_at(d, p), mask >> 4u8),
                                src: src_reg(le_u24_at(d, p + 3), ((mask & 3u8) + 1) as u8),
                            },
                        ),
                        p + 7,
                    ),
                )
            }
        },
    }
}

/// The instruction whose opcode byte is at `s`, and the position after it.
pub open spec fn instruction_at(d: Seq<u8>, s: int) -> Result<(InstrModel, int), PixelBenderError> {
    if !fits(d, s, 1) {
        Err(truncated(s))
    } else {
        match opcode_of(d[s]) {
            None => Err(PixelBenderError::UnknownOpcode { byte: d[s], offset: s as usize }),
            Some(op) => match op {
                Opcode::Nop => nop_at(d, s),
                Opcode::PBJMeta1 | Opcode::PBJMeta2 => meta_at(d, s, op),
                Opcode::PBJParam => param_at(d, s),
                Opcode::PBJParamTexture => texture_at(d, s),
                Opcode::Name => name_at(d, s),
                Opcode::Version => version_at(d, s),
                Opcode::If => if_at(d, s),
                Opcode::Else | Opcode::EndIf => branch_marker_at(d, s, op),
                Opcode::LoadIntOrFloat => load_at(d, s),
                Opcode::SampleNearest | Opcode::SampleLinear => sample_at(d, s, op),
                _ => arith_at(d, s, op),
            },
        }
    }
}

/// `r` and the position `end` are what `expected` describes.
pub open spec fn instr_outcome(
    expected: Result<(InstrModel, int), PixelBenderError>,
    r: Result<Instruction, PixelBenderError>,
    end: usize,
) -> bool {
    match expected {
        Ok((i, q)) => match r {
            Ok(x) => x@ == i && end == q,
            Err(_) => false,
        },
        Err(e) => r == Err::<Instruction, PixelBenderError>(e),
    }
}


/// Relies on String::from_utf8: it succeeds exactly when the bytes are valid UTF-8, and the
/// string then holds the characters they encode.
#[verifier::external_body]
fn string_from_utf8(bytes: Vec<u8>) -> (r: Option<String>)
    ensures
        match r {
            Some(s) => valid_utf8(bytes@) && s@ == decode_utf8(bytes@),
            None => !valid_utf8(bytes@),
        },
{
    String::from_utf8(bytes).ok()
}

fn copy_bytes(data: &[u8], from: usize, len: usize) -> (r: Vec<u8>)
    requires
        from + len <= data@.len(),
    ensures
        r@ == data@.subrange(from as int, from + len),
{
    let n = data.len();
    let mut v: Vec<u8> = Vec::new();
    let mut i: usize = 0;
    while i < len
        invariant
            n == data@.len(),
            i <= len,
            from + len <= data@.len(),
            v@ == data@.subrange(from as int, from + i),
        decreases len - i,
    {
        v.push(data[from + i]);
        i = i + 1;
        assert(v@ =~= data@.subrange(from as int, from + i));
    }
    v
}

fn read_nop(data: &[u8], pos: &mut usize, start: usize) -> (r: Result<Instruction, PixelBenderError>)
    requires
        *old(pos) == start + 1 <= data@.len(),
    ensures
        *old(pos) <= *final(pos) <= data@.len(),
        instr_outcome(nop_at(data@, start as int), r, *final(pos)),
{
    let a = read_u32_le(data, pos)?;
    if a != 0 {
        return Err(PixelBenderError::MalformedReservedField { opcode: Opcode::Nop, offset: start });
    }
    let b = read_u16_le(data, pos)?;
    if b != 0 {
        return Err(PixelBenderError::MalformedReservedField { opcode: Opcode::Nop, offset: start });
    }
    Ok(Instruction::Op(Operation::Nop))
}

fn read_meta(data: &[u8], pos: &mut usize, start: usize, op: Opcode) -> (r: Result<Instruction, PixelBenderError>)
    requires
        *old(pos) == start + 1 <= data@.len(),
    ensures
        *old(pos) <= *final(pos) <= data@.len(),
        instr_outcome(meta_at(data@, start as int, op), r, *final(pos)),
{
    let meta_type = read_u8(data, pos)?;
    let key = read_string(data, pos)?;
    let t = match PixelBenderTypeOpcode::from_u8(meta_type) {
        Some(t) => t,
        None => {
            return Err(PixelBenderError::UnknownTypeTag { byte: meta_type, opcode: op, offset: start });
        },
    };
    let value = read_value(data, pos, t)?;
    Ok(Instruction::Meta(PixelBenderMetadata { key, value }))
}

fn read_param(data: &[u8], pos: &mut usize, start: usize) -> (r: Result<Instruction, PixelBenderError>)
    requires
        *old(pos) == start + 1 <= data@.len(),
    ensures
        *old(pos) <= *final(pos) <= data@.len(),
        instr_outcome(param_at(data@, start as int), r, *final(pos)),
{
    let qualifier = read_u8(data, pos)?;
    let param_type = read_u8(data, pos)?;
    let reg = read_u16_le(data, pos)?;
    let mask = read_u8(data, pos)?;
    let name = read_string(data, pos)?;
    let param_type = match PixelBenderTypeOpcode::from_u8(param_type) {
        Some(t) => t,
        None => {
            return Err(
                PixelBenderError::UnknownTypeTag {
                    byte: param_type,
                    opcode: Opcode::PBJParam,
                    offset: start,
                },
            );
        },
    };
    let qualifier = match PixelBenderParamQualifier::from_u8(qualifier) {
        Some(q) => q,
        None => {
            return Err(PixelBenderError::UnknownQualifier { byte: qualifier, offset: start });
        },
    };
    let reg = read_dst_reg(reg, mask)?;
    let metadata: Vec<PixelBenderMetadata> = Vec::new();
    assert(crate::types::metadata_view(metadata@) =~= seq![]);
    Ok(
        Instruction::Param(
            PixelBenderParam::Normal { qualifier, param_type, reg, name, metadata },
        ),
    )
}

fn read_texture(data: &[u8], pos: &mut usize, start: usize) -> (r: Result<Instruction, PixelBenderError>)
    requires
        *old(pos) == start + 1 <= data@.len(),
    ensures
        *old(pos) <= *final(pos) <= data@.len(),
        instr_outcome(texture_at(data@, start as int), r, *final(pos)),
{
    let index = read_u8(data, pos)?;
    let channels = read_u8(data, pos)?;
    let name = read_string(data, pos)?;
    Ok(Instruction::Param(PixelBenderParam::Texture { index, channels, name }))
}

fn read_name(data: &[u8], pos: &mut usize, start: usize) -> (r: Result<Instruction, PixelBenderError>)
    requires
        *old(pos) == start + 1 <= data@.len(),
    ensures
        *old(pos) <= *final(pos) <= data@.len(),
        instr_outcome(name_at(data@, start as int), r, *final(pos)),
{
    let len = read_u16_le(data, pos)?;
    if data.len() - *pos < len as usize {
        return Err(PixelBenderError::Truncated { offset: *pos });
    }
    let bytes = copy_bytes(data, *pos, len as usize);
    *pos = *pos + len as usize;
    match string_from_utf8(bytes) {
        Some(s) => Ok(Instruction::Name(s)),
        None => Err(PixelBenderError::InvalidUtf8 { offset: start }),
    }
}

fn read_version(data: &[u8], pos: &mut usize, start: usize) -> (r: Result<Instruction, PixelBenderError>)
    requires
        *old(pos) == start + 1 <= data@.len(),
    ensures
        *old(pos) <= *final(pos) <= data@.len(),
        instr_outcome(version_at(data@, start as int), r, *final(pos)),
{
    let v = read_u32_le(data, pos)?;
    Ok(Instruction::Version(#[verifier::truncate] (v as i32)))
}

fn read_if(data: &[u8], pos: &mut usize, start: usize) -> (r: Result<Instruction, PixelBenderError>)
    requires
        *old(pos) == start + 1 <= data@.len(),
    ensures
        *old(pos) <= *final(pos) <= data@.len(),
        instr_outcome(if_at(data@, start as int), r, *final(pos)),
{
    let zero = read_uint24(data, pos)?;
    if zero != 0 {
        return Err(PixelBenderError::MalformedReservedField { opcode: Opcode::If, offset: start });
    }
    let src = read_uint24(data, pos)?;
    let tail = read_u8(data, pos)?;
    if tail != 0 {
        return Err(PixelBenderError::MalformedReservedField { opcode: Opcode::If, offset: start });
    }
    let src = read_src_reg(src, 1)?;
    Ok(Instruction::Op(Operation::If { src }))
}

fn read_branch_marker(data: &[u8], pos: &mut usize, start: usize, op: Opcode) -> (r: Result<Instruction, PixelBenderError>)
    requires
        *old(pos) == start + 1 <= data@.len(),
    ensures
        *old(pos) <= *final(pos) <= data@.len(),
        instr_outcome(branch_marker_at(data@, start as int, op), r, *final(pos)),
{
    let a = read_u32_le(data, pos)?;
    if a != 0 {
        return Err(PixelBenderError::MalformedReservedField { opcode: op, offset: start });
    }
    let b = read_uint24(data, pos)?;
    if b != 0 {
        return Err(PixelBenderError::MalformedReservedField { opcode: op, offset: start });
    }
    if op == Opcode::Else {
        Ok(Instruction::Op(Operation::Else))
    } else {
        Ok(Instruction::Op(Operation::EndIf))
    }
}

fn read_load(data: &[u8], pos: &mut usize, start: usize) -> (r: Result<Instruction, PixelBenderError>)
    requires
        *old(pos) == start + 1 <= data@.len(),
    ensures
        *old(pos) <= *final(pos) <= data@.len(),
        instr_outcome(load_at(data@, start as int), r, *final(pos)),
{
    let dst = read_u16_le(data, pos)?;
    let mask = read_u8(data, pos)?;
    if mask & 0xFu8 != 0 {
        return Err(
            PixelBenderError::MalformedReservedField { opcode: Opcode::LoadIntOrFloat, offset: start },
        );
    }
    let dst = read_dst_reg(dst, mask >> 4u8)?;
    match dst.kind {
        PixelBenderRegKind::Float => {
            let val = read_float(data, pos)?;
            Ok(Instruction::Op(Operation::LoadFloat { dst, val }))
        },
        PixelBenderRegKind::Int => {
            let val = read_u32_le(data, pos)?;
            Ok(Instruction::Op(Operation::LoadInt { dst, val: #[verifier::truncate] (val as i32) }))
        },
    }
}

fn read_sample(data: &[u8], pos: &mut usize, start: usize, op: Opcode) -> (r: Result<Instruction, PixelBenderError>)
    requires
        *old(pos) == start + 1 <= data@.len(),
    ensures
        *old(pos) <= *final(pos) <= data@.len(),
        instr_outcome(sample_at(data@, start as int, op), r, *final(pos)),
{
    let dst = read_u16_le(data, pos)?;
    let mask = read_u8(data, pos)?;
    let src = read_uint24(data, pos)?;
    let tf = read_u8(data, pos)?;
    let dst = read_dst_reg(dst, mask >> 4u8)?;
    let src = read_src_reg(src, 2)?;
    if op == Opcode::SampleNearest {
        Ok(Instruction::Op(Operation::SampleNearest { dst, src, tf }))
    } else {
        Ok(Instruction::Op(Operation::SampleLinear { dst, src, tf }))
    }
}

fn read_arith(data: &[u8], pos: &mut usize, start: usize, op: Opcode) -> (r: Result<Instruction, PixelBenderError>)
    requires
        *old(pos) == start + 1 <= data@.len(),
    ensures
        *old(pos) <= *final(pos) <= data@.len(),
        instr_outcome(arith_at(data@, start as int, op), r, *final(pos)),
{
    let dst = read_u16_le(data, pos)?;
    let mask = read_u8(data, pos)?;
    assert(mask & 3u8 <= 3) by (bit_vector);
    let size = (mask & 3u8) + 1;
    let matrix = (mask >> 2u8) & 3u8;
    let src = read_uint24(data, pos)?;
    let tail = read_u8(data, pos)?;
    if tail != 0 {
        return Err(PixelBenderError::MalformedReservedField { opcode: op, offset: start });
    }
    if matrix != 0 {
        return Err(PixelBenderError::UnsupportedConstruct { opcode: op, offset: start });
    }
    let src = read_src_reg(src, size)?;
    let dst = read_dst_reg(dst, mask >> 4u8)?;
    Ok(Instruction::Op(Operation::Normal { opcode: op, dst, src }))
}

/// Reads the instruction whose opcode byte is at `*pos`.
pub fn read_instr(data: &[u8], pos: &mut usize) -> (r: Result<Instruction, PixelBenderError>)
    requires
        *old(pos) < data@.len(),
    ensures
        *old(pos) <= *final(pos) <= data@.len(),
        r is Ok ==> *old(pos) < *final(pos),
        instr_outcome(instruction_at(data@, *old(pos) as int), r, *final(pos)),
{
    let start = *pos;
    let raw = read_u8(data, pos)?;
    let op = match Opcode::from_u8(raw) {
        Some(op) => op,
        None => {
            return Err(PixelBenderError::UnknownOpcode { byte: raw, offset: start });
        },
    };
    match op {
        Opcode::Nop => read_nop(data, pos, start),
        Opcode::PBJMeta1 | Opcode::PBJMeta2 => read_meta(data, pos, start, op),
        Opcode::PBJParam => read_param(data, pos, start),
        Opcode::PBJParamTexture => read_texture(data, pos, start),
        Opcode::Name => read_name(data, pos, start),
        Opcode::Version => read_version(data, pos, start),
        Opcode::If => read_if(data, pos, start),
        Opcode::Else | Opcode::EndIf => read_branch_marker(data, pos, start, op),
        Opcode::LoadIntOrFloat => read_load(data, pos, start),
        Opcode::SampleNearest | Opcode::SampleLinear => read_sample(data, pos, start, op),
        _ => read_arith(data, pos, start, op),
    }
}

} // verus!
