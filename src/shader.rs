use vstd::prelude::*;
use crate::instructions::{instruction_at, read_instr, InstrModel, Instruction};
use crate::reader::truncated;
use crate::types::{
    metadata_view, operations_view, params_view, MetadataModel, Opcode, ParamModel,
    PixelBenderError, PixelBenderMetadata, PixelBenderParam, PixelBenderShader, ShaderModel,
};

verus! {

/// The program built so far and the metadata not yet given to a parameter.
pub ghost struct DecodeState {
    pub shader: ShaderModel,
    pub pending: Seq<MetadataModel>,
}

pub open spec fn empty_shader() -> ShaderModel {
    ShaderModel { name: seq![], version: 0, params: seq![], metadata: seq![], operations: seq![] }
}

/// Hands the pending metadata to the most recent parameter, or to the program when there is no
/// parameter yet. A texture parameter takes none: pending metadata there is an error, reported
/// at `offset`.
pub open spec fn flush_metadata(sh: ShaderModel, pending: Seq<MetadataModel>, offset: int) -> Result<
    ShaderModel,
    PixelBenderError,
> {
    if sh.params.len() == 0 {
        Ok(ShaderModel { metadata: pending, ..sh })
    } else {
        match sh.params.last() {
            ParamModel::Normal { qualifier, param_type, reg, name, metadata: _ } => Ok(
                ShaderModel {
                    params: sh.params.update(
                        sh.params.len() - 1,
                        ParamModel::Normal { qualifier, param_type, reg, name, metadata: pending },
                    ),
                    ..sh
                },
            ),
            ParamModel::Texture { .. } => if pending.len() == 0 {
                Ok(sh)
            } else {
                Err(PixelBenderError::MetadataTargetInvalid { offset: offset as usize })
            },
        }
    }
}

/// The effect of an instruction whose opcode byte is at `s` on the decoding state.
pub open spec fn apply_to_state(st: DecodeState, i: InstrModel, s: int) -> Result<
    DecodeState,
    PixelBenderError,
> {
    match i {
        InstrModel::Name(n) => Ok(DecodeState { shader: ShaderModel { name: n, ..st.shader }, ..st }),
        InstrModel::Version(v) => Ok(
            DecodeState { shader: ShaderModel { version: v, ..st.shader }, ..st },
        ),
        InstrModel::Meta(m) => Ok(DecodeState { pending: st.pending.push(m), ..st }),
        InstrModel::Param(p) => match flush_metadata(st.shader, st.pending, s) {
            Err(e) => Err(e),
            Ok(sh) => if p is Normal && p->Normal_param_type.spec_is_matrix() {
                Err(PixelBenderError::UnsupportedConstruct { opcode: Opcode::PBJParam, offset: s as usize })
            } else {
                Ok(DecodeState { shader: ShaderModel { params: sh.params.push(p), ..sh }, pending: seq![] })
            },
        },
        InstrModel::Op(o) => Ok(
            DecodeState {
                shader: ShaderModel { operations: st.shader.operations.push(o), ..st.shader },
                ..st
            },
        ),
    }
}

/// Decodes the instruction at `s` and applies it: the new state and the position after it.
pub open spec fn step_at(d: Seq<u8>, s: int, st: DecodeState) -> Result<(DecodeState, int), PixelBenderError> {
    match instruction_at(d, s) {
        Err(e) => Err(e),
        Ok((i, q)) => match apply_to_state(st, i, s) {
            Err(e) => Err(e),
            Ok(st2) => Ok((st2, q)),
        },
    }
}

/// Decodes every instruction from `p` to the end of the buffer, then hands the pending metadata
/// over.
pub open spec fn decode_from(d: Seq<u8>, p: int, st: DecodeState) -> Result<ShaderModel, PixelBenderError>
    decreases d.len() - p,
{
    if p < 0 || p >= d.len() {
        flush_metadata(st.shader, st.pending, d.len() as int)
    } else {
        match step_at(d, p, st) {
            Err(e) => Err(e),
            Ok((st2, q)) => if p < q <= d.len() {
                decode_from(d, q, st2)
            } else {
                Err(truncated(p))
            },
        }
    }
}

/// The program that a buffer encodes, or the first error met while decoding it.
pub open spec fn decode_program(d: Seq<u8>) -> Result<ShaderModel, PixelBenderError> {
    decode_from(d, 0, DecodeState { shader: empty_shader(), pending: seq![] })
}

/// Hands the pending metadata to the most recent parameter, or to the program when there is no
/// parameter yet, and leaves the pending list empty.
pub fn apply_metadata(
    shader: &mut PixelBenderShader,
    metadata: &mut Vec<PixelBenderMetadata>,
    offset: usize,
) -> (r: Result<(), PixelBenderError>)
    ensures
        match flush_metadata(old(shader)@, metadata_view(old(metadata)@), offset as int) {
            Ok(sh) => r is Ok && final(shader)@ == sh && final(metadata)@.len() == 0,
            Err(e) => r == Err::<(), PixelBenderError>(e),
        },
{
    let mut pending: Vec<PixelBenderMetadata> = Vec::new();
    std::mem::swap(&mut pending, metadata);
    assert(metadata_view(metadata@) =~= seq![]);
    if shader.params.len() == 0 {
        shader.metadata = pending;
        return Ok(());
    }
    let ghost before = shader.params@;
    let last = shader.params.pop().unwrap();
    assert(shader.params@ =~= before.drop_last());
    match last {
        PixelBenderParam::Normal { qualifier, param_type, reg, name, metadata: _ } => {
            let p = PixelBenderParam::Normal { qualifier, param_type, reg, name, metadata: pending };
            shader.params.push(p);
            assert(params_view(shader.params@) =~= params_view(before).update(
                before.len() - 1,
                p@,
            ));
            Ok(())
        },
        PixelBenderParam::Texture { index, channels, name } => {
            if pending.len() != 0 {
                return Err(PixelBenderError::MetadataTargetInvalid { offset });
            }
            shader.params.push(PixelBenderParam::Texture { index, channels, name });
            assert(shader.params@ =~= before);
            Ok(())
        },
    }
}

/// Applies a decoded instruction whose opcode byte is at `offset` to the program and the pending
/// metadata.
pub fn apply_instr(
    shader: &mut PixelBenderShader,
    metadata: &mut Vec<PixelBenderMetadata>,
    instr: Instruction,
    offset: usize,
) -> (r: Result<(), PixelBenderError>)
    ensures
        match apply_to_state(
            DecodeState { shader: old(shader)@, pending: metadata_view(old(metadata)@) },
            instr@,
            offset as int,
        ) {
            Ok(st) => r is Ok && final(shader)@ == st.shader && metadata_view(final(metadata)@)
                == st.pending,
            Err(e) => r == Err::<(), PixelBenderError>(e),
        },
{
    match instr {
        Instruction::Name(n) => {
            shader.name = n;
            Ok(())
        },
        Instruction::Version(v) => {
            shader.version = v;
            Ok(())
        },
        Instruction::Meta(m) => {
            let ghost before = metadata@;
            metadata.push(m);
            assert(metadata_view(metadata@) =~= metadata_view(before).push(m@));
            Ok(())
        },
        Instruction::Param(p) => {
            apply_metadata(shader, metadata, offset)?;
            assert(metadata_view(metadata@) =~= seq![]);
            let matrix = match &p {
                PixelBenderParam::Normal { param_type, .. } => param_type.is_matrix(),
                PixelBenderParam::Texture { .. } => false,
            };
            if matrix {
                return Err(PixelBenderError::UnsupportedConstruct { opcode: Opcode::PBJParam, offset });
            }
            let ghost before = shader.params@;
            shader.params.push(p);
            assert(params_view(shader.params@) =~= params_view(before).push(p@));
            Ok(())
        },
        Instruction::Op(o) => {
            let ghost before = shader.operations@;
            shader.operations.push(o);
            assert(operations_view(shader.operations@) =~= operations_view(before).push(o@));
            Ok(())
        },
    }
}

/// Decodes the instruction at `*pos` and applies it to the program and the pending metadata.
pub fn read_op(
    data: &[u8],
    pos: &mut usize,
    shader: &mut PixelBenderShader,
    metadata: &mut Vec<PixelBenderMetadata>,
) -> (r: Result<(), PixelBenderError>)
    requires
        *old(pos) < data@.len(),
    ensures
        *old(pos) <= *final(pos) <= data@.len(),
        r is Ok ==> *old(pos) < *final(pos),
        match step_at(
            data@,
            *old(pos) as int,
            DecodeState { shader: old(shader)@, pending: metadata_view(old(metadata)@) },
        ) {
            Ok((st, q)) => r is Ok && final(shader)@ == st.shader && metadata_view(final(metadata)@)
                == st.pending && *final(pos) == q,
            Err(e) => r == Err::<(), PixelBenderError>(e),
        },
{
    let start = *pos;
    let instr = read_instr(data, pos)?;
    apply_instr(shader, metadata, instr, start)
}

/// Decodes a complete Pixel Bender bytecode buffer.
pub fn parse_shader(data: &[u8]) -> (r: Result<PixelBenderShader, PixelBenderError>)
    ensures
        match decode_program(data@) {
            Ok(sh) => match r {
                Ok(s) => s@ == sh,
                Err(_) => false,
            },
            Err(e) => r == Err::<PixelBenderShader, PixelBenderError>(e),
        },
{
    let mut shader = PixelBenderShader {
        name: String::new(),
        version: 0,
        params: Vec::new(),
        metadata: Vec::new(),
        operations: Vec::new(),
    };
    let mut metadata: Vec<PixelBenderMetadata> = Vec::new();
    assert(shader@.name =~= seq![]);
    assert(params_view(shader.params@) =~= seq![]);
    assert(metadata_view(shader.metadata@) =~= seq![]);
    assert(operations_view(shader.operations@) =~= seq![]);
    assert(metadata_view(metadata@) =~= seq![]);
    let mut pos: usize = 0;
    while pos < data.len()
        invariant
            pos <= data@.len(),
            decode_program(data@) == decode_from(
                data@,
                pos as int,
                DecodeState { shader: shader@, pending: metadata_view(metadata@) },
            ),
        decreases data@.len() - pos,
    {
        read_op(data, &mut pos, &mut shader, &mut metadata)?;
    }
    apply_metadata(&mut shader, &mut metadata, data.len())?;
    Ok(shader)
}

} // verus!
