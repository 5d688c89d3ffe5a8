use vstd::prelude::*;
use crate::instructions::{instruction_at, InstrModel};
use crate::reader::{fits, le_u32_at};
use crate::shader::{
    decode_from, decode_program, empty_shader, flush_metadata, step_at,
    DecodeState,
};
use crate::types::{
    type_opcode_of, MetadataModel, Opcode, ParamModel, PixelBenderError, ShaderModel,
};

verus! {

/// Decoding depends on the bytes alone: equal buffers decode to equal programs, or fail with
/// equal errors.
pub proof fn lemma_decode_deterministic(d1: Seq<u8>, d2: Seq<u8>)
    requires
        d1 == d2,
    ensures
        decode_program(d1) == decode_program(d2),
{
}

/// Metadata before the first parameter belongs to the program; metadata between two
/// parameters belongs to the earlier one; a parameter with nothing after it gets none. Shown for
/// a buffer holding, in order, two metadata entries, a parameter, a metadata entry and a second
/// parameter.
pub proof fn lemma_metadata_association(
    d: Seq<u8>,
    m1: MetadataModel,
    m2: MetadataModel,
    a: ParamModel,
    m3: MetadataModel,
    b: ParamModel,
    p1: int,
    p2: int,
    p3: int,
    p4: int,
)
    requires
        0 < p1 < p2 < p3 < p4 < d.len(),
        instruction_at(d, 0) == Ok::<(InstrModel, int), PixelBenderError>((InstrModel::Meta(m1), p1)),
        instruction_at(d, p1) == Ok::<(InstrModel, int), PixelBenderError>((InstrModel::Meta(m2), p2)),
        instruction_at(d, p2) == Ok::<(InstrModel, int), PixelBenderError>((InstrModel::Param(a), p3)),
        instruction_at(d, p3) == Ok::<(InstrModel, int), PixelBenderError>((InstrModel::Meta(m3), p4)),
        instruction_at(d, p4) == Ok::<(InstrModel, int), PixelBenderError>(
            (InstrModel::Param(b), d.len() as int),
        ),
        a is Normal && !a->Normal_param_type.spec_is_matrix(),
        b is Normal && !b->Normal_param_type.spec_is_matrix(),
    ensures
        decode_program(d) is Ok,
        decode_program(d)->Ok_0.metadata == seq![m1, m2],
        decode_program(d)->Ok_0.params.len() == 2,
        decode_program(d)->Ok_0.params[0]->Normal_metadata == seq![m3],
        decode_program(d)->Ok_0.params[1]->Normal_metadata == Seq::<MetadataModel>::empty(),
{
    let st0 = DecodeState { shader: empty_shader(), pending: seq![] };
    let st1 = DecodeState { shader: empty_shader(), pending: seq![m1] };
    let st2 = DecodeState { shader: empty_shader(), pending: seq![m1, m2] };
    assert(seq![m1].push(m2) =~= seq![m1, m2]);
    assert(step_at(d, 0, st0) == Ok::<(DecodeState, int), PixelBenderError>((st1, p1)));
    assert(step_at(d, p1, st1) == Ok::<(DecodeState, int), PixelBenderError>((st2, p2)));
    let sh3 = ShaderModel { metadata: seq![m1, m2], params: seq![a], ..empty_shader() };
    let st3 = DecodeState { shader: sh3, pending: seq![] };
    assert(seq![].push(a) =~= seq![a]);
    assert(step_at(d, p2, st2) == Ok::<(DecodeState, int), PixelBenderError>((st3, p3)));
    let st4 = DecodeState { shader: sh3, pending: seq![m3] };
    assert(seq![].push(m3) =~= seq![m3]);
    assert(step_at(d, p3, st3) == Ok::<(DecodeState, int), PixelBenderError>((st4, p4)));
    let a2 = ParamModel::Normal {
        qualifier: a->Normal_qualifier,
        param_type: a->Normal_param_type,
        reg: a->Normal_reg,
        name: a->Normal_name,
        metadata: seq![m3],
    };
    let sh5 = ShaderModel { params: seq![a2, b], ..sh3 };
    let st5 = DecodeState { shader: sh5, pending: seq![] };
    assert(seq![a].update(0, a2).push(b) =~= seq![a2, b]);
    assert(step_at(d, p4, st4) == Ok::<(DecodeState, int), PixelBenderError>((st5, d.len() as int)));
    let b2 = ParamModel::Normal {
        qualifier: b->Normal_qualifier,
        param_type: b->Normal_param_type,
        reg: b->Normal_reg,
        name: b->Normal_name,
        metadata: seq![],
    };
    let sh6 = ShaderModel { params: seq![a2, b2], ..sh3 };
    assert(seq![a2, b].update(1, b2) =~= seq![a2, b2]);
    assert(decode_from(d, d.len() as int, st5) == Ok::<ShaderModel, PixelBenderError>(sh6));
    assert(decode_from(d, p4, st4) == decode_from(d, d.len() as int, st5));
    assert(decode_from(d, p3, st3) == decode_from(d, p4, st4));
    assert(decode_from(d, p2, st2) == decode_from(d, p3, st3));
    assert(decode_from(d, p1, st1) == decode_from(d, p2, st2));
    assert(decode_from(d, 0, st0) == decode_from(d, p1, st1));
}

/// A `Nop` whose first reserved field is not zero is rejected wherever it stands, and a buffer
/// that starts with one fails to decode; it never yields a `Nop` operation.
pub proof fn lemma_nop_reserved_rejected(d: Seq<u8>, s: int)
    requires
        fits(d, s, 5),
        d[s] == 0,
        le_u32_at(d, s + 1) != 0,
    ensures
        instruction_at(d, s) == Err::<(InstrModel, int), PixelBenderError>(
            PixelBenderError::MalformedReservedField { opcode: Opcode::Nop, offset: s as usize },
        ),
        s == 0 ==> decode_program(d) == Err::<ShaderModel, PixelBenderError>(
            PixelBenderError::MalformedReservedField { opcode: Opcode::Nop, offset: 0 },
        ),
{
}

/// A parameter declared with a matrix type makes the decode fail.
pub proof fn lemma_matrix_param_rejected(d: Seq<u8>)
    requires
        fits(d, 0, 3),
        d[0] == 0xA1,
        type_opcode_of(d[2]) matches Some(t) && t.spec_is_matrix(),
    ensures
        decode_program(d) is Err,
{
}

/// No parameter of the state has a matrix type.
pub open spec fn no_matrix_params(sh: ShaderModel) -> bool {
    forall|i: int|
        0 <= i < sh.params.len() && (#[trigger] sh.params[i]) is Normal
            ==> !sh.params[i]->Normal_param_type.spec_is_matrix()
}

proof fn lemma_flush_keeps_types(sh: ShaderModel, pending: Seq<MetadataModel>, offset: int)
    requires
        no_matrix_params(sh),
    ensures
        flush_metadata(sh, pending, offset) matches Ok(sh2) ==> no_matrix_params(sh2),
{
}

proof fn lemma_decode_from_no_matrix(d: Seq<u8>, p: int, st: DecodeState)
    requires
        no_matrix_params(st.shader),
    ensures
        decode_from(d, p, st) matches Ok(sh) ==> no_matrix_params(sh),
    decreases d.len() - p,
{
    lemma_flush_keeps_types(st.shader, st.pending, p);
    lemma_flush_keeps_types(st.shader, st.pending, d.len() as int);
    if 0 <= p < d.len() {
        match step_at(d, p, st) {
            Ok((st2, q)) => {
                assert(no_matrix_params(st2.shader)) by {
                    let (i, _) = instruction_at(d, p)->Ok_0;
                    if let InstrModel::Param(prm) = i {
                        let sh1 = flush_metadata(st.shader, st.pending, p)->Ok_0;
                        assert(forall|k: int|
                            0 <= k < sh1.params.len() ==> st2.shader.params[k] == sh1.params[k]);
                    }
                }
                if p < q <= d.len() {
                    lemma_decode_from_no_matrix(d, q, st2);
                }
            },
            Err(_) => {},
        }
    }
}

/// No decoded program has a parameter of matrix type.
pub proof fn lemma_no_matrix_param_decoded(d: Seq<u8>)
    ensures
        decode_program(d) matches Ok(sh) ==> no_matrix_params(sh),
{
    lemma_decode_from_no_matrix(d, 0, DecodeState { shader: empty_shader(), pending: seq![] });
}

} // verus!
