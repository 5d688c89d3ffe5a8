use pixel_bender::instructions::{read_instr, Instruction};
use pixel_bender::reader::{read_float, read_string, read_u16_le, read_u32_le, read_uint24};
use pixel_bender::registers::{read_dst_reg, read_src_reg};
use pixel_bender::shader::parse_shader;
use pixel_bender::types::{
    Opcode, Operation, PixelBenderError, PixelBenderMetadata, PixelBenderParam,
    PixelBenderParamQualifier, PixelBenderReg, PixelBenderRegChannel, PixelBenderRegKind,
    PixelBenderType, PixelBenderTypeOpcode,
};
use pixel_bender::values::read_value;

use PixelBenderRegChannel::{A, B, G, R};

fn reg(index: u32, channels: Vec<PixelBenderRegChannel>, kind: PixelBenderRegKind) -> PixelBenderReg {
    PixelBenderReg { index, channels, kind }
}

fn meta_int(key: &str, v: u8) -> Vec<u8> {
    let mut b = vec![0xA0, 0x08];
    b.extend_from_slice(key.as_bytes());
    b.extend_from_slice(&[0, v, 0]);
    b
}

fn param(qualifier: u8, tag: u8, reg: u16, mask: u8, name: &str) -> Vec<u8> {
    let mut b = vec![0xA1, qualifier, tag, (reg & 0xFF) as u8, (reg >> 8) as u8, mask];
    b.extend_from_slice(name.as_bytes());
    b.push(0);
    b
}

#[test]
fn string_decoding() {
    let mut pos = 0;
    assert_eq!(read_string(&[0x41, 0x42, 0x00], &mut pos), Ok("AB".to_string()));
    assert_eq!(pos, 3);
    let mut pos = 0;
    assert_eq!(read_string(&[0x41, 0x42], &mut pos), Err(PixelBenderError::Truncated { offset: 2 }));
}

#[test]
fn string_bytes_are_code_points() {
    let mut pos = 1;
    assert_eq!(read_string(&[9, 0xE9, 0x7F, 0x00, 5], &mut pos), Ok("\u{e9}\u{7f}".to_string()));
    assert_eq!(pos, 4);
}

#[test]
fn primitive_reads_little_endian() {
    let data = [0x01, 0x02, 0x03, 0x04, 0x05];
    let mut pos = 0;
    assert_eq!(read_u16_le(&data, &mut pos), Ok(0x0201));
    assert_eq!(read_uint24(&data, &mut pos), Ok(0x050403));
    assert_eq!(pos, 5);
    let mut pos = 1;
    assert_eq!(read_u32_le(&data, &mut pos), Ok(0x05040302));
    let mut pos = 2;
    assert_eq!(read_u32_le(&data, &mut pos), Err(PixelBenderError::Truncated { offset: 2 }));
    assert_eq!(pos, 2);
}

#[test]
fn float_read_big_endian() {
    let mut pos = 0;
    let bits = read_float(&[0x3F, 0x80, 0x00, 0x00], &mut pos).unwrap();
    assert_eq!(bits, 0x3F80_0000);
    assert_eq!(f32::from_bits(bits), 1.0f32);
}

#[test]
fn destination_register_law() {
    assert_eq!(read_dst_reg(0x8005, 0xA), Ok(reg(5, vec![R, B], PixelBenderRegKind::Int)));
    assert_eq!(read_dst_reg(0x7FFF, 0xF), Ok(reg(0x7FFF, vec![R, G, B, A], PixelBenderRegKind::Float)));
    assert_eq!(read_dst_reg(0x0001, 0x0), Ok(reg(1, vec![], PixelBenderRegKind::Float)));
    assert_eq!(read_dst_reg(0xFFFF, 0x1), Ok(reg(0x7FFF, vec![A], PixelBenderRegKind::Int)));
}

#[test]
fn source_register_law() {
    assert_eq!(read_src_reg(0x00E4_0003, 4), Ok(reg(3, vec![A, B, G, R], PixelBenderRegKind::Float)));
    assert_eq!(read_src_reg(0x001B_8002, 4), Ok(reg(2, vec![R, G, B, A], PixelBenderRegKind::Int)));
    assert_eq!(read_src_reg(0x00C0_0001, 1), Ok(reg(1, vec![A], PixelBenderRegKind::Float)));
    assert_eq!(read_src_reg(0x0000_0000, 0), Ok(reg(0, vec![], PixelBenderRegKind::Float)));
}

#[test]
fn value_shapes() {
    let mut pos = 0;
    let data = [0x3F, 0x80, 0, 0, 0x40, 0, 0, 0];
    assert_eq!(
        read_value(&data, &mut pos, PixelBenderTypeOpcode::TFloat2),
        Ok(PixelBenderType::TFloat2(0x3F80_0000, 0x4000_0000))
    );
    let mut pos = 0;
    assert_eq!(
        read_value(&[0xFF, 0xFF, 0x02, 0x00], &mut pos, PixelBenderTypeOpcode::TInt2),
        Ok(PixelBenderType::TInt2(-1, 2))
    );
    let mut pos = 0;
    let matrix: Vec<u8> = (0..36u8).collect();
    let expected: Vec<u32> = (0..9u32)
        .map(|i| u32::from_be_bytes([4 * i as u8, 4 * i as u8 + 1, 4 * i as u8 + 2, 4 * i as u8 + 3]))
        .collect();
    assert_eq!(
        read_value(&matrix, &mut pos, PixelBenderTypeOpcode::TFloat3x3),
        Ok(PixelBenderType::TFloat3x3(expected.try_into().unwrap()))
    );
    assert_eq!(pos, 36);
    let mut pos = 0;
    assert_eq!(
        read_value(&[0, 0, 0, 0, 0, 0], &mut pos, PixelBenderTypeOpcode::TFloat2),
        Err(PixelBenderError::Truncated { offset: 4 })
    );
    let mut pos = 0;
    assert_eq!(
        read_value(&[0x68, 0x69, 0], &mut pos, PixelBenderTypeOpcode::TString),
        Ok(PixelBenderType::TString("hi".to_string()))
    );
}

#[test]
fn type_opcode_table() {
    assert_eq!(PixelBenderTypeOpcode::from_u8(0x1), Some(PixelBenderTypeOpcode::TFloat));
    assert_eq!(PixelBenderTypeOpcode::from_u8(0x7), Some(PixelBenderTypeOpcode::TFloat4x4));
    assert_eq!(PixelBenderTypeOpcode::from_u8(0xC), Some(PixelBenderTypeOpcode::TString));
    assert_eq!(PixelBenderTypeOpcode::from_u8(0x0), None);
    assert_eq!(PixelBenderTypeOpcode::from_u8(0xD), None);
    assert_eq!(PixelBenderTypeOpcode::TFloat3x3.name(), "matrix3x3");
    assert_eq!(PixelBenderTypeOpcode::TInt4.name(), "int4");
    assert!(PixelBenderTypeOpcode::TFloat2x2.is_matrix());
    assert!(!PixelBenderTypeOpcode::TFloat4.is_matrix());
    assert_eq!(PixelBenderParamQualifier::from_u8(1), Some(PixelBenderParamQualifier::Input));
    assert_eq!(PixelBenderParamQualifier::from_u8(2), Some(PixelBenderParamQualifier::Output));
    assert_eq!(PixelBenderParamQualifier::from_u8(3), None);
}

#[test]
fn opcode_table() {
    assert_eq!(Opcode::from_u8(0x00), Some(Opcode::Nop));
    assert_eq!(Opcode::from_u8(0x1D), Some(Opcode::Mov));
    assert_eq!(Opcode::from_u8(0x3E), Some(Opcode::BoolAll));
    assert_eq!(Opcode::from_u8(0x3F), None);
    assert_eq!(Opcode::from_u8(0xA5), Some(Opcode::Version));
    assert_eq!(Opcode::from_u8(0xA6), None);
}

#[test]
fn end_to_end_scenario() {
    let mut data = vec![0xA5, 1, 0, 0, 0];
    data.extend_from_slice(&[0xA4, 4, 0]);
    data.extend_from_slice(b"Test");
    data.extend_from_slice(&param(1, 0x1, 0, 0xF, "x"));
    data.extend_from_slice(&[0, 0, 0, 0, 0, 0, 0]);
    let shader = parse_shader(&data).unwrap();
    assert_eq!(shader.version, 1);
    assert_eq!(shader.name, "Test");
    assert_eq!(shader.params.len(), 1);
    assert_eq!(
        shader.params[0],
        PixelBenderParam::Normal {
            qualifier: PixelBenderParamQualifier::Input,
            param_type: PixelBenderTypeOpcode::TFloat,
            reg: reg(0, vec![R, G, B, A], PixelBenderRegKind::Float),
            name: "x".to_string(),
            metadata: vec![],
        }
    );
    assert_eq!(shader.operations, vec![Operation::Nop]);
    assert!(shader.metadata.is_empty());
}

#[test]
fn empty_buffer_decodes_to_empty_program() {
    let shader = parse_shader(&[]).unwrap();
    assert_eq!(shader.name, "");
    assert_eq!(shader.version, 0);
    assert!(shader.params.is_empty() && shader.metadata.is_empty() && shader.operations.is_empty());
}

#[test]
fn metadata_association() {
    let mut data = meta_int("k1", 1);
    data.extend_from_slice(&meta_int("k2", 2));
    data.extend_from_slice(&param(1, 0x1, 0, 0xF, "p1"));
    data.extend_from_slice(&meta_int("k3", 3));
    data.extend_from_slice(&param(2, 0x4, 1, 0xF, "p2"));
    let shader = parse_shader(&data).unwrap();
    let m = |k: &str, v: i16| PixelBenderMetadata { key: k.to_string(), value: PixelBenderType::TInt(v) };
    assert_eq!(shader.metadata, vec![m("k1", 1), m("k2", 2)]);
    match &shader.params[0] {
        PixelBenderParam::Normal { metadata, name, .. } => {
            assert_eq!(name, "p1");
            assert_eq!(metadata, &vec![m("k3", 3)]);
        }
        other => panic!("unexpected {other:?}"),
    }
    match &shader.params[1] {
        PixelBenderParam::Normal { metadata, qualifier, .. } => {
            assert_eq!(*qualifier, PixelBenderParamQualifier::Output);
            assert!(metadata.is_empty());
        }
        other => panic!("unexpected {other:?}"),
    }
}

#[test]
fn metadata_after_last_param_is_flushed() {
    let mut data = param(1, 0x8, 0x8000, 0x8, "i");
    data.extend_from_slice(&meta_int("min", 7));
    let shader = parse_shader(&data).unwrap();
    match &shader.params[0] {
        PixelBenderParam::Normal { metadata, reg: r, .. } => {
            assert_eq!(r, &reg(0, vec![R], PixelBenderRegKind::Int));
            assert_eq!(metadata.len(), 1);
            assert_eq!(metadata[0].key, "min");
        }
        other => panic!("unexpected {other:?}"),
    }
}

#[test]
fn nop_reserved_field_rejected() {
    assert_eq!(
        parse_shader(&[0, 1, 0, 0, 0, 0, 0]),
        Err(PixelBenderError::MalformedReservedField { opcode: Opcode::Nop, offset: 0 })
    );
    assert_eq!(
        parse_shader(&[0, 0, 0, 0, 0, 0, 0, 0, 0, 0, 0, 0, 2, 0]),
        Err(PixelBenderError::MalformedReservedField { opcode: Opcode::Nop, offset: 7 })
    );
}

#[test]
fn matrix_param_rejected() {
    assert_eq!(
        parse_shader(&param(1, 0x5, 0, 0xF, "m")),
        Err(PixelBenderError::UnsupportedConstruct { opcode: Opcode::PBJParam, offset: 0 })
    );
}

#[test]
fn unknown_opcode_rejected() {
    assert_eq!(
        parse_shader(&[0x40]),
        Err(PixelBenderError::UnknownOpcode { byte: 0x40, offset: 0 })
    );
}

#[test]
fn unknown_type_tag_rejected() {
    assert_eq!(
        parse_shader(&param(1, 0x0D, 0, 0xF, "x")),
        Err(PixelBenderError::UnknownTypeTag { byte: 0x0D, opcode: Opcode::PBJParam, offset: 0 })
    );
    assert_eq!(
        parse_shader(&[0xA2, 0x20, b'k', 0, 1, 2]),
        Err(PixelBenderError::UnknownTypeTag { byte: 0x20, opcode: Opcode::PBJMeta2, offset: 0 })
    );
}

#[test]
fn unknown_qualifier_rejected() {
    assert_eq!(
        parse_shader(&param(3, 0x1, 0, 0xF, "x")),
        Err(PixelBenderError::UnknownQualifier { byte: 3, offset: 0 })
    );
}

#[test]
fn metadata_on_texture_rejected() {
    let mut data = vec![0xA3, 0, 4, b't', 0];
    data.extend_from_slice(&meta_int("k", 1));
    assert_eq!(
        parse_shader(&data),
        Err(PixelBenderError::MetadataTargetInvalid { offset: data.len() })
    );
    let shader = parse_shader(&[0xA3, 2, 3, b't', 0]).unwrap();
    assert_eq!(
        shader.params,
        vec![PixelBenderParam::Texture { index: 2, channels: 3, name: "t".to_string() }]
    );
}

#[test]
fn invalid_utf8_name_rejected() {
    assert_eq!(parse_shader(&[0xA4, 1, 0, 0xFF]), Err(PixelBenderError::InvalidUtf8 { offset: 0 }));
    let shader = parse_shader(&[0xA4, 2, 0, 0xC3, 0xA9]).unwrap();
    assert_eq!(shader.name, "\u{e9}");
}

#[test]
fn truncated_instruction_rejected() {
    assert_eq!(parse_shader(&[0xA5, 1, 0]), Err(PixelBenderError::Truncated { offset: 1 }));
    assert_eq!(parse_shader(&[0xA4, 5, 0, b'a']), Err(PixelBenderError::Truncated { offset: 3 }));
}

#[test]
fn version_is_signed() {
    assert_eq!(parse_shader(&[0xA5, 0xFE, 0xFF, 0xFF, 0xFF]).unwrap().version, -2);
}

#[test]
fn control_flow_instructions() {
    let data = [
        0x34, 0, 0, 0, 0x05, 0x00, 0x40, 0, //
        0x35, 0, 0, 0, 0, 0, 0, 0, //
        0x36, 0, 0, 0, 0, 0, 0, 0,
    ];
    let shader = parse_shader(&data).unwrap();
    assert_eq!(
        shader.operations,
        vec![
            Operation::If { src: reg(5, vec![G], PixelBenderRegKind::Float) },
            Operation::Else,
            Operation::EndIf
        ]
    );
    assert_eq!(
        parse_shader(&[0x35, 0, 0, 0, 0, 0, 1, 0]),
        Err(PixelBenderError::MalformedReservedField { opcode: Opcode::Else, offset: 0 })
    );
    assert_eq!(
        parse_shader(&[0x34, 0, 0, 0, 0, 0, 0, 9]),
        Err(PixelBenderError::MalformedReservedField { opcode: Opcode::If, offset: 0 })
    );
}

#[test]
fn load_int_or_float() {
    let data = [0x32, 0x02, 0x00, 0x80, 0x3F, 0x80, 0x00, 0x00];
    assert_eq!(
        parse_shader(&data).unwrap().operations,
        vec![Operation::LoadFloat { dst: reg(2, vec![R], PixelBenderRegKind::Float), val: 0x3F80_0000 }]
    );
    let data = [0x32, 0x02, 0x80, 0x30, 0xFF, 0xFF, 0xFF, 0xFF];
    assert_eq!(
        parse_shader(&data).unwrap().operations,
        vec![Operation::LoadInt { dst: reg(2, vec![B, A], PixelBenderRegKind::Int), val: -1 }]
    );
    assert_eq!(
        parse_shader(&[0x32, 0x02, 0x00, 0x81, 0, 0, 0, 0]),
        Err(PixelBenderError::MalformedReservedField { opcode: Opcode::LoadIntOrFloat, offset: 0 })
    );
}

#[test]
fn sample_instructions() {
    let data = [0x30, 0x01, 0x00, 0xF0, 0x00, 0x00, 0x1B, 0x03];
    assert_eq!(
        parse_shader(&data).unwrap().operations,
        vec![Operation::SampleNearest {
            dst: reg(1, vec![R, G, B, A], PixelBenderRegKind::Float),
            src: reg(0, vec![R, G], PixelBenderRegKind::Float),
            tf: 3,
        }]
    );
    let data = [0x31, 0x01, 0x00, 0xF0, 0x00, 0x00, 0x1B, 0x00];
    assert!(matches!(
        parse_shader(&data).unwrap().operations[0],
        Operation::SampleLinear { tf: 0, .. }
    ));
}

#[test]
fn arithmetic_instructions() {
    let data = [0x01, 0x03, 0x00, 0xC1, 0x04, 0x00, 0xE4, 0x00];
    assert_eq!(
        parse_shader(&data).unwrap().operations,
        vec![Operation::Normal {
            opcode: Opcode::Add,
            dst: reg(3, vec![R, G], PixelBenderRegKind::Float),
            src: reg(4, vec![A, B], PixelBenderRegKind::Float),
        }]
    );
    assert_eq!(
        parse_shader(&[0x03, 0, 0, 0x14, 0, 0, 0, 0]),
        Err(PixelBenderError::UnsupportedConstruct { opcode: Opcode::Mul, offset: 0 })
    );
    assert_eq!(
        parse_shader(&[0x03, 0, 0, 0x10, 0, 0, 0, 1]),
        Err(PixelBenderError::MalformedReservedField { opcode: Opcode::Mul, offset: 0 })
    );
}

#[test]
fn decoding_is_deterministic() {
    let mut data = meta_int("k", 4);
    data.extend_from_slice(&param(1, 0x3, 2, 0xE, "v"));
    data.extend_from_slice(&[0x1D, 0x01, 0x00, 0xE2, 0x02, 0x00, 0x90, 0x00]);
    assert_eq!(parse_shader(&data), parse_shader(&data));
}

#[test]
fn single_instruction_read() {
    let data = [0x00, 0xA5, 7, 0, 0, 0];
    let mut pos = 1;
    match read_instr(&data, &mut pos) {
        Ok(Instruction::Version(v)) => assert_eq!(v, 7),
        _ => panic!("expected a version"),
    }
    assert_eq!(pos, 6);
}
