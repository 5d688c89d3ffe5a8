use vstd::prelude::*;

verus! {

/// The name of a special parameter that is filled in with the coordinates of the pixel being
/// processed.
pub const OUT_COORD_NAME: &'static str = "_OutCoord";

/// The type tag of a parameter or metadata value.
#[derive(Debug, PartialEq, Eq, Structural, Clone, Copy)]
pub enum PixelBenderTypeOpcode {
    TFloat,
    TFloat2,
    TFloat3,
    TFloat4,
    TFloat2x2,
    TFloat3x3,
    TFloat4x4,
    TInt,
    TInt2,
    TInt3,
    TInt4,
    TString,
}

/// The type tag that a byte names on the wire.
pub open spec fn type_opcode_of(b: u8) -> Option<PixelBenderTypeOpcode> {
    match b {
        0x1 => Some(PixelBenderTypeOpcode::TFloat),
        0x2 => Some(PixelBenderTypeOpcode::TFloat2),
        0x3 => Some(PixelBenderTypeOpcode::TFloat3),
        0x4 => Some(PixelBenderTypeOpcode::TFloat4),
        0x5 => Some(PixelBenderTypeOpcode::TFloat2x2),
        0x6 => Some(PixelBenderTypeOpcode::TFloat3x3),
        0x7 => Some(PixelBenderTypeOpcode::TFloat4x4),
        0x8 => Some(PixelBenderTypeOpcode::TInt),
        0x9 => Some(PixelBenderTypeOpcode::TInt2),
        0xA => Some(PixelBenderTypeOpcode::TInt3),
        0xB => Some(PixelBenderTypeOpcode::TInt4),
        0xC => Some(PixelBenderTypeOpcode::TString),
        _ => None,
    }
}

impl PixelBenderTypeOpcode {
    /// Number of 32-bit floats in a literal of a float type, 0 for the others.
    pub open spec fn float_count(self) -> nat {
        match self {
            PixelBenderTypeOpcode::TFloat => 1,
            PixelBenderTypeOpcode::TFloat2 => 2,
            PixelBenderTypeOpcode::TFloat3 => 3,
            PixelBenderTypeOpcode::TFloat4 => 4,
            PixelBenderTypeOpcode::TFloat2x2 => 4,
            PixelBenderTypeOpcode::TFloat3x3 => 9,
            PixelBenderTypeOpcode::TFloat4x4 => 16,
            _ => 0,
        }
    }

    /// Number of 16-bit integers in a literal of an int type, 0 for the others.
    pub open spec fn int_count(self) -> nat {
        match self {
            PixelBenderTypeOpcode::TInt => 1,
            PixelBenderTypeOpcode::TInt2 => 2,
            PixelBenderTypeOpcode::TInt3 => 3,
            PixelBenderTypeOpcode::TInt4 => 4,
            _ => 0,
        }
    }

    pub open spec fn spec_is_matrix(self) -> bool {
        self == PixelBenderTypeOpcode::TFloat2x2 || self == PixelBenderTypeOpcode::TFloat3x3
            || self == PixelBenderTypeOpcode::TFloat4x4
    }

    pub open spec fn spec_name(self) -> Seq<char> {
        match self {
            PixelBenderTypeOpcode::TFloat => "float"@,
            PixelBenderTypeOpcode::TFloat2 => "float2"@,
            PixelBenderTypeOpcode::TFloat3 => "float3"@,
            PixelBenderTypeOpcode::TFloat4 => "float4"@,
            PixelBenderTypeOpcode::TFloat2x2 => "matrix2x2"@,
            PixelBenderTypeOpcode::TFloat3x3 => "matrix3x3"@,
            PixelBenderTypeOpcode::TFloat4x4 => "matrix4x4"@,
            PixelBenderTypeOpcode::TInt => "int"@,
            PixelBenderTypeOpcode::TInt2 => "int2"@,
            PixelBenderTypeOpcode::TInt3 => "int3"@,
            PixelBenderTypeOpcode::TInt4 => "int4"@,
            PixelBenderTypeOpcode::TString => "string"@,
        }
    }

    /// A matrix type, which a parameter cannot have.
    pub fn is_matrix(&self) -> (r: bool)
        ensures
            r == self.spec_is_matrix(),
    {
        match self {
            PixelBenderTypeOpcode::TFloat2x2 => true,
            PixelBenderTypeOpcode::TFloat3x3 => true,
            PixelBenderTypeOpcode::TFloat4x4 => true,
            _ => false,
        }
    }

    /// Decodes a type tag byte.
    pub fn from_u8(b: u8) -> (r: Option<PixelBenderTypeOpcode>)
        ensures
            r == type_opcode_of(b),
    {
        match b {
            0x1 => Some(PixelBenderTypeOpcode::TFloat),
            0x2 => Some(PixelBenderTypeOpcode::TFloat2),
            0x3 => Some(PixelBenderTypeOpcode::TFloat3),
            0x4 => Some(PixelBenderTypeOpcode::TFloat4),
            0x5 => Some(PixelBenderTypeOpcode::TFloat2x2),
            0x6 => Some(PixelBenderTypeOpcode::TFloat3x3),
            0x7 => Some(PixelBenderTypeOpcode::TFloat4x4),
            0x8 => Some(PixelBenderTypeOpcode::TInt),
            0x9 => Some(PixelBenderTypeOpcode::TInt2),
            0xA => Some(PixelBenderTypeOpcode::TInt3),
            0xB => Some(PixelBenderTypeOpcode::TInt4),
            0xC => Some(PixelBenderTypeOpcode::TString),
            _ => None,
        }
    }

    /// The name of the type as written in shader source.
    pub fn name(&self) -> (r: &'static str)
        ensures
            r@ == self.spec_name(),
    {
        let r = match self {
            PixelBenderTypeOpcode::TFloat => "float",
            PixelBenderTypeOpcode::TFloat2 => "float2",
            PixelBenderTypeOpcode::TFloat3 => "float3",
            PixelBenderTypeOpcode::TFloat4 => "float4",
            PixelBenderTypeOpcode::TFloat2x2 => "matrix2x2",
            PixelBenderTypeOpcode::TFloat3x3 => "matrix3x3",
            PixelBenderTypeOpcode::TFloat4x4 => "matrix4x4",
            PixelBenderTypeOpcode::TInt => "int",
            PixelBenderTypeOpcode::TInt2 => "int2",
            PixelBenderTypeOpcode::TInt3 => "int3",
            PixelBenderTypeOpcode::TInt4 => "int4",
            PixelBenderTypeOpcode::TString => "string",
        };
        proof {
            reveal_strlit("float");
            reveal_strlit("float2");
            reveal_strlit("float3");
            reveal_strlit("float4");
            reveal_strlit("matrix2x2");
            reveal_strlit("matrix3x3");
            reveal_strlit("matrix4x4");
            reveal_strlit("int");
            reveal_strlit("int2");
            reveal_strlit("int3");
            reveal_strlit("int4");
            reveal_strlit("string");
        }
        r
    }
}

/// A literal value. Floats are held as the bits of their IEEE 754 single-precision encoding.
#[derive(Debug, Clone, PartialEq)]
pub enum PixelBenderType {
    TFloat(u32),
    TFloat2(u32, u32),
    TFloat3(u32, u32, u32),
    TFloat4(u32, u32, u32, u32),
    TFloat2x2([u32; 4]),
    TFloat3x3([u32; 9]),
    TFloat4x4([u32; 16]),
    TInt(i16),
    TInt2(i16, i16),
    TInt3(i16, i16, i16),
    TInt4(i16, i16, i16, i16),
    TString(String),
}

/// The meaning of a literal: its type tag and its components.
pub ghost enum ValueModel {
    Floats(PixelBenderTypeOpcode, Seq<u32>),
    Ints(PixelBenderTypeOpcode, Seq<i16>),
    Text(Seq<char>),
}

impl View for PixelBenderType {
    type V = ValueModel;

    open spec fn view(&self) -> ValueModel {
        match self {
            PixelBenderType::TFloat(a) => ValueModel::Floats(PixelBenderTypeOpcode::TFloat, seq![*a]),
            PixelBenderType::TFloat2(a, b) => ValueModel::Floats(
                PixelBenderTypeOpcode::TFloat2,
                seq![*a, *b],
            ),
            PixelBenderType::TFloat3(a, b, c) => ValueModel::Floats(
                PixelBenderTypeOpcode::TFloat3,
                seq![*a, *b, *c],
            ),
            PixelBenderType::TFloat4(a, b, c, d) => ValueModel::Floats(
                PixelBenderTypeOpcode::TFloat4,
                seq![*a, *b, *c, *d],
            ),
            PixelBenderType::TFloat2x2(m) => ValueModel::Floats(PixelBenderTypeOpcode::TFloat2x2, m@),
            PixelBenderType::TFloat3x3(m) => ValueModel::Floats(PixelBenderTypeOpcode::TFloat3x3, m@),
            PixelBenderType::TFloat4x4(m) => ValueModel::Floats(PixelBenderTypeOpcode::TFloat4x4, m@),
            PixelBenderType::TInt(a) => ValueModel::Ints(PixelBenderTypeOpcode::TInt, seq![*a]),
            PixelBenderType::TInt2(a, b) => ValueModel::Ints(PixelBenderTypeOpcode::TInt2, seq![*a, *b]),
            PixelBenderType::TInt3(a, b, c) => ValueModel::Ints(
                PixelBenderTypeOpcode::TInt3,
                seq![*a, *b, *c],
            ),
            PixelBenderType::TInt4(a, b, c, d) => ValueModel::Ints(
                PixelBenderTypeOpcode::TInt4,
                seq![*a, *b, *c, *d],
            ),
            PixelBenderType::TString(s) => ValueModel::Text(s@),
        }
    }
}

#[derive(Debug, PartialEq, Eq, Structural, Copy, Clone)]
pub enum PixelBenderRegChannel {
    R,
    G,
    B,
    A,
}

/// The channel that a 2-bit code selects, in R, G, B, A order.
pub open spec fn channel_of(code: u32) -> PixelBenderRegChannel {
    if code == 0 {
        PixelBenderRegChannel::R
    } else if code == 1 {
        PixelBenderRegChannel::G
    } else if code == 2 {
        PixelBenderRegChannel::B
    } else {
        PixelBenderRegChannel::A
    }
}

#[derive(Debug, PartialEq, Eq, Structural, Clone, Copy)]
pub enum PixelBenderRegKind {
    Float,
    Int,
}

/// A register operand: a numbered float or int slot and the channels it uses.
#[derive(Debug, PartialEq, Clone)]
pub struct PixelBenderReg {
    pub index: u32,
    pub channels: Vec<PixelBenderRegChannel>,
    pub kind: PixelBenderRegKind,
}

pub ghost struct RegModel {
    pub index: u32,
    pub channels: Seq<PixelBenderRegChannel>,
    pub kind: PixelBenderRegKind,
}

impl RegModel {
    /// A register index has 15 bits and a register at most four channels.
    pub open spec fn wf(self) -> bool {
        self.index <= 0x7FFF && self.channels.len() <= 4
    }
}

impl View for PixelBenderReg {
    type V = RegModel;

    open spec fn view(&self) -> RegModel {
        RegModel { index: self.index, channels: self.channels@, kind: self.kind }
    }
}

#[derive(Debug, PartialEq, Eq, Structural, Clone, Copy)]
pub enum PixelBenderParamQualifier {
    Input,
    Output,
}

/// The qualifier that a byte names on the wire.
pub open spec fn qualifier_of(b: u8) -> Option<PixelBenderParamQualifier> {
    if b == 1 {
        Some(PixelBenderParamQualifier::Input)
    } else if b == 2 {
        Some(PixelBenderParamQualifier::Output)
    } else {
        None
    }
}

impl PixelBenderParamQualifier {
    /// Decodes a qualifier byte.
    pub fn from_u8(b: u8) -> (r: Option<PixelBenderParamQualifier>)
        ensures
            r == qualifier_of(b),
    {
        if b == 1 {
            Some(PixelBenderParamQualifier::Input)
        } else if b == 2 {
            Some(PixelBenderParamQualifier::Output)
        } else {
            None
        }
    }
}

/// An instruction opcode.
#[derive(Debug, PartialEq, Eq, Structural, Clone, Copy)]
pub enum Opcode {
    Nop,
    Add,
    Sub,
    Mul,
    Rcp,
    Div,
    Atan2,
    Pow,
    Mod,
    Min,
    Max,
    Step,
    Sin,
    Cos,
    Tan,
    Asin,
    Acos,
    Atan,
    Exp,
    Exp2,
    Log,
    Log2,
    Sqrt,
    RSqrt,
    Abs,
    Sign,
    Floor,
    Ceil,
    Fract,
    Mov,
    FloatToInt,
    IntToFloat,
    MatMatMul,
    VecMatMul,
    MatVecMul,
    Normalize,
    Length,
    Distance,
    DotProduct,
    CrossProduct,
    Equal,
    NotEqual,
    LessThan,
    LessThanEqual,
    LogicalNot,
    LogicalAnd,
    LogicalOr,
    LogicalXor,
    SampleNearest,
    SampleLinear,
    LoadIntOrFloat,
    Loop,
    If,
    Else,
    EndIf,
    FloatToBool,
    BoolToFloat,
    IntToBool,
    BoolToInt,
    VectorEqual,
    VectorNotEqual,
    BoolAny,
    BoolAll,
    PBJMeta1,
    PBJParam,
    PBJMeta2,
    PBJParamTexture,
    Name,
    Version,
}

/// The opcode that a byte names on the wire.
pub open spec fn opcode_of(b: u8) -> Option<Opcode> {
    match b {
        0x0 => Some(Opcode::Nop),
        0x1 => Some(Opcode::Add),
        0x2 => Some(Opcode::Sub),
        0x3 => Some(Opcode::Mul),
        0x4 => Some(Opcode::Rcp),
        0x5 => Some(Opcode::Div),
        0x6 => Some(Opcode::Atan2),
        0x7 => Some(Opcode::Pow),
        0x8 => Some(Opcode::Mod),
        0x9 => Some(Opcode::Min),
        0xA => Some(Opcode::Max),
        0xB => Some(Opcode::Step),
        0xC => Some(Opcode::Sin),
        0xD => Some(Opcode::Cos),
        0xE => Some(Opcode::Tan),
        0xF => Some(Opcode::Asin),
        0x10 => Some(Opcode::Acos),
        0x11 => Some(Opcode::Atan),
        0x12 => Some(Opcode::Exp),
        0x13 => Some(Opcode::Exp2),
        0x14 => Some(Opcode::Log),
        0x15 => Some(Opcode::Log2),
        0x16 => Some(Opcode::Sqrt),
        0x17 => Some(Opcode::RSqrt),
        0x18 => Some(Opcode::Abs),
        0x19 => Some(Opcode::Sign),
        0x1A => Some(Opcode::Floor),
        0x1B => Some(Opcode::Ceil),
        0x1C => Some(Opcode::Fract),
        0x1D => Some(Opcode::Mov),
        0x1E => Some(Opcode::FloatToInt),
        0x1F => Some(Opcode::IntToFloat),
        0x20 => Some(Opcode::MatMatMul),
        0x21 => Some(Opcode::VecMatMul),
        0x22 => Some(Opcode::MatVecMul),
        0x23 => Some(Opcode::Normalize),
        0x24 => Some(Opcode::Length),
        0x25 => Some(Opcode::Distance),
        0x26 => Some(Opcode::DotProduct),
        0x27 => Some(Opcode::CrossProduct),
        0x28 => Some(Opcode::Equal),
        0x29 => Some(Opcode::NotEqual),
        0x2A => Some(Opcode::LessThan),
        0x2B => Some(Opcode::LessThanEqual),
        0x2C => Some(Opcode::LogicalNot),
        0x2D => Some(Opcode::LogicalAnd),
        0x2E => Some(Opcode::LogicalOr),
        0x2F => Some(Opcode::LogicalXor),
        0x30 => Some(Opcode::SampleNearest),
        0x31 => Some(Opcode::SampleLinear),
        0x32 => Some(Opcode::LoadIntOrFloat),
        0x33 => Some(Opcode::Loop),
        0x34 => Some(Opcode::If),
        0x35 => Some(Opcode::Else),
        0x36 => Some(Opcode::EndIf),
        0x37 => Some(Opcode::FloatToBool),
        0x38 => Some(Opcode::BoolToFloat),
        0x39 => Some(Opcode::IntToBool),
        0x3A => Some(Opcode::BoolToInt),
        0x3B => Some(Opcode::VectorEqual),
        0x3C => Some(Opcode::VectorNotEqual),
        0x3D => Some(Opcode::BoolAny),
        0x3E => Some(Opcode::BoolAll),
        0xA0 => Some(Opcode::PBJMeta1),
        0xA1 => Some(Opcode::PBJParam),
        0xA2 => Some(Opcode::PBJMeta2),
        0xA3 => Some(Opcode::PBJParamTexture),
        0xA4 => Some(Opcode::Name),
        0xA5 => Some(Opcode::Version),
        _ => None,
    }
}

impl Opcode {
    /// Decodes an opcode byte.
    pub fn from_u8(b: u8) -> (r: Option<Opcode>)
        ensures
            r == opcode_of(b),
    {
        match b {
            0x0 => Some(Opcode::Nop),
            0x1 => Some(Opcode::Add),
            0x2 => Some(Opcode::Sub),
            0x3 => Some(Opcode::Mul),
            0x4 => Some(Opcode::Rcp),
            0x5 => Some(Opcode::Div),
            0x6 => Some(Opcode::Atan2),
            0x7 => Some(Opcode::Pow),
            0x8 => Some(Opcode::Mod),
            0x9 => Some(Opcode::Min),
            0xA => Some(Opcode::Max),
            0xB => Some(Opcode::Step),
            0xC => Some(Opcode::Sin),
            0xD => Some(Opcode::Cos),
            0xE => Some(Opcode::Tan),
            0xF => Some(Opcode::Asin),
            0x10 => Some(Opcode::Acos),
            0x11 => Some(Opcode::Atan),
            0x12 => Some(Opcode::Exp),
            0x13 => Some(Opcode::Exp2),
            0x14 => Some(Opcode::Log),
            0x15 => Some(Opcode::Log2),
            0x16 => Some(Opcode::Sqrt),
            0x17 => Some(Opcode::RSqrt),
            0x18 => Some(Opcode::Abs),
            0x19 => Some(Opcode::Sign),
            0x1A => Some(Opcode::Floor),
            0x1B => Some(Opcode::Ceil),
            0x1C => Some(Opcode::Fract),
            0x1D => Some(Opcode::Mov),
            0x1E => Some(Opcode::FloatToInt),
            0x1F => Some(Opcode::IntToFloat),
            0x20 => Some(Opcode::MatMatMul),
            0x21 => Some(Opcode::VecMatMul),
            0x22 => Some(Opcode::MatVecMul),
            0x23 => Some(Opcode::Normalize),
            0x24 => Some(Opcode::Length),
            0x25 => Some(Opcode::Distance),
            0x26 => Some(Opcode::DotProduct),
            0x27 => Some(Opcode::CrossProduct),
            0x28 => Some(Opcode::Equal),
            0x29 => Some(Opcode::NotEqual),
            0x2A => Some(Opcode::LessThan),
            0x2B => Some(Opcode::LessThanEqual),
            0x2C => Some(Opcode::LogicalNot),
            0x2D => Some(Opcode::LogicalAnd),
            0x2E => Some(Opcode::LogicalOr),
            0x2F => Some(Opcode::LogicalXor),
            0x30 => Some(Opcode::SampleNearest),
            0x31 => Some(Opcode::SampleLinear),
            0x32 => Some(Opcode::LoadIntOrFloat),
            0x33 => Some(Opcode::Loop),
            0x34 => Some(Opcode::If),
            0x35 => Some(Opcode::Else),
            0x36 => Some(Opcode::EndIf),
            0x37 => Some(Opcode::FloatToBool),
            0x38 => Some(Opcode::BoolToFloat),
            0x39 => Some(Opcode::IntToBool),
            0x3A => Some(Opcode::BoolToInt),
            0x3B => Some(Opcode::VectorEqual),
            0x3C => Some(Opcode::VectorNotEqual),
            0x3D => Some(Opcode::BoolAny),
            0x3E => Some(Opcode::BoolAll),
            0xA0 => Some(Opcode::PBJMeta1),
            0xA1 => Some(Opcode::PBJParam),
            0xA2 => Some(Opcode::PBJMeta2),
            0xA3 => Some(Opcode::PBJParamTexture),
            0xA4 => Some(Opcode::Name),
            0xA5 => Some(Opcode::Version),
            _ => None,
        }
    }
}


/// One decoded instruction of the program body. `LoadFloat` holds the bits of an IEEE 754
/// single-precision float.
#[derive(Debug, PartialEq, Clone)]
pub enum Operation {
    Nop,
    Normal { opcode: Opcode, dst: PixelBenderReg, src: PixelBenderReg },
    LoadInt { dst: PixelBenderReg, val: i32 },
    LoadFloat { dst: PixelBenderReg, val: u32 },
    If { src: PixelBenderReg },
    SampleNearest { dst: PixelBenderReg, src: PixelBenderReg, tf: u8 },
    SampleLinear { dst: PixelBenderReg, src: PixelBenderReg, tf: u8 },
    Else,
    EndIf,
}

pub ghost enum OperationModel {
    Nop,
    Normal { opcode: Opcode, dst: RegModel, src: RegModel },
    LoadInt { dst: RegModel, val: i32 },
    LoadFloat { dst: RegModel, val: u32 },
    If { src: RegModel },
    SampleNearest { dst: RegModel, src: RegModel, tf: u8 },
    SampleLinear { dst: RegModel, src: RegModel, tf: u8 },
    Else,
    EndIf,
}

impl View for Operation {
    type V = OperationModel;

    open spec fn view(&self) -> OperationModel {
        match self {
            Operation::Nop => OperationModel::Nop,
            Operation::Normal { opcode, dst, src } => OperationModel::Normal {
                opcode: *opcode,
                dst: dst@,
                src: src@,
            },
            Operation::LoadInt { dst, val } => OperationModel::LoadInt { dst: dst@, val: *val },
            Operation::LoadFloat { dst, val } => OperationModel::LoadFloat { dst: dst@, val: *val },
            Operation::If { src } => OperationModel::If { src: src@ },
            Operation::SampleNearest { dst, src, tf } => OperationModel::SampleNearest {
                dst: dst@,
                src: src@,
                tf: *tf,
            },
            Operation::SampleLinear { dst, src, tf } => OperationModel::SampleLinear {
                dst: dst@,
                src: src@,
                tf: *tf,
            },
            Operation::Else => OperationModel::Else,
            Operation::EndIf => OperationModel::EndIf,
        }
    }
}

/// A key/value annotation of the program or of a parameter.
#[derive(Debug, Clone, PartialEq)]
pub struct PixelBenderMetadata {
    pub key: String,
    pub value: PixelBenderType,
}

pub ghost struct MetadataModel {
    pub key: Seq<char>,
    pub value: ValueModel,
}

impl View for PixelBenderMetadata {
    type V = MetadataModel;

    open spec fn view(&self) -> MetadataModel {
        MetadataModel { key: self.key@, value: self.value@ }
    }
}

/// A declared parameter of the program.
#[derive(Debug, PartialEq, Clone)]
pub enum PixelBenderParam {
    Normal {
        qualifier: PixelBenderParamQualifier,
        param_type: PixelBenderTypeOpcode,
        reg: PixelBenderReg,
        name: String,
        metadata: Vec<PixelBenderMetadata>,
    },
    Texture { index: u8, channels: u8, name: String },
}

pub ghost enum ParamModel {
    Normal {
        qualifier: PixelBenderParamQualifier,
        param_type: PixelBenderTypeOpcode,
        reg: RegModel,
        name: Seq<char>,
        metadata: Seq<MetadataModel>,
    },
    Texture { index: u8, channels: u8, name: Seq<char> },
}

impl View for PixelBenderParam {
    type V = ParamModel;

    open spec fn view(&self) -> ParamModel {
        match self {
            PixelBenderParam::Normal { qualifier, param_type, reg, name, metadata } =>
                ParamModel::Normal {
                qualifier: *qualifier,
                param_type: *param_type,
                reg: reg@,
                name: name@,
                metadata: metadata_view(metadata@),
            },
            PixelBenderParam::Texture { index, channels, name } => ParamModel::Texture {
                index: *index,
                channels: *channels,
                name: name@,
            },
        }
    }
}

/// A decoded program.
#[derive(Debug, PartialEq, Clone)]
pub struct PixelBenderShader {
    pub name: String,
    pub version: i32,
    pub params: Vec<PixelBenderParam>,
    pub metadata: Vec<PixelBenderMetadata>,
    pub operations: Vec<Operation>,
}

pub ghost struct ShaderModel {
    pub name: Seq<char>,
    pub version: i32,
    pub params: Seq<ParamModel>,
    pub metadata: Seq<MetadataModel>,
    pub operations: Seq<OperationModel>,
}

impl View for PixelBenderShader {
    type V = ShaderModel;

    open spec fn view(&self) -> ShaderModel {
        ShaderModel {
            name: self.name@,
            version: self.version,
            params: params_view(self.params@),
            metadata: metadata_view(self.metadata@),
            operations: operations_view(self.operations@),
        }
    }
}

pub open spec fn metadata_view(s: Seq<PixelBenderMetadata>) -> Seq<MetadataModel> {
    s.map_values(|m: PixelBenderMetadata| m@)
}

pub open spec fn params_view(s: Seq<PixelBenderParam>) -> Seq<ParamModel> {
    s.map_values(|p: PixelBenderParam| p@)
}

pub open spec fn operations_view(s: Seq<Operation>) -> Seq<OperationModel> {
    s.map_values(|o: Operation| o@)
}

/// Why a buffer could not be decoded. `offset` is the position of the field that ran past the
/// end for `Truncated`, and otherwise the position of the opcode byte of the failing instruction
/// (the buffer's length for the metadata left over at the end).
#[derive(Debug, PartialEq, Eq, Structural, Clone, Copy)]
pub enum PixelBenderError {
    Truncated { offset: usize },
    MalformedReservedField { opcode: Opcode, offset: usize },
    UnknownOpcode { byte: u8, offset: usize },
    UnknownTypeTag { byte: u8, opcode: Opcode, offset: usize },
    UnknownQualifier { byte: u8, offset: usize },
    UnsupportedConstruct { opcode: Opcode, offset: usize },
    MetadataTargetInvalid { offset: usize },
    InvalidUtf8 { offset: usize },
}

} // verus!
