//! The hardware enumerations of the GX API and the code that libogc expects for each of them.
//!
//! Every enumeration has an executable `code` that yields the value handed to libogc, a `spec_code`
//! that states it, and a `from_code` that decodes it again. The round trip is proved, so no two
//! variants share a code.

use vstd::prelude::*;

verus! {

/// Backface culling mode.
///
/// Primitives in which the vertex order is clockwise to the viewer are considered front-facing.
#[derive(Copy, Clone, Debug, PartialEq, Eq, Structural)]
pub enum CullMode {
    /// Do not cull any primitives.
    Off,
    /// Cull front-facing primitives.
    Front,
    /// Cull back-facing primitives.
    Back,
    /// Cull all primitives.
    All,
}

impl CullMode {
    /// The libogc constant that stands for this value.
    pub open spec fn spec_code(self) -> u8 {
        match self {
            CullMode::Off => 0,
            CullMode::Front => 1,
            CullMode::Back => 2,
            CullMode::All => 3,
        }
    }

    /// The value whose libogc constant is `c`, if there is one.
    pub open spec fn from_code(c: u8) -> Option<CullMode> {
        if c == 0 {
            Some(CullMode::Off)
        } else if c == 1 {
            Some(CullMode::Front)
        } else if c == 2 {
            Some(CullMode::Back)
        } else if c == 3 {
            Some(CullMode::All)
        } else {
            None
        }
    }

    /// Returns the libogc constant for this value.
    pub fn code(self) -> (c: u8)
        ensures
            c == self.spec_code(),
    {
        match self {
            CullMode::Off => 0,
            CullMode::Front => 1,
            CullMode::Back => 2,
            CullMode::All => 3,
        }
    }

    /// Decoding the code of a value gives the value back.
    pub proof fn lemma_code_round_trip(self)
        ensures
            CullMode::from_code(self.spec_code()) == Some(self),
    {
    }

    /// Each value's code is the libogc constant of the same name.
    pub proof fn lemma_codes_are_libogc_constants()
        ensures
            CullMode::Off.spec_code() == 0,
            CullMode::Front.spec_code() == 1,
            CullMode::Back.spec_code() == 2,
            CullMode::All.spec_code() == 3,
    {
    }

    /// Two values with the same code are the same value.
    pub proof fn lemma_code_injective(self, other: CullMode)
        ensures
            self.spec_code() == other.spec_code() ==> self == other,
    {
        self.lemma_code_round_trip();
        other.lemma_code_round_trip();
    }
}

/// Comparison functions.
#[derive(Copy, Clone, Debug, PartialEq, Eq, Structural)]
pub enum CmpFn {
    Never,
    Less,
    Equal,
    LessEq,
    Greater,
    NotEq,
    GreaterEq,
    Always,
}

impl CmpFn {
    /// The libogc constant that stands for this value.
    pub open spec fn spec_code(self) -> u8 {
        match self {
            CmpFn::Never => 0,
            CmpFn::Less => 1,
            CmpFn::Equal => 2,
            CmpFn::LessEq => 3,
            CmpFn::Greater => 4,
            CmpFn::NotEq => 5,
            CmpFn::GreaterEq => 6,
            CmpFn::Always => 7,
        }
    }

    /// The value whose libogc constant is `c`, if there is one.
    pub open spec fn from_code(c: u8) -> Option<CmpFn> {
        if c == 0 {
            Some(CmpFn::Never)
        } else if c == 1 {
            Some(CmpFn::Less)
        } else if c == 2 {
            Some(CmpFn::Equal)
        } else if c == 3 {
            Some(CmpFn::LessEq)
        } else if c == 4 {
            Some(CmpFn::Greater)
        } else if c == 5 {
            Some(CmpFn::NotEq)
        } else if c == 6 {
            Some(CmpFn::GreaterEq)
        } else if c == 7 {
            Some(CmpFn::Always)
        } else {
            None
        }
    }

    /// Returns the libogc constant for this value.
    pub fn code(self) -> (c: u8)
        ensures
            c == self.spec_code(),
    {
        match self {
            CmpFn::Never => 0,
            CmpFn::Less => 1,
            CmpFn::Equal => 2,
            CmpFn::LessEq => 3,
            CmpFn::Greater => 4,
            CmpFn::NotEq => 5,
            CmpFn::GreaterEq => 6,
            CmpFn::Always => 7,
        }
    }

    /// Decoding the code of a value gives the value back.
    pub proof fn lemma_code_round_trip(self)
        ensures
            CmpFn::from_code(self.spec_code()) == Some(self),
    {
    }

    /// Each value's code is the libogc constant of the same name.
    pub proof fn lemma_codes_are_libogc_constants()
        ensures
            CmpFn::Never.spec_code() == 0,
            CmpFn::Less.spec_code() == 1,
            CmpFn::Equal.spec_code() == 2,
            CmpFn::LessEq.spec_code() == 3,
            CmpFn::Greater.spec_code() == 4,
            CmpFn::NotEq.spec_code() == 5,
            CmpFn::GreaterEq.spec_code() == 6,
            CmpFn::Always.spec_code() == 7,
    {
    }

    /// Two values with the same code are the same value.
    pub proof fn lemma_code_injective(self, other: CmpFn)
        ensures
            self.spec_code() == other.spec_code() ==> self == other,
    {
        self.lemma_code_round_trip();
        other.lemma_code_round_trip();
    }
}

/// Alpha combining operations.
#[derive(Copy, Clone, Debug, PartialEq, Eq, Structural)]
pub enum AlphaOp {
    And,
    Or,
    Xnor,
    Xor,
}

impl AlphaOp {
    /// The libogc constant that stands for this value.
    pub open spec fn spec_code(self) -> u8 {
        match self {
            AlphaOp::And => 0,
            AlphaOp::Or => 1,
            AlphaOp::Xnor => 3,
            AlphaOp::Xor => 2,
        }
    }

    /// The value whose libogc constant is `c`, if there is one.
    pub open spec fn from_code(c: u8) -> Option<AlphaOp> {
        if c == 0 {
            Some(AlphaOp::And)
        } else if c == 1 {
            Some(AlphaOp::Or)
        } else if c == 3 {
            Some(AlphaOp::Xnor)
        } else if c == 2 {
            Some(AlphaOp::Xor)
        } else {
            None
        }
    }

    /// Returns the libogc constant for this value.
    pub fn code(self) -> (c: u8)
        ensures
            c == self.spec_code(),
    {
        match self {
            AlphaOp::And => 0,
            AlphaOp::Or => 1,
            AlphaOp::Xnor => 3,
            AlphaOp::Xor => 2,
        }
    }

    /// Decoding the code of a value gives the value back.
    pub proof fn lemma_code_round_trip(self)
        ensures
            AlphaOp::from_code(self.spec_code()) == Some(self),
    {
    }

    /// Each value's code is the libogc constant of the same name.
    pub proof fn lemma_codes_are_libogc_constants()
        ensures
            AlphaOp::And.spec_code() == 0,
            AlphaOp::Or.spec_code() == 1,
            AlphaOp::Xnor.spec_code() == 3,
            AlphaOp::Xor.spec_code() == 2,
    {
    }

    /// Two values with the same code are the same value.
    pub proof fn lemma_code_injective(self, other: AlphaOp)
        ensures
            self.spec_code() == other.spec_code() ==> self == other,
    {
        self.lemma_code_round_trip();
        other.lemma_code_round_trip();
    }
}

/// Collection of primitive types that can be drawn by the GP.
///
/// Which type you use depends on your needs; however, performance can increase by using triangle
/// strips or fans instead of discrete triangles.
#[derive(Copy, Clone, Debug, PartialEq, Eq, Structural)]
pub enum Primitive {
    /// Draws a series of unconnected quads. Every four vertices completes a quad.
    Quads,
    /// Draws a series of unconnected triangles. Three vertices make a single triangle.
    Triangles,
    /// Draws a series of triangles, each (besides the first) sharing a side with the previous one.
    TriangleStrip,
    /// Draws a single triangle fan around the first vertex.
    TriangleFan,
    /// Draws a series of unconnected line segments. Each pair of vertices makes a line.
    Lines,
    /// Draws a series of lines; each vertex (besides the first) joins the previous one.
    LineStrip,
    /// Draws a series of points. Each vertex is a single point.
    Points,
}

impl Primitive {
    /// The libogc constant that stands for this value.
    pub open spec fn spec_code(self) -> u8 {
        match self {
            Primitive::Quads => 128,
            Primitive::Triangles => 144,
            Primitive::TriangleStrip => 152,
            Primitive::TriangleFan => 160,
            Primitive::Lines => 168,
            Primitive::LineStrip => 176,
            Primitive::Points => 184,
        }
    }

    /// The value whose libogc constant is `c`, if there is one.
    pub open spec fn from_code(c: u8) -> Option<Primitive> {
        if c == 128 {
            Some(Primitive::Quads)
        } else if c == 144 {
            Some(Primitive::Triangles)
        } else if c == 152 {
            Some(Primitive::TriangleStrip)
        } else if c == 160 {
            Some(Primitive::TriangleFan)
        } else if c == 168 {
            Some(Primitive::Lines)
        } else if c == 176 {
            Some(Primitive::LineStrip)
        } else if c == 184 {
            Some(Primitive::Points)
        } else {
            None
        }
    }

    /// Returns the libogc constant for this value.
    pub fn code(self) -> (c: u8)
        ensures
            c == self.spec_code(),
    {
        match self {
            Primitive::Quads => 128,
            Primitive::Triangles => 144,
            Primitive::TriangleStrip => 152,
            Primitive::TriangleFan => 160,
            Primitive::Lines => 168,
            Primitive::LineStrip => 176,
            Primitive::Points => 184,
        }
    }

    /// Decoding the code of a value gives the value back.
    pub proof fn lemma_code_round_trip(self)
        ensures
            Primitive::from_code(self.spec_code()) == Some(self),
    {
    }

    /// Each value's code is the libogc constant of the same name.
    pub proof fn lemma_codes_are_libogc_constants()
        ensures
            Primitive::Quads.spec_code() == 128,
            Primitive::Triangles.spec_code() == 144,
            Primitive::TriangleStrip.spec_code() == 152,
            Primitive::TriangleFan.spec_code() == 160,
            Primitive::Lines.spec_code() == 168,
            Primitive::LineStrip.spec_code() == 176,
            Primitive::Points.spec_code() == 184,
    {
    }

    /// Two values with the same code are the same value.
    pub proof fn lemma_code_injective(self, other: Primitive)
        ensures
            self.spec_code() == other.spec_code() ==> self == other,
    {
        self.lemma_code_round_trip();
        other.lemma_code_round_trip();
    }
}

/// Specifies which blending operation to use.
#[derive(Copy, Clone, Debug, PartialEq, Eq, Structural)]
pub enum BlendMode {
    /// Write input directly to EFB
    Off,
    /// Blend using blending equation
    Blend,
    /// Blend using bitwise operation
    Logic,
    /// Input subtracts from existing pixel
    Subtract,
}

impl BlendMode {
    /// The libogc constant that stands for this value.
    pub open spec fn spec_code(self) -> u8 {
        match self {
            BlendMode::Off => 0,
            BlendMode::Blend => 1,
            BlendMode::Logic => 2,
            BlendMode::Subtract => 3,
        }
    }

    /// The value whose libogc constant is `c`, if there is one.
    pub open spec fn from_code(c: u8) -> Option<BlendMode> {
        if c == 0 {
            Some(BlendMode::Off)
        } else if c == 1 {
            Some(BlendMode::Blend)
        } else if c == 2 {
            Some(BlendMode::Logic)
        } else if c == 3 {
            Some(BlendMode::Subtract)
        } else {
            None
        }
    }

    /// Returns the libogc constant for this value.
    pub fn code(self) -> (c: u8)
        ensures
            c == self.spec_code(),
    {
        match self {
            BlendMode::Off => 0,
            BlendMode::Blend => 1,
            BlendMode::Logic => 2,
            BlendMode::Subtract => 3,
        }
    }

    /// Decoding the code of a value gives the value back.
    pub proof fn lemma_code_round_trip(self)
        ensures
            BlendMode::from_code(self.spec_code()) == Some(self),
    {
    }

    /// Each value's code is the libogc constant of the same name.
    pub proof fn lemma_codes_are_libogc_constants()
        ensures
            BlendMode::Off.spec_code() == 0,
            BlendMode::Blend.spec_code() == 1,
            BlendMode::Logic.spec_code() == 2,
            BlendMode::Subtract.spec_code() == 3,
    {
    }

    /// Two values with the same code are the same value.
    pub proof fn lemma_code_injective(self, other: BlendMode)
        ensures
            self.spec_code() == other.spec_code() ==> self == other,
    {
        self.lemma_code_round_trip();
        other.lemma_code_round_trip();
    }
}

/// Destination (`dst`) acquires the value of one of these operations, given in Rust syntax.
#[derive(Copy, Clone, Debug, PartialEq, Eq, Structural)]
pub enum LogicOp {
    /// `src & dst`
    And,
    /// `0`
    Clear,
    /// `src`
    Copy,
    /// `!(src ^ dst)`
    Equiv,
    /// `!dst`
    Inv,
    /// `!src & dst`
    InvAnd,
    /// `!src`
    InvCopy,
    /// `!src | dst`
    InvOr,
    /// `!(src & dst)`
    Nand,
    /// `dst`
    Nop,
    /// `!(src | dst)`
    Nor,
    /// `src | dst`
    Or,
    /// `src & !dst`
    RevAnd,
    /// `src | !dst`
    RevOr,
    /// `1`
    SetBits,
    /// `src ^ dst`
    Xor,
}

impl LogicOp {
    /// The libogc constant that stands for this value.
    pub open spec fn spec_code(self) -> u8 {
        match self {
            LogicOp::And => 1,
            LogicOp::Clear => 0,
            LogicOp::Copy => 3,
            LogicOp::Equiv => 9,
            LogicOp::Inv => 10,
            LogicOp::InvAnd => 4,
            LogicOp::InvCopy => 12,
            LogicOp::InvOr => 13,
            LogicOp::Nand => 14,
            LogicOp::Nop => 5,
            LogicOp::Nor => 8,
            LogicOp::Or => 7,
            LogicOp::RevAnd => 2,
            LogicOp::RevOr => 11,
            LogicOp::SetBits => 15,
            LogicOp::Xor => 6,
        }
    }

    /// The value whose libogc constant is `c`, if there is one.
    pub open spec fn from_code(c: u8) -> Option<LogicOp> {
        if c == 1 {
            Some(LogicOp::And)
        } else if c == 0 {
            Some(LogicOp::Clear)
        } else if c == 3 {
            Some(LogicOp::Copy)
        } else if c == 9 {
            Some(LogicOp::Equiv)
        } else if c == 10 {
            Some(LogicOp::Inv)
        } else if c == 4 {
            Some(LogicOp::InvAnd)
        } else if c == 12 {
            Some(LogicOp::InvCopy)
        } else if c == 13 {
            Some(LogicOp::InvOr)
        } else if c == 14 {
            Some(LogicOp::Nand)
        } else if c == 5 {
            Some(LogicOp::Nop)
        } else if c == 8 {
            Some(LogicOp::Nor)
        } else if c == 7 {
            Some(LogicOp::Or)
        } else if c == 2 {
            Some(LogicOp::RevAnd)
        } else if c == 11 {
            Some(LogicOp::RevOr)
        } else if c == 15 {
            Some(LogicOp::SetBits)
        } else if c == 6 {
            Some(LogicOp::Xor)
        } else {
            None
        }
    }

    /// Returns the libogc constant for this value.
    pub fn code(self) -> (c: u8)
        ensures
            c == self.spec_code(),
    {
        match self {
            LogicOp::And => 1,
            LogicOp::Clear => 0,
            LogicOp::Copy => 3,
            LogicOp::Equiv => 9,
            LogicOp::Inv => 10,
            LogicOp::InvAnd => 4,
            LogicOp::InvCopy => 12,
            LogicOp::InvOr => 13,
            LogicOp::Nand => 14,
            LogicOp::Nop => 5,
            LogicOp::Nor => 8,
            LogicOp::Or => 7,
            LogicOp::RevAnd => 2,
            LogicOp::RevOr => 11,
            LogicOp::SetBits => 15,
            LogicOp::Xor => 6,
        }
    }

    /// Decoding the code of a value gives the value back.
    pub proof fn lemma_code_round_trip(self)
        ensures
            LogicOp::from_code(self.spec_code()) == Some(self),
    {
    }

    /// Each value's code is the libogc constant of the same name.
    pub proof fn lemma_codes_are_libogc_constants()
        ensures
            LogicOp::And.spec_code() == 1,
            LogicOp::Clear.spec_code() == 0,
            LogicOp::Copy.spec_code() == 3,
            LogicOp::Equiv.spec_code() == 9,
            LogicOp::Inv.spec_code() == 10,
            LogicOp::InvAnd.spec_code() == 4,
            LogicOp::InvCopy.spec_code() == 12,
            LogicOp::InvOr.spec_code() == 13,
            LogicOp::Nand.spec_code() == 14,
            LogicOp::Nop.spec_code() == 5,
            LogicOp::Nor.spec_code() == 8,
            LogicOp::Or.spec_code() == 7,
            LogicOp::RevAnd.spec_code() == 2,
            LogicOp::RevOr.spec_code() == 11,
            LogicOp::SetBits.spec_code() == 15,
            LogicOp::Xor.spec_code() == 6,
    {
    }

    /// Two values with the same code are the same value.
    pub proof fn lemma_code_injective(self, other: LogicOp)
        ensures
            self.spec_code() == other.spec_code() ==> self == other,
    {
        self.lemma_code_round_trip();
        other.lemma_code_round_trip();
    }
}

/// Performance counter 0: geometry and primitive metrics (triangle counts, clipping ratios,
/// quad coverage, XF stage cycles).
#[derive(Copy, Clone, Debug, PartialEq, Eq, Structural)]
pub enum Perf0 {
    /// Average quad count.
    AvgQuadCnt,
    /// Number of GP clocks spent clipping.
    ClipClks,
    ClipRatio,
    /// Number of vertices that were clipped by the GP.
    ClipVtx,
    /// Number of GP clocks elapsed since the previous read of the metric.
    Clocks,
    /// Disables performance measurement for perf0 and resets the counter.
    Disabled,
    /// Number of quads having zero coverage.
    Quad0Cvg,
    /// Number of quads with 1 pixel coverage.
    Quad1Cvg,
    /// Number of quads with 2 pixel coverage.
    Quad2Cvg,
    /// Number of quads with 3 pixel coverage.
    Quad3Cvg,
    /// Number of quads with 4 pixel coverage.
    Quad4Cvg,
    /// Number of quads having coverage greater than zero.
    QuadNon0Cvg,
    /// Number of triangles.
    Triangles,
    Triangles0Clr,
    Triangles0Tex,
    Triangles1Clr,
    Triangles1Tex,
    Triangles2Clr,
    Triangles2Tex,
    Triangles3Tex,
    Triangles4Tex,
    Triangles5Tex,
    Triangles6Tex,
    Triangles7Tex,
    Triangles8Tex,
    /// Number of triangles that failed the front-face/back-face culling test.
    TrianglesCulled,
    /// Number of triangles that passed the front-face/back-face culling test.
    TrianglesPassed,
    /// Number of triangles that are scissored.
    TrianglesScissored,
    /// Number of vertices processed by the GP.
    Vertices,
    /// Number of cycles the bottom of the pipe (result combiner) is busy.
    XfBotClks,
    /// Number of cycles the lighting engine is busy.
    XfLitClks,
    /// Number of cycles spent loading XF state registers.
    XfRegldClks,
    /// Number of cycles the XF reads the state registers.
    XfRegrdClks,
    /// Number of cycles the XF is waiting on input.
    XfWaitIn,
    /// Number of cycles the XF waits to send its output to the rest of the GP pipeline.
    XfWaitOut,
    /// Number of cycles the transform engine is busy.
    XfXfrmClks,
}

impl Perf0 {
    /// The libogc constant that stands for this value.
    pub open spec fn spec_code(self) -> u32 {
        match self {
            Perf0::AvgQuadCnt => 33,
            Perf0::ClipClks => 2,
            Perf0::ClipRatio => 10,
            Perf0::ClipVtx => 1,
            Perf0::Clocks => 34,
            Perf0::Disabled => 35,
            Perf0::Quad0Cvg => 27,
            Perf0::Quad1Cvg => 29,
            Perf0::Quad2Cvg => 30,
            Perf0::Quad3Cvg => 31,
            Perf0::Quad4Cvg => 32,
            Perf0::QuadNon0Cvg => 28,
            Perf0::Triangles => 11,
            Perf0::Triangles0Clr => 24,
            Perf0::Triangles0Tex => 15,
            Perf0::Triangles1Clr => 25,
            Perf0::Triangles1Tex => 16,
            Perf0::Triangles2Clr => 26,
            Perf0::Triangles2Tex => 17,
            Perf0::Triangles3Tex => 18,
            Perf0::Triangles4Tex => 19,
            Perf0::Triangles5Tex => 20,
            Perf0::Triangles6Tex => 21,
            Perf0::Triangles7Tex => 22,
            Perf0::Triangles8Tex => 23,
            Perf0::TrianglesCulled => 12,
            Perf0::TrianglesPassed => 13,
            Perf0::TrianglesScissored => 14,
            Perf0::Vertices => 0,
            Perf0::XfBotClks => 7,
            Perf0::XfLitClks => 6,
            Perf0::XfRegldClks => 8,
            Perf0::XfRegrdClks => 9,
            Perf0::XfWaitIn => 3,
            Perf0::XfWaitOut => 4,
            Perf0::XfXfrmClks => 5,
        }
    }

    /// The value whose libogc constant is `c`, if there is one.
    pub open spec fn from_code(c: u32) -> Option<Perf0> {
        if c == 33 {
            Some(Perf0::AvgQuadCnt)
        } else if c == 2 {
            Some(Perf0::ClipClks)
        } else if c == 10 {
            Some(Perf0::ClipRatio)
        } else if c == 1 {
            Some(Perf0::ClipVtx)
        } else if c == 34 {
            Some(Perf0::Clocks)
        } else if c == 35 {
            Some(Perf0::Disabled)
        } else if c == 27 {
            Some(Perf0::Quad0Cvg)
        } else if c == 29 {
            Some(Perf0::Quad1Cvg)
        } else if c == 30 {
            Some(Perf0::Quad2Cvg)
        } else if c == 31 {
            Some(Perf0::Quad3Cvg)
        } else if c == 32 {
            Some(Perf0::Quad4Cvg)
        } else if c == 28 {
            Some(Perf0::QuadNon0Cvg)
        } else if c == 11 {
            Some(Perf0::Triangles)
        } else if c == 24 {
            Some(Perf0::Triangles0Clr)
        } else if c == 15 {
            Some(Perf0::Triangles0Tex)
        } else if c == 25 {
            Some(Perf0::Triangles1Clr)
        } else if c == 16 {
            Some(Perf0::Triangles1Tex)
        } else if c == 26 {
            Some(Perf0::Triangles2Clr)
        } else if c == 17 {
            Some(Perf0::Triangles2Tex)
        } else if c == 18 {
            Some(Perf0::Triangles3Tex)
        } else if c == 19 {
            Some(Perf0::Triangles4Tex)
        } else if c == 20 {
            Some(Perf0::Triangles5Tex)
        } else if c == 21 {
            Some(Perf0::Triangles6Tex)
        } else if c == 22 {
            Some(Perf0::Triangles7Tex)
        } else if c == 23 {
            Some(Perf0::Triangles8Tex)
        } else if c == 12 {
            Some(Perf0::TrianglesCulled)
        } else if c == 13 {
            Some(Perf0::TrianglesPassed)
        } else if c == 14 {
            Some(Perf0::TrianglesScissored)
        } else if c == 0 {
            Some(Perf0::Vertices)
        } else if c == 7 {
            Some(Perf0::XfBotClks)
        } else if c == 6 {
            Some(Perf0::XfLitClks)
        } else if c == 8 {
            Some(Perf0::XfRegldClks)
        } else if c == 9 {
            Some(Perf0::XfRegrdClks)
        } else if c == 3 {
            Some(Perf0::XfWaitIn)
        } else if c == 4 {
            Some(Perf0::XfWaitOut)
        } else if c == 5 {
            Some(Perf0::XfXfrmClks)
        } else {
            None
        }
    }

    /// Returns the libogc constant for this value.
    pub fn code(self) -> (c: u32)
        ensures
            c == self.spec_code(),
    {
        match self {
            Perf0::AvgQuadCnt => 33,
            Perf0::ClipClks => 2,
            Perf0::ClipRatio => 10,
            Perf0::ClipVtx => 1,
            Perf0::Clocks => 34,
            Perf0::Disabled => 35,
            Perf0::Quad0Cvg => 27,
            Perf0::Quad1Cvg => 29,
            Perf0::Quad2Cvg => 30,
            Perf0::Quad3Cvg => 31,
            Perf0::Quad4Cvg => 32,
            Perf0::QuadNon0Cvg => 28,
            Perf0::Triangles => 11,
            Perf0::Triangles0Clr => 24,
            Perf0::Triangles0Tex => 15,
            Perf0::Triangles1Clr => 25,
            Perf0::Triangles1Tex => 16,
            Perf0::Triangles2Clr => 26,
            Perf0::Triangles2Tex => 17,
            Perf0::Triangles3Tex => 18,
            Perf0::Triangles4Tex => 19,
            Perf0::Triangles5Tex => 20,
            Perf0::Triangles6Tex => 21,
            Perf0::Triangles7Tex => 22,
            Perf0::Triangles8Tex => 23,
            Perf0::TrianglesCulled => 12,
            Perf0::TrianglesPassed => 13,
            Perf0::TrianglesScissored => 14,
            Perf0::Vertices => 0,
            Perf0::XfBotClks => 7,
            Perf0::XfLitClks => 6,
            Perf0::XfRegldClks => 8,
            Perf0::XfRegrdClks => 9,
            Perf0::XfWaitIn => 3,
            Perf0::XfWaitOut => 4,
            Perf0::XfXfrmClks => 5,
        }
    }

    /// Decoding the code of a value gives the value back.
    pub proof fn lemma_code_round_trip(self)
        ensures
            Perf0::from_code(self.spec_code()) == Some(self),
    {
    }

    /// Each value's code is the libogc constant of the same name.
    pub proof fn lemma_codes_are_libogc_constants()
        ensures
            Perf0::AvgQuadCnt.spec_code() == 33,
            Perf0::ClipClks.spec_code() == 2,
            Perf0::ClipRatio.spec_code() == 10,
            Perf0::ClipVtx.spec_code() == 1,
            Perf0::Clocks.spec_code() == 34,
            Perf0::Disabled.spec_code() == 35,
            Perf0::Quad0Cvg.spec_code() == 27,
            Perf0::Quad1Cvg.spec_code() == 29,
            Perf0::Quad2Cvg.spec_code() == 30,
            Perf0::Quad3Cvg.spec_code() == 31,
            Perf0::Quad4Cvg.spec_code() == 32,
            Perf0::QuadNon0Cvg.spec_code() == 28,
            Perf0::Triangles.spec_code() == 11,
            Perf0::Triangles0Clr.spec_code() == 24,
            Perf0::Triangles0Tex.spec_code() == 15,
            Perf0::Triangles1Clr.spec_code() == 25,
            Perf0::Triangles1Tex.spec_code() == 16,
            Perf0::Triangles2Clr.spec_code() == 26,
            Perf0::Triangles2Tex.spec_code() == 17,
            Perf0::Triangles3Tex.spec_code() == 18,
            Perf0::Triangles4Tex.spec_code() == 19,
            Perf0::Triangles5Tex.spec_code() == 20,
            Perf0::Triangles6Tex.spec_code() == 21,
            Perf0::Triangles7Tex.spec_code() == 22,
            Perf0::Triangles8Tex.spec_code() == 23,
            Perf0::TrianglesCulled.spec_code() == 12,
            Perf0::TrianglesPassed.spec_code() == 13,
            Perf0::TrianglesScissored.spec_code() == 14,
            Perf0::Vertices.spec_code() == 0,
            Perf0::XfBotClks.spec_code() == 7,
            Perf0::XfLitClks.spec_code() == 6,
            Perf0::XfRegldClks.spec_code() == 8,
            Perf0::XfRegrdClks.spec_code() == 9,
            Perf0::XfWaitIn.spec_code() == 3,
            Perf0::XfWaitOut.spec_code() == 4,
            Perf0::XfXfrmClks.spec_code() == 5,
    {
    }

    /// Two values with the same code are the same value.
    pub proof fn lemma_code_injective(self, other: Perf0)
        ensures
            self.spec_code() == other.spec_code() ==> self == other,
    {
        self.lemma_code_round_trip();
        other.lemma_code_round_trip();
    }
}

/// Performance counter 1: texturing, caching and FIFO metrics.
#[derive(Copy, Clone, Debug, PartialEq, Eq, Structural)]
pub enum Perf1 {
    /// Number of lines (32B) read from called display lists.
    CallReq,
    /// Number of GP clocks elapsed since the previous read of the metric.
    Clocks,
    /// Counts all requests (32B/request) from the GP Command Processor (CP).
    CpAllReq,
    /// Number of lines (32B) read from the GP FIFO.
    FifoReq,
    /// Disables performance measurement for perf1 and resets the counter.
    Disabled,
    TcCheck12,
    TcCheck34,
    TcCheck56,
    TcCheck78,
    /// Number of texture cache misses.
    TcMiss,
    /// Number of texels processed by the GP.
    Texels,
    /// Number of clocks that the texture unit (TX) is idle.
    TxIdle,
    /// Number of GP clocks the TX unit is stalled waiting for main memory.
    TxMemStall,
    /// Number of GP clocks spent writing to state registers in the TX unit.
    TxRegs,
    VcAllStalls,
    VcElemqFull,
    VcMemreqFull,
    /// Number of vertex cache miss requests.
    VcMissReq,
    VcMissqFull,
    VcMissrepFull,
    VcStatus7,
    VcStreamBufLow,
    /// Number of vertices processed by the GP.
    Vertices,
}

impl Perf1 {
    /// The libogc constant that stands for this value.
    pub open spec fn spec_code(self) -> u32 {
        match self {
            Perf1::CallReq => 18,
            Perf1::Clocks => 21,
            Perf1::CpAllReq => 20,
            Perf1::FifoReq => 17,
            Perf1::Disabled => 22,
            Perf1::TcCheck12 => 4,
            Perf1::TcCheck34 => 5,
            Perf1::TcCheck56 => 6,
            Perf1::TcCheck78 => 7,
            Perf1::TcMiss => 8,
            Perf1::Texels => 0,
            Perf1::TxIdle => 1,
            Perf1::TxMemStall => 3,
            Perf1::TxRegs => 2,
            Perf1::VcAllStalls => 15,
            Perf1::VcElemqFull => 9,
            Perf1::VcMemreqFull => 11,
            Perf1::VcMissReq => 19,
            Perf1::VcMissqFull => 10,
            Perf1::VcMissrepFull => 13,
            Perf1::VcStatus7 => 12,
            Perf1::VcStreamBufLow => 14,
            Perf1::Vertices => 16,
        }
    }

    /// The value whose libogc constant is `c`, if there is one.
    pub open spec fn from_code(c: u32) -> Option<Perf1> {
        if c == 18 {
            Some(Perf1::CallReq)
        } else if c == 21 {
            Some(Perf1::Clocks)
        } else if c == 20 {
            Some(Perf1::CpAllReq)
        } else if c == 17 {
            Some(Perf1::FifoReq)
        } else if c == 22 {
            Some(Perf1::Disabled)
        } else if c == 4 {
            Some(Perf1::TcCheck12)
        } else if c == 5 {
            Some(Perf1::TcCheck34)
        } else if c == 6 {
            Some(Perf1::TcCheck56)
        } else if c == 7 {
            Some(Perf1::TcCheck78)
        } else if c == 8 {
            Some(Perf1::TcMiss)
        } else if c == 0 {
            Some(Perf1::Texels)
        } else if c == 1 {
            Some(Perf1::TxIdle)
        } else if c == 3 {
            Some(Perf1::TxMemStall)
        } else if c == 2 {
            Some(Perf1::TxRegs)
        } else if c == 15 {
            Some(Perf1::VcAllStalls)
        } else if c == 9 {
            Some(Perf1::VcElemqFull)
        } else if c == 11 {
            Some(Perf1::VcMemreqFull)
        } else if c == 19 {
            Some(Perf1::VcMissReq)
        } else if c == 10 {
            Some(Perf1::VcMissqFull)
        } else if c == 13 {
            Some(Perf1::VcMissrepFull)
        } else if c == 12 {
            Some(Perf1::VcStatus7)
        } else if c == 14 {
            Some(Perf1::VcStreamBufLow)
        } else if c == 16 {
            Some(Perf1::Vertices)
        } else {
            None
        }
    }

    /// Returns the libogc constant for this value.
    pub fn code(self) -> (c: u32)
        ensures
            c == self.spec_code(),
    {
        match self {
            Perf1::CallReq => 18,
            Perf1::Clocks => 21,
            Perf1::CpAllReq => 20,
            Perf1::FifoReq => 17,
            Perf1::Disabled => 22,
            Perf1::TcCheck12 => 4,
            Perf1::TcCheck34 => 5,
            Perf1::TcCheck56 => 6,
            Perf1::TcCheck78 => 7,
            Perf1::TcMiss => 8,
            Perf1::Texels => 0,
            Perf1::TxIdle => 1,
            Perf1::TxMemStall => 3,
            Perf1::TxRegs => 2,
            Perf1::VcAllStalls => 15,
            Perf1::VcElemqFull => 9,
            Perf1::VcMemreqFull => 11,
            Perf1::VcMissReq => 19,
            Perf1::VcMissqFull => 10,
            Perf1::VcMissrepFull => 13,
            Perf1::VcStatus7 => 12,
            Perf1::VcStreamBufLow => 14,
            Perf1::Vertices => 16,
        }
    }

    /// Decoding the code of a value gives the value back.
    pub proof fn lemma_code_round_trip(self)
        ensures
            Perf1::from_code(self.spec_code()) == Some(self),
    {
    }

    /// Each value's code is the libogc constant of the same name.
    pub proof fn lemma_codes_are_libogc_constants()
        ensures
            Perf1::CallReq.spec_code() == 18,
            Perf1::Clocks.spec_code() == 21,
            Perf1::CpAllReq.spec_code() == 20,
            Perf1::FifoReq.spec_code() == 17,
            Perf1::Disabled.spec_code() == 22,
            Perf1::TcCheck12.spec_code() == 4,
            Perf1::TcCheck34.spec_code() == 5,
            Perf1::TcCheck56.spec_code() == 6,
            Perf1::TcCheck78.spec_code() == 7,
            Perf1::TcMiss.spec_code() == 8,
            Perf1::Texels.spec_code() == 0,
            Perf1::TxIdle.spec_code() == 1,
            Perf1::TxMemStall.spec_code() == 3,
            Perf1::TxRegs.spec_code() == 2,
            Perf1::VcAllStalls.spec_code() == 15,
            Perf1::VcElemqFull.spec_code() == 9,
            Perf1::VcMemreqFull.spec_code() == 11,
            Perf1::VcMissReq.spec_code() == 19,
            Perf1::VcMissqFull.spec_code() == 10,
            Perf1::VcMissrepFull.spec_code() == 13,
            Perf1::VcStatus7.spec_code() == 12,
            Perf1::VcStreamBufLow.spec_code() == 14,
            Perf1::Vertices.spec_code() == 16,
    {
    }

    /// Two values with the same code are the same value.
    pub proof fn lemma_code_injective(self, other: Perf1)
        ensures
            self.spec_code() == other.spec_code() ==> self == other,
    {
        self.lemma_code_round_trip();
        other.lemma_code_round_trip();
    }
}

/// Each pixel (source or destination) is multiplied by any of these controls.
#[derive(Copy, Clone, Debug, PartialEq, Eq, Structural)]
pub enum BlendCtrl {
    /// framebuffer alpha
    DstAlpha,
    /// 1.0 - (framebuffer alpha)
    InvDstAlpha,
    /// 1.0 - (source alpha)
    InvSrcAlpha,
    /// 1.0 - (source color)
    InvSrcColor,
    /// 1.0
    One,
    /// source alpha
    SrcAlpha,
    /// source color
    SrcColor,
    /// 0.0
    Zero,
}

impl BlendCtrl {
    /// The libogc constant that stands for this value.
    pub open spec fn spec_code(self) -> u8 {
        match self {
            BlendCtrl::DstAlpha => 6,
            BlendCtrl::InvDstAlpha => 7,
            BlendCtrl::InvSrcAlpha => 5,
            BlendCtrl::InvSrcColor => 3,
            BlendCtrl::One => 1,
            BlendCtrl::SrcAlpha => 4,
            BlendCtrl::SrcColor => 2,
            BlendCtrl::Zero => 0,
        }
    }

    /// The value whose libogc constant is `c`, if there is one.
    pub open spec fn from_code(c: u8) -> Option<BlendCtrl> {
        if c == 6 {
            Some(BlendCtrl::DstAlpha)
        } else if c == 7 {
            Some(BlendCtrl::InvDstAlpha)
        } else if c == 5 {
            Some(BlendCtrl::InvSrcAlpha)
        } else if c == 3 {
            Some(BlendCtrl::InvSrcColor)
        } else if c == 1 {
            Some(BlendCtrl::One)
        } else if c == 4 {
            Some(BlendCtrl::SrcAlpha)
        } else if c == 2 {
            Some(BlendCtrl::SrcColor)
        } else if c == 0 {
            Some(BlendCtrl::Zero)
        } else {
            None
        }
    }

    /// Returns the libogc constant for this value.
    pub fn code(self) -> (c: u8)
        ensures
            c == self.spec_code(),
    {
        match self {
            BlendCtrl::DstAlpha => 6,
            BlendCtrl::InvDstAlpha => 7,
            BlendCtrl::InvSrcAlpha => 5,
            BlendCtrl::InvSrcColor => 3,
            BlendCtrl::One => 1,
            BlendCtrl::SrcAlpha => 4,
            BlendCtrl::SrcColor => 2,
            BlendCtrl::Zero => 0,
        }
    }

    /// Decoding the code of a value gives the value back.
    pub proof fn lemma_code_round_trip(self)
        ensures
            BlendCtrl::from_code(self.spec_code()) == Some(self),
    {
    }

    /// Each value's code is the libogc constant of the same name.
    pub proof fn lemma_codes_are_libogc_constants()
        ensures
            BlendCtrl::DstAlpha.spec_code() == 6,
            BlendCtrl::InvDstAlpha.spec_code() == 7,
            BlendCtrl::InvSrcAlpha.spec_code() == 5,
            BlendCtrl::InvSrcColor.spec_code() == 3,
            BlendCtrl::One.spec_code() == 1,
            BlendCtrl::SrcAlpha.spec_code() == 4,
            BlendCtrl::SrcColor.spec_code() == 2,
            BlendCtrl::Zero.spec_code() == 0,
    {
    }

    /// Two values with the same code are the same value.
    pub proof fn lemma_code_injective(self, other: BlendCtrl)
        ensures
            self.spec_code() == other.spec_code() ==> self == other,
    {
        self.lemma_code_round_trip();
        other.lemma_code_round_trip();
    }
}

/// Compressed Z format.
#[derive(Copy, Clone, Debug, PartialEq, Eq, Structural)]
pub enum ZCompress {
    Linear,
    Near,
    Mid,
    Far,
}

impl ZCompress {
    /// The libogc constant that stands for this value.
    pub open spec fn spec_code(self) -> u8 {
        match self {
            ZCompress::Linear => 0,
            ZCompress::Near => 1,
            ZCompress::Mid => 2,
            ZCompress::Far => 3,
        }
    }

    /// The value whose libogc constant is `c`, if there is one.
    pub open spec fn from_code(c: u8) -> Option<ZCompress> {
        if c == 0 {
            Some(ZCompress::Linear)
        } else if c == 1 {
            Some(ZCompress::Near)
        } else if c == 2 {
            Some(ZCompress::Mid)
        } else if c == 3 {
            Some(ZCompress::Far)
        } else {
            None
        }
    }

    /// Returns the libogc constant for this value.
    pub fn code(self) -> (c: u8)
        ensures
            c == self.spec_code(),
    {
        match self {
            ZCompress::Linear => 0,
            ZCompress::Near => 1,
            ZCompress::Mid => 2,
            ZCompress::Far => 3,
        }
    }

    /// Decoding the code of a value gives the value back.
    pub proof fn lemma_code_round_trip(self)
        ensures
            ZCompress::from_code(self.spec_code()) == Some(self),
    {
    }

    /// Each value's code is the libogc constant of the same name.
    pub proof fn lemma_codes_are_libogc_constants()
        ensures
            ZCompress::Linear.spec_code() == 0,
            ZCompress::Near.spec_code() == 1,
            ZCompress::Mid.spec_code() == 2,
            ZCompress::Far.spec_code() == 3,
    {
    }

    /// Two values with the same code are the same value.
    pub proof fn lemma_code_injective(self, other: ZCompress)
        ensures
            self.spec_code() == other.spec_code() ==> self == other,
    {
        self.lemma_code_round_trip();
        other.lemma_code_round_trip();
    }
}

/// Specifies whether the input source color for a color channel comes from a register or a vertex.
#[derive(Copy, Clone, Debug, PartialEq, Eq, Structural)]
pub enum Source {
    Register,
    Vertex,
}

impl Source {
    /// The libogc constant that stands for this value.
    pub open spec fn spec_code(self) -> u8 {
        match self {
            Source::Register => 0,
            Source::Vertex => 1,
        }
    }

    /// The value whose libogc constant is `c`, if there is one.
    pub open spec fn from_code(c: u8) -> Option<Source> {
        if c == 0 {
            Some(Source::Register)
        } else if c == 1 {
            Some(Source::Vertex)
        } else {
            None
        }
    }

    /// Returns the libogc constant for this value.
    pub fn code(self) -> (c: u8)
        ensures
            c == self.spec_code(),
    {
        match self {
            Source::Register => 0,
            Source::Vertex => 1,
        }
    }

    /// Decoding the code of a value gives the value back.
    pub proof fn lemma_code_round_trip(self)
        ensures
            Source::from_code(self.spec_code()) == Some(self),
    {
    }

    /// Each value's code is the libogc constant of the same name.
    pub proof fn lemma_codes_are_libogc_constants()
        ensures
            Source::Register.spec_code() == 0,
            Source::Vertex.spec_code() == 1,
    {
    }

    /// Two values with the same code are the same value.
    pub proof fn lemma_code_injective(self, other: Source)
        ensures
            self.spec_code() == other.spec_code() ==> self == other,
    {
        self.lemma_code_round_trip();
        other.lemma_code_round_trip();
    }
}

/// Diffuse function of a color channel.
#[derive(Copy, Clone, Debug, PartialEq, Eq, Structural)]
pub enum DiffFn {
    Off,
    Signed,
    Clamp,
}

impl DiffFn {
    /// The libogc constant that stands for this value.
    pub open spec fn spec_code(self) -> u8 {
        match self {
            DiffFn::Off => 0,
            DiffFn::Signed => 1,
            DiffFn::Clamp => 2,
        }
    }

    /// The value whose libogc constant is `c`, if there is one.
    pub open spec fn from_code(c: u8) -> Option<DiffFn> {
        if c == 0 {
            Some(DiffFn::Off)
        } else if c == 1 {
            Some(DiffFn::Signed)
        } else if c == 2 {
            Some(DiffFn::Clamp)
        } else {
            None
        }
    }

    /// Returns the libogc constant for this value.
    pub fn code(self) -> (c: u8)
        ensures
            c == self.spec_code(),
    {
        match self {
            DiffFn::Off => 0,
            DiffFn::Signed => 1,
            DiffFn::Clamp => 2,
        }
    }

    /// Decoding the code of a value gives the value back.
    pub proof fn lemma_code_round_trip(self)
        ensures
            DiffFn::from_code(self.spec_code()) == Some(self),
    {
    }

    /// Each value's code is the libogc constant of the same name.
    pub proof fn lemma_codes_are_libogc_constants()
        ensures
            DiffFn::Off.spec_code() == 0,
            DiffFn::Signed.spec_code() == 1,
            DiffFn::Clamp.spec_code() == 2,
    {
    }

    /// Two values with the same code are the same value.
    pub proof fn lemma_code_injective(self, other: DiffFn)
        ensures
            self.spec_code() == other.spec_code() ==> self == other,
    {
        self.lemma_code_round_trip();
        other.lemma_code_round_trip();
    }
}

/// Attenuation function of a color channel.
#[derive(Copy, Clone, Debug, PartialEq, Eq, Structural)]
pub enum AttnFn {
    /// No attenuation
    Off,
    /// Specular computation
    Spec,
    /// Spot light attenuation
    Spot,
}

impl AttnFn {
    /// The libogc constant that stands for this value.
    pub open spec fn spec_code(self) -> u8 {
        match self {
            AttnFn::Off => 2,
            AttnFn::Spec => 0,
            AttnFn::Spot => 1,
        }
    }

    /// The value whose libogc constant is `c`, if there is one.
    pub open spec fn from_code(c: u8) -> Option<AttnFn> {
        if c == 2 {
            Some(AttnFn::Off)
        } else if c == 0 {
            Some(AttnFn::Spec)
        } else if c == 1 {
            Some(AttnFn::Spot)
        } else {
            None
        }
    }

    /// Returns the libogc constant for this value.
    pub fn code(self) -> (c: u8)
        ensures
            c == self.spec_code(),
    {
        match self {
            AttnFn::Off => 2,
            AttnFn::Spec => 0,
            AttnFn::Spot => 1,
        }
    }

    /// Decoding the code of a value gives the value back.
    pub proof fn lemma_code_round_trip(self)
        ensures
            AttnFn::from_code(self.spec_code()) == Some(self),
    {
    }

    /// Each value's code is the libogc constant of the same name.
    pub proof fn lemma_codes_are_libogc_constants()
        ensures
            AttnFn::Off.spec_code() == 2,
            AttnFn::Spec.spec_code() == 0,
            AttnFn::Spot.spec_code() == 1,
    {
    }

    /// Two values with the same code are the same value.
    pub proof fn lemma_code_injective(self, other: AttnFn)
        ensures
            self.spec_code() == other.spec_code() ==> self == other,
    {
        self.lemma_code_round_trip();
        other.lemma_code_round_trip();
    }
}

/// Type of the brightness decreasing function by distance.
#[derive(Copy, Clone, Debug, PartialEq, Eq, Structural)]
pub enum DistFn {
    Off,
    Gentle,
    Medium,
    Steep,
}

impl DistFn {
    /// The libogc constant that stands for this value.
    pub open spec fn spec_code(self) -> u8 {
        match self {
            DistFn::Off => 0,
            DistFn::Gentle => 1,
            DistFn::Medium => 2,
            DistFn::Steep => 3,
        }
    }

    /// The value whose libogc constant is `c`, if there is one.
    pub open spec fn from_code(c: u8) -> Option<DistFn> {
        if c == 0 {
            Some(DistFn::Off)
        } else if c == 1 {
            Some(DistFn::Gentle)
        } else if c == 2 {
            Some(DistFn::Medium)
        } else if c == 3 {
            Some(DistFn::Steep)
        } else {
            None
        }
    }

    /// Returns the libogc constant for this value.
    pub fn code(self) -> (c: u8)
        ensures
            c == self.spec_code(),
    {
        match self {
            DistFn::Off => 0,
            DistFn::Gentle => 1,
            DistFn::Medium => 2,
            DistFn::Steep => 3,
        }
    }

    /// Decoding the code of a value gives the value back.
    pub proof fn lemma_code_round_trip(self)
        ensures
            DistFn::from_code(self.spec_code()) == Some(self),
    {
    }

    /// Each value's code is the libogc constant of the same name.
    pub proof fn lemma_codes_are_libogc_constants()
        ensures
            DistFn::Off.spec_code() == 0,
            DistFn::Gentle.spec_code() == 1,
            DistFn::Medium.spec_code() == 2,
            DistFn::Steep.spec_code() == 3,
    {
    }

    /// Two values with the same code are the same value.
    pub proof fn lemma_code_injective(self, other: DistFn)
        ensures
            self.spec_code() == other.spec_code() ==> self == other,
    {
        self.lemma_code_round_trip();
        other.lemma_code_round_trip();
    }
}

/// Spot illumination distribution function.
#[derive(Copy, Clone, Debug, PartialEq, Eq, Structural)]
pub enum SpotFn {
    Off,
    Flat,
    Cos,
    Cos2,
    Sharp,
    Ring1,
    Ring2,
}

impl SpotFn {
    /// The libogc constant that stands for this value.
    pub open spec fn spec_code(self) -> u8 {
        match self {
            SpotFn::Off => 0,
            SpotFn::Flat => 1,
            SpotFn::Cos => 2,
            SpotFn::Cos2 => 3,
            SpotFn::Sharp => 4,
            SpotFn::Ring1 => 5,
            SpotFn::Ring2 => 6,
        }
    }

    /// The value whose libogc constant is `c`, if there is one.
    pub open spec fn from_code(c: u8) -> Option<SpotFn> {
        if c == 0 {
            Some(SpotFn::Off)
        } else if c == 1 {
            Some(SpotFn::Flat)
        } else if c == 2 {
            Some(SpotFn::Cos)
        } else if c == 3 {
            Some(SpotFn::Cos2)
        } else if c == 4 {
            Some(SpotFn::Sharp)
        } else if c == 5 {
            Some(SpotFn::Ring1)
        } else if c == 6 {
            Some(SpotFn::Ring2)
        } else {
            None
        }
    }

    /// Returns the libogc constant for this value.
    pub fn code(self) -> (c: u8)
        ensures
            c == self.spec_code(),
    {
        match self {
            SpotFn::Off => 0,
            SpotFn::Flat => 1,
            SpotFn::Cos => 2,
            SpotFn::Cos2 => 3,
            SpotFn::Sharp => 4,
            SpotFn::Ring1 => 5,
            SpotFn::Ring2 => 6,
        }
    }

    /// Decoding the code of a value gives the value back.
    pub proof fn lemma_code_round_trip(self)
        ensures
            SpotFn::from_code(self.spec_code()) == Some(self),
    {
    }

    /// Each value's code is the libogc constant of the same name.
    pub proof fn lemma_codes_are_libogc_constants()
        ensures
            SpotFn::Off.spec_code() == 0,
            SpotFn::Flat.spec_code() == 1,
            SpotFn::Cos.spec_code() == 2,
            SpotFn::Cos2.spec_code() == 3,
            SpotFn::Sharp.spec_code() == 4,
            SpotFn::Ring1.spec_code() == 5,
            SpotFn::Ring2.spec_code() == 6,
    {
    }

    /// Two values with the same code are the same value.
    pub proof fn lemma_code_injective(self, other: SpotFn)
        ensures
            self.spec_code() == other.spec_code() ==> self == other,
    {
        self.lemma_code_round_trip();
        other.lemma_code_round_trip();
    }
}

/// Texture filter types.
#[derive(Copy, Clone, Debug, PartialEq, Eq, Structural)]
pub enum TexFilter {
    /// Point sampling, no mipmap
    Near,
    /// Point sampling, linear mipmap
    NearMipLin,
    /// Point sampling, discrete mipmap
    NearMipNear,
    /// Trilinear filtering
    LinMipLin,
    /// Bilinear filtering, discrete mipmap
    LinMipNear,
    /// Bilinear filtering, no mipmap
    Linear,
}

impl TexFilter {
    /// The libogc constant that stands for this value.
    pub open spec fn spec_code(self) -> u8 {
        match self {
            TexFilter::Near => 0,
            TexFilter::NearMipLin => 4,
            TexFilter::NearMipNear => 2,
            TexFilter::LinMipLin => 5,
            TexFilter::LinMipNear => 3,
            TexFilter::Linear => 1,
        }
    }

    /// The value whose libogc constant is `c`, if there is one.
    pub open spec fn from_code(c: u8) -> Option<TexFilter> {
        if c == 0 {
            Some(TexFilter::Near)
        } else if c == 4 {
            Some(TexFilter::NearMipLin)
        } else if c == 2 {
            Some(TexFilter::NearMipNear)
        } else if c == 5 {
            Some(TexFilter::LinMipLin)
        } else if c == 3 {
            Some(TexFilter::LinMipNear)
        } else if c == 1 {
            Some(TexFilter::Linear)
        } else {
            None
        }
    }

    /// Returns the libogc constant for this value.
    pub fn code(self) -> (c: u8)
        ensures
            c == self.spec_code(),
    {
        match self {
            TexFilter::Near => 0,
            TexFilter::NearMipLin => 4,
            TexFilter::NearMipNear => 2,
            TexFilter::LinMipLin => 5,
            TexFilter::LinMipNear => 3,
            TexFilter::Linear => 1,
        }
    }

    /// Decoding the code of a value gives the value back.
    pub proof fn lemma_code_round_trip(self)
        ensures
            TexFilter::from_code(self.spec_code()) == Some(self),
    {
    }

    /// Each value's code is the libogc constant of the same name.
    pub proof fn lemma_codes_are_libogc_constants()
        ensures
            TexFilter::Near.spec_code() == 0,
            TexFilter::NearMipLin.spec_code() == 4,
            TexFilter::NearMipNear.spec_code() == 2,
            TexFilter::LinMipLin.spec_code() == 5,
            TexFilter::LinMipNear.spec_code() == 3,
            TexFilter::Linear.spec_code() == 1,
    {
    }

    /// Two values with the same code are the same value.
    pub proof fn lemma_code_injective(self, other: TexFilter)
        ensures
            self.spec_code() == other.spec_code() ==> self == other,
    {
        self.lemma_code_round_trip();
        other.lemma_code_round_trip();
    }
}

/// Texture wrap modes.
#[derive(Copy, Clone, Debug, PartialEq, Eq, Structural)]
pub enum WrapMode {
    Clamp,
    Repeat,
    Mirror,
}

impl WrapMode {
    /// The libogc constant that stands for this value.
    pub open spec fn spec_code(self) -> u8 {
        match self {
            WrapMode::Clamp => 0,
            WrapMode::Repeat => 1,
            WrapMode::Mirror => 2,
        }
    }

    /// The value whose libogc constant is `c`, if there is one.
    pub open spec fn from_code(c: u8) -> Option<WrapMode> {
        if c == 0 {
            Some(WrapMode::Clamp)
        } else if c == 1 {
            Some(WrapMode::Repeat)
        } else if c == 2 {
            Some(WrapMode::Mirror)
        } else {
            None
        }
    }

    /// Returns the libogc constant for this value.
    pub fn code(self) -> (c: u8)
        ensures
            c == self.spec_code(),
    {
        match self {
            WrapMode::Clamp => 0,
            WrapMode::Repeat => 1,
            WrapMode::Mirror => 2,
        }
    }

    /// Decoding the code of a value gives the value back.
    pub proof fn lemma_code_round_trip(self)
        ensures
            WrapMode::from_code(self.spec_code()) == Some(self),
    {
    }

    /// Each value's code is the libogc constant of the same name.
    pub proof fn lemma_codes_are_libogc_constants()
        ensures
            WrapMode::Clamp.spec_code() == 0,
            WrapMode::Repeat.spec_code() == 1,
            WrapMode::Mirror.spec_code() == 2,
    {
    }

    /// Two values with the same code are the same value.
    pub proof fn lemma_code_injective(self, other: WrapMode)
        ensures
            self.spec_code() == other.spec_code() ==> self == other,
    {
        self.lemma_code_round_trip();
        other.lemma_code_round_trip();
    }
}

/// Vertex attribute array type.
#[derive(Copy, Clone, Debug, PartialEq, Eq, Structural)]
pub enum VtxAttr {
    /// Marks the end of a vertex descriptor list.
    Null,
    LightArray,
    NrmMtxArray,
    PosMtxArray,
    TexMtxArray,
    Color0,
    Color1,
    MaxAttr,
    /// Normal, binormal, tangent
    Nbt,
    Nrm,
    Pos,
    PtnMtxIdx,
    Tex0,
    Tex0MtxIdx,
    Tex1,
    Tex1MtxIdx,
    Tex2,
    Tex2MtxIdx,
    Tex3,
    Tex3MtxIdx,
    Tex4,
    Tex4MtxIdx,
    Tex5,
    Tex5MtxIdx,
    Tex6,
    Tex6MtxIdx,
    Tex7,
    Tex7MtxIdx,
}

impl VtxAttr {
    /// The libogc constant that stands for this value.
    pub open spec fn spec_code(self) -> u8 {
        match self {
            VtxAttr::Null => 255,
            VtxAttr::LightArray => 24,
            VtxAttr::NrmMtxArray => 22,
            VtxAttr::PosMtxArray => 21,
            VtxAttr::TexMtxArray => 23,
            VtxAttr::Color0 => 11,
            VtxAttr::Color1 => 12,
            VtxAttr::MaxAttr => 26,
            VtxAttr::Nbt => 25,
            VtxAttr::Nrm => 10,
            VtxAttr::Pos => 9,
            VtxAttr::PtnMtxIdx => 0,
            VtxAttr::Tex0 => 13,
            VtxAttr::Tex0MtxIdx => 1,
            VtxAttr::Tex1 => 14,
            VtxAttr::Tex1MtxIdx => 2,
            VtxAttr::Tex2 => 15,
            VtxAttr::Tex2MtxIdx => 3,
            VtxAttr::Tex3 => 16,
            VtxAttr::Tex3MtxIdx => 4,
            VtxAttr::Tex4 => 17,
            VtxAttr::Tex4MtxIdx => 5,
            VtxAttr::Tex5 => 18,
            VtxAttr::Tex5MtxIdx => 6,
            VtxAttr::Tex6 => 19,
            VtxAttr::Tex6MtxIdx => 7,
            VtxAttr::Tex7 => 20,
            VtxAttr::Tex7MtxIdx => 8,
        }
    }

    /// The value whose libogc constant is `c`, if there is one.
    pub open spec fn from_code(c: u8) -> Option<VtxAttr> {
        if c == 255 {
            Some(VtxAttr::Null)
        } else if c == 24 {
            Some(VtxAttr::LightArray)
        } else if c == 22 {
            Some(VtxAttr::NrmMtxArray)
        } else if c == 21 {
            Some(VtxAttr::PosMtxArray)
        } else if c == 23 {
            Some(VtxAttr::TexMtxArray)
        } else if c == 11 {
            Some(VtxAttr::Color0)
        } else if c == 12 {
            Some(VtxAttr::Color1)
        } else if c == 26 {
            Some(VtxAttr::MaxAttr)
        } else if c == 25 {
            Some(VtxAttr::Nbt)
        } else if c == 10 {
            Some(VtxAttr::Nrm)
        } else if c == 9 {
            Some(VtxAttr::Pos)
        } else if c == 0 {
            Some(VtxAttr::PtnMtxIdx)
        } else if c == 13 {
            Some(VtxAttr::Tex0)
        } else if c == 1 {
            Some(VtxAttr::Tex0MtxIdx)
        } else if c == 14 {
            Some(VtxAttr::Tex1)
        } else if c == 2 {
            Some(VtxAttr::Tex1MtxIdx)
        } else if c == 15 {
            Some(VtxAttr::Tex2)
        } else if c == 3 {
            Some(VtxAttr::Tex2MtxIdx)
        } else if c == 16 {
            Some(VtxAttr::Tex3)
        } else if c == 4 {
            Some(VtxAttr::Tex3MtxIdx)
        } else if c == 17 {
            Some(VtxAttr::Tex4)
        } else if c == 5 {
            Some(VtxAttr::Tex4MtxIdx)
        } else if c == 18 {
            Some(VtxAttr::Tex5)
        } else if c == 6 {
            Some(VtxAttr::Tex5MtxIdx)
        } else if c == 19 {
            Some(VtxAttr::Tex6)
        } else if c == 7 {
            Some(VtxAttr::Tex6MtxIdx)
        } else if c == 20 {
            Some(VtxAttr::Tex7)
        } else if c == 8 {
            Some(VtxAttr::Tex7MtxIdx)
        } else {
            None
        }
    }

    /// Returns the libogc constant for this value.
    pub fn code(self) -> (c: u8)
        ensures
            c == self.spec_code(),
    {
        match self {
            VtxAttr::Null => 255,
            VtxAttr::LightArray => 24,
            VtxAttr::NrmMtxArray => 22,
            VtxAttr::PosMtxArray => 21,
            VtxAttr::TexMtxArray => 23,
            VtxAttr::Color0 => 11,
            VtxAttr::Color1 => 12,
            VtxAttr::MaxAttr => 26,
            VtxAttr::Nbt => 25,
            VtxAttr::Nrm => 10,
            VtxAttr::Pos => 9,
            VtxAttr::PtnMtxIdx => 0,
            VtxAttr::Tex0 => 13,
            VtxAttr::Tex0MtxIdx => 1,
            VtxAttr::Tex1 => 14,
            VtxAttr::Tex1MtxIdx => 2,
            VtxAttr::Tex2 => 15,
            VtxAttr::Tex2MtxIdx => 3,
            VtxAttr::Tex3 => 16,
            VtxAttr::Tex3MtxIdx => 4,
            VtxAttr::Tex4 => 17,
            VtxAttr::Tex4MtxIdx => 5,
            VtxAttr::Tex5 => 18,
            VtxAttr::Tex5MtxIdx => 6,
            VtxAttr::Tex6 => 19,
            VtxAttr::Tex6MtxIdx => 7,
            VtxAttr::Tex7 => 20,
            VtxAttr::Tex7MtxIdx => 8,
        }
    }

    /// Decoding the code of a value gives the value back.
    pub proof fn lemma_code_round_trip(self)
        ensures
            VtxAttr::from_code(self.spec_code()) == Some(self),
    {
    }

    /// Each value's code is the libogc constant of the same name.
    pub proof fn lemma_codes_are_libogc_constants()
        ensures
            VtxAttr::Null.spec_code() == 255,
            VtxAttr::LightArray.spec_code() == 24,
            VtxAttr::NrmMtxArray.spec_code() == 22,
            VtxAttr::PosMtxArray.spec_code() == 21,
            VtxAttr::TexMtxArray.spec_code() == 23,
            VtxAttr::Color0.spec_code() == 11,
            VtxAttr::Color1.spec_code() == 12,
            VtxAttr::MaxAttr.spec_code() == 26,
            VtxAttr::Nbt.spec_code() == 25,
            VtxAttr::Nrm.spec_code() == 10,
            VtxAttr::Pos.spec_code() == 9,
            VtxAttr::PtnMtxIdx.spec_code() == 0,
            VtxAttr::Tex0.spec_code() == 13,
            VtxAttr::Tex0MtxIdx.spec_code() == 1,
            VtxAttr::Tex1.spec_code() == 14,
            VtxAttr::Tex1MtxIdx.spec_code() == 2,
            VtxAttr::Tex2.spec_code() == 15,
            VtxAttr::Tex2MtxIdx.spec_code() == 3,
            VtxAttr::Tex3.spec_code() == 16,
            VtxAttr::Tex3MtxIdx.spec_code() == 4,
            VtxAttr::Tex4.spec_code() == 17,
            VtxAttr::Tex4MtxIdx.spec_code() == 5,
            VtxAttr::Tex5.spec_code() == 18,
            VtxAttr::Tex5MtxIdx.spec_code() == 6,
            VtxAttr::Tex6.spec_code() == 19,
            VtxAttr::Tex6MtxIdx.spec_code() == 7,
            VtxAttr::Tex7.spec_code() == 20,
            VtxAttr::Tex7MtxIdx.spec_code() == 8,
    {
    }

    /// Two values with the same code are the same value.
    pub proof fn lemma_code_injective(self, other: VtxAttr)
        ensures
            self.spec_code() == other.spec_code() ==> self == other,
    {
        self.lemma_code_round_trip();
        other.lemma_code_round_trip();
    }
}

} // verus!
