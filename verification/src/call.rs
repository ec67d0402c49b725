//! The libogc calls that the library issues, as plain values.
//!
//! A value of these types names one libogc entry point together with the exact arguments that
//! are handed to it. The functions of this crate compute such values; running them against
//! the hardware is the caller's part.

use vstd::prelude::*;
use crate::color::Color;

verus! {

/// The byte that libogc takes for a boolean: `GX_TRUE` (1) or `GX_FALSE` (0).
pub open spec fn flag(b: bool) -> u8 {
    if b {
        1
    } else {
        0
    }
}

/// Returns the byte that libogc takes for `b`.
pub fn flag_code(b: bool) -> (c: u8)
    ensures
        c == flag(b),
{
    if b {
        1
    } else {
        0
    }
}

/// A call of the global GX API, one variant per libogc function, with its arguments.
#[derive(Copy, Clone, Debug, PartialEq, Eq)]
pub enum GxCall {
    /// `GX_Init(base, size)`, with the address of the FIFO buffer.
    Init { base: usize, size: u32 },
    /// `GX_AbortFrame()`.
    AbortFrame,
    /// `GX_ClearBoundingBox()`.
    ClearBoundingBox,
    /// `GX_ClearGPMetric()`.
    ClearGpMetric,
    /// `GX_ClearVCacheMetric()`.
    ClearVCacheMetric,
    /// `GX_DisableBreakPt()`.
    DisableBreakPt,
    /// `GX_InitXfRasMetric()`.
    InitXfRasMetric,
    /// `GX_LoadLightObjIdx(litobjidx, litid)`.
    LoadLightObjIdx { litobjidx: u32, litid: u8 },
    /// `GX_PixModeSync()`.
    PixModeSync,
    /// `GX_RestoreWriteGatherPipe()`.
    RestoreWriteGatherPipe,
    /// `GX_SetDrawDone()`.
    SetDrawDone,
    /// `GX_TexModeSync()`.
    TexModeSync,
    /// `GX_WaitDrawDone()`.
    WaitDrawDone,
    /// `GX_SetZCompLoc(before_tex)`.
    SetZCompLoc { before_tex: u8 },
    /// `GX_SetCopyClear(background, z_value)`.
    SetCopyClear { background: Color, z_value: u32 },
    /// `GX_SetScissor(x_origin, y_origin, wd, hd)`.
    SetScissor { x_origin: u32, y_origin: u32, wd: u32, hd: u32 },
    /// `GX_SetDispCopySrc(left, top, wd, hd)`.
    SetDispCopySrc { left: u16, top: u16, wd: u16, hd: u16 },
    /// `GX_SetDispCopyDst(width, height)`.
    SetDispCopyDst { width: u16, height: u16 },
    /// `GX_SetCopyFilter(aa, sample_pattern, vf, v_filter)`.
    SetCopyFilter { aa: u8, sample_pattern: [[u8; 2]; 12], vf: u8, v_filter: [u8; 7] },
    /// `GX_SetChanCtrl(channel, enable, ambsrc, matsrc, litmask, diff_fn, attn_fn)`.
    SetChanCtrl {
        channel: i32,
        enable: u8,
        ambsrc: u8,
        matsrc: u8,
        litmask: u8,
        diff_fn: u8,
        attn_fn: u8,
    },
    /// `GX_SetFieldMode(field_mode, half_aspect_ratio)`.
    SetFieldMode { field_mode: u8, half_aspect_ratio: u8 },
    /// `GX_SetPixelFmt(pix_fmt, z_fmt)`.
    SetPixelFmt { pix_fmt: u8, z_fmt: u8 },
    /// `GX_SetCullMode(mode)`.
    SetCullMode { mode: u8 },
    /// `GX_SetDispCopyGamma(gamma)`.
    SetDispCopyGamma { gamma: u8 },
    /// `GX_SetVtxAttrFmt(vtxfmt, vtxattr, comptype, compsize, frac)`.
    SetVtxAttrFmt { vtxfmt: u8, vtxattr: u32, comptype: u32, compsize: u32, frac: u32 },
    /// `GX_SetNumChans(num)`.
    SetNumChans { num: u8 },
    /// `GX_SetNumTexGens(nr)`.
    SetNumTexGens { nr: u32 },
    /// `GX_SetTevOp(tevstage, mode)`.
    SetTevOp { tevstage: u8, mode: u8 },
    /// `GX_SetTevOrder(tevstage, texcoord, texmap, color)`.
    SetTevOrder { tevstage: u8, texcoord: u8, texmap: u32, color: u8 },
    /// `GX_SetTexCoordGen(texcoord, tgen_typ, tgen_src, mtxsrc)`.
    SetTexCoordGen { texcoord: u16, tgen_typ: u32, tgen_src: u32, mtxsrc: u32 },
    /// `GX_InvalidateTexAll()`.
    InvalidateTexAll,
    /// `GX_InvVtxCache()`.
    InvVtxCache,
    /// `GX_ClearVtxDesc()`.
    ClearVtxDesc,
    /// `GX_SetVtxDesc(attr, v_type)`.
    SetVtxDesc { attr: u8, v_type: u8 },
    /// `GX_SetDither(dither)`.
    SetDither { dither: u8 },
    /// `GX_DrawDone()`.
    DrawDone,
    /// `GX_SetZMode(enable, func, update_enable)`.
    SetZMode { enable: u8, func: u8, update_enable: u8 },
    /// `GX_SetBlendMode(b_type, src_fact, dst_fact, op)`.
    SetBlendMode { b_type: u8, src_fact: u8, dst_fact: u8, op: u8 },
    /// `GX_SetAlphaUpdate(enable)`.
    SetAlphaUpdate { enable: u8 },
    /// `GX_SetColorUpdate(enable)`.
    SetColorUpdate { enable: u8 },
    /// `GX_Begin(primitive, vtxfmt, vtxcnt)`.
    Begin { primitive: u8, vtxfmt: u8, vtxcnt: u16 },
    /// `GX_SetAlphaCompare(comp0, ref0, aop, comp1, ref1)`.
    SetAlphaCompare { comp0: u8, ref0: u8, aop: u8, comp1: u8, ref1: u8 },
    /// `GX_SetClipMode(mode)`.
    SetClipMode { mode: u8 },
    /// `GX_PokeARGB(x, y, color)`.
    PokeArgb { x: u16, y: u16, color: Color },
    /// `GX_Position3u16(x, y, z)`.
    Position3u16 { x: u16, y: u16, z: u16 },
    /// `GX_Position3s16(x, y, z)`.
    Position3s16 { x: i16, y: i16, z: i16 },
    /// `GX_Position3u8(x, y, z)`.
    Position3u8 { x: u8, y: u8, z: u8 },
    /// `GX_Position3s8(x, y, z)`.
    Position3s8 { x: i8, y: i8, z: i8 },
    /// `GX_Position2u16(x, y)`.
    Position2u16 { x: u16, y: u16 },
    /// `GX_Position2s16(x, y)`.
    Position2s16 { x: i16, y: i16 },
    /// `GX_Position2u8(x, y)`.
    Position2u8 { x: u8, y: u8 },
    /// `GX_Position2s8(x, y)`.
    Position2s8 { x: i8, y: i8 },
    /// `GX_Position1x8(index)`.
    Position1x8 { index: u8 },
    /// `GX_Position1x16(index)`.
    Position1x16 { index: u16 },
    /// `GX_Color4u8(r, g, b, a)`.
    Color4u8 { r: u8, g: u8, b: u8, a: u8 },
    /// `GX_Color3u8(r, g, b)`.
    Color3u8 { r: u8, g: u8, b: u8 },
    /// `GX_Color1u32(clr)`.
    Color1u32 { clr: u32 },
    /// `GX_Color1u16(clr)`.
    Color1u16 { clr: u16 },
    /// `GX_Color1x8(index)`.
    Color1x8 { index: u8 },
    /// `GX_Color1x16(index)`.
    Color1x16 { index: u16 },
    /// `GX_Flush()`.
    Flush,
    /// `GX_End()`.
    End,
}

/// A call that initializes or changes a texture object (`GXTexObj`), with its arguments.
///
/// The texture object is the caller's; the floating-point LOD values of
/// `GX_InitTexObjLOD` are handed over by the caller beside `Lod`.
#[derive(Copy, Clone, Debug, PartialEq, Eq)]
pub enum TexObjCall {
    /// `GX_InitTexObj(obj, img, width, height, format, wrap_s, wrap_t, mipmap)`, with the
    /// address of the image.
    Init { img: usize, width: u16, height: u16, format: u8, wrap_s: u8, wrap_t: u8, mipmap: u8 },
    /// `GX_InitTexObjCI(obj, img, width, height, format, wrap_s, wrap_t, mipmap, tlut_name)`,
    /// with the address of the image.
    InitCi {
        img: usize,
        width: u16,
        height: u16,
        format: u8,
        wrap_s: u8,
        wrap_t: u8,
        mipmap: u8,
        tlut_name: u32,
    },
    /// `GX_InitTexObjBiasClamp(obj, enable)`.
    BiasClamp { enable: u8 },
    /// `GX_InitTexObjEdgeLOD(obj, enable)`.
    EdgeLod { enable: u8 },
    /// `GX_InitTexObjFilterMode(obj, minfilt, magfilt)`.
    FilterMode { minfilt: u8, magfilt: u8 },
    /// The integer arguments of `GX_InitTexObjLOD(obj, minfilt, magfilt, minlod, maxlod,
    /// lodbias, biasclamp, edgelod, maxaniso)`.
    Lod { minfilt: u8, magfilt: u8, biasclamp: u8, edgelod: u8, maxaniso: u8 },
    /// `GX_InitTexObjMaxAniso(obj, maxaniso)`.
    MaxAniso { maxaniso: u8 },
    /// `GX_InitTexObjTlut(obj, tlut_name)`.
    Tlut { tlut_name: u32 },
    /// `GX_InitTexObjWrapMode(obj, wrap_s, wrap_t)`.
    WrapMode { wrap_s: u8, wrap_t: u8 },
}

/// A call that describes a graphics FIFO object (`GXFifoObj`), with its arguments.
#[derive(Copy, Clone, Debug, PartialEq, Eq)]
pub enum FifoCall {
    /// `GX_InitFifoBase(fifo, base, size)`, with the address of the FIFO buffer.
    InitBase { base: usize, size: u32 },
    /// `GX_InitFifoLimits(fifo, hiwatermark, lowatermark)`.
    InitLimits { hiwatermark: u32, lowatermark: u32 },
}

} // verus!
