//! The GX service: each function computes the libogc call it stands for.

use vstd::prelude::*;
use crate::call::{flag, flag_code, GxCall};
use crate::color::Color;
use crate::modes::{
    AlphaOp, AttnFn, BlendCtrl, BlendMode, CmpFn, CullMode, DiffFn, LogicOp, Primitive, Source,
    VtxAttr, ZCompress,
};

verus! {

/// `GX_CLIP_ENABLE`: clipping against the viewport is on.
pub const CLIP_ENABLE: u8 = 0;

/// `GX_CLIP_DISABLE`: clipping against the viewport is off.
pub const CLIP_DISABLE: u8 = 1;

/// `GX_MAXVTXFMT`: the number of vertex formats; a vertex format index is below it.
pub const MAX_VTX_FMT: u8 = 8;

/// Width of the Embedded Frame Buffer in pixels.
pub const EFB_WIDTH: u16 = 640;

/// Height of the Embedded Frame Buffer in lines.
pub const EFB_HEIGHT: u16 = 528;

/// The alignment, in bytes, of FIFO buffers and of their sizes.
pub const FIFO_ALIGN: usize = 32;

/// Represents the GX service.
pub struct Gx;

impl Gx {
    /// The call that sets the clip mode to `mode`.
    pub open spec fn spec_set_clip_mode(mode: u8) -> GxCall {
        GxCall::SetClipMode { mode }
    }

    /// The call that `enable_clip` makes.
    pub open spec fn spec_enable_clip() -> GxCall {
        GxCall::SetClipMode { mode: CLIP_ENABLE }
    }

    /// The call that `disable_clip` makes.
    pub open spec fn spec_disable_clip() -> GxCall {
        GxCall::SetClipMode { mode: CLIP_DISABLE }
    }

    /// The call that `color_4u8` makes: its second argument is sent third and its third second.
    pub open spec fn spec_color_4u8(r: u8, b: u8, g: u8, a: u8) -> GxCall {
        GxCall::Color4u8 { r, g, b, a }
    }

    /// The call that `color_color` makes: the four components in RGBA order.
    pub open spec fn spec_color_color(clr: Color) -> GxCall {
        GxCall::Color4u8 { r: clr.r, g: clr.g, b: clr.b, a: clr.a }
    }

    /// Initializes the graphics processor to its initial state, with the FIFO in the buffer at
    /// `base_addr` of `size` bytes. Both must be multiples of 32; the size is handed over as a
    /// 32-bit value.
    pub fn init(base_addr: usize, size: usize) -> (call: GxCall)
        requires
            size % FIFO_ALIGN == 0,
            base_addr % FIFO_ALIGN == 0,
        ensures
            call == (GxCall::Init { base: base_addr, size: size as u32 }),
    {
        GxCall::Init { base: base_addr, size: size as u32 }
    }

    /// Aborts the current frame.
    pub fn abort_frame() -> (call: GxCall)
        ensures
            call == GxCall::AbortFrame,
    {
        GxCall::AbortFrame
    }

    /// Clears the bounding box values before a new image is drawn.
    pub fn clear_bounding_box() -> (call: GxCall)
        ensures
            call == GxCall::ClearBoundingBox,
    {
        GxCall::ClearBoundingBox
    }

    /// Clears the two virtual GP performance counters to zero. Not for use in a display list.
    pub fn clear_gp_metric() -> (call: GxCall)
        ensures
            call == GxCall::ClearGpMetric,
    {
        GxCall::ClearGpMetric
    }

    /// Clears the Vertex Cache performance counter.
    pub fn clear_vcache_metric() -> (call: GxCall)
        ensures
            call == GxCall::ClearVCacheMetric,
    {
        GxCall::ClearVCacheMetric
    }

    /// Allows reads from the FIFO currently attached to the Graphics Processor to resume.
    pub fn disable_breakpt() -> (call: GxCall)
        ensures
            call == GxCall::DisableBreakPt,
    {
        GxCall::DisableBreakPt
    }

    /// Initializes the XF and RAS units to take performance measurements.
    pub fn init_xf_ras_metric() -> (call: GxCall)
        ensures
            call == GxCall::InitXfRasMetric,
    {
        GxCall::InitXfRasMetric
    }

    /// Instructs the GP to fetch the light object at `litobjidx` from the light array; the index
    /// is handed over as a 32-bit value.
    pub fn load_light_idx(litobjidx: usize, litid: u8) -> (call: GxCall)
        ensures
            call == (GxCall::LoadLightObjIdx { litobjidx: litobjidx as u32, litid }),
    {
        GxCall::LoadLightObjIdx { litobjidx: litobjidx as u32, litid }
    }

    /// Causes the GPU to wait for the pipe to flush.
    pub fn pix_mode_sync() -> (call: GxCall)
        ensures
            call == GxCall::PixModeSync,
    {
        GxCall::PixModeSync
    }

    /// Restores the write-gather pipe.
    pub fn restore_write_gather_pipe() -> (call: GxCall)
        ensures
            call == GxCall::RestoreWriteGatherPipe,
    {
        GxCall::RestoreWriteGatherPipe
    }

    /// Sends a DrawDone command to the GP.
    pub fn set_draw_done() -> (call: GxCall)
        ensures
            call == GxCall::SetDrawDone,
    {
        GxCall::SetDrawDone
    }

    /// Lets the texture pipeline flush before the GP continues.
    pub fn tex_mode_sync() -> (call: GxCall)
        ensures
            call == GxCall::TexModeSync,
    {
        GxCall::TexModeSync
    }

    /// Stalls until DrawDone is encountered by the GP.
    pub fn wait_draw_done() -> (call: GxCall)
        ensures
            call == GxCall::WaitDrawDone,
    {
        GxCall::WaitDrawDone
    }

    /// Sets whether Z buffering happens before or after texturing.
    pub fn set_zcomp_loc(before_tex: bool) -> (call: GxCall)
        ensures
            call == (GxCall::SetZCompLoc { before_tex: flag(before_tex) }),
    {
        GxCall::SetZCompLoc { before_tex: flag_code(before_tex) }
    }

    /// Sets color and Z value to clear the EFB to during copy operations.
    pub fn set_copy_clear(background: Color, z_value: u32) -> (call: GxCall)
        ensures
            call == (GxCall::SetCopyClear { background, z_value }),
    {
        GxCall::SetCopyClear { background, z_value }
    }

    /// Sets the scissor rectangle.
    pub fn set_scissor(x_origin: u32, y_origin: u32, wd: u32, hd: u32) -> (call: GxCall)
        ensures
            call == (GxCall::SetScissor { x_origin, y_origin, wd, hd }),
    {
        GxCall::SetScissor { x_origin, y_origin, wd, hd }
    }

    /// Sets the source parameters for the EFB to XFB copy; all four must be even.
    pub fn set_disp_copy_src(left: u16, top: u16, wd: u16, hd: u16) -> (call: GxCall)
        requires
            left % 2 == 0,
            top % 2 == 0,
            wd % 2 == 0,
            hd % 2 == 0,
        ensures
            call == (GxCall::SetDispCopySrc { left, top, wd, hd }),
    {
        GxCall::SetDispCopySrc { left, top, wd, hd }
    }

    /// Sets the width and height of the display buffer in pixels; the width must be a multiple
    /// of 16.
    pub fn set_disp_copy_dst(width: u16, height: u16) -> (call: GxCall)
        requires
            width % 16 == 0,
        ensures
            call == (GxCall::SetDispCopyDst { width, height }),
    {
        GxCall::SetDispCopyDst { width, height }
    }

    /// Sets the subpixel sample patterns and vertical filter coefficients.
    pub fn set_copy_filter(
        aa: bool,
        sample_pattern: &[[u8; 2]; 12],
        vf: bool,
        v_filter: &[u8; 7],
    ) -> (call: GxCall)
        ensures
            call == (GxCall::SetCopyFilter {
                aa: flag(aa),
                sample_pattern: *sample_pattern,
                vf: flag(vf),
                v_filter: *v_filter,
            }),
    {
        GxCall::SetCopyFilter {
            aa: flag_code(aa),
            sample_pattern: *sample_pattern,
            vf: flag_code(vf),
            v_filter: *v_filter,
        }
    }

    /// Sets the lighting controls for a particular color channel.
    pub fn set_channel_controls(
        channel: i32,
        enable: bool,
        ambsrc: Source,
        matsrc: Source,
        litmask: u8,
        diff_fn: DiffFn,
        attn_fn: AttnFn,
    ) -> (call: GxCall)
        ensures
            call == (GxCall::SetChanCtrl {
                channel,
                enable: flag(enable),
                ambsrc: ambsrc.spec_code(),
                matsrc: matsrc.spec_code(),
                litmask,
                diff_fn: diff_fn.spec_code(),
                attn_fn: attn_fn.spec_code(),
            }),
    {
        GxCall::SetChanCtrl {
            channel,
            enable: flag_code(enable),
            ambsrc: ambsrc.code(),
            matsrc: matsrc.code(),
            litmask,
            diff_fn: diff_fn.code(),
            attn_fn: attn_fn.code(),
        }
    }

    /// Controls field-mode and double-strike rendering parameters.
    pub fn set_field_mode(field_mode: bool, half_aspect_ratio: bool) -> (call: GxCall)
        ensures
            call == (GxCall::SetFieldMode {
                field_mode: flag(field_mode),
                half_aspect_ratio: flag(half_aspect_ratio),
            }),
    {
        GxCall::SetFieldMode {
            field_mode: flag_code(field_mode),
            half_aspect_ratio: flag_code(half_aspect_ratio),
        }
    }

    /// Sets the format of pixels in the Embedded Frame Buffer.
    pub fn set_pixel_fmt(pix_fmt: u8, z_fmt: ZCompress) -> (call: GxCall)
        ensures
            call == (GxCall::SetPixelFmt { pix_fmt, z_fmt: z_fmt.spec_code() }),
    {
        GxCall::SetPixelFmt { pix_fmt, z_fmt: z_fmt.code() }
    }

    /// Enables or disables culling of geometry based on its orientation to the viewer.
    pub fn set_cull_mode(mode: CullMode) -> (call: GxCall)
        ensures
            call == (GxCall::SetCullMode { mode: mode.spec_code() }),
    {
        GxCall::SetCullMode { mode: mode.code() }
    }

    /// Sets the gamma correction applied to pixels during EFB to XFB copy.
    pub fn set_disp_copy_gamma(gamma: u8) -> (call: GxCall)
        ensures
            call == (GxCall::SetDispCopyGamma { gamma }),
    {
        GxCall::SetDispCopyGamma { gamma }
    }

    /// Sets the format of one attribute in the Vertex Attribute Table; `vtxfmt` is a vertex
    /// format index, below `MAX_VTX_FMT`.
    pub fn set_vtx_attr_fmt(
        vtxfmt: u8,
        vtxattr: VtxAttr,
        comptype: u32,
        compsize: u32,
        frac: u32,
    ) -> (call: GxCall)
        requires
            vtxfmt < MAX_VTX_FMT,
        ensures
            call == (GxCall::SetVtxAttrFmt {
                vtxfmt,
                vtxattr: vtxattr.spec_code() as u32,
                comptype,
                compsize,
                frac,
            }),
    {
        let attr: u8 = vtxattr.code();
        GxCall::SetVtxAttrFmt { vtxfmt, vtxattr: attr as u32, comptype, compsize, frac }
    }

    /// Sets the number of color channels that are output to the TEV stages.
    pub fn set_num_chans(num: u8) -> (call: GxCall)
        ensures
            call == (GxCall::SetNumChans { num }),
    {
        GxCall::SetNumChans { num }
    }

    /// Sets the number of texture coordinates generated for the TEV stages.
    pub fn set_num_tex_gens(nr: u32) -> (call: GxCall)
        ensures
            call == (GxCall::SetNumTexGens { nr }),
    {
        GxCall::SetNumTexGens { nr }
    }

    /// Sets the TEV parameters of `tevstage` from a predefined combiner mode.
    pub fn set_tev_op(tevstage: u8, mode: u8) -> (call: GxCall)
        ensures
            call == (GxCall::SetTevOp { tevstage, mode }),
    {
        GxCall::SetTevOp { tevstage, mode }
    }

    /// Specifies the texture and rasterized color that are inputs to `tevstage`.
    pub fn set_tev_order(tevstage: u8, texcoord: u8, texmap: u32, color: u8) -> (call: GxCall)
        ensures
            call == (GxCall::SetTevOrder { tevstage, texcoord, texmap, color }),
    {
        GxCall::SetTevOrder { tevstage, texcoord, texmap, color }
    }

    /// Specifies how texture coordinates are generated.
    pub fn set_tex_coord_gen(texcoord: u16, tgen_typ: u32, tgen_src: u32, mtxsrc: u32) -> (call:
        GxCall)
        ensures
            call == (GxCall::SetTexCoordGen { texcoord, tgen_typ, tgen_src, mtxsrc }),
    {
        GxCall::SetTexCoordGen { texcoord, tgen_typ, tgen_src, mtxsrc }
    }

    /// Invalidates the current caches of the Texture Memory.
    pub fn invalidate_tex_all() -> (call: GxCall)
        ensures
            call == GxCall::InvalidateTexAll,
    {
        GxCall::InvalidateTexAll
    }

    /// Invalidates the vertex cache.
    pub fn inv_vtx_cache() -> (call: GxCall)
        ensures
            call == GxCall::InvVtxCache,
    {
        GxCall::InvVtxCache
    }

    /// Clears all vertex attributes of the current vertex descriptor.
    pub fn clear_vtx_desc() -> (call: GxCall)
        ensures
            call == GxCall::ClearVtxDesc,
    {
        GxCall::ClearVtxDesc
    }

    /// Sets the type of a single attribute in the current vertex descriptor.
    pub fn set_vtx_desc(attr: VtxAttr, v_type: u8) -> (call: GxCall)
        ensures
            call == (GxCall::SetVtxDesc { attr: attr.spec_code(), v_type }),
    {
        GxCall::SetVtxDesc { attr: attr.code(), v_type }
    }

    /// Enables or disables dithering.
    pub fn set_dither(dither: bool) -> (call: GxCall)
        ensures
            call == (GxCall::SetDither { dither: flag(dither) }),
    {
        GxCall::SetDither { dither: flag_code(dither) }
    }

    /// Sends a DrawDone command to the GP and stalls until its subsequent execution.
    pub fn draw_done() -> (call: GxCall)
        ensures
            call == GxCall::DrawDone,
    {
        GxCall::DrawDone
    }

    /// Sets the Z-buffer compare mode.
    pub fn set_z_mode(enable: bool, func: CmpFn, update_enable: bool) -> (call: GxCall)
        ensures
            call == (GxCall::SetZMode {
                enable: flag(enable),
                func: func.spec_code(),
                update_enable: flag(update_enable),
            }),
    {
        GxCall::SetZMode {
            enable: flag_code(enable),
            func: func.code(),
            update_enable: flag_code(update_enable),
        }
    }

    /// Determines how the source image is blended with the Embedded Frame Buffer.
    pub fn set_blend_mode(b_type: BlendMode, src_fact: BlendCtrl, dst_fact: BlendCtrl, op: LogicOp)
        -> (call: GxCall)
        ensures
            call == (GxCall::SetBlendMode {
                b_type: b_type.spec_code(),
                src_fact: src_fact.spec_code(),
                dst_fact: dst_fact.spec_code(),
                op: op.spec_code(),
            }),
    {
        GxCall::SetBlendMode {
            b_type: b_type.code(),
            src_fact: src_fact.code(),
            dst_fact: dst_fact.code(),
            op: op.code(),
        }
    }

    /// Enables or disables alpha-buffer updates of the Embedded Frame Buffer.
    pub fn set_alpha_update(enable: bool) -> (call: GxCall)
        ensures
            call == (GxCall::SetAlphaUpdate { enable: flag(enable) }),
    {
        GxCall::SetAlphaUpdate { enable: flag_code(enable) }
    }

    /// Enables or disables color-buffer updates of the Embedded Frame Buffer.
    pub fn set_color_update(enable: bool) -> (call: GxCall)
        ensures
            call == (GxCall::SetColorUpdate { enable: flag(enable) }),
    {
        GxCall::SetColorUpdate { enable: flag_code(enable) }
    }

    /// Begins drawing of a graphics primitive.
    pub fn begin(primitive: Primitive, vtxfmt: u8, vtxcnt: u16) -> (call: GxCall)
        ensures
            call == (GxCall::Begin { primitive: primitive.spec_code(), vtxfmt, vtxcnt }),
    {
        GxCall::Begin { primitive: primitive.code(), vtxfmt, vtxcnt }
    }

    /// Sets the parameters of the alpha compare function.
    pub fn set_alpha_compare(comp0: CmpFn, ref0: u8, aop: AlphaOp, comp1: CmpFn, ref1: u8) -> (call:
        GxCall)
        ensures
            call == (GxCall::SetAlphaCompare {
                comp0: comp0.spec_code(),
                ref0,
                aop: aop.spec_code(),
                comp1: comp1.spec_code(),
                ref1,
            }),
    {
        GxCall::SetAlphaCompare {
            comp0: comp0.code(),
            ref0,
            aop: aop.code(),
            comp1: comp1.code(),
            ref1,
        }
    }

    /// Sets the clip mode.
    pub fn set_clip_mode(mode: u8) -> (call: GxCall)
        ensures
            call == Gx::spec_set_clip_mode(mode),
            call == (GxCall::SetClipMode { mode: mode }),
    {
        GxCall::SetClipMode { mode }
    }

    /// Turns clipping on: the clip mode becomes `GX_CLIP_ENABLE`.
    pub fn enable_clip() -> (call: GxCall)
        ensures
            call == Gx::spec_enable_clip(),
            call == (GxCall::SetClipMode { mode: 0 }),
    {
        Gx::set_clip_mode(CLIP_ENABLE)
    }

    /// Turns clipping off: the clip mode becomes `GX_CLIP_DISABLE`.
    pub fn disable_clip() -> (call: GxCall)
        ensures
            call == Gx::spec_disable_clip(),
            call == (GxCall::SetClipMode { mode: 1 }),
    {
        Gx::set_clip_mode(CLIP_DISABLE)
    }

    /// Writes `color` directly to the Embedded Frame Buffer at `(x, y)`, which must lie in it.
    pub fn poke_argb(x: u16, y: u16, color: Color) -> (call: GxCall)
        requires
            x < EFB_WIDTH,
            y < EFB_HEIGHT,
        ensures
            call == (GxCall::PokeArgb { x, y, color }),
    {
        GxCall::PokeArgb { x, y, color }
    }

    /// Sends a position of three unsigned 16-bit coordinates.
    pub fn position_3u16(x: u16, y: u16, z: u16) -> (call: GxCall)
        ensures
            call == (GxCall::Position3u16 { x, y, z }),
    {
        GxCall::Position3u16 { x, y, z }
    }

    /// Sends a position of three signed 16-bit coordinates.
    pub fn position_3i16(x: i16, y: i16, z: i16) -> (call: GxCall)
        ensures
            call == (GxCall::Position3s16 { x, y, z }),
    {
        GxCall::Position3s16 { x, y, z }
    }

    /// Sends a position of three unsigned 8-bit coordinates.
    pub fn position_3u8(x: u8, y: u8, z: u8) -> (call: GxCall)
        ensures
            call == (GxCall::Position3u8 { x, y, z }),
    {
        GxCall::Position3u8 { x, y, z }
    }

    /// Sends a position of three signed 8-bit coordinates.
    pub fn position_3i8(x: i8, y: i8, z: i8) -> (call: GxCall)
        ensures
            call == (GxCall::Position3s8 { x, y, z }),
    {
        GxCall::Position3s8 { x, y, z }
    }

    /// Sends a position of two unsigned 16-bit coordinates.
    pub fn position_2u16(x: u16, y: u16) -> (call: GxCall)
        ensures
            call == (GxCall::Position2u16 { x, y }),
    {
        GxCall::Position2u16 { x, y }
    }

    /// Sends a position of two signed 16-bit coordinates.
    pub fn position_2i16(x: i16, y: i16) -> (call: GxCall)
        ensures
            call == (GxCall::Position2s16 { x, y }),
    {
        GxCall::Position2s16 { x, y }
    }

    /// Sends a position of two unsigned 8-bit coordinates.
    pub fn position_2u8(x: u8, y: u8) -> (call: GxCall)
        ensures
            call == (GxCall::Position2u8 { x, y }),
    {
        GxCall::Position2u8 { x, y }
    }

    /// Sends a position of two signed 8-bit coordinates.
    pub fn position_2i8(x: i8, y: i8) -> (call: GxCall)
        ensures
            call == (GxCall::Position2s8 { x, y }),
    {
        GxCall::Position2s8 { x, y }
    }

    /// Sends an 8-bit index into the position array.
    pub fn position1x8(index: u8) -> (call: GxCall)
        ensures
            call == (GxCall::Position1x8 { index }),
    {
        GxCall::Position1x8 { index }
    }

    /// Sends a 16-bit index into the position array.
    pub fn position1x16(index: u16) -> (call: GxCall)
        ensures
            call == (GxCall::Position1x16 { index }),
    {
        GxCall::Position1x16 { index }
    }

    /// Sends a color of four 8-bit components. The parameters are named `r, b, g, a`: the
    /// second argument is sent as blue and the third as green, so `GX_Color4u8` receives them
    /// in the order first, third, second, fourth.
    pub fn color_4u8(r: u8, b: u8, g: u8, a: u8) -> (call: GxCall)
        ensures
            call == Gx::spec_color_4u8(r, b, g, a),
            call == (GxCall::Color4u8 { r: r, g: g, b: b, a: a }),
    {
        GxCall::Color4u8 { r, g, b, a }
    }

    /// Sends a color of three 8-bit components. The parameters are named `r, b, g`: the
    /// second argument is sent as blue and the third as green, so `GX_Color3u8` receives them
    /// in the order first, third, second.
    pub fn color_3u8(r: u8, b: u8, g: u8) -> (call: GxCall)
        ensures
            call == (GxCall::Color3u8 { r, g, b }),
    {
        GxCall::Color3u8 { r, g, b }
    }

    /// Sends a color packed in 32 bits.
    pub fn color_1u32(clr: u32) -> (call: GxCall)
        ensures
            call == (GxCall::Color1u32 { clr }),
    {
        GxCall::Color1u32 { clr }
    }

    /// Sends a color packed in 16 bits.
    pub fn color_1u16(clr: u16) -> (call: GxCall)
        ensures
            call == (GxCall::Color1u16 { clr }),
    {
        GxCall::Color1u16 { clr }
    }

    /// Sends an 8-bit index into the color array.
    pub fn color1x8(index: u8) -> (call: GxCall)
        ensures
            call == (GxCall::Color1x8 { index }),
    {
        GxCall::Color1x8 { index }
    }

    /// Sends a 16-bit index into the color array.
    pub fn color1x16(index: u16) -> (call: GxCall)
        ensures
            call == (GxCall::Color1x16 { index }),
    {
        GxCall::Color1x16 { index }
    }

    /// Sends the four components of `clr`, in RGBA order.
    pub fn color_color(clr: Color) -> (call: GxCall)
        ensures
            call == Gx::spec_color_color(clr),
            call == (GxCall::Color4u8 { r: clr.r, g: clr.g, b: clr.b, a: clr.a }),
    {
        GxCall::Color4u8 { r: clr.r, g: clr.g, b: clr.b, a: clr.a }
    }

    /// Flushes the write-gather pipe.
    pub fn flush() -> (call: GxCall)
        ensures
            call == GxCall::Flush,
    {
        GxCall::Flush
    }

    /// Ends the primitive begun by `begin`.
    pub fn end() -> (call: GxCall)
        ensures
            call == GxCall::End,
    {
        GxCall::End
    }
}

} // verus!
