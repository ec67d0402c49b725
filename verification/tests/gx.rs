use ogc_gx::call::{flag_code, FifoCall, GxCall, TexObjCall};
use ogc_gx::color::Color;
use ogc_gx::gx::{Gx, CLIP_DISABLE, CLIP_ENABLE};
use ogc_gx::modes::{
    AlphaOp, AttnFn, BlendCtrl, BlendMode, CmpFn, CullMode, DiffFn, LogicOp, Primitive, Source,
    TexFilter, VtxAttr, WrapMode, ZCompress,
};
use ogc_gx::vtx::VtxDesc;

#[test]
fn clip_toggles() {
    assert_eq!(Gx::enable_clip(), GxCall::SetClipMode { mode: 0 });
    assert_eq!(Gx::disable_clip(), GxCall::SetClipMode { mode: 1 });
    assert_eq!(Gx::enable_clip(), Gx::set_clip_mode(CLIP_ENABLE));
    assert_eq!(Gx::disable_clip(), Gx::set_clip_mode(CLIP_DISABLE));
    assert_ne!(Gx::enable_clip(), Gx::disable_clip());
}

#[test]
fn color_4u8_swaps_blue_and_green_parameters() {
    assert_eq!(Gx::color_4u8(1, 2, 3, 4), GxCall::Color4u8 { r: 1, g: 3, b: 2, a: 4 });
    assert_eq!(Gx::color_3u8(1, 2, 3), GxCall::Color3u8 { r: 1, g: 3, b: 2 });
}

#[test]
fn color_color_sends_rgba() {
    let c = Color::with_alpha(9, 8, 7, 6);
    assert_eq!(Gx::color_color(c), GxCall::Color4u8 { r: 9, g: 8, b: 7, a: 6 });
    assert_eq!(Gx::color_color(c), Gx::color_4u8(c.r, c.b, c.g, c.a));
    assert_eq!(Gx::color_color(Color::new(1, 2, 3)), GxCall::Color4u8 { r: 1, g: 2, b: 3, a: 255 });
}

#[test]
fn flags() {
    assert_eq!(flag_code(true), 1);
    assert_eq!(flag_code(false), 0);
    assert_eq!(Gx::set_dither(true), GxCall::SetDither { dither: 1 });
    assert_eq!(Gx::set_alpha_update(false), GxCall::SetAlphaUpdate { enable: 0 });
    assert_eq!(Gx::set_color_update(true), GxCall::SetColorUpdate { enable: 1 });
    assert_eq!(Gx::set_zcomp_loc(true), GxCall::SetZCompLoc { before_tex: 1 });
    assert_eq!(
        Gx::set_field_mode(false, true),
        GxCall::SetFieldMode { field_mode: 0, half_aspect_ratio: 1 }
    );
}

#[test]
fn encodes_modes() {
    assert_eq!(Gx::set_cull_mode(CullMode::Back), GxCall::SetCullMode { mode: 2 });
    assert_eq!(
        Gx::set_z_mode(true, CmpFn::LessEq, true),
        GxCall::SetZMode { enable: 1, func: 3, update_enable: 1 }
    );
    assert_eq!(
        Gx::set_blend_mode(BlendMode::Blend, BlendCtrl::SrcAlpha, BlendCtrl::InvSrcAlpha, LogicOp::Clear),
        GxCall::SetBlendMode { b_type: 1, src_fact: 4, dst_fact: 5, op: 0 }
    );
    assert_eq!(
        Gx::set_alpha_compare(CmpFn::Greater, 10, AlphaOp::Xnor, CmpFn::Always, 20),
        GxCall::SetAlphaCompare { comp0: 4, ref0: 10, aop: 3, comp1: 7, ref1: 20 }
    );
    assert_eq!(
        Gx::begin(Primitive::Quads, 0, 4),
        GxCall::Begin { primitive: 0x80, vtxfmt: 0, vtxcnt: 4 }
    );
    assert_eq!(
        Gx::set_pixel_fmt(0, ZCompress::Mid),
        GxCall::SetPixelFmt { pix_fmt: 0, z_fmt: 2 }
    );
    assert_eq!(
        Gx::set_channel_controls(0, true, Source::Register, Source::Vertex, 0x5, DiffFn::Clamp, AttnFn::Off),
        GxCall::SetChanCtrl { channel: 0, enable: 1, ambsrc: 0, matsrc: 1, litmask: 5, diff_fn: 2, attn_fn: 2 }
    );
    assert_eq!(
        Gx::set_vtx_desc(VtxAttr::Pos, 1),
        GxCall::SetVtxDesc { attr: 9, v_type: 1 }
    );
    assert_eq!(
        Gx::set_vtx_attr_fmt(7, VtxAttr::Null, 1, 2, 3),
        GxCall::SetVtxAttrFmt { vtxfmt: 7, vtxattr: 255, comptype: 1, compsize: 2, frac: 3 }
    );
}

#[test]
fn passes_arguments_through() {
    assert_eq!(Gx::set_scissor(1, 2, 3, 4), GxCall::SetScissor { x_origin: 1, y_origin: 2, wd: 3, hd: 4 });
    assert_eq!(Gx::set_disp_copy_src(0, 2, 640, 480), GxCall::SetDispCopySrc { left: 0, top: 2, wd: 640, hd: 480 });
    assert_eq!(Gx::set_disp_copy_dst(640, 479), GxCall::SetDispCopyDst { width: 640, height: 479 });
    assert_eq!(Gx::set_disp_copy_gamma(2), GxCall::SetDispCopyGamma { gamma: 2 });
    assert_eq!(Gx::set_num_chans(1), GxCall::SetNumChans { num: 1 });
    assert_eq!(Gx::set_num_tex_gens(2), GxCall::SetNumTexGens { nr: 2 });
    assert_eq!(Gx::set_tev_op(0, 4), GxCall::SetTevOp { tevstage: 0, mode: 4 });
    assert_eq!(
        Gx::set_tev_order(1, 2, 3, 4),
        GxCall::SetTevOrder { tevstage: 1, texcoord: 2, texmap: 3, color: 4 }
    );
    assert_eq!(
        Gx::set_tex_coord_gen(0, 1, 4, 60),
        GxCall::SetTexCoordGen { texcoord: 0, tgen_typ: 1, tgen_src: 4, mtxsrc: 60 }
    );
    let bg = Color::new(0, 0, 0);
    assert_eq!(Gx::set_copy_clear(bg, 0x00ff_ffff), GxCall::SetCopyClear { background: bg, z_value: 0x00ff_ffff });
    assert_eq!(Gx::load_light_idx(3, 1), GxCall::LoadLightObjIdx { litobjidx: 3, litid: 1 });
}

#[test]
fn wide_indices_are_truncated_to_32_bits() {
    let big: usize = if usize::BITS > 32 { (1usize << 32) + 5 } else { 5 };
    assert_eq!(Gx::load_light_idx(big, 0), GxCall::LoadLightObjIdx { litobjidx: 5, litid: 0 });
}

#[test]
fn copy_filter_copies_tables() {
    let mut pattern = [[6u8, 6u8]; 12];
    pattern[3] = [1, 2];
    let filter = [0u8, 0, 21, 22, 21, 0, 0];
    assert_eq!(
        Gx::set_copy_filter(false, &pattern, true, &filter),
        GxCall::SetCopyFilter { aa: 0, sample_pattern: pattern, vf: 1, v_filter: filter }
    );
}

#[test]
fn poke_argb_at_the_last_pixel() {
    let c = Color::with_alpha(1, 2, 3, 4);
    assert_eq!(Gx::poke_argb(639, 527, c), GxCall::PokeArgb { x: 639, y: 527, color: c });
}

#[test]
fn vertex_data() {
    assert_eq!(Gx::position_3u16(1, 2, 3), GxCall::Position3u16 { x: 1, y: 2, z: 3 });
    assert_eq!(Gx::position_3i16(-1, 2, -3), GxCall::Position3s16 { x: -1, y: 2, z: -3 });
    assert_eq!(Gx::position_3u8(1, 2, 3), GxCall::Position3u8 { x: 1, y: 2, z: 3 });
    assert_eq!(Gx::position_3i8(-1, -2, -3), GxCall::Position3s8 { x: -1, y: -2, z: -3 });
    assert_eq!(Gx::position_2u16(1, 2), GxCall::Position2u16 { x: 1, y: 2 });
    assert_eq!(Gx::position_2i16(-1, 2), GxCall::Position2s16 { x: -1, y: 2 });
    assert_eq!(Gx::position_2u8(1, 2), GxCall::Position2u8 { x: 1, y: 2 });
    assert_eq!(Gx::position_2i8(1, -2), GxCall::Position2s8 { x: 1, y: -2 });
    assert_eq!(Gx::position1x8(7), GxCall::Position1x8 { index: 7 });
    assert_eq!(Gx::position1x16(700), GxCall::Position1x16 { index: 700 });
    assert_eq!(Gx::color_1u32(0x11223344), GxCall::Color1u32 { clr: 0x11223344 });
    assert_eq!(Gx::color_1u16(0x1122), GxCall::Color1u16 { clr: 0x1122 });
    assert_eq!(Gx::color1x8(3), GxCall::Color1x8 { index: 3 });
    assert_eq!(Gx::color1x16(300), GxCall::Color1x16 { index: 300 });
}

#[test]
fn argumentless_calls() {
    assert_eq!(Gx::abort_frame(), GxCall::AbortFrame);
    assert_eq!(Gx::clear_bounding_box(), GxCall::ClearBoundingBox);
    assert_eq!(Gx::clear_gp_metric(), GxCall::ClearGpMetric);
    assert_eq!(Gx::clear_vcache_metric(), GxCall::ClearVCacheMetric);
    assert_eq!(Gx::disable_breakpt(), GxCall::DisableBreakPt);
    assert_eq!(Gx::init_xf_ras_metric(), GxCall::InitXfRasMetric);
    assert_eq!(Gx::pix_mode_sync(), GxCall::PixModeSync);
    assert_eq!(Gx::restore_write_gather_pipe(), GxCall::RestoreWriteGatherPipe);
    assert_eq!(Gx::set_draw_done(), GxCall::SetDrawDone);
    assert_eq!(Gx::tex_mode_sync(), GxCall::TexModeSync);
    assert_eq!(Gx::wait_draw_done(), GxCall::WaitDrawDone);
    assert_eq!(Gx::invalidate_tex_all(), GxCall::InvalidateTexAll);
    assert_eq!(Gx::inv_vtx_cache(), GxCall::InvVtxCache);
    assert_eq!(Gx::clear_vtx_desc(), GxCall::ClearVtxDesc);
    assert_eq!(Gx::draw_done(), GxCall::DrawDone);
    assert_eq!(Gx::flush(), GxCall::Flush);
    assert_eq!(Gx::end(), GxCall::End);
}

#[test]
fn init_hands_over_the_size() {
    assert_eq!(
        Gx::init(0x8000_0000, 256 * 1024),
        GxCall::Init { base: 0x8000_0000, size: 256 * 1024 }
    );
    assert_ne!(Gx::init(0, 65536), Gx::init(32, 65536));
    assert_eq!(FifoCall::init_base(64, 64 * 1024), FifoCall::InitBase { base: 64, size: 64 * 1024 });
    assert_ne!(FifoCall::init_base(0, 65536), FifoCall::init_base(4096, 65536));
    assert_eq!(
        FifoCall::init_limits(32 * 1024, 16 * 1024),
        FifoCall::InitLimits { hiwatermark: 32 * 1024, lowatermark: 16 * 1024 }
    );
}

#[test]
fn texture_calls() {
    assert_eq!(
        TexObjCall::init(0x100, 1024, 1024, 6, WrapMode::Repeat, WrapMode::Mirror, true),
        TexObjCall::Init { img: 0x100, width: 1024, height: 1024, format: 6, wrap_s: 1, wrap_t: 2, mipmap: 1 }
    );
    assert_eq!(
        TexObjCall::init_ci(0, 8, 16, 9, WrapMode::Clamp, WrapMode::Repeat, false, 3),
        TexObjCall::InitCi { img: 0, width: 8, height: 16, format: 9, wrap_s: 0, wrap_t: 1, mipmap: 0, tlut_name: 3 }
    );
    assert_ne!(
        TexObjCall::init(0, 8, 8, 0, WrapMode::Clamp, WrapMode::Clamp, false),
        TexObjCall::init(4096, 8, 8, 0, WrapMode::Clamp, WrapMode::Clamp, false)
    );
    assert_eq!(TexObjCall::bias_clamp(true), TexObjCall::BiasClamp { enable: 1 });
    assert_eq!(TexObjCall::edge_lod(false), TexObjCall::EdgeLod { enable: 0 });
    assert_eq!(
        TexObjCall::filter_mode(TexFilter::LinMipLin, TexFilter::Linear),
        TexObjCall::FilterMode { minfilt: 5, magfilt: 1 }
    );
    assert_eq!(
        TexObjCall::lod(TexFilter::NearMipLin, TexFilter::Near, true, true, 2),
        TexObjCall::Lod { minfilt: 4, magfilt: 0, biasclamp: 1, edgelod: 1, maxaniso: 2 }
    );
    assert_eq!(
        TexObjCall::lod(TexFilter::Near, TexFilter::Near, false, false, 0),
        TexObjCall::Lod { minfilt: 0, magfilt: 0, biasclamp: 0, edgelod: 0, maxaniso: 0 }
    );
    assert_eq!(TexObjCall::max_aniso(1), TexObjCall::MaxAniso { maxaniso: 1 });
    assert_eq!(TexObjCall::tlut(7), TexObjCall::Tlut { tlut_name: 7 });
    assert_eq!(
        TexObjCall::wrap_mode(WrapMode::Mirror, WrapMode::Clamp),
        TexObjCall::WrapMode { wrap_s: 2, wrap_t: 0 }
    );
}

#[test]
fn vtx_desc_holds_codes() {
    let d = VtxDesc { attr: VtxAttr::Null.code(), v_type: 0 };
    assert_eq!(d.attr, 255);
}
