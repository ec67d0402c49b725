use ogc_gx::modes::{
    AlphaOp, AttnFn, BlendCtrl, BlendMode, CmpFn, CullMode, DiffFn, DistFn, LogicOp, Perf0, Perf1,
    Primitive, Source, SpotFn, TexFilter, VtxAttr, WrapMode, ZCompress,
};

fn all_distinct<T: PartialEq + std::fmt::Debug>(codes: &[T]) {
    for i in 0..codes.len() {
        for j in (i + 1)..codes.len() {
            assert_ne!(codes[i], codes[j], "codes {} and {} coincide", i, j);
        }
    }
}

#[test]
fn cull_mode_codes() {
    assert_eq!(CullMode::Off.code(), 0);
    assert_eq!(CullMode::Front.code(), 1);
    assert_eq!(CullMode::Back.code(), 2);
    assert_eq!(CullMode::All.code(), 3);
}

#[test]
fn cmp_fn_codes() {
    let all = [
        CmpFn::Never,
        CmpFn::Less,
        CmpFn::Equal,
        CmpFn::LessEq,
        CmpFn::Greater,
        CmpFn::NotEq,
        CmpFn::GreaterEq,
        CmpFn::Always,
    ];
    for (i, f) in all.iter().enumerate() {
        assert_eq!(f.code() as usize, i);
    }
}

#[test]
fn alpha_op_codes() {
    assert_eq!(AlphaOp::And.code(), 0);
    assert_eq!(AlphaOp::Or.code(), 1);
    assert_eq!(AlphaOp::Xor.code(), 2);
    assert_eq!(AlphaOp::Xnor.code(), 3);
}

#[test]
fn primitive_codes() {
    assert_eq!(Primitive::Quads.code(), 0x80);
    assert_eq!(Primitive::Triangles.code(), 0x90);
    assert_eq!(Primitive::TriangleStrip.code(), 0x98);
    assert_eq!(Primitive::TriangleFan.code(), 0xA0);
    assert_eq!(Primitive::Lines.code(), 0xA8);
    assert_eq!(Primitive::LineStrip.code(), 0xB0);
    assert_eq!(Primitive::Points.code(), 0xB8);
}

#[test]
fn blend_mode_codes() {
    assert_eq!(BlendMode::Off.code(), 0);
    assert_eq!(BlendMode::Blend.code(), 1);
    assert_eq!(BlendMode::Logic.code(), 2);
    assert_eq!(BlendMode::Subtract.code(), 3);
}

#[test]
fn logic_op_codes() {
    assert_eq!(LogicOp::Clear.code(), 0);
    assert_eq!(LogicOp::And.code(), 1);
    assert_eq!(LogicOp::RevAnd.code(), 2);
    assert_eq!(LogicOp::Copy.code(), 3);
    assert_eq!(LogicOp::InvAnd.code(), 4);
    assert_eq!(LogicOp::Nop.code(), 5);
    assert_eq!(LogicOp::Xor.code(), 6);
    assert_eq!(LogicOp::Or.code(), 7);
    assert_eq!(LogicOp::Nor.code(), 8);
    assert_eq!(LogicOp::Equiv.code(), 9);
    assert_eq!(LogicOp::Inv.code(), 10);
    assert_eq!(LogicOp::RevOr.code(), 11);
    assert_eq!(LogicOp::InvCopy.code(), 12);
    assert_eq!(LogicOp::InvOr.code(), 13);
    assert_eq!(LogicOp::Nand.code(), 14);
    assert_eq!(LogicOp::SetBits.code(), 15);
}

#[test]
fn perf0_codes() {
    assert_eq!(Perf0::Vertices.code(), 0);
    assert_eq!(Perf0::ClipVtx.code(), 1);
    assert_eq!(Perf0::ClipClks.code(), 2);
    assert_eq!(Perf0::XfWaitIn.code(), 3);
    assert_eq!(Perf0::XfXfrmClks.code(), 5);
    assert_eq!(Perf0::ClipRatio.code(), 10);
    assert_eq!(Perf0::Triangles.code(), 11);
    assert_eq!(Perf0::Triangles0Tex.code(), 15);
    assert_eq!(Perf0::Triangles8Tex.code(), 23);
    assert_eq!(Perf0::Triangles0Clr.code(), 24);
    assert_eq!(Perf0::Quad0Cvg.code(), 27);
    assert_eq!(Perf0::QuadNon0Cvg.code(), 28);
    assert_eq!(Perf0::Quad4Cvg.code(), 32);
    assert_eq!(Perf0::AvgQuadCnt.code(), 33);
    assert_eq!(Perf0::Clocks.code(), 34);
    assert_eq!(Perf0::Disabled.code(), 35);
}

#[test]
fn perf1_codes() {
    assert_eq!(Perf1::Texels.code(), 0);
    assert_eq!(Perf1::TxIdle.code(), 1);
    assert_eq!(Perf1::TxRegs.code(), 2);
    assert_eq!(Perf1::TxMemStall.code(), 3);
    assert_eq!(Perf1::TcCheck12.code(), 4);
    assert_eq!(Perf1::TcMiss.code(), 8);
    assert_eq!(Perf1::VcAllStalls.code(), 15);
    assert_eq!(Perf1::Vertices.code(), 16);
    assert_eq!(Perf1::FifoReq.code(), 17);
    assert_eq!(Perf1::CallReq.code(), 18);
    assert_eq!(Perf1::VcMissReq.code(), 19);
    assert_eq!(Perf1::CpAllReq.code(), 20);
    assert_eq!(Perf1::Clocks.code(), 21);
    assert_eq!(Perf1::Disabled.code(), 22);
}

#[test]
fn blend_ctrl_codes() {
    assert_eq!(BlendCtrl::Zero.code(), 0);
    assert_eq!(BlendCtrl::One.code(), 1);
    assert_eq!(BlendCtrl::SrcColor.code(), 2);
    assert_eq!(BlendCtrl::InvSrcColor.code(), 3);
    assert_eq!(BlendCtrl::SrcAlpha.code(), 4);
    assert_eq!(BlendCtrl::InvSrcAlpha.code(), 5);
    assert_eq!(BlendCtrl::DstAlpha.code(), 6);
    assert_eq!(BlendCtrl::InvDstAlpha.code(), 7);
}

#[test]
fn small_enum_codes() {
    assert_eq!(ZCompress::Linear.code(), 0);
    assert_eq!(ZCompress::Far.code(), 3);
    assert_eq!(Source::Register.code(), 0);
    assert_eq!(Source::Vertex.code(), 1);
    assert_eq!(DiffFn::Off.code(), 0);
    assert_eq!(DiffFn::Signed.code(), 1);
    assert_eq!(DiffFn::Clamp.code(), 2);
    assert_eq!(AttnFn::Spec.code(), 0);
    assert_eq!(AttnFn::Spot.code(), 1);
    assert_eq!(AttnFn::Off.code(), 2);
    assert_eq!(DistFn::Off.code(), 0);
    assert_eq!(DistFn::Steep.code(), 3);
    assert_eq!(SpotFn::Off.code(), 0);
    assert_eq!(SpotFn::Ring2.code(), 6);
    assert_eq!(WrapMode::Clamp.code(), 0);
    assert_eq!(WrapMode::Repeat.code(), 1);
    assert_eq!(WrapMode::Mirror.code(), 2);
}

#[test]
fn tex_filter_codes() {
    assert_eq!(TexFilter::Near.code(), 0);
    assert_eq!(TexFilter::Linear.code(), 1);
    assert_eq!(TexFilter::NearMipNear.code(), 2);
    assert_eq!(TexFilter::LinMipNear.code(), 3);
    assert_eq!(TexFilter::NearMipLin.code(), 4);
    assert_eq!(TexFilter::LinMipLin.code(), 5);
}

#[test]
fn vtx_attr_codes() {
    assert_eq!(VtxAttr::PtnMtxIdx.code(), 0);
    assert_eq!(VtxAttr::Tex0MtxIdx.code(), 1);
    assert_eq!(VtxAttr::Tex7MtxIdx.code(), 8);
    assert_eq!(VtxAttr::Pos.code(), 9);
    assert_eq!(VtxAttr::Nrm.code(), 10);
    assert_eq!(VtxAttr::Color0.code(), 11);
    assert_eq!(VtxAttr::Color1.code(), 12);
    assert_eq!(VtxAttr::Tex0.code(), 13);
    assert_eq!(VtxAttr::Tex7.code(), 20);
    assert_eq!(VtxAttr::PosMtxArray.code(), 21);
    assert_eq!(VtxAttr::NrmMtxArray.code(), 22);
    assert_eq!(VtxAttr::TexMtxArray.code(), 23);
    assert_eq!(VtxAttr::LightArray.code(), 24);
    assert_eq!(VtxAttr::Nbt.code(), 25);
    assert_eq!(VtxAttr::MaxAttr.code(), 26);
    assert_eq!(VtxAttr::Null.code(), 255);
}

#[test]
fn codes_are_distinct() {
    all_distinct(&[
        VtxAttr::Null, VtxAttr::LightArray, VtxAttr::NrmMtxArray, VtxAttr::PosMtxArray,
        VtxAttr::TexMtxArray, VtxAttr::Color0, VtxAttr::Color1, VtxAttr::MaxAttr, VtxAttr::Nbt,
        VtxAttr::Nrm, VtxAttr::Pos, VtxAttr::PtnMtxIdx, VtxAttr::Tex0, VtxAttr::Tex0MtxIdx,
        VtxAttr::Tex1, VtxAttr::Tex1MtxIdx, VtxAttr::Tex2, VtxAttr::Tex2MtxIdx, VtxAttr::Tex3,
        VtxAttr::Tex3MtxIdx, VtxAttr::Tex4, VtxAttr::Tex4MtxIdx, VtxAttr::Tex5,
        VtxAttr::Tex5MtxIdx, VtxAttr::Tex6, VtxAttr::Tex6MtxIdx, VtxAttr::Tex7,
        VtxAttr::Tex7MtxIdx,
    ].map(|a| a.code()));
    all_distinct(&[
        LogicOp::And, LogicOp::Clear, LogicOp::Copy, LogicOp::Equiv, LogicOp::Inv,
        LogicOp::InvAnd, LogicOp::InvCopy, LogicOp::InvOr, LogicOp::Nand, LogicOp::Nop,
        LogicOp::Nor, LogicOp::Or, LogicOp::RevAnd, LogicOp::RevOr, LogicOp::SetBits,
        LogicOp::Xor,
    ].map(|o| o.code()));
    all_distinct(&[
        Primitive::Quads, Primitive::Triangles, Primitive::TriangleStrip, Primitive::TriangleFan,
        Primitive::Lines, Primitive::LineStrip, Primitive::Points,
    ].map(|p| p.code()));
}
