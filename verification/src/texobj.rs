//! Texture objects: the calls that initialize or change a `GXTexObj`, with their argument rules.

use vstd::prelude::*;
use crate::call::{flag, flag_code, TexObjCall};
use crate::modes::{TexFilter, WrapMode};

verus! {

/// The largest texture width and height.
pub const MAX_TEXTURE_EXTENT: u16 = 1024;

/// The alignment, in bytes, of texture images.
pub const TEXTURE_ALIGN: usize = 32;

/// `GX_ANISO_2`: at most two filter cycles per texel.
pub const ANISO_2: u8 = 1;

/// `GX_ANISO_4`: at most four filter cycles per texel.
pub const ANISO_4: u8 = 2;

/// A magnification filter is point sampling or bilinear filtering, without mipmaps.
pub open spec fn is_mag_filter(f: TexFilter) -> bool {
    f == TexFilter::Near || f == TexFilter::Linear
}

/// Edge LOD must be on when bias clamping or anisotropic filtering is on.
pub open spec fn edge_lod_suffices(biasclamp: bool, edgelod: bool, maxaniso: u8) -> bool {
    (biasclamp || maxaniso == ANISO_2 || maxaniso == ANISO_4) ==> edgelod
}

/// Image address and size rules shared by both texture initializers.
pub open spec fn texture_image_ok(img_addr: usize, width: u16, height: u16) -> bool {
    &&& img_addr % TEXTURE_ALIGN == 0
    &&& width <= MAX_TEXTURE_EXTENT
    &&& height <= MAX_TEXTURE_EXTENT
}

impl TexObjCall {
    /// Initializes a texture object for a non-color-index image at `img_addr`, which must be
    /// 32-byte aligned, of at most 1024 by 1024 texels.
    pub fn init(
        img_addr: usize,
        width: u16,
        height: u16,
        format: u8,
        wrap_s: WrapMode,
        wrap_t: WrapMode,
        mipmap: bool,
    ) -> (call: TexObjCall)
        requires
            texture_image_ok(img_addr, width, height),
        ensures
            call == (TexObjCall::Init {
                img: img_addr,
                width,
                height,
                format,
                wrap_s: wrap_s.spec_code(),
                wrap_t: wrap_t.spec_code(),
                mipmap: flag(mipmap),
            }),
    {
        TexObjCall::Init {
            img: img_addr,
            width,
            height,
            format,
            wrap_s: wrap_s.code(),
            wrap_t: wrap_t.code(),
            mipmap: flag_code(mipmap),
        }
    }

    /// Initializes a texture object for a color-index image at `img_addr` whose colors come
    /// from the TLUT `tlut_name`; the image rules are those of `init`.
    pub fn init_ci(
        img_addr: usize,
        width: u16,
        height: u16,
        format: u8,
        wrap_s: WrapMode,
        wrap_t: WrapMode,
        mipmap: bool,
        tlut_name: u32,
    ) -> (call: TexObjCall)
        requires
            texture_image_ok(img_addr, width, height),
        ensures
            call == (TexObjCall::InitCi {
                img: img_addr,
                width,
                height,
                format,
                wrap_s: wrap_s.spec_code(),
                wrap_t: wrap_t.spec_code(),
                mipmap: flag(mipmap),
                tlut_name,
            }),
    {
        TexObjCall::InitCi {
            img: img_addr,
            width,
            height,
            format,
            wrap_s: wrap_s.code(),
            wrap_t: wrap_t.code(),
            mipmap: flag_code(mipmap),
            tlut_name,
        }
    }

    /// Enables or disables bias clamping for texture LOD.
    pub fn bias_clamp(enable: bool) -> (call: TexObjCall)
        ensures
            call == (TexObjCall::BiasClamp { enable: flag(enable) }),
    {
        TexObjCall::BiasClamp { enable: flag_code(enable) }
    }

    /// Chooses adjacent (`true`) or diagonal (`false`) texels for computing the LOD.
    pub fn edge_lod(enable: bool) -> (call: TexObjCall)
        ensures
            call == (TexObjCall::EdgeLod { enable: flag(enable) }),
    {
        TexObjCall::EdgeLod { enable: flag_code(enable) }
    }

    /// Sets the filter mode; `magfilt` must be `Near` or `Linear`.
    pub fn filter_mode(minfilt: TexFilter, magfilt: TexFilter) -> (call: TexObjCall)
        requires
            is_mag_filter(magfilt),
        ensures
            call == (TexObjCall::FilterMode {
                minfilt: minfilt.spec_code(),
                magfilt: magfilt.spec_code(),
            }),
    {
        TexObjCall::FilterMode { minfilt: minfilt.code(), magfilt: magfilt.code() }
    }

    /// The integer part of an explicit LOD setting: `magfilt` must be `Near` or `Linear`, and
    /// edge LOD must be on where bias clamping or anisotropic filtering is.
    pub fn lod(minfilt: TexFilter, magfilt: TexFilter, biasclamp: bool, edgelod: bool, maxaniso: u8)
        -> (call: TexObjCall)
        requires
            is_mag_filter(magfilt),
            edge_lod_suffices(biasclamp, edgelod, maxaniso),
        ensures
            call == (TexObjCall::Lod {
                minfilt: minfilt.spec_code(),
                magfilt: magfilt.spec_code(),
                biasclamp: flag(biasclamp),
                edgelod: flag(edgelod),
                maxaniso,
            }),
    {
        TexObjCall::Lod {
            minfilt: minfilt.code(),
            magfilt: magfilt.code(),
            biasclamp: flag_code(biasclamp),
            edgelod: flag_code(edgelod),
            maxaniso,
        }
    }

    /// Sets the maximum anisotropic filter.
    pub fn max_aniso(maxaniso: u8) -> (call: TexObjCall)
        ensures
            call == (TexObjCall::MaxAniso { maxaniso }),
    {
        TexObjCall::MaxAniso { maxaniso }
    }

    /// Changes the TLUT that a color-index texture uses.
    pub fn tlut(tlut_name: u32) -> (call: TexObjCall)
        ensures
            call == (TexObjCall::Tlut { tlut_name }),
    {
        TexObjCall::Tlut { tlut_name }
    }

    /// Changes the texture coordinate wrap modes.
    pub fn wrap_mode(wrap_s: WrapMode, wrap_t: WrapMode) -> (call: TexObjCall)
        ensures
            call == (TexObjCall::WrapMode { wrap_s: wrap_s.spec_code(), wrap_t: wrap_t.spec_code() }),
    {
        TexObjCall::WrapMode { wrap_s: wrap_s.code(), wrap_t: wrap_t.code() }
    }
}

} // verus!
