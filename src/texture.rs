//! Pixel formats of the graphics API, carried through the library unchanged.
use vstd::prelude::*;


verus! {

/// A texture format is chosen from what the surface reports and only ever
/// handed back to the graphics API, so the library keeps it opaque.
#[verifier::external_type_specification]
#[verifier::external_body]
pub struct ExTextureFormat(wgpu::TextureFormat);

/// The format that a texture view of a surface of format `f` takes so that
/// writes to it are gamma-corrected.
pub uninterp spec fn srgb_variant(f: wgpu::TextureFormat) -> wgpu::TextureFormat;

/// Relies on wgpu's `TextureFormat::add_srgb_suffix`: it maps each format
/// to its sRGB counterpart (or to itself), from the format alone.
#[verifier::external_body]
pub(crate) fn srgb_view_format(f: wgpu::TextureFormat) -> (r: wgpu::TextureFormat)
    ensures
        r == srgb_variant(f),
{
    f.add_srgb_suffix()
}

} // verus!
