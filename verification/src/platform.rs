//! Which platform the shell is starting on, and the rendering-backend
//! workaround that one of them needs.

use vstd::prelude::*;

verus! {

/// The operating systems the shell distinguishes at startup. Only
/// `Linux` is treated specially; every other system behaves like
/// `Other`.
#[derive(Clone, Copy, Debug, PartialEq, Eq, Structural)]
pub enum Platform {
    Linux,
    MacOs,
    Windows,
    Other,
}

/// Whether the rendering-backend workaround applies: the GPU
/// buffer-sharing rendering path is disabled only on Linux, where it is
/// known to misbehave on some configurations.
pub open spec fn platform_needs_dmabuf_workaround(p: Platform) -> bool {
    p == Platform::Linux
}

/// Decides whether the given platform needs the rendering-backend
/// workaround.
pub fn needs_dmabuf_workaround(p: Platform) -> (r: bool)
    ensures
        r == platform_needs_dmabuf_workaround(p),
{
    match p {
        Platform::Linux => true,
        _ => false,
    }
}

/// The environment variable that disables the DMA-BUF renderer,
/// together with the value that switches the renderer off.
pub fn dmabuf_workaround_var() -> (r: (&'static str, &'static str))
    ensures
        r.0@ == "WEBKIT_DISABLE_DMABUF_RENDERER"@,
        r.1@ == "1"@,
{
    ("WEBKIT_DISABLE_DMABUF_RENDERER", "1")
}

} // verus!
