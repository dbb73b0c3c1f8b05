use vstd::prelude::*;

verus! {

/// A graphics backend that the rendering engine can attach to.
#[derive(Clone, Copy, PartialEq, Eq, Structural, Debug)]
pub enum Backend {
    Dx12,
    Dx11,
    Dx9,
    OpenGl3,
}

/// Which of the known graphics modules are loaded in the host process.
#[derive(Clone, Copy, PartialEq, Eq, Structural, Debug)]
pub struct LoadedModules {
    pub d3d12: bool,
    pub d3d11: bool,
    pub d3d9: bool,
    pub opengl: bool,
}

/// No known graphics module is loaded: the overlay cannot attach.
#[derive(Clone, Copy, PartialEq, Eq, Structural, Debug)]
pub enum BackendError {
    NoneDetected,
}

/// The backend chosen for the loaded modules `m`: the first present in the
/// order Direct3D 12, Direct3D 11, Direct3D 9, OpenGL.
pub open spec fn select_backend_spec(m: LoadedModules) -> Option<Backend> {
    if m.d3d12 {
        Some(Backend::Dx12)
    } else if m.d3d11 {
        Some(Backend::Dx11)
    } else if m.d3d9 {
        Some(Backend::Dx9)
    } else if m.opengl {
        Some(Backend::OpenGl3)
    } else {
        None
    }
}

/// The module whose presence in the host process reveals the backend `b`.
pub fn probe_module(b: Backend) -> (r: &'static str)
    ensures
        b == Backend::Dx12 ==> r@ == "D3D12Core.dll"@,
        b == Backend::Dx11 ==> r@ == "d3d11.dll"@,
        b == Backend::Dx9 ==> r@ == "d3d9.dll"@,
        b == Backend::OpenGl3 ==> r@ == "OPENGL32.dll"@,
{
    match b {
        Backend::Dx12 => "D3D12Core.dll",
        Backend::Dx11 => "d3d11.dll",
        Backend::Dx9 => "d3d9.dll",
        Backend::OpenGl3 => "OPENGL32.dll",
    }
}

/// Selects exactly one backend from the loaded modules, by a fixed order of
/// preference, or fails where none is loaded.
pub fn select_backend(m: LoadedModules) -> (r: Result<Backend, BackendError>)
    ensures
        select_backend_spec(m) is Some ==> r == Ok::<Backend, BackendError>(select_backend_spec(m)->0),
        select_backend_spec(m) is None <==> r == Err::<Backend, BackendError>(BackendError::NoneDetected),
{
    if m.d3d12 {
        Ok(Backend::Dx12)
    } else if m.d3d11 {
        Ok(Backend::Dx11)
    } else if m.d3d9 {
        Ok(Backend::Dx9)
    } else if m.opengl {
        Ok(Backend::OpenGl3)
    } else {
        Err(BackendError::NoneDetected)
    }
}

} // verus!
