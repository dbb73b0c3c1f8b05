use xinput_viewer::backend::{probe_module, select_backend, Backend, BackendError, LoadedModules};
use xinput_viewer::path::{
    ascii_nul, library_path, wide_nul, PathError, HOOKED_EXPORT, HOOKED_LIBRARY, MAX_PATH,
    PROXIED_EXPORT, PROXIED_LIBRARY,
};

fn wide(s: &str) -> Vec<u16> {
    s.encode_utf16().collect()
}

#[test]
fn proxied_library_path_in_system_directory() {
    let dir = wide("C:\\Windows\\system32");
    let path = library_path(&dir, PROXIED_LIBRARY).unwrap();
    let mut expected = wide("C:\\Windows\\system32\\dinput8.dll");
    expected.push(0);
    assert_eq!(path, expected);
}

#[test]
fn hooked_library_path_in_system_directory() {
    let dir = wide("C:\\Windows\\SysWOW64");
    let path = library_path(&dir, HOOKED_LIBRARY).unwrap();
    let mut expected = wide("C:\\Windows\\SysWOW64\\xinput1_3.dll");
    expected.push(0);
    assert_eq!(path, expected);
}

#[test]
fn empty_system_directory_is_an_error() {
    assert_eq!(library_path(&Vec::new(), PROXIED_LIBRARY), Err(PathError::NoSystemDirectory));
}

#[test]
fn non_ascii_name_is_an_error() {
    assert_eq!(library_path(&wide("C:\\x"), "d\u{e9}.dll"), Err(PathError::NonAsciiName));
    assert_eq!(wide_nul("\u{e9}"), None);
    assert_eq!(ascii_nul("caf\u{e9}"), None);
}

#[test]
fn path_at_the_limit() {
    let name = "a.dll";
    let fits = vec![0x43u16; MAX_PATH - name.len() - 2];
    let path = library_path(&fits, name).unwrap();
    assert_eq!(path.len(), MAX_PATH);
    assert_eq!(path[MAX_PATH - 1], 0);
    let over = vec![0x43u16; MAX_PATH - name.len() - 1];
    assert_eq!(library_path(&over, name), Err(PathError::TooLong));
    let huge = vec![0x43u16; MAX_PATH + 5];
    assert_eq!(library_path(&huge, name), Err(PathError::TooLong));
}

#[test]
fn names_are_nul_terminated() {
    let mut w = wide("D3D12Core.dll");
    w.push(0);
    assert_eq!(wide_nul("D3D12Core.dll"), Some(w));
    assert_eq!(wide_nul(""), Some(vec![0]));
    let mut b = HOOKED_EXPORT.as_bytes().to_vec();
    b.push(0);
    assert_eq!(ascii_nul(HOOKED_EXPORT), Some(b));
    assert_eq!(ascii_nul(PROXIED_EXPORT).unwrap().len(), "DirectInput8Create".len() + 1);
}

fn modules(d3d12: bool, d3d11: bool, d3d9: bool, opengl: bool) -> LoadedModules {
    LoadedModules { d3d12, d3d11, d3d9, opengl }
}

#[test]
fn backend_preference_order() {
    assert_eq!(select_backend(modules(true, true, true, true)), Ok(Backend::Dx12));
    assert_eq!(select_backend(modules(false, true, true, true)), Ok(Backend::Dx11));
    assert_eq!(select_backend(modules(false, false, true, true)), Ok(Backend::Dx9));
    assert_eq!(select_backend(modules(false, false, false, true)), Ok(Backend::OpenGl3));
}

#[test]
fn no_backend_is_an_error() {
    assert_eq!(select_backend(modules(false, false, false, false)), Err(BackendError::NoneDetected));
}

#[test]
fn probe_module_names() {
    assert_eq!(probe_module(Backend::Dx12), "D3D12Core.dll");
    assert_eq!(probe_module(Backend::Dx11), "d3d11.dll");
    assert_eq!(probe_module(Backend::Dx9), "d3d9.dll");
    assert_eq!(probe_module(Backend::OpenGl3), "OPENGL32.dll");
}
