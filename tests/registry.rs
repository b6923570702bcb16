use eztrans_sys::registry::{EntryPoint, ModuleRegistry};
use eztrans_sys::{EzTransError, EzTransLib};

#[test]
fn path_is_fixed_once() {
    let mut reg = ModuleRegistry::new();
    assert!(reg.pending_load().is_none());
    assert_eq!(reg.load_status(), Some(Err(EzTransError::DllPathNotSet)));
    assert_eq!(reg.fix_path("/a/J2KEngine.dll".to_string()), Ok(()));
    assert_eq!(
        reg.fix_path("/b/J2KEngine.dll".to_string()),
        Err(EzTransError::OnceLockError("/b/J2KEngine.dll".to_string()))
    );
    assert_eq!(reg.pending_load(), Some("/a/J2KEngine.dll".to_string()));
}

#[test]
fn missing_module_fails_construction() {
    let mut reg = ModuleRegistry::new();
    reg.fix_path(EzTransLib::dll_path(Some("/nowhere"))).unwrap();
    reg.record_load(Err("cannot open /nowhere/J2KEngine.dll".to_string()));
    assert!(reg.pending_load().is_none());
    let status = reg.load_status().unwrap();
    assert_eq!(
        status,
        Err(EzTransError::LibraryLoadError("cannot open /nowhere/J2KEngine.dll".to_string()))
    );
    let wide = reg.supports(EntryPoint::TranslateMmntw);
    assert!(!wide);
    assert!(matches!(
        EzTransLib::new(status, wide),
        Err(EzTransError::LibraryLoadError(_))
    ));
}

#[test]
fn load_outcome_is_kept() {
    let mut reg = ModuleRegistry::new();
    reg.fix_path("/a".to_string()).unwrap();
    assert_eq!(reg.load_status(), None);
    reg.record_load(Err("first".to_string()));
    reg.record_load(Ok(()));
    assert_eq!(reg.load_status(), Some(Err(EzTransError::LibraryLoadError("first".to_string()))));
    assert_eq!(
        reg.entry_status(EntryPoint::Terminate),
        Some(Err(EzTransError::LibraryLoadError("first".to_string())))
    );
    assert_eq!(reg.pending_symbol(EntryPoint::Terminate), None);
}

#[test]
fn entry_points_resolve_independently() {
    let mut reg = ModuleRegistry::new();
    reg.fix_path("/a".to_string()).unwrap();
    reg.record_load(Ok(()));
    assert_eq!(reg.load_status(), Some(Ok(())));
    assert_eq!(reg.pending_symbol(EntryPoint::TranslateMmntw), Some("J2K_TranslateMMNTW"));
    assert_eq!(reg.pending_symbol(EntryPoint::FreeMem), Some("J2K_FreeMem"));
    reg.record_symbol(EntryPoint::TranslateMmntw, Err("not found".to_string()));
    reg.record_symbol(EntryPoint::TranslateMmntw, Ok(()));
    reg.record_symbol(EntryPoint::TranslateMmnt, Ok(()));
    assert!(!reg.supports(EntryPoint::TranslateMmntw));
    assert!(reg.supports(EntryPoint::TranslateMmnt));
    assert_eq!(
        reg.entry_status(EntryPoint::TranslateMmntw),
        Some(Err(EzTransError::SymbolLoadError("not found".to_string())))
    );
    assert_eq!(reg.entry_status(EntryPoint::FreeMem), None);
    assert_eq!(reg.pending_symbol(EntryPoint::TranslateMmntw), None);
    assert_eq!(reg.pending_symbol(EntryPoint::FreeMem), Some("J2K_FreeMem"));
    assert_eq!(EntryPoint::InitializeEx.symbol(), "J2K_InitializeEx");
}
