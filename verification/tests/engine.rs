use build_limit_changer::engine::{HookEngine, HookError, InstalledHook};

#[test]
fn a_new_engine_holds_no_hook() {
    let engine = HookEngine::new();
    assert_eq!(engine.installed(), None);
    assert_eq!(engine.original(), None);
    assert_eq!(engine.check_target(0x1000), Ok(()));
    assert_eq!(engine.check_target(0), Err(HookError::InvalidTarget));
}

#[test]
fn a_hook_is_installed_once() {
    let mut engine = HookEngine::new();
    assert_eq!(engine.install(0x40_1000, Some(0x7000_0040)), Ok(0x7000_0040));
    let hook = InstalledHook { target_address: 0x40_1000, original_fn: 0x7000_0040 };
    assert_eq!(engine.installed(), Some(hook));
    assert_eq!(engine.original(), Some(0x7000_0040));
    assert_eq!(engine.check_target(0x40_2000), Err(HookError::AlreadyInstalled));
    assert_eq!(engine.check_target(0), Err(HookError::AlreadyInstalled));
    assert_eq!(engine.install(0x40_2000, Some(0x7000_0080)), Err(HookError::AlreadyInstalled));
    assert_eq!(engine.installed(), Some(hook));
}

#[test]
fn a_failed_patch_leaves_no_hook() {
    let mut engine = HookEngine::new();
    assert_eq!(engine.install(0x40_1000, None), Err(HookError::PatchFailed));
    assert_eq!(engine.installed(), None);
    assert_eq!(engine.install(0x40_1000, Some(0)), Err(HookError::PatchFailed));
    assert_eq!(engine.installed(), None);
    assert_eq!(engine.install(0, Some(0x7000_0040)), Err(HookError::InvalidTarget));
    assert_eq!(engine.installed(), None);
    assert_eq!(engine.install(0x40_1000, Some(0x7000_0040)), Ok(0x7000_0040));
}
