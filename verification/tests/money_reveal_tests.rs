use radarflow::money_reveal::{
    MoneyReveal, PatchAction, PatchError, PatchOutcome, PATCHED_SITE_SIGNATURE, SITE_SIGNATURE,
};
use radarflow::pattern::{parse_pattern, ScanError};

const BASE: u64 = 0x7ff6_1000_0000;

/// A module image with `lead` filler bytes before the bytes that `signature`
/// writes, its wildcards filled with 0x11.
fn image_with(signature: &str, lead: usize) -> Vec<u8> {
    let mut image = vec![0xCCu8; lead];
    for place in parse_pattern(signature).unwrap() {
        image.push(place.unwrap_or(0x11));
    }
    image.extend_from_slice(&[0xCC; 5]);
    image
}

/// Does to `memory` what the action asks and reports it.
fn perform(action: PatchAction, memory: &mut Vec<u8>) -> PatchOutcome {
    match action {
        PatchAction::Patch { address, bytes } => {
            let at = (address - BASE) as usize;
            let original = [memory[at], memory[at + 1], memory[at + 2]];
            memory[at..at + 3].copy_from_slice(&bytes);
            PatchOutcome::Patched { original }
        }
        PatchAction::Restore { address, bytes } => {
            let at = (address - BASE) as usize;
            memory[at..at + 3].copy_from_slice(&bytes);
            PatchOutcome::Restored
        }
        PatchAction::Nothing => panic!("nothing to perform"),
    }
}

fn toggle_on(patcher: &mut MoneyReveal, memory: &mut Vec<u8>) -> Result<bool, PatchError> {
    let action = patcher.toggle_plan()?;
    let outcome = perform(action, memory);
    patcher.toggle(outcome)
}

#[test]
fn a_new_patcher_knows_no_site() {
    let patcher = MoneyReveal::new();
    assert!(!patcher.is_enabled());
    assert_eq!(patcher.address(), None);
}

#[test]
fn the_signatures_are_well_formed() {
    assert_eq!(parse_pattern(SITE_SIGNATURE).unwrap().len(), 24);
    assert_eq!(parse_pattern(PATCHED_SITE_SIGNATURE).unwrap().len(), 24);
    assert_eq!(parse_pattern(SITE_SIGNATURE).unwrap()[..4], [
        Some(0x48),
        Some(0x83),
        Some(0xEC),
        Some(0x28),
    ]);
    assert_eq!(parse_pattern(PATCHED_SITE_SIGNATURE).unwrap()[..4], [
        Some(0xB0),
        Some(0x01),
        Some(0xC3),
        Some(0x28),
    ]);
    assert_eq!(parse_pattern(SITE_SIGNATURE).unwrap()[4..], parse_pattern(
        PATCHED_SITE_SIGNATURE,
    ).unwrap()[4..]);
}

#[test]
fn init_finds_the_untouched_site() {
    let image = image_with(SITE_SIGNATURE, 37);
    let mut patcher = MoneyReveal::new();
    assert_eq!(patcher.find_function(&image, BASE), Ok(Some(BASE + 37)));
    assert_eq!(patcher.init(&image, BASE), Ok(()));
    assert_eq!(patcher.address(), Some(BASE + 37));
    assert!(!patcher.is_enabled());
}

#[test]
fn init_falls_back_to_the_patched_site() {
    let image = image_with(PATCHED_SITE_SIGNATURE, 12);
    let mut patcher = MoneyReveal::new();
    assert_eq!(patcher.init(&image, BASE), Ok(()));
    assert_eq!(patcher.address(), Some(BASE + 12));
}

#[test]
fn init_prefers_the_untouched_site() {
    let mut image = image_with(PATCHED_SITE_SIGNATURE, 3);
    let at = image.len();
    image.extend_from_slice(&image_with(SITE_SIGNATURE, 0));
    let mut patcher = MoneyReveal::new();
    assert_eq!(patcher.init(&image, BASE), Ok(()));
    assert_eq!(patcher.address(), Some(BASE + at as u64));
}

#[test]
fn init_without_a_site_is_no_error_and_toggle_then_fails() {
    let image = vec![0xCCu8; 64];
    let mut patcher = MoneyReveal::new();
    assert_eq!(patcher.init(&image, BASE), Ok(()));
    assert_eq!(patcher.address(), None);
    assert!(matches!(patcher.toggle_plan(), Err(PatchError::NotInitialized)));
    assert_eq!(patcher.toggle(PatchOutcome::Restored), Err(PatchError::NotInitialized));
    assert_eq!(
        patcher.toggle(PatchOutcome::Patched { original: [1, 2, 3] }),
        Err(PatchError::NotInitialized)
    );
    assert_eq!(patcher.toggle(PatchOutcome::Failed), Err(PatchError::NotInitialized));
    assert!(!patcher.is_enabled());
}

#[test]
fn toggle_before_init_is_not_initialized() {
    let mut patcher = MoneyReveal::new();
    assert!(matches!(patcher.toggle_plan(), Err(PatchError::NotInitialized)));
    assert_eq!(patcher.toggle(PatchOutcome::Failed), Err(PatchError::NotInitialized));
    assert_eq!(PatchError::NotInitialized.message(), "Money reveal not initialized");
}

#[test]
fn toggle_writes_the_stub_and_keeps_the_original() {
    let mut memory = image_with(SITE_SIGNATURE, 8);
    let mut patcher = MoneyReveal::new();
    patcher.init(&memory, BASE).unwrap();
    let action = patcher.toggle_plan().unwrap();
    assert!(matches!(
        action,
        PatchAction::Patch { address, bytes } if address == BASE + 8 && bytes == [0xB0, 0x01, 0xC3]
    ));
    let outcome = perform(action, &mut memory);
    assert!(matches!(outcome, PatchOutcome::Patched { original } if original == [0x48, 0x83, 0xEC]));
    assert_eq!(patcher.toggle(outcome), Ok(true));
    assert!(patcher.is_enabled());
    assert_eq!(memory[8..11], [0xB0, 0x01, 0xC3]);

    let action = patcher.toggle_plan().unwrap();
    assert!(matches!(
        action,
        PatchAction::Restore { address, bytes } if address == BASE + 8 && bytes == [0x48, 0x83, 0xEC]
    ));
    let outcome = perform(action, &mut memory);
    assert_eq!(patcher.toggle(outcome), Ok(false));
    assert!(!patcher.is_enabled());
    assert_eq!(memory[8..11], [0x48, 0x83, 0xEC]);
}

#[test]
fn an_even_number_of_toggles_leaves_the_bytes_as_they_were() {
    let pristine = image_with(SITE_SIGNATURE, 20);
    let mut memory = pristine.clone();
    let mut patcher = MoneyReveal::new();
    patcher.init(&memory, BASE).unwrap();
    for round in 1..=10u32 {
        let enabled = toggle_on(&mut patcher, &mut memory).unwrap();
        assert_eq!(enabled, round % 2 == 1);
        if round % 2 == 0 {
            assert_eq!(memory, pristine);
        } else {
            assert_eq!(memory[20..23], [0xB0, 0x01, 0xC3]);
            assert_eq!(memory[..20], pristine[..20]);
            assert_eq!(memory[23..], pristine[23..]);
        }
    }
}

#[test]
fn a_failed_toggle_changes_nothing() {
    let memory = image_with(SITE_SIGNATURE, 0);
    let mut patcher = MoneyReveal::new();
    patcher.init(&memory, BASE).unwrap();
    assert_eq!(patcher.toggle(PatchOutcome::Failed), Err(PatchError::Transport));
    assert!(!patcher.is_enabled());
    assert!(matches!(patcher.toggle_plan(), Ok(PatchAction::Patch { .. })));

    assert_eq!(patcher.toggle(PatchOutcome::Patched { original: [1, 2, 3] }), Ok(true));
    assert_eq!(patcher.toggle(PatchOutcome::Failed), Err(PatchError::Transport));
    assert!(patcher.is_enabled());
    assert!(matches!(
        patcher.toggle_plan(),
        Ok(PatchAction::Restore { bytes, .. }) if bytes == [1, 2, 3]
    ));
}

#[test]
fn a_report_out_of_step_is_refused() {
    let memory = image_with(SITE_SIGNATURE, 0);
    let mut patcher = MoneyReveal::new();
    patcher.init(&memory, BASE).unwrap();
    assert_eq!(patcher.toggle(PatchOutcome::Restored), Err(PatchError::OutOfStep));
    assert!(!patcher.is_enabled());
    assert_eq!(patcher.toggle(PatchOutcome::Patched { original: [9, 9, 9] }), Ok(true));
    assert_eq!(
        patcher.toggle(PatchOutcome::Patched { original: [7, 7, 7] }),
        Err(PatchError::OutOfStep)
    );
    assert!(patcher.is_enabled());
    assert!(matches!(
        patcher.toggle_plan(),
        Ok(PatchAction::Restore { bytes, .. }) if bytes == [9, 9, 9]
    ));
}

#[test]
fn ensure_disabled_restores_once_and_is_idempotent() {
    let pristine = image_with(SITE_SIGNATURE, 5);
    let mut memory = pristine.clone();
    let mut patcher = MoneyReveal::new();
    patcher.init(&memory, BASE).unwrap();

    assert!(matches!(patcher.disable_plan(), PatchAction::Nothing));
    assert_eq!(patcher.ensure_disabled(PatchOutcome::Restored), Ok(()));
    assert!(!patcher.is_enabled());

    toggle_on(&mut patcher, &mut memory).unwrap();
    toggle_on(&mut patcher, &mut memory).unwrap();
    toggle_on(&mut patcher, &mut memory).unwrap();
    assert!(patcher.is_enabled());
    assert_ne!(memory, pristine);

    let action = patcher.disable_plan();
    assert!(matches!(action, PatchAction::Restore { .. }));
    let outcome = perform(action, &mut memory);
    assert_eq!(patcher.ensure_disabled(outcome), Ok(()));
    assert!(!patcher.is_enabled());
    assert_eq!(memory, pristine);

    assert!(matches!(patcher.disable_plan(), PatchAction::Nothing));
    assert_eq!(patcher.ensure_disabled(PatchOutcome::Failed), Ok(()));
    assert!(!patcher.is_enabled());
    assert!(matches!(patcher.toggle_plan(), Ok(PatchAction::Patch { .. })));
}

#[test]
fn ensure_disabled_that_fails_keeps_the_patch_on_record() {
    let memory = image_with(SITE_SIGNATURE, 0);
    let mut patcher = MoneyReveal::new();
    patcher.init(&memory, BASE).unwrap();
    patcher.toggle(PatchOutcome::Patched { original: [4, 5, 6] }).unwrap();
    assert_eq!(patcher.ensure_disabled(PatchOutcome::Failed), Err(PatchError::Transport));
    assert!(patcher.is_enabled());
    assert_eq!(
        patcher.ensure_disabled(PatchOutcome::Patched { original: [0, 0, 0] }),
        Err(PatchError::OutOfStep)
    );
    assert!(patcher.is_enabled());
    assert!(matches!(
        patcher.disable_plan(),
        PatchAction::Restore { bytes, .. } if bytes == [4, 5, 6]
    ));
}

#[test]
fn init_again_keeps_the_switch() {
    let memory = image_with(SITE_SIGNATURE, 2);
    let mut patcher = MoneyReveal::new();
    patcher.init(&memory, BASE).unwrap();
    patcher.toggle(PatchOutcome::Patched { original: [4, 5, 6] }).unwrap();
    let moved = image_with(SITE_SIGNATURE, 9);
    assert_eq!(patcher.init(&moved, BASE), Ok(()));
    assert!(patcher.is_enabled());
    assert_eq!(patcher.address(), Some(BASE + 9));
    let empty: Vec<u8> = Vec::new();
    assert_eq!(patcher.init(&empty, BASE), Ok(()));
    assert_eq!(patcher.address(), None);
    assert!(patcher.is_enabled());
    assert!(matches!(patcher.disable_plan(), PatchAction::Nothing));
    assert_eq!(patcher.ensure_disabled(PatchOutcome::Restored), Ok(()));
    assert!(patcher.is_enabled());
}

#[test]
fn scan_errors_compare() {
    assert_eq!(ScanError::Malformed, ScanError::Malformed);
    assert_eq!(PatchError::Transport.message(), "Memory could not be read or written");
    assert_eq!(PatchError::OutOfStep.message(), "Reported step is not the one asked for");
}
