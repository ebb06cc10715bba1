//! The money reveal: a three-byte patch at a code site found by pattern
//! search, switched on and off.
//!
//! The patcher never touches memory. It says what has to be read and
//! written ([`MoneyReveal::toggle_plan`], [`MoneyReveal::disable_plan`]); the
//! caller does it and reports how it went ([`MoneyReveal::toggle`],
//! [`MoneyReveal::ensure_disabled`]). The patcher's state changes only when
//! memory did.

use vstd::prelude::*;
use vstd::string::*;
use crate::pattern::{lemma_well_spaced_is_pattern, pattern_of, pattern_scan, scan_result, well_spaced,
    ScanError};

verus! {

/// Number of bytes that the patch replaces.
pub const BUF_SIZE: usize = 3;

/// The code site as it is found in a game that was never patched.
pub const SITE_SIGNATURE: &'static str =
    "48 83 EC 28 48 8B 0D ?? ?? ?? ?? 48 8B 01 FF 90 ?? ?? ?? ?? 84 C0 75 0D";

/// The code site as it is found where the patch is already in place.
pub const PATCHED_SITE_SIGNATURE: &'static str =
    "B0 01 C3 28 48 8B 0D ?? ?? ?? ?? 48 8B 01 FF 90 ?? ?? ?? ?? 84 C0 75 0D";

/// The bytes of the patch: `MOV AL, 1` and `RET`.
pub open spec fn stub_bytes() -> Seq<u8> {
    seq![0xB0u8, 0x01u8, 0xC3u8]
}

/// Why the patch could not be switched.
#[derive(Clone, Copy, Debug, PartialEq, Eq, Structural)]
pub enum PatchError {
    /// The code site was never found.
    NotInitialized,
    /// Memory could not be read or written.
    Transport,
    /// What the caller reports is not what the patcher had asked for.
    OutOfStep,
}

/// What the caller is to do to the target's memory.
#[derive(Clone, Copy, Debug)]
pub enum PatchAction {
    /// Read the bytes at `address`, then write `bytes` over them.
    Patch { address: u64, bytes: [u8; 3] },
    /// Write `bytes` at `address`.
    Restore { address: u64, bytes: [u8; 3] },
    /// Leave memory alone.
    Nothing,
}

/// How the caller fared.
#[derive(Clone, Copy, Debug)]
pub enum PatchOutcome {
    /// The patch is written; `original` are the bytes that stood there.
    Patched { original: [u8; 3] },
    /// The saved bytes are written back.
    Restored,
    /// A read or write failed, and memory is as it was.
    Failed,
}

/// What a [`MoneyReveal`] stands for.
pub struct MoneyRevealView {
    pub is_enabled: bool,
    /// Address of the code site, once found.
    pub address: Option<u64>,
    /// The bytes that the patch replaced, while it is in place.
    pub original_bytes: Option<Seq<u8>>,
}

impl MoneyRevealView {
    /// The bytes that stood at the site are kept exactly while the patch is
    /// in place.
    pub open spec fn wf(self) -> bool {
        &&& self.is_enabled <==> self.original_bytes is Some
        &&& self.original_bytes is Some ==> self.original_bytes->0.len() == BUF_SIZE
    }

    /// The patcher goes with a site that holds `place`: while the patch is
    /// switched on, the site holds the patch.
    pub open spec fn in_step_with(self, place: Seq<u8>) -> bool {
        &&& self.wf()
        &&& place.len() == BUF_SIZE
        &&& self.is_enabled ==> place == stub_bytes()
    }

    /// The patcher with the patch switched off and nothing kept.
    pub open spec fn switched_off(self) -> MoneyRevealView {
        MoneyRevealView { is_enabled: false, original_bytes: None, ..self }
    }

    /// The patcher with the patch switched on over `original`.
    pub open spec fn switched_on(self, original: Seq<u8>) -> MoneyRevealView {
        MoneyRevealView { is_enabled: true, original_bytes: Some(original), ..self }
    }

    /// The patcher, and the site that held `place`, after a toggle that went
    /// through: a patch in place is taken out by writing the kept bytes
    /// back; otherwise what the site holds is kept and the patch is written.
    /// Without a site nothing happens.
    pub open spec fn toggled(self, place: Seq<u8>) -> (MoneyRevealView, Seq<u8>) {
        if self.address is None {
            (self, place)
        } else if self.is_enabled {
            (self.switched_off(), self.original_bytes->0)
        } else {
            (self.switched_on(place), stub_bytes())
        }
    }

    /// The patcher and the site after `times` toggles that went through.
    pub open spec fn toggled_times(self, place: Seq<u8>, times: nat) -> (MoneyRevealView, Seq<u8>)
        decreases times,
    {
        if times == 0 {
            (self, place)
        } else {
            let before = self.toggled_times(place, (times - 1) as nat);
            before.0.toggled(before.1)
        }
    }

    /// The patcher, and the site that held `place`, after a switching off
    /// that went through: a patch in place is taken out by writing the kept
    /// bytes back; where none is in place, or no site is known, nothing
    /// happens.
    pub open spec fn disabled(self, place: Seq<u8>) -> (MoneyRevealView, Seq<u8>) {
        if self.is_enabled && self.address is Some {
            (self.switched_off(), self.original_bytes->0)
        } else {
            (self, place)
        }
    }

    /// The patcher after the caller reported how a toggle went, and what
    /// the toggle answers: the new position of the switch, or why it stays
    /// where it was.
    pub open spec fn after_toggle(self, outcome: PatchOutcome) -> (
        MoneyRevealView,
        Result<bool, PatchError>,
    ) {
        if self.address is None {
            (self, Err(PatchError::NotInitialized))
        } else if outcome is Failed {
            (self, Err(PatchError::Transport))
        } else if self.is_enabled && outcome is Restored {
            (self.switched_off(), Ok(false))
        } else if !self.is_enabled && outcome is Patched {
            (self.switched_on(outcome->original@), Ok(true))
        } else {
            (self, Err(PatchError::OutOfStep))
        }
    }

    /// The patcher after the caller reported how switching off went.
    pub open spec fn after_disable(self, outcome: PatchOutcome) -> (
        MoneyRevealView,
        Result<(), PatchError>,
    ) {
        if !self.is_enabled || self.address is None {
            (self, Ok(()))
        } else if outcome is Failed {
            (self, Err(PatchError::Transport))
        } else if outcome is Restored {
            (self.switched_off(), Ok(()))
        } else {
            (self, Err(PatchError::OutOfStep))
        }
    }
}

/// The patcher.
#[derive(Clone, Copy, Debug)]
pub struct MoneyReveal {
    is_enabled: bool,
    address: Option<u64>,
    original_bytes: Option<[u8; 3]>,
}

impl View for MoneyReveal {
    type V = MoneyRevealView;

    closed spec fn view(&self) -> MoneyRevealView {
        MoneyRevealView {
            is_enabled: self.is_enabled,
            address: self.address,
            original_bytes: match self.original_bytes {
                Some(bytes) => Some(bytes@),
                None => None,
            },
        }
    }
}

/// Both signatures write a pattern.
#[verifier::rlimit(100)]
pub proof fn lemma_signatures_parse()
    ensures
        pattern_of(SITE_SIGNATURE.spec_bytes()) is Some,
        pattern_of(PATCHED_SITE_SIGNATURE.spec_bytes()) is Some,
{
    reveal_strlit("48 83 EC 28 48 8B 0D ?? ?? ?? ?? 48 8B 01 FF 90 ?? ?? ?? ?? 84 C0 75 0D");
    reveal_strlit("B0 01 C3 28 48 8B 0D ?? ?? ?? ?? 48 8B 01 FF 90 ?? ?? ?? ?? 84 C0 75 0D");
    reveal_with_fuel(well_spaced, 25);
    let site = SITE_SIGNATURE.spec_bytes();
    assert(is_ascii(SITE_SIGNATURE));
    is_ascii_spec_bytes(SITE_SIGNATURE);
    assert(site.len() == 71);
    assert(well_spaced(site, 0));
    lemma_well_spaced_is_pattern(site, 0);
    let patched = PATCHED_SITE_SIGNATURE.spec_bytes();
    assert(is_ascii(PATCHED_SITE_SIGNATURE));
    is_ascii_spec_bytes(PATCHED_SITE_SIGNATURE);
    assert(patched.len() == 71);
    assert(well_spaced(patched, 0));
    lemma_well_spaced_is_pattern(patched, 0);
}

/// The address of the code site in a module whose image is `image` and
/// begins at `base`: where the first signature stands, and where it stands
/// nowhere, where the second one does.
pub open spec fn located(image: Seq<u8>, base: u64) -> Result<Option<u64>, ScanError> {
    match scan_result(image, base, SITE_SIGNATURE.spec_bytes()) {
        Ok(None) => scan_result(image, base, PATCHED_SITE_SIGNATURE.spec_bytes()),
        found => found,
    }
}

impl MoneyReveal {
    #[verifier::type_invariant]
    spec fn kept_while_enabled(self) -> bool {
        self.is_enabled <==> self.original_bytes is Some
    }

    /// A patcher that knows no site and has the patch switched off.
    pub fn new() -> (r: MoneyReveal)
        ensures
            r@ == (MoneyRevealView { is_enabled: false, address: None, original_bytes: None }),
            r@.wf(),
    {
        MoneyReveal { is_enabled: false, address: None, original_bytes: None }
    }

    pub fn is_enabled(&self) -> (r: bool)
        ensures
            r == self@.is_enabled,
            self@.wf(),
    {
        proof {
            use_type_invariant(self);
        }
        self.is_enabled
    }

    pub fn address(&self) -> (r: Option<u64>)
        ensures
            r == self@.address,
    {
        self.address
    }

    /// Searches the module for the code site.
    pub fn find_function(&self, image: &[u8], base: u64) -> (r: Result<Option<u64>, ScanError>)
        requires
            base + image@.len() <= u64::MAX,
        ensures
            r == located(image@, base),
            r is Ok,
    {
        proof {
            lemma_signatures_parse();
        }
        match pattern_scan(image, base, SITE_SIGNATURE) {
            Ok(None) => pattern_scan(image, base, PATCHED_SITE_SIGNATURE),
            found => found,
        }
    }

    /// Searches the module for the code site and remembers where it is. A
    /// site that is found nowhere is no error: the patcher then knows none,
    /// and toggling fails until a later search finds one.
    pub fn init(&mut self, image: &[u8], base: u64) -> (r: Result<(), ScanError>)
        requires
            base + image@.len() <= u64::MAX,
        ensures
            match located(image@, base) {
                Ok(address) => r is Ok && final(self)@ == (MoneyRevealView {
                    address,
                    ..old(self)@
                }),
                Err(e) => r == Err::<(), ScanError>(e) && final(self)@ == old(self)@,
            },
            r is Ok,
            final(self)@.wf(),
    {
        proof {
            use_type_invariant(&*self);
        }
        match self.find_function(image, base) {
            Ok(address) => {
                self.address = address;
                Ok(())
            },
            Err(e) => Err(e),
        }
    }

    /// What toggling asks of memory: to put the kept bytes back where the
    /// patch is in place, to read the site and write the patch where it is
    /// not. Without a site there is nothing to toggle.
    pub fn toggle_plan(&self) -> (r: Result<PatchAction, PatchError>)
        ensures
            self@.wf(),
            match r {
                Ok(PatchAction::Patch { address, bytes }) => {
                    &&& self@.address == Some(address)
                    &&& !self@.is_enabled
                    &&& bytes@ == stub_bytes()
                },
                Ok(PatchAction::Restore { address, bytes }) => {
                    &&& self@.address == Some(address)
                    &&& self@.is_enabled
                    &&& self@.original_bytes == Some(bytes@)
                },
                Ok(PatchAction::Nothing) => false,
                Err(e) => e == PatchError::NotInitialized && self@.address is None,
            },
    {
        proof {
            use_type_invariant(self);
        }
        match self.address {
            None => Err(PatchError::NotInitialized),
            Some(address) => match self.original_bytes {
                Some(bytes) => Ok(PatchAction::Restore { address, bytes }),
                None => {
                    let bytes: [u8; 3] = [0xB0, 0x01, 0xC3];
                    assert(bytes@ =~= stub_bytes());
                    Ok(PatchAction::Patch { address, bytes })
                },
            },
        }
    }

    /// Takes note of how the toggle went and answers the new position of the
    /// switch. The patcher changes only where memory did.
    pub fn toggle(&mut self, outcome: PatchOutcome) -> (r: Result<bool, PatchError>)
        ensures
            final(self)@ == old(self)@.after_toggle(outcome).0,
            r == old(self)@.after_toggle(outcome).1,
            final(self)@.wf(),
    {
        proof {
            use_type_invariant(&*self);
        }
        if self.address.is_none() {
            return Err(PatchError::NotInitialized);
        }
        match outcome {
            PatchOutcome::Failed => Err(PatchError::Transport),
            PatchOutcome::Restored => {
                if self.is_enabled {
                    *self = MoneyReveal {
                        is_enabled: false,
                        address: self.address,
                        original_bytes: None,
                    };
                    Ok(false)
                } else {
                    Err(PatchError::OutOfStep)
                }
            },
            PatchOutcome::Patched { original } => {
                if self.is_enabled {
                    Err(PatchError::OutOfStep)
                } else {
                    *self = MoneyReveal {
                        is_enabled: true,
                        address: self.address,
                        original_bytes: Some(original),
                    };
                    Ok(true)
                }
            },
        }
    }

    /// What switching off asks of memory: to put the kept bytes back where
    /// the patch is in place, and nothing where it is not.
    pub fn disable_plan(&self) -> (r: PatchAction)
        ensures
            self@.wf(),
            match r {
                PatchAction::Restore { address, bytes } => {
                    &&& self@.address == Some(address)
                    &&& self@.is_enabled
                    &&& self@.original_bytes == Some(bytes@)
                },
                PatchAction::Nothing => !self@.is_enabled || self@.address is None,
                PatchAction::Patch { .. } => false,
            },
    {
        proof {
            use_type_invariant(self);
        }
        match self.address {
            Some(address) => match self.original_bytes {
                Some(bytes) => PatchAction::Restore { address, bytes },
                None => PatchAction::Nothing,
            },
            None => PatchAction::Nothing,
        }
    }

    /// Takes note of how switching off went. Where the patch was not in
    /// place nothing was asked, and whatever is reported changes nothing.
    pub fn ensure_disabled(&mut self, outcome: PatchOutcome) -> (r: Result<(), PatchError>)
        ensures
            final(self)@ == old(self)@.after_disable(outcome).0,
            r == old(self)@.after_disable(outcome).1,
            final(self)@.wf(),
    {
        proof {
            use_type_invariant(&*self);
        }
        if !self.is_enabled || self.address.is_none() {
            return Ok(());
        }
        match outcome {
            PatchOutcome::Failed => Err(PatchError::Transport),
            PatchOutcome::Restored => {
                *self = MoneyReveal {
                    is_enabled: false,
                    address: self.address,
                    original_bytes: None,
                };
                Ok(())
            },
            PatchOutcome::Patched { .. } => Err(PatchError::OutOfStep),
        }
    }
}

impl PatchError {
    /// The error in words.
    pub fn message(&self) -> (r: String)
        ensures
            r@ == match *self {
                PatchError::NotInitialized => "Money reveal not initialized"@,
                PatchError::Transport => "Memory could not be read or written"@,
                PatchError::OutOfStep => "Reported step is not the one asked for"@,
            },
    {
        match self {
            PatchError::NotInitialized => "Money reveal not initialized".to_owned(),
            PatchError::Transport => "Memory could not be read or written".to_owned(),
            PatchError::OutOfStep => "Reported step is not the one asked for".to_owned(),
        }
    }
}

/// Two toggles in a row undo each other: the patcher and the site are
/// afterwards what they were before.
pub proof fn lemma_toggle_twice(patcher: MoneyRevealView, place: Seq<u8>)
    requires
        patcher.in_step_with(place),
    ensures
        patcher.toggled(place).0.in_step_with(patcher.toggled(place).1),
        patcher.toggled(place).0.toggled(patcher.toggled(place).1) == (patcher, place),
{
    let once = patcher.toggled(place);
    let twice = once.0.toggled(once.1);
    if patcher.address is Some {
        if patcher.is_enabled {
            assert(twice.0.original_bytes == patcher.original_bytes);
        }
        assert(twice.1 =~= place);
    }
}

/// An even number of toggles leaves the bytes at the site as they were, and
/// the patcher too.
pub proof fn lemma_even_toggles_restore(patcher: MoneyRevealView, place: Seq<u8>, times: nat)
    requires
        patcher.in_step_with(place),
        times % 2 == 0,
    ensures
        patcher.toggled_times(place, times) == (patcher, place),
    decreases times,
{
    if times >= 2 {
        let rest = (times - 2) as nat;
        lemma_even_toggles_restore(patcher, place, rest);
        assert(patcher.toggled_times(place, (times - 1) as nat) == patcher.toggled(place));
        lemma_toggle_twice(patcher, place);
    }
}

/// However often the patch was toggled since it was last off, switching it
/// off leaves the site with the bytes it held then, and the patcher as it
/// was then.
pub proof fn lemma_disable_restores(patcher: MoneyRevealView, place: Seq<u8>, times: nat)
    requires
        patcher.in_step_with(place),
        !patcher.is_enabled,
    ensures
        patcher.toggled_times(place, times).0.disabled(patcher.toggled_times(place, times).1) == (
            patcher,
            place,
        ),
{
    if times % 2 == 0 {
        lemma_even_toggles_restore(patcher, place, times);
    } else {
        lemma_even_toggles_restore(patcher, place, (times - 1) as nat);
        let once = patcher.toggled(place);
        if patcher.address is Some {
            assert(once.0.disabled(once.1).0.original_bytes == patcher.original_bytes);
        }
    }
}

/// Switching off twice is switching off once.
pub proof fn lemma_disable_is_idempotent(patcher: MoneyRevealView, place: Seq<u8>)
    ensures
        patcher.disabled(place).0.disabled(patcher.disabled(place).1) == patcher.disabled(place),
{
}

/// Between a toggle that went through and the patcher's own account of it
/// there is no difference: what the plan has written is what [`toggled`]
/// says the site holds, and reporting the plan as done leaves the patcher
/// as [`toggled`] says.
///
/// [`toggled`]: MoneyRevealView::toggled
pub proof fn lemma_plan_done_is_toggled(patcher: MoneyRevealView, place: Seq<u8>, done: PatchOutcome)
    requires
        patcher.wf(),
        patcher.address is Some,
        patcher.is_enabled ==> done is Restored,
        !patcher.is_enabled ==> done is Patched && done->original@ == place,
    ensures
        patcher.after_toggle(done).0 == patcher.toggled(place).0,
        patcher.after_toggle(done).1 == Ok::<bool, PatchError>(!patcher.is_enabled),
{
}

/// The same for switching off: reporting the plan as done leaves the
/// patcher as [`disabled`] says.
///
/// [`disabled`]: MoneyRevealView::disabled
pub proof fn lemma_plan_done_is_disabled(patcher: MoneyRevealView, place: Seq<u8>)
    requires
        patcher.wf(),
    ensures
        patcher.after_disable(PatchOutcome::Restored).0 == patcher.disabled(place).0,
        patcher.after_disable(PatchOutcome::Restored).1 == Ok::<(), PatchError>(()),
{
}

} // verus!
