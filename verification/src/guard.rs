use vstd::prelude::*;
use rand::RngCore;
use crate::masking::{mask_seq, KEY_LEN};
use crate::erase::zeroize_key;
use crate::probe::{traceme_probe, tracer_present};
use crate::pages::{
    page_aligned, DenialReason, PageProtector, Protection, ProtectionDenied, ProtectionRequest,
    Region,
};

verus! {

/// Guard construction failed because the platform entropy source could not
/// supply key material. No guard is returned in that case; a weak or zero
/// key is never substituted.
#[derive(Clone, Copy, PartialEq, Eq, Structural, Debug)]
pub struct EntropyUnavailable;

/// Relies on `rand::rngs::OsRng::try_fill_bytes`: fills the buffer from the
/// operating system's entropy source and reports failure instead of
/// panicking when that source is unavailable. The bytes are random, so
/// nothing is promised of the value that comes back.
#[verifier::external_body]
fn os_entropy_key() -> (r: Result<[u8; 32], EntropyUnavailable>) {
    let mut key = [0u8; 32];
    match rand::rngs::OsRng.try_fill_bytes(&mut key) {
        Ok(()) => Ok(key),
        Err(_) => Err(EntropyUnavailable),
    }
}

/// What a hide request decided: either countermeasures are off and nothing
/// is to be done, or a protection change is ready for the operating system.
#[derive(Clone, Copy, PartialEq, Eq, Structural, Debug)]
pub enum HideOutcome {
    /// Countermeasures are disabled on this guard; no request was made.
    Skipped,
    /// The region is page-aligned; hand this request to the operating
    /// system and feed its answer to `resolve_protection`.
    Requested(ProtectionRequest),
}

/// An in-process anti-forensic memory guard. It owns 32 bytes of key
/// material drawn from the OS entropy source at construction, and an
/// `anti_analysis` switch that gates whether the debugger-probe and
/// page-hiding countermeasures are active.
pub struct MemoryObfuscator {
    encryption_key: [u8; 32],
    anti_analysis: bool,
}

impl MemoryObfuscator {
    /// The guard's key material, as a sequence of 32 bytes.
    pub closed spec fn spec_key(self) -> Seq<u8> {
        self.encryption_key@
    }

    /// Every guard holds exactly `KEY_LEN` bytes of key material.
    pub proof fn lemma_key_len(self)
        ensures
            self.spec_key().len() == KEY_LEN,
    {
    }

    /// Whether the anti-analysis countermeasures are active on this guard.
    pub closed spec fn anti_analysis_enabled(self) -> bool {
        self.anti_analysis
    }

    /// Constructs a guard with countermeasures enabled. Fails with
    /// `EntropyUnavailable` exactly when the OS entropy source cannot supply
    /// the 32 bytes of key material.
    pub fn new() -> (r: Result<MemoryObfuscator, EntropyUnavailable>)
        ensures
            r matches Ok(g) ==> g.anti_analysis_enabled() && g.spec_key().len() == KEY_LEN,
    {
        MemoryObfuscator::with_anti_analysis(true)
    }

    /// Constructs a guard with the countermeasure switch set as given. The
    /// guard's key is exactly what the entropy source supplied, routed
    /// through `from_key`; nothing else is ever stored in its place.
    pub fn with_anti_analysis(anti_analysis: bool) -> (r: Result<MemoryObfuscator, EntropyUnavailable>)
        ensures
            r matches Ok(g) ==> g.anti_analysis_enabled() == anti_analysis
                && g.spec_key().len() == KEY_LEN,
    {
        match os_entropy_key() {
            Ok(key) => Ok(MemoryObfuscator::from_key(key, anti_analysis)),
            Err(e) => Err(e),
        }
    }

    /// Builds a guard around key material the caller already holds: the
    /// guard's key is exactly the given bytes, nothing substituted, and the
    /// countermeasure switch is as given.
    pub fn from_key(key: [u8; 32], anti_analysis: bool) -> (g: MemoryObfuscator)
        ensures
            g.spec_key() == key@,
            g.anti_analysis_enabled() == anti_analysis,
    {
        MemoryObfuscator { encryption_key: key, anti_analysis }
    }

    /// Reads the countermeasure switch.
    pub fn anti_analysis(&self) -> (r: bool)
        ensures
            r == self.anti_analysis_enabled(),
    {
        self.anti_analysis
    }

    /// Masks the caller's buffer in place with the guard's key: byte `i`
    /// becomes `data[i] ^ key[i % 32]`. The key byte is a deterministic
    /// function of the position, so a second call with the same guard
    /// restores the original contents (see `lemma_mask_involutive`). The
    /// guard's own key material is never touched.
    pub fn encrypt_in_memory(&self, data: &mut Vec<u8>)
        ensures
            final(data)@ == mask_seq(old(data)@, self.spec_key()),
    {
        let n = data.len();
        for i in 0..n
            invariant
                n == data@.len(),
                data@.len() == old(data)@.len(),
                forall|j: int| 0 <= j < i ==> data@[j]
                    == old(data)@[j] ^ self.spec_key()[j % (KEY_LEN as int)],
                forall|j: int| i <= j < n ==> data@[j] == old(data)@[j],
        {
            let k = self.encryption_key[i % KEY_LEN];
            let b = data[i];
            data.set(i, b ^ k);
        }
        assert(data@ =~= mask_seq(old(data)@, self.spec_key()));
    }

    /// One-shot debugger probe. When countermeasures are off, no probe is
    /// made and the result is `false`. Otherwise the guard attempts to
    /// become its own process's tracee: rejection means a tracer was
    /// already attached (`true`); acceptance means none was (`false`), and
    /// the successful attempt itself is consumed as the process's trace
    /// state — this is a consumable capability, not a pure query.
    pub fn detect_debugger(&self) -> (r: bool)
        ensures
            !self.anti_analysis_enabled() ==> r == false,
    {
        if !self.anti_analysis {
            return false;
        }
        let probe = traceme_probe();
        tracer_present(&probe)
    }

    /// Decides a request to revoke all access to the pages of a region the
    /// caller owns, so that any later read of it faults. When
    /// countermeasures are off no request is made; otherwise the region is
    /// validated against the page size and the caller receives either a
    /// no-access request to hand to the operating system or the exact
    /// denial. The region must be a separate, inert resource: the guard
    /// never hides memory its own live state depends on.
    pub fn hide_memory_pages(&self, protector: &PageProtector, region: Region) -> (r: Result<
        HideOutcome,
        ProtectionDenied,
    >)
        requires
            protector.wf(),
        ensures
            !self.anti_analysis_enabled() ==> r == Ok::<HideOutcome, ProtectionDenied>(
                HideOutcome::Skipped,
            ),
            self.anti_analysis_enabled() && page_aligned(region, protector.spec_page_size())
                ==> r == Ok::<HideOutcome, ProtectionDenied>(
                HideOutcome::Requested(
                    ProtectionRequest { region, protection: Protection::NoAccess },
                ),
            ),
            self.anti_analysis_enabled() && !page_aligned(region, protector.spec_page_size())
                ==> r == Err::<HideOutcome, ProtectionDenied>(
                ProtectionDenied { region, reason: DenialReason::Misaligned },
            ),
    {
        if !self.anti_analysis {
            return Ok(HideOutcome::Skipped);
        }
        match protector.plan_change(region, Protection::NoAccess) {
            Ok(request) => Ok(HideOutcome::Requested(request)),
            Err(denied) => Err(denied),
        }
    }

    /// Teardown step: erases the guard's key material, leaving every key
    /// byte zero, before the guard's storage is released or repurposed.
    /// The countermeasure switch is left as it was.
    pub fn destroy(&mut self)
        ensures
            forall|i: int| 0 <= i < KEY_LEN ==> final(self).spec_key()[i] == 0u8,
            final(self).spec_key().len() == KEY_LEN,
            final(self).anti_analysis_enabled() == old(self).anti_analysis_enabled(),
    {
        zeroize_key(&mut self.encryption_key);
    }
}

} // verus!
