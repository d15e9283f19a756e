use vstd::prelude::*;

verus! {

/// A memory region described by its start address and its length in bytes.
/// The region is a plain description of an address range; it does not own
/// the memory and the guard never reads through it.
#[derive(Clone, Copy, PartialEq, Eq, Structural, Debug)]
pub struct Region {
    pub addr: usize,
    pub len: usize,
}

/// The access rights that can be requested for a region's pages.
#[derive(Clone, Copy, PartialEq, Eq, Structural, Debug)]
pub enum Protection {
    NoAccess,
    ReadOnly,
    ReadWrite,
    ReadWriteExecute,
}

/// Why a page-protection change was refused.
#[derive(Clone, Copy, PartialEq, Eq, Structural, Debug)]
pub enum DenialReason {
    /// The region's address or length is not a multiple of the page size;
    /// no request was issued to the operating system.
    Misaligned,
    /// The operating system rejected the change; carries the raw `errno`.
    OsRejected { code: i32 },
}

/// A page-protection change was refused. Carries the attempted region and
/// the reason for the refusal.
#[derive(Clone, Copy, PartialEq, Eq, Structural, Debug)]
pub struct ProtectionDenied {
    pub region: Region,
    pub reason: DenialReason,
}

/// A protection change that is ready to hand to the operating system: the
/// caller performs the change on `region` to `protection` and feeds the
/// outcome back through `resolve_protection`.
#[derive(Clone, Copy, PartialEq, Eq, Structural, Debug)]
pub struct ProtectionRequest {
    pub region: Region,
    pub protection: Protection,
}

/// A region is page-aligned when its start address and its length are both
/// whole multiples of the page size.
pub open spec fn page_aligned(region: Region, page_size: usize) -> bool {
    &&& page_size > 0
    &&& region.addr % page_size == 0
    &&& region.len % page_size == 0
}

/// Relies on `page_size::get`: queries the platform for its memory page
/// size (cached after the first call). Nothing is assumed of the value; the
/// caller checks it before use.
#[verifier::external_body]
fn os_page_size() -> (r: usize) {
    page_size::get()
}

/// Page-protection control for a fixed page size, queried from the
/// platform once at initialization rather than hard-coded.
pub struct PageProtector {
    page_size: usize,
}

impl PageProtector {
    /// The page size this protector validates regions against.
    pub closed spec fn spec_page_size(self) -> usize {
        self.page_size
    }

    /// A protector is well-formed when its page size is positive.
    pub open spec fn wf(self) -> bool {
        self.spec_page_size() > 0
    }

    /// Builds a protector for a known page size.
    pub fn new(page_size: usize) -> (r: PageProtector)
        requires
            page_size > 0,
        ensures
            r.wf(),
            r.spec_page_size() == page_size,
    {
        PageProtector { page_size }
    }

    /// Builds a protector for a reported page size: a positive size gives
    /// a protector that validates against exactly that size, and a zero
    /// size gives none.
    pub fn of_page_size(page_size: usize) -> (r: Option<PageProtector>)
        ensures
            page_size > 0 ==> (r matches Some(p) && p.wf() && p.spec_page_size() == page_size),
            page_size == 0 ==> r is None,
    {
        if page_size > 0 {
            Some(PageProtector::new(page_size))
        } else {
            None
        }
    }

    /// Builds a protector for the platform's own page size: the value the
    /// operating system reports is routed through `of_page_size`, so the
    /// protector validates against exactly that value. Returns `None` only
    /// if the platform reports a zero page size, which no usable platform
    /// does.
    pub fn from_system() -> (r: Option<PageProtector>)
        ensures
            r matches Some(p) ==> p.wf(),
    {
        PageProtector::of_page_size(os_page_size())
    }

    /// Reads the page size.
    pub fn page_size(&self) -> (r: usize)
        ensures
            r == self.spec_page_size(),
    {
        self.page_size
    }

    /// Validates a protection change without issuing it: succeeds with a
    /// request for exactly the given region and rights when the region is
    /// page-aligned, and is denied as `Misaligned` otherwise, so a
    /// misaligned request never reaches the operating system and cannot
    /// touch an adjacent page.
    pub fn plan_change(&self, region: Region, protection: Protection) -> (r: Result<
        ProtectionRequest,
        ProtectionDenied,
    >)
        requires
            self.wf(),
        ensures
            page_aligned(region, self.spec_page_size()) ==> r == Ok::<
                ProtectionRequest,
                ProtectionDenied,
            >(ProtectionRequest { region, protection }),
            !page_aligned(region, self.spec_page_size()) ==> r == Err::<
                ProtectionRequest,
                ProtectionDenied,
            >(ProtectionDenied { region, reason: DenialReason::Misaligned }),
    {
        if region.addr % self.page_size == 0 && region.len % self.page_size == 0 {
            Ok(ProtectionRequest { region, protection })
        } else {
            Err(ProtectionDenied { region, reason: DenialReason::Misaligned })
        }
    }
}

/// Turns the operating system's answer to an issued protection change into
/// the guard's result: success stays success, and a rejection becomes
/// `ProtectionDenied` carrying the attempted region and the OS refusal
/// code. No retry is made: after a refusal the region's protection state
/// is unspecified, so the caller must re-validate before trying again.
pub fn resolve_protection(region: Region, os_result: Result<(), i32>) -> (r: Result<
    (),
    ProtectionDenied,
>)
    ensures
        os_result matches Ok(_) ==> r == Ok::<(), ProtectionDenied>(()),
        os_result matches Err(code) ==> r == Err::<(), ProtectionDenied>(
            ProtectionDenied { region, reason: DenialReason::OsRejected { code } },
        ),
{
    match os_result {
        Ok(()) => Ok(()),
        Err(code) => Err(ProtectionDenied { region, reason: DenialReason::OsRejected { code } }),
    }
}

} // verus!
