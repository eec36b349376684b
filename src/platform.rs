//! The host platform descriptor returned by the platform query.

use vstd::prelude::*;
use vstd::string::StringExecFns;

verus! {

/// Operating system, CPU architecture and OS family of the host, as the
/// host's own identifiers spell them (`"linux"`, `"x86_64"`, `"unix"`).
pub struct PlatformInfo {
    pub os: String,
    pub arch: String,
    pub family: String,
}

/// The descriptor's three fields, in the order `os`, `arch`, `family`.
pub struct PlatformView {
    pub os: Seq<char>,
    pub arch: Seq<char>,
    pub family: Seq<char>,
}

impl View for PlatformInfo {
    type V = PlatformView;

    open spec fn view(&self) -> PlatformView {
        PlatformView { os: self.os@, arch: self.arch@, family: self.family@ }
    }
}

/// The key under which the frontend reads the operating system.
pub const OS_KEY: &'static str = "os";

/// The key under which the frontend reads the CPU architecture.
pub const ARCH_KEY: &'static str = "arch";

/// The key under which the frontend reads the OS family.
pub const FAMILY_KEY: &'static str = "family";

impl PlatformView {
    /// Every field names something: none is empty.
    pub open spec fn complete(self) -> bool {
        &&& self.os.len() > 0
        &&& self.arch.len() > 0
        &&& self.family.len() > 0
    }

    /// The record as the frontend receives it: key and value pairs.
    pub open spec fn entries(self) -> Seq<(Seq<char>, Seq<char>)> {
        seq![(OS_KEY@, self.os), (ARCH_KEY@, self.arch), (FAMILY_KEY@, self.family)]
    }
}

/// The descriptor built from the host's three identifiers.
pub open spec fn platform_spec(os: Seq<char>, arch: Seq<char>, family: Seq<char>) -> PlatformView {
    PlatformView { os, arch, family }
}

/// Describes the host from its operating system, architecture and family
/// identifiers, each kept exactly as given.
pub fn get_platform_info(os: &str, arch: &str, family: &str) -> (r: PlatformInfo)
    ensures
        r@ == platform_spec(os@, arch@, family@),
{
    PlatformInfo {
        os: String::from_str(os),
        arch: String::from_str(arch),
        family: String::from_str(family),
    }
}

impl PlatformInfo {
    /// Whether each of the three fields is non-empty.
    pub fn is_complete(&self) -> (r: bool)
        ensures
            r == self@.complete(),
    {
        self.os.as_str().unicode_len() > 0 && self.arch.as_str().unicode_len() > 0
            && self.family.as_str().unicode_len() > 0
    }

    /// The record's key and value pairs, in the order `os`, `arch`, `family`.
    pub fn entries(&self) -> (r: Vec<(String, String)>)
        ensures
            r@.len() == 3,
            forall|i: int|
                0 <= i < 3 ==> (#[trigger] r@[i]).0@ == self@.entries()[i].0 && r@[i].1@
                    == self@.entries()[i].1,
    {
        let mut r: Vec<(String, String)> = Vec::new();
        r.push((String::from_str(OS_KEY), self.os.clone()));
        r.push((String::from_str(ARCH_KEY), self.arch.clone()));
        r.push((String::from_str(FAMILY_KEY), self.family.clone()));
        r
    }
}

/// Repeated platform queries on the same host agree: two records that the
/// query can return for the same identifiers are field by field equal.
pub proof fn lemma_platform_query_repeatable(
    first: PlatformInfo,
    second: PlatformInfo,
    os: Seq<char>,
    arch: Seq<char>,
    family: Seq<char>,
)
    requires
        first@ == platform_spec(os, arch, family),
        second@ == platform_spec(os, arch, family),
    ensures
        first.os@ == second.os@,
        first.arch@ == second.arch@,
        first.family@ == second.family@,
{
}

} // verus!
