//! The closed set of platforms for which runtime distributions are published.
//! Each platform component carries the identifier that upstream archives use
//! in their file names; a string outside the known set is rejected before any
//! path is constructed, so no path ever holds an empty or unknown identifier.

use vstd::prelude::*;

use crate::strings::str_eq;

verus! {

/// Operating systems for which distribution archives are published.
#[derive(Clone, Copy, Debug, PartialEq, Eq, Structural)]
pub enum Os {
    Linux,
    Macos,
}

/// CPU architectures for which distribution archives are published.
#[derive(Clone, Copy, Debug, PartialEq, Eq, Structural)]
pub enum Arch {
    X86,
    X64,
}

impl Os {
    /// The operating-system component of a distribution archive's name.
    pub open spec fn spec_identifier(self) -> Seq<char> {
        match self {
            Os::Linux => "linux"@,
            Os::Macos => "darwin"@,
        }
    }

    pub fn identifier(self) -> (r: &'static str)
        ensures
            r@ == self.spec_identifier(),
    {
        match self {
            Os::Linux => "linux",
            Os::Macos => "darwin",
        }
    }

    /// Distinct operating systems carry distinct identifiers.
    pub proof fn lemma_identifier_injective(a: Os, b: Os)
        requires
            a.spec_identifier() == b.spec_identifier(),
        ensures
            a == b,
    {
        reveal_strlit("linux");
        reveal_strlit("darwin");
        assert("linux"@.len() != "darwin"@.len());
    }

    /// No identifier contains the separator used in archive file names.
    pub proof fn lemma_identifier_free_of_dash(self)
        ensures
            !self.spec_identifier().contains('-'),
    {
        reveal_strlit("linux");
        reveal_strlit("darwin");
        let s = self.spec_identifier();
        assert forall|i: int| 0 <= i < s.len() implies s[i] != '-' by {
            if self is Linux {
                assert(s =~= "linux"@);
            } else {
                assert(s =~= "darwin"@);
            }
        }
    }
}

impl Arch {
    /// The architecture component of a distribution archive's name.
    pub open spec fn spec_identifier(self) -> Seq<char> {
        match self {
            Arch::X86 => "x86"@,
            Arch::X64 => "x64"@,
        }
    }

    pub fn identifier(self) -> (r: &'static str)
        ensures
            r@ == self.spec_identifier(),
    {
        match self {
            Arch::X86 => "x86",
            Arch::X64 => "x64",
        }
    }

    /// Distinct architectures carry distinct identifiers.
    pub proof fn lemma_identifier_injective(a: Arch, b: Arch)
        requires
            a.spec_identifier() == b.spec_identifier(),
        ensures
            a == b,
    {
        reveal_strlit("x86");
        reveal_strlit("x64");
        if a != b {
            assert("x86"@[1] != "x64"@[1]);
        }
    }

    /// No identifier contains the separator used in archive file names.
    pub proof fn lemma_identifier_free_of_dash(self)
        ensures
            !self.spec_identifier().contains('-'),
    {
        reveal_strlit("x86");
        reveal_strlit("x64");
        let s = self.spec_identifier();
        assert forall|i: int| 0 <= i < s.len() implies s[i] != '-' by {
            if self is X86 {
                assert(s =~= "x86"@);
            } else {
                assert(s =~= "x64"@);
            }
        }
    }
}

/// Accepts exactly the known operating-system identifiers; anything else is
/// rejected, so an unsupported system can never reach path construction.
pub fn parse_os(s: &str) -> (r: Option<Os>)
    ensures
        r == Some(Os::Linux) <==> s@ == "linux"@,
        r == Some(Os::Macos) <==> s@ == "darwin"@,
        r is None <==> s@ != "linux"@ && s@ != "darwin"@,
{
    proof {
        reveal_strlit("linux");
        reveal_strlit("darwin");
        assert("linux"@.len() != "darwin"@.len());
    }
    if str_eq(s, "linux") {
        Some(Os::Linux)
    } else if str_eq(s, "darwin") {
        Some(Os::Macos)
    } else {
        None
    }
}

/// Accepts exactly the known architecture identifiers; anything else is
/// rejected, so an unsupported architecture can never reach path construction.
pub fn parse_arch(s: &str) -> (r: Option<Arch>)
    ensures
        r == Some(Arch::X86) <==> s@ == "x86"@,
        r == Some(Arch::X64) <==> s@ == "x64"@,
        r is None <==> s@ != "x86"@ && s@ != "x64"@,
{
    proof {
        reveal_strlit("x86");
        reveal_strlit("x64");
        assert("x86"@[1] != "x64"@[1]);
        assert("x86"@ != "x64"@);
    }
    if str_eq(s, "x86") {
        Some(Arch::X86)
    } else if str_eq(s, "x64") {
        Some(Arch::X64)
    } else {
        None
    }
}

} // verus!
