//! System information values.
use vstd::prelude::*;

use crate::string::{decimal, push_chars, push_decimal, string_of_chars};

verus! {

/// Processor architectures.
#[derive(Debug, Clone, Copy, PartialEq, Eq, Structural)]
pub enum ProcessorArchitecture {
    X86,
    X64,
    Arm,
    Arm64,
    /// Any other architecture, by its identifier.
    Unknown(u16),
}

impl ProcessorArchitecture {
    /// The architecture with the given native identifier.
    pub fn from_id(id: u16) -> (r: ProcessorArchitecture)
        ensures
            r == (if id == 0 {
                ProcessorArchitecture::X86
            } else if id == 9 {
                ProcessorArchitecture::X64
            } else if id == 5 {
                ProcessorArchitecture::Arm
            } else if id == 12 {
                ProcessorArchitecture::Arm64
            } else {
                ProcessorArchitecture::Unknown(id)
            }),
    {
        match id {
            0 => ProcessorArchitecture::X86,
            9 => ProcessorArchitecture::X64,
            5 => ProcessorArchitecture::Arm,
            12 => ProcessorArchitecture::Arm64,
            other => ProcessorArchitecture::Unknown(other),
        }
    }
}

/// Processor information.
#[derive(Debug, Clone, Copy)]
pub struct ProcessorInfo {
    pub architecture: ProcessorArchitecture,
    /// Number of logical processors.
    pub processor_count: u32,
    pub processor_type: u32,
    pub processor_level: u16,
    pub processor_revision: u16,
    /// Page size in bytes.
    pub page_size: u32,
    /// Lowest address available to applications.
    pub min_address: usize,
    /// Highest address available to applications.
    pub max_address: usize,
    pub active_processor_mask: usize,
    pub allocation_granularity: u32,
}

/// Operating system version numbers.
#[derive(Debug, Clone, Copy, PartialEq, Eq, Structural)]
pub struct OsVersion {
    pub major: u32,
    pub minor: u32,
    pub build: u32,
    pub service_pack_major: u16,
    pub service_pack_minor: u16,
    pub product_type: u8,
}

/// The first build number of Windows 11.
pub const WINDOWS_11_FIRST_BUILD: u32 = 22000;

/// The name shown for a version: the marketing name where one is known,
/// followed by the build number.
pub open spec fn os_display(v: OsVersion) -> Seq<char> {
    let build = " (Build "@ + decimal(v.build as nat) + ")"@;
    if v.major >= 10 {
        if v.build >= WINDOWS_11_FIRST_BUILD {
            "Windows 11"@ + build
        } else {
            "Windows 10"@ + build
        }
    } else if v.major == 6 && v.minor == 3 {
        "Windows 8.1"@ + build
    } else if v.major == 6 && v.minor == 2 {
        "Windows 8"@ + build
    } else if v.major == 6 && v.minor == 1 {
        "Windows 7"@ + build
    } else if v.major == 6 && v.minor == 0 {
        "Windows Vista"@ + build
    } else {
        "Windows "@ + decimal(v.major as nat) + "."@ + decimal(v.minor as nat) + build
    }
}

impl OsVersion {
    /// True for major version 10 or later.
    pub fn is_windows_10_or_later(&self) -> (r: bool)
        ensures
            r == (self.major >= 10),
    {
        self.major >= 10
    }

    /// True for major version 10 or later with a build of 22000 or later.
    pub fn is_windows_11_or_later(&self) -> (r: bool)
        ensures
            r == (self.major >= 10 && self.build >= WINDOWS_11_FIRST_BUILD),
    {
        self.major >= 10 && self.build >= WINDOWS_11_FIRST_BUILD
    }

    /// A readable name for the version, such as "Windows 10 (Build 19045)".
    pub fn display_string(&self) -> (r: String)
        ensures
            r@ == os_display(*self),
    {
        let mut out: Vec<char> = Vec::new();
        if self.major >= 10 {
            if self.build >= WINDOWS_11_FIRST_BUILD {
                push_chars(&mut out, "Windows 11");
            } else {
                push_chars(&mut out, "Windows 10");
            }
        } else if self.major == 6 && self.minor == 3 {
            push_chars(&mut out, "Windows 8.1");
        } else if self.major == 6 && self.minor == 2 {
            push_chars(&mut out, "Windows 8");
        } else if self.major == 6 && self.minor == 1 {
            push_chars(&mut out, "Windows 7");
        } else if self.major == 6 && self.minor == 0 {
            push_chars(&mut out, "Windows Vista");
        } else {
            push_chars(&mut out, "Windows ");
            push_decimal(&mut out, self.major);
            push_chars(&mut out, ".");
            push_decimal(&mut out, self.minor);
        }
        let ghost name = out@;
        push_chars(&mut out, " (Build ");
        push_decimal(&mut out, self.build);
        push_chars(&mut out, ")");
        proof {
            assert(out@ =~= name + (" (Build "@ + decimal(self.build as nat) + ")"@));
            assert(Seq::<char>::empty() + "Windows 11"@ =~= "Windows 11"@);
            assert(Seq::<char>::empty() + "Windows 10"@ =~= "Windows 10"@);
            assert(Seq::<char>::empty() + "Windows 8.1"@ =~= "Windows 8.1"@);
            assert(Seq::<char>::empty() + "Windows 8"@ =~= "Windows 8"@);
            assert(Seq::<char>::empty() + "Windows 7"@ =~= "Windows 7"@);
            assert(Seq::<char>::empty() + "Windows Vista"@ =~= "Windows Vista"@);
            assert(Seq::<char>::empty() + "Windows "@ + decimal(self.major as nat) + "."@ + decimal(
                self.minor as nat,
            ) =~= "Windows "@ + decimal(self.major as nat) + "."@ + decimal(self.minor as nat));
        }
        string_of_chars(out)
    }
}

/// Kinds of computer name.
#[derive(Debug, Clone, Copy, PartialEq, Eq, Structural)]
pub enum ComputerNameType {
    NetBios,
    DnsHostname,
    DnsDomain,
    DnsFullyQualified,
    PhysicalNetBios,
    PhysicalDnsHostname,
    PhysicalDnsDomain,
    PhysicalDnsFullyQualified,
}

} // verus!
