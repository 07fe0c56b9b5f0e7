//! The records that the analyses write for each crate, one JSON value per
//! line, and the names of the files that hold them.
use vstd::prelude::*;

pub mod blocks;
pub mod calls;

pub mod functions;
pub mod file_ops;
pub mod implicit;
pub mod traits;
pub mod unsafety_sources;
pub mod util;


verus! {

pub const SUMMARY_FUNCTIONS_FILE_NAME: &'static str = "02_summary_functions";

pub const UNSAFE_CALLS: &'static str = "03_unsafe_calls";

pub const UNSAFE_CALLS_USER_ONLY: &'static str = "03_unsafe_calls_user_only";

pub const IMPLICIT_RTA_OPTIMISTIC_FILENAME: &'static str = "11_precise_opt_unsafe_in_call_tree";

pub const IMPLICIT_RTA_PESSIMISTIC_FILENAME: &'static str = "11_precise_pes_unsafe_in_call_tree";

pub const FN_UNSAFETY_SOURCES_FILE_NAME: &'static str = "30_unsafe_fn";

pub const NO_REASON_FOR_UNSAFE: &'static str = "31_no_reason";

pub const BLOCK_UNSAFETY_SOURCES_FILE_NAME: &'static str = "40_unsafe_blocks";

pub const BLOCK_SUMMARY_BB: &'static str = "41_blocks_summary";

pub const UNSAFE_TRAITS_IMPLS: &'static str = "50_unsafe_traits_impls";

pub const UNSAFE_TRAITS: &'static str = "51_unsafe_traits";

/// The calling convention of a called function.
#[derive(Clone, Copy, PartialEq, Eq, Structural, Debug)]
pub enum Abi {
    Cdecl,
    Stdcall,
    Fastcall,
    Vectorcall,
    Thiscall,
    Aapcs,
    Win64,
    SysV64,
    PtxKernel,
    Msp430Interrupt,
    X86Interrupt,
    AmdGpuKernel,
    Rust,
    C,
    System,
    RustIntrinsic,
    RustCall,
    PlatformIntrinsic,
    Unadjusted,
}

/// The name under which a calling convention is reported.
pub open spec fn abi_name(abi: Abi) -> Seq<char> {
    match abi {
        Abi::Cdecl => "Cdecl"@,
        Abi::Stdcall => "Stdcall"@,
        Abi::Fastcall => "Fastcall"@,
        Abi::Vectorcall => "Vectorcall"@,
        Abi::Thiscall => "Thiscall"@,
        Abi::Aapcs => "Aapcs"@,
        Abi::Win64 => "Win64"@,
        Abi::SysV64 => "SysV64"@,
        Abi::PtxKernel => "PtxKernel"@,
        Abi::Msp430Interrupt => "Msp430Interrupt"@,
        Abi::X86Interrupt => "X86Interrupt"@,
        Abi::AmdGpuKernel => "AmdGpuKernel"@,
        Abi::Rust => "Rust"@,
        Abi::C => "C"@,
        Abi::System => "System"@,
        Abi::RustIntrinsic => "RustIntrinsic"@,
        Abi::RustCall => "RustCall"@,
        Abi::PlatformIntrinsic => "PlatformIntrinsic"@,
        Abi::Unadjusted => "Unadjusted"@,
    }
}

impl Abi {
    /// The name under which this calling convention is reported.
    pub fn name(&self) -> (r: &'static str)
        ensures
            r@ == abi_name(*self),
    {
        match self {
            Abi::Cdecl => "Cdecl",
            Abi::Stdcall => "Stdcall",
            Abi::Fastcall => "Fastcall",
            Abi::Vectorcall => "Vectorcall",
            Abi::Thiscall => "Thiscall",
            Abi::Aapcs => "Aapcs",
            Abi::Win64 => "Win64",
            Abi::SysV64 => "SysV64",
            Abi::PtxKernel => "PtxKernel",
            Abi::Msp430Interrupt => "Msp430Interrupt",
            Abi::X86Interrupt => "X86Interrupt",
            Abi::AmdGpuKernel => "AmdGpuKernel",
            Abi::Rust => "Rust",
            Abi::C => "C",
            Abi::System => "System",
            Abi::RustIntrinsic => "RustIntrinsic",
            Abi::RustCall => "RustCall",
            Abi::PlatformIntrinsic => "PlatformIntrinsic",
            Abi::Unadjusted => "Unadjusted",
        }
    }
}

} // verus!
