//! Why a host cannot run a guest with a CPU model.
use super::profile::{CpuModel, CpuVendor};
use crate::text;
use vstd::prelude::*;

verus! {

/// A CPU model that the host cannot provide, and why.
#[derive(Debug)]
pub enum Error {
    CpuModelNotSupported { model: String, reason: String },
}

/// What keeps a host from providing a CPU model.
#[derive(Clone, Copy, Debug, PartialEq, Eq, Structural)]
pub enum Refusal {
    /// The model is another vendor's.
    Vendor { model_vendor: CpuVendor, host_vendor: CpuVendor },
    /// The host has no entry for a leaf.
    NoLeaf { function: u32 },
    /// The host has no entry for a leaf and subleaf.
    NoSubleaf { function: u32, index: u32 },
    /// The host's highest leaf of a range is too low.
    MaxLeaf { function: u32, host: u32, required: u32 },
    /// The host lacks feature bits of a leaf and subleaf.
    MissingBits { function: u32, index: u32, missing: u32 },
}

impl Refusal {
    /// The refusal in words.
    pub open spec fn text(self) -> Seq<char> {
        match self {
            Refusal::Vendor { model_vendor, host_vendor } => "the model requires a "@
                + model_vendor.text() + " host, but this host is "@ + host_vendor.text(),
            Refusal::NoLeaf { function } => "CPUID leaf 0x"@ + text::hex(function as nat)
                + " is unavailable"@,
            Refusal::NoSubleaf { function, index } => "CPUID leaf 0x"@ + text::hex(
                function as nat,
            ) + ", subleaf 0x"@ + text::hex(index as nat) + " is unavailable"@,
            Refusal::MaxLeaf { function, host, required } => "CPUID leaf 0x"@ + text::hex(
                function as nat,
            ) + " reports maximum 0x"@ + text::hex(host as nat)
                + ", but the model requires 0x"@ + text::hex(required as nat),
            Refusal::MissingBits { function, index, missing } => "CPUID leaf 0x"@ + text::hex(
                function as nat,
            ) + ", subleaf 0x"@ + text::hex(index as nat) + " lacks required bits 0x"@
                + text::hex_padded(missing as nat, 8),
        }
    }

    /// Puts the refusal into words.
    pub fn to_string(&self) -> (s: String)
        ensures
            s@ == self.text(),
    {
        match self {
            Refusal::Vendor { model_vendor, host_vendor } => {
                let mut s = "the model requires a ".to_owned();
                s.append(model_vendor.name());
                s.append(" host, but this host is ");
                s.append(host_vendor.name());
                s
            },
            Refusal::NoLeaf { function } => {
                let mut s = "CPUID leaf 0x".to_owned();
                s.append(text::hex_text(*function).as_str());
                s.append(" is unavailable");
                s
            },
            Refusal::NoSubleaf { function, index } => {
                let mut s = "CPUID leaf 0x".to_owned();
                s.append(text::hex_text(*function).as_str());
                s.append(", subleaf 0x");
                s.append(text::hex_text(*index).as_str());
                s.append(" is unavailable");
                s
            },
            Refusal::MaxLeaf { function, host, required } => {
                let mut s = "CPUID leaf 0x".to_owned();
                s.append(text::hex_text(*function).as_str());
                s.append(" reports maximum 0x");
                s.append(text::hex_text(*host).as_str());
                s.append(", but the model requires 0x");
                s.append(text::hex_text(*required).as_str());
                s
            },
            Refusal::MissingBits { function, index, missing } => {
                let mut s = "CPUID leaf 0x".to_owned();
                s.append(text::hex_text(*function).as_str());
                s.append(", subleaf 0x");
                s.append(text::hex_text(*index).as_str());
                s.append(" lacks required bits 0x");
                s.append(text::hex_text_padded(*missing, 8).as_str());
                s
            },
        }
    }
}

impl Error {
    /// The error reports this refusal of this model.
    pub open spec fn reports(self, model: CpuModel, refusal: Refusal) -> bool {
        match self {
            Error::CpuModelNotSupported { model: name, reason } => {
                &&& name@ == model.text()
                &&& reason@ == refusal.text()
            },
        }
    }

    /// The error for a refusal of a model.
    pub fn new(model: CpuModel, refusal: Refusal) -> (e: Error)
        ensures
            e.reports(model, refusal),
    {
        Error::CpuModelNotSupported { model: model.to_string(), reason: refusal.to_string() }
    }
}

} // verus!
