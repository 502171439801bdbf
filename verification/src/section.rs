//! Loaded-section kinds and the naming conventions of loaded sections and crates.

use vstd::prelude::*;

verus! {

/// The possible types of loaded sections.
/// A `.bss` section is treated like `.data` but kept separate;
/// TLS sections are thread-local initializer data (`.tdata`) or zeroed TLS space (`.tbss`).
#[derive(Debug, Clone, Copy, PartialEq, Eq, Structural)]
pub enum SectionType {
    Text,
    Rodata,
    Data,
    Bss,
    TlsData,
    TlsBss,
    GccExceptTable,
    EhFrame,
}

impl SectionType {
    /// The conventional name of sections of this type.
    pub open spec fn spec_name(self) -> Seq<char> {
        match self {
            SectionType::Text => ".text"@,
            SectionType::Rodata => ".rodata"@,
            SectionType::Data => ".data"@,
            SectionType::Bss => ".bss"@,
            SectionType::TlsData => ".tdata"@,
            SectionType::TlsBss => ".tbss"@,
            SectionType::GccExceptTable => ".gcc_except_table"@,
            SectionType::EhFrame => ".eh_frame"@,
        }
    }

    /// Returns the conventional name of sections of this type, e.g. `.rodata`.
    pub fn name(&self) -> (r: &'static str)
        ensures
            r@ == self.spec_name(),
    {
        match self {
            SectionType::Text => ".text",
            SectionType::Rodata => ".rodata",
            SectionType::Data => ".data",
            SectionType::Bss => ".bss",
            SectionType::TlsData => ".tdata",
            SectionType::TlsBss => ".tbss",
            SectionType::GccExceptTable => ".gcc_except_table",
            SectionType::EhFrame => ".eh_frame",
        }
    }

    /// Whether this is one of the two thread-local storage section types.
    pub fn is_tls(&self) -> (r: bool)
        ensures
            r == (*self == SectionType::TlsData || *self == SectionType::TlsBss),
    {
        match self {
            SectionType::TlsData | SectionType::TlsBss => true,
            _ => false,
        }
    }
}

} // verus!
