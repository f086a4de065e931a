//! The throughput declaration attached to a benchmark: how many elements
//! or bytes one iteration processes. Two byte-counting conventions
//! (binary and decimal) are accepted; they differ only in how the host
//! later renders plain throughput, so both fall in the byte category here.

use vstd::prelude::*;

verus! {

/// The kind of unit a throughput declaration counts: elements or bytes.
#[derive(Clone, Copy, PartialEq, Eq, Structural, Debug)]
pub enum Category {
    Element,
    Byte,
}

/// A throughput declaration: the number of elements or bytes that one
/// benchmark iteration processes.
#[derive(Clone, Copy, PartialEq, Eq, Structural, Debug)]
pub enum ThroughputSpec {
    /// A count of bytes, binary convention.
    Bytes(u64),
    /// A count of bytes, decimal convention.
    BytesDecimal(u64),
    /// A count of elements.
    Elements(u64),
}

impl ThroughputSpec {
    /// The count carried by the declaration, whatever its category.
    pub open spec fn spec_count(self) -> u64 {
        match self {
            ThroughputSpec::Bytes(n) => n,
            ThroughputSpec::BytesDecimal(n) => n,
            ThroughputSpec::Elements(n) => n,
        }
    }

    /// The category of the declaration; both byte conventions count bytes.
    pub open spec fn spec_category(self) -> Category {
        match self {
            ThroughputSpec::Bytes(_) => Category::Byte,
            ThroughputSpec::BytesDecimal(_) => Category::Byte,
            ThroughputSpec::Elements(_) => Category::Element,
        }
    }

    /// Returns the count of units one iteration processes.
    pub fn count(&self) -> (n: u64)
        ensures
            n == self.spec_count(),
    {
        match *self {
            ThroughputSpec::Bytes(n) => n,
            ThroughputSpec::BytesDecimal(n) => n,
            ThroughputSpec::Elements(n) => n,
        }
    }

    /// Returns the category of the declaration.
    pub fn category(&self) -> (c: Category)
        ensures
            c == self.spec_category(),
    {
        match *self {
            ThroughputSpec::Bytes(_) => Category::Byte,
            ThroughputSpec::BytesDecimal(_) => Category::Byte,
            ThroughputSpec::Elements(_) => Category::Element,
        }
    }
}

} // verus!
