//! Small shared metadata types: capability masks, input kinds and sort directions.

use vstd::prelude::*;

use crate::text::chars_of;

verus! {

/// The identifier of a metadata record.
pub type MetadataId = i64;

/// Which capabilities are granted, one flag per position: the flag at `i` is set when
/// the `i`-th character of the mask text is `1`.
#[derive(Debug, Clone, PartialEq, Eq, Default)]
pub struct CapabilityMask(pub Vec<bool>);

/// The flags of a mask text.
pub open spec fn mask_bits(text: Seq<char>) -> Seq<bool> {
    text.map_values(|c: char| c == '1')
}

impl CapabilityMask {
    /// Whether the capability at `index` is granted; positions past the end are not.
    pub fn allows(&self, index: usize) -> (r: bool)
        ensures
            r == (index < self.0@.len() && self.0@[index as int]),
    {
        if index < self.0.len() {
            self.0[index]
        } else {
            false
        }
    }

    /// The mask of a text such as `"1101"`.
    pub fn from_text(value: &str) -> (r: CapabilityMask)
        ensures
            r.0@ == mask_bits(value@),
    {
        let chars = chars_of(value);
        let mut bits: Vec<bool> = Vec::new();
        let n = chars.len();
        let mut i: usize = 0;
        while i < n
            invariant
                n == chars@.len(),
                chars@ == value@,
                i <= n,
                bits@ == mask_bits(value@).take(i as int),
            decreases n - i,
        {
            bits.push(chars[i] == '1');
            proof {
                assert(bits@ =~= mask_bits(value@).take(i + 1));
            }
            i = i + 1;
        }
        proof {
            assert(mask_bits(value@).take(n as int) =~= mask_bits(value@));
        }
        CapabilityMask(bits)
    }

    /// A copy of this mask.
    pub fn duplicate(&self) -> (r: CapabilityMask)
        ensures
            r.0@ == self.0@,
    {
        let mut bits: Vec<bool> = Vec::new();
        let n = self.0.len();
        let mut i: usize = 0;
        while i < n
            invariant
                n == self.0@.len(),
                i <= n,
                bits@ == self.0@.take(i as int),
            decreases n - i,
        {
            bits.push(self.0[i]);
            proof {
                assert(bits@ =~= self.0@.take(i + 1));
            }
            i = i + 1;
        }
        proof {
            assert(self.0@.take(n as int) =~= self.0@);
        }
        CapabilityMask(bits)
    }
}

/// How a field gets its value when a row is written.
#[derive(Debug, Clone, Copy, PartialEq, Eq, Structural)]
pub enum FieldInputKind {
    Text,
    Lookup,
    Ignored,
    Operation,
    Sequence,
    Trigger,
}

impl Default for FieldInputKind {
    fn default() -> (r: FieldInputKind)
        ensures
            r == FieldInputKind::Text,
    {
        FieldInputKind::Text
    }
}

/// The direction of a sort.
#[derive(Debug, Clone, Copy, PartialEq, Eq, Structural)]
pub enum SortDirection {
    Asc,
    Desc,
}

} // verus!
