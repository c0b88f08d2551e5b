//! Free-form values: what an action carries beside its named parameters.

use vstd::prelude::*;
use crate::bytes::OneBotBytes;

verus! {

/// A scalar value that the protocol knows.
#[derive(Debug, Clone, PartialEq)]
pub enum ExtendedValue {
    Str(String),
    Int(i64),
    Bool(bool),
    Bytes(OneBotBytes),
    Null,
}

/// Values by key, in the order in which they were put.
#[derive(Debug, Clone, PartialEq)]
pub struct ExtendedMap {
    pub entries: Vec<(String, ExtendedValue)>,
}

impl ExtendedMap {
    /// A map without entries.
    pub fn new() -> (map: ExtendedMap)
        ensures
            map.entries@.len() == 0,
    {
        ExtendedMap { entries: Vec::new() }
    }

    /// Puts `value` under `key`, behind the entries that are there.
    pub fn push(&mut self, key: String, value: ExtendedValue)
        ensures
            final(self).entries@ == old(self).entries@.push((key, value)),
    {
        self.entries.push((key, value));
    }
}

} // verus!
