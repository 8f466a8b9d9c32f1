//! The level metadata store: which record describes the tokens of a level.

use vstd::prelude::*;

use crate::error::ContractError;
use cw721_metadata_onchain::Metadata;

verus! {

/// The mapping that an ordered list of records stands for: the first record
/// belongs to level 1, the second to level 2, and so on.
pub open spec fn level_map(records: Seq<Metadata>) -> Map<u8, Metadata> {
    Map::new(|level: u8| 1 <= level <= records.len(), |level: u8| records[level - 1])
}

/// The metadata record of each level. It is filled once and never changed;
/// its view maps a level to its record.
#[derive(Debug, PartialEq)]
pub struct LevelStore {
    pub records: Vec<Metadata>,
}

impl View for LevelStore {
    type V = Map<u8, Metadata>;

    open spec fn view(&self) -> Map<u8, Metadata> {
        level_map(self.records@)
    }
}

impl LevelStore {
    /// Registers the records: the record at position `i` of the list, counted
    /// from zero, is that of level `i + 1`. A level is a `u8`, so the list
    /// holds at most 255 records.
    pub fn initialize(records: Vec<Metadata>) -> (store: LevelStore)
        requires
            records.len() <= 255,
        ensures
            store@ == level_map(records@),
            forall|i: int|
                0 <= i < records.len() ==> store@.dom().contains((i + 1) as u8) && store@[(i
                    + 1) as u8] == records[i],
            forall|level: u8| store@.dom().contains(level) <==> 1 <= level <= records.len(),
    {
        LevelStore { records }
    }

    /// The record of `level`, as it was registered.
    pub fn get(&self, level: u8) -> (r: Result<Metadata, ContractError>)
        ensures
            match r {
                Ok(record) => self@.dom().contains(level) && record == self@[level],
                Err(e) => e == ContractError::LevelNotFound {  } && !self@.dom().contains(level),
            },
    {
        if level >= 1 && level as usize <= self.records.len() {
            Ok(self.records[level as usize - 1].clone())
        } else {
            Err(ContractError::LevelNotFound {  })
        }
    }
}

} // verus!
