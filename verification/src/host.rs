//! Records of the token standard that the contract stores and hands back
//! without looking inside.

use vstd::prelude::*;

use cw721::ContractInfoResponse;
use cw721_metadata_onchain::Metadata;

verus! {

/// `cw721_metadata_onchain::Metadata`: the descriptive record that all tokens
/// of one level share. Nothing here reads its fields.
#[verifier::external_type_specification]
#[verifier::external_body]
pub struct ExMetadata(Metadata);

/// `cw721::ContractInfoResponse`: the name and symbol of the series. Nothing
/// here reads its fields.
#[verifier::external_type_specification]
#[verifier::external_body]
pub struct ExContractInfoResponse(ContractInfoResponse);

/// `Metadata::clone`, which `derive(Clone)` wrote field by field: the copy is
/// the same record.
pub assume_specification[ <Metadata as Clone>::clone ](m: &Metadata) -> (r: Metadata)
    ensures
        r == *m,
;

} // verus!
