//! Gateway core for a proof-submission service backed by an external
//! ledger: the atom/cell codec for the ledger's data model, the
//! cause/effect protocol, and the request validator / response mapper.

pub mod codec;
pub mod gateway;
pub mod noun;
pub mod protocol;
