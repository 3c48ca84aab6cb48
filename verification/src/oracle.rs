use vstd::prelude::*;

verus! {

/// Relies on `oracle_rs::Config`: an inert, immutable description of how
/// to reach the database (host, port, service, credentials). The pool only
/// stores it and hands it to the factory; it never reads its fields, so
/// the value is carried opaquely.
#[verifier::external_type_specification]
#[verifier::external_body]
pub struct ExConfig(oracle_rs::Config);

} // verus!
