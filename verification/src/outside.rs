//! The values of the circuit toolchain that a session carries without looking
//! inside them.

use vstd::prelude::*;

verus! {

/// `acvm::acir::native_types::WitnessMap`: the solved values of a circuit's
/// witnesses. Nothing is claimed of what it holds; a session only hands it on.
#[verifier::external_type_specification]
#[verifier::external_body]
pub struct ExWitnessMap(acvm::acir::native_types::WitnessMap);

/// `acvm::acir::circuit::ExpressionWidth`: the width to which a compiled
/// program is normalised. Nothing is claimed of what it holds; a session only
/// hands it on.
#[verifier::external_type_specification]
#[verifier::external_body]
pub struct ExExpressionWidth(acvm::acir::circuit::ExpressionWidth);

} // verus!
