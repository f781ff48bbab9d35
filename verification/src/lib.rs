//! Dealer side of CHURP, a churn-robust proactive secret-sharing scheme.
//!
//! A dealer holds a secret bivariate polynomial over a prime field, publishes
//! a verification matrix that commits to every coefficient, and hands each
//! shareholder the univariate polynomial obtained by fixing one variable at
//! the shareholder's field encoding.
pub mod dealer;
pub mod errors;
pub mod field;
pub mod group;
pub mod handoff;
pub mod matrix;
pub mod plain;
pub mod polynomial;
pub mod rng;
pub mod suite;

pub use dealer::Dealer;
pub use errors::Error;
pub use field::Field;
pub use group::Group;
pub use handoff::HandoffKind;
pub use matrix::VerificationMatrix;
pub use plain::{PlainDealer, PlainElement, PlainScalar, PlainSuite};
pub use polynomial::{BivariatePolynomial, Polynomial};
pub use suite::{Shareholder, Suite};
