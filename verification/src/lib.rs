//! Synthetic person records for use as test fixtures.
//!
//! A sampler draws uniformly from three caller-supplied reference lists
//! (first names, surnames, company/domain pairs) and composes one
//! internally consistent record per call: a full name, a naive email
//! address, a company, and a birth date under a fixed non-leap-year
//! calendar rule.

pub mod date;
pub mod entity;
pub mod person;
pub mod rng;
pub mod sample;
