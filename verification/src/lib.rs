//! Fixture generation and benchmark orchestration for zkEVM workloads: the
//! decisions of the witness generators and of the benchmark runner.
use vstd::prelude::*;

pub mod eest;
pub mod error;
pub mod fetch;
pub mod fixture;
pub mod guest;
pub mod headers;
pub mod rpc;
pub mod runner;
pub mod text;

verus! {
} // verus!
