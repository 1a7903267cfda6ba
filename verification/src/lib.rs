//! Kitest: building blocks for custom test harnesses, with verified contracts.

pub mod text;
mod outside;

pub mod capture;
pub mod outcome;
pub mod filter;
pub mod ignore;
pub mod panic;
pub mod formatter;
pub mod group;
pub mod btree_groups;
pub mod hash_groups;
pub mod runner;
pub mod report;
pub mod harness;

pub use harness::{harness, GroupedTestHarness, TestHarness};
pub use report::{GroupedTestReport, TestReport};
