pub mod builders;
pub mod columns;
pub mod comparators;
pub mod config;
pub mod encode;
pub mod filter;
pub mod laws;
pub mod names;
pub mod operation;
pub mod response;
pub mod scalars;
pub mod sort;
pub mod value;
