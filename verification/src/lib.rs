//! Multidimensional (OLAP) model of the EuclidOLAP query engine.
pub mod gid;
pub mod mdd;
pub mod tuple;
pub mod axis;
pub mod compare;
pub mod meta;
pub mod locate;
pub mod permission;
pub mod service;

pub use service::EuclidOLAPService;
