//! A fixed-size worker pool's decisions: sizing, the pending-job counter, the
//! worker loop and the shutdown protocol, proved over plain-value models.

pub mod config;
pub mod counter;
pub mod pool;
pub mod worker;
