//! Bridge logic between a home-automation light entity and physical monitors:
//! command merging, the one-shot restore gate, the reconciliation step,
//! colour-temperature conversion, pixel packing and the actuation plan.

pub mod state;
pub mod percentage;
pub mod color;
pub mod pixel;
pub mod reconcile;
pub mod actuation;
