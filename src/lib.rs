//! USB Audio Class 1.0 device core: configuration descriptors, the
//! alternate-setting control handler and the two-into-one mixing step.

pub mod descriptor;
pub mod device;
pub mod mixer;
