pub mod format;
pub mod logdest;
