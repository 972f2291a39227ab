pub use crate::loggers::mod_logger::ModLogger;
