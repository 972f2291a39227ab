pub use crate::loggers::log_levels::LogLevel;
