pub mod global_logger;
pub mod log_levels;
pub mod mod_logger;
