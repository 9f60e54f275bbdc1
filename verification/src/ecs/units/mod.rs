pub mod minion;
pub mod old_minion;
