pub mod close_capsule;
pub mod create_capsule;
pub mod initialize_config;
pub mod transfer_capsule;
pub mod unlock_capsule;
pub mod update_capsule;
