pub mod boot;
pub mod clock;
pub mod control_types;
pub mod diffdrive;
pub mod ekf_init;
pub mod gain_mlp_store;
pub mod log_blocks;
pub mod log_file;
pub mod log_record;
pub mod odometry;
pub mod orchestrator;
pub mod orchestrator_signal;
pub mod robotstate;
pub mod sd_init;
pub mod sd_logging;
pub mod sdlog;
pub mod trajectory_control;
