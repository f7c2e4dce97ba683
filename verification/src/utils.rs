//! Operations that every part of the harness uses.
pub mod files;
pub mod numbers;
pub mod processes;
pub mod redis;

pub use self::files::{
    create_directory_if_not_exists, delete_file, download_file, falkor_logs_path,
    falkor_shared_lib_path, get_falkor_log_path, read_lines, url_file_name, write_to_file,
};
pub use self::numbers::format_number;
pub use self::processes::{get_command_pid, kill_process, spawn_command};
pub use self::redis::{ping_redis, redis_save, redis_shutdown, wait_for_redis_ready};
