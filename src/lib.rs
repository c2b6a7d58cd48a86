//! Configuration model, resolution and session planning for provisioning
//! per-attendee demo environments.
//!
//! A run loads the stored configuration, resolves it against the runtime
//! parameters ([`TourConfig::update`]) and plans, session by session, the
//! side effects to perform ([`UpCommand::plan`]); the caller performs them.

pub mod action;
pub mod arm_template;
pub mod cli_args;
pub mod cli_command;
pub mod command;
pub mod config_struct;
pub mod download;
pub mod error;
pub mod fetch;
pub mod file_download;
pub mod learning_path;
pub mod ordering;
pub mod session;
pub mod template_tags;
pub mod tour_config;
pub mod up;

pub use action::{Action, ActionView};
pub use arm_template::{ArmTemplate, ArmTemplateView};
pub use cli_args::CliArgs;
pub use cli_command::{CliCommand, CliCommandView};
pub use command::{Command, CommandView};
pub use config_struct::Config;
pub use download::{filename_from_path, get_filename};
pub use error::{DemoUpError, RequiredField};
pub use fetch::FetchCommand;
pub use file_download::{FileDownload, FileDownloadView};
pub use learning_path::{map_learning_path_to_session_name, session_name};
pub use ordering::sort_commands;
pub use session::{Session, SessionView};
pub use tour_config::{ConfigView, TourConfig};
pub use up::UpCommand;
