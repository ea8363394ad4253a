pub mod fsops;
pub mod progress;
pub mod url;

pub use fsops::{
    CopyPolicy, FsError, Probe, RemoveAction, WorkerOutcome, copy_finish, copy_policy,
    copy_precheck, path_exists_result, remove_finish, remove_plan,
};
pub use progress::spinner_template;
pub use url::parse_public_url;
