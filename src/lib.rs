//! Instance lifecycle core of a game-server host: the registry of live
//! instances, the port pool, progression events, the authorization gate and
//! the create / delete workflows built on them.
mod auth;
mod creation;
mod deletion;
mod error;
mod events;
mod instance;
mod laws;
mod ports;
mod queries;
mod registry;

pub use auth::{Requester, UserAction, UserEntry, UsersManager};
pub use creation::{
    caused_by_user, complete_creation, create_minecraft_instance, creation_start_event, plan_setup,
    CreationOutcome, CreationTicket, Planned, Provisioned,
};
pub use deletion::{
    commit_deletion, delete_instance, finish_deletion, DeletionAborted, DeletionPlan, DeletionStart, MARKER_FILE,
};
pub use error::{Error, ErrorKind};
pub use events::{
    failed_end, join_text, CausedBy, ProgressionEndValue, ProgressionEvent, ProgressionEventInner,
    ProgressionStartValue, PROGRESSION_TOTAL,
};
pub use instance::{
    copy_strings, install_path, make_install_path, sanitize_name, validate_name,
    Flavour, InstanceInfo, InstanceState, MinecraftSetupConfigPrimitive, SetupConfig, GAME_TYPE,
    MAX_NAME_LEN,
};
pub use laws::{
    hidden_instance_is_never_listed, listing_is_time_ordered, registered_instance_is_listed,
    registration_is_unique,
    same_name_creations_do_not_collide,
};
pub use ports::PortAllocator;
pub use queries::{
    get_instance_info, get_instance_list, get_max_player_count, get_player_count, get_player_list,
    set_max_player_count,
};
pub use registry::{Instance, InstanceRegistry};
