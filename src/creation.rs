use vstd::prelude::*;

use crate::auth::{Requester, UserAction, UsersManager};
use crate::error::{Error, ErrorKind};
use crate::events::{
    failed_end, is_end, is_start, join_text, CausedBy, ProgressionEndValue, ProgressionEvent,
    ProgressionEventInner, ProgressionStartValue, PROGRESSION_TOTAL,
};
use crate::instance::{
    flavour_name, install_path, name_is_valid, sanitize_name, sanitized_of,
    validate_name, InstanceInfo, InstanceState, MinecraftSetupConfigPrimitive, SetupConfig,
    GAME_TYPE,
};
use crate::ports::PortAllocator;
use crate::registry::{has_path, has_uuid, index_of, inserted, Instance, InstanceRegistry};

verus! {

/// `config` describes the instance that `primitive` asks for, under the
/// name `name`, installed under `root`.
pub open spec fn describes(
    config: SetupConfig,
    primitive: MinecraftSetupConfigPrimitive,
    name: Seq<char>,
    root: Seq<char>,
) -> bool {
    &&& config.name@ == name
    &&& config.version == primitive.version
    &&& config.flavour == primitive.flavour
    &&& config.port == primitive.port
    &&& config.cmd_args == primitive.cmd_args
    &&& config.description == primitive.description
    &&& config.fabric_loader_version == primitive.fabric_loader_version
    &&& config.fabric_installer_version == primitive.fabric_installer_version
    &&& config.min_ram == primitive.min_ram
    &&& config.max_ram == primitive.max_ram
    &&& config.auto_start == primitive.auto_start
    &&& config.restart_on_crash == primitive.restart_on_crash
    &&& config.timeout_last_left == primitive.timeout_last_left
    &&& config.timeout_no_activity == primitive.timeout_no_activity
    &&& config.start_on_connection == primitive.start_on_connection
    &&& config.backup_period == primitive.backup_period
    &&& config.game_type@ == GAME_TYPE@
    &&& config.path@ == install_path(root, name, config.uuid@)
}

/// Neither the install path nor the uuid of `config` is taken in `s`.
pub open spec fn is_fresh(s: Seq<Instance>, config: SetupConfig) -> bool {
    !has_path(s, config.path@) && !has_uuid(s, config.uuid@)
}

/// Whether the install path or the uuid that `uuid` gives is taken in `s`.
pub open spec fn collides(s: Seq<Instance>, root: Seq<char>, name: Seq<char>, uuid: Seq<char>) -> bool {
    has_path(s, install_path(root, name, uuid)) || has_uuid(s, uuid)
}

/// The outcome of planning an install with one uuid.
pub enum Planned {
    /// A descriptor whose uuid and install path are free.
    Ready(SetupConfig),
    /// The uuid gave a taken path or uuid: the request comes back, to be
    /// planned again with a fresh uuid.
    Collision(MinecraftSetupConfigPrimitive),
}

/// Turns a setup request whose name is already sanitized, together with a
/// freshly drawn `uuid`, into a descriptor whose uuid and install path no
/// registered instance uses. Fails with `MalformedRequest` on an invalid
/// name; where the uuid collides, hands the request back.
pub fn plan_setup(
    registry: &InstanceRegistry,
    primitive: MinecraftSetupConfigPrimitive,
    root: &String,
    uuid: String,
) -> (r: Result<Planned, Error>)
    requires
        registry.wf(),
    ensures
        !name_is_valid(primitive.name@) <==> r is Err,
        r is Err ==> r->Err_0.kind == ErrorKind::MalformedRequest,
        r is Ok ==> if collides(registry@, root@, primitive.name@, uuid@) {
            r->Ok_0 == Planned::Collision(primitive)
        } else {
            &&& r->Ok_0 is Ready
            &&& describes(r->Ok_0->Ready_0, primitive, primitive.name@, root@)
            &&& r->Ok_0->Ready_0.uuid == uuid
            &&& is_fresh(registry@, r->Ok_0->Ready_0)
        },
{
    validate_name(&primitive.name)?;
    let path = crate::instance::make_install_path(root, &primitive.name, &uuid);
    if registry.path_in_use(&path) || registry.contains(&uuid) {
        return Ok(Planned::Collision(primitive));
    }
    Ok(Planned::Ready(SetupConfig::from_primitive(primitive, uuid, root)))
}

/// An accepted creation request: its plan, and on whose behalf it runs.
pub struct CreationTicket {
    pub plan: Planned,
    pub caused_by: CausedBy,
}

/// The synchronous part of creating an instance: authenticates `token`,
/// checks the `CreateInstance` capability, sanitizes the name and plans the
/// install with the freshly drawn `uuid`. A ready descriptor's uuid is the
/// caller's answer; provisioning then runs in the background. On a
/// collision the caller draws another uuid and calls `plan_setup` with the
/// request handed back.
pub fn create_minecraft_instance(
    users: &UsersManager,
    token: &String,
    registry: &InstanceRegistry,
    primitive: MinecraftSetupConfigPrimitive,
    root: &String,
    uuid: String,
) -> (r: Result<CreationTicket, Error>)
    requires
        registry.wf(),
    ensures
        match users.resolve(token@) {
            None => r is Err && r->Err_0.kind == ErrorKind::Unauthorized,
            Some(req) => if !req.permits(UserAction::CreateInstance) {
                r is Err && r->Err_0.kind == ErrorKind::PermissionDenied
            } else {
                let name = sanitized_of(primitive.name@);
                &&& !name_is_valid(name) <==> r is Err
                &&& r is Err ==> r->Err_0.kind == ErrorKind::MalformedRequest
                &&& r is Ok ==> {
                    &&& r->Ok_0.caused_by == (CausedBy::User {
                        user_id: req.uid,
                        user_name: req.username,
                    })
                    &&& if collides(registry@, root@, name, uuid@) {
                        &&& r->Ok_0.plan is Collision
                        &&& r->Ok_0.plan->Collision_0.name@ == name
                        &&& r->Ok_0.plan->Collision_0 == (MinecraftSetupConfigPrimitive {
                            name: r->Ok_0.plan->Collision_0.name,
                            ..primitive
                        })
                    } else {
                        let c = r->Ok_0.plan->Ready_0;
                        &&& r->Ok_0.plan is Ready
                        &&& describes(c, primitive, name, root@)
                        &&& c.uuid == uuid
                        &&& is_fresh(registry@, c)
                    }
                }
            },
        },
{
    let requester = users.authenticate(token)?;
    if !requester.can_perform_action(&UserAction::CreateInstance) {
        return Err(Error::new(ErrorKind::PermissionDenied, "Not authorized to create instances"));
    }
    let mut primitive = primitive;
    primitive.name = sanitize_name(&primitive.name);
    let plan = plan_setup(registry, primitive, root, uuid)?;
    Ok(CreationTicket { plan, caused_by: caused_by_user(requester) })
}

/// The attribution of what `requester` does.
pub fn caused_by_user(requester: &Requester) -> (r: CausedBy)
    ensures
        r == (CausedBy::User { user_id: requester.uid, user_name: requester.username }),
{
    CausedBy::User { user_id: requester.uid.clone(), user_name: requester.username.clone() }
}

/// The event that opens the provisioning of `config`, as progression `event_id`.
pub fn creation_start_event(config: &SetupConfig, event_id: u64, caused_by: CausedBy) -> (r:
    ProgressionEvent)
    ensures
        is_start(r, event_id, config.uuid@),
        r.caused_by == caused_by,
        r.inner->ProgressionStart_progression_name@ == "Setting up Minecraft server "@
            + config.name@,
        r.inner->ProgressionStart_total == Some(PROGRESSION_TOTAL),
        r.inner->ProgressionStart_inner == Some(
            ProgressionStartValue::InstanceCreation {
                instance_uuid: config.uuid,
                instance_name: config.name,
                port: config.port,
                flavour: r.inner->ProgressionStart_inner->Some_0->InstanceCreation_flavour,
                game_type: r.inner->ProgressionStart_inner->Some_0->InstanceCreation_game_type,
            },
        ),
        r.inner->ProgressionStart_inner->Some_0->InstanceCreation_flavour@ == flavour_name(
            config.flavour,
        ),
        r.inner->ProgressionStart_inner->Some_0->InstanceCreation_game_type@ == GAME_TYPE@,
{
    ProgressionEvent {
        event_id,
        caused_by,
        inner: ProgressionEventInner::ProgressionStart {
            progression_name: join_text("Setting up Minecraft server ", &config.name),
            producer_id: Some(config.uuid.clone()),
            total: Some(PROGRESSION_TOTAL),
            inner: Some(
                ProgressionStartValue::InstanceCreation {
                    instance_uuid: config.uuid.clone(),
                    instance_name: config.name.clone(),
                    port: config.port,
                    flavour: String::from_str(config.flavour.name()),
                    game_type: String::from_str(GAME_TYPE),
                },
            ),
        },
    }
}

/// What the instance driver reports of a finished provisioning.
pub struct Provisioned {
    /// Milliseconds since the epoch at which provisioning finished.
    pub creation_time: u64,
    pub state: InstanceState,
    pub max_player_count: u32,
}

/// The info of the instance provisioned from `config`.
pub open spec fn provisioned_info(config: SetupConfig, report: Provisioned, info: InstanceInfo) -> bool {
    &&& info.uuid == config.uuid
    &&& info.name == config.name
    &&& info.path == config.path
    &&& info.port == config.port
    &&& info.flavour == config.flavour
    &&& info.version == config.version
    &&& info.game_type == config.game_type
    &&& info.creation_time == report.creation_time
    &&& info.state == report.state
    &&& info.player_count == 0
    &&& info.max_player_count == report.max_player_count
}

/// What the background half of a creation leaves to be done.
pub struct CreationOutcome {
    /// The event that closes the progression.
    pub end_event: ProgressionEvent,
    /// The directory to remove, after a failed provisioning.
    pub cleanup_path: Option<String>,
}

/// The directory a failed creation of `config` removes: its install path,
/// unless a registered instance lives there.
pub open spec fn cleanup_of(s: Seq<Instance>, config: SetupConfig) -> Option<String> {
    if has_path(s, config.path@) {
        None
    } else {
        Some(config.path)
    }
}

/// `e` ends progression `id` as failed, with `message` and no payload.
pub open spec fn is_failed_end(e: ProgressionEvent, id: u64, message: Seq<char>) -> bool {
    &&& is_end(e, id, false)
    &&& e.inner->ProgressionEnd_message is Some
    &&& e.inner->ProgressionEnd_message->Some_0@ == message
    &&& e.inner->ProgressionEnd_inner is None
}

/// The background half of a creation, once the driver has provisioned
/// `config` (or failed to, with a diagnostic). Where provisioning succeeded
/// and the uuid and install path are still free, the configured port is
/// marked in use and the instance registered. Otherwise nothing shared
/// changes and the install directory is handed back for removal, unless a
/// registered instance lives there.
pub fn complete_creation(
    registry: &mut InstanceRegistry,
    ports: &mut PortAllocator,
    config: &SetupConfig,
    provisioning: Result<Provisioned, String>,
    event_id: u64,
    caused_by: CausedBy,
) -> (r: CreationOutcome)
    requires
        old(registry).wf(),
        old(ports).wf(),
    ensures
        final(registry).wf(),
        final(ports).wf(),
        r.end_event.caused_by == caused_by,
        match provisioning {
            Ok(report) => if is_fresh(old(registry)@, *config) {
                let e = final(registry)@[index_of(final(registry)@, config.uuid@)];
                &&& has_uuid(final(registry)@, config.uuid@)
                &&& final(registry)@ == inserted(old(registry)@, e)
                &&& provisioned_info(*config, report, e.info)
                &&& e.players@.len() == 0
                &&& final(ports)@ == old(ports)@.insert(config.port)
                &&& is_end(r.end_event, event_id, true)
                &&& r.end_event.inner->ProgressionEnd_inner == Some(
                    ProgressionEndValue::InstanceCreation(e.info),
                )
                &&& r.cleanup_path is None
            } else {
                &&& final(registry)@ == old(registry)@
                &&& final(ports)@ == old(ports)@
                &&& is_failed_end(
                    r.end_event,
                    event_id,
                    "Instance creation failed: install path or uuid already registered"@,
                )
                &&& r.cleanup_path == cleanup_of(old(registry)@, *config)
            },
            Err(diagnostic) => {
                &&& final(registry)@ == old(registry)@
                &&& final(ports)@ == old(ports)@
                &&& is_failed_end(r.end_event, event_id, "Instance creation failed: "@ + diagnostic@)
                &&& r.cleanup_path == cleanup_of(old(registry)@, *config)
            },
        },
{
    let path_taken = registry.path_in_use(&config.path);
    let cleanup_path = if path_taken {
        None
    } else {
        Some(config.path.clone())
    };
    match provisioning {
        Ok(report) => {
            if path_taken || registry.contains(&config.uuid) {
                let end_event = failed_end(
                    event_id,
                    caused_by,
                    String::from_str(
                        "Instance creation failed: install path or uuid already registered",
                    ),
                );
                return CreationOutcome { end_event, cleanup_path };
            }
            let info = InstanceInfo {
                uuid: config.uuid.clone(),
                name: config.name.clone(),
                path: config.path.clone(),
                port: config.port,
                flavour: config.flavour,
                version: config.version.clone(),
                game_type: config.game_type.clone(),
                creation_time: report.creation_time,
                state: report.state,
                player_count: 0,
                max_player_count: report.max_player_count,
            };
            let end_event = ProgressionEvent {
                event_id,
                caused_by,
                inner: ProgressionEventInner::ProgressionEnd {
                    success: true,
                    message: Some(String::from_str("Instance creation success")),
                    inner: Some(ProgressionEndValue::InstanceCreation(info.copy())),
                },
            };
            ports.allocate(config.port);
            let e = Instance { info, players: Vec::new() };
            let ghost ge = e;
            registry.insert(e);
            proof {
                crate::registry::lemma_inserted_holds(old(registry)@, ge);
            }
            CreationOutcome { end_event, cleanup_path: None }
        },
        Err(message) => {
            let end_event = failed_end(
                event_id,
                caused_by,
                join_text("Instance creation failed: ", &message),
            );
            CreationOutcome { end_event, cleanup_path }
        },
    }
}

} // verus!
