use lodestone_core::{
    commit_deletion, complete_creation, create_minecraft_instance, creation_start_event,
    delete_instance, finish_deletion, get_instance_info, get_instance_list, get_max_player_count,
    get_player_count, get_player_list, make_install_path, sanitize_name, set_max_player_count,
    validate_name, CausedBy, ErrorKind, Flavour, InstanceRegistry, InstanceState,
    MinecraftSetupConfigPrimitive, PortAllocator, ProgressionEndValue, ProgressionEventInner,
    Planned, ProgressionStartValue, Provisioned, Requester, SetupConfig, UsersManager, plan_setup,
    InstanceInfo,
};

const OWNER: &str = "owner-token";

fn draw() -> String {
    uuid::Uuid::new_v4().to_string()
}

trait ReadyPlan {
    fn ready(self) -> SetupConfig;
}

impl ReadyPlan for Planned {
    fn ready(self) -> SetupConfig {
        match self {
            Planned::Ready(cfg) => cfg,
            Planned::Collision(_) => panic!("a fresh uuid collided"),
        }
    }
}
const VIEWER: &str = "viewer-token";

fn requester(uid: &str, owner: bool, viewable: Vec<String>) -> Requester {
    Requester {
        uid: uid.to_string(),
        username: uid.to_string(),
        is_owner: owner,
        is_admin: false,
        can_create_instance: false,
        can_delete_instance: false,
        viewable_instances: viewable,
    }
}

fn users() -> UsersManager {
    let mut users = UsersManager::new();
    users.add_user(OWNER.to_string(), requester("owner", true, vec![]));
    users.add_user(VIEWER.to_string(), requester("viewer", false, vec![]));
    users
}

fn primitive(name: &str, port: u32) -> MinecraftSetupConfigPrimitive {
    MinecraftSetupConfigPrimitive {
        name: name.to_string(),
        version: "1.19.2".to_string(),
        flavour: Flavour::Vanilla,
        port,
        cmd_args: None,
        description: None,
        fabric_loader_version: None,
        fabric_installer_version: None,
        min_ram: None,
        max_ram: None,
        auto_start: None,
        restart_on_crash: None,
        timeout_last_left: None,
        timeout_no_activity: None,
        start_on_connection: None,
        backup_period: None,
    }
}

fn report(time: u64, state: InstanceState) -> Provisioned {
    Provisioned { creation_time: time, state, max_player_count: 20 }
}

/// Creates and registers an instance as the owner; returns its descriptor's uuid.
fn create(
    users: &UsersManager,
    reg: &mut InstanceRegistry,
    ports: &mut PortAllocator,
    name: &str,
    port: u32,
    time: u64,
) -> String {
    let root = "/srv/instances".to_string();
    let cfg = create_minecraft_instance(users, &OWNER.to_string(), reg, primitive(name, port), &root, draw())
        .ok()
        .unwrap()
        .plan
        .ready();
    let uuid = cfg.uuid.clone();
    let out = complete_creation(reg, ports, &cfg, Ok(report(time, InstanceState::Stopped)), 1, CausedBy::System);
    assert!(out.cleanup_path.is_none());
    uuid
}

#[test]
fn survival_creation_is_listed() {
    let users = users();
    let mut reg = InstanceRegistry::new();
    let mut ports = PortAllocator::new();
    let root = "/srv/instances".to_string();
    let ticket = create_minecraft_instance(&users, &OWNER.to_string(), &reg, primitive("Survival", 25565), &root, draw())
        .ok()
        .unwrap();
    match &ticket.caused_by {
        CausedBy::User { user_id, .. } => assert_eq!(user_id, "owner"),
        CausedBy::System => panic!("expected the requester"),
    }
    let cfg = ticket.plan.ready();
    assert_eq!(cfg.uuid.len(), 36);
    assert_eq!(cfg.path, format!("/srv/instances/Survival-{}", &cfg.uuid[0..8]));
    let start = creation_start_event(&cfg, 7, CausedBy::System);
    assert_eq!(start.event_id, 7);
    match &start.inner {
        ProgressionEventInner::ProgressionStart { progression_name, producer_id, total, inner } => {
            assert_eq!(progression_name, "Setting up Minecraft server Survival");
            assert_eq!(producer_id.as_ref().unwrap(), &cfg.uuid);
            assert_eq!(*total, Some(10));
            match inner.as_ref().unwrap() {
                ProgressionStartValue::InstanceCreation { port, flavour, game_type, .. } => {
                    assert_eq!(*port, 25565);
                    assert_eq!(flavour, "vanilla");
                    assert_eq!(game_type, "minecraft");
                }
            }
        }
        _ => panic!("expected a start"),
    }
    let out = complete_creation(&mut reg, &mut ports, &cfg, Ok(report(100, InstanceState::Running)), 7, CausedBy::System);
    assert_eq!(out.end_event.event_id, 7);
    match &out.end_event.inner {
        ProgressionEventInner::ProgressionEnd { success, inner, .. } => {
            assert!(*success);
            match inner.as_ref().unwrap() {
                ProgressionEndValue::InstanceCreation(info) => assert_eq!(info.uuid, cfg.uuid),
                _ => panic!("expected a creation payload"),
            }
        }
        _ => panic!("expected an end"),
    }
    assert!(ports.is_allocated(25565));
    let list = get_instance_list(&users, &OWNER.to_string(), &reg).unwrap();
    assert_eq!(list.len(), 1);
    assert_eq!(list[0].name, "Survival");
    assert_eq!(list[0].port, 25565);
    assert_eq!(list[0].uuid, cfg.uuid);
}

#[test]
fn deleting_running_instance_is_refused() {
    let users = users();
    let mut reg = InstanceRegistry::new();
    let mut ports = PortAllocator::new();
    let uuid = create(&users, &mut reg, &mut ports, "Survival", 25565, 100);
    reg.set_state(&uuid, InstanceState::Running).unwrap();
    let err = delete_instance(&users, &OWNER.to_string(), &reg, &uuid, 9).err().unwrap();
    assert_eq!(err.kind, ErrorKind::InvalidInstanceState);
    let list = get_instance_list(&users, &OWNER.to_string(), &reg).unwrap();
    assert_eq!(list.len(), 1);
    assert!(ports.is_allocated(25565));
}

#[test]
fn stopped_instance_is_deleted() {
    let users = users();
    let mut reg = InstanceRegistry::new();
    let mut ports = PortAllocator::new();
    let uuid = create(&users, &mut reg, &mut ports, "Survival", 25565, 100);
    reg.set_state(&uuid, InstanceState::Running).unwrap();
    reg.set_state(&uuid, InstanceState::Stopped).unwrap();
    let plan = delete_instance(&users, &OWNER.to_string(), &reg, &uuid, 9).ok().unwrap().plan;
    assert!(plan.marker_path.ends_with("/.lodestone_config"));
    assert!(plan.marker_path.starts_with(&plan.path));
    assert_eq!(plan.port, 25565);
    assert!(commit_deletion(&mut reg, &mut ports, &plan, true).is_ok());
    assert!(!ports.is_allocated(25565));
    assert!(!reg.contains(&uuid));
    let err = get_instance_info(&users, &OWNER.to_string(), &reg, &uuid).err().unwrap();
    assert_eq!(err.kind, ErrorKind::InstanceNotFound);
    let (end, res) = finish_deletion(&plan, true);
    assert!(res.is_ok());
    match end.inner {
        ProgressionEventInner::ProgressionEnd { success, inner, .. } => {
            assert!(success);
            match inner.unwrap() {
                ProgressionEndValue::InstanceDelete { instance_uuid } => assert_eq!(instance_uuid, uuid),
                _ => panic!("expected a delete payload"),
            }
        }
        _ => panic!("expected an end"),
    }
}

#[test]
fn failed_marker_removal_keeps_instance() {
    let users = users();
    let mut reg = InstanceRegistry::new();
    let mut ports = PortAllocator::new();
    let uuid = create(&users, &mut reg, &mut ports, "Keep", 25570, 100);
    let plan = delete_instance(&users, &OWNER.to_string(), &reg, &uuid, 4).ok().unwrap().plan;
    let aborted = commit_deletion(&mut reg, &mut ports, &plan, false).err().unwrap();
    assert_eq!(aborted.error.kind, ErrorKind::FailedToRemoveFileOrDir);
    assert_eq!(aborted.end_event.event_id, 4);
    assert!(reg.contains(&uuid));
    assert!(ports.is_allocated(25570));
}

#[test]
fn committed_deletion_survives_directory_failure() {
    let users = users();
    let mut reg = InstanceRegistry::new();
    let mut ports = PortAllocator::new();
    let uuid = create(&users, &mut reg, &mut ports, "Gone", 25571, 100);
    let plan = delete_instance(&users, &OWNER.to_string(), &reg, &uuid, 4).ok().unwrap().plan;
    assert!(commit_deletion(&mut reg, &mut ports, &plan, true).is_ok());
    let (end, res) = finish_deletion(&plan, false);
    assert_eq!(res.err().unwrap().kind, ErrorKind::FailedToRemoveFileOrDir);
    assert!(matches!(end.inner, ProgressionEventInner::ProgressionEnd { success: false, .. }));
    assert!(!reg.contains(&uuid));
}

#[test]
fn failed_provisioning_registers_nothing() {
    let users = users();
    let mut reg = InstanceRegistry::new();
    let mut ports = PortAllocator::new();
    let root = "/srv/instances".to_string();
    let cfg = create_minecraft_instance(&users, &OWNER.to_string(), &reg, primitive("Broken", 25580), &root, draw())
        .ok()
        .unwrap()
        .plan
        .ready();
    let out = complete_creation(&mut reg, &mut ports, &cfg, Err("download failed".to_string()), 3, CausedBy::System);
    assert_eq!(out.cleanup_path.unwrap(), cfg.path);
    assert!(!reg.contains(&cfg.uuid));
    assert_eq!(reg.len(), 0);
    assert!(!ports.is_allocated(25580));
    match out.end_event.inner {
        ProgressionEventInner::ProgressionEnd { success, message, inner } => {
            assert!(!success);
            assert!(inner.is_none());
            assert_eq!(message.unwrap(), "Instance creation failed: download failed");
        }
        _ => panic!("expected an end"),
    }
}

#[test]
fn same_name_gets_distinct_paths() {
    let users = users();
    let mut reg = InstanceRegistry::new();
    let mut ports = PortAllocator::new();
    let a = create(&users, &mut reg, &mut ports, "Twin", 25590, 100);
    let b = create(&users, &mut reg, &mut ports, "Twin", 25591, 200);
    assert_ne!(a, b);
    let list = get_instance_list(&users, &OWNER.to_string(), &reg).unwrap();
    assert_eq!(list.len(), 2);
    assert_ne!(list[0].path, list[1].path);
}

#[test]
fn hidden_instances_are_not_disclosed() {
    let users = users();
    let mut reg = InstanceRegistry::new();
    let mut ports = PortAllocator::new();
    let uuid = create(&users, &mut reg, &mut ports, "Secret", 25600, 100);
    let list = get_instance_list(&users, &VIEWER.to_string(), &reg).unwrap();
    assert!(list.is_empty());
    let err = get_instance_info(&users, &VIEWER.to_string(), &reg, &uuid).err().unwrap();
    assert_eq!(err.kind, ErrorKind::Unauthorized);
    let info = get_instance_info(&users, &OWNER.to_string(), &reg, &uuid).unwrap();
    assert_eq!(info.name, "Secret");
}

#[test]
fn viewable_instance_is_listed_for_viewer() {
    let mut reg = InstanceRegistry::new();
    let mut ports = PortAllocator::new();
    let owner_users = users();
    let a = create(&owner_users, &mut reg, &mut ports, "Open", 1, 100);
    let _b = create(&owner_users, &mut reg, &mut ports, "Closed", 2, 50);
    let mut users = UsersManager::new();
    users.add_user(VIEWER.to_string(), requester("viewer", false, vec![a.clone()]));
    let list = get_instance_list(&users, &VIEWER.to_string(), &reg).unwrap();
    assert_eq!(list.len(), 1);
    assert_eq!(list[0].uuid, a);
}

#[test]
fn listing_is_sorted_by_creation_time() {
    let users = users();
    let mut reg = InstanceRegistry::new();
    let mut ports = PortAllocator::new();
    create(&users, &mut reg, &mut ports, "Third", 3, 300);
    create(&users, &mut reg, &mut ports, "First", 1, 100);
    create(&users, &mut reg, &mut ports, "Second", 2, 200);
    let list = get_instance_list(&users, &OWNER.to_string(), &reg).unwrap();
    let names: Vec<&str> = list.iter().map(|i| i.name.as_str()).collect();
    assert_eq!(names, vec!["First", "Second", "Third"]);
    assert_eq!(list[0].creation_time, 100);
}

#[test]
fn unknown_token_is_unauthorized() {
    let users = users();
    let reg = InstanceRegistry::new();
    let root = "/srv".to_string();
    let bad = "nope".to_string();
    assert_eq!(get_instance_list(&users, &bad, &reg).err().unwrap().kind, ErrorKind::Unauthorized);
    assert_eq!(
        create_minecraft_instance(&users, &bad, &reg, primitive("x", 1), &root, draw()).err().unwrap().kind,
        ErrorKind::Unauthorized
    );
    assert_eq!(
        delete_instance(&users, &bad, &reg, &"u".to_string(), 1).err().unwrap().kind,
        ErrorKind::Unauthorized
    );
}

#[test]
fn missing_capability_is_permission_denied() {
    let users = users();
    let mut reg = InstanceRegistry::new();
    let mut ports = PortAllocator::new();
    let uuid = create(&users, &mut reg, &mut ports, "Mine", 5, 100);
    let root = "/srv".to_string();
    let viewer = VIEWER.to_string();
    assert_eq!(
        create_minecraft_instance(&users, &viewer, &reg, primitive("x", 1), &root, draw()).err().unwrap().kind,
        ErrorKind::PermissionDenied
    );
    assert_eq!(
        delete_instance(&users, &viewer, &reg, &uuid, 1).err().unwrap().kind,
        ErrorKind::PermissionDenied
    );
}

#[test]
fn deleting_unknown_instance_is_not_found() {
    let users = users();
    let reg = InstanceRegistry::new();
    let err = delete_instance(&users, &OWNER.to_string(), &reg, &"missing".to_string(), 1).err().unwrap();
    assert_eq!(err.kind, ErrorKind::InstanceNotFound);
}

#[test]
fn malformed_names_are_rejected() {
    let users = users();
    let reg = InstanceRegistry::new();
    let root = "/srv".to_string();
    let owner = OWNER.to_string();
    let err = create_minecraft_instance(&users, &owner, &reg, primitive("", 1), &root, draw()).err().unwrap();
    assert_eq!(err.kind, ErrorKind::MalformedRequest);
    let err = create_minecraft_instance(&users, &owner, &reg, primitive("//??", 1), &root, draw()).err().unwrap();
    assert_eq!(err.kind, ErrorKind::MalformedRequest);
    let long = "a".repeat(101);
    let err = create_minecraft_instance(&users, &owner, &reg, primitive(&long, 1), &root, draw()).err().unwrap();
    assert_eq!(err.kind, ErrorKind::MalformedRequest);
    let ok = "a".repeat(100);
    assert!(create_minecraft_instance(&users, &owner, &reg, primitive(&ok, 1), &root, draw()).is_ok());
}

#[test]
fn validate_name_bounds() {
    assert!(validate_name(&"".to_string()).is_err());
    assert!(validate_name(&"x".to_string()).is_ok());
    assert!(validate_name(&"é".repeat(100)).is_ok());
    assert_eq!(validate_name(&"é".repeat(101)).err().unwrap().kind, ErrorKind::MalformedRequest);
}

#[test]
fn sanitizer_strips_unsafe_characters() {
    assert_eq!(sanitize_name(&"a/b:c".to_string()), "abc");
    assert_eq!(sanitize_name(&"Survival".to_string()), "Survival");
    let users = users();
    let reg = InstanceRegistry::new();
    let cfg = create_minecraft_instance(&users, &OWNER.to_string(), &reg, primitive("my/world", 1), &"/srv".to_string(), draw())
        .ok()
        .unwrap()
        .plan
        .ready();
    assert_eq!(cfg.name, "myworld");
}

#[test]
fn install_path_uses_uuid_prefix() {
    let p = make_install_path(&"/srv".to_string(), &"x".to_string(), &"0123456789".to_string());
    assert_eq!(p, "/srv/x-01234567");
    let q = make_install_path(&"/srv".to_string(), &"x".to_string(), &"abc".to_string());
    assert_eq!(q, "/srv/x-abc");
}

#[test]
fn setup_config_from_primitive() {
    let cfg = SetupConfig::from_primitive(primitive("World", 25565), "abcdefgh-1234".to_string(), &"/i".to_string());
    assert_eq!(cfg.path, "/i/World-abcdefgh");
    assert_eq!(cfg.game_type, "minecraft");
    assert_eq!(cfg.uuid, "abcdefgh-1234");
    assert_eq!(cfg.version, "1.19.2");
    assert_eq!(cfg.port, 25565);
}

#[test]
fn port_allocator_marks_and_frees() {
    let mut ports = PortAllocator::new();
    ports.allocate(25565);
    ports.allocate(25565);
    assert!(ports.is_allocated(25565));
    ports.deallocate(25565);
    assert!(!ports.is_allocated(25565));
    ports.deallocate(25565);
    assert!(!ports.is_allocated(25565));
}

#[test]
fn player_queries() {
    let users = users();
    let mut reg = InstanceRegistry::new();
    let mut ports = PortAllocator::new();
    let uuid = create(&users, &mut reg, &mut ports, "Players", 7, 100);
    assert_eq!(get_player_count(&reg, &uuid).unwrap(), 0);
    assert_eq!(get_max_player_count(&reg, &uuid).unwrap(), 20);
    set_max_player_count(&mut reg, &uuid, 50).unwrap();
    assert_eq!(get_max_player_count(&reg, &uuid).unwrap(), 50);
    reg.set_players(&uuid, vec!["alice".to_string(), "bob".to_string()]).unwrap();
    assert_eq!(get_player_count(&reg, &uuid).unwrap(), 2);
    assert_eq!(get_player_list(&reg, &uuid).unwrap(), vec!["alice".to_string(), "bob".to_string()]);
    let missing = "missing".to_string();
    assert_eq!(get_player_count(&reg, &missing).err().unwrap().kind, ErrorKind::InstanceNotFound);
    assert_eq!(set_max_player_count(&mut reg, &missing, 1).err().unwrap().kind, ErrorKind::InstanceNotFound);
}

#[test]
fn colliding_uuid_asks_for_another() {
    let users = users();
    let mut reg = InstanceRegistry::new();
    let mut ports = PortAllocator::new();
    let root = "/srv".to_string();
    let owner = OWNER.to_string();
    let first = create_minecraft_instance(&users, &owner, &reg, primitive("Twin", 1), &root, "aaaaaaaa-0001".to_string())
        .ok()
        .unwrap()
        .plan
        .ready();
    assert_eq!(first.path, "/srv/Twin-aaaaaaaa");
    complete_creation(&mut reg, &mut ports, &first, Ok(report(1, InstanceState::Stopped)), 1, CausedBy::System);
    let again = create_minecraft_instance(&users, &owner, &reg, primitive("Twin", 2), &root, "aaaaaaaa-0002".to_string())
        .ok()
        .unwrap()
        .plan;
    let request = match again {
        Planned::Collision(request) => request,
        Planned::Ready(_) => panic!("the install path is taken"),
    };
    assert_eq!(request.name, "Twin");
    assert_eq!(request.port, 2);
    let same_uuid = plan_setup(&reg, primitive("Other", 3), &root, "aaaaaaaa-0001".to_string()).ok().unwrap();
    assert!(matches!(same_uuid, Planned::Collision(_)));
    let second = plan_setup(&reg, request, &root, "bbbbbbbb-0003".to_string()).ok().unwrap().ready();
    assert_eq!(second.path, "/srv/Twin-bbbbbbbb");
    assert_eq!(second.uuid, "bbbbbbbb-0003");
    assert_eq!(second.port, 2);
}

#[test]
fn late_collision_is_not_registered() {
    let users = users();
    let mut reg = InstanceRegistry::new();
    let mut ports = PortAllocator::new();
    let root = "/srv".to_string();
    let owner = OWNER.to_string();
    let a = create_minecraft_instance(&users, &owner, &reg, primitive("Race", 10), &root, "cccccccc-1".to_string())
        .ok()
        .unwrap()
        .plan
        .ready();
    let b = create_minecraft_instance(&users, &owner, &reg, primitive("Race", 11), &root, "cccccccc-2".to_string())
        .ok()
        .unwrap()
        .plan
        .ready();
    assert_eq!(a.path, b.path);
    let out = complete_creation(&mut reg, &mut ports, &a, Ok(report(1, InstanceState::Stopped)), 1, CausedBy::System);
    assert!(out.cleanup_path.is_none());
    let out = complete_creation(&mut reg, &mut ports, &b, Ok(report(2, InstanceState::Stopped)), 2, CausedBy::System);
    assert!(out.cleanup_path.is_none());
    match out.end_event.inner {
        ProgressionEventInner::ProgressionEnd { success, message, inner } => {
            assert!(!success);
            assert_eq!(message.unwrap(), "Instance creation failed: install path or uuid already registered");
            assert!(inner.is_none());
        }
        _ => panic!("expected an end"),
    }
    assert_eq!(reg.len(), 1);
    assert!(!ports.is_allocated(11));
    let failed = complete_creation(&mut reg, &mut ports, &b, Err("boom".to_string()), 3, CausedBy::System);
    assert!(failed.cleanup_path.is_none());
    assert!(reg.contains(&a.uuid));
}

#[test]
fn info_copies_are_exact() {
    let users = users();
    let mut reg = InstanceRegistry::new();
    let mut ports = PortAllocator::new();
    let uuid = create(&users, &mut reg, &mut ports, "Copy", 9, 42);
    let info: InstanceInfo = get_instance_info(&users, &OWNER.to_string(), &reg, &uuid).unwrap();
    assert_eq!(info.creation_time, 42);
    assert_eq!(info.game_type, "minecraft");
    assert_eq!(info.version, "1.19.2");
}
