use vstd::prelude::*;

use crate::auth::{UserAction, UsersManager};
use crate::error::{Error, ErrorKind};
use crate::instance::{copy_strings, InstanceInfo};
use crate::registry::{has_uuid, index_of, infos_sorted, visible, Instance, InstanceRegistry};

verus! {

/// Lists the instances that the holder of `token` may view, in ascending
/// order of creation time; fails with `Unauthorized` on an unknown token.
pub fn get_instance_list(users: &UsersManager, token: &String, registry: &InstanceRegistry) -> (r:
    Result<Vec<InstanceInfo>, Error>)
    requires
        registry.wf(),
    ensures
        match users.resolve(token@) {
            None => r is Err && r->Err_0.kind == ErrorKind::Unauthorized,
            Some(req) => r is Ok && r->Ok_0@ == visible(registry@, req) && infos_sorted(r->Ok_0@),
        },
{
    let requester = users.authenticate(token)?;
    Ok(registry.list(requester))
}

/// The info of the instance with `uuid`. Fails with `Unauthorized` on an
/// unknown token, `InstanceNotFound` where no such instance is registered,
/// and `Unauthorized` where the requester may not view it.
pub fn get_instance_info(
    users: &UsersManager,
    token: &String,
    registry: &InstanceRegistry,
    uuid: &String,
) -> (r: Result<InstanceInfo, Error>)
    requires
        registry.wf(),
    ensures
        match users.resolve(token@) {
            None => r is Err && r->Err_0.kind == ErrorKind::Unauthorized,
            Some(req) => if !has_uuid(registry@, uuid@) {
                r is Err && r->Err_0.kind == ErrorKind::InstanceNotFound
            } else {
                let e = registry@[index_of(registry@, uuid@)];
                if !req.permits(UserAction::ViewInstance(e.info.uuid)) {
                    r is Err && r->Err_0.kind == ErrorKind::Unauthorized
                } else {
                    r is Ok && r->Ok_0 == e.info
                }
            },
        },
{
    let requester = users.authenticate(token)?;
    let instance = registry.get(uuid)?;
    if !requester.can_view_instance(&instance.info.uuid) {
        return Err(
            Error::new(ErrorKind::Unauthorized, "You are not allowed to view this instance"),
        );
    }
    Ok(instance.info.copy())
}

/// The entry with `uuid`, where there is one.
pub open spec fn entry(registry: &InstanceRegistry, uuid: Seq<char>) -> Instance {
    registry@[index_of(registry@, uuid)]
}

/// How many players are online on the instance with `uuid`.
pub fn get_player_count(registry: &InstanceRegistry, uuid: &String) -> (r: Result<u32, Error>)
    requires
        registry.wf(),
    ensures
        has_uuid(registry@, uuid@) ==> r == Ok::<u32, Error>(entry(registry, uuid@).info.player_count),
        !has_uuid(registry@, uuid@) ==> r is Err && r->Err_0.kind == ErrorKind::InstanceNotFound,
{
    let instance = registry.get(uuid)?;
    Ok(instance.info.player_count)
}

/// The configured player limit of the instance with `uuid`.
pub fn get_max_player_count(registry: &InstanceRegistry, uuid: &String) -> (r: Result<u32, Error>)
    requires
        registry.wf(),
    ensures
        has_uuid(registry@, uuid@) ==> r == Ok::<u32, Error>(
            entry(registry, uuid@).info.max_player_count,
        ),
        !has_uuid(registry@, uuid@) ==> r is Err && r->Err_0.kind == ErrorKind::InstanceNotFound,
{
    let instance = registry.get(uuid)?;
    Ok(instance.info.max_player_count)
}

/// Sets the player limit of the instance with `uuid`.
pub fn set_max_player_count(registry: &mut InstanceRegistry, uuid: &String, count: u32) -> (r:
    Result<(), Error>)
    requires
        old(registry).wf(),
    ensures
        final(registry).wf(),
        has_uuid(old(registry)@, uuid@) <==> r is Ok,
        r is Err ==> r->Err_0.kind == ErrorKind::InstanceNotFound && final(registry)@ == old(
            registry,
        )@,
        r is Ok ==> {
            let i = index_of(old(registry)@, uuid@);
            let e = old(registry)@[i];
            final(registry)@ == old(registry)@.update(
                i,
                Instance { info: InstanceInfo { max_player_count: count, ..e.info }, ..e },
            )
        },
{
    registry.set_max_player_count(uuid, count)
}

/// The names of the players online on the instance with `uuid`.
pub fn get_player_list(registry: &InstanceRegistry, uuid: &String) -> (r: Result<
    Vec<String>,
    Error,
>)
    requires
        registry.wf(),
    ensures
        has_uuid(registry@, uuid@) ==> r is Ok && r->Ok_0@ == entry(registry, uuid@).players@,
        !has_uuid(registry@, uuid@) ==> r is Err && r->Err_0.kind == ErrorKind::InstanceNotFound,
{
    let instance = registry.get(uuid)?;
    Ok(copy_strings(&instance.players))
}

} // verus!
