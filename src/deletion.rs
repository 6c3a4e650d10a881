use vstd::prelude::*;

use crate::auth::{UserAction, UsersManager};
use crate::creation::caused_by_user;
use crate::error::{Error, ErrorKind};
use crate::events::{
    failed_end, is_end, is_start, join_text, CausedBy, ProgressionEndValue, ProgressionEvent,
    ProgressionEventInner, PROGRESSION_TOTAL,
};
use crate::instance::InstanceState;
use crate::ports::PortAllocator;
use crate::registry::{has_uuid, index_of, removed, InstanceRegistry};

verus! {

/// The name of the configuration marker file in an instance directory.
pub const MARKER_FILE: &'static str = ".lodestone_config";

/// Where the configuration marker of the instance installed at `path` lies.
pub open spec fn marker_path(path: Seq<char>) -> Seq<char> {
    path + "/"@ + MARKER_FILE@
}

/// A deletion that passed its checks and has been announced.
pub struct DeletionPlan {
    pub uuid: String,
    pub path: String,
    pub marker_path: String,
    pub port: u32,
    pub event_id: u64,
    pub caused_by: CausedBy,
}

/// A checked deletion and the event that announces it.
pub struct DeletionStart {
    pub plan: DeletionPlan,
    /// The event that opens the deletion's progression.
    pub start_event: ProgressionEvent,
}

/// The synchronous checks of a deletion: authenticates `token`, checks the
/// `DeleteInstance` capability, that the instance exists and that it is
/// stopped. Nothing shared changes; on success the plan names the marker
/// file whose removal commits the deletion.
pub fn delete_instance(
    users: &UsersManager,
    token: &String,
    registry: &InstanceRegistry,
    uuid: &String,
    event_id: u64,
) -> (r: Result<DeletionStart, Error>)
    requires
        registry.wf(),
    ensures
        match users.resolve(token@) {
            None => r is Err && r->Err_0.kind == ErrorKind::Unauthorized,
            Some(req) => if !req.permits(UserAction::DeleteInstance) {
                r is Err && r->Err_0.kind == ErrorKind::PermissionDenied
            } else if !has_uuid(registry@, uuid@) {
                r is Err && r->Err_0.kind == ErrorKind::InstanceNotFound
            } else {
                let e = registry@[index_of(registry@, uuid@)];
                if e.info.state != InstanceState::Stopped {
                    r is Err && r->Err_0.kind == ErrorKind::InvalidInstanceState
                } else {
                    &&& r is Ok
                    &&& r->Ok_0.plan.uuid@ == uuid@
                    &&& r->Ok_0.plan.path == e.info.path
                    &&& r->Ok_0.plan.marker_path@ == marker_path(e.info.path@)
                    &&& r->Ok_0.plan.port == e.info.port
                    &&& r->Ok_0.plan.event_id == event_id
                    &&& r->Ok_0.plan.caused_by == (CausedBy::User {
                        user_id: req.uid,
                        user_name: req.username,
                    })
                    &&& is_start(r->Ok_0.start_event, event_id, uuid@)
                    &&& r->Ok_0.start_event.inner->ProgressionStart_progression_name@
                        == "Deleting instance "@ + e.info.name@
                }
            },
        },
{
    let requester = users.authenticate(token)?;
    if !requester.can_perform_action(&UserAction::DeleteInstance) {
        return Err(Error::new(ErrorKind::PermissionDenied, "Not authorized to delete instance"));
    }
    let instance = registry.get(uuid)?;
    if instance.info.state != InstanceState::Stopped {
        return Err(
            Error::new(ErrorKind::InvalidInstanceState, "Instance is running, cannot remove"),
        );
    }
    let caused_by = caused_by_user(requester);
    let start_event = ProgressionEvent {
        event_id,
        caused_by: caused_by.copy(),
        inner: ProgressionEventInner::ProgressionStart {
            progression_name: join_text("Deleting instance ", &instance.info.name),
            producer_id: Some(uuid.clone()),
            total: Some(PROGRESSION_TOTAL),
            inner: None,
        },
    };
    let mut marker = instance.info.path.clone();
    marker.append("/");
    marker.append(MARKER_FILE);
    let plan = DeletionPlan {
        uuid: uuid.clone(),
        path: instance.info.path.clone(),
        marker_path: marker,
        port: instance.info.port,
        event_id,
        caused_by,
    };
    Ok(DeletionStart { plan, start_event })
}

/// Why a deletion stopped before its commit point.
pub struct DeletionAborted {
    pub error: Error,
    /// The event that closes the deletion's progression.
    pub end_event: ProgressionEvent,
}

/// The step after the marker file's removal was tried. Where it failed the
/// deletion is abandoned and nothing shared changes; where it succeeded the
/// deletion is committed: the port is freed and the entry unregistered.
pub fn commit_deletion(
    registry: &mut InstanceRegistry,
    ports: &mut PortAllocator,
    plan: &DeletionPlan,
    marker_removed: bool,
) -> (r: Result<(), DeletionAborted>)
    requires
        old(registry).wf(),
        old(ports).wf(),
    ensures
        final(registry).wf(),
        final(ports).wf(),
        marker_removed <==> r is Ok,
        !marker_removed ==> {
            &&& final(registry)@ == old(registry)@
            &&& final(ports)@ == old(ports)@
            &&& r->Err_0.error.kind == ErrorKind::FailedToRemoveFileOrDir
            &&& is_end(r->Err_0.end_event, plan.event_id, false)
            &&& r->Err_0.end_event.caused_by == plan.caused_by
        },
        marker_removed ==> {
            &&& final(registry)@ == removed(old(registry)@, plan.uuid@)
            &&& !has_uuid(final(registry)@, plan.uuid@)
            &&& final(ports)@ == old(ports)@.remove(plan.port)
        },
{
    if !marker_removed {
        let end_event = failed_end(
            plan.event_id,
            plan.caused_by.copy(),
            String::from_str("Failed to delete the configuration marker. Instance not deleted"),
        );
        let error = Error::new(
            ErrorKind::FailedToRemoveFileOrDir,
            "Failed to remove the configuration marker. Instance not deleted",
        );
        return Err(DeletionAborted { error, end_event });
    }
    ports.deallocate(plan.port);
    let _ = registry.remove(&plan.uuid);
    Ok(())
}

/// The last step, after removal of the instance directory was tried: the
/// event that closes the progression and the deletion's own result.
pub fn finish_deletion(plan: &DeletionPlan, dir_removed: bool) -> (r: (
    ProgressionEvent,
    Result<(), Error>,
))
    ensures
        is_end(r.0, plan.event_id, dir_removed),
        r.0.caused_by == plan.caused_by,
        dir_removed ==> r.1 is Ok && r.0.inner->ProgressionEnd_inner is Some
            && r.0.inner->ProgressionEnd_inner->Some_0 is InstanceDelete
            && r.0.inner->ProgressionEnd_inner->Some_0->InstanceDelete_instance_uuid == plan.uuid,
        !dir_removed ==> r.1 is Err && r.1->Err_0.kind == ErrorKind::FailedToRemoveFileOrDir,
{
    if dir_removed {
        let end_event = ProgressionEvent {
            event_id: plan.event_id,
            caused_by: plan.caused_by.copy(),
            inner: ProgressionEventInner::ProgressionEnd {
                success: true,
                message: Some(String::from_str("Deleted instance")),
                inner: Some(ProgressionEndValue::InstanceDelete { instance_uuid: plan.uuid.clone() }),
            },
        };
        (end_event, Ok(()))
    } else {
        let end_event = failed_end(
            plan.event_id,
            plan.caused_by.copy(),
            String::from_str("Could not delete some or all of instance's files"),
        );
        (
            end_event,
            Err(Error::new(ErrorKind::FailedToRemoveFileOrDir, "Could not remove files for instance")),
        )
    }
}

} // verus!
