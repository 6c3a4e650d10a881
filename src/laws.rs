use vstd::prelude::*;

use crate::auth::{Requester, UserAction};
use crate::creation::is_fresh;
use crate::instance::{install_path, SetupConfig};
use crate::registry::{
    has_path, has_uuid, index_of, infos_sorted, inserted, insertion_point, lemma_inserted_holds,
    lemma_insertion_point_exists, lemma_visible_complete, lemma_visible_permitted, lemma_visible_sorted, paths_unique,
    sorted_by_time, uuids_unique, visible, Instance,
};

verus! {

/// A requester that may not view the instance with uuid `u` never finds it
/// in a listing.
pub proof fn hidden_instance_is_never_listed(s: Seq<Instance>, req: Requester, u: String)
    requires
        !req.permits(UserAction::ViewInstance(u)),
    ensures
        forall|k: int| 0 <= k < visible(s, req).len() ==> (#[trigger] visible(s, req)[k]).uuid@ != u@,
{
    lemma_visible_permitted(s, req);
    assert forall|k: int| 0 <= k < visible(s, req).len() implies (#[trigger] visible(
        s,
        req,
    )[k]).uuid@ != u@ by {
        assert(req.permits(UserAction::ViewInstance(visible(s, req)[k].uuid)));
    }
}

/// A listing is in ascending order of creation time, whatever is registered.
pub proof fn listing_is_time_ordered(s: Seq<Instance>, req: Requester)
    requires
        sorted_by_time(s),
    ensures
        infos_sorted(visible(s, req)),
{
    lemma_visible_sorted(s, req);
}

/// Two creations under the same name get distinct uuids and distinct install
/// paths: the second is planned against a registry that holds the first.
pub proof fn same_name_creations_do_not_collide(
    s: Seq<Instance>,
    root: Seq<char>,
    name: Seq<char>,
    first: SetupConfig,
    second: SetupConfig,
)
    requires
        exists|i: int|
            0 <= i < s.len() && (#[trigger] s[i]).info.uuid == first.uuid && s[i].info.path
                == first.path,
        first.path@ == install_path(root, name, first.uuid@),
        second.path@ == install_path(root, name, second.uuid@),
        is_fresh(s, second),
    ensures
        first.uuid@ != second.uuid@,
        first.path@ != second.path@,
{
    let i = choose|i: int|
        0 <= i < s.len() && (#[trigger] s[i]).info.uuid == first.uuid && s[i].info.path
            == first.path;
    assert(s[i].info.path@ == first.path@);
    assert(s[i].info.uuid@ == first.uuid@);
}

/// Once registered, an instance appears in the listing of every requester
/// that may view it.
pub proof fn registered_instance_is_listed(s: Seq<Instance>, e: Instance, req: Requester)
    requires
        uuids_unique(s),
        paths_unique(s),
        sorted_by_time(s),
        !has_uuid(s, e.info.uuid@),
        !has_path(s, e.info.path@),
        req.permits(UserAction::ViewInstance(e.info.uuid)),
    ensures
        visible(inserted(s, e), req).contains(e.info),
{
    lemma_inserted_holds(s, e);
    let n = inserted(s, e);
    let i = index_of(n, e.info.uuid@);
    lemma_visible_complete(n, req, i);
}

/// Registering a provisioned instance whose uuid and install path are free
/// adds exactly one entry, with its uuid, and keeps every other entry.
pub proof fn registration_is_unique(s: Seq<Instance>, e: Instance)
    requires
        uuids_unique(s),
        paths_unique(s),
        sorted_by_time(s),
        !has_uuid(s, e.info.uuid@),
        !has_path(s, e.info.path@),
    ensures
        has_uuid(inserted(s, e), e.info.uuid@),
        inserted(s, e)[index_of(inserted(s, e), e.info.uuid@)] == e,
        forall|k: int|
            0 <= k < inserted(s, e).len() && (#[trigger] inserted(s, e)[k]).info.uuid@
                == e.info.uuid@ ==> k == index_of(inserted(s, e), e.info.uuid@),
        inserted(s, e).remove(index_of(inserted(s, e), e.info.uuid@)) == s,
{
    lemma_inserted_holds(s, e);
    let p = insertion_point(s, e.info.creation_time);
    lemma_insertion_point_exists(s, e.info.creation_time, 0);
    let n = inserted(s, e);
    let i = index_of(n, e.info.uuid@);
    assert(n[p].info.uuid@ == e.info.uuid@);
    assert(i == p);
    assert(n.remove(i) =~= s);
}

} // verus!
