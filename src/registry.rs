use vstd::prelude::*;

use crate::auth::{Requester, UserAction};
use crate::error::{Error, ErrorKind};
use crate::instance::{InstanceInfo, InstanceState};

verus! {

/// A registered instance: its descriptive data and who is online on it.
pub struct Instance {
    pub info: InstanceInfo,
    /// The names of the players currently online.
    pub players: Vec<String>,
}

/// No two entries share a uuid.
pub open spec fn uuids_unique(s: Seq<Instance>) -> bool {
    forall|i: int, j: int|
        0 <= i < s.len() && 0 <= j < s.len() && i != j ==> (#[trigger] s[i]).info.uuid@
            != (#[trigger] s[j]).info.uuid@
}

/// No two entries share an install path.
pub open spec fn paths_unique(s: Seq<Instance>) -> bool {
    forall|i: int, j: int|
        0 <= i < s.len() && 0 <= j < s.len() && i != j ==> (#[trigger] s[i]).info.path@
            != (#[trigger] s[j]).info.path@
}

/// Entries stand in ascending order of creation time.
pub open spec fn sorted_by_time(s: Seq<Instance>) -> bool {
    forall|i: int, j: int|
        0 <= i <= j < s.len() ==> (#[trigger] s[i]).info.creation_time
            <= (#[trigger] s[j]).info.creation_time
}

/// Infos stand in ascending order of creation time.
pub open spec fn infos_sorted(s: Seq<InstanceInfo>) -> bool {
    forall|i: int, j: int|
        0 <= i <= j < s.len() ==> (#[trigger] s[i]).creation_time <= (#[trigger] s[j]).creation_time
}

/// Some entry has uuid `u`.
pub open spec fn has_uuid(s: Seq<Instance>, u: Seq<char>) -> bool {
    exists|i: int| 0 <= i < s.len() && (#[trigger] s[i]).info.uuid@ == u
}

/// Some entry is installed at `path`.
pub open spec fn has_path(s: Seq<Instance>, path: Seq<char>) -> bool {
    exists|i: int| 0 <= i < s.len() && (#[trigger] s[i]).info.path@ == path
}

/// The index of the entry with uuid `u` (meaningful where `has_uuid(s, u)`).
pub open spec fn index_of(s: Seq<Instance>, u: Seq<char>) -> int {
    choose|i: int| 0 <= i < s.len() && (#[trigger] s[i]).info.uuid@ == u
}

/// `s` without the entry whose uuid is `u`.
pub open spec fn removed(s: Seq<Instance>, u: Seq<char>) -> Seq<Instance> {
    if has_uuid(s, u) {
        s.remove(index_of(s, u))
    } else {
        s
    }
}

/// `p` splits `s` into the entries created at or before `t` and those after.
pub open spec fn splits_at(s: Seq<Instance>, t: u64, p: int) -> bool {
    &&& 0 <= p <= s.len()
    &&& forall|k: int| 0 <= k < p ==> (#[trigger] s[k]).info.creation_time <= t
    &&& forall|k: int| p <= k < s.len() ==> (#[trigger] s[k]).info.creation_time > t
}

/// Where an entry created at `t` goes among the time-ordered entries `s`.
pub open spec fn insertion_point(s: Seq<Instance>, t: u64) -> int {
    choose|p: int| splits_at(s, t, p)
}

/// `s` with `e` added at its place in time order.
pub open spec fn inserted(s: Seq<Instance>, e: Instance) -> Seq<Instance> {
    s.insert(insertion_point(s, e.info.creation_time), e)
}

/// The infos of the entries of `s` that `r` may view, in the order of `s`.
pub open spec fn visible(s: Seq<Instance>, r: Requester) -> Seq<InstanceInfo>
    decreases s.len(),
{
    if s.len() == 0 {
        Seq::empty()
    } else {
        let rest = visible(s.drop_last(), r);
        if r.permits(UserAction::ViewInstance(s.last().info.uuid)) {
            rest.push(s.last().info)
        } else {
            rest
        }
    }
}

/// Some entry of `s` has the info `x`.
pub open spec fn info_in(s: Seq<Instance>, x: InstanceInfo) -> bool {
    exists|i: int| 0 <= i < s.len() && s[i].info == x
}

/// Every listed info belongs to an entry that `r` may view.
pub proof fn lemma_visible_permitted(s: Seq<Instance>, r: Requester)
    ensures
        forall|k: int|
            0 <= k < visible(s, r).len() ==> r.permits(
                UserAction::ViewInstance(#[trigger] visible(s, r)[k].uuid),
            ) && info_in(s, visible(s, r)[k]),
    decreases s.len(),
{
    if s.len() > 0 {
        let d = s.drop_last();
        lemma_visible_permitted(d, r);
        let rest = visible(d, r);
        let v = visible(s, r);
        assert forall|k: int| 0 <= k < v.len() implies r.permits(
            UserAction::ViewInstance(#[trigger] v[k].uuid),
        ) && info_in(s, v[k]) by {
            if k < rest.len() {
                assert(v[k] == rest[k]);
                assert(r.permits(UserAction::ViewInstance(rest[k].uuid)));
                assert(info_in(d, rest[k]));
                let i = choose|i: int| 0 <= i < d.len() && d[i].info == rest[k];
                assert(s[i] == d[i]);
            } else {
                assert(s[s.len() - 1].info == v[k]);
            }
        }
    }
}

/// Every entry that `r` may view is listed.
pub proof fn lemma_visible_complete(s: Seq<Instance>, r: Requester, i: int)
    requires
        0 <= i < s.len(),
        r.permits(UserAction::ViewInstance(s[i].info.uuid)),
    ensures
        visible(s, r).contains(s[i].info),
    decreases s.len(),
{
    if i < s.len() - 1 {
        lemma_visible_complete(s.drop_last(), r, i);
        let rest = visible(s.drop_last(), r);
        let k = choose|k: int| 0 <= k < rest.len() && rest[k] == s[i].info;
        assert(visible(s, r)[k] == s[i].info);
    } else {
        let v = visible(s, r);
        assert(v[v.len() - 1] == s[i].info);
    }
}

/// Listing keeps the time order of the entries.
pub proof fn lemma_visible_sorted(s: Seq<Instance>, r: Requester)
    requires
        sorted_by_time(s),
    ensures
        infos_sorted(visible(s, r)),
    decreases s.len(),
{
    lemma_visible_permitted(s, r);
    if s.len() > 0 {
        let d = s.drop_last();
        assert(sorted_by_time(d)) by {
            assert forall|i: int, j: int| 0 <= i <= j < d.len() implies (#[trigger] d[i]).info.creation_time
                <= (#[trigger] d[j]).info.creation_time by {
                assert(d[i] == s[i] && d[j] == s[j]);
            }
        }
        lemma_visible_sorted(d, r);
        lemma_visible_permitted(d, r);
        let rest = visible(d, r);
        let v = visible(s, r);
        assert forall|a: int, b: int| 0 <= a <= b < v.len() implies (#[trigger] v[a]).creation_time
            <= (#[trigger] v[b]).creation_time by {
            if b < rest.len() {
                assert(v[a] == rest[a] && v[b] == rest[b]);
            } else {
                assert(v[b] == s.last().info);
                if a < rest.len() {
                    assert(v[a] == rest[a]);
                    assert(r.permits(UserAction::ViewInstance(rest[a].uuid)));
                    assert(info_in(d, rest[a]));
                    let i = choose|i: int| 0 <= i < d.len() && d[i].info == rest[a];
                    assert(s[i] == d[i]);
                    assert(s[i].info.creation_time <= s[s.len() - 1].info.creation_time);
                }
            }
        }
    }
}

/// In a time-ordered sequence, the first entry created after `t` stands
/// where `insertion_point` says.
pub proof fn lemma_insertion_point(w: Seq<Instance>, t: u64, p: int)
    requires
        sorted_by_time(w),
        0 <= p <= w.len(),
        forall|k: int| 0 <= k < p ==> (#[trigger] w[k]).info.creation_time <= t,
        p < w.len() ==> w[p].info.creation_time > t,
    ensures
        splits_at(w, t, p),
        insertion_point(w, t) == p,
{
    assert forall|k: int| p <= k < w.len() implies (#[trigger] w[k]).info.creation_time > t by {
        assert(w[p].info.creation_time <= w[k].info.creation_time);
    }
    assert(splits_at(w, t, p));
    let q = insertion_point(w, t);
    assert(splits_at(w, t, q));
    if q < p {
        assert(w[q].info.creation_time > t);
    }
    if q > p {
        assert(w[p].info.creation_time <= t);
    }
}

/// Putting a new uuid at its place in time keeps a registry well formed.
pub proof fn lemma_insert_wf(w: Seq<Instance>, p: int, e: Instance)
    requires
        uuids_unique(w),
        paths_unique(w),
        sorted_by_time(w),
        !has_uuid(w, e.info.uuid@),
        !has_path(w, e.info.path@),
        splits_at(w, e.info.creation_time, p),
    ensures
        uuids_unique(w.insert(p, e)),
        paths_unique(w.insert(p, e)),
        sorted_by_time(w.insert(p, e)),
{
    let n = w.insert(p, e);
    assert forall|a: int, b: int|
        0 <= a < n.len() && 0 <= b < n.len() && a != b implies (#[trigger] n[a]).info.path@
        != (#[trigger] n[b]).info.path@ by {
        let a2 = if a < p { a } else { a - 1 };
        let b2 = if b < p { b } else { b - 1 };
        if a != p {
            assert(n[a] == w[a2]);
        }
        if b != p {
            assert(n[b] == w[b2]);
        }
    }
    assert forall|a: int, b: int|
        0 <= a < n.len() && 0 <= b < n.len() && a != b implies (#[trigger] n[a]).info.uuid@
        != (#[trigger] n[b]).info.uuid@ by {
        let a2 = if a < p { a } else { a - 1 };
        let b2 = if b < p { b } else { b - 1 };
        if a != p {
            assert(n[a] == w[a2]);
        }
        if b != p {
            assert(n[b] == w[b2]);
        }
    }
    assert forall|a: int, b: int| 0 <= a <= b < n.len() implies (
    #[trigger] n[a]).info.creation_time <= (#[trigger] n[b]).info.creation_time by {
        let a2 = if a < p { a } else { a - 1 };
        let b2 = if b < p { b } else { b - 1 };
        if a != p {
            assert(n[a] == w[a2]);
        }
        if b != p {
            assert(n[b] == w[b2]);
        }
    }
}

/// Adding an entry whose uuid and path are free keeps a registry well
/// formed, and leaves `e` as the one entry with its uuid.
pub proof fn lemma_inserted_holds(s: Seq<Instance>, e: Instance)
    requires
        uuids_unique(s),
        paths_unique(s),
        sorted_by_time(s),
        !has_uuid(s, e.info.uuid@),
        !has_path(s, e.info.path@),
    ensures
        uuids_unique(inserted(s, e)),
        paths_unique(inserted(s, e)),
        sorted_by_time(inserted(s, e)),
        has_uuid(inserted(s, e), e.info.uuid@),
        inserted(s, e)[index_of(inserted(s, e), e.info.uuid@)] == e,
        forall|k: int|
            0 <= k < inserted(s, e).len() && (#[trigger] inserted(s, e)[k]).info.uuid@ == e.info.uuid@
                ==> inserted(s, e)[k] == e,
{
    let u = e.info.uuid@;
    let p = insertion_point(s, e.info.creation_time);
    lemma_insertion_point_exists(s, e.info.creation_time, 0);
    lemma_insert_wf(s, p, e);
    let n = inserted(s, e);
    assert(n[p] == e);
    assert forall|k: int| 0 <= k < n.len() && (#[trigger] n[k]).info.uuid@ == u implies n[k] == e by {
        if k != p {
            assert(n[k].info.uuid@ != n[p].info.uuid@);
        }
    }
    assert(has_uuid(n, u));
}

/// Taking out one uuid keeps a registry well formed and leaves no entry with it.
pub proof fn lemma_removed_wf(s: Seq<Instance>, u: Seq<char>)
    requires
        uuids_unique(s),
        paths_unique(s),
        sorted_by_time(s),
    ensures
        uuids_unique(removed(s, u)),
        paths_unique(removed(s, u)),
        sorted_by_time(removed(s, u)),
        !has_uuid(removed(s, u), u),
{
    if has_uuid(s, u) {
        let i = index_of(s, u);
        let n = s.remove(i);
        assert forall|a: int, b: int|
            0 <= a < n.len() && 0 <= b < n.len() && a != b implies (#[trigger] n[a]).info.uuid@
            != (#[trigger] n[b]).info.uuid@ by {
            let a2 = if a < i { a } else { a + 1 };
            let b2 = if b < i { b } else { b + 1 };
            assert(n[a] == s[a2] && n[b] == s[b2]);
        }
        assert forall|a: int, b: int|
            0 <= a < n.len() && 0 <= b < n.len() && a != b implies (#[trigger] n[a]).info.path@
            != (#[trigger] n[b]).info.path@ by {
            let a2 = if a < i { a } else { a + 1 };
            let b2 = if b < i { b } else { b + 1 };
            assert(n[a] == s[a2] && n[b] == s[b2]);
        }
        assert forall|a: int, b: int| 0 <= a <= b < n.len() implies (
        #[trigger] n[a]).info.creation_time <= (#[trigger] n[b]).info.creation_time by {
            let a2 = if a < i { a } else { a + 1 };
            let b2 = if b < i { b } else { b + 1 };
            assert(n[a] == s[a2] && n[b] == s[b2]);
        }
        assert forall|k: int| 0 <= k < n.len() implies (#[trigger] n[k]).info.uuid@ != u by {
            let k2 = if k < i { k } else { k + 1 };
            assert(n[k] == s[k2]);
        }
    }
}

/// A time-ordered sequence has a place for every creation time; the entries
/// before `p` are known to be created at or before `t`.
pub proof fn lemma_insertion_point_exists(w: Seq<Instance>, t: u64, p: int)
    requires
        sorted_by_time(w),
        0 <= p <= w.len(),
        forall|k: int| 0 <= k < p ==> (#[trigger] w[k]).info.creation_time <= t,
    ensures
        splits_at(w, t, insertion_point(w, t)),
    decreases w.len() - p,
{
    if p < w.len() && w[p].info.creation_time <= t {
        lemma_insertion_point_exists(w, t, p + 1);
    } else {
        lemma_insertion_point(w, t, p);
    }
}

/// Replacing an entry by one with the same uuid and creation time keeps a
/// registry well formed.
proof fn lemma_update_wf(o: Seq<Instance>, i: int, e: Instance)
    requires
        uuids_unique(o),
        sorted_by_time(o),
        0 <= i < o.len(),
        paths_unique(o),
        e.info.uuid@ == o[i].info.uuid@,
        e.info.path@ == o[i].info.path@,
        e.info.creation_time == o[i].info.creation_time,
    ensures
        uuids_unique(o.update(i, e)),
        paths_unique(o.update(i, e)),
        sorted_by_time(o.update(i, e)),
{
    let n = o.update(i, e);
    assert forall|a: int, b: int|
        0 <= a < n.len() && 0 <= b < n.len() && a != b implies (#[trigger] n[a]).info.path@
        != (#[trigger] n[b]).info.path@ by {
        assert(n[a].info.path@ == o[a].info.path@);
        assert(n[b].info.path@ == o[b].info.path@);
    }
    assert forall|a: int, b: int|
        0 <= a < n.len() && 0 <= b < n.len() && a != b implies (#[trigger] n[a]).info.uuid@
        != (#[trigger] n[b]).info.uuid@ by {
        assert(n[a].info.uuid@ == o[a].info.uuid@);
        assert(n[b].info.uuid@ == o[b].info.uuid@);
    }
    assert forall|a: int, b: int| 0 <= a <= b < n.len() implies (
    #[trigger] n[a]).info.creation_time <= (#[trigger] n[b]).info.creation_time by {
        assert(n[a].info.creation_time == o[a].info.creation_time);
        assert(n[b].info.creation_time == o[b].info.creation_time);
    }
}

/// The live instances, keyed by uuid and kept in order of creation time.
pub struct InstanceRegistry {
    entries: Vec<Instance>,
}

impl View for InstanceRegistry {
    type V = Seq<Instance>;

    closed spec fn view(&self) -> Seq<Instance> {
        self.entries@
    }
}

impl InstanceRegistry {
    /// Uuids and install paths are unique, and entries stand in order of
    /// creation time.
    pub open spec fn wf(&self) -> bool {
        uuids_unique(self@) && paths_unique(self@) && sorted_by_time(self@)
    }

    pub fn new() -> (r: InstanceRegistry)
        ensures
            r.wf(),
            r@.len() == 0,
    {
        InstanceRegistry { entries: Vec::new() }
    }

    pub fn len(&self) -> (r: usize)
        ensures
            r == self@.len(),
    {
        self.entries.len()
    }

    /// The position of the entry with `uuid`, if there is one.
    pub fn find(&self, uuid: &String) -> (r: Option<usize>)
        requires
            self.wf(),
        ensures
            match r {
                Some(i) => i < self@.len() && self@[i as int].info.uuid@ == uuid@ && i
                    == index_of(self@, uuid@),
                None => !has_uuid(self@, uuid@),
            },
    {
        let mut i: usize = 0;
        while i < self.entries.len()
            invariant
                0 <= i <= self.entries@.len(),
                self.wf(),
                forall|j: int| 0 <= j < i ==> (#[trigger] self.entries@[j]).info.uuid@ != uuid@,
            decreases self.entries@.len() - i,
        {
            if self.entries[i].info.uuid == *uuid {
                proof {
                    assert(has_uuid(self@, uuid@));
                    let j = index_of(self@, uuid@);
                    assert(self@[j].info.uuid@ == uuid@);
                    assert(self@[i as int].info.uuid@ == uuid@);
                }
                return Some(i);
            }
            i = i + 1;
        }
        None
    }

    /// Whether an entry is installed at `path`.
    pub fn path_in_use(&self, path: &String) -> (r: bool)
        ensures
            r == has_path(self@, path@),
    {
        let mut i: usize = 0;
        while i < self.entries.len()
            invariant
                0 <= i <= self.entries@.len(),
                forall|j: int| 0 <= j < i ==> (#[trigger] self.entries@[j]).info.path@ != path@,
            decreases self.entries@.len() - i,
        {
            if self.entries[i].info.path == *path {
                assert(has_path(self@, path@));
                return true;
            }
            i = i + 1;
        }
        false
    }

    /// Whether an entry has `uuid`.
    pub fn contains(&self, uuid: &String) -> (r: bool)
        requires
            self.wf(),
        ensures
            r == has_uuid(self@, uuid@),
    {
        self.find(uuid).is_some()
    }

    /// The entry with `uuid`, or `InstanceNotFound`.
    pub fn get(&self, uuid: &String) -> (r: Result<&Instance, Error>)
        requires
            self.wf(),
        ensures
            has_uuid(self@, uuid@) <==> r is Ok,
            r is Ok ==> r->Ok_0 == self@[index_of(self@, uuid@)],
            r is Err ==> r->Err_0.kind == ErrorKind::InstanceNotFound,
    {
        match self.find(uuid) {
            Some(i) => Ok(&self.entries[i]),
            None => Err(Error::new(ErrorKind::InstanceNotFound, "Instance does not exist")),
        }
    }

    /// Removes the entry with `uuid` and hands it back, if there is one.
    pub fn remove(&mut self, uuid: &String) -> (r: Option<Instance>)
        requires
            old(self).wf(),
        ensures
            final(self).wf(),
            final(self)@ == removed(old(self)@, uuid@),
            !has_uuid(final(self)@, uuid@),
            has_uuid(old(self)@, uuid@) <==> r is Some,
            r is Some ==> r->Some_0 == old(self)@[index_of(old(self)@, uuid@)],
    {
        match self.find(uuid) {
            Some(i) => {
                let e = self.entries.remove(i);
                proof {
                    lemma_removed_wf(old(self)@, uuid@);
                    assert(self@ =~= removed(old(self)@, uuid@));
                }
                Some(e)
            },
            None => None,
        }
    }

    /// Registers `inst`, whose uuid and install path are not taken; entries
    /// stay in order of creation time, `inst` after those created at the
    /// same time.
    pub fn insert(&mut self, inst: Instance)
        requires
            old(self).wf(),
            !has_uuid(old(self)@, inst.info.uuid@),
            !has_path(old(self)@, inst.info.path@),
        ensures
            final(self).wf(),
            final(self)@ == inserted(old(self)@, inst),
    {
        let ghost w = self@;
        let t = inst.info.creation_time;
        let mut p: usize = 0;
        while p < self.entries.len() && self.entries[p].info.creation_time <= t
            invariant
                self@ == w,
                sorted_by_time(w),
                0 <= p <= w.len(),
                forall|k: int| 0 <= k < p ==> (#[trigger] w[k]).info.creation_time <= t,
            decreases w.len() - p,
        {
            p = p + 1;
        }
        proof {
            lemma_insertion_point(w, t, p as int);
        }
        self.entries.insert(p, inst);
        proof {
            assert(self@ =~= w.insert(p as int, inst));
            lemma_insert_wf(w, p as int, inst);
        }
    }

    /// Sets the lifecycle state of the entry with `uuid`, or fails with
    /// `InstanceNotFound`.
    pub fn set_state(&mut self, uuid: &String, state: InstanceState) -> (r: Result<(), Error>)
        requires
            old(self).wf(),
        ensures
            final(self).wf(),
            has_uuid(old(self)@, uuid@) <==> r is Ok,
            r is Err ==> r->Err_0.kind == ErrorKind::InstanceNotFound && final(self)@ == old(self)@,
            r is Ok ==> {
                let i = index_of(old(self)@, uuid@);
                let e = old(self)@[i];
                final(self)@ == old(self)@.update(i, Instance { info: InstanceInfo { state, ..e.info }, ..e })
            },
    {
        match self.find(uuid) {
            Some(i) => {
                let mut e = self.entries.remove(i);
                e.info.state = state;
                self.entries.insert(i, e);
                proof {
                    assert(self@ =~= old(self)@.update(i as int, e));
                    lemma_update_wf(old(self)@, i as int, e);
                }
                Ok(())
            },
            None => Err(Error::new(ErrorKind::InstanceNotFound, "Instance does not exist")),
        }
    }

    /// Sets the configured player limit of the entry with `uuid`, or fails
    /// with `InstanceNotFound`.
    pub fn set_max_player_count(&mut self, uuid: &String, count: u32) -> (r: Result<(), Error>)
        requires
            old(self).wf(),
        ensures
            final(self).wf(),
            has_uuid(old(self)@, uuid@) <==> r is Ok,
            r is Err ==> r->Err_0.kind == ErrorKind::InstanceNotFound && final(self)@ == old(self)@,
            r is Ok ==> {
                let i = index_of(old(self)@, uuid@);
                let e = old(self)@[i];
                final(self)@ == old(self)@.update(
                    i,
                    Instance { info: InstanceInfo { max_player_count: count, ..e.info }, ..e },
                )
            },
    {
        match self.find(uuid) {
            Some(i) => {
                let mut e = self.entries.remove(i);
                e.info.max_player_count = count;
                self.entries.insert(i, e);
                proof {
                    assert(self@ =~= old(self)@.update(i as int, e));
                    lemma_update_wf(old(self)@, i as int, e);
                }
                Ok(())
            },
            None => Err(Error::new(ErrorKind::InstanceNotFound, "Instance does not exist")),
        }
    }

    /// Records who is online on the entry with `uuid`, or fails with
    /// `InstanceNotFound`; the player count follows the list.
    pub fn set_players(&mut self, uuid: &String, players: Vec<String>) -> (r: Result<(), Error>)
        requires
            old(self).wf(),
            players@.len() <= u32::MAX,
        ensures
            final(self).wf(),
            has_uuid(old(self)@, uuid@) <==> r is Ok,
            r is Err ==> r->Err_0.kind == ErrorKind::InstanceNotFound && final(self)@ == old(self)@,
            r is Ok ==> {
                let i = index_of(old(self)@, uuid@);
                let e = old(self)@[i];
                final(self)@ == old(self)@.update(
                    i,
                    Instance {
                        info: InstanceInfo { player_count: players@.len() as u32, ..e.info },
                        players,
                    },
                )
            },
    {
        match self.find(uuid) {
            Some(i) => {
                let mut e = self.entries.remove(i);
                e.info.player_count = players.len() as u32;
                e.players = players;
                self.entries.insert(i, e);
                proof {
                    assert(self@ =~= old(self)@.update(i as int, e));
                    lemma_update_wf(old(self)@, i as int, e);
                }
                Ok(())
            },
            None => Err(Error::new(ErrorKind::InstanceNotFound, "Instance does not exist")),
        }
    }

    /// The infos of the entries that `requester` may view, in ascending order
    /// of creation time.
    pub fn list(&self, requester: &Requester) -> (r: Vec<InstanceInfo>)
        requires
            self.wf(),
        ensures
            r@ == visible(self@, *requester),
            infos_sorted(r@),
    {
        let mut r: Vec<InstanceInfo> = Vec::new();
        let mut i: usize = 0;
        while i < self.entries.len()
            invariant
                0 <= i <= self.entries@.len(),
                r@ == visible(self@.subrange(0, i as int), *requester),
            decreases self.entries@.len() - i,
        {
            let ghost before = self@.subrange(0, i as int);
            proof {
                assert(self@.subrange(0, i + 1).drop_last() =~= before);
            }
            if requester.can_view_instance(&self.entries[i].info.uuid) {
                r.push(self.entries[i].info.copy());
            }
            i = i + 1;
        }
        proof {
            assert(self@.subrange(0, i as int) =~= self@);
            lemma_visible_sorted(self@, *requester);
        }
        r
    }
}

} // verus!
