//! A task as a whole: where it runs, when, its specification, the keys that
//! may act on it and its version; the changes that move one task to another,
//! and their application.
use vstd::prelude::*;

use crate::change::{modify_post, ModifyTaskError, ModifyTaskSpec};
use crate::id_map::{IdKey, IdMap};
use crate::ids::{
    DomainId, DynamicInstanceNodeId, FixedInstanceNodeId, MediaObjectId, MixerNodeId, NodeConnectionId,
    SecureKey, TrackNodeId,
};
use crate::task::{
    DynamicInstanceNode, FixedInstanceNode, MixerNode, NodeConnection, TaskPermissions, TaskSpec, TrackNode,
};

verus! {

/// A reservation window, in milliseconds since the Unix epoch.
#[derive(Clone, Copy, Debug, PartialEq, Eq, Structural)]
pub struct TimeRange {
    pub from: i64,
    pub to: i64,
}

/// A request to create a task: its nodes, connections and security table.
pub struct CreateTask {
    pub domain: DomainId,
    pub time: TimeRange,
    pub tracks: IdMap<TrackNodeId, TrackNode>,
    pub mixers: IdMap<MixerNodeId, MixerNode>,
    pub dynamic: IdMap<DynamicInstanceNodeId, DynamicInstanceNode>,
    pub fixed: IdMap<FixedInstanceNodeId, FixedInstanceNode>,
    pub connections: IdMap<NodeConnectionId, NodeConnection>,
    pub security: IdMap<SecureKey, TaskPermissions>,
    /// If set, the request is checked but no task is created.
    pub dry_run: bool,
}

/// A task: the domain executing it, its reservation, its specification, the
/// permissions of each key, and its version.
pub struct Task {
    pub domain_id: DomainId,
    pub time: TimeRange,
    pub spec: TaskSpec,
    pub security: IdMap<SecureKey, TaskPermissions>,
    pub version: u64,
}

impl From<CreateTask> for Task {
    fn from(source: CreateTask) -> (r: Task) {
        let CreateTask { domain, time, tracks, mixers, dynamic, fixed, security, connections, .. } =
            source;
        Task {
            domain_id: domain,
            time,
            security,
            version: 0,
            spec: TaskSpec { tracks, mixers, dynamic, fixed, connections },
        }
    }
}

impl vstd::std_specs::convert::FromSpecImpl<CreateTask> for Task {
    open spec fn obeys_from_spec() -> bool {
        true
    }

    /// The task a creation request describes, at version 0.
    open spec fn from_spec(source: CreateTask) -> Task {
        Task {
            domain_id: source.domain,
            time: source.time,
            security: source.security,
            version: 0,
            spec: TaskSpec {
                tracks: source.tracks,
                mixers: source.mixers,
                dynamic: source.dynamic,
                fixed: source.fixed,
                connections: source.connections,
            },
        }
    }
}

/// One change to a task.
pub enum ModifyTask {
    /// A change to the specification.
    Spec { spec: ModifyTaskSpec },
    /// Adds a key, or replaces its permissions.
    SetSecurity { key: SecureKey, security: TaskPermissions },
    /// Removes a key.
    RevokeSecurity { key: SecureKey },
}

/// The differences between two tables: entries only in the second, entries
/// in both whose values differ (with the second's value), and keys only in
/// the first.
pub struct HashMapChanges<K: IdKey, T> {
    pub added: IdMap<K, T>,
    pub changed: IdMap<K, T>,
    pub removed: IdMap<K, ()>,
}

/// Entries of `new` whose key `existing` lacks.
pub open spec fn added_entries<K, T>(existing: Map<K, T>, new: Map<K, T>) -> Map<K, T> {
    Map::new(|k: K| new.contains_key(k) && !existing.contains_key(k), |k: K| new[k])
}

/// Entries of `new` whose key `existing` holds with another value.
pub open spec fn changed_entries<K, T>(existing: Map<K, T>, new: Map<K, T>) -> Map<K, T> {
    Map::new(
        |k: K| new.contains_key(k) && existing.contains_key(k) && existing[k] != new[k],
        |k: K| new[k],
    )
}

/// Keys of `existing` that `new` lacks.
pub open spec fn removed_keys<K, T>(existing: Map<K, T>, new: Map<K, T>) -> Set<K> {
    Set::new(|k: K| existing.contains_key(k) && !new.contains_key(k))
}

/// Whether one of the first `n` entries of `m` has a key with view `k`.
spec fn among_first<K: IdKey, V>(m: IdMap<K, V>, n: int, k: <K as View>::V) -> bool {
    exists|j: int| 0 <= j < n && m.key_at(j) == k
}

/// What changed from `existing` to `new`.
pub fn hashmap_changes<K: IdKey>(
    existing: &IdMap<K, TaskPermissions>,
    new: &IdMap<K, TaskPermissions>,
) -> (r: HashMapChanges<K, TaskPermissions>)
    ensures
        r.added@ == added_entries(existing@, new@),
        r.changed@ == changed_entries(existing@, new@),
        r.removed@.dom() == removed_keys(existing@, new@),
{
    let mut changes = HashMapChanges { added: IdMap::new(), changed: IdMap::new(), removed: IdMap::new() };
    let n = existing.len();
    let mut i: usize = 0;
    while i < n
        invariant
            n == existing.spec_len(),
            i <= n,
            forall|j: int|
                0 <= j < n ==> #[trigger] existing.key_at(j) == existing.spec_entry(j).0@
                    && existing@.contains_key(existing.key_at(j)) && existing@[existing.key_at(j)]
                    == existing.spec_entry(j).1,
            changes.added@ == Map::<<K as View>::V, TaskPermissions>::empty(),
            changes.changed@ == Map::new(
                |k: <K as View>::V|
                    among_first(*existing, i as int, k) && new@.contains_key(k) && existing@[k]
                        != new@[k],
                |k: <K as View>::V| new@[k],
            ),
            changes.removed@.dom() == Set::new(
                |k: <K as View>::V| among_first(*existing, i as int, k) && !new@.contains_key(k),
            ),
        decreases n - i,
    {
        let (key, value) = existing.entry_at(i);
        proof {
            assert forall|k: <K as View>::V|
                among_first(*existing, i + 1, k) == (among_first(*existing, i as int, k) || k
                    == key@) by {
                if among_first(*existing, i + 1, k) && k != key@ {
                    let j = choose|j: int| 0 <= j < i + 1 && existing.key_at(j) == k;
                    assert(j < i);
                }
                if k == key@ {
                    assert(existing.key_at(i as int) == k);
                }
            }
        }
        match new.get(key) {
            None => {
                changes.removed.insert(key.clone_key(), ());
            },
            Some(new_value) => {
                if *new_value != *value {
                    changes.changed.insert(key.clone_key(), *new_value);
                }
            },
        }
        i = i + 1;
        assert(changes.changed@ =~= Map::new(
            |k: <K as View>::V|
                among_first(*existing, i as int, k) && new@.contains_key(k) && existing@[k] != new@[k],
            |k: <K as View>::V| new@[k],
        ));
        assert(changes.removed@.dom() =~= Set::new(
            |k: <K as View>::V| among_first(*existing, i as int, k) && !new@.contains_key(k),
        ));
    }
    proof {
        assert forall|k: <K as View>::V| existing@.contains_key(k) implies among_first(
            *existing,
            n as int,
            k,
        ) by {
            let j = choose|j: int| 0 <= j < n && existing.key_at(j) == k;
        }
        assert(changes.changed@ =~= changed_entries(existing@, new@));
        assert(changes.removed@.dom() =~= removed_keys(existing@, new@));
    }
    let m = new.len();
    let mut i: usize = 0;
    while i < m
        invariant
            m == new.spec_len(),
            i <= m,
            forall|j: int|
                0 <= j < m ==> #[trigger] new.key_at(j) == new.spec_entry(j).0@ && new@.contains_key(
                    new.key_at(j),
                ) && new@[new.key_at(j)] == new.spec_entry(j).1,
            changes.changed@ == changed_entries(existing@, new@),
            changes.removed@.dom() == removed_keys(existing@, new@),
            changes.added@ == Map::new(
                |k: <K as View>::V| among_first(*new, i as int, k) && !existing@.contains_key(k),
                |k: <K as View>::V| new@[k],
            ),
        decreases m - i,
    {
        let (key, value) = new.entry_at(i);
        proof {
            assert forall|k: <K as View>::V|
                among_first(*new, i + 1, k) == (among_first(*new, i as int, k) || k == key@) by {
                if among_first(*new, i + 1, k) && k != key@ {
                    let j = choose|j: int| 0 <= j < i + 1 && new.key_at(j) == k;
                    assert(j < i);
                }
                if k == key@ {
                    assert(new.key_at(i as int) == k);
                }
            }
        }
        if !existing.contains_key(key) {
            changes.added.insert(key.clone_key(), *value);
        }
        i = i + 1;
        assert(changes.added@ =~= Map::new(
            |k: <K as View>::V| among_first(*new, i as int, k) && !existing@.contains_key(k),
            |k: <K as View>::V| new@[k],
        ));
    }
    proof {
        assert forall|k: <K as View>::V| new@.contains_key(k) implies among_first(*new, m as int, k) by {
            let j = choose|j: int| 0 <= j < m && new.key_at(j) == k;
        }
        assert(changes.added@ =~= added_entries(existing@, new@));
    }
    changes
}

/// Whether one of `s` sets the permissions of key `k`.
pub open spec fn sets_key(s: Seq<ModifyTask>, k: Seq<char>) -> bool {
    exists|j: int| 0 <= j < s.len() && (#[trigger] s[j] matches ModifyTask::SetSecurity { key, .. } && key@ == k)
}

/// Whether one of `s` revokes key `k`.
pub open spec fn revokes_key(s: Seq<ModifyTask>, k: Seq<char>) -> bool {
    exists|j: int| 0 <= j < s.len() && (#[trigger] s[j] matches ModifyTask::RevokeSecurity { key } && key@ == k)
}

/// `s` is a list of security changes that turns table `existing` into table
/// `new`: it sets exactly the keys that are new or whose permissions differ,
/// to their permissions in `new`, and revokes exactly the keys that `new`
/// lacks.
pub open spec fn is_security_diff(
    s: Seq<ModifyTask>,
    existing: Map<Seq<char>, TaskPermissions>,
    new: Map<Seq<char>, TaskPermissions>,
) -> bool {
    &&& forall|j: int| 0 <= j < s.len() ==> !(#[trigger] s[j] is Spec)
    &&& forall|j: int|
        0 <= j < s.len() ==> (#[trigger] s[j] matches ModifyTask::SetSecurity { key, security } ==> new.contains_key(
            key@,
        ) && security == new[key@])
    &&& forall|k: Seq<char>|
        #[trigger] sets_key(s, k) == (new.contains_key(k) && (!existing.contains_key(k) || existing[k]
            != new[k]))
    &&& forall|k: Seq<char>|
        #[trigger] revokes_key(s, k) == (existing.contains_key(k) && !new.contains_key(k))
}

/// The security changes for the entries of `m`, in order.
spec fn set_security_seq(m: IdMap<SecureKey, TaskPermissions>) -> Seq<ModifyTask> {
    Seq::new(
        m.spec_len(),
        |j: int| ModifyTask::SetSecurity { key: m.spec_entry(j).0, security: m.spec_entry(j).1 },
    )
}

spec fn revoke_security_seq(m: IdMap<SecureKey, ()>) -> Seq<ModifyTask> {
    Seq::new(m.spec_len(), |j: int| ModifyTask::RevokeSecurity { key: m.spec_entry(j).0 })
}

fn push_set_security(rv: &mut Vec<ModifyTask>, m: &IdMap<SecureKey, TaskPermissions>)
    ensures
        final(rv)@ == old(rv)@ + set_security_seq(*m),
{
    let ghost start = rv@;
    let n = m.len();
    let mut i: usize = 0;
    while i < n
        invariant
            n == m.spec_len(),
            i <= n,
            rv@ == start + set_security_seq(*m).subrange(0, i as int),
        decreases n - i,
    {
        let (key, security) = m.entry_at(i);
        rv.push(ModifyTask::SetSecurity { key: key.clone_key(), security: *security });
        i = i + 1;
        assert(rv@ =~= start + set_security_seq(*m).subrange(0, i as int));
    }
    assert(set_security_seq(*m).subrange(0, n as int) =~= set_security_seq(*m));
}

fn push_revoke_security(rv: &mut Vec<ModifyTask>, m: &IdMap<SecureKey, ()>)
    ensures
        final(rv)@ == old(rv)@ + revoke_security_seq(*m),
{
    let ghost start = rv@;
    let n = m.len();
    let mut i: usize = 0;
    while i < n
        invariant
            n == m.spec_len(),
            i <= n,
            rv@ == start + revoke_security_seq(*m).subrange(0, i as int),
        decreases n - i,
    {
        let (key, _) = m.entry_at(i);
        rv.push(ModifyTask::RevokeSecurity { key: key.clone_key() });
        i = i + 1;
        assert(rv@ =~= start + revoke_security_seq(*m).subrange(0, i as int));
    }
    assert(revoke_security_seq(*m).subrange(0, n as int) =~= revoke_security_seq(*m));
}

/// Appends to `rv` the security changes that turn `existing` into `new`.
fn security_changes(
    rv: &mut Vec<ModifyTask>,
    existing: &IdMap<SecureKey, TaskPermissions>,
    new: &IdMap<SecureKey, TaskPermissions>,
)
    ensures
        final(rv)@.len() >= old(rv)@.len(),
        final(rv)@.subrange(0, old(rv)@.len() as int) == old(rv)@,
        is_security_diff(
            final(rv)@.subrange(old(rv)@.len() as int, final(rv)@.len() as int),
            existing@,
            new@,
        ),
{
    let ghost start = rv@;
    let changes = hashmap_changes(existing, new);
    let nc = changes.changed.len();
    let na = changes.added.len();
    let nd = changes.removed.len();
    push_set_security(rv, &changes.changed);
    push_set_security(rv, &changes.added);
    push_revoke_security(rv, &changes.removed);
    proof {
        let c = set_security_seq(changes.changed);
        let a = set_security_seq(changes.added);
        let d = revoke_security_seq(changes.removed);
        let s = c + a + d;
        assert(rv@ =~= start + s);
        assert(rv@.subrange(start.len() as int, rv@.len() as int) =~= s);
        assert(rv@.subrange(0, start.len() as int) =~= start);
        assert forall|j: int| 0 <= j < s.len() implies #[trigger] s[j] == if j < nc {
            ModifyTask::SetSecurity {
                key: changes.changed.spec_entry(j).0,
                security: changes.changed.spec_entry(j).1,
            }
        } else if j < nc + na {
            ModifyTask::SetSecurity {
                key: changes.added.spec_entry(j - nc).0,
                security: changes.added.spec_entry(j - nc).1,
            }
        } else {
            ModifyTask::RevokeSecurity { key: changes.removed.spec_entry(j - nc - na).0 }
        } by {
            if j < nc {
                assert(s[j] == c[j]);
            } else if j < nc + na {
                assert(s[j] == a[j - nc]);
            } else {
                assert(s[j] == d[j - nc - na]);
            }
        }
        assert forall|j: int| 0 <= j < s.len() implies (#[trigger] s[j] matches ModifyTask::SetSecurity {
            key,
            security,
        } ==> new@.contains_key(key@) && security == new@[key@]) by {
            if j < nc {
                assert(changes.changed.key_at(j) == changes.changed.spec_entry(j).0@);
            } else if j < nc + na {
                assert(changes.added.key_at(j - nc) == changes.added.spec_entry(j - nc).0@);
            }
        }
        assert forall|k: Seq<char>| #[trigger]
            sets_key(s, k) == (new@.contains_key(k) && (!existing@.contains_key(k) || existing@[k]
                != new@[k])) by {
            if sets_key(s, k) {
                let j = choose|j: int|
                    0 <= j < s.len() && (#[trigger] s[j] matches ModifyTask::SetSecurity { key, .. } && key@
                        == k);
                if j < nc {
                    assert(changes.changed.key_at(j) == changes.changed.spec_entry(j).0@);
                    assert(changes.changed@.contains_key(k));
                } else {
                    assert(changes.added.key_at(j - nc) == changes.added.spec_entry(j - nc).0@);
                    assert(changes.added@.contains_key(k));
                }
            }
            if new@.contains_key(k) && existing@.contains_key(k) && existing@[k] != new@[k] {
                assert(changes.changed@.contains_key(k));
                let i = choose|i: int| 0 <= i < nc && changes.changed.key_at(i) == k;
                assert(s[i] matches ModifyTask::SetSecurity { key, .. } && key@ == k);
            }
            if new@.contains_key(k) && !existing@.contains_key(k) {
                assert(changes.added@.contains_key(k));
                let i = choose|i: int| 0 <= i < na && changes.added.key_at(i) == k;
                assert(s[nc + i] matches ModifyTask::SetSecurity { key, .. } && key@ == k);
            }
        }
        assert forall|k: Seq<char>| #[trigger]
            revokes_key(s, k) == (existing@.contains_key(k) && !new@.contains_key(k)) by {
            if revokes_key(s, k) {
                let j = choose|j: int|
                    0 <= j < s.len() && (#[trigger] s[j] matches ModifyTask::RevokeSecurity { key } && key@
                        == k);
                assert(changes.removed.key_at(j - nc - na) == changes.removed.spec_entry(j - nc - na).0@);
                assert(changes.removed@.dom().contains(k));
            }
            if existing@.contains_key(k) && !new@.contains_key(k) {
                assert(changes.removed@.dom().contains(k));
                let i = choose|i: int| 0 <= i < nd && changes.removed.key_at(i) == k;
                assert(s[nc + na + i] matches ModifyTask::RevokeSecurity { key } && key@ == k);
            }
        }
    }
}

/// Whether some media item on some track of `spec` plays object `id`.
pub open spec fn plays_object(spec: TaskSpec, id: MediaObjectId) -> bool {
    exists|t: Seq<char>, m: Seq<char>|
        #[trigger] spec.tracks@.contains_key(t) && #[trigger] spec.tracks@[t].media@.contains_key(m)
            && spec.tracks@[t].media@[m].object_id == id
}

impl TaskSpec {
    /// The media objects that the media items of all tracks play, one entry
    /// per item.
    pub fn get_media_object_ids(&self) -> (r: Vec<MediaObjectId>)
        ensures
            forall|j: int| 0 <= j < r@.len() ==> plays_object(*self, #[trigger] r@[j]),
            forall|t: Seq<char>, m: Seq<char>|
                #[trigger] self.tracks@.contains_key(t) && #[trigger] self.tracks@[t].media@.contains_key(m)
                    ==> r@.contains(self.tracks@[t].media@[m].object_id),
    {
        let mut r: Vec<MediaObjectId> = Vec::new();
        let n = self.tracks.len();
        let mut i: usize = 0;
        while i < n
            invariant
                n == self.tracks.spec_len(),
                i <= n,
                forall|j: int|
                    0 <= j < n ==> #[trigger] self.tracks.key_at(j) == self.tracks.spec_entry(j).0@
                        && self.tracks@.contains_key(self.tracks.key_at(j))
                        && self.tracks@[self.tracks.key_at(j)] == self.tracks.spec_entry(j).1,
                forall|j: int| 0 <= j < r@.len() ==> plays_object(*self, #[trigger] r@[j]),
                forall|ti: int, m: Seq<char>|
                    0 <= ti < i && #[trigger] self.tracks@[self.tracks.key_at(ti)].media@.contains_key(m)
                        ==> r@.contains(self.tracks@[self.tracks.key_at(ti)].media@[m].object_id),
            decreases n - i,
        {
            let (track_id, track) = self.tracks.entry_at(i);
            let ghost t = track_id@;
            let mn = track.media.len();
            let mut mi: usize = 0;
            while mi < mn
                invariant
                    n == self.tracks.spec_len(),
                    i < n,
                    t == self.tracks.key_at(i as int),
                    self.tracks@.contains_key(t),
                    self.tracks@[t] == *track,
                    mn == track.media.spec_len(),
                    mi <= mn,
                    forall|j: int|
                        0 <= j < n ==> #[trigger] self.tracks.key_at(j) == self.tracks.spec_entry(j).0@
                            && self.tracks@.contains_key(self.tracks.key_at(j))
                            && self.tracks@[self.tracks.key_at(j)] == self.tracks.spec_entry(j).1,
                    forall|j: int|
                        0 <= j < mn ==> #[trigger] track.media.key_at(j) == track.media.spec_entry(j).0@
                            && track.media@.contains_key(track.media.key_at(j))
                            && track.media@[track.media.key_at(j)] == track.media.spec_entry(j).1,
                    forall|j: int| 0 <= j < r@.len() ==> plays_object(*self, #[trigger] r@[j]),
                    forall|ti: int, m: Seq<char>|
                        0 <= ti < i && #[trigger] self.tracks@[self.tracks.key_at(ti)].media@.contains_key(m)
                            ==> r@.contains(self.tracks@[self.tracks.key_at(ti)].media@[m].object_id),
                    forall|mj: int| 0 <= mj < mi ==> r@.contains(#[trigger] track.media.spec_entry(mj).1.object_id),
                decreases mn - mi,
            {
                let (media_id, media) = track.media.entry_at(mi);
                let ghost before = r@;
                r.push(media.object_id.clone());
                proof {
                    assert(r@[r@.len() - 1] == media.object_id);
                    assert(plays_object(*self, media.object_id)) by {
                        assert(self.tracks@.contains_key(t) && self.tracks@[t].media@.contains_key(media_id@));
                    }
                    assert forall|j: int| 0 <= j < r@.len() implies plays_object(*self, #[trigger] r@[j]) by {
                        if j < before.len() {
                            assert(r@[j] == before[j]);
                        }
                    }
                    assert forall|x: MediaObjectId| before.contains(x) implies r@.contains(x) by {
                        let j = choose|j: int| 0 <= j < before.len() && before[j] == x;
                        assert(r@[j] == x);
                    }
                    assert(r@.contains(media.object_id));
                }
                mi = mi + 1;
            }
            proof {
                assert forall|ti: int, m: Seq<char>|
                    0 <= ti < i + 1 && #[trigger] self.tracks@[self.tracks.key_at(ti)].media@.contains_key(m)
                        implies r@.contains(self.tracks@[self.tracks.key_at(ti)].media@[m].object_id) by {
                    if ti == i {
                        let mj = choose|mj: int| 0 <= mj < mn && track.media.key_at(mj) == m;
                        assert(r@.contains(track.media.spec_entry(mj).1.object_id));
                    }
                }
            }
            i = i + 1;
        }
        proof {
            assert forall|t: Seq<char>, m: Seq<char>|
                #[trigger] self.tracks@.contains_key(t) && #[trigger] self.tracks@[t].media@.contains_key(m)
                    implies r@.contains(self.tracks@[t].media@[m].object_id) by {
                let ti = choose|ti: int| 0 <= ti < n && self.tracks.key_at(ti) == t;
                assert(self.tracks@[self.tracks.key_at(ti)].media@.contains_key(m));
            }
        }
        r
    }
}

impl Task {
    /// The media objects that the task's tracks play, one entry per item.
    pub fn get_media_object_ids(&self) -> (r: Vec<MediaObjectId>)
        ensures
            forall|j: int| 0 <= j < r@.len() ==> plays_object(self.spec, #[trigger] r@[j]),
            forall|t: Seq<char>, m: Seq<char>|
                #[trigger] self.spec.tracks@.contains_key(t) && #[trigger] self.spec.tracks@[t].media@.contains_key(m)
                    ==> r@.contains(self.spec.tracks@[t].media@[m].object_id),
    {
        self.spec.get_media_object_ids()
    }

    /// Sets the permissions of `key`, replacing those it had.
    pub fn set_security(&mut self, key: SecureKey, security: TaskPermissions) -> (r: Result<
        (),
        ModifyTaskError,
    >)
        ensures
            r is Ok,
            final(self).security@ == old(self).security@.insert(key@, security),
            final(self).spec == old(self).spec,
            final(self).domain_id == old(self).domain_id,
            final(self).time == old(self).time,
            final(self).version == old(self).version,
    {
        self.security.insert(key, security);
        Ok(())
    }

    /// Removes `key` and its permissions, if it is there.
    pub fn revoke_security(&mut self, key: SecureKey) -> (r: Result<(), ModifyTaskError>)
        ensures
            r is Ok,
            final(self).security@ == old(self).security@.remove(key@),
            final(self).spec == old(self).spec,
            final(self).domain_id == old(self).domain_id,
            final(self).time == old(self).time,
            final(self).version == old(self).version,
    {
        proof {
            if !self.security@.contains_key(key@) {
                assert(self.security@.remove(key@) =~= self.security@);
            }
        }
        self.security.remove(&key);
        Ok(())
    }

    /// Applies one change to the task.
    pub fn apply_change(&mut self, modify: ModifyTask) -> (r: Result<(), ModifyTaskError>)
        ensures
            final(self).domain_id == old(self).domain_id,
            final(self).time == old(self).time,
            final(self).version == old(self).version,
            match modify {
                ModifyTask::Spec { spec } => modify_post(old(self).spec, spec, final(self).spec, r)
                    && final(self).security == old(self).security,
                ModifyTask::SetSecurity { key, security } => r is Ok && final(self).security@ == old(
                    self,
                ).security@.insert(key@, security) && final(self).spec == old(self).spec,
                ModifyTask::RevokeSecurity { key } => r is Ok && final(self).security@ == old(
                    self,
                ).security@.remove(key@) && final(self).spec == old(self).spec,
            },
    {
        match modify {
            ModifyTask::Spec { spec } => self.spec.modify(spec),
            ModifyTask::SetSecurity { key, security } => self.set_security(key, security),
            ModifyTask::RevokeSecurity { key } => self.revoke_security(key),
        }
    }

    /// The security changes that give the keys and permissions of `other` to `self`.
    pub fn generate_changes(&self, other: &Task) -> (r: Vec<ModifyTask>)
        ensures
            is_security_diff(r@, self.security@, other.security@),
    {
        let mut rv: Vec<ModifyTask> = Vec::new();
        security_changes(&mut rv, &self.security, &other.security);
        assert(rv@.subrange(0, rv@.len() as int) =~= rv@);
        rv
    }
}

} // verus!
