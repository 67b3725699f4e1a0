//! The application data: the profiles, the history of clone runs, the tags
//! and the saved operations, with the operations that read and change them.
//! Loading and saving the data is the caller's business.

use vstd::prelude::*;
use crate::time::Timestamp;
use crate::types::{
    CloneHistoryEntry, CloneHistoryEntryView, ConnectionProfile, ConnectionProfileView,
    SavedOperation, SavedOperationView, Tag, TagView,
};

verus! {

/// The greatest number of entries that the history keeps.
pub const HISTORY_LIMIT: usize = 50;

/// Everything that the application remembers.
#[derive(Debug)]
pub struct AppData {
    pub profiles: Vec<ConnectionProfile>,
    /// The history of clone runs, the most recent first.
    pub history: Vec<CloneHistoryEntry>,
    pub tags: Vec<Tag>,
    pub saved_operations: Vec<SavedOperation>,
}

pub struct AppDataView {
    pub profiles: Seq<ConnectionProfileView>,
    pub history: Seq<CloneHistoryEntryView>,
    pub tags: Seq<TagView>,
    pub saved_operations: Seq<SavedOperationView>,
}

/// The views of a sequence of profiles.
pub open spec fn profile_views(v: Seq<ConnectionProfile>) -> Seq<ConnectionProfileView> {
    Seq::new(v.len(), |i: int| v[i]@)
}

/// The views of a sequence of history entries.
pub open spec fn history_views(v: Seq<CloneHistoryEntry>) -> Seq<CloneHistoryEntryView> {
    Seq::new(v.len(), |i: int| v[i]@)
}

/// The views of a sequence of tags.
pub open spec fn tag_views(v: Seq<Tag>) -> Seq<TagView> {
    Seq::new(v.len(), |i: int| v[i]@)
}

/// The views of a sequence of saved operations.
pub open spec fn saved_views(v: Seq<SavedOperation>) -> Seq<SavedOperationView> {
    Seq::new(v.len(), |i: int| v[i]@)
}

impl View for AppData {
    type V = AppDataView;

    open spec fn view(&self) -> AppDataView {
        AppDataView {
            profiles: profile_views(self.profiles@),
            history: history_views(self.history@),
            tags: tag_views(self.tags@),
            saved_operations: saved_views(self.saved_operations@),
        }
    }
}

/// Why an operation on the application data did nothing.
#[derive(Clone, Copy, Debug, PartialEq, Eq, Structural)]
pub enum StoreError {
    /// No profile has the identifier that was asked for.
    ProfileNotFound,
}

impl StoreError {
    /// What the error says to the user.
    pub fn message(&self) -> (r: &'static str)
        ensures
            r@ == "Profile not found"@,
    {
        "Profile not found"
    }
}

/// Whether `i` is the place of the first profile with identifier `id`.
pub open spec fn is_first_profile(ps: Seq<ConnectionProfileView>, id: Seq<char>, i: int) -> bool {
    &&& 0 <= i < ps.len()
    &&& ps[i].id == id
    &&& forall|j: int| 0 <= j < i ==> (#[trigger] ps[j]).id != id
}

/// Whether some profile has the identifier `id`.
pub open spec fn has_profile(ps: Seq<ConnectionProfileView>, id: Seq<char>) -> bool {
    exists|i: int| 0 <= i < ps.len() && (#[trigger] ps[i]).id == id
}

/// Whether `i` is the place of the first history entry with identifier `id`.
pub open spec fn is_first_entry(es: Seq<CloneHistoryEntryView>, id: Seq<char>, i: int) -> bool {
    &&& 0 <= i < es.len()
    &&& es[i].id == id
    &&& forall|j: int| 0 <= j < i ==> (#[trigger] es[j]).id != id
}

/// The profiles of `ps` whose identifier is not `id`, in their order.
pub open spec fn without_profile(ps: Seq<ConnectionProfileView>, id: Seq<char>) -> Seq<
    ConnectionProfileView,
>
    decreases ps.len(),
{
    if ps.len() == 0 {
        Seq::empty()
    } else if ps.last().id == id {
        without_profile(ps.drop_last(), id)
    } else {
        without_profile(ps.drop_last(), id).push(ps.last())
    }
}

/// The history after `entry` was recorded: the entry in front of the
/// others, cut down to the `HISTORY_LIMIT` most recent.
pub open spec fn recorded_history(
    history: Seq<CloneHistoryEntryView>,
    entry: CloneHistoryEntryView,
) -> Seq<CloneHistoryEntryView> {
    let all = seq![entry] + history;
    if all.len() > HISTORY_LIMIT {
        all.take(HISTORY_LIMIT as int)
    } else {
        all
    }
}

/// The profile `p` with new connection settings, updated at `now`.
pub open spec fn updated_profile(
    p: ConnectionProfileView,
    name: Seq<char>,
    host: Seq<char>,
    port: u16,
    database: Seq<char>,
    user: Seq<char>,
    password: Seq<char>,
    ssl: bool,
    now: Timestamp,
) -> ConnectionProfileView {
    ConnectionProfileView { name, host, port, database, user, password, ssl, updated_at: now, ..p }
}

impl AppData {
    /// Application data that holds nothing.
    pub fn new() -> (r: AppData)
        ensures
            r@.profiles.len() == 0,
            r@.history.len() == 0,
            r@.tags.len() == 0,
            r@.saved_operations.len() == 0,
    {
        AppData {
            profiles: Vec::new(),
            history: Vec::new(),
            tags: Vec::new(),
            saved_operations: Vec::new(),
        }
    }

    /// The place of the first profile with identifier `id`.
    pub fn profile_index(&self, id: &str) -> (r: Option<usize>)
        ensures
            match r {
                Some(i) => is_first_profile(self@.profiles, id@, i as int),
                None => !has_profile(self@.profiles, id@),
            },
    {
        let wanted = id.to_owned();
        let mut i: usize = 0;
        while i < self.profiles.len()
            invariant
                i <= self.profiles.len(),
                wanted@ == id@,
                forall|j: int| 0 <= j < i ==> (#[trigger] self@.profiles[j]).id != id@,
            decreases self.profiles.len() - i,
        {
            if self.profiles[i].id == wanted {
                return Some(i);
            }
            i += 1;
        }
        None
    }

    /// A copy of the first profile with identifier `id`.
    pub fn find_profile(&self, id: &str) -> (r: Option<ConnectionProfile>)
        ensures
            match r {
                Some(p) => exists|i: int|
                    is_first_profile(self@.profiles, id@, i) && p@ == #[trigger] self@.profiles[i],
                None => !has_profile(self@.profiles, id@),
            },
    {
        match self.profile_index(id) {
            Some(i) => Some(self.profiles[i].clone()),
            None => None,
        }
    }

    /// Adds `profile` behind the other profiles.
    pub fn add_profile(&mut self, profile: ConnectionProfile)
        ensures
            final(self)@ == (AppDataView {
                profiles: old(self)@.profiles.push(profile@),
                ..old(self)@
            }),
    {
        let ghost before = self.profiles@;
        self.profiles.push(profile);
        proof {
            assert(profile_views(self.profiles@) =~= profile_views(before).push(profile@));
        }
    }

    /// Gives the first profile with identifier `id` new connection settings
    /// and marks it as updated at `now`. Returns a copy of the profile as it
    /// is then. Fails, and changes nothing, where no profile has that
    /// identifier.
    pub fn update_profile(
        &mut self,
        id: &str,
        name: String,
        host: String,
        port: u16,
        database: String,
        user: String,
        password: String,
        ssl: bool,
        now: Timestamp,
    ) -> (r: Result<ConnectionProfile, StoreError>)
        ensures
            match r {
                Ok(p) => exists|i: int|
                    {
                        &&& is_first_profile(old(self)@.profiles, id@, i)
                        &&& p@ == updated_profile(
                            #[trigger] old(self)@.profiles[i],
                            name@,
                            host@,
                            port,
                            database@,
                            user@,
                            password@,
                            ssl,
                            now,
                        )
                        &&& final(self)@ == (AppDataView {
                            profiles: old(self)@.profiles.update(i, p@),
                            ..old(self)@
                        })
                    },
                Err(e) => {
                    &&& e == StoreError::ProfileNotFound
                    &&& !has_profile(old(self)@.profiles, id@)
                    &&& final(self)@ == old(self)@
                },
            },
    {
        match self.profile_index(id) {
            None => Err(StoreError::ProfileNotFound),
            Some(i) => {
                let ghost before = self.profiles@;
                let current = &self.profiles[i];
                let updated = ConnectionProfile {
                    id: current.id.clone(),
                    name,
                    host,
                    port,
                    database,
                    user,
                    password,
                    ssl,
                    tag_id: crate::types::copy_opt(&current.tag_id),
                    created_at: current.created_at,
                    updated_at: now,
                };
                let copy = updated.clone();
                self.profiles.set(i, updated);
                proof {
                    assert(profile_views(self.profiles@) =~= profile_views(before).update(
                        i as int,
                        copy@,
                    ));
                    assert(profile_views(before)[i as int] == before[i as int]@);
                }
                Ok(copy)
            },
        }
    }

    /// Removes every profile with identifier `id`. Fails, and changes
    /// nothing, where no profile has that identifier.
    pub fn delete_profile(&mut self, id: &str) -> (r: Result<(), StoreError>)
        ensures
            r is Ok <==> has_profile(old(self)@.profiles, id@),
            r is Err ==> r == Err::<(), StoreError>(StoreError::ProfileNotFound),
            final(self)@ == (AppDataView {
                profiles: without_profile(old(self)@.profiles, id@),
                ..old(self)@
            }),
    {
        let wanted = id.to_owned();
        let ghost all = profile_views(self.profiles@);
        let mut kept: Vec<ConnectionProfile> = Vec::new();
        let mut found = false;
        let mut i: usize = 0;
        proof {
            assert(all.take(0) =~= Seq::<ConnectionProfileView>::empty());
            assert(profile_views(kept@) =~= Seq::<ConnectionProfileView>::empty());
        }
        while i < self.profiles.len()
            invariant
                i <= self.profiles.len(),
                wanted@ == id@,
                all == profile_views(self.profiles@),
                self@ == old(self)@,
                profile_views(kept@) == without_profile(all.take(i as int), id@),
                found == has_profile(all.take(i as int), id@),
            decreases self.profiles.len() - i,
        {
            let ghost before = all.take(i as int);
            let ghost after = all.take(i + 1);
            let ghost kept_before = kept@;
            proof {
                assert(after.drop_last() =~= before);
                assert(after.last() == self.profiles@[i as int]@);
                if has_profile(before, id@) {
                    let k = choose|k: int| 0 <= k < before.len() && (#[trigger] before[k]).id == id@;
                    assert(after[k].id == id@);
                }
                if has_profile(after, id@) && after.last().id != id@ {
                    let k = choose|k: int| 0 <= k < after.len() && (#[trigger] after[k]).id == id@;
                    assert(before[k].id == id@);
                }
            }
            if self.profiles[i].id == wanted {
                proof {
                    assert(after[i as int].id == id@);
                }
                found = true;
            } else {
                kept.push(self.profiles[i].clone());
                proof {
                    assert(profile_views(kept@) =~= profile_views(kept_before).push(after.last()));
                }
            }
            i += 1;
        }
        proof {
            assert(all.take(all.len() as int) =~= all);
        }
        self.profiles = kept;
        if found {
            Ok(())
        } else {
            Err(StoreError::ProfileNotFound)
        }
    }

    /// Records `entry` as the most recent run: puts it in front of the
    /// history and keeps the `HISTORY_LIMIT` most recent entries.
    pub fn record_history(&mut self, entry: CloneHistoryEntry)
        ensures
            final(self)@ == (AppDataView {
                history: recorded_history(old(self)@.history, entry@),
                ..old(self)@
            }),
            final(self)@.history.len() <= HISTORY_LIMIT,
            final(self)@.history.len() >= 1,
            final(self)@.history[0] == entry@,
    {
        let ghost before = self.history@;
        self.history.insert(0, entry);
        self.history.truncate(HISTORY_LIMIT);
        proof {
            let all = seq![entry@] + history_views(before);
            assert(history_views(before.insert(0, entry)) =~= all);
            if all.len() > HISTORY_LIMIT {
                assert(history_views(self.history@) =~= all.take(HISTORY_LIMIT as int));
            } else {
                assert(history_views(self.history@) =~= all);
            }
        }
    }

    /// A copy of the first history entry with identifier `id`.
    pub fn find_history_entry(&self, id: &str) -> (r: Option<CloneHistoryEntry>)
        ensures
            match r {
                Some(e) => exists|i: int|
                    is_first_entry(self@.history, id@, i) && e@ == #[trigger] self@.history[i],
                None => forall|i: int|
                    0 <= i < self@.history.len() ==> (#[trigger] self@.history[i]).id != id@,
            },
    {
        let wanted = id.to_owned();
        let mut i: usize = 0;
        while i < self.history.len()
            invariant
                i <= self.history.len(),
                wanted@ == id@,
                forall|j: int| 0 <= j < i ==> (#[trigger] self@.history[j]).id != id@,
            decreases self.history.len() - i,
        {
            if self.history[i].id == wanted {
                let e = self.history[i].clone();
                proof {
                    assert(is_first_entry(self@.history, id@, i as int));
                }
                return Some(e);
            }
            i += 1;
        }
        None
    }

    /// Forgets the whole history.
    pub fn clear_history(&mut self)
        ensures
            final(self)@ == (AppDataView { history: Seq::empty(), ..old(self)@ }),
    {
        self.history.clear();
        proof {
            assert(history_views(self.history@) =~= Seq::<CloneHistoryEntryView>::empty());
        }
    }
}

/// The history never holds more than `HISTORY_LIMIT` entries after a run was
/// recorded. Where it was full, the entry that leaves is the oldest one, the
/// last; every other entry moves one place back.
pub proof fn lemma_history_is_capped(
    history: Seq<CloneHistoryEntryView>,
    entry: CloneHistoryEntryView,
)
    ensures
        recorded_history(history, entry).len() <= HISTORY_LIMIT,
        recorded_history(history, entry).len() == if history.len() < HISTORY_LIMIT {
            history.len() + 1
        } else {
            HISTORY_LIMIT as nat
        },
        recorded_history(history, entry)[0] == entry,
        forall|i: int|
            1 <= i < recorded_history(history, entry).len() ==> #[trigger] recorded_history(
                history,
                entry,
            )[i] == history[i - 1],
        history.len() == HISTORY_LIMIT ==> recorded_history(history, entry) == seq![entry]
            + history.drop_last(),
{
    if history.len() == HISTORY_LIMIT {
        assert(recorded_history(history, entry) =~= seq![entry] + history.drop_last());
    }
}

/// A run that was recorded is found again under its identifier: the first
/// entry of the new history that has this identifier is the recorded one.
pub proof fn lemma_recorded_run_resolves(
    history: Seq<CloneHistoryEntryView>,
    entry: CloneHistoryEntryView,
)
    ensures
        is_first_entry(recorded_history(history, entry), entry.id, 0),
{
}

} // verus!
