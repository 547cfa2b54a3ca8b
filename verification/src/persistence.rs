//! Budget state across sessions: one file per session, and a cache in memory.
//!
//! The store decides which file belongs to a session, what is cached, and what
//! an outcome on disk means. Reading and writing the files is left to its user:
//! each operation says what is to be done on disk, and has a second half that
//! takes what came of it.

use vstd::hash_map::StringHashMap;
use vstd::prelude::*;
use vstd::string::*;

use crate::budget::agent::{BudgetSnapshot, SnapshotView};
use crate::clock::{is_reading, now_ms};
use crate::error::{BudgetError, BudgetErrorView};

verus! {

/// The budget state of a session.
#[derive(Debug)]
pub struct PersistedBudgetState {
    pub session_id: String,
    pub snapshots: Vec<BudgetSnapshot>,
    pub saved_at_ms: u64,
}

/// A state with its strings as sequences of characters.
pub struct StateView {
    pub session_id: Seq<char>,
    pub snapshots: Seq<SnapshotView>,
    pub saved_at_ms: int,
}

/// Viewed snapshots.
pub open spec fn snapshots_view(snapshots: Seq<BudgetSnapshot>) -> Seq<SnapshotView> {
    snapshots.map_values(|snapshot: BudgetSnapshot| snapshot@)
}

impl View for PersistedBudgetState {
    type V = StateView;

    open spec fn view(&self) -> StateView {
        StateView {
            session_id: self.session_id@,
            snapshots: snapshots_view(self.snapshots@),
            saved_at_ms: self.saved_at_ms as int,
        }
    }
}

impl Clone for PersistedBudgetState {
    fn clone(&self) -> (copy: PersistedBudgetState)
        ensures
            copy@ == self@,
    {
        let mut snapshots: Vec<BudgetSnapshot> = Vec::new();
        let mut i: usize = 0;
        while i < self.snapshots.len()
            invariant
                i <= self.snapshots.len(),
                snapshots@ == self.snapshots@.take(i as int),
            decreases self.snapshots.len() - i,
        {
            snapshots.push(self.snapshots[i].clone());
            i += 1;
        }
        assert(self.snapshots@.take(i as int) =~= self.snapshots@);
        PersistedBudgetState {
            session_id: self.session_id.clone(),
            snapshots,
            saved_at_ms: self.saved_at_ms,
        }
    }
}

/// The name of the file that holds the state of a session.
pub open spec fn file_name(session_id: Seq<char>) -> Seq<char> {
    session_id + ".budget.json"@
}

/// Whether a file name is that of a session file.
pub open spec fn is_session_file(name: Seq<char>) -> bool {
    ".budget.json"@.is_suffix_of(name)
}

/// The session that a session file is named after: the name without its ending.
pub open spec fn session_of(name: Seq<char>) -> Seq<char> {
    name.take(name.len() - ".budget.json"@.len())
}

/// The sessions that a list of file names speaks of.
pub open spec fn sessions_of(names: Seq<Seq<char>>) -> Seq<Seq<char>>
    decreases names.len(),
{
    if names.len() == 0 {
        Seq::empty()
    } else if is_session_file(names.last()) {
        sessions_of(names.drop_last()).push(session_of(names.last()))
    } else {
        sessions_of(names.drop_last())
    }
}

/// The characters of a list of strings.
pub open spec fn texts_of(texts: Seq<String>) -> Seq<Seq<char>> {
    texts.map_values(|text: String| text@)
}

/// The name of the file that holds the state of a session.
pub fn session_file_name(session_id: &str) -> (name: String)
    ensures
        name@ == file_name(session_id@),
{
    session_id.to_owned().concat(".budget.json")
}

/// The session that a file name speaks of, if it is that of a session file.
pub fn session_of_file(name: &str) -> (session: Option<String>)
    ensures
        match session {
            Some(session) => is_session_file(name@) && session@ == session_of(name@),
            None => !is_session_file(name@),
        },
{
    proof {
        reveal_strlit(".budget.json");
    }
    let length: usize = name.unicode_len();
    if length < 12 {
        return None;
    }
    let ending = name.substring_char(length - 12, length).to_owned();
    if ending == ".budget.json".to_owned() {
        Some(name.substring_char(0, length - 12).to_owned())
    } else {
        None
    }
}

/// What is to be written to disk for a save.
#[derive(Debug)]
pub struct FileWrite {
    pub file_name: String,
    pub state: PersistedBudgetState,
}

/// The first half of a load.
#[derive(Debug)]
pub enum LoadStep {
    /// The state is in the cache.
    Cached(PersistedBudgetState),
    /// The state has to be read from this file.
    ReadFile(String),
}

/// What came of reading a session file.
#[derive(Debug)]
pub enum FileRead {
    /// The file could not be read.
    Unreadable,
    /// The file does not hold a state; the text says why.
    Malformed(String),
    /// The file holds this state.
    Parsed(PersistedBudgetState),
}

/// What came of removing a session file.
#[derive(Debug)]
pub enum FileRemoval {
    /// There was no such file.
    Absent,
    /// The file is gone.
    Removed,
    /// The file could not be removed; the text says why.
    Failed(String),
}

/// A store together with a disk that gives back what was written to it.
#[verifier::ext_equal]
pub struct Storage {
    /// What the store has in memory, by session.
    pub cache: Map<Seq<char>, StateView>,
    /// What is on disk, by file name.
    pub disk: Map<Seq<char>, StateView>,
}

impl Storage {
    /// After a save.
    pub open spec fn saving(self, session_id: Seq<char>, state: StateView) -> Storage {
        Storage {
            cache: self.cache.insert(session_id, state),
            disk: self.disk.insert(file_name(session_id), state),
        }
    }

    /// After a deletion.
    pub open spec fn deleting(self, session_id: Seq<char>) -> Storage {
        Storage {
            cache: self.cache.remove(session_id),
            disk: self.disk.remove(file_name(session_id)),
        }
    }

    /// With a new store, which has nothing in memory.
    pub open spec fn restarted(self) -> Storage {
        Storage { cache: Map::empty(), ..self }
    }

    /// What a load gives: what is in memory, else what is on disk.
    pub open spec fn found(self, session_id: Seq<char>) -> Option<StateView> {
        if self.cache.contains_key(session_id) {
            Some(self.cache[session_id])
        } else if self.disk.contains_key(file_name(session_id)) {
            Some(self.disk[file_name(session_id)])
        } else {
            None
        }
    }

    /// After a load.
    pub open spec fn loading(self, session_id: Seq<char>) -> Storage {
        match self.found(session_id) {
            Some(state) => Storage { cache: self.cache.insert(session_id, state), ..self },
            None => self,
        }
    }
}

/// A store with a given cache together with a given disk.
pub open spec fn storage(
    cache: Map<Seq<char>, StateView>,
    disk: Map<Seq<char>, StateView>,
) -> Storage {
    Storage { cache, disk }
}

/// The states of sessions, as far as they are in memory.
pub struct BudgetStore {
    cache: StringHashMap<PersistedBudgetState>,
}

impl View for BudgetStore {
    type V = Map<Seq<char>, StateView>;

    closed spec fn view(&self) -> Map<Seq<char>, StateView> {
        self.cache@.map_values(|state: PersistedBudgetState| state@)
    }
}

/// The error for a session file that could not be read.
pub open spec fn missing_session(session_id: Seq<char>) -> BudgetErrorView {
    BudgetErrorView::PersistenceError("session '"@ + session_id + "' not found on disk"@)
}

impl BudgetStore {
    /// Creates a store with an empty cache.
    pub fn new() -> (store: BudgetStore)
        ensures
            store@ == Map::<Seq<char>, StateView>::empty(),
    {
        let store = BudgetStore { cache: StringHashMap::new() };
        assert(store@ =~= Map::<Seq<char>, StateView>::empty());
        store
    }

    /// Caches the snapshots of a session as saved at a given time, and says what
    /// is to be written to disk.
    pub fn save_at(
        &mut self,
        session_id: &str,
        snapshots: Vec<BudgetSnapshot>,
        saved_at_ms: u64,
    ) -> (write: FileWrite)
        ensures
            write.file_name@ == file_name(session_id@),
            write.state@ == (StateView {
                session_id: session_id@,
                snapshots: snapshots_view(snapshots@),
                saved_at_ms: saved_at_ms as int,
            }),
            final(self)@ == old(self)@.insert(session_id@, write.state@),
            forall|disk: Map<Seq<char>, StateView>| #[trigger]
                storage(old(self)@, disk).saving(session_id@, write.state@) == storage(
                    final(self)@,
                    disk.insert(write.file_name@, write.state@),
                ),
    {
        let state = PersistedBudgetState {
            session_id: session_id.to_owned(),
            snapshots,
            saved_at_ms,
        };
        self.cache.insert(session_id.to_owned(), state.clone());
        assert(self@ =~= old(self)@.insert(session_id@, state@));
        FileWrite { file_name: session_file_name(session_id), state }
    }

    /// Caches the snapshots of a session as saved now, and says what is to be
    /// written to disk.
    pub fn save(&mut self, session_id: &str, snapshots: Vec<BudgetSnapshot>) -> (write: FileWrite)
        ensures
            write.file_name@ == file_name(session_id@),
            write.state@ == (StateView {
                session_id: session_id@,
                snapshots: snapshots_view(snapshots@),
                saved_at_ms: write.state.saved_at_ms as int,
            }),
            is_reading(write.state.saved_at_ms as int),
            final(self)@ == old(self)@.insert(session_id@, write.state@),
            forall|disk: Map<Seq<char>, StateView>| #[trigger]
                storage(old(self)@, disk).saving(session_id@, write.state@) == storage(
                    final(self)@,
                    disk.insert(write.file_name@, write.state@),
                ),
    {
        self.save_at(session_id, snapshots, now_ms())
    }

    /// Takes what came of writing to disk, with the text of the error if it
    /// failed. The cache keeps what was saved either way.
    pub fn finish_save(written: Result<(), String>) -> (result: Result<(), BudgetError>)
        ensures
            match result {
                Ok(_) => written is Ok,
                Err(error) => {
                    &&& written is Err
                    &&& error@ == BudgetErrorView::PersistenceError(written->Err_0@)
                },
            },
    {
        match written {
            Ok(_) => Ok(()),
            Err(text) => Err(BudgetError::PersistenceError(text)),
        }
    }

    /// Looks a session up in the cache, and names the file to read if it is not
    /// there.
    pub fn load(&self, session_id: &str) -> (step: LoadStep)
        ensures
            match step {
                LoadStep::Cached(state) => {
                    &&& self@.contains_key(session_id@)
                    &&& state@ == self@[session_id@]
                    &&& forall|disk: Map<Seq<char>, StateView>| #[trigger]
                        storage(self@, disk).found(session_id@) == Some(state@)
                },
                LoadStep::ReadFile(name) => {
                    &&& !self@.contains_key(session_id@)
                    &&& name@ == file_name(session_id@)
                    &&& forall|disk: Map<Seq<char>, StateView>| #[trigger]
                        storage(self@, disk).found(session_id@) == (if disk.contains_key(name@) {
                            Some(disk[name@])
                        } else {
                            None
                        })
                },
            },
    {
        match self.cache.get(session_id) {
            Some(state) => LoadStep::Cached(state.clone()),
            None => LoadStep::ReadFile(session_file_name(session_id)),
        }
    }

    /// Takes what came of reading the file of a session. A state that was read
    /// is cached and handed out as it is.
    pub fn finish_load(&mut self, session_id: &str, read: FileRead) -> (result: Result<
        PersistedBudgetState,
        BudgetError,
    >)
        ensures
            match read {
                FileRead::Parsed(found) => {
                    &&& result matches Ok(state) && state@ == found@
                    &&& final(self)@ == old(self)@.insert(session_id@, found@)
                    &&& forall|disk: Map<Seq<char>, StateView>|
                        storage(old(self)@, disk).found(session_id@) == Some(found@)
                            ==> #[trigger] storage(old(self)@, disk).loading(session_id@)
                            == storage(final(self)@, disk)
                },
                FileRead::Malformed(text) => {
                    &&& result matches Err(error) && error@ == BudgetErrorView::PersistenceError(
                        text@,
                    )
                    &&& final(self)@ == old(self)@
                },
                FileRead::Unreadable => {
                    &&& result matches Err(error) && error@ == missing_session(session_id@)
                    &&& final(self)@ == old(self)@
                },
            },
    {
        match read {
            FileRead::Parsed(found) => {
                self.cache.insert(session_id.to_owned(), found.clone());
                assert(self@ =~= old(self)@.insert(session_id@, found@));
                Ok(found)
            },
            FileRead::Malformed(text) => Err(BudgetError::PersistenceError(text)),
            FileRead::Unreadable => {
                let mut text = "session '".to_owned();
                text.append(session_id);
                text.append("' not found on disk");
                Err(BudgetError::PersistenceError(text))
            },
        }
    }

    /// Drops a session from the cache, and names the file to remove.
    pub fn delete(&mut self, session_id: &str) -> (name: String)
        ensures
            final(self)@ == old(self)@.remove(session_id@),
            name@ == file_name(session_id@),
            forall|disk: Map<Seq<char>, StateView>| #[trigger]
                storage(old(self)@, disk).deleting(session_id@) == storage(
                    final(self)@,
                    disk.remove(name@),
                ),
    {
        self.cache.remove(session_id);
        assert(self@ =~= old(self)@.remove(session_id@));
        session_file_name(session_id)
    }

    /// Takes what came of removing the file of a session.
    pub fn finish_delete(removal: FileRemoval) -> (result: Result<(), BudgetError>)
        ensures
            match removal {
                FileRemoval::Failed(text) => result matches Err(error) && error@
                    == BudgetErrorView::PersistenceError(text@),
                _ => result is Ok,
            },
    {
        match removal {
            FileRemoval::Absent => Ok(()),
            FileRemoval::Removed => Ok(()),
            FileRemoval::Failed(text) => Err(BudgetError::PersistenceError(text)),
        }
    }

    /// The IDs of the sessions whose files are among these names, in the order
    /// of the names.
    pub fn list_sessions(names: &Vec<String>) -> (sessions: Vec<String>)
        ensures
            texts_of(sessions@) == sessions_of(texts_of(names@)),
    {
        let mut sessions: Vec<String> = Vec::new();
        let mut i: usize = 0;
        let ghost texts = texts_of(names@);
        assert(texts_of(sessions@) =~= Seq::<Seq<char>>::empty());
        while i < names.len()
            invariant
                i <= names.len(),
                texts == texts_of(names@),
                texts_of(sessions@) == sessions_of(texts.take(i as int)),
            decreases names.len() - i,
        {
            proof {
                assert(texts.take(i + 1).drop_last() =~= texts.take(i as int));
            }
            if let Some(session) = session_of_file(names[i].as_str()) {
                let ghost before = sessions@;
                sessions.push(session);
                assert(texts_of(sessions@) =~= texts_of(before).push(session@));
            }
            i += 1;
        }
        assert(texts.take(i as int) =~= texts);
        sessions
    }

    /// Takes what came of reading the names in the directory of session files,
    /// with the text of the error if it failed, and gives the IDs of the sessions
    /// that have a file there.
    pub fn finish_list(names: Result<Vec<String>, String>) -> (result: Result<
        Vec<String>,
        BudgetError,
    >)
        ensures
            match names {
                Ok(found) => result matches Ok(sessions) && texts_of(sessions@) == sessions_of(
                    texts_of(found@),
                ),
                Err(text) => result matches Err(error) && error@
                    == BudgetErrorView::PersistenceError(text@),
            },
    {
        match names {
            Ok(found) => Ok(BudgetStore::list_sessions(&found)),
            Err(text) => Err(BudgetError::PersistenceError(text)),
        }
    }
}

/// Law: different sessions have different files.
pub proof fn law_file_names_are_distinct(a: Seq<char>, b: Seq<char>)
    requires
        file_name(a) == file_name(b),
    ensures
        a == b,
{
    reveal_strlit(".budget.json");
    assert(file_name(a).len() == a.len() + 12);
    assert(file_name(b).len() == b.len() + 12);
    assert forall|i: int| 0 <= i < a.len() implies a[i] == b[i] by {
        assert(file_name(a)[i] == a[i]);
        assert(file_name(b)[i] == b[i]);
    }
    assert(a =~= b);
}

/// Law: the file of a session is a session file, and is listed under the ID that
/// it was saved under, whatever that ID is.
pub proof fn law_session_is_listed_under_its_id(session_id: Seq<char>)
    ensures
        is_session_file(file_name(session_id)),
        session_of(file_name(session_id)) == session_id,
        sessions_of(seq![file_name(session_id)]) == seq![session_id],
{
    reveal_strlit(".budget.json");
    let name = file_name(session_id);
    assert(name.skip(name.len() - 12) =~= ".budget.json"@);
    assert(is_session_file(name));
    assert(name.take(name.len() - 12) =~= session_id);
    assert(seq![name].drop_last() =~= Seq::<Seq<char>>::empty());
    assert(sessions_of(Seq::<Seq<char>>::empty()) =~= Seq::<Seq<char>>::empty());
    assert(sessions_of(seq![name]) =~= seq![session_id]);
}

/// A session file is the file of the session that it is named after.
proof fn lemma_file_of_its_session(name: Seq<char>)
    requires
        is_session_file(name),
    ensures
        file_name(session_of(name)) == name,
{
    reveal_strlit(".budget.json");
    assert(file_name(session_of(name)) =~= name);
}

/// Law: a directory that holds the file of a session lists that session.
pub proof fn law_every_session_is_listed(names: Seq<Seq<char>>, session_id: Seq<char>)
    requires
        names.contains(file_name(session_id)),
    ensures
        sessions_of(names).contains(session_id),
    decreases names.len(),
{
    law_session_is_listed_under_its_id(session_id);
    let rest = names.drop_last();
    if names.last() == file_name(session_id) {
        let listed = sessions_of(names);
        assert(listed[listed.len() - 1] == session_id);
    } else {
        let i = choose|i: int| 0 <= i < names.len() && names[i] == file_name(session_id);
        assert(rest[i] == file_name(session_id));
        law_every_session_is_listed(rest, session_id);
        let j = choose|j: int|
            0 <= j < sessions_of(rest).len() && sessions_of(rest)[j] == session_id;
        assert(sessions_of(names)[j] == session_id);
    }
}

/// Law: a directory lists no session whose file it does not hold.
pub proof fn law_only_saved_sessions_are_listed(names: Seq<Seq<char>>, session_id: Seq<char>)
    requires
        !names.contains(file_name(session_id)),
    ensures
        !sessions_of(names).contains(session_id),
    decreases names.len(),
{
    if sessions_of(names).contains(session_id) {
        let rest = names.drop_last();
        let j = choose|j: int|
            0 <= j < sessions_of(names).len() && sessions_of(names)[j] == session_id;
        assert forall|i: int| 0 <= i < rest.len() implies rest[i] != file_name(session_id) by {
            assert(rest[i] == names[i]);
        }
        if is_session_file(names.last()) && j == sessions_of(rest).len() {
            lemma_file_of_its_session(names.last());
            assert(names[names.len() - 1] == file_name(session_id));
        } else {
            assert(sessions_of(rest)[j] == session_id);
            law_only_saved_sessions_are_listed(rest, session_id);
        }
    }
}

/// Law: the listing of a disk names a session exactly if its state is there.
/// So a session is listed once it was saved and until it is deleted, and saving
/// or deleting one session changes nothing for the others.
pub proof fn law_listing_follows_the_disk(
    storage: Storage,
    session_id: Seq<char>,
    state: StateView,
    other: Seq<char>,
    names: Seq<Seq<char>>,
)
    requires
        other != session_id,
    ensures
        names.to_set() == storage.disk.dom() ==> sessions_of(names).contains(session_id)
            == storage.restarted().found(session_id) is Some,
        names.to_set() == storage.saving(session_id, state).disk.dom() ==> {
            &&& sessions_of(names).contains(session_id)
            &&& sessions_of(names).contains(other) == storage.restarted().found(other) is Some
        },
        names.to_set() == storage.deleting(session_id).disk.dom() ==> {
            &&& !sessions_of(names).contains(session_id)
            &&& sessions_of(names).contains(other) == storage.restarted().found(other) is Some
        },
{
    if file_name(other) == file_name(session_id) {
        law_file_names_are_distinct(other, session_id);
    }
    lemma_listed(names, session_id);
    lemma_listed(names, other);
    assert(names.to_set().contains(file_name(session_id)) == names.contains(
        file_name(session_id),
    ));
    assert(names.to_set().contains(file_name(other)) == names.contains(file_name(other)));
}

proof fn lemma_listed(names: Seq<Seq<char>>, session_id: Seq<char>)
    ensures
        sessions_of(names).contains(session_id) == names.contains(file_name(session_id)),
{
    if names.contains(file_name(session_id)) {
        law_every_session_is_listed(names, session_id);
    } else {
        law_only_saved_sessions_are_listed(names, session_id);
    }
}

/// Law: what is listed for the files of two directories together is what is listed
/// for the one and then what is listed for the other: every session file counts
/// once, in its place, and no other file counts.
pub proof fn law_listing_goes_file_by_file(
    first: Seq<Seq<char>>,
    second: Seq<Seq<char>>,
    name: Seq<char>,
)
    ensures
        sessions_of(first + second) == sessions_of(first) + sessions_of(second),
        !is_session_file(name) ==> sessions_of(seq![name]).len() == 0,
        is_session_file(name) ==> sessions_of(seq![name]).len() == 1,
        sessions_of(Seq::empty()).len() == 0,
    decreases second.len(),
{
    reveal_with_fuel(sessions_of, 2);
    assert(seq![name].drop_last() =~= Seq::<Seq<char>>::empty());
    assert(seq![name].last() == name);
    if second.len() == 0 {
        assert(first + second =~= first);
        assert(sessions_of(first) + sessions_of(second) =~= sessions_of(first));
    } else {
        law_listing_goes_file_by_file(first, second.drop_last(), name);
        assert((first + second).drop_last() =~= first + second.drop_last());
        assert(sessions_of(first + second) =~= sessions_of(first) + sessions_of(second));
    }
}

/// Law: the file of a session is named by its ID and twelve characters more, and a
/// file is a session file exactly if its name is of that form.
pub proof fn law_session_file_names(session_id: Seq<char>, name: Seq<char>)
    ensures
        file_name(session_id) == session_id + seq![
            '.',
            'b',
            'u',
            'd',
            'g',
            'e',
            't',
            '.',
            'j',
            's',
            'o',
            'n',
        ],
        is_session_file(name) <==> exists|id: Seq<char>| #[trigger] file_name(id) == name,
        missing_session(session_id) == BudgetErrorView::PersistenceError(
            "session '"@ + session_id + "' not found on disk"@,
        ),
{
    reveal_strlit(".budget.json");
    assert(".budget.json"@ =~= seq!['.', 'b', 'u', 'd', 'g', 'e', 't', '.', 'j', 's', 'o', 'n']);
    if is_session_file(name) {
        lemma_file_of_its_session(name);
    }
    if exists|id: Seq<char>| #[trigger] file_name(id) == name {
        let id = choose|id: Seq<char>| #[trigger] file_name(id) == name;
        law_session_is_listed_under_its_id(id);
    }
}

/// Law: the contracts speak of a state and of its snapshots field for field, in
/// their order, and of a list of texts text for text.
pub proof fn law_state_is_viewed_as_it_is(
    state: PersistedBudgetState,
    i: int,
    texts: Seq<String>,
    j: int,
)
    requires
        0 <= i < state.snapshots.len(),
        0 <= j < texts.len(),
    ensures
        state@.session_id == state.session_id@,
        state@.saved_at_ms == state.saved_at_ms,
        state@.snapshots == snapshots_view(state.snapshots@),
        state@.snapshots.len() == state.snapshots.len(),
        state@.snapshots[i] == state.snapshots[i]@,
        state.snapshots[i]@.agent_id == state.snapshots[i].agent_id@,
        state.snapshots[i]@.spent_usd == state.snapshots[i].spent_usd,
        state.snapshots[i]@.limit_usd == state.snapshots[i].limit_usd,
        state.snapshots[i]@.remaining_usd == state.snapshots[i].remaining_usd,
        state.snapshots[i]@.utilization == state.snapshots[i].utilization,
        state.snapshots[i]@.is_killed == state.snapshots[i].is_killed,
        state.snapshots[i]@.model_tier == state.snapshots[i].model_tier,
        state.snapshots[i]@.timestamp_ms == state.snapshots[i].timestamp_ms,
        texts_of(texts).len() == texts.len(),
        texts_of(texts)[j] == texts[j]@,
{
}

/// Law: a load gives what is in memory, whatever is on disk; else what the file of
/// the session holds; else nothing. What was found is in memory afterwards, and
/// nothing else changes.
pub proof fn law_memory_comes_before_disk(storage: Storage, session_id: Seq<char>, other: Seq<char>)
    ensures
        storage.cache.contains_key(session_id) ==> storage.found(session_id) == Some(
            storage.cache[session_id],
        ),
        !storage.cache.contains_key(session_id) && storage.disk.contains_key(file_name(session_id))
            ==> storage.found(session_id) == Some(storage.disk[file_name(session_id)]),
        !storage.cache.contains_key(session_id) && !storage.disk.contains_key(file_name(session_id))
            ==> storage.found(session_id) is None,
        storage.loading(session_id).disk == storage.disk,
        storage.found(session_id) is Some ==> {
            &&& storage.loading(session_id).cache.contains_key(session_id)
            &&& storage.loading(session_id).cache[session_id] == storage.found(session_id)->Some_0
        },
        storage.found(session_id) is None ==> storage.loading(session_id) == storage,
        other != session_id ==> storage.loading(session_id).cache.contains_key(other)
            == storage.cache.contains_key(other),
        other != session_id && storage.cache.contains_key(other) ==> storage.loading(
            session_id,
        ).cache[other] == storage.cache[other],
        storage.restarted().cache.dom() == Set::<Seq<char>>::empty(),
        storage.restarted().disk == storage.disk,
{
    assert(storage.restarted().cache.dom() =~= Set::<Seq<char>>::empty());
}

/// Law: a load gives back what was saved last, also to a new store.
pub proof fn law_load_gives_back_what_was_saved(
    storage: Storage,
    session_id: Seq<char>,
    state: StateView,
)
    ensures
        storage.saving(session_id, state).found(session_id) == Some(state),
        storage.saving(session_id, state).restarted().found(session_id) == Some(state),
{
}

/// Law: a deleted session is gone, from memory and from disk.
pub proof fn law_deleted_session_is_gone(storage: Storage, session_id: Seq<char>)
    ensures
        storage.deleting(session_id).found(session_id) is None,
        storage.deleting(session_id).restarted().found(session_id) is None,
{
}

/// Law: saving, deleting or loading one session leaves the others alone.
pub proof fn law_sessions_are_independent(
    storage: Storage,
    session_id: Seq<char>,
    state: StateView,
    other: Seq<char>,
)
    requires
        other != session_id,
    ensures
        storage.saving(session_id, state).found(other) == storage.found(other),
        storage.saving(session_id, state).restarted().found(other) == storage.restarted().found(
            other,
        ),
        storage.deleting(session_id).found(other) == storage.found(other),
        storage.deleting(session_id).restarted().found(other) == storage.restarted().found(other),
        storage.loading(session_id).found(other) == storage.found(other),
{
    if file_name(other) == file_name(session_id) {
        law_file_names_are_distinct(other, session_id);
    }
}

/// Law: a load can be repeated: it changes neither what is on disk nor what the
/// next load gives.
pub proof fn law_load_is_repeatable(storage: Storage, session_id: Seq<char>)
    ensures
        storage.loading(session_id).disk == storage.disk,
        storage.loading(session_id).found(session_id) == storage.found(session_id),
{
}

} // verus!
