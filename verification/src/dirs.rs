//! Where persisted data lives: the data-directory cell, the paths derived
//! from it, and the per-user directories of the desktop platforms.
//!
//! Paths are held as text. They are joined as `std::path::PathBuf::push`
//! joins them on Unix: an absolute component replaces what came before it,
//! any other component is appended behind exactly one separator.

use vstd::prelude::*;
use vstd::string::*;

verus! {

/// The directory of this service below a per-user directory.
pub open spec fn server_dir_name() -> Seq<char> {
    "aw-server-rust"@
}

/// The data directory a cell starts with.
pub open spec fn default_data_dir() -> Seq<char> {
    "/data/user/0/net.activitywatch.android/files"@
}

/// The database file inside the data directory.
pub open spec fn db_file_name(testing: bool) -> Seq<char> {
    if testing {
        "sqlite-testing.db"@
    } else {
        "sqlite.db"@
    }
}

/// `base` extended by the component `leaf`.
pub open spec fn path_join(base: Seq<char>, leaf: Seq<char>) -> Seq<char> {
    if leaf.len() > 0 && leaf[0] == '/' {
        leaf
    } else if base.len() > 0 && base.last() != '/' {
        base + seq!['/'] + leaf
    } else {
        base + leaf
    }
}

/// Extends the path `base` by the component `leaf`.
pub fn join_path(base: &str, leaf: &str) -> (joined: String)
    ensures
        joined@ == path_join(base@, leaf@),
{
    if leaf.unicode_len() > 0 && leaf.get_char(0) == '/' {
        return leaf.to_owned();
    }
    let base_len: usize = base.unicode_len();
    let mut joined = base.to_owned();
    if base_len > 0 && base.get_char(base_len - 1) != '/' {
        proof {
            reveal_strlit("/");
            assert("/"@ =~= seq!['/']);
        }
        joined.append("/");
    }
    joined.append(leaf);
    joined
}

/// What a cell holds: the directory last written, and whether a holder of
/// its lock has failed while holding it.
pub struct CellState {
    pub path: Seq<char>,
    pub poisoned: bool,
}

impl CellState {
    /// The state of a cell nobody has written to.
    pub open spec fn initial() -> CellState {
        CellState { path: default_data_dir(), poisoned: false }
    }

    /// The state after `path` was written.
    pub open spec fn set(self, path: Seq<char>) -> CellState {
        CellState { path: path, poisoned: self.poisoned }
    }

    /// The state after a holder of the lock failed.
    pub open spec fn poison(self) -> CellState {
        CellState { path: self.path, poisoned: true }
    }

    /// The state after one event.
    pub open spec fn step(self, event: CellEvent) -> CellState {
        match event {
            CellEvent::Write(path) => self.set(path),
            CellEvent::Poison => self.poison(),
        }
    }

    /// The state after `events`, in their order.
    pub open spec fn run(self, events: Seq<CellEvent>) -> CellState
        decreases events.len(),
    {
        if events.len() == 0 {
            self
        } else {
            self.run(events.drop_last()).step(events.last())
        }
    }
}

/// One thing that can happen to a cell.
pub enum CellEvent {
    /// A thread wrote this directory.
    Write(Seq<char>),
    /// A thread failed while it held the lock.
    Poison,
}

/// True when `events` holds a write of `path`.
pub open spec fn written_in(events: Seq<CellEvent>, path: Seq<char>) -> bool {
    exists|i: int| 0 <= i < events.len() && #[trigger] events[i] == CellEvent::Write(path)
}

/// The data-directory cell: one path, overwritten as a whole, that survives
/// the failure of a thread that held its lock.
pub struct DirectoryCell {
    path: String,
    poisoned: bool,
}

impl View for DirectoryCell {
    type V = CellState;

    closed spec fn view(&self) -> CellState {
        CellState { path: self.path@, poisoned: self.poisoned }
    }
}

impl DirectoryCell {
    /// A cell that holds the default data directory.
    pub fn new() -> (cell: DirectoryCell)
        ensures
            cell@ == CellState::initial(),
    {
        DirectoryCell {
            path: "/data/user/0/net.activitywatch.android/files".to_owned(),
            poisoned: false,
        }
    }

    /// Overwrites the directory.
    pub fn set(&mut self, path: &str)
        ensures
            final(self)@ == old(self)@.set(path@),
    {
        self.path = path.to_owned();
    }

    /// The directory last written. A poisoned cell answers as a sound one.
    pub fn get(&self) -> (path: String)
        ensures
            path@ == self@.path,
    {
        self.path.clone()
    }

    /// Records that a thread failed while it held the cell's lock. The
    /// directory stays as it was.
    pub fn poison(&mut self)
        ensures
            final(self)@ == old(self)@.poison(),
    {
        self.poisoned = true;
    }

    /// Whether a thread has failed while it held the cell's lock.
    pub fn is_poisoned(&self) -> (poisoned: bool)
        ensures
            poisoned == self@.poisoned,
    {
        self.poisoned
    }
}

/// A write is visible to the next read, whatever the cell held before and
/// whether or not it is poisoned.
pub proof fn lemma_set_then_get(state: CellState, path: Seq<char>)
    ensures
        state.set(path).path == path,
        state.set(path).poisoned == state.poisoned,
{
}

/// Poisoning keeps the directory last written.
pub proof fn lemma_poison_keeps_path(state: CellState)
    ensures
        state.poison().path == state.path,
        state.poison().poisoned,
{
}

/// After any run of writes and lock failures a cell holds the directory it
/// started with or one that was written during the run, never anything
/// else.
pub proof fn lemma_only_written_values(state: CellState, events: Seq<CellEvent>)
    ensures
        state.run(events).path == state.path || written_in(events, state.run(events).path),
    decreases events.len(),
{
    if events.len() > 0 {
        let before = events.drop_last();
        lemma_only_written_values(state, before);
        match events.last() {
            CellEvent::Write(path) => {
                assert(events[events.len() - 1] == CellEvent::Write(path));
            },
            CellEvent::Poison => {
                let kept = state.run(before).path;
                if written_in(before, kept) {
                    let i = choose|i: int|
                        0 <= i < before.len() && #[trigger] before[i] == CellEvent::Write(kept);
                    assert(events[i] == CellEvent::Write(kept));
                }
            },
        }
    }
}

/// A run that ends in a write of `path`, followed by any number of lock
/// failures, leaves `path` in the cell.
pub proof fn lemma_last_write_survives_poison(
    state: CellState,
    events: Seq<CellEvent>,
    path: Seq<char>,
    failures: nat,
)
    ensures
        state.run(events.push(CellEvent::Write(path)) + Seq::new(failures, |i: int| CellEvent::Poison)).path
            == path,
    decreases failures,
{
    let written = events.push(CellEvent::Write(path));
    let tail = Seq::new(failures, |i: int| CellEvent::Poison);
    if failures == 0 {
        assert(written + tail =~= written);
        assert(written.drop_last() =~= events);
    } else {
        let shorter = Seq::new((failures - 1) as nat, |i: int| CellEvent::Poison);
        lemma_last_write_survives_poison(state, events, path, (failures - 1) as nat);
        assert((written + tail).drop_last() =~= written + shorter);
        assert((written + tail).last() == CellEvent::Poison);
    }
}

/// `appdirs::user_config_dir`: the per-user configuration directory of
/// `app`. What it is depends on the platform and on the environment, so
/// nothing is claimed of the result; a path that is not UTF-8 counts as a
/// failure.
#[verifier::external_body]
fn user_config_dir(app: &str, author: Option<&str>, roaming: bool) -> Result<String, ()> {
    match appdirs::user_config_dir(Some(app), author, roaming) {
        Ok(dir) => dir.into_os_string().into_string().map_err(|_| ()),
        Err(()) => Err(()),
    }
}

/// `appdirs::user_data_dir`: the per-user data directory of `app`. What it
/// is depends on the platform and on the environment, so nothing is claimed
/// of the result; a path that is not UTF-8 counts as a failure.
#[verifier::external_body]
fn user_data_dir(app: &str, author: Option<&str>, roaming: bool) -> Result<String, ()> {
    match appdirs::user_data_dir(Some(app), author, roaming) {
        Ok(dir) => dir.into_os_string().into_string().map_err(|_| ()),
        Err(()) => Err(()),
    }
}

/// `appdirs::user_cache_dir`: the per-user cache directory of `app`. What
/// it is depends on the platform and on the environment, so nothing is
/// claimed of the result; a path that is not UTF-8 counts as a failure.
#[verifier::external_body]
fn user_cache_dir(app: &str, author: Option<&str>) -> Result<String, ()> {
    match appdirs::user_cache_dir(Some(app), author) {
        Ok(dir) => dir.into_os_string().into_string().map_err(|_| ()),
        Err(()) => Err(()),
    }
}

/// `appdirs::user_log_dir`: the per-user log directory of `app`. What it is
/// depends on the platform and on the environment, so nothing is claimed of
/// the result; a path that is not UTF-8 counts as a failure.
#[verifier::external_body]
fn user_log_dir(app: &str, author: Option<&str>) -> Result<String, ()> {
    match appdirs::user_log_dir(Some(app), author) {
        Ok(dir) => dir.into_os_string().into_string().map_err(|_| ()),
        Err(()) => Err(()),
    }
}

/// The name under which the platform is asked for its per-user
/// directories.
pub fn app_name() -> (name: &'static str)
    ensures
        name@ == "activitywatch"@,
{
    "activitywatch"
}

/// The directory of this service below a per-user directory.
pub fn server_dir() -> (name: &'static str)
    ensures
        name@ == server_dir_name(),
{
    "aw-server-rust"
}

/// The text of a directory that was found, or the failure.
pub open spec fn found_text(dir: Result<String, ()>) -> Result<Seq<char>, ()> {
    match dir {
        Ok(found) => Ok(found@),
        Err(_) => Err(()),
    }
}

/// What `dir_under` returns.
pub open spec fn dir_under_spec(base: Result<Seq<char>, ()>, leaf: Seq<char>) -> Result<
    Seq<char>,
    (),
> {
    match base {
        Ok(dir) => Ok(path_join(dir, leaf)),
        Err(_) => Err(()),
    }
}

/// The directory `leaf` below a per-user directory, where the platform
/// named one.
pub fn dir_under(base: Result<String, ()>, leaf: &str) -> (dir: Result<String, ()>)
    ensures
        found_text(dir) == dir_under_spec(found_text(base), leaf@),
        dir matches Ok(found) ==> exists|above: Seq<char>|
            found@ == #[trigger] path_join(above, leaf@),
{
    match base {
        Ok(found) => {
            let joined = join_path(found.as_str(), leaf);
            assert(joined@ == path_join(found@, leaf@));
            Ok(joined)
        },
        Err(_) => Err(()),
    }
}

/// The configuration directory of this service. It fails where the platform
/// names no per-user configuration directory.
pub fn get_config_dir() -> (dir: Result<String, ()>)
    ensures
        dir matches Ok(found) ==> exists|base: Seq<char>|
            found@ == #[trigger] path_join(base, server_dir_name()),
{
    dir_under(user_config_dir(app_name(), None, false), server_dir())
}

/// The data directory of this service on a desktop platform. It fails where
/// the platform names no per-user data directory.
pub fn user_data_home() -> (dir: Result<String, ()>)
    ensures
        dir matches Ok(found) ==> exists|base: Seq<char>|
            found@ == #[trigger] path_join(base, server_dir_name()),
{
    dir_under(user_data_dir(app_name(), None, false), server_dir())
}

/// The cache directory of this service. It fails where the platform names
/// no per-user cache directory.
pub fn get_cache_dir() -> (dir: Result<String, ()>)
    ensures
        dir matches Ok(found) ==> exists|base: Seq<char>|
            found@ == #[trigger] path_join(base, server_dir_name()),
{
    dir_under(user_cache_dir(app_name(), None), server_dir())
}

/// The log directory of `module`. It fails where the platform names no
/// per-user log directory.
pub fn get_log_dir(module: &str) -> (dir: Result<String, ()>)
    ensures
        dir matches Ok(found) ==> exists|base: Seq<char>|
            found@ == #[trigger] path_join(base, module@),
{
    dir_under(user_log_dir(app_name(), None), module)
}

/// The data directory: what the cell holds. A poisoned cell still answers
/// with the directory last written.
pub fn get_data_dir(cell: &DirectoryCell) -> (dir: Result<String, ()>)
    ensures
        dir matches Ok(found) && found@ == cell@.path,
{
    Ok(cell.get())
}

/// Overwrites the data directory.
pub fn set_android_data_dir(cell: &mut DirectoryCell, path: &str)
    ensures
        final(cell)@ == old(cell)@.set(path@),
{
    cell.set(path);
}

/// The database file below `data_dir`, or below the default data directory
/// where no data directory could be named.
pub open spec fn db_path_spec(data_dir: Result<Seq<char>, ()>, testing: bool) -> Seq<char> {
    match data_dir {
        Ok(dir) => path_join(dir, db_file_name(testing)),
        Err(_) => path_join(default_data_dir(), db_file_name(testing)),
    }
}

/// The path of the database file for a data directory that was asked for
/// elsewhere. It never fails: without a data directory the file lies below
/// the default one.
pub fn db_path_in(data_dir: Result<String, ()>, testing: bool) -> (path: Result<String, ()>)
    ensures
        match data_dir {
            Ok(dir) => path matches Ok(found) && found@ == db_path_spec(Ok(dir@), testing),
            Err(_) => path matches Ok(found) && found@ == db_path_spec(Err(()), testing),
        },
{
    let name = if testing {
        "sqlite-testing.db"
    } else {
        "sqlite.db"
    };
    match data_dir {
        Ok(dir) => Ok(join_path(dir.as_str(), name)),
        Err(_) => Ok(join_path("/data/user/0/net.activitywatch.android/files", name)),
    }
}

/// The path of the database file: `sqlite.db`, or `sqlite-testing.db` in
/// test mode, inside the data directory the cell holds.
pub fn db_path(cell: &DirectoryCell, testing: bool) -> (path: Result<String, ()>)
    ensures
        path matches Ok(found) && found@ == path_join(cell@.path, db_file_name(testing)),
{
    db_path_in(get_data_dir(cell), testing)
}

} // verus!
