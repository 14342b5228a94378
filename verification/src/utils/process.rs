//! The search for the running game.
//!
//! The search itself looks at the processes of the machine, which this crate
//! cannot do. What it decides is here: which process counts as the game, and
//! what a search result does to what is known of the game.

use crate::utils::error::GameError;
use vstd::prelude::*;

verus! {

/// A process counts as the game only if it uses more memory than this, in
/// bytes.
pub const MIN_GAME_MEMORY: u64 = 1024768;

/// What is known of the running game.
#[derive(Debug, Clone)]
pub struct ProcessInfo {
    /// The id of the process whose memory is open.
    pub handle: Option<u32>,
    /// The id of the process that the last search found.
    pub previous_pid: Option<u32>,
    /// The directory that the game runs in.
    pub current_dir: Option<String>,
}

/// The search for the game and what it has found.
#[derive(Debug, Clone)]
pub struct ProcessScanner {
    pub process_info: ProcessInfo,
    /// Whether a search is under way.
    pub is_scanning: bool,
    /// The names under which the game may run.
    pub names: Vec<String>,
}

/// What one look at the processes of the machine gave.
#[derive(Debug, Clone)]
pub enum ScanResult {
    /// The game runs as process `pid`, in the directory `cwd`.
    Found { pid: u32, cwd: String },
    /// The game does not run.
    NotFound,
    /// The look itself failed.
    Failed,
}

/// What is to be done after a look at the processes.
#[derive(Debug, Clone, Copy, PartialEq, Eq)]
pub enum ScanAction {
    /// Nothing.
    Nothing,
    /// The memory of process `pid` is to be opened, and the outcome reported
    /// with [`ProcessScanner::handle_opened`].
    OpenHandle { pid: u32 },
}

/// The lower-case form of a text.
pub uninterp spec fn lowercased(text: Seq<char>) -> Seq<char>;

/// `str::to_lowercase` of std: the lower-case form of `text`, which depends
/// on the text alone. The contract gives it its name, [`lowercased`], and
/// says no more of it.
#[verifier::external_body]
fn to_lowercase(text: &str) -> (lower: String)
    ensures
        lower@ == lowercased(text@),
{
    text.to_lowercase()
}

/// The texts `a` and `b` are the same but for upper and lower case.
pub open spec fn same_but_for_case(a: Seq<char>, b: Seq<char>) -> bool {
    lowercased(a) == lowercased(b)
}

/// The process named `process_name` counts as the game: it is running, it
/// uses more than [`MIN_GAME_MEMORY`] bytes, and one of `names` is its name,
/// upper and lower case taken as the same.
pub open spec fn is_game_process(
    names: Seq<String>,
    process_name: Seq<char>,
    running: bool,
    memory: u64,
) -> bool {
    &&& running
    &&& memory > MIN_GAME_MEMORY
    &&& exists|i: int| 0 <= i < names.len() && #[trigger] same_but_for_case(names[i]@, process_name)
}

/// Whether the lower-case text `name` is the lower-case process name
/// `process_name`.
fn same_name(name: &String, process_name: &String) -> (same: bool)
    ensures
        same == (name@ == process_name@),
{
    *name == *process_name
}

/// Whether a process counts as the game: see [`is_game_process`].
pub fn process_matches(
    names: &Vec<String>,
    process_name: &str,
    running: bool,
    memory: u64,
) -> (matches: bool)
    ensures
        matches == is_game_process(names@, process_name@, running, memory),
{
    if !running || memory <= MIN_GAME_MEMORY {
        return false;
    }
    let wanted = to_lowercase(process_name);
    let mut i: usize = 0;
    while i < names.len()
        invariant
            i <= names@.len(),
            running,
            memory > MIN_GAME_MEMORY,
            wanted@ == lowercased(process_name@),
            forall|j: int| 0 <= j < i ==> !#[trigger] same_but_for_case(names@[j]@, process_name@),
        decreases names@.len() - i,
    {
        let lower = to_lowercase(names[i].as_str());
        if same_name(&lower, &wanted) {
            assert(same_but_for_case(names@[i as int]@, process_name@));
            return true;
        }
        i += 1;
    }
    false
}

/// A copy of a text that may be missing.
fn copy_of(text: &Option<String>) -> (copy: Option<String>)
    ensures
        text is Some <==> copy is Some,
        text matches Some(t) ==> copy->Some_0@ == t@,
{
    match text {
        Some(t) => Some(t.clone()),
        None => None,
    }
}

impl ProcessScanner {
    /// A search that has not started and knows nothing.
    pub fn new() -> (scanner: Self)
        ensures
            !scanner.is_scanning,
            scanner.names@.len() == 0,
            scanner.process_info.handle is None,
            scanner.process_info.previous_pid is None,
            scanner.process_info.current_dir is None,
    {
        ProcessScanner {
            process_info: ProcessInfo { handle: None, previous_pid: None, current_dir: None },
            is_scanning: false,
            names: Vec::new(),
        }
    }

    /// Starts the search for a process of one of `names`. What is known of
    /// the game stays as it is.
    pub fn start_scanning(&mut self, names: Vec<String>)
        ensures
            final(self).is_scanning,
            final(self).names == names,
            final(self).process_info == old(self).process_info,
    {
        self.names = names;
        self.is_scanning = true;
    }

    /// Takes in what a look at the processes gave, and says what is to be
    /// done.
    ///
    /// A game found under a new process id becomes the known game, with its
    /// directory. A game no longer found is forgotten, and so is its open
    /// memory. The memory of a game found is to be opened where none is
    /// open.
    pub fn observe(&mut self, result: ScanResult) -> (action: ScanAction)
        ensures
            final(self).is_scanning == old(self).is_scanning,
            final(self).names == old(self).names,
            match result {
                ScanResult::Found { pid, cwd } => {
                    &&& final(self).process_info.previous_pid == Some(pid)
                    &&& final(self).process_info.handle == old(self).process_info.handle
                    &&& if old(self).process_info.previous_pid == Some(pid) {
                        final(self).process_info.current_dir == old(self).process_info.current_dir
                    } else {
                        final(self).process_info.current_dir == Some(cwd)
                    }
                    &&& action == if old(self).process_info.handle is None {
                        ScanAction::OpenHandle { pid }
                    } else {
                        ScanAction::Nothing
                    }
                },
                _ => {
                    &&& final(self).process_info.handle is None
                    &&& final(self).process_info.previous_pid is None
                    &&& if old(self).process_info.previous_pid is Some {
                        final(self).process_info.current_dir is None
                    } else {
                        final(self).process_info.current_dir == old(self).process_info.current_dir
                    }
                    &&& action == ScanAction::Nothing
                },
            },
    {
        match result {
            ScanResult::Found { pid, cwd } => {
                let known = match self.process_info.previous_pid {
                    Some(previous) => previous == pid,
                    None => false,
                };
                if !known {
                    self.process_info.previous_pid = Some(pid);
                    self.process_info.current_dir = Some(cwd);
                }
                if self.process_info.handle.is_none() {
                    ScanAction::OpenHandle { pid }
                } else {
                    ScanAction::Nothing
                }
            },
            _ => {
                if self.process_info.previous_pid.is_some() {
                    self.process_info.previous_pid = None;
                    self.process_info.current_dir = None;
                }
                self.process_info.handle = None;
                ScanAction::Nothing
            },
        }
    }

    /// Takes in whether the memory of process `pid` could be opened.
    pub fn handle_opened(&mut self, pid: u32, opened: bool)
        ensures
            final(self).process_info.handle == if opened {
                Some(pid)
            } else {
                None::<u32>
            },
            final(self).process_info.previous_pid == old(self).process_info.previous_pid,
            final(self).process_info.current_dir == old(self).process_info.current_dir,
            final(self).is_scanning == old(self).is_scanning,
            final(self).names == old(self).names,
    {
        self.process_info.handle = if opened {
            Some(pid)
        } else {
            None
        };
    }

    /// The id of the process whose memory is open.
    pub fn get_handle(&self) -> (handle: Option<u32>)
        ensures
            handle == self.process_info.handle,
    {
        self.process_info.handle
    }

    /// Forgets the open memory and the process that was found, so that the
    /// next look opens the game afresh. The directory stays known.
    pub fn invalidate_handle(&mut self)
        ensures
            final(self).process_info.handle is None,
            final(self).process_info.previous_pid is None,
            final(self).process_info.current_dir == old(self).process_info.current_dir,
            final(self).is_scanning == old(self).is_scanning,
            final(self).names == old(self).names,
    {
        self.process_info.handle = None;
        self.process_info.previous_pid = None;
    }

    /// The directory that the game runs in.
    pub fn get_current_dir(&self) -> (dir: Option<String>)
        ensures
            dir is Some <==> self.process_info.current_dir is Some,
            dir matches Some(d) ==> d@ == self.process_info.current_dir->Some_0@,
    {
        copy_of(&self.process_info.current_dir)
    }
}

/// Starts a search for a process of one of `names`.
pub fn initialize(names: Vec<String>) -> (scanner: ProcessScanner)
    ensures
        scanner.is_scanning,
        scanner.names == names,
        scanner.process_info.handle is None,
        scanner.process_info.previous_pid is None,
        scanner.process_info.current_dir is None,
{
    let mut scanner = ProcessScanner::new();
    scanner.start_scanning(names);
    scanner
}

/// The id of the process whose memory is open.
pub fn get_process_handle(scanner: &ProcessScanner) -> (handle: Option<u32>)
    ensures
        handle == scanner.process_info.handle,
{
    scanner.get_handle()
}

/// Forgets the open memory and the process that was found: see
/// [`ProcessScanner::invalidate_handle`].
pub fn invalidate_handle(scanner: &mut ProcessScanner)
    ensures
        final(scanner).process_info.handle is None,
        final(scanner).process_info.previous_pid is None,
        final(scanner).process_info.current_dir == old(scanner).process_info.current_dir,
        final(scanner).is_scanning == old(scanner).is_scanning,
        final(scanner).names == old(scanner).names,
{
    scanner.invalidate_handle();
}

/// The directory that the game runs in.
pub fn get_current_dir(scanner: &ProcessScanner) -> (dir: Option<String>)
    ensures
        dir is Some <==> scanner.process_info.current_dir is Some,
        dir matches Some(d) ==> d@ == scanner.process_info.current_dir->Some_0@,
{
    scanner.get_current_dir()
}

/// Whether the memory of the game is open.
pub fn is_ff7_running(scanner: &ProcessScanner) -> (running: bool)
    ensures
        running == scanner.process_info.handle is Some,
{
    scanner.get_handle().is_some()
}

/// Takes in that the `size` bytes from `address` on could not be read from
/// or written to the game: the open memory is forgotten, so that the next
/// look opens the game afresh, and the failure is named.
pub fn handle_memory_error(scanner: &mut ProcessScanner, address: u64, size: usize) -> (error:
    GameError)
    ensures
        error == (GameError::Inaccessible { address, size }),
        final(scanner).process_info.handle is None,
        final(scanner).process_info.previous_pid is None,
        final(scanner).process_info.current_dir == old(scanner).process_info.current_dir,
        final(scanner).is_scanning == old(scanner).is_scanning,
        final(scanner).names == old(scanner).names,
{
    scanner.invalidate_handle();
    GameError::Inaccessible { address, size }
}

} // verus!
