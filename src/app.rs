//! The review state machine: navigation over local files, search results
//! and candidate details.
use vstd::prelude::*;

use crate::metadata::{MetadataItem, ProviderResult};

verus! {

#[derive(Debug, Clone, Copy, PartialEq, Eq, Structural)]
pub enum AppState {
    Navigation,
    Results,
    Details,
}

#[derive(Debug, Clone, Copy, PartialEq, Eq, Structural)]
pub enum FocusedPane {
    Directory,
    Files,
    Results,
}

/// What the status line reports; the presentation layer words it.
#[derive(Debug, Clone, PartialEq)]
pub enum StatusMessage {
    Welcome,
    ScanComplete { files: usize },
    ScanFailed(String),
    NoFilesToSearch,
    Searching,
    SearchComplete { results: usize },
    SearchFailed(String),
    NoMetadataSelected,
    ApplyingMetadata,
    MetadataApplied,
    ApplyFailed(String),
}

/// The session state of one review.
pub struct App {
    pub state: AppState,
    pub current_path: String,
    pub directories: Vec<String>,
    pub files: Vec<MetadataItem>,
    pub results: Vec<ProviderResult>,
    pub selected_directory: Option<usize>,
    pub selected_file: Option<usize>,
    pub selected_result: Option<usize>,
    pub focus: FocusedPane,
    pub details_scroll: u16,
    pub status_message: StatusMessage,
}

/// A selection is either unset or a valid index into a list of length `n`.
pub open spec fn selection_in_range(sel: Option<usize>, n: nat) -> bool {
    match sel {
        Some(i) => i < n,
        None => true,
    }
}

/// The selection after moving down a list of length `n`, wrapping past the
/// end back to the first index; an empty list keeps its selection.
pub open spec fn next_index(sel: Option<usize>, n: nat) -> Option<usize> {
    if n == 0 {
        sel
    } else {
        Some(
            match sel {
                Some(i) => if i >= n - 1 {
                    0
                } else {
                    (i + 1) as usize
                },
                None => 0,
            },
        )
    }
}

/// The selection after moving up a list of length `n`, wrapping before the
/// start to the last index; an empty list keeps its selection.
pub open spec fn previous_index(sel: Option<usize>, n: nat) -> Option<usize> {
    if n == 0 {
        sel
    } else {
        Some(
            match sel {
                Some(i) => if i == 0 {
                    (n - 1) as usize
                } else {
                    (i - 1) as usize
                },
                None => 0,
            },
        )
    }
}

/// The selection after moving down `k` times.
pub open spec fn next_index_repeated(sel: Option<usize>, n: nat, k: nat) -> Option<usize>
    decreases k,
{
    if k == 0 {
        sel
    } else {
        next_index_repeated(next_index(sel, n), n, (k - 1) as nat)
    }
}

pub open spec fn next_focus(f: FocusedPane) -> FocusedPane {
    match f {
        FocusedPane::Directory => FocusedPane::Files,
        FocusedPane::Files => FocusedPane::Results,
        FocusedPane::Results => FocusedPane::Directory,
    }
}

/// Everything but the three selections and the view state is unchanged.
pub open spec fn same_session_data(a: App, b: App) -> bool {
    &&& a.current_path == b.current_path
    &&& a.directories == b.directories
    &&& a.files == b.files
    &&& a.results == b.results
    &&& a.focus == b.focus
}

proof fn lemma_next_steps_within(j: usize, n: usize, k: nat)
    requires
        j + k < n,
    ensures
        next_index_repeated(Some(j), n as nat, k) == Some((j + k) as usize),
    decreases k,
{
    if k > 0 {
        lemma_next_steps_within((j + 1) as usize, n, (k - 1) as nat);
    }
}

proof fn lemma_next_repeated_split(sel: Option<usize>, n: nat, a: nat, b: nat)
    ensures
        next_index_repeated(sel, n, a + b) == next_index_repeated(
            next_index_repeated(sel, n, a),
            n,
            b,
        ),
    decreases a,
{
    if a > 0 {
        lemma_next_repeated_split(next_index(sel, n), n, (a - 1) as nat, b);
        assert((a + b - 1) as nat == ((a - 1) as nat) + b);
    }
}

/// Moving down a non-empty list as many times as it is long comes back to
/// the index one started from.
pub proof fn lemma_next_full_cycle(i: usize, n: usize)
    requires
        i < n,
    ensures
        next_index_repeated(Some(i), n as nat, n as nat) == Some(i),
{
    let to_last = (n - 1 - i) as nat;
    lemma_next_steps_within(i, n, to_last);
    lemma_next_repeated_split(Some(i), n as nat, to_last, 1);
    assert(next_index(Some((n - 1) as usize), n as nat) == Some(0usize));
    assert(next_index_repeated(Some(0usize), n as nat, 0) == Some(0usize));
    assert(next_index_repeated(Some((n - 1) as usize), n as nat, 1) == Some(0usize));
    lemma_next_steps_within(0, n, i as nat);
    lemma_next_repeated_split(Some(i), n as nat, to_last + 1, i as nat);
    assert(to_last + 1 + i == n);
}

/// Moving down then up, or up then down, leaves a selection in range
/// where it was.
pub proof fn lemma_next_previous_inverse(i: usize, n: usize)
    requires
        i < n,
    ensures
        previous_index(next_index(Some(i), n as nat), n as nat) == Some(i),
        next_index(previous_index(Some(i), n as nat), n as nat) == Some(i),
{
}

/// On an empty list moving either way keeps an unset selection unset.
pub proof fn lemma_empty_list_unselected()
    ensures
        next_index(None, 0) == None::<usize>,
        previous_index(None, 0) == None::<usize>,
{
}

/// Relies on `dirs::home_dir`: the current user's home directory, when one
/// is known.
#[verifier::external_body]
fn home_directory() -> (r: Option<String>) {
    match dirs::home_dir() {
        Some(p) => Some(p.to_string_lossy().into_owned()),
        None => None,
    }
}

fn step_down(sel: Option<usize>, n: usize) -> (r: Option<usize>)
    ensures
        r == next_index(sel, n as nat),
{
    if n == 0 {
        sel
    } else {
        match sel {
            Some(i) => if i >= n - 1 {
                Some(0)
            } else {
                Some(i + 1)
            },
            None => Some(0),
        }
    }
}

fn step_up(sel: Option<usize>, n: usize) -> (r: Option<usize>)
    ensures
        r == previous_index(sel, n as nat),
{
    if n == 0 {
        sel
    } else {
        match sel {
            Some(i) => if i == 0 {
                Some(n - 1)
            } else {
                Some(i - 1)
            },
            None => Some(0),
        }
    }
}

impl App {
    /// Every selection is in range; the details view always has a selected
    /// result and the navigation view never does.
    pub open spec fn wf(&self) -> bool {
        &&& selection_in_range(self.selected_directory, self.directories@.len())
        &&& selection_in_range(self.selected_file, self.files@.len())
        &&& selection_in_range(self.selected_result, self.results@.len())
        &&& (self.state == AppState::Details ==> self.selected_result is Some)
        &&& (self.state == AppState::Navigation ==> self.selected_result is None)
    }

    /// A fresh session in the navigation view, rooted at the user's home
    /// directory (or `.` when none is known), with nothing scanned yet.
    pub fn new() -> (r: Self)
        ensures
            r.wf(),
            r.state == AppState::Navigation,
            r.focus == FocusedPane::Directory,
            r.directories@.len() == 0,
            r.files@.len() == 0,
            r.results@.len() == 0,
            r.selected_directory is None,
            r.selected_file is None,
            r.selected_result is None,
            r.details_scroll == 0,
            r.status_message == StatusMessage::Welcome,
    {
        let current_path = match home_directory() {
            Some(h) => h,
            None => ".".to_owned(),
        };
        App {
            state: AppState::Navigation,
            current_path,
            directories: Vec::new(),
            files: Vec::new(),
            results: Vec::new(),
            selected_directory: None,
            selected_file: None,
            selected_result: None,
            focus: FocusedPane::Directory,
            details_scroll: 0,
            status_message: StatusMessage::Welcome,
        }
    }

    /// Installs the outcome of scanning `current_path`: the listed
    /// subdirectories and audio files, or the scan error. Either way both
    /// selections are cleared; a failed scan leaves both lists empty.
    pub fn scan_current_directory(&mut self, outcome: Result<(Vec<String>, Vec<MetadataItem>), String>)
        ensures
            old(self).wf() ==> final(self).wf(),
            final(self).state == old(self).state,
            final(self).current_path == old(self).current_path,
            final(self).results == old(self).results,
            final(self).selected_result == old(self).selected_result,
            final(self).focus == old(self).focus,
            final(self).details_scroll == old(self).details_scroll,
            final(self).selected_directory is None,
            final(self).selected_file is None,
            match outcome {
                Ok((d, f)) => {
                    &&& final(self).directories == d
                    &&& final(self).files == f
                    &&& final(self).status_message == (StatusMessage::ScanComplete { files: f@.len() as usize })
                },
                Err(e) => {
                    &&& final(self).directories@.len() == 0
                    &&& final(self).files@.len() == 0
                    &&& final(self).status_message == StatusMessage::ScanFailed(e)
                },
            },
    {
        match outcome {
            Ok((d, f)) => {
                let count = f.len();
                self.directories = d;
                self.files = f;
                self.status_message = StatusMessage::ScanComplete { files: count };
            },
            Err(e) => {
                self.directories = Vec::new();
                self.files = Vec::new();
                self.status_message = StatusMessage::ScanFailed(e);
            },
        }
        self.selected_directory = None;
        self.selected_file = None;
    }

    /// Moves into the selected directory. Returns whether it did, in which
    /// case the new `current_path` is to be scanned.
    pub fn select_directory(&mut self) -> (r: bool)
        ensures
            old(self).wf() ==> final(self).wf(),
            r == (old(self).selected_directory matches Some(i) && i < old(self).directories@.len()),
            r ==> final(self).current_path == old(self).directories@[old(
                self,
            ).selected_directory->0 as int],
            !r ==> final(self).current_path == old(self).current_path,
            final(self).directories == old(self).directories,
            final(self).files == old(self).files,
            final(self).results == old(self).results,
            final(self).focus == old(self).focus,
            final(self).state == old(self).state,
            final(self).selected_directory == old(self).selected_directory,
            final(self).selected_file == old(self).selected_file,
            final(self).selected_result == old(self).selected_result,
            final(self).details_scroll == old(self).details_scroll,
            final(self).status_message == old(self).status_message,
    {
        match self.selected_directory {
            Some(idx) => {
                if idx < self.directories.len() {
                    self.current_path = self.directories[idx].clone();
                    true
                } else {
                    false
                }
            },
            None => false,
        }
    }

    /// Moves the selection of the focused local list (directories or files)
    /// down by one, wrapping around; the results pane moves through
    /// `next_result` instead.
    pub fn next_item(&mut self)
        ensures
            old(self).wf() ==> final(self).wf(),
            same_session_data(*old(self), *final(self)),
            final(self).state == old(self).state,
            final(self).details_scroll == old(self).details_scroll,
            final(self).status_message == old(self).status_message,
            final(self).selected_result == old(self).selected_result,
            final(self).selected_directory == if old(self).focus == FocusedPane::Directory {
                next_index(old(self).selected_directory, old(self).directories@.len())
            } else {
                old(self).selected_directory
            },
            final(self).selected_file == if old(self).focus == FocusedPane::Files {
                next_index(old(self).selected_file, old(self).files@.len())
            } else {
                old(self).selected_file
            },
    {
        match self.focus {
            FocusedPane::Directory => {
                self.selected_directory = step_down(self.selected_directory, self.directories.len());
            },
            FocusedPane::Files => {
                self.selected_file = step_down(self.selected_file, self.files.len());
            },
            FocusedPane::Results => {},
        }
    }

    /// Moves the selection of the focused local list up by one, wrapping
    /// around.
    pub fn previous_item(&mut self)
        ensures
            old(self).wf() ==> final(self).wf(),
            same_session_data(*old(self), *final(self)),
            final(self).state == old(self).state,
            final(self).details_scroll == old(self).details_scroll,
            final(self).status_message == old(self).status_message,
            final(self).selected_result == old(self).selected_result,
            final(self).selected_directory == if old(self).focus == FocusedPane::Directory {
                previous_index(old(self).selected_directory, old(self).directories@.len())
            } else {
                old(self).selected_directory
            },
            final(self).selected_file == if old(self).focus == FocusedPane::Files {
                previous_index(old(self).selected_file, old(self).files@.len())
            } else {
                old(self).selected_file
            },
    {
        match self.focus {
            FocusedPane::Directory => {
                self.selected_directory = step_up(self.selected_directory, self.directories.len());
            },
            FocusedPane::Files => {
                self.selected_file = step_up(self.selected_file, self.files.len());
            },
            FocusedPane::Results => {},
        }
    }

    /// Cycles the focus: directories, files, results, directories.
    pub fn toggle_focus(&mut self)
        ensures
            old(self).wf() ==> final(self).wf(),
            final(self).focus == next_focus(old(self).focus),
            final(self).state == old(self).state,
            final(self).current_path == old(self).current_path,
            final(self).directories == old(self).directories,
            final(self).files == old(self).files,
            final(self).results == old(self).results,
            final(self).selected_directory == old(self).selected_directory,
            final(self).selected_file == old(self).selected_file,
            final(self).selected_result == old(self).selected_result,
            final(self).details_scroll == old(self).details_scroll,
            final(self).status_message == old(self).status_message,
    {
        self.focus = match self.focus {
            FocusedPane::Directory => FocusedPane::Files,
            FocusedPane::Files => FocusedPane::Results,
            FocusedPane::Results => FocusedPane::Directory,
        };
    }
    /// Starts a search for metadata of the scanned files. Returns whether the
    /// search collaborator is to be called: not when there are no files.
    pub fn request_search(&mut self) -> (r: bool)
        ensures
            old(self).wf() ==> final(self).wf(),
            r == (old(self).files@.len() > 0),
            final(self).status_message == if r {
                StatusMessage::Searching
            } else {
                StatusMessage::NoFilesToSearch
            },
            same_session_data(*old(self), *final(self)),
            final(self).state == old(self).state,
            final(self).selected_directory == old(self).selected_directory,
            final(self).selected_file == old(self).selected_file,
            final(self).selected_result == old(self).selected_result,
            final(self).details_scroll == old(self).details_scroll,
    {
        if self.files.len() == 0 {
            self.status_message = StatusMessage::NoFilesToSearch;
            false
        } else {
            self.status_message = StatusMessage::Searching;
            true
        }
    }

    /// Installs the outcome of a search started from the navigation view.
    /// Found candidates, however many, open the results view with no result
    /// selected. A failure leaves the view as it is, reports the error and
    /// empties the result list. Outside the navigation view no search runs,
    /// and nothing changes.
    pub fn search_metadata(&mut self, outcome: Result<Vec<ProviderResult>, String>)
        ensures
            old(self).wf() ==> final(self).wf(),
            final(self).current_path == old(self).current_path,
            final(self).directories == old(self).directories,
            final(self).files == old(self).files,
            final(self).focus == old(self).focus,
            final(self).selected_directory == old(self).selected_directory,
            final(self).selected_file == old(self).selected_file,
            final(self).details_scroll == old(self).details_scroll,
            old(self).state != AppState::Navigation ==> *final(self) == *old(self),
            old(self).state == AppState::Navigation ==> match outcome {
                Ok(found) => {
                    &&& final(self).state == AppState::Results
                    &&& final(self).results == found
                    &&& final(self).selected_result is None
                    &&& final(self).status_message == (StatusMessage::SearchComplete {
                        results: found@.len() as usize,
                    })
                },
                Err(e) => {
                    &&& final(self).state == AppState::Navigation
                    &&& final(self).results@.len() == 0
                    &&& final(self).selected_result is None
                    &&& final(self).status_message == StatusMessage::SearchFailed(e)
                },
            },
    {
        if self.state != AppState::Navigation {
            return;
        }
        match outcome {
            Ok(found) => {
                let count = found.len();
                self.results = found;
                self.state = AppState::Results;
                self.status_message = StatusMessage::SearchComplete { results: count };
            },
            Err(e) => {
                self.results = Vec::new();
                self.status_message = StatusMessage::SearchFailed(e);
            },
        }
        self.selected_result = None;
    }

    /// Moves the result selection down by one, wrapping around. The
    /// navigation view has no result selection, so there it does nothing.
    pub fn next_result(&mut self)
        ensures
            old(self).wf() ==> final(self).wf(),
            final(self).selected_result == if old(self).state == AppState::Navigation {
                old(self).selected_result
            } else {
                next_index(old(self).selected_result, old(self).results@.len())
            },
            same_session_data(*old(self), *final(self)),
            final(self).state == old(self).state,
            final(self).selected_directory == old(self).selected_directory,
            final(self).selected_file == old(self).selected_file,
            final(self).details_scroll == old(self).details_scroll,
            final(self).status_message == old(self).status_message,
    {
        if self.state != AppState::Navigation {
            self.selected_result = step_down(self.selected_result, self.results.len());
        }
    }

    /// Moves the result selection up by one, wrapping around; nothing in the
    /// navigation view.
    pub fn previous_result(&mut self)
        ensures
            old(self).wf() ==> final(self).wf(),
            final(self).selected_result == if old(self).state == AppState::Navigation {
                old(self).selected_result
            } else {
                previous_index(old(self).selected_result, old(self).results@.len())
            },
            same_session_data(*old(self), *final(self)),
            final(self).state == old(self).state,
            final(self).selected_directory == old(self).selected_directory,
            final(self).selected_file == old(self).selected_file,
            final(self).details_scroll == old(self).details_scroll,
            final(self).status_message == old(self).status_message,
    {
        if self.state != AppState::Navigation {
            self.selected_result = step_up(self.selected_result, self.results.len());
        }
    }

    /// From the results view, opens the details of the selected result (the
    /// first one when none is selected yet) with the scroll offset reset.
    /// Does nothing elsewhere or when there are no results.
    pub fn show_details(&mut self)
        ensures
            old(self).wf() ==> final(self).wf(),
            same_session_data(*old(self), *final(self)),
            final(self).selected_directory == old(self).selected_directory,
            final(self).selected_file == old(self).selected_file,
            final(self).status_message == old(self).status_message,
            if old(self).state == AppState::Results && old(self).results@.len() > 0 {
                &&& final(self).state == AppState::Details
                &&& final(self).details_scroll == 0
                &&& final(self).selected_result == match old(self).selected_result {
                    Some(i) => Some(i),
                    None => Some(0usize),
                }
            } else {
                &&& final(self).state == old(self).state
                &&& final(self).details_scroll == old(self).details_scroll
                &&& final(self).selected_result == old(self).selected_result
            },
    {
        if self.state == AppState::Results && self.results.len() > 0 {
            if self.selected_result.is_none() {
                self.selected_result = Some(0);
            }
            self.state = AppState::Details;
            self.details_scroll = 0;
        }
    }

    /// Steps back: details to results (keeping the selection), results to
    /// navigation (clearing it); nothing in the navigation view.
    pub fn go_back(&mut self)
        ensures
            old(self).wf() ==> final(self).wf(),
            same_session_data(*old(self), *final(self)),
            final(self).selected_directory == old(self).selected_directory,
            final(self).selected_file == old(self).selected_file,
            final(self).details_scroll == old(self).details_scroll,
            final(self).status_message == old(self).status_message,
            match old(self).state {
                AppState::Navigation => {
                    &&& final(self).state == AppState::Navigation
                    &&& final(self).selected_result == old(self).selected_result
                },
                AppState::Results => {
                    &&& final(self).state == AppState::Navigation
                    &&& final(self).selected_result is None
                },
                AppState::Details => {
                    &&& final(self).state == AppState::Results
                    &&& final(self).selected_result == old(self).selected_result
                },
            },
    {
        match self.state {
            AppState::Navigation => {},
            AppState::Results => {
                self.state = AppState::Navigation;
                self.selected_result = None;
            },
            AppState::Details => {
                self.state = AppState::Results;
            },
        }
    }

    /// Starts applying the selected result. Returns its index, which the
    /// apply collaborator is to write to the files, or `None` (reported in
    /// the status line) when no result is selected.
    pub fn apply_metadata(&mut self) -> (r: Option<usize>)
        ensures
            old(self).wf() ==> final(self).wf(),
            r == match old(self).selected_result {
                Some(i) => if i < old(self).results@.len() {
                    Some(i)
                } else {
                    None
                },
                None => None,
            },
            final(self).status_message == if r is Some {
                StatusMessage::ApplyingMetadata
            } else {
                StatusMessage::NoMetadataSelected
            },
            same_session_data(*old(self), *final(self)),
            final(self).state == old(self).state,
            final(self).selected_directory == old(self).selected_directory,
            final(self).selected_file == old(self).selected_file,
            final(self).selected_result == old(self).selected_result,
            final(self).details_scroll == old(self).details_scroll,
    {
        match self.selected_result {
            Some(idx) => {
                if idx < self.results.len() {
                    self.status_message = StatusMessage::ApplyingMetadata;
                    return Some(idx);
                }
            },
            None => {},
        }
        self.status_message = StatusMessage::NoMetadataSelected;
        None
    }

    /// Reports the outcome of applying a result; nothing else changes.
    pub fn finish_apply(&mut self, outcome: Result<(), String>)
        ensures
            old(self).wf() ==> final(self).wf(),
            final(self).status_message == match outcome {
                Ok(()) => StatusMessage::MetadataApplied,
                Err(e) => StatusMessage::ApplyFailed(e),
            },
            same_session_data(*old(self), *final(self)),
            final(self).state == old(self).state,
            final(self).selected_directory == old(self).selected_directory,
            final(self).selected_file == old(self).selected_file,
            final(self).selected_result == old(self).selected_result,
            final(self).details_scroll == old(self).details_scroll,
    {
        self.status_message = match outcome {
            Ok(()) => StatusMessage::MetadataApplied,
            Err(e) => StatusMessage::ApplyFailed(e),
        };
    }
}

} // verus!
