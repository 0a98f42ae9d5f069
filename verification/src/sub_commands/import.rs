//! The course of an import run over the packs that were asked for: which pack
//! is fetched and imported next, what becomes of a pack, and how the run ends.

use vstd::prelude::*;
use vstd::string::*;
use crate::error::InvalidPackUrl;
use crate::tg::stickerpack::{pack_name_of, pack_url_to_name};

verus! {

/// An uploaded sticker as the pack document of the sticker picker needs it:
/// the file as it was uploaded, and the sticker it came from.
#[derive(Debug)]
pub struct Sticker {
    pub file_hash: crate::database::Hash,
    pub mxc_url: String,
    pub file_id: String,
    pub emoji: String,
    pub width: u32,
    pub height: u32,
    pub file_size: usize,
    pub mimetype: String,
}

/// Where a run stands. The number is the position of a pack among those that
/// were asked for.
#[derive(Clone, Copy, Debug, PartialEq, Eq, Structural)]
pub enum RunState {
    Idle,
    FetchingMetadata(usize),
    Importing(usize),
    Completed(usize),
    EmptyPack(usize),
    Done,
    /// The metadata of this pack could not be fetched: the run has ended.
    Aborted(usize),
}

/// What has happened since the last step.
#[derive(Clone, Copy, Debug, PartialEq, Eq, Structural)]
pub enum RunEvent {
    Start,
    MetadataFetched,
    MetadataFailed,
    /// All stickers of the pack have been dealt with.
    PackImported { stickers: usize, failures: usize },
    /// The pack was written, or reported as empty.
    Continue,
}

/// What the caller has to do in a state.
#[derive(Clone, Copy, Debug, PartialEq, Eq, Structural)]
pub enum RunAction {
    /// Wait for the start.
    Wait,
    FetchMetadata(usize),
    ImportStickers(usize),
    WriteDocument(usize),
    ReportEmpty(usize),
    /// Nothing is left to do.
    Finish,
}

/// What became of a pack.
#[derive(Clone, Copy, Debug, PartialEq, Eq, Structural)]
pub enum PackStatus {
    /// Every sticker was imported.
    Complete,
    /// Some stickers failed; the others make up the pack.
    Partial,
    /// No sticker was imported: there is nothing to write.
    Empty,
}

/// The state that follows `state` on `event` in a run over `packs` packs. An
/// event that does not belong to the state changes nothing.
pub open spec fn next_state(state: RunState, event: RunEvent, packs: usize) -> RunState {
    match (state, event) {
        (RunState::Idle, RunEvent::Start) => if packs == 0 {
            RunState::Done
        } else {
            RunState::FetchingMetadata(0)
        },
        (RunState::FetchingMetadata(i), RunEvent::MetadataFetched) => RunState::Importing(i),
        (RunState::FetchingMetadata(i), RunEvent::MetadataFailed) => RunState::Aborted(i),
        (RunState::Importing(i), RunEvent::PackImported { stickers, failures }) => if stickers
            == 0 {
            RunState::EmptyPack(i)
        } else {
            RunState::Completed(i)
        },
        (RunState::Completed(i), RunEvent::Continue) => following(i, packs),
        (RunState::EmptyPack(i), RunEvent::Continue) => following(i, packs),
        _ => state,
    }
}

/// The state after pack `i` is dealt with: the next pack, or the end.
pub open spec fn following(i: usize, packs: usize) -> RunState {
    if i + 1 < packs {
        RunState::FetchingMetadata((i + 1) as usize)
    } else {
        RunState::Done
    }
}

/// Whether a state belongs to a run over `packs` packs.
pub open spec fn state_in_run(state: RunState, packs: usize) -> bool {
    match state {
        RunState::Idle | RunState::Done => true,
        RunState::FetchingMetadata(i)
        | RunState::Importing(i)
        | RunState::Completed(i)
        | RunState::EmptyPack(i)
        | RunState::Aborted(i) => i < packs,
    }
}

/// A run never leaves its packs: every step of a state of the run gives a
/// state of the run.
pub proof fn lemma_step_stays_in_run(state: RunState, event: RunEvent, packs: usize)
    requires
        state_in_run(state, packs),
    ensures
        state_in_run(next_state(state, event, packs), packs),
{
}

/// An empty pack does not end the run: the next pack follows it, as it follows
/// a pack that was written.
pub proof fn lemma_empty_pack_continues(i: usize, packs: usize)
    ensures
        next_state(RunState::EmptyPack(i), RunEvent::Continue, packs) == next_state(
            RunState::Completed(i),
            RunEvent::Continue,
            packs,
        ),
        i + 1 < packs ==> next_state(RunState::EmptyPack(i), RunEvent::Continue, packs)
            == RunState::FetchingMetadata((i + 1) as usize),
{
}

/// The end of a run is final: no event leads out of `Done` or `Aborted`.
pub proof fn lemma_end_is_final(state: RunState, event: RunEvent, packs: usize)
    requires
        state is Done || state is Aborted,
    ensures
        next_state(state, event, packs) == state,
{
}

impl RunState {
    /// The next state of the run.
    pub fn step(self, event: RunEvent, packs: usize) -> (next: RunState)
        ensures
            next == next_state(self, event, packs),
    {
        match (self, event) {
            (RunState::Idle, RunEvent::Start) => {
                if packs == 0 {
                    RunState::Done
                } else {
                    RunState::FetchingMetadata(0)
                }
            },
            (RunState::FetchingMetadata(i), RunEvent::MetadataFetched) => RunState::Importing(i),
            (RunState::FetchingMetadata(i), RunEvent::MetadataFailed) => RunState::Aborted(i),
            (RunState::Importing(i), RunEvent::PackImported { stickers, failures }) => {
                if stickers == 0 {
                    RunState::EmptyPack(i)
                } else {
                    RunState::Completed(i)
                }
            },
            (RunState::Completed(i), RunEvent::Continue)
            | (RunState::EmptyPack(i), RunEvent::Continue) => {
                if i < usize::MAX && i + 1 < packs {
                    RunState::FetchingMetadata(i + 1)
                } else {
                    RunState::Done
                }
            },
            _ => self,
        }
    }

    /// What the caller has to do now.
    pub fn action(self) -> (action: RunAction)
        ensures
            action == match self {
                RunState::Idle => RunAction::Wait,
                RunState::FetchingMetadata(i) => RunAction::FetchMetadata(i),
                RunState::Importing(i) => RunAction::ImportStickers(i),
                RunState::Completed(i) => RunAction::WriteDocument(i),
                RunState::EmptyPack(i) => RunAction::ReportEmpty(i),
                RunState::Done => RunAction::Finish,
                RunState::Aborted(_) => RunAction::Finish,
            },
    {
        match self {
            RunState::Idle => RunAction::Wait,
            RunState::FetchingMetadata(i) => RunAction::FetchMetadata(i),
            RunState::Importing(i) => RunAction::ImportStickers(i),
            RunState::Completed(i) => RunAction::WriteDocument(i),
            RunState::EmptyPack(i) => RunAction::ReportEmpty(i),
            RunState::Done | RunState::Aborted(_) => RunAction::Finish,
        }
    }
}

/// What a pack with this many imported and failed stickers has become. A pack
/// without any sticker is empty, whatever failed.
pub fn pack_status(stickers: usize, failures: usize) -> (status: PackStatus)
    ensures
        status == if stickers == 0 {
            PackStatus::Empty
        } else if failures > 0 {
            PackStatus::Partial
        } else {
            PackStatus::Complete
        },
{
    if stickers == 0 {
        PackStatus::Empty
    } else if failures > 0 {
        PackStatus::Partial
    } else {
        PackStatus::Complete
    }
}

/// Whether the document of a pack is written: of every pack but an empty one.
pub fn writes_document(status: PackStatus) -> (written: bool)
    ensures
        written == (status != PackStatus::Empty),
{
    match status {
        PackStatus::Empty => false,
        _ => true,
    }
}

/// The exit code of a run: zero only if the run reached its end and every
/// pack was imported completely.
pub fn exit_code(end: RunState, empty_packs: usize, partial_packs: usize) -> (code: u8)
    ensures
        code == 0 <==> (end is Done && empty_packs == 0 && partial_packs == 0),
        code == 0 || code == 1,
{
    match end {
        RunState::Done => {
            if empty_packs == 0 && partial_packs == 0 {
                0
            } else {
                1
            }
        },
        _ => 1,
    }
}

/// Whether the target platform is asked who the user is before anything is
/// imported: always, but in a dry run.
pub fn checks_identity(dry_run: bool) -> (checks: bool)
    ensures
        checks == !dry_run,
{
    !dry_run
}

/// The names of the packs that a run imports, in the order in which it imports
/// them: the urls are taken from the last to the first. The first url taken
/// that is no pack url ends the run before it begins.
pub fn pack_names(urls: &Vec<String>) -> (res: Result<Vec<String>, InvalidPackUrl>)
    ensures
        match res {
            Ok(names) => names@.len() == urls@.len() && forall|k: int|
                0 <= k < names@.len() ==> pack_name_of(urls@[urls@.len() - 1 - k]@) == Some(
                    (#[trigger] names@[k])@,
                ),
            Err(e) => exists|j: int|
                0 <= j < urls@.len() && e.0@ == urls@[j]@ && pack_name_of(#[trigger] urls@[j]@)
                    is None && forall|k: int|
                    j < k < urls@.len() ==> pack_name_of(#[trigger] urls@[k]@) is Some,
        },
{
    let mut names: Vec<String> = Vec::new();
    let mut i: usize = urls.len();
    while i > 0
        invariant
            i <= urls@.len(),
            names@.len() == urls@.len() - i,
            forall|k: int|
                0 <= k < names@.len() ==> pack_name_of(urls@[urls@.len() - 1 - k]@) == Some(
                    (#[trigger] names@[k])@,
                ),
        decreases i,
    {
        i -= 1;
        match pack_url_to_name(urls[i].as_str()) {
            Ok(name) => names.push(String::from_str(name)),
            Err(e) => {
                assert(pack_name_of(urls@[i as int]@) is None);
                assert forall|k: int| i < k < urls@.len() implies pack_name_of(
                    #[trigger] urls@[k]@,
                ) is Some by {
                    let at = urls@.len() - 1 - k;
                    assert(pack_name_of(urls@[urls@.len() - 1 - at]@) == Some(names@[at]@));
                }
                return Err(e);
            },
        }
    }
    Ok(names)
}

} // verus!
