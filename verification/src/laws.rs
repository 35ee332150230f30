//! The properties the controller is held to, proved of the transition
//! function [`EditorModel::step`] for every state and message.

use vstd::prelude::*;

use crate::app::EditorModel;
use crate::buffer::ActionModel;
use crate::error::ErrorModel;
use crate::message::{CommandModel, MessageModel};

verus! {

/// The state after folding a whole message sequence, first message first.
pub open spec fn run(s: EditorModel, ms: Seq<MessageModel>) -> EditorModel
    decreases ms.len(),
{
    if ms.len() == 0 {
        s
    } else {
        run(s.step(ms[0]).0, ms.skip(1))
    }
}

/// The command issued at position `i` of a message sequence.
pub open spec fn command_at(s: EditorModel, ms: Seq<MessageModel>, i: int) -> CommandModel {
    run(s, ms.take(i)).step(ms[i]).1
}

/// An I/O command is issued only from an idle state, and issuing it sets the
/// busy flag; while the flag is set, any message except a completion leaves
/// it set. With [`lemma_busy_load_save_noop`] this is the per-step shape of
/// mutual exclusion: the one in-flight command must complete before a second
/// one can be issued.
pub proof fn lemma_io_needs_idle(s: EditorModel, m: MessageModel)
    ensures
        s.step(m).1.is_io() ==> !s.is_loading && s.step(m).0.is_loading,
        s.is_loading && !m.is_completion() ==> s.step(m).0.is_loading,
{
}

/// Open and Save intents arriving while a command is in flight are dropped:
/// the state is left bit-for-bit unchanged and no command is issued. A New
/// intent in that state is dropped the same way.
pub proof fn lemma_busy_load_save_noop(s: EditorModel, m: MessageModel)
    requires
        s.is_loading,
        m == MessageModel::OpenFile || m == MessageModel::SaveFile || m == MessageModel::NewFile,
    ensures
        s.step(m) == (s, CommandModel::Nothing),
{
}

/// Mutual exclusion over whole intent sequences: while a command is in
/// flight, no sequence of messages free of completions ever issues another
/// I/O command, and the busy flag stays set throughout.
pub proof fn lemma_mutual_exclusion(s: EditorModel, ms: Seq<MessageModel>)
    requires
        s.is_loading,
        forall|i: int| 0 <= i < ms.len() ==> !(#[trigger] ms[i]).is_completion(),
    ensures
        run(s, ms).is_loading,
        forall|i: int| 0 <= i < ms.len() ==> !(#[trigger] command_at(s, ms, i)).is_io(),
    decreases ms.len(),
{
    if ms.len() > 0 {
        let s1 = s.step(ms[0]).0;
        lemma_io_needs_idle(s, ms[0]);
        assert(ms.take(0) =~= Seq::<MessageModel>::empty());
        assert(!command_at(s, ms, 0).is_io());
        lemma_mutual_exclusion(s1, ms.skip(1));
        assert forall|i: int| 1 <= i < ms.len() implies !(#[trigger] command_at(
            s,
            ms,
            i,
        )).is_io() by {
            assert(ms.take(i).skip(1) =~= ms.skip(1).take(i - 1));
            assert(run(s, ms.take(i)) == run(s1, ms.skip(1).take(i - 1)));
            assert(ms[i] == ms.skip(1)[i - 1]);
            assert(command_at(s, ms, i) == command_at(s1, ms.skip(1), i - 1));
        }
        assert(run(s, ms) == run(s1, ms.skip(1)));
    }
}

/// Dirty monotonicity under edits: an edit action sets the dirty flag; a
/// navigation action never changes it. Neither issues a command.
pub proof fn lemma_dirty_under_actions(s: EditorModel, a: ActionModel)
    ensures
        a.is_edit() ==> s.step(MessageModel::ActionPerformed(a)).0.is_dirty,
        !a.is_edit() ==> s.step(MessageModel::ActionPerformed(a)).0.is_dirty == s.is_dirty,
        s.step(MessageModel::ActionPerformed(a)).1 == CommandModel::Nothing,
{
}

/// Dirty monotonicity over whole sequences: as long as only buffer actions
/// arrive and none of them is an edit, the dirty flag never changes.
pub proof fn lemma_navigation_sequence_preserves_dirty(s: EditorModel, ms: Seq<MessageModel>)
    requires
        forall|i: int| 0 <= i < ms.len() ==> ((#[trigger] ms[i]) matches MessageModel::ActionPerformed(a) && !a.is_edit()),
    ensures
        run(s, ms).is_dirty == s.is_dirty,
    decreases ms.len(),
{
    if ms.len() > 0 {
        assert(ms[0] matches MessageModel::ActionPerformed(a) && !a.is_edit());
        lemma_navigation_sequence_preserves_dirty(s.step(ms[0]).0, ms.skip(1));
    }
}

/// A load completion resets the dirty flag, whatever it was and however the
/// load ended, and clears the busy flag.
pub proof fn lemma_load_resets_dirty(
    s: EditorModel,
    r: Result<(Seq<char>, Seq<char>), ErrorModel>,
)
    ensures
        !s.step(MessageModel::FileOpened(r)).0.is_dirty,
        !s.step(MessageModel::FileOpened(r)).0.is_loading,
{
}

/// A failed save preserves the dirty flag and the file path: the edits truly
/// were not persisted. Only the busy flag clears.
pub proof fn lemma_save_failure_preserves_dirty(s: EditorModel, e: ErrorModel)
    ensures
        s.step(MessageModel::FileSaved(Result::Err(e))).0.is_dirty == s.is_dirty,
        s.step(MessageModel::FileSaved(Result::Err(e))).0.file == s.file,
        !s.step(MessageModel::FileSaved(Result::Err(e))).0.is_loading,
{
}

/// A successful save returning path `p` records that path and clears the
/// dirty and busy flags.
pub proof fn lemma_save_success_clears_dirty(s: EditorModel, p: Seq<char>)
    ensures
        s.step(MessageModel::FileSaved(Result::Ok(p))).0.file == Option::Some(p),
        !s.step(MessageModel::FileSaved(Result::Ok(p))).0.is_dirty,
        !s.step(MessageModel::FileSaved(Result::Ok(p))).0.is_loading,
{
}

} // verus!
