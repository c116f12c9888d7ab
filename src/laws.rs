//! Properties of the controller that relate several functions or several messages.
use vstd::prelude::*;

use crate::application::{
    pending_at, reloaded_after_save, selected, update_post, Bl3Application, Bl3Message, Command, CommitStage,
    InteractionMessage, ManageProfileInteractionMessage, ManageSaveInteractionMessage,
};
use crate::files::{
    displays, has_same_file, lemma_sorted_same_files_align, LoadedFile,
};
use crate::game_data::GameData;
use crate::message_result::MessageResult;
use crate::profile_state::{profile_violation, ProfileFile, ProfileViewState};
use crate::save_state::{save_violation, SaveFile, SaveViewState};

verus! {

/// Committing valid save edits and then seeding the editor from the written file gives
/// back exactly the edits: every mapped field survives the round trip.
pub proof fn lemma_save_edits_round_trip(
    view: SaveViewState,
    base: SaveFile,
    data: GameData,
    edited: SaveFile,
    reseeded: SaveViewState,
)
    requires
        save_violation(view.fields, data) is None,
        edited.mapped_from(&view, &base),
        reseeded.mirrors(&edited),
    ensures
        reseeded.file_name_input@ == view.file_name_input@,
        reseeded.save_type_selected == view.save_type_selected,
        reseeded.fields.same_as(&view.fields),
{
}

/// Committing valid profile edits and then seeding the editor from the written file gives
/// back exactly the edits.
pub proof fn lemma_profile_edits_round_trip(
    view: ProfileViewState,
    base: ProfileFile,
    data: GameData,
    edited: ProfileFile,
    reseeded: ProfileViewState,
)
    requires
        profile_violation(view.fields, data) is None,
        edited.mapped_from(&view, &base),
        reseeded.mirrors(&edited),
    ensures
        reseeded == view,
{
}

/// A commit whose edits break a rule, or whose encoding fails, leaves the loaded files,
/// the selection and the pending edits as they were, and asks for neither a backup nor a
/// write.
pub proof fn lemma_failed_commit_writes_nothing(
    old: Bl3Application,
    msg: Bl3Message,
    new: Bl3Application,
    r: Option<Command>,
)
    requires
        update_post(old, msg, new, r),
        ({
            ||| msg == Bl3Message::Interaction(
                InteractionMessage::ManageSaveInteraction(
                    ManageSaveInteractionMessage::SaveFilePressed,
                ),
            ) && save_violation(old.manage_save_state.save_view_state.fields, old.game_data) is Some
            ||| msg == Bl3Message::Interaction(
                InteractionMessage::ManageProfileInteraction(
                    ManageProfileInteractionMessage::SaveProfilePressed,
                ),
            ) && profile_violation(old.manage_profile_state.profile_view_state.fields, old.game_data) is Some
            ||| msg is SerializeCompleted && msg->SerializeCompleted_0 is Error
        }),
    ensures
        new.manage_save_state == old.manage_save_state,
        new.manage_profile_state == old.manage_profile_state,
        new.loaded_files == old.loaded_files,
        new.loaded_files_selected == old.loaded_files_selected,
        r is None,
{
}

/// A run of the controller: `states[k + 1]` and `commands[k]` are what `update` makes of
/// `states[k]` and `messages[k]`.
pub open spec fn is_run(
    states: Seq<Bl3Application>,
    messages: Seq<Bl3Message>,
    commands: Seq<Option<Command>>,
) -> bool {
    &&& states.len() == messages.len() + 1
    &&& commands.len() == messages.len()
    &&& forall|k: int|
        0 <= k < messages.len() ==> update_post(
            #[trigger] states[k],
            messages[k],
            states[k + 1],
            commands[k],
        )
}

/// `c` asks for a backup of `bytes`.
pub open spec fn backs_up(c: Option<Command>, bytes: Seq<u8>) -> bool {
    c is Some && c->0 is BackupFile && c->0->BackupFile_bytes@ == bytes
}

/// One step never reaches the backing-up stage but from encoding, by asking for the
/// backup of the pre-edit bytes.
proof fn lemma_backing_up_entered(
    old: Bl3Application,
    msg: Bl3Message,
    new: Bl3Application,
    r: Option<Command>,
)
    requires
        update_post(old, msg, new, r),
        pending_at(new, CommitStage::BackingUp),
    ensures
        old.commit == new.commit || (pending_at(old, CommitStage::Serializing) && backs_up(
            r,
            new.commit->0.previous.disk_bytes(),
        )),
{
    reveal(reloaded_after_save);
    match msg {
        Bl3Message::Interaction(m) => {
            match m {
                InteractionMessage::SettingsInteraction(s) => {},
                _ => {},
            }
        },
        Bl3Message::ChooseSave(c) => {},
        Bl3Message::FilesLoadedAfterSave(res) => {},
        _ => {},
    }
}

/// One step asks for a write only on a successful backup of the commit that is backing up.
proof fn lemma_write_requested(
    old: Bl3Application,
    msg: Bl3Message,
    new: Bl3Application,
    r: Option<Command>,
)
    requires
        update_post(old, msg, new, r),
        r is Some && r->0 is WriteFile,
    ensures
        pending_at(old, CommitStage::BackingUp),
        msg == Bl3Message::BackupCompleted(MessageResult::Success(())),
        r->0->WriteFile_bytes@ == old.commit->0.output@,
{
    match msg {
        Bl3Message::Interaction(m) => {
            match m {
                InteractionMessage::SettingsInteraction(s) => {},
                _ => {},
            }
        },
        Bl3Message::ChooseSave(c) => {},
        Bl3Message::BackupCompleted(res) => {
            match res {
                MessageResult::Success(u) => {
                    assert(u == ());
                },
                _ => {},
            }
        },
        _ => {},
    }
}

proof fn lemma_backing_up_was_requested(
    states: Seq<Bl3Application>,
    messages: Seq<Bl3Message>,
    commands: Seq<Option<Command>>,
    k: int,
)
    requires
        is_run(states, messages, commands),
        states[0].commit is None,
        0 <= k < states.len(),
        pending_at(states[k], CommitStage::BackingUp),
    ensures
        exists|j: int| 0 <= j < k && backs_up(#[trigger] commands[j], states[k].commit->0.previous.disk_bytes()),
    decreases k,
{
    if k == 0 {
    } else {
        lemma_backing_up_entered(states[k - 1], messages[k - 1], states[k], commands[k - 1]);
        if states[k - 1].commit == states[k].commit {
            lemma_backing_up_was_requested(states, messages, commands, k - 1);
            let j = choose|j: int| 0 <= j < k - 1 && backs_up(#[trigger] commands[j], states[k - 1].commit->0.previous.disk_bytes());
            assert(backs_up(commands[j], states[k].commit->0.previous.disk_bytes()));
        } else {
            assert(backs_up(commands[k - 1], states[k].commit->0.previous.disk_bytes()));
        }
    }
}

/// In every run that starts with no commit in flight, each write is asked for only after a
/// backup of the pre-edit bytes of the same commit was asked for, and only once that
/// backup has reported success.
pub proof fn lemma_write_preceded_by_backup(
    states: Seq<Bl3Application>,
    messages: Seq<Bl3Message>,
    commands: Seq<Option<Command>>,
    k: int,
)
    requires
        is_run(states, messages, commands),
        states[0].commit is None,
        0 <= k < messages.len(),
        commands[k] is Some && commands[k]->0 is WriteFile,
    ensures
        pending_at(states[k], CommitStage::BackingUp),
        messages[k] == Bl3Message::BackupCompleted(MessageResult::Success(())),
        exists|j: int|
            0 <= j < k && backs_up(#[trigger] commands[j], states[k].commit->0.previous.disk_bytes()),
{
    lemma_write_requested(states[k], messages[k], states[k + 1], commands[k]);
    lemma_backing_up_was_requested(states, messages, commands, k);
}

/// After the rescan that follows a successful write, the written file is selected again
/// when the rescan found a file with its kind and name; otherwise the first file in
/// display order is selected.
pub proof fn lemma_reselects_written_file(
    old: Bl3Application,
    saved: LoadedFile,
    files: Vec<LoadedFile>,
    new: Bl3Application,
    r: Option<Command>,
)
    requires
        update_post(old, Bl3Message::FilesLoadedAfterSave(MessageResult::Success((saved, files))), new, r),
        files@.len() > 0,
    ensures
        has_same_file(files@, saved) ==> new.loaded_files_selected is Some
            && new.loaded_files_selected->0.same_file(&saved),
        !has_same_file(files@, saved) ==> new.loaded_files_selected is Some
            && new.loaded_files_selected->0.same_as(&new.loaded_files@[0]),
{
    reveal(reloaded_after_save);
    if has_same_file(files@, saved) {
        let i = choose|i: int|
            0 <= i < new.loaded_files@.len() && (#[trigger] new.loaded_files@[i]).same_file(&saved)
                && selected(
                Bl3Application {
                    view_state: old.view_before_reload,
                    loaded_files: new.loaded_files,
                    is_reloading_saves: false,
                    ..old
                },
                new.loaded_files@[i],
                true,
                new,
            );
        assert(new.loaded_files_selected->0.same_as(&new.loaded_files@[i]));
    }
}

/// Each file shown for one scan is shown for another scan that found the same files.
proof fn lemma_shown_in_both(
    scan_a: Seq<LoadedFile>,
    scan_b: Seq<LoadedFile>,
    shown_a: Seq<LoadedFile>,
    shown_b: Seq<LoadedFile>,
)
    requires
        forall|j: int| 0 <= j < shown_a.len() ==> scan_a.contains(#[trigger] shown_a[j]),
        forall|i: int| 0 <= i < scan_b.len() ==> has_same_file(shown_b, #[trigger] scan_b[i]),
        forall|i: int| 0 <= i < scan_a.len() ==> has_same_file(scan_b, #[trigger] scan_a[i]),
    ensures
        forall|i: int| 0 <= i < shown_a.len() ==> has_same_file(shown_b, #[trigger] shown_a[i]),
{
    assert forall|i: int| 0 <= i < shown_a.len() implies has_same_file(shown_b, #[trigger] shown_a[i]) by {
        assert(scan_a.contains(shown_a[i]));
        let k = choose|k: int| 0 <= k < scan_a.len() && scan_a[k] == shown_a[i];
        assert(has_same_file(scan_b, scan_a[k]));
        let m = choose|m: int| 0 <= m < scan_b.len() && scan_a[k].same_file(&#[trigger] scan_b[m]);
        assert(has_same_file(shown_b, scan_b[m]));
        let n = choose|n: int| 0 <= n < shown_b.len() && scan_b[m].same_file(&#[trigger] shown_b[n]);
        assert(shown_a[i].same_file(&shown_b[n]));
    };
}

/// Two scans that found the same files are displayed identically, in lexicographic order
/// of file names, whatever order each scan produced them in.
pub proof fn lemma_display_order_independent_of_scan_order(
    scan_a: Seq<LoadedFile>,
    scan_b: Seq<LoadedFile>,
    shown_a: Seq<LoadedFile>,
    shown_b: Seq<LoadedFile>,
)
    requires
        displays(scan_a, shown_a),
        displays(scan_b, shown_b),
        forall|i: int| 0 <= i < scan_a.len() ==> has_same_file(scan_b, #[trigger] scan_a[i]),
        forall|i: int| 0 <= i < scan_b.len() ==> has_same_file(scan_a, #[trigger] scan_b[i]),
    ensures
        shown_a.len() == shown_b.len(),
        forall|i: int| 0 <= i < shown_a.len() ==> (#[trigger] shown_a[i]).same_file(&shown_b[i]),
{
    lemma_shown_in_both(scan_a, scan_b, shown_a, shown_b);
    lemma_shown_in_both(scan_b, scan_a, shown_b, shown_a);
    lemma_sorted_same_files_align(shown_a, shown_b);
}

} // verus!
