//! Which action a binding stands for.

use vstd::prelude::*;
use vstd::string::*;

use crate::text::same;

verus! {

/// What a shortcut does.
#[derive(Clone, Copy, Debug, PartialEq, Eq, Structural)]
pub enum Action {
    /// Record, transcribe and paste; the transcription may be post-processed.
    Transcribe { post_process: bool },
    /// Cancel whatever is under way.
    Cancel,
    /// Log that the shortcut was used.
    Test,
}

/// The action that a binding stands for.
pub open spec fn bound_action(binding_id: Seq<char>) -> Option<Action> {
    if binding_id == "transcribe"@ {
        Some(Action::Transcribe { post_process: false })
    } else if binding_id == "transcribe_with_post_process"@ {
        Some(Action::Transcribe { post_process: true })
    } else if binding_id == "cancel"@ {
        Some(Action::Cancel)
    } else if binding_id == "test"@ {
        Some(Action::Test)
    } else {
        None
    }
}

/// The action that a binding stands for.
pub fn action_for(binding_id: &str) -> (r: Option<Action>)
    ensures
        r == bound_action(binding_id@),
{
    if same(binding_id, "transcribe") {
        Some(Action::Transcribe { post_process: false })
    } else if same(binding_id, "transcribe_with_post_process") {
        Some(Action::Transcribe { post_process: true })
    } else if same(binding_id, "cancel") {
        Some(Action::Cancel)
    } else if same(binding_id, "test") {
        Some(Action::Test)
    } else {
        None
    }
}

/// Four bindings stand for an action, each for its own, and no other does.
pub proof fn law_what_the_bindings_do(binding_id: Seq<char>)
    ensures
        bound_action("transcribe"@) == Some(Action::Transcribe { post_process: false }),
        bound_action("transcribe_with_post_process"@) == Some(
            Action::Transcribe { post_process: true },
        ),
        bound_action("cancel"@) == Some(Action::Cancel),
        bound_action("test"@) == Some(Action::Test),
        bound_action(binding_id) is Some ==> binding_id == "transcribe"@ || binding_id
            == "transcribe_with_post_process"@ || binding_id == "cancel"@ || binding_id == "test"@,
{
    reveal_strlit("transcribe");
    reveal_strlit("transcribe_with_post_process");
    reveal_strlit("cancel");
    reveal_strlit("test");
    assert("transcribe"@.len() == 10);
    assert("transcribe_with_post_process"@.len() == 28);
    assert("cancel"@.len() == 6);
    assert("test"@.len() == 4);
}

} // verus!
