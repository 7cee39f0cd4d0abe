//! Updates that are replayed from recorded replies of the native library.
use vstd::prelude::*;
use vstd::utf8::encode_utf8;

use crate::openai::error::ChatParseError;
use crate::openai::message::ChatMessageDeltaOaicompat;
use crate::openai::parse_laws::{
    answer, calls_from, calls_left, native_calls, outcome, update_calls,
    update_makes_its_calls_and_finishes, NativeRun, RenderedDiff,
};
use crate::openai::parse_state::{
    reads_as, rejected_at, step, texts, typed_deltas, CallView, ChatParseStateOaicompat, NativeCall, NativeReply,
    NativeStatus, PhaseView,
};
use crate::openai::session_laws::update_hands_over_the_text_and_the_flag;

verus! {

/// What came back when one diff was rendered.
#[derive(Debug)]
pub struct RecordedDiff {
    /// Status of the call.
    pub status: NativeStatus,
    /// The bytes of the rendered string, if it was not null.
    pub string: Option<Vec<u8>>,
}

/// What came back in the course of one update.
#[derive(Debug)]
pub struct RecordedUpdate {
    /// Status of the call that fed the text.
    pub status: NativeStatus,
    /// Whether the pointer to the diffs was null.
    pub diffs_null: bool,
    /// What rendering each diff gave.
    pub diffs: Vec<RecordedDiff>,
}

impl View for RecordedDiff {
    type V = RenderedDiff;

    open spec fn view(&self) -> RenderedDiff {
        RenderedDiff {
            status: self.status,
            string: match self.string {
                Some(bytes) => Some(bytes@),
                None => None,
            },
        }
    }
}

impl View for RecordedUpdate {
    type V = NativeRun;

    open spec fn view(&self) -> NativeRun {
        NativeRun {
            status: self.status,
            diffs_null: self.diffs_null,
            diffs: self.diffs@.map_values(|diff: RecordedDiff| diff@),
        }
    }
}

/// The result of an update, by its contents.
pub open spec fn result_view(result: Result<Vec<String>, ChatParseError>) -> Result<
    Seq<Seq<char>>,
    ChatParseError,
> {
    match result {
        Ok(deltas) => Ok(texts(deltas@)),
        Err(error) => Err(error),
    }
}

/// Whether a call is the one that leads to a state in the course of an update.
spec fn leads_to(run: NativeRun, call: CallView, phase: PhaseView) -> bool {
    match phase {
        PhaseView::Idle => call is Finished,
        PhaseView::Updating => call is UpdateState,
        PhaseView::Rendering { count, deltas } => {
            &&& call == CallView::RenderDiff { index: deltas.len() }
            &&& deltas.len() < count == run.diffs.len()
        },
        PhaseView::Copying { count, deltas } => {
            &&& call is CopyString
            &&& deltas.len() < count == run.diffs.len()
            &&& run.diffs[deltas.len() as int].string is Some
        },
        PhaseView::FreeingCopied { count, deltas, .. } => {
            &&& call is FreeString
            &&& deltas.len() < count == run.diffs.len()
        },
        PhaseView::FreeingRejected { .. } => call is FreeString,
        PhaseView::FreeingMessage { .. } => call is FreeMessage,
        PhaseView::FreeingDiffs { .. } => call is FreeDiffs,
    }
}

/// What a replayed update comes to.
#[derive(Debug)]
pub struct Replay<Delta> {
    /// The native calls that the session asked for, in their order.
    pub calls: Vec<NativeCall>,
    /// What the update returned.
    pub result: Result<Vec<Delta>, ChatParseError>,
}

/// Some native calls, by their contents.
pub open spec fn calls_view(calls: Seq<NativeCall>) -> Seq<CallView> {
    calls.map_values(|call: NativeCall| call@)
}

/// What the typed form of an update returns: the error of the update, or what
/// reading the texts of its deltas with `from_json` gives.
pub open spec fn typed_outcome<F>(
    from_json: F,
    outcome: Result<Seq<Seq<char>>, ChatParseError>,
    typed: Result<Vec<ChatMessageDeltaOaicompat>, ChatParseError>,
) -> bool where F: Fn(&String) -> Result<ChatMessageDeltaOaicompat, serde_json::Error> {
    match outcome {
        Err(error) => typed == Err::<Vec<ChatMessageDeltaOaicompat>, _>(error),
        Ok(deltas) => exists|jsons: Seq<String>|
            texts(jsons) == deltas && #[trigger] typed_deltas(from_json, jsons, typed),
    }
}

/// The view of a recorded update is what was recorded, diff by diff.
pub proof fn recorded_view_is_what_was_recorded(recorded: RecordedUpdate)
    ensures
        recorded@.status == recorded.status,
        recorded@.diffs_null == recorded.diffs_null,
        recorded@.diffs.len() == recorded.diffs@.len(),
        forall|i: int|
            0 <= i < recorded.diffs@.len() ==> {
                &&& (#[trigger] recorded@.diffs[i]).status == recorded.diffs@[i].status
                &&& recorded.diffs@[i].string matches Some(bytes) ==> recorded@.diffs[i].string
                    == Some(bytes@)
                &&& recorded.diffs@[i].string is None ==> recorded@.diffs[i].string is None
            },
{
}

/// The views of some native calls are those of each of them, in their order, and the
/// view of a result is its error or the texts of its strings.
pub proof fn replay_views_are_what_came_back(
    calls: Seq<NativeCall>,
    result: Result<Vec<String>, ChatParseError>,
)
    ensures
        calls_view(calls).len() == calls.len(),
        forall|i: int| 0 <= i < calls.len() ==> #[trigger] calls_view(calls)[i] == calls[i]@,
        result matches Err(error) ==> result_view(result) == Err::<Seq<Seq<char>>, _>(error),
        result matches Ok(deltas) ==> {
            &&& result_view(result) matches Ok(contents)
            &&& contents.len() == deltas@.len()
            &&& forall|i: int| 0 <= i < deltas@.len() ==> #[trigger] contents[i] == deltas@[i]@
        },
{
}

/// The typed form of an update returns the error of the update; where the update
/// succeeds, it returns one delta for each text, in their order and as `from_json`
/// read it, or else the error with which `from_json` rejected the first text that
/// it did not read.
pub proof fn typed_updates_read_each_text<F>(
    from_json: F,
    outcome: Result<Seq<Seq<char>>, ChatParseError>,
    typed: Result<Vec<ChatMessageDeltaOaicompat>, ChatParseError>,
) where F: Fn(&String) -> Result<ChatMessageDeltaOaicompat, serde_json::Error>
    requires
        typed_outcome(from_json, outcome, typed),
    ensures
        outcome matches Err(error) ==> typed == Err::<Vec<ChatMessageDeltaOaicompat>, _>(error),
        outcome matches Ok(deltas) ==> exists|jsons: Seq<String>|
            {
                &&& #[trigger] jsons.len() == deltas.len()
                &&& forall|i: int| 0 <= i < deltas.len() ==> (#[trigger] jsons[i])@ == deltas[i]
                &&& typed matches Ok(read) ==> {
                    &&& read@.len() == jsons.len()
                    &&& forall|i: int|
                        0 <= i < jsons.len() ==> call_ensures(
                            from_json,
                            (&#[trigger] jsons[i],),
                            Ok(read@[i]),
                        )
                }
                &&& typed matches Err(rejection) ==> {
                    &&& rejection matches ChatParseError::JsonError(error)
                    &&& exists|position: int, before: Seq<ChatMessageDeltaOaicompat>|
                        #![trigger jsons[position], before.len()]
                        {
                            &&& 0 <= position < jsons.len()
                            &&& call_ensures(from_json, (&jsons[position],), Err(error))
                            &&& before.len() == position
                            &&& forall|j: int|
                                0 <= j < position ==> call_ensures(
                                    from_json,
                                    (&#[trigger] jsons[j],),
                                    Ok(before[j]),
                                )
                        }
                }
            },
{
    if let Ok(deltas) = outcome {
        let jsons = choose|jsons: Seq<String>|
            texts(jsons) == deltas && #[trigger] typed_deltas(from_json, jsons, typed);
        assert(jsons.len() == deltas.len());
        assert forall|i: int| 0 <= i < deltas.len() implies (#[trigger] jsons[i])@ == deltas[i] by {
            assert(texts(jsons)[i] == jsons[i]@);
        }
        if let Err(rejection) = typed {
            let position = choose|position: int|
                rejected_at(from_json, jsons, position, rejection->JsonError_0);
            let before = choose|before: Seq<ChatMessageDeltaOaicompat>|
                reads_as(from_json, jsons.take(position), before);
            assert(before.len() == position);
            assert forall|j: int| 0 <= j < position implies call_ensures(
                from_json,
                (&#[trigger] jsons[j],),
                Ok(before[j]),
            ) by {
                assert(jsons.take(position)[j] == jsons[j]);
            }
            assert(call_ensures(from_json, (&jsons[position],), Err(rejection->JsonError_0)));
        }
    }
}

impl ChatParseStateOaicompat {
    /// Go through a whole update with recorded replies.
    pub fn replay(
        &mut self,
        text_added: &str,
        is_partial: bool,
        recorded: &RecordedUpdate,
    ) -> (replay: Replay<String>)
        requires
            old(self)@ is Idle,
        ensures
            final(self)@ is Idle,
            calls_view(replay.calls@) == native_calls(text_added@, is_partial, recorded@),
            !text_added@.contains('\0') ==> {
                &&& replay.calls@.len() > 0
                &&& replay.calls@[0] matches NativeCall::UpdateState { text, is_partial: handed }
                &&& text@ == encode_utf8(text_added@).push(0u8)
                &&& handed == is_partial
            },
            text_added@.contains('\0') ==> replay.calls@.len() == 0,
            result_view(replay.result) == outcome(text_added@, recorded@),
    {
        let ghost run = recorded@;
        let ghost whole = update_calls(text_added@, is_partial, run);
        let mut rendered: usize = 0;
        let mut calls: Vec<NativeCall> = Vec::new();
        let mut call = self.update(text_added, is_partial);
        assert(calls_view(calls@) + calls_from(run, (self@, call@)) == whole);
        loop
            invariant
                run == recorded@,
                whole == update_calls(text_added@, is_partial, run),
                leads_to(run, call@, self@),
                self@ matches PhaseView::Copying { deltas, .. } ==> deltas.len() == rendered,
                calls_view(calls@) + calls_from(run, (self@, call@)) == whole,
            decreases calls_left(run, self@),
        {
            let ghost phase = self@;
            let ghost before = calls_view(calls@);
            let made = match call {
                NativeCall::Finished(result) => {
                    proof {
                        update_makes_its_calls_and_finishes(text_added@, is_partial, run);
                        update_hands_over_the_text_and_the_flag(text_added@, is_partial, run);
                        assert(whole == before.push(call@));
                        assert(whole.drop_last() == before);
                        assert(whole.drop_last() == native_calls(text_added@, is_partial, run));
                        assert(whole.last() == call@);
                        if calls@.len() > 0 {
                            assert(before[0] == calls@[0]@);
                        }
                    }
                    return Replay { calls, result };
                },
                made => made,
            };
            let reply = match &made {
                NativeCall::Finished(_) => vstd::pervasive::unreached(),
                NativeCall::UpdateState { .. } => NativeReply::Updated {
                    status: recorded.status,
                    diffs_null: recorded.diffs_null,
                    diffs_count: recorded.diffs.len(),
                },
                NativeCall::RenderDiff { index } => {
                    rendered = *index;
                    assert(run.diffs[rendered as int] == recorded.diffs@[rendered as int]@);
                    NativeReply::Rendered {
                        status: recorded.diffs[rendered].status,
                        string_null: recorded.diffs[rendered].string.is_none(),
                    }
                },
                NativeCall::CopyString => {
                    assert(run.diffs[rendered as int] == recorded.diffs@[rendered as int]@);
                    match &recorded.diffs[rendered].string {
                        Some(bytes) => NativeReply::Copied(bytes.clone()),
                        None => vstd::pervasive::unreached(),
                    }
                },
                NativeCall::FreeString => NativeReply::Freed,
                NativeCall::FreeMessage => NativeReply::Freed,
                NativeCall::FreeDiffs => NativeReply::Freed,
            };
            assert(reply@ == answer(run, phase));
            let ghost asked = made@;
            calls.push(made);
            call = self.resume(reply);
            assert((self@, call@) == step(phase, answer(run, phase)));
            assert(calls_view(calls@) == before.push(asked));
            assert(before.push(asked) + calls_from(run, (self@, call@)) == before + (
            seq![asked] + calls_from(run, (self@, call@))));
        }
    }

    /// Go through a whole update with recorded replies, and read its deltas with
    /// `from_json`.
    ///
    /// The native calls are those of the plain update, and the session is left as
    /// the plain update leaves it, also where `from_json` rejects a delta.
    pub fn replay_typed<F>(
        &mut self,
        text_added: &str,
        is_partial: bool,
        recorded: &RecordedUpdate,
        from_json: F,
    ) -> (replay: Replay<ChatMessageDeltaOaicompat>) where
        F: Fn(&String) -> Result<ChatMessageDeltaOaicompat, serde_json::Error>,

        requires
            old(self)@ is Idle,
            forall|json: &String| #[trigger] call_requires(from_json, (json,)),
        ensures
            final(self)@ is Idle,
            calls_view(replay.calls@) == native_calls(text_added@, is_partial, recorded@),
            !text_added@.contains('\0') ==> {
                &&& replay.calls@.len() > 0
                &&& replay.calls@[0] matches NativeCall::UpdateState { text, is_partial: handed }
                &&& text@ == encode_utf8(text_added@).push(0u8)
                &&& handed == is_partial
            },
            text_added@.contains('\0') ==> replay.calls@.len() == 0,
            typed_outcome(from_json, outcome(text_added@, recorded@), replay.result),
    {
        let plain = self.replay(text_added, is_partial, recorded);
        let ghost updated = plain.result;
        let result = Self::update_typed(plain.result, from_json);
        proof {
            if updated is Ok {
                assert(typed_deltas(from_json, updated->Ok_0@, result));
            }
        }
        Replay { calls: plain.calls, result }
    }
}

} // verus!
