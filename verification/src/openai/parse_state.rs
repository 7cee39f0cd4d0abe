//! The streaming parse session, as a protocol between this library and the
//! native chat parser.
//!
//! An update of a session alternates native calls and decisions. The decisions
//! stand here: [`ChatParseStateOaicompat`] says which native call comes next,
//! its caller makes the call and reports what came back, until the session
//! answers [`NativeCall::Finished`].
use vstd::prelude::*;
use vstd::utf8::{decode_utf8, encode_utf8, encode_utf8_decode_utf8, valid_utf8};

use crate::openai::error::ChatParseError;
use crate::openai::message::ChatMessageDeltaOaicompat;
use crate::openai::parse_laws::nul_bytes_are_nul_characters;
use crate::trusted::utf8_error;

verus! {

/// The status that a native call returned.
#[derive(Debug, Clone, Copy, PartialEq, Eq, Structural)]
pub enum NativeStatus {
    /// The call succeeded.
    Success,
    /// The call failed with this code.
    Failure(i32),
}

/// What the session wants done next.
#[derive(Debug)]
pub enum NativeCall {
    /// Feed text to the native parser and obtain the message and its diffs.
    UpdateState {
        /// The bytes of the text and a closing NUL byte.
        text: Vec<u8>,
        /// Whether more text may follow.
        is_partial: bool,
    },
    /// Render one diff as a JSON string.
    RenderDiff {
        /// Position of the diff among those of this update.
        index: usize,
    },
    /// Copy the bytes of the rendered string, without its closing NUL byte.
    CopyString,
    /// Free the rendered string.
    FreeString,
    /// Free the message of this update.
    FreeMessage,
    /// Free the diffs of this update.
    FreeDiffs,
    /// Nothing: the update is over, with this result.
    Finished(Result<Vec<String>, ChatParseError>),
}

/// What a native call returned.
#[derive(Debug)]
pub enum NativeReply {
    /// Reply to [`NativeCall::UpdateState`].
    Updated {
        /// Status of the call.
        status: NativeStatus,
        /// Whether the pointer to the diffs is null.
        diffs_null: bool,
        /// The number of diffs.
        diffs_count: usize,
    },
    /// Reply to [`NativeCall::RenderDiff`].
    Rendered {
        /// Status of the call.
        status: NativeStatus,
        /// Whether the pointer to the rendered string is null.
        string_null: bool,
    },
    /// Reply to [`NativeCall::CopyString`]: the bytes of the string.
    Copied(Vec<u8>),
    /// Reply to the three calls that free something.
    Freed,
}

/// Where an update stands between two native calls.
#[derive(Debug)]
enum Phase {
    Idle,
    Updating,
    Rendering { count: usize, deltas: Vec<String> },
    Copying { count: usize, deltas: Vec<String> },
    FreeingCopied { count: usize, deltas: Vec<String>, bytes: Vec<u8> },
    FreeingRejected { code: i32 },
    FreeingMessage { deltas: Vec<String> },
    FreeingDiffs { deltas: Vec<String> },
}

/// Streaming OpenAI-compatible parser state.
#[derive(Debug)]
pub struct ChatParseStateOaicompat {
    phase: Phase,
}

/// A [`NativeCall`], by its contents.
pub enum CallView {
    UpdateState { text: Seq<u8>, is_partial: bool },
    RenderDiff { index: nat },
    CopyString,
    FreeString,
    FreeMessage,
    FreeDiffs,
    Finished(Result<Seq<Seq<char>>, ChatParseError>),
}

/// A [`NativeReply`], by its contents.
pub enum ReplyView {
    Updated { status: NativeStatus, diffs_null: bool, diffs_count: nat },
    Rendered { status: NativeStatus, string_null: bool },
    Copied(Seq<u8>),
    Freed,
}

/// The state of a session: which native call it waits for, and what it has
/// collected. `deltas` are the texts of the diffs that are done, so their
/// number is the position of the diff at hand.
pub enum PhaseView {
    /// No update is running.
    Idle,
    /// The native parser is being fed.
    Updating,
    /// A diff is being rendered.
    Rendering { count: nat, deltas: Seq<Seq<char>> },
    /// The rendered string is being copied.
    Copying { count: nat, deltas: Seq<Seq<char>> },
    /// The rendered string, which has been copied, is being freed.
    FreeingCopied { count: nat, deltas: Seq<Seq<char>>, bytes: Seq<u8> },
    /// The string of a rendering that failed with this code is being freed.
    FreeingRejected { code: i32 },
    /// All diffs are done and the message is being freed.
    FreeingMessage { deltas: Seq<Seq<char>> },
    /// All diffs are done and they are being freed.
    FreeingDiffs { deltas: Seq<Seq<char>> },
}

/// The texts of some strings.
pub open spec fn texts(strings: Seq<String>) -> Seq<Seq<char>> {
    strings.map_values(|s: String| s@)
}

impl View for NativeCall {
    type V = CallView;

    open spec fn view(&self) -> CallView {
        match *self {
            NativeCall::UpdateState { text, is_partial } => CallView::UpdateState {
                text: text@,
                is_partial,
            },
            NativeCall::RenderDiff { index } => CallView::RenderDiff { index: index as nat },
            NativeCall::CopyString => CallView::CopyString,
            NativeCall::FreeString => CallView::FreeString,
            NativeCall::FreeMessage => CallView::FreeMessage,
            NativeCall::FreeDiffs => CallView::FreeDiffs,
            NativeCall::Finished(Ok(deltas)) => CallView::Finished(Ok(texts(deltas@))),
            NativeCall::Finished(Err(error)) => CallView::Finished(Err(error)),
        }
    }
}

impl View for NativeReply {
    type V = ReplyView;

    open spec fn view(&self) -> ReplyView {
        match *self {
            NativeReply::Updated { status, diffs_null, diffs_count } => ReplyView::Updated {
                status,
                diffs_null,
                diffs_count: diffs_count as nat,
            },
            NativeReply::Rendered { status, string_null } => ReplyView::Rendered {
                status,
                string_null,
            },
            NativeReply::Copied(bytes) => ReplyView::Copied(bytes@),
            NativeReply::Freed => ReplyView::Freed,
        }
    }
}

impl View for ChatParseStateOaicompat {
    type V = PhaseView;

    closed spec fn view(&self) -> PhaseView {
        match self.phase {
            Phase::Idle => PhaseView::Idle,
            Phase::Updating => PhaseView::Updating,
            Phase::Rendering { count, deltas } => PhaseView::Rendering {
                count: count as nat,
                deltas: texts(deltas@),
            },
            Phase::Copying { count, deltas } => PhaseView::Copying {
                count: count as nat,
                deltas: texts(deltas@),
            },
            Phase::FreeingCopied { count, deltas, bytes } => PhaseView::FreeingCopied {
                count: count as nat,
                deltas: texts(deltas@),
                bytes: bytes@,
            },
            Phase::FreeingRejected { code } => PhaseView::FreeingRejected { code },
            Phase::FreeingMessage { deltas } => PhaseView::FreeingMessage {
                deltas: texts(deltas@),
            },
            Phase::FreeingDiffs { deltas } => PhaseView::FreeingDiffs { deltas: texts(deltas@) },
        }
    }
}

/// How an update starts: text with a NUL byte is rejected before any native
/// call, any other text is handed over with a closing NUL byte.
pub open spec fn begin(bytes: Seq<u8>, is_partial: bool) -> (PhaseView, CallView) {
    match bytes.index_of_first(0u8) {
        Some(position) => (
            PhaseView::Idle,
            CallView::Finished(Err(ChatParseError::NulError { position: position as usize })),
        ),
        None => (
            PhaseView::Updating,
            CallView::UpdateState { text: bytes.push(0u8), is_partial },
        ),
    }
}

/// How an update goes on when the diffs before position `deltas.len()` are done:
/// with the diff at that position, or, after the last one, with freeing what the
/// update obtained.
pub open spec fn proceed(count: nat, deltas: Seq<Seq<char>>) -> (PhaseView, CallView) {
    if deltas.len() < count {
        (PhaseView::Rendering { count, deltas }, CallView::RenderDiff { index: deltas.len() })
    } else {
        (PhaseView::FreeingMessage { deltas }, CallView::FreeMessage)
    }
}

/// How an update ends early.
pub open spec fn fail(error: ChatParseError) -> (PhaseView, CallView) {
    (PhaseView::Idle, CallView::Finished(Err(error)))
}

/// Whether a reply answers the call that a session waits for.
pub open spec fn accepts(phase: PhaseView, reply: ReplyView) -> bool {
    match phase {
        PhaseView::Idle => false,
        PhaseView::Updating => reply is Updated,
        PhaseView::Rendering { .. } => reply is Rendered,
        PhaseView::Copying { .. } => reply is Copied,
        PhaseView::FreeingCopied { .. } => reply is Freed,
        PhaseView::FreeingRejected { .. } => reply is Freed,
        PhaseView::FreeingMessage { .. } => reply is Freed,
        PhaseView::FreeingDiffs { .. } => reply is Freed,
    }
}

/// How an update goes on after a reply: the next state and the next call.
pub open spec fn step(phase: PhaseView, reply: ReplyView) -> (PhaseView, CallView)
    recommends
        accepts(phase, reply),
{
    match (phase, reply) {
        (PhaseView::Updating, ReplyView::Updated { status, diffs_null, diffs_count }) => {
            match status {
                NativeStatus::Failure(code) => fail(ChatParseError::FfiError(code)),
                NativeStatus::Success => if diffs_count > 0 && diffs_null {
                    fail(ChatParseError::NullResult)
                } else {
                    proceed(diffs_count, Seq::empty())
                },
            }
        },
        (PhaseView::Rendering { count, deltas }, ReplyView::Rendered { status, string_null }) => {
            match status {
                NativeStatus::Failure(code) => if string_null {
                    fail(ChatParseError::FfiError(code))
                } else {
                    (PhaseView::FreeingRejected { code }, CallView::FreeString)
                },
                NativeStatus::Success => if string_null {
                    fail(ChatParseError::NullResult)
                } else {
                    (PhaseView::Copying { count, deltas }, CallView::CopyString)
                },
            }
        },
        (PhaseView::Copying { count, deltas }, ReplyView::Copied(bytes)) => {
            (PhaseView::FreeingCopied { count, deltas, bytes }, CallView::FreeString)
        },
        (PhaseView::FreeingCopied { count, deltas, bytes }, ReplyView::Freed) => {
            if valid_utf8(bytes) {
                proceed(count, deltas.push(decode_utf8(bytes)))
            } else {
                fail(ChatParseError::Utf8Error(utf8_error(bytes)))
            }
        },
        (PhaseView::FreeingRejected { code }, ReplyView::Freed) => {
            fail(ChatParseError::FfiError(code))
        },
        (PhaseView::FreeingMessage { deltas }, ReplyView::Freed) => {
            (PhaseView::FreeingDiffs { deltas }, CallView::FreeDiffs)
        },
        (PhaseView::FreeingDiffs { deltas }, ReplyView::Freed) => {
            (PhaseView::Idle, CallView::Finished(Ok(deltas)))
        },
        _ => (phase, arbitrary()),
    }
}

/// Whether `from_json` can read some JSON strings as some deltas, one for one.
pub open spec fn reads_as<F>(
    from_json: F,
    jsons: Seq<String>,
    deltas: Seq<ChatMessageDeltaOaicompat>,
) -> bool where F: Fn(&String) -> Result<ChatMessageDeltaOaicompat, serde_json::Error> {
    &&& deltas.len() == jsons.len()
    &&& forall|i: int|
        0 <= i < jsons.len() ==> call_ensures(
            from_json,
            (&#[trigger] jsons[i],),
            Ok(deltas[i]),
        )
}

/// Whether `from_json` can reject the JSON string at a position with an error, after
/// it has read those before.
pub open spec fn rejected_at<F>(
    from_json: F,
    jsons: Seq<String>,
    position: int,
    error: serde_json::Error,
) -> bool where F: Fn(&String) -> Result<ChatMessageDeltaOaicompat, serde_json::Error> {
    &&& 0 <= position < jsons.len()
    &&& exists|deltas: Seq<ChatMessageDeltaOaicompat>|
        reads_as(from_json, jsons.take(position), deltas)
    &&& call_ensures(from_json, (&jsons[position],), Err(error))
}

/// What reading the JSON strings of an update gives: all their deltas, or the error
/// for the first one that `from_json` rejects.
pub open spec fn typed_deltas<F>(
    from_json: F,
    jsons: Seq<String>,
    typed: Result<Vec<ChatMessageDeltaOaicompat>, ChatParseError>,
) -> bool where F: Fn(&String) -> Result<ChatMessageDeltaOaicompat, serde_json::Error> {
    match typed {
        Ok(deltas) => reads_as(from_json, jsons, deltas@),
        Err(error) => {
            &&& error is JsonError
            &&& exists|position: int| rejected_at(from_json, jsons, position, error->JsonError_0)
        },
    }
}

/// The position of the first NUL byte.
fn nul_position(bytes: &Vec<u8>) -> (position: Option<usize>)
    ensures
        position matches Some(p) ==> bytes@.index_of_first(0u8) == Some(p as int),
        position is None ==> bytes@.index_of_first(0u8) is None,
{
    proof {
        bytes@.index_of_first_ensures(0u8);
    }
    for i in 0..bytes.len()
        invariant
            forall|j: int| 0 <= j < i ==> bytes@[j] != 0u8,
            bytes@.index_of_first(0u8) matches Some(p) ==> 0 <= p < bytes@.len() && bytes@[p]
                == 0u8,
            bytes@.contains(0u8) ==> bytes@.index_of_first(0u8) is Some,
            bytes@.index_of_first(0u8) matches Some(p) ==> forall|j: int|
                0 <= j < p ==> bytes@[j] != 0u8,
    {
        if bytes[i] == 0 {
            return Some(i);
        }
    }
    None
}

impl ChatParseStateOaicompat {
    /// A session between two updates.
    pub fn new() -> (session: Self)
        ensures
            session@ is Idle,
    {
        ChatParseStateOaicompat { phase: Phase::Idle }
    }

    /// Whether the session is between two updates.
    pub fn is_idle(&self) -> (idle: bool)
        ensures
            idle == (self@ is Idle),
    {
        matches!(self.phase, Phase::Idle)
    }

    /// Whether a reply answers the call that the session waits for.
    pub fn accepts(&self, reply: &NativeReply) -> (accepted: bool)
        ensures
            accepted == accepts(self@, reply@),
            accepted == match self@ {
                PhaseView::Idle => false,
                PhaseView::Updating => *reply is Updated,
                PhaseView::Rendering { .. } => *reply is Rendered,
                PhaseView::Copying { .. } => *reply is Copied,
                _ => *reply is Freed,
            },
    {
        match (&self.phase, reply) {
            (Phase::Updating, NativeReply::Updated { .. }) => true,
            (Phase::Rendering { .. }, NativeReply::Rendered { .. }) => true,
            (Phase::Copying { .. }, NativeReply::Copied(_)) => true,
            (Phase::FreeingCopied { .. }, NativeReply::Freed) => true,
            (Phase::FreeingRejected { .. }, NativeReply::Freed) => true,
            (Phase::FreeingMessage { .. }, NativeReply::Freed) => true,
            (Phase::FreeingDiffs { .. }, NativeReply::Freed) => true,
            _ => false,
        }
    }

    /// Update the parser with additional text: the first call of the update.
    pub fn update(&mut self, text_added: &str, is_partial: bool) -> (call: NativeCall)
        requires
            old(self)@ is Idle,
        ensures
            (final(self)@, call@) == begin(encode_utf8(text_added@), is_partial),
            !text_added@.contains('\0') ==> {
                &&& call matches NativeCall::UpdateState { text, is_partial: handed }
                &&& text@ == encode_utf8(text_added@).push(0u8)
                &&& handed == is_partial
                &&& final(self)@ == PhaseView::Updating
            },
            text_added@.contains('\0') ==> {
                &&& call matches NativeCall::Finished(Err(ChatParseError::NulError { position }))
                &&& position < encode_utf8(text_added@).len()
                &&& encode_utf8(text_added@)[position as int] == 0u8
                &&& forall|j: int| 0 <= j < position ==> encode_utf8(text_added@)[j] != 0u8
                &&& final(self)@ == PhaseView::Idle
            },
    {
        let mut text = text_added.as_bytes_vec();
        proof {
            nul_bytes_are_nul_characters(text_added@);
            text@.index_of_first_ensures(0u8);
        }
        match nul_position(&text) {
            Some(position) => NativeCall::Finished(Err(ChatParseError::NulError { position })),
            None => {
                text.push(0);
                self.phase = Phase::Updating;
                NativeCall::UpdateState { text, is_partial }
            },
        }
    }

    /// Go on after a native call: the next call of the update.
    pub fn resume(&mut self, reply: NativeReply) -> (call: NativeCall)
        requires
            accepts(old(self)@, reply@),
        ensures
            (final(self)@, call@) == step(old(self)@, reply@),
            reply matches NativeReply::Updated { status: NativeStatus::Failure(code), .. } ==> {
                &&& call == NativeCall::Finished(Err(ChatParseError::FfiError(code)))
                &&& final(self)@ == PhaseView::Idle
            },
            reply matches NativeReply::Updated {
                status: NativeStatus::Success,
                diffs_null,
                diffs_count,
            } ==> if diffs_count > 0 && diffs_null {
                &&& call == NativeCall::Finished(Err(ChatParseError::NullResult))
                &&& final(self)@ == PhaseView::Idle
            } else if diffs_count > 0 {
                &&& call == NativeCall::RenderDiff { index: 0 }
                &&& final(self)@ == (PhaseView::Rendering {
                    count: diffs_count as nat,
                    deltas: Seq::empty(),
                })
            } else {
                &&& call is FreeMessage
                &&& final(self)@ == (PhaseView::FreeingMessage { deltas: Seq::empty() })
            },
            reply matches NativeReply::Rendered { status: NativeStatus::Failure(code), string_null }
                ==> if string_null {
                &&& call == NativeCall::Finished(Err(ChatParseError::FfiError(code)))
                &&& final(self)@ == PhaseView::Idle
            } else {
                &&& call is FreeString
                &&& final(self)@ == (PhaseView::FreeingRejected { code })
            },
            reply matches NativeReply::Rendered { status: NativeStatus::Success, string_null }
                ==> old(self)@ matches PhaseView::Rendering { count, deltas } ==> if string_null {
                &&& call == NativeCall::Finished(Err(ChatParseError::NullResult))
                &&& final(self)@ == PhaseView::Idle
            } else {
                &&& call is CopyString
                &&& final(self)@ == (PhaseView::Copying { count, deltas })
            },
            reply matches NativeReply::Copied(bytes) ==> old(self)@ matches PhaseView::Copying {
                count,
                deltas,
            } ==> {
                &&& call is FreeString
                &&& final(self)@ == (PhaseView::FreeingCopied { count, deltas, bytes: bytes@ })
            },
            old(self)@ matches PhaseView::FreeingCopied { count, deltas, bytes } ==> if !valid_utf8(
                bytes,
            ) {
                &&& call == NativeCall::Finished(Err(ChatParseError::Utf8Error(utf8_error(bytes))))
                &&& final(self)@ == PhaseView::Idle
            } else if deltas.len() + 1 < count {
                &&& call matches NativeCall::RenderDiff { index }
                &&& index == deltas.len() + 1
                &&& final(self)@ == (PhaseView::Rendering {
                    count,
                    deltas: deltas.push(decode_utf8(bytes)),
                })
            } else {
                &&& call is FreeMessage
                &&& final(self)@ == (PhaseView::FreeingMessage {
                    deltas: deltas.push(decode_utf8(bytes)),
                })
            },
            old(self)@ matches PhaseView::FreeingRejected { code } ==> {
                &&& call == NativeCall::Finished(Err(ChatParseError::FfiError(code)))
                &&& final(self)@ == PhaseView::Idle
            },
            old(self)@ matches PhaseView::FreeingMessage { deltas } ==> {
                &&& call is FreeDiffs
                &&& final(self)@ == (PhaseView::FreeingDiffs { deltas })
            },
            old(self)@ matches PhaseView::FreeingDiffs { deltas } ==> {
                &&& call matches NativeCall::Finished(Ok(strings))
                &&& strings@.len() == deltas.len()
                &&& forall|i: int|
                    0 <= i < deltas.len() ==> (#[trigger] strings@[i])@ == deltas[i]
                &&& final(self)@ == PhaseView::Idle
            },
    {
        let mut phase = Phase::Idle;
        core::mem::swap(&mut self.phase, &mut phase);
        match (phase, reply) {
            (Phase::Updating, NativeReply::Updated { status, diffs_null, diffs_count }) => {
                match status {
                    NativeStatus::Failure(code) => NativeCall::Finished(
                        Err(ChatParseError::FfiError(code)),
                    ),
                    NativeStatus::Success => {
                        if diffs_count > 0 && diffs_null {
                            NativeCall::Finished(Err(ChatParseError::NullResult))
                        } else {
                            let deltas = Vec::new();
                            assert(texts(deltas@) == Seq::<Seq<char>>::empty());
                            self.proceed(diffs_count, deltas)
                        }
                    },
                }
            },
            (Phase::Rendering { count, deltas }, NativeReply::Rendered { status, string_null }) => {
                match status {
                    NativeStatus::Failure(code) => {
                        if string_null {
                            NativeCall::Finished(Err(ChatParseError::FfiError(code)))
                        } else {
                            self.phase = Phase::FreeingRejected { code };
                            NativeCall::FreeString
                        }
                    },
                    NativeStatus::Success => {
                        if string_null {
                            NativeCall::Finished(Err(ChatParseError::NullResult))
                        } else {
                            self.phase = Phase::Copying { count, deltas };
                            NativeCall::CopyString
                        }
                    },
                }
            },
            (Phase::Copying { count, deltas }, NativeReply::Copied(bytes)) => {
                self.phase = Phase::FreeingCopied { count, deltas, bytes };
                NativeCall::FreeString
            },
            (Phase::FreeingCopied { count, deltas, bytes }, NativeReply::Freed) => {
                match String::from_utf8(bytes) {
                    Ok(delta) => {
                        let mut deltas = deltas;
                        let ghost before = texts(deltas@);
                        proof {
                            encode_utf8_decode_utf8(delta@);
                        }
                        deltas.push(delta);
                        assert(texts(deltas@) == before.push(delta@));
                        self.proceed(count, deltas)
                    },
                    Err(error) => NativeCall::Finished(Err(ChatParseError::from(error))),
                }
            },
            (Phase::FreeingRejected { code }, NativeReply::Freed) => NativeCall::Finished(
                Err(ChatParseError::FfiError(code)),
            ),
            (Phase::FreeingMessage { deltas }, NativeReply::Freed) => {
                self.phase = Phase::FreeingDiffs { deltas };
                NativeCall::FreeDiffs
            },
            (Phase::FreeingDiffs { deltas }, NativeReply::Freed) => NativeCall::Finished(Ok(deltas)),
            _ => vstd::pervasive::unreached(),
        }
    }

    /// Turn what an update returned into typed OpenAI-compatible deltas, by reading
    /// each of its JSON strings with `from_json`.
    ///
    /// The error of the update is passed on; else all strings are read, in their
    /// order and up to the first that `from_json` rejects.
    pub fn update_typed<F>(
        updated: Result<Vec<String>, ChatParseError>,
        from_json: F,
    ) -> (typed: Result<Vec<ChatMessageDeltaOaicompat>, ChatParseError>) where
        F: Fn(&String) -> Result<ChatMessageDeltaOaicompat, serde_json::Error>,

        requires
            updated matches Ok(jsons) ==> forall|i: int|
                0 <= i < jsons@.len() ==> call_requires(from_json, (&#[trigger] jsons@[i],)),
        ensures
            updated matches Err(error) ==> typed == Err::<Vec<ChatMessageDeltaOaicompat>, _>(error),
            updated matches Ok(jsons) ==> typed_deltas(from_json, jsons@, typed),
            updated matches Ok(jsons) ==> typed matches Ok(deltas) ==> {
                &&& deltas@.len() == jsons@.len()
                &&& forall|i: int|
                    0 <= i < jsons@.len() ==> call_ensures(
                        from_json,
                        (&#[trigger] jsons@[i],),
                        Ok(deltas@[i]),
                    )
            },
            updated matches Ok(jsons) ==> typed matches Err(rejection) ==> {
                &&& rejection matches ChatParseError::JsonError(error)
                &&& exists|position: int, before: Seq<ChatMessageDeltaOaicompat>|
                    #![trigger jsons@[position], before.len()]
                    {
                        &&& 0 <= position < jsons@.len()
                        &&& call_ensures(from_json, (&jsons@[position],), Err(error))
                        &&& before.len() == position
                        &&& forall|j: int|
                            0 <= j < position ==> call_ensures(
                                from_json,
                                (&#[trigger] jsons@[j],),
                                Ok(before[j]),
                            )
                    }
            },
    {
        match updated {
            // The conversion that `?` makes, which leaves the error as it is.
            Err(error) => Err(ChatParseError::from(error)),
            Ok(jsons) => {
                let mut deltas: Vec<ChatMessageDeltaOaicompat> = Vec::new();
                for i in 0..jsons.len()
                    invariant
                        updated == Ok::<Vec<String>, ChatParseError>(jsons),
                        forall|i: int|
                            0 <= i < jsons@.len() ==> call_requires(
                                from_json,
                                (&#[trigger] jsons@[i],),
                            ),
                        reads_as(from_json, jsons@.take(i as int), deltas@),
                {
                    match from_json(&jsons[i]) {
                        Ok(delta) => {
                            deltas.push(delta);
                        },
                        Err(error) => {
                            let rejection = ChatParseError::from(error);
                            assert forall|j: int| 0 <= j < i implies call_ensures(
                                from_json,
                                (&#[trigger] jsons@[j],),
                                Ok(deltas@[j]),
                            ) by {
                                assert(jsons@.take(i as int)[j] == jsons@[j]);
                            }
                            assert(jsons@.take(i as int).len() == deltas@.len());
                            assert(call_ensures(from_json, (&jsons@[i as int],), Err(error)));
                            assert(rejected_at(
                                from_json,
                                jsons@,
                                i as int,
                                rejection->JsonError_0,
                            ));
                            assert(rejection->JsonError_0 == error && updated->Ok_0 == jsons);
                            return Err(rejection);
                        },
                    }
                }
                assert(jsons@.take(jsons@.len() as int) == jsons@);
                Ok(deltas)
            },
        }
    }

    /// Go on with the next diff, or with freeing what the update obtained.
    fn proceed(&mut self, count: usize, deltas: Vec<String>) -> (call: NativeCall)
        ensures
            (final(self)@, call@) == proceed(count as nat, texts(deltas@)),
    {
        let index = deltas.len();
        if index < count {
            self.phase = Phase::Rendering { count, deltas };
            NativeCall::RenderDiff { index }
        } else {
            self.phase = Phase::FreeingMessage { deltas };
            NativeCall::FreeMessage
        }
    }
}

} // verus!
