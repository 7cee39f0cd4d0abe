//! What holds of whole updates of a parse session: which native calls are made,
//! in which order, what becomes of the memory that they hand out, and what the
//! update returns.
use vstd::prelude::*;
use vstd::utf8::{decode_utf8, encode_scalar, encode_utf8, valid_utf8};

use crate::openai::error::ChatParseError;
use crate::openai::parse_state::{
    accepts, begin, proceed, step, CallView, NativeStatus, PhaseView, ReplyView,
};
use crate::trusted::utf8_error;

verus! {

/// What comes back when one diff is rendered.
pub struct RenderedDiff {
    /// Status of the call.
    pub status: NativeStatus,
    /// The bytes of the rendered string, if it is not null.
    pub string: Option<Seq<u8>>,
}

/// What the native library does in the course of one update.
pub struct NativeRun {
    /// Status of the call that feeds the text.
    pub status: NativeStatus,
    /// Whether the pointer to the diffs is null.
    pub diffs_null: bool,
    /// What rendering each diff gives; there are as many as the native library
    /// counts.
    pub diffs: Seq<RenderedDiff>,
}

/// The reply of the native library to the call that a session waits for.
pub open spec fn answer(run: NativeRun, phase: PhaseView) -> ReplyView {
    match phase {
        PhaseView::Updating => ReplyView::Updated {
            status: run.status,
            diffs_null: run.diffs_null,
            diffs_count: run.diffs.len(),
        },
        PhaseView::Rendering { deltas, .. } => ReplyView::Rendered {
            status: run.diffs[deltas.len() as int].status,
            string_null: run.diffs[deltas.len() as int].string is None,
        },
        PhaseView::Copying { deltas, .. } => ReplyView::Copied(
            run.diffs[deltas.len() as int].string->0,
        ),
        _ => ReplyView::Freed,
    }
}

/// The reply of the native library always answers the call that a running session
/// waits for, so a session that has started an update can go on to its end.
pub proof fn native_replies_are_accepted(run: NativeRun, phase: PhaseView)
    requires
        !(phase is Idle),
    ensures
        accepts(phase, answer(run, phase)),
{
}

/// An upper bound on the number of calls that are still to come.
pub open spec fn calls_left(run: NativeRun, phase: PhaseView) -> nat {
    match phase {
        PhaseView::Idle => 0,
        PhaseView::Updating => 3 * run.diffs.len() + 6,
        PhaseView::Rendering { count, deltas } => 3 * diffs_left(count, deltas) + 5,
        PhaseView::Copying { count, deltas } => 3 * diffs_left(count, deltas) + 4,
        PhaseView::FreeingCopied { count, deltas, .. } => 3 * diffs_left(count, deltas) + 3,
        PhaseView::FreeingRejected { .. } => 1,
        PhaseView::FreeingMessage { .. } => 2,
        PhaseView::FreeingDiffs { .. } => 1,
    }
}

/// The number of diffs that are not done.
pub open spec fn diffs_left(count: nat, deltas: Seq<Seq<char>>) -> nat {
    if deltas.len() < count {
        (count - deltas.len()) as nat
    } else {
        0
    }
}

/// The calls that a session asks for, from a state and the call that leads to it
/// up to the end of the update.
pub open spec fn calls_from(run: NativeRun, at: (PhaseView, CallView)) -> Seq<CallView>
    decreases calls_left(run, at.0),
{
    if at.0 is Idle {
        seq![at.1]
    } else {
        seq![at.1] + calls_from(run, step(at.0, answer(run, at.0)))
    }
}

/// The calls of a whole update.
pub open spec fn update_calls(text: Seq<char>, is_partial: bool, run: NativeRun) -> Seq<CallView> {
    calls_from(run, begin(encode_utf8(text), is_partial))
}

/// Whether a rendered diff becomes a delta.
pub open spec fn renders(diff: RenderedDiff) -> bool {
    &&& diff.status is Success
    &&& diff.string matches Some(bytes) && valid_utf8(bytes)
}

/// The error for a diff that does not become a delta.
pub open spec fn diff_error(diff: RenderedDiff) -> ChatParseError {
    match (diff.status, diff.string) {
        (NativeStatus::Failure(code), _) => ChatParseError::FfiError(code),
        (NativeStatus::Success, None) => ChatParseError::NullResult,
        (NativeStatus::Success, Some(bytes)) => ChatParseError::Utf8Error(utf8_error(bytes)),
    }
}

/// The number of diffs before the first one that does not become a delta.
pub open spec fn leading(diffs: Seq<RenderedDiff>) -> nat
    decreases diffs.len(),
{
    if diffs.len() > 0 && renders(diffs[0]) {
        1 + leading(diffs.drop_first())
    } else {
        0
    }
}

/// The texts of the first `n` diffs.
pub open spec fn diff_texts(diffs: Seq<RenderedDiff>, n: nat) -> Seq<Seq<char>> {
    Seq::new(n, |i: int| decode_utf8(diffs[i].string->0))
}

/// What an update returns.
pub open spec fn outcome(text: Seq<char>, run: NativeRun) -> Result<
    Seq<Seq<char>>,
    ChatParseError,
> {
    match encode_utf8(text).index_of_first(0u8) {
        Some(position) => Err(ChatParseError::NulError { position: position as usize }),
        None => match run.status {
            NativeStatus::Failure(code) => Err(ChatParseError::FfiError(code)),
            NativeStatus::Success => {
                if run.diffs.len() > 0 && run.diffs_null {
                    Err(ChatParseError::NullResult)
                } else if leading(run.diffs) < run.diffs.len() {
                    Err(diff_error(run.diffs[leading(run.diffs) as int]))
                } else {
                    Ok(diff_texts(run.diffs, run.diffs.len()))
                }
            },
        },
    }
}

/// The calls for a diff that becomes a delta.
pub open spec fn delta_calls(index: nat) -> Seq<CallView> {
    seq![CallView::RenderDiff { index }, CallView::CopyString, CallView::FreeString]
}

/// The calls for the first `n` diffs, when they become deltas.
pub open spec fn deltas_calls(n: nat) -> Seq<CallView>
    decreases n,
{
    if n == 0 {
        Seq::empty()
    } else {
        deltas_calls((n - 1) as nat) + delta_calls((n - 1) as nat)
    }
}

/// The calls for a diff that does not become a delta.
pub open spec fn rejected_calls(index: nat, diff: RenderedDiff) -> Seq<CallView> {
    match (diff.status, diff.string) {
        (_, None) => seq![CallView::RenderDiff { index }],
        (NativeStatus::Failure(_), Some(_)) => seq![
            CallView::RenderDiff { index },
            CallView::FreeString,
        ],
        (NativeStatus::Success, Some(_)) => delta_calls(index),
    }
}

/// The native calls of an update between the one that feeds the text and the end.
pub open spec fn diffs_calls(run: NativeRun) -> Seq<CallView> {
    let n = leading(run.diffs);
    if n < run.diffs.len() {
        deltas_calls(n) + rejected_calls(n, run.diffs[n as int])
    } else {
        deltas_calls(n) + seq![CallView::FreeMessage, CallView::FreeDiffs]
    }
}

/// All diffs before the first one that does not become a delta become deltas.
pub proof fn leading_diffs_render(diffs: Seq<RenderedDiff>)
    ensures
        leading(diffs) <= diffs.len(),
        forall|i: int| 0 <= i < leading(diffs) ==> renders(#[trigger] diffs[i]),
        leading(diffs) < diffs.len() ==> !renders(diffs[leading(diffs) as int]),
    decreases diffs.len(),
{
    if diffs.len() > 0 && renders(diffs[0]) {
        let rest = diffs.drop_first();
        leading_diffs_render(rest);
        assert forall|i: int| 0 <= i < leading(diffs) implies renders(#[trigger] diffs[i]) by {
            if i > 0 {
                assert(diffs[i] == rest[i - 1]);
            }
        }
    }
}

/// A session that is about to go on with the diff at position `n` has made the
/// calls for the diffs before it, if those become deltas.
proof fn calls_of_leading_diffs(run: NativeRun, n: nat)
    requires
        n <= leading(run.diffs),
    ensures
        calls_from(run, proceed(run.diffs.len(), Seq::empty())) == deltas_calls(n) + calls_from(
            run,
            proceed(run.diffs.len(), diff_texts(run.diffs, n)),
        ),
    decreases n,
{
    leading_diffs_render(run.diffs);
    let count = run.diffs.len();
    if n == 0 {
        assert(diff_texts(run.diffs, 0) == Seq::<Seq<char>>::empty());
        let rest = calls_from(run, proceed(count, Seq::empty()));
        assert(deltas_calls(0) + rest == rest);
    } else {
        let m = (n - 1) as nat;
        calls_of_leading_diffs(run, m);
        let deltas = diff_texts(run.diffs, m);
        let diff = run.diffs[m as int];
        assert(renders(diff));
        let bytes = diff.string->0;
        assert(diff_texts(run.diffs, n) == deltas.push(decode_utf8(bytes)));
        let rendering = proceed(count, deltas);
        let copying = step(rendering.0, answer(run, rendering.0));
        let freeing = step(copying.0, answer(run, copying.0));
        let next = step(freeing.0, answer(run, freeing.0));
        assert(rendering.0 == PhaseView::Rendering { count, deltas });
        assert(copying.0 == PhaseView::Copying { count, deltas });
        assert(freeing.0 == PhaseView::FreeingCopied { count, deltas, bytes });
        assert(next == proceed(count, diff_texts(run.diffs, n)));
        assert(calls_from(run, rendering) == seq![rendering.1] + calls_from(run, copying));
        assert(calls_from(run, copying) == seq![copying.1] + calls_from(run, freeing));
        assert(calls_from(run, freeing) == seq![freeing.1] + calls_from(run, next));
        assert(calls_from(run, rendering) == delta_calls(m) + calls_from(run, next));
        assert(deltas_calls(m) + (delta_calls(m) + calls_from(run, next)) == deltas_calls(n)
            + calls_from(run, next));
    }
}

/// The calls of an update whose native parser accepts the text and yields its
/// diffs: the diffs are rendered one after the other, in their order and up to
/// the first that does not become a delta; each rendered string is freed before
/// anything else happens; and if all became deltas, the message and the diffs
/// are freed at the end.
proof fn calls_of_accepted_update(run: NativeRun)
    ensures
        calls_from(run, proceed(run.diffs.len(), Seq::empty())) == diffs_calls(run).push(
            CallView::Finished(
                if leading(run.diffs) < run.diffs.len() {
                    Err(diff_error(run.diffs[leading(run.diffs) as int]))
                } else {
                    Ok(diff_texts(run.diffs, run.diffs.len()))
                },
            ),
        ),
{
    leading_diffs_render(run.diffs);
    let n = leading(run.diffs);
    let count = run.diffs.len();
    let deltas = diff_texts(run.diffs, n);
    calls_of_leading_diffs(run, n);
    let first = proceed(count, deltas);
    reveal_with_fuel(calls_from, 5);
    if n < count {
        let diff = run.diffs[n as int];
        let finished = CallView::Finished(Err(diff_error(diff)));
        assert(calls_from(run, first) == rejected_calls(n, diff).push(finished));
        assert(deltas_calls(n) + rejected_calls(n, diff).push(finished) == (deltas_calls(n)
            + rejected_calls(n, diff)).push(finished));
    } else {
        let finished = CallView::Finished(Ok(deltas));
        let freeing = seq![CallView::FreeMessage, CallView::FreeDiffs];
        assert(calls_from(run, first) == freeing.push(finished));
        assert(deltas_calls(n) + freeing.push(finished) == (deltas_calls(n) + freeing).push(
            finished,
        ));
    }
}

/// The native calls of a whole update.
pub open spec fn native_calls(text: Seq<char>, is_partial: bool, run: NativeRun) -> Seq<CallView> {
    let bytes = encode_utf8(text);
    if bytes.contains(0u8) {
        Seq::empty()
    } else {
        let feed = seq![CallView::UpdateState { text: bytes.push(0u8), is_partial }];
        if run.status is Failure || (run.diffs.len() > 0 && run.diffs_null) {
            feed
        } else {
            feed + diffs_calls(run)
        }
    }
}

/// Whatever the native library does, an update makes exactly the calls of
/// `native_calls` and then finishes with `outcome`.
///
/// So text with a NUL byte reaches no native code; the diffs are rendered in
/// their order, none twice, and none after one that fails; and the deltas of a
/// successful update are the texts of all its diffs, in their order.
pub proof fn update_makes_its_calls_and_finishes(text: Seq<char>, is_partial: bool, run: NativeRun)
    ensures
        update_calls(text, is_partial, run) == native_calls(text, is_partial, run).push(
            CallView::Finished(outcome(text, run)),
        ),
{
    let bytes = encode_utf8(text);
    bytes.index_of_first_ensures(0u8);
    let first = begin(bytes, is_partial);
    if !bytes.contains(0u8) {
        let second = step(first.0, answer(run, first.0));
        assert(calls_from(run, first) == seq![first.1] + calls_from(run, second));
        if run.status is Success && !(run.diffs.len() > 0 && run.diffs_null) {
            calls_of_accepted_update(run);
            assert(second == proceed(run.diffs.len(), Seq::empty()));
            let finished = CallView::Finished(outcome(text, run));
            assert(seq![first.1] + diffs_calls(run).push(finished) == (seq![first.1] + diffs_calls(
                run,
            )).push(finished));
        }
    }
}

/// How often a call is made.
pub open spec fn count(calls: Seq<CallView>, call: CallView) -> nat
    decreases calls.len(),
{
    if calls.len() == 0 {
        0
    } else {
        count(calls.drop_last(), call) + if calls.last() == call {
            1nat
        } else {
            0
        }
    }
}

proof fn count_of_concatenation(a: Seq<CallView>, b: Seq<CallView>, call: CallView)
    ensures
        count(a + b, call) == count(a, call) + count(b, call),
    decreases b.len(),
{
    if b.len() == 0 {
        assert(a + b == a);
    } else {
        count_of_concatenation(a, b.drop_last(), call);
        assert((a + b).drop_last() == a + b.drop_last());
    }
}

proof fn count_in_deltas_calls(n: nat, call: CallView)
    requires
        !(call is RenderDiff),
        !(call is CopyString),
    ensures
        count(deltas_calls(n), call) == if call is FreeString {
            n
        } else {
            0
        },
    decreases n,
{
    if n > 0 {
        let m = (n - 1) as nat;
        count_in_deltas_calls(m, call);
        count_of_concatenation(deltas_calls(m), delta_calls(m), call);
        reveal_with_fuel(count, 4);
        let calls = delta_calls(m);
        assert(calls.drop_last() == seq![CallView::RenderDiff { index: m }, CallView::CopyString]);
        assert(calls.drop_last().drop_last() == seq![CallView::RenderDiff { index: m }]);
    }
}

/// The number of strings that the native library hands out in an update: one for
/// each diff that becomes a delta, and one for the diff that does not, if its
/// rendering gave one all the same.
pub open spec fn strings_handed_out(text: Seq<char>, run: NativeRun) -> nat {
    let n = leading(run.diffs);
    if encode_utf8(text).contains(0u8) || run.status is Failure || (run.diffs.len() > 0
        && run.diffs_null) {
        0
    } else if n < run.diffs.len() && run.diffs[n as int].string is Some {
        n + 1
    } else {
        n
    }
}

/// Every string that the native library hands out in an update is freed in that
/// update, and nothing else is freed as a string.
pub proof fn update_frees_every_string(text: Seq<char>, is_partial: bool, run: NativeRun)
    ensures
        count(native_calls(text, is_partial, run), CallView::FreeString)
            == strings_handed_out(text, run),
{
    count_in_native_calls(text, is_partial, run, CallView::FreeString);
}

/// An update that succeeds frees the message and the diffs, each once; one that
/// fails frees neither.
pub proof fn update_frees_its_results_on_success(text: Seq<char>, is_partial: bool, run: NativeRun)
    ensures
        count(native_calls(text, is_partial, run), CallView::FreeMessage) == if outcome(
            text,
            run,
        ) is Ok {
            1nat
        } else {
            0
        },
        count(native_calls(text, is_partial, run), CallView::FreeDiffs) == if outcome(
            text,
            run,
        ) is Ok {
            1nat
        } else {
            0
        },
{
    count_in_native_calls(text, is_partial, run, CallView::FreeMessage);
    count_in_native_calls(text, is_partial, run, CallView::FreeDiffs);
}

proof fn rejected_calls_by_length(index: nat, diff: RenderedDiff)
    ensures
        ({
            let calls = rejected_calls(index, diff);
            let render = seq![CallView::RenderDiff { index }];
            &&& calls.len() == 1 ==> calls == render
            &&& calls.len() == 2 ==> calls.drop_last() == render
            &&& calls.len() == 3 ==> calls.drop_last() == seq![
                CallView::RenderDiff { index },
                CallView::CopyString,
            ]
            &&& calls.len() == 3 ==> calls.drop_last().drop_last() == render
        }),
{
}

/// How often a call that frees something is made in an update.
proof fn count_in_native_calls(text: Seq<char>, is_partial: bool, run: NativeRun, call: CallView)
    requires
        call is FreeString || call is FreeMessage || call is FreeDiffs,
    ensures
        count(native_calls(text, is_partial, run), call) == if call is FreeString {
            strings_handed_out(text, run)
        } else if outcome(text, run) is Ok {
            1
        } else {
            0
        },
{
    let n = leading(run.diffs);
    let bytes = encode_utf8(text);
    bytes.index_of_first_ensures(0u8);
    leading_diffs_render(run.diffs);
    count_in_deltas_calls(n, call);
    let feed = seq![CallView::UpdateState { text: bytes.push(0u8), is_partial }];
    reveal_with_fuel(count, 4);
    count_of_concatenation(feed, diffs_calls(run), call);
    if n < run.diffs.len() {
        let diff = run.diffs[n as int];
        count_of_concatenation(deltas_calls(n), rejected_calls(n, diff), call);
        rejected_calls_by_length(n, diff);
    } else {
        let freeing = seq![CallView::FreeMessage, CallView::FreeDiffs];
        count_of_concatenation(deltas_calls(n), freeing, call);
        assert(freeing.drop_last() == seq![CallView::FreeMessage]);
    }
}

/// The number of native strings that a session holds.
pub open spec fn strings_held(phase: PhaseView) -> int {
    match phase {
        PhaseView::Copying { .. } => 1,
        PhaseView::FreeingCopied { .. } => 1,
        PhaseView::FreeingRejected { .. } => 1,
        _ => 0,
    }
}

/// In every state and for every reply, a session holds exactly the strings that
/// were handed to it and that it has not had freed. An idle session holds none.
pub proof fn every_step_accounts_for_strings(phase: PhaseView, reply: ReplyView)
    requires
        accepts(phase, reply),
    ensures
        ({
            let (next, call) = step(phase, reply);
            let handed: int = if reply matches ReplyView::Rendered { string_null, .. }
                && !string_null {
                1
            } else {
                0
            };
            let freed: int = if phase is FreeingCopied || phase is FreeingRejected {
                1
            } else {
                0
            };
            &&& strings_held(next) == strings_held(phase) + handed - freed
            &&& call is FreeString <==> next is FreeingCopied || next is FreeingRejected
        }),
        strings_held(PhaseView::Idle) == 0,
{
}

/// A session is idle exactly when its update is over, so the next update can
/// start after every result, be it a success or an error.
pub proof fn session_is_idle_exactly_when_finished(
    bytes: Seq<u8>,
    is_partial: bool,
    phase: PhaseView,
    reply: ReplyView,
)
    requires
        accepts(phase, reply),
    ensures
        begin(bytes, is_partial).0 is Idle <==> begin(bytes, is_partial).1 is Finished,
        ({
            let (next, call) = step(phase, reply);
            next is Idle <==> call is Finished
        }),
{
}

proof fn nul_in_encoded_char(c: char)
    ensures
        encode_scalar(c as u32).contains(0u8) <==> c == '\0',
{
    let v = c as u32;
    let bytes = encode_scalar(v);
    assert(v <= 0x7F ==> (((v & 0x7F) as u8) == 0 <==> v == 0)) by (bit_vector);
    assert((0xC0u8 | ((v >> 6) & 0x1F) as u8) != 0 && (0xE0u8 | ((v >> 12) & 0x0F) as u8) != 0 && (
    0xF0u8 | ((v >> 18) & 0x7) as u8) != 0 && (0x80u8 | (v & 0x3F) as u8) != 0 && (0x80u8 | ((v
        >> 6) & 0x3F) as u8) != 0 && (0x80u8 | ((v >> 12) & 0x3F) as u8) != 0) by (bit_vector);
    if c == '\0' {
        assert(bytes[0] == 0u8);
    }
}

/// Text is rejected for its NUL bytes exactly if it holds a NUL character, and the
/// position in the error is the length in bytes of the text before the first one.
pub proof fn nul_bytes_are_nul_characters(text: Seq<char>)
    ensures
        encode_utf8(text).contains(0u8) <==> text.contains('\0'),
        text.index_of_first('\0') matches Some(k) ==> encode_utf8(text).index_of_first(0u8) == Some(
            encode_utf8(text.take(k)).len() as int,
        ),
    decreases text.len(),
{
    let bytes = encode_utf8(text);
    text.index_of_first_ensures('\0');
    bytes.index_of_first_ensures(0u8);
    if text.len() > 0 {
        let head = encode_scalar(text[0] as u32);
        let rest = text.drop_first();
        let tail = encode_utf8(rest);
        nul_in_encoded_char(text[0]);
        nul_bytes_are_nul_characters(rest);
        rest.index_of_first_ensures('\0');
        tail.index_of_first_ensures(0u8);
        assert(bytes == head + tail);
        if text[0] == '\0' {
            assert(text.index_of_first('\0') == Some(0int));
            assert(head.len() == 1 && head[0] == 0u8);
            assert(bytes[0] == 0u8);
            assert(text.take(0) == Seq::<char>::empty());
        } else {
            assert(forall|j: int| 0 <= j < head.len() ==> head[j] != 0u8);
            if tail.contains(0u8) {
                let p = tail.index_of_first(0u8)->0;
                assert(bytes[head.len() + p] == 0u8);
                let k = rest.index_of_first('\0')->0;
                assert(text[k + 1] == '\0');
                let q = bytes.index_of_first(0u8)->0;
                assert(q >= head.len());
                assert(tail[q - head.len()] == 0u8);
                assert(q == head.len() + p);
                let m = text.index_of_first('\0')->0;
                assert(rest[m - 1] == '\0');
                assert(m == k + 1);
                assert(text.take(m)[0] == text[0]);
                assert(text.take(m).drop_first() == rest.take(k));
            } else {
                assert forall|j: int| 0 <= j < bytes.len() implies bytes[j] != 0u8 by {
                    if j >= head.len() {
                        assert(bytes[j] == tail[j - head.len()]);
                    }
                }
                assert forall|j: int| 0 <= j < text.len() implies text[j] != '\0' by {
                    if j > 0 {
                        assert(text[j] == rest[j - 1]);
                    }
                }
            }
        }
    }
}

} // verus!
