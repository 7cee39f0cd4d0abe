//! What an update of a parse session does, call by call and result by result.
use vstd::prelude::*;
use vstd::utf8::{decode_utf8_encode_utf8, encode_utf8, valid_utf8};

use crate::openai::error::ChatParseError;
use crate::openai::parse_laws::{
    delta_calls, deltas_calls, diff_texts, diffs_calls, leading, leading_diffs_render, native_calls,
    nul_bytes_are_nul_characters, outcome, rejected_calls, update_calls,
    update_makes_its_calls_and_finishes, NativeRun,
};
use crate::openai::parse_state::{
    begin, texts, CallView, NativeCall, NativeReply, NativeStatus, PhaseView, ReplyView,
};
use crate::trusted::utf8_error;

verus! {

/// The view of a native call is the call: of the same kind, with the same bytes,
/// flag and position, and, at the end, with the same error or the same texts in the
/// same order.
pub proof fn call_view_is_the_call(call: NativeCall)
    ensures
        call matches NativeCall::UpdateState { text, is_partial } ==> call@
            == (CallView::UpdateState { text: text@, is_partial }),
        call matches NativeCall::RenderDiff { index } ==> call@ == (CallView::RenderDiff {
            index: index as nat,
        }),
        call is CopyString <==> call@ is CopyString,
        call is FreeString <==> call@ is FreeString,
        call is FreeMessage <==> call@ is FreeMessage,
        call is FreeDiffs <==> call@ is FreeDiffs,
        call matches NativeCall::Finished(Err(error)) ==> call@ == CallView::Finished(Err(error)),
        call matches NativeCall::Finished(Ok(deltas)) ==> {
            &&& call@ matches CallView::Finished(Ok(contents))
            &&& contents.len() == deltas@.len()
            &&& forall|i: int| 0 <= i < deltas@.len() ==> #[trigger] contents[i] == deltas@[i]@
        },
{
}

/// The view of a native reply is the reply: of the same kind and with the same
/// status, flags, count and bytes.
pub proof fn reply_view_is_the_reply(reply: NativeReply)
    ensures
        reply matches NativeReply::Updated { status, diffs_null, diffs_count } ==> reply@
            == (ReplyView::Updated { status, diffs_null, diffs_count: diffs_count as nat }),
        reply matches NativeReply::Rendered { status, string_null } ==> reply@
            == (ReplyView::Rendered { status, string_null }),
        reply matches NativeReply::Copied(bytes) ==> reply@ == ReplyView::Copied(bytes@),
        reply is Freed <==> reply@ is Freed,
{
}

/// The texts of some strings are those of each of them, in their order.
pub proof fn texts_are_those_of_the_strings(strings: Seq<String>)
    ensures
        texts(strings).len() == strings.len(),
        forall|i: int| 0 <= i < strings.len() ==> #[trigger] texts(strings)[i] == strings[i]@,
{
}

/// Text without a NUL character goes to the native parser first of all: all its bytes
/// and a closing NUL byte, and with exactly the flag that the caller gave. Text with
/// one goes to no native call.
pub proof fn update_hands_over_the_text_and_the_flag(
    text: Seq<char>,
    is_partial: bool,
    run: NativeRun,
)
    ensures
        !text.contains('\0') ==> {
            let feed = CallView::UpdateState { text: encode_utf8(text).push(0u8), is_partial };
            &&& begin(encode_utf8(text), is_partial) == (PhaseView::Updating, feed)
            &&& native_calls(text, is_partial, run).len() > 0
            &&& native_calls(text, is_partial, run)[0] == feed
            &&& update_calls(text, is_partial, run)[0] == feed
        },
        text.contains('\0') ==> {
            &&& begin(encode_utf8(text), is_partial).0 is Idle
            &&& begin(encode_utf8(text), is_partial).1 is Finished
            &&& native_calls(text, is_partial, run).len() == 0
        },
{
    nul_bytes_are_nul_characters(text);
    encode_utf8(text).index_of_first_ensures(0u8);
    update_makes_its_calls_and_finishes(text, is_partial, run);
    if !text.contains('\0') {
        let feed = CallView::UpdateState { text: encode_utf8(text).push(0u8), is_partial };
        let calls = native_calls(text, is_partial, run);
        assert(calls[0] == feed);
    }
}

/// The flag changes nothing in an update but the flag of the call that feeds the
/// text.
pub proof fn flag_changes_the_first_call_alone(text: Seq<char>, run: NativeRun)
    ensures
        native_calls(text, true, run).len() == native_calls(text, false, run).len(),
        forall|i: int|
            0 < i < native_calls(text, true, run).len() ==> #[trigger] native_calls(
                text,
                true,
                run,
            )[i] == native_calls(text, false, run)[i],
{
    let a = native_calls(text, true, run);
    let b = native_calls(text, false, run);
    assert forall|i: int| 0 < i < a.len() implies #[trigger] a[i] == b[i] by {
        assert(a[i] == diffs_calls(run)[i - 1]);
        assert(b[i] == diffs_calls(run)[i - 1]);
    }
}

proof fn deltas_calls_by_position(n: nat, i: int)
    requires
        0 <= i < n,
    ensures
        deltas_calls(n).len() == 3 * n,
        deltas_calls(n)[3 * i] == (CallView::RenderDiff { index: i as nat }),
        deltas_calls(n)[3 * i + 1] == CallView::CopyString,
        deltas_calls(n)[3 * i + 2] == CallView::FreeString,
    decreases n,
{
    let m = (n - 1) as nat;
    deltas_calls_by_length(m);
    let all = deltas_calls(n);
    assert(all == deltas_calls(m) + delta_calls(m));
    if i < m {
        deltas_calls_by_position(m, i);
        assert(all[3 * i] == deltas_calls(m)[3 * i]);
        assert(all[3 * i + 1] == deltas_calls(m)[3 * i + 1]);
        assert(all[3 * i + 2] == deltas_calls(m)[3 * i + 2]);
    } else {
        assert(all[3 * i] == delta_calls(m)[0]);
        assert(all[3 * i + 1] == delta_calls(m)[1]);
        assert(all[3 * i + 2] == delta_calls(m)[2]);
    }
}

proof fn deltas_calls_by_length(n: nat)
    ensures
        deltas_calls(n).len() == 3 * n,
    decreases n,
{
    if n > 0 {
        deltas_calls_by_length((n - 1) as nat);
    }
}

/// What an update returns, and how many native calls it makes, where it does not get
/// to its diffs: the first NUL byte of the text, the status of the call that feeds
/// the text, and a null pointer to diffs each end it.
pub proof fn updates_that_end_before_the_diffs(text: Seq<char>, is_partial: bool, run: NativeRun)
    ensures
        text.contains('\0') ==> {
            &&& outcome(text, run) matches Err(ChatParseError::NulError { position })
            &&& position == (encode_utf8(text).index_of_first(0u8)->0) as usize
        },
        run.status matches NativeStatus::Failure(code) ==> !text.contains('\0') ==> {
            &&& outcome(text, run) == Err::<Seq<Seq<char>>, _>(ChatParseError::FfiError(code))
            &&& native_calls(text, is_partial, run).len() == 1
        },
        !text.contains('\0') && run.status is Success && run.diffs.len() > 0 && run.diffs_null ==> {
            &&& outcome(text, run) == Err::<Seq<Seq<char>>, _>(ChatParseError::NullResult)
            &&& native_calls(text, is_partial, run).len() == 1
        },
{
    nul_bytes_are_nul_characters(text);
    encode_utf8(text).index_of_first_ensures(0u8);
}

/// The calls for the first `n` diffs, where the native library renders each of them
/// as UTF-8, stand one after the other behind the call that feeds the text. If these
/// are all diffs, the message and the diffs are freed after them and the update
/// returns the strings. If the next one fails, nothing but its string is freed and
/// the update returns its error.
pub proof fn updates_go_through_their_diffs(
    text: Seq<char>,
    is_partial: bool,
    run: NativeRun,
    n: nat,
)
    requires
        !text.contains('\0'),
        run.status is Success,
        run.diffs.len() > 0 ==> !run.diffs_null,
        n <= run.diffs.len(),
        forall|i: int|
            0 <= i < n ==> {
                &&& (#[trigger] run.diffs[i]).status is Success
                &&& run.diffs[i].string matches Some(bytes)
                &&& valid_utf8(bytes)
            },
    ensures
        native_calls(text, is_partial, run).len() >= 3 * n + 1,
        forall|j: int|
            0 < j <= 3 * n ==> #[trigger] native_calls(text, is_partial, run)[j] == if j % 3 == 1 {
                CallView::RenderDiff { index: (j / 3) as nat }
            } else if j % 3 == 2 {
                CallView::CopyString
            } else {
                CallView::FreeString
            },
        n == run.diffs.len() ==> {
            let calls = native_calls(text, is_partial, run);
            &&& calls.len() == 3 * n + 3
            &&& calls[3 * n as int + 1] == CallView::FreeMessage
            &&& calls[3 * n as int + 2] == CallView::FreeDiffs
            &&& outcome(text, run) matches Ok(deltas)
            &&& deltas.len() == n
            &&& forall|i: int|
                0 <= i < n ==> Some(encode_utf8(#[trigger] deltas[i])) == run.diffs[i].string
        },
        n < run.diffs.len() ==> {
            let calls = native_calls(text, is_partial, run);
            let diff = run.diffs[n as int];
            &&& calls.len() > 3 * n + 1
            &&& calls[3 * n as int + 1] == (CallView::RenderDiff { index: n })
            &&& diff.status matches NativeStatus::Failure(code) ==> {
                &&& outcome(text, run) == Err::<Seq<Seq<char>>, _>(ChatParseError::FfiError(code))
                &&& diff.string is None ==> calls.len() == 3 * n + 2
                &&& diff.string is Some ==> calls.len() == 3 * n + 3 && calls[3 * n as int + 2]
                    == CallView::FreeString
            }
            &&& diff.status is Success && diff.string is None ==> {
                &&& outcome(text, run) == Err::<Seq<Seq<char>>, _>(ChatParseError::NullResult)
                &&& calls.len() == 3 * n + 2
            }
            &&& diff.string matches Some(bytes) ==> diff.status is Success && !valid_utf8(bytes) ==> {
                &&& outcome(text, run) == Err::<Seq<Seq<char>>, _>(
                    ChatParseError::Utf8Error(utf8_error(bytes)),
                )
                &&& calls.len() == 3 * n + 4
                &&& calls[3 * n as int + 2] == CallView::CopyString
                &&& calls[3 * n as int + 3] == CallView::FreeString
            }
        },
{
    nul_bytes_are_nul_characters(text);
    encode_utf8(text).index_of_first_ensures(0u8);
    leading_diffs_render(run.diffs);
    let l = leading(run.diffs);
    assert(l >= n) by {
        if l < n {
            assert(run.diffs[l as int].status is Success);
        }
    }
    let calls = native_calls(text, is_partial, run);
    deltas_calls_by_length(l);
    assert(calls.len() == 1 + diffs_calls(run).len());
    assert(calls.drop_first() == diffs_calls(run));
    assert forall|k: int| 0 <= k < diffs_calls(run).len() implies calls[k + 1] == #[trigger] diffs_calls(
        run,
    )[k] by {
        assert(calls.drop_first()[k] == calls[k + 1]);
    }
    assert forall|j: int| 0 < j <= 3 * l implies #[trigger] calls[j] == if j % 3 == 1 {
        CallView::RenderDiff { index: (j / 3) as nat }
    } else if j % 3 == 2 {
        CallView::CopyString
    } else {
        CallView::FreeString
    } by {
        let i = (j - 1) / 3;
        deltas_calls_by_position(l, i);
        assert(calls[(j - 1) + 1] == diffs_calls(run)[j - 1]);
        assert(diffs_calls(run)[j - 1] == deltas_calls(l)[j - 1]);
        assert(j == 3 * i + 1 || j == 3 * i + 2 || j == 3 * i + 3);
    }
    if n == run.diffs.len() {
        let freeing = seq![CallView::FreeMessage, CallView::FreeDiffs];
        assert(diffs_calls(run) == deltas_calls(l) + freeing);
        assert(calls[(3 * n as int) + 1] == diffs_calls(run)[3 * n as int]);
        assert(calls[(3 * n as int + 1) + 1] == diffs_calls(run)[3 * n as int + 1]);
        let deltas = diff_texts(run.diffs, n);
        assert forall|i: int| 0 <= i < n implies Some(encode_utf8(#[trigger] deltas[i]))
            == run.diffs[i].string by {
            assert(run.diffs[i].status is Success);
            decode_utf8_encode_utf8(run.diffs[i].string->0);
        }
    } else {
        let diff = run.diffs[n as int];
        let rejected = rejected_calls(n, diff);
        if l == n {
            assert(diffs_calls(run) == deltas_calls(n) + rejected);
            assert forall|k: int| 0 <= k < rejected.len() implies calls[3 * n + 1 + k]
                == #[trigger] rejected[k] by {
                assert(calls[(3 * n + k) + 1] == diffs_calls(run)[3 * n + k]);
            }
            assert(calls[3 * n as int + 1 + 0] == rejected[0]);
            if rejected.len() > 1 {
                assert(calls[3 * n as int + 1 + 1] == rejected[1]);
            }
            if rejected.len() > 2 {
                assert(calls[3 * n as int + 1 + 2] == rejected[2]);
            }
        } else {
            assert(calls[3 * (n as int) + 1] == (CallView::RenderDiff { index: n }));
        }
    }
}

} // verus!
