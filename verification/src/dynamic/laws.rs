//! What holds of every exchange between a parent and the child it starts.

use crate::dynamic::{
    ExitView, GuardView, OutcomeView, ReportView, StartupView, Template, EXIT_CODE_FAILED,
    EXIT_CODE_NOT_FOUND, EXIT_CODE_SUCCESS,
};
use crate::{Bytes, Text};
use vstd::prelude::*;

verus! {

/// What the parent sees of a child that put `stdout` on its standard output
/// and ended as `exit` says.
pub open spec fn seen(stdout: Bytes, exit: ExitView) -> ReportView {
    ReportView::Exit { code: Some(exit.code), stdout, stderr: crate::utf8(exit.message) }
}

/// Whether `part` occurs in `text`.
pub open spec fn mentions(text: Text, part: Text) -> bool {
    exists|i: int|
        0 <= i && i + part.len() <= text.len() && #[trigger] text.subrange(i, i + part.len())
            == part
}

/// The three exit codes of the protocol differ from one another and from the
/// code of an ordinary clean exit.
pub proof fn law_exit_codes_are_distinct()
    ensures
        EXIT_CODE_SUCCESS != 0,
        EXIT_CODE_SUCCESS != EXIT_CODE_FAILED,
        EXIT_CODE_SUCCESS != EXIT_CODE_NOT_FOUND,
        EXIT_CODE_FAILED != EXIT_CODE_NOT_FOUND,
{
}

/// However many templates a process registers, at most one of them
/// dispatches: the offer that matches disarms the guard, and a disarmed guard
/// matches nothing. The guard stays armed exactly when nothing dispatched.
pub proof fn law_at_most_one_dispatch(guard: GuardView, keys: Seq<Text>)
    ensures
        guard.dispatches(keys) <= 1,
        guard.offer_all(keys).requested == guard.requested,
        guard.offer_all(keys).armed == (guard.armed && guard.dispatches(keys) == 0),
        guard.dispatches(keys) == 1 <==> guard.armed && guard.requested is Some && keys.contains(
            guard.requested->0,
        ),
    decreases keys.len(),
{
    if keys.len() > 0 {
        let front = keys.drop_last();
        law_at_most_one_dispatch(guard, front);
        if guard.requested is Some {
            let key = guard.requested->0;
            if keys.contains(key) {
                let i = choose|i: int| 0 <= i < keys.len() && keys[i] == key;
                if i < front.len() {
                    assert(front[i] == key);
                }
            }
        }
    }
}

/// Where every offer fails to match, the guard is unchanged when startup is
/// over, and finishing it ends the process as not found if and only if a key
/// was requested that is not empty. Finishing consumes the guard, so this
/// happens once.
pub proof fn law_unmatched_startup_reaches_guard(guard: GuardView, keys: Seq<Text>)
    requires
        guard.armed,
        guard.dispatches(keys) == 0,
    ensures
        guard.offer_all(keys) == guard,
        guard.offer_all(keys).finish() == match guard.requested {
            Some(key) if key.len() > 0 => Some(crate::dynamic::not_found_exit(key)),
            _ => None,
        },
{
    law_at_most_one_dispatch(guard, keys);
}

/// The startup of a process is the run of its guard: it dispatches where one
/// offer matches, and then the template at the first position that has the
/// requested key; otherwise it ends as the finished guard says, or goes on.
pub proof fn law_startup_follows_the_guard(requested: Option<Text>, keys: Seq<Text>)
    ensures
        ({
            let guard = GuardView { requested, armed: true };
            match crate::dynamic::startup_of(requested, keys) {
                StartupView::Dispatch(position) => {
                    &&& guard.dispatches(keys) == 1
                    &&& 0 <= position < keys.len()
                    &&& requested == Some(keys[position])
                    &&& forall|j: int| 0 <= j < position ==> requested != Some(#[trigger] keys[j])
                },
                StartupView::NotFound(exit) => {
                    &&& guard.dispatches(keys) == 0
                    &&& guard.offer_all(keys).finish() == Some(exit)
                },
                StartupView::Proceed => {
                    &&& guard.dispatches(keys) == 0
                    &&& guard.offer_all(keys).finish() is None
                },
            }
        }),
{
    let guard = GuardView { requested, armed: true };
    law_at_most_one_dispatch(guard, keys);
    if let Some(key) = requested {
        keys.index_of_first_ensures(key);
    }
}

/// A child that is asked for a key which none of its templates has, and which
/// is not empty, ends with the code for not found, and the line it prints
/// names the key. The parent's outcome is that the key was not found.
pub proof fn law_unregistered_key_is_not_found(
    keys: Seq<Text>,
    key: Text,
    stdout: Bytes,
)
    requires
        !keys.contains(key),
        key.len() > 0,
    ensures
        crate::dynamic::startup_of(Some(key), keys) == StartupView::NotFound(
            crate::dynamic::not_found_exit(key),
        ),
        crate::dynamic::not_found_exit(key).code == EXIT_CODE_NOT_FOUND,
        mentions(crate::dynamic::not_found_exit(key).message, key),
        crate::dynamic::outcome_of(key, seen(stdout, crate::dynamic::not_found_exit(key)))
            == OutcomeView::NotFound(key),
{
    keys.index_of_first_ensures(key);
    let text = crate::dynamic::not_found_exit(key).message;
    let at = text.len() - key.len();
    assert(text.subrange(at, at + key.len()) =~= key);
}

/// A child that is asked for a key which one of its templates has dispatches a
/// template of that key. When the page of that template has gone to standard
/// output and the child has ended in success, the parent's outcome is success
/// with the very bytes of a direct render.
pub proof fn law_registered_key_yields_direct_render<T: Template>(
    template: T,
    argument: T::Argument,
    keys: Seq<Text>,
)
    requires
        keys.contains(template.key_text()),
    ensures
        ({
            let key = template.key_text();
            let page = template.page(&argument, crate::html::escaping());
            &&& crate::dynamic::startup_of(Some(key), keys) matches StartupView::Dispatch(position)
                && 0 <= position < keys.len() && keys[position] == key
            &&& crate::dynamic::outcome_of(key, seen(page, crate::dynamic::success_exit()))
                == OutcomeView::Success(page)
        }),
{
    keys.index_of_first_ensures(template.key_text());
}

/// A child that matched the requested key and then failed ends with the code
/// for failure, never with those for success or for not found, and prints a
/// line that is not empty. The parent's outcome is a failure that carries the
/// code, whatever reached standard output, and that line.
pub proof fn law_failure_is_reported(key: Text, cause: Text, stdout: Bytes)
    ensures
        ({
            let exit = crate::dynamic::failure_exit(cause);
            &&& exit.code == EXIT_CODE_FAILED
            &&& exit.code != EXIT_CODE_SUCCESS
            &&& exit.code != EXIT_CODE_NOT_FOUND
            &&& crate::utf8(exit.message).len() > 0
            &&& crate::dynamic::outcome_of(key, seen(stdout, exit)) == OutcomeView::Failed {
                exit_code: Some(EXIT_CODE_FAILED),
                stdout,
                stderr: crate::utf8(exit.message),
            }
        }),
{
    reveal_strlit("Dynamic template failed: ");
    let message = crate::dynamic::failure_exit(cause).message;
    vstd::utf8::encode_utf8_decode_utf8(message);
    if crate::utf8(message).len() == 0 {
        vstd::utf8::encode_utf8_decode_utf8(Seq::empty());
    }
}

} // verus!
