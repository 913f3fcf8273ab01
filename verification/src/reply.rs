//! What finished writes send back to the screens.

use crate::action::{notice, notifies, one, two, Action};
use crate::model::WriteReply;
use crate::notify::Level;
use crate::text::cat3;
use vstd::prelude::*;

verus! {

/// What a row write sends back: the word and a fresh read once the server has
/// it, the word alone while it waits in the queue, the failure otherwise.
pub open spec fn settled<T>(
    reply: WriteReply<T>,
    done: Seq<char>,
    queued: Seq<char>,
    failed: Seq<char>,
    refresh: Action,
    res: Seq<Action>,
) -> bool {
    match reply {
        WriteReply::Confirmed(_) => {
            &&& res.len() == 2
            &&& notifies(res[0], Level::Success, done)
            &&& res[1] == refresh
        },
        WriteReply::Provisional(_) => {
            &&& res.len() == 1
            &&& notifies(res[0], Level::Info, queued)
        },
        WriteReply::Failed(e) => {
            &&& res.len() == 1
            &&& notifies(res[0], Level::Error, failed + ": "@ + e.shown@)
        },
    }
}

/// What a row write sends back.
pub fn settle<T>(
    reply: WriteReply<T>,
    done: String,
    queued: String,
    failed: &str,
    refresh: Action,
) -> (res: Vec<Action>)
    ensures
        settled(reply, done@, queued@, failed@, refresh, res@),
{
    match reply {
        WriteReply::Confirmed(_) => two(notice(Level::Success, done), refresh),
        WriteReply::Provisional(_) => one(notice(Level::Info, queued)),
        WriteReply::Failed(e) => one(
            notice(Level::Error, cat3(failed, ": ", e.shown.as_str())),
        ),
    }
}

/// A write is said to have gone through only where the server has it, and only then is
/// anything read again: one that waits is a note, one that failed an error.
pub proof fn only_a_confirmed_write_rereads<T>(
    reply: WriteReply<T>,
    done: Seq<char>,
    queued: Seq<char>,
    failed: Seq<char>,
    refresh: Action,
    res: Seq<Action>,
)
    requires
        settled(reply, done, queued, failed, refresh, res),
    ensures
        reply is Confirmed ==> res.len() == 2 && res[1] == refresh,
        !(reply is Confirmed) ==> res.len() == 1,
        res[0] matches Action::Notify { level, text } && (reply is Confirmed <==> level
            == Level::Success) && (reply is Provisional <==> level == Level::Info) && (reply
            is Failed <==> level == Level::Error) && (reply is Confirmed ==> text@ == done) && (
        reply is Provisional ==> text@ == queued),
{
}

/// A failed write is said in the words of its failure.
pub proof fn a_failed_write_is_said_in_its_words<T>(
    e: crate::model::Fault,
    done: Seq<char>,
    queued: Seq<char>,
    failed: Seq<char>,
    refresh: Action,
    res: Seq<Action>,
)
    requires
        settled(WriteReply::<T>::Failed(e), done, queued, failed, refresh, res),
    ensures
        res.len() == 1,
        res[0] matches Action::Notify { level, text } && level == Level::Error && text@ == failed
            + ": "@ + e.shown@,
{
}

} // verus!
