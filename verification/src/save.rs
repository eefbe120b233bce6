//! Saving bytes that the page hands over, under a name that the user picks.
use vstd::prelude::*;

use crate::text::{joined, text_reply};

verus! {

/// What follows the save dialog.
pub enum SaveNext<P> {
    /// Write the bytes to this path.
    Write(P),
    /// Write nothing: this is what the page is told.
    Finished(Result<bool, String>),
}

/// The mathematical content of a `SaveNext`.
pub enum SaveNextView<P> {
    Write(P),
    Finished(Result<bool, Seq<char>>),
}

/// What a dialog gave back, with the text of its error.
pub open spec fn text_choice<P>(chosen: Option<Result<P, String>>) -> Option<
    Result<P, Seq<char>>,
> {
    match chosen {
        Some(choice) => Some(text_reply(choice)),
        None => None,
    }
}

impl<P> View for SaveNext<P> {
    type V = SaveNextView<P>;

    open spec fn view(&self) -> SaveNextView<P> {
        match self {
            SaveNext::Write(path) => SaveNextView::Write(*path),
            SaveNext::Finished(reply) => SaveNextView::Finished(text_reply(*reply)),
        }
    }
}

/// What follows the save dialog: nothing is written where the user cancelled it
/// or where the choice is no path on this machine.
pub open spec fn save_next<P>(chosen: Option<Result<P, Seq<char>>>) -> SaveNextView<P> {
    match chosen {
        None => SaveNextView::Finished(Ok(false)),
        Some(Ok(path)) => SaveNextView::Write(path),
        Some(Err(error)) => SaveNextView::Finished(Err(error)),
    }
}

/// What the page is told of an attempt to write to a path.
pub open spec fn write_reply(path: Seq<char>, written: Result<(), Seq<char>>) -> Result<
    bool,
    Seq<char>,
> {
    match written {
        Ok(_) => Ok(true),
        Err(error) => Err("写入 "@ + path + " 失败: "@ + error),
    }
}

/// Decides what follows the save dialog. `None` is a dialog that the user
/// cancelled; `Err` is a choice that is no path on this machine.
pub fn save_bytes<P>(chosen: Option<Result<P, String>>) -> (next: SaveNext<P>)
    ensures
        next@ == save_next(text_choice(chosen)),
{
    match chosen {
        None => SaveNext::Finished(Ok(false)),
        Some(Ok(path)) => SaveNext::Write(path),
        Some(Err(error)) => SaveNext::Finished(Err(error)),
    }
}

/// What the page is told once the bytes were written to `path`, or were not.
pub fn bytes_written(path: &str, written: Result<(), String>) -> (reply: Result<bool, String>)
    ensures
        text_reply(reply) == write_reply(path@, text_reply(written)),
{
    match written {
        Ok(_) => Ok(true),
        Err(error) => {
            let start = joined("写入 ", path);
            let middle = joined(start.as_str(), " 失败: ");
            Err(joined(middle.as_str(), error.as_str()))
        },
    }
}

/// What the page is told in the end: `written` is how writing to the path, shown
/// as `path`, came out or would have come out.
pub open spec fn save_reply<P>(
    chosen: Option<Result<P, Seq<char>>>,
    path: Seq<char>,
    written: Result<(), Seq<char>>,
) -> Result<bool, Seq<char>> {
    match save_next(chosen) {
        SaveNextView::Write(_) => write_reply(path, written),
        SaveNextView::Finished(reply) => reply,
    }
}

/// The page hears `true` if and only if the bytes were written, and `false` if
/// and only if the user cancelled the dialog.
pub proof fn law_save_reply<P>(
    chosen: Option<Result<P, Seq<char>>>,
    path: Seq<char>,
    written: Result<(), Seq<char>>,
)
    ensures
        save_reply(chosen, path, written) == Ok::<bool, Seq<char>>(true) <==> chosen is Some
            && chosen->0 is Ok && written is Ok,
        save_reply(chosen, path, written) == Ok::<bool, Seq<char>>(false) <==> chosen is None,
{
}

/// The bytes go to the path that the user picked, to that path alone, and nothing
/// is written without one: the page then hears that the dialog was cancelled, or
/// the error as it came.
pub proof fn law_written_where_picked<P>(chosen: Option<Result<P, Seq<char>>>, path: P)
    ensures
        save_next(chosen) == SaveNextView::Write(path) <==> chosen == Some(
            Ok::<P, Seq<char>>(path),
        ),
        chosen is None ==> save_next(chosen) == SaveNextView::<P>::Finished(Ok(false)),
        chosen matches Some(Err(error)) ==> save_next(chosen) == SaveNextView::<P>::Finished(
            Err(error),
        ),
{
}

/// A write that failed names the path and gives the reason, both whole.
pub proof fn law_failed_write_told(path: Seq<char>, written: Result<(), Seq<char>>)
    ensures
        written is Ok ==> write_reply(path, written) == Ok::<bool, Seq<char>>(true),
        written matches Err(error) ==> write_reply(path, written) == Err::<bool, Seq<char>>(
            "写入 "@ + path + " 失败: "@ + error,
        ),
{
}

/// The path that the user picked is the one that is written to. Without a path
/// nothing is written: the page hears `false` where the user cancelled, and the
/// error as it came where the choice is no path.
pub proof fn law_choice_followed<P>(chosen: Option<Result<P, String>>, next: SaveNext<P>)
    requires
        call_ensures(save_bytes::<P>, (chosen,), next),
    ensures
        chosen matches Some(Ok(path)) ==> next == SaveNext::Write(path),
        chosen is None ==> next == SaveNext::<P>::Finished(Ok(false)),
        chosen matches Some(Err(error)) ==> (next matches SaveNext::Finished(Err(text)) && text@
            == error@),
{
}

/// The page hears `true` of bytes that were written; of a failure it hears the
/// path and the reason, both whole.
pub proof fn law_write_heard(path: &str, written: Result<(), String>, reply: Result<bool, String>)
    requires
        bytes_written.ensures((path, written), reply),
    ensures
        written is Ok ==> (reply matches Ok(saved) && saved),
        written matches Err(error) ==> (reply matches Err(text) && text@ == "写入 "@ + path@
            + " 失败: "@ + error@),
{
    law_failed_write_told(path@, text_reply(written));
}

} // verus!
