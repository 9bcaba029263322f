//! The list of recently opened workspaces.

use vstd::prelude::*;

use crate::error::AppError;
use crate::error::ErrorView;
use crate::lists::others;
use crate::lists::others_keeps_exactly_the_others;
use crate::lists::retain_others;
use crate::text::opt_text;
use crate::text::texts;

verus! {

/// How many recent workspaces are kept.
pub const MAX_RECENT_WORKSPACES: usize = 10;

/// The mathematical content of a list or an error.
pub open spec fn list_outcome(outcome: Result<Vec<String>, AppError>) -> Result<
    Seq<Seq<char>>,
    ErrorView,
> {
    match outcome {
        Ok(list) => Ok(texts(list@)),
        Err(error) => Err(error@),
    }
}

/// The recent workspaces after `path` was opened: it comes first and stands there once, and the
/// oldest ones fall off the end.
pub open spec fn with_recent(recents: Seq<Seq<char>>, path: Seq<char>) -> Seq<Seq<char>> {
    let all = seq![path] + others(recents, path);
    if all.len() <= MAX_RECENT_WORKSPACES {
        all
    } else {
        all.take(MAX_RECENT_WORKSPACES as int)
    }
}

/// What JSON text reads as a list of strings: the strings, or the parser's error as a text.
pub uninterp spec fn parsed_string_list(json: Seq<char>) -> Result<Seq<Seq<char>>, Seq<char>>;

/// The indented JSON text of a list of strings.
pub uninterp spec fn pretty_string_list(list: Seq<Seq<char>>) -> Seq<char>;

/// A JSON text reads as this list of strings.
pub open spec fn reads_as(json: Seq<char>, list: Seq<Seq<char>>) -> bool {
    parsed_string_list(json) matches Ok(parsed) && parsed == list
}

/// The recent workspaces that a file holds; where there is no file there are none.
pub open spec fn loaded_recents(file: Option<Seq<char>>) -> Result<Seq<Seq<char>>, ErrorView> {
    match file {
        None => Ok(seq![]),
        Some(json) => match parsed_string_list(json) {
            Ok(list) => Ok(list),
            Err(text) => Err(ErrorView::Io(text)),
        },
    }
}

/// The recent workspaces to go on with: those that a file holds, or none where it cannot be read.
pub open spec fn known_recents(file: Option<Seq<char>>) -> Seq<Seq<char>> {
    match loaded_recents(file) {
        Ok(list) => list,
        Err(_) => seq![],
    }
}

/// The mathematical content of a parsed list.
pub open spec fn parse_outcome(parsed: Result<Vec<String>, String>) -> Result<
    Seq<Seq<char>>,
    Seq<char>,
> {
    match parsed {
        Ok(list) => Ok(texts(list@)),
        Err(text) => Err(text@),
    }
}

/// `serde_json::from_str` for a list of strings. An error is handed on as its display text.
///
/// Which texts are lists of strings, and what the errors say, is left to the parser.
#[verifier::external_body]
pub(crate) fn parse_string_list(json: &str) -> (parsed: Result<Vec<String>, String>)
    ensures
        parse_outcome(parsed) == parsed_string_list(json@),
{
    serde_json::from_str::<Vec<String>>(json).map_err(|error| error.to_string())
}

/// `serde_json::to_string_pretty` for a list of strings. It writes to memory, where nothing can
/// fail, and the parser reads the text as the same list.
#[verifier::external_body]
pub(crate) fn write_string_list(list: &Vec<String>) -> (json: Result<String, String>)
    ensures
        json is Ok,
        json->Ok_0@ == pretty_string_list(texts(list@)),
        reads_as(json->Ok_0@, texts(list@)),
{
    serde_json::to_string_pretty(list).map_err(|error| error.to_string())
}

/// The list that a parse has given; an error of the parser is reported as it is.
pub fn decoded_recents(parsed: Result<Vec<String>, String>) -> (recents: Result<
    Vec<String>,
    AppError,
>)
    ensures
        list_outcome(recents) == match parse_outcome(parsed) {
            Ok(list) => Ok(list),
            Err(text) => Err(ErrorView::Io(text)),
        },
{
    match parsed {
        Ok(list) => Ok(list),
        Err(text) => Err(AppError::Io(text)),
    }
}

/// The recent workspaces that a file holds; where there is no file there are none.
pub fn load_recent_workspaces(file: Option<&str>) -> (recents: Result<Vec<String>, AppError>)
    ensures
        list_outcome(recents) == loaded_recents(opt_text(file)),
{
    match file {
        None => {
            let none: Vec<String> = Vec::new();
            assert(texts(none@) =~= seq![]);
            Ok(none)
        },
        Some(json) => decoded_recents(parse_string_list(json)),
    }
}

/// The recent workspaces to go on with: those that were loaded, or none where that failed.
pub fn recents_or_none(loaded: Result<Vec<String>, AppError>) -> (recents: Vec<String>)
    ensures
        texts(recents@) == match list_outcome(loaded) {
            Ok(list) => list,
            Err(_) => seq![],
        },
{
    match loaded {
        Ok(list) => list,
        Err(_) => {
            let none: Vec<String> = Vec::new();
            assert(texts(none@) =~= seq![]);
            none
        },
    }
}

/// The recent workspaces that are shown: those that a file holds, or none where there is no file
/// or it cannot be read.
pub fn get_recent_workspaces(file: Option<&str>) -> (recents: Vec<String>)
    ensures
        texts(recents@) == known_recents(opt_text(file)),
{
    recents_or_none(load_recent_workspaces(file))
}

/// A list of recent workspaces after `workspace_path` was opened.
pub fn add_recent_workspace(recents: Vec<String>, workspace_path: &str) -> (added: Vec<String>)
    ensures
        texts(added@) == with_recent(texts(recents@), workspace_path@),
{
    let mut added = retain_others(recents, workspace_path);
    let ghost rest = texts(added@);
    added.insert(0, workspace_path.to_owned());
    let ghost all = seq![workspace_path@] + rest;
    assert(texts(added@) =~= all);
    added.truncate(MAX_RECENT_WORKSPACES);
    assert(texts(added@) =~= with_recent(texts(recents@), workspace_path@));
    added
}

/// The text of the file that holds the recent workspaces. Loading it gives the same list.
pub fn save_recent_workspaces_list(recents: &Vec<String>) -> (file: Result<String, AppError>)
    ensures
        file is Ok,
        file->Ok_0@ == pretty_string_list(texts(recents@)),
        loaded_recents(Some(file->Ok_0@)) == Ok::<Seq<Seq<char>>, ErrorView>(texts(recents@)),
        known_recents(Some(file->Ok_0@)) == texts(recents@),
{
    match write_string_list(recents) {
        Ok(json) => Ok(json),
        Err(text) => Err(AppError::Io(text)),
    }
}

/// The text of the file of recent workspaces after `workspace_path` was opened, given the file as
/// it was. Loading it gives the new list.
pub fn save_recent_workspace(file: Option<&str>, workspace_path: &str) -> (saved: Result<
    String,
    AppError,
>)
    ensures
        ({
            let recents = with_recent(known_recents(opt_text(file)), workspace_path@);
            &&& saved is Ok
            &&& saved->Ok_0@ == pretty_string_list(recents)
            &&& loaded_recents(Some(saved->Ok_0@)) == Ok::<Seq<Seq<char>>, ErrorView>(recents)
            &&& known_recents(Some(saved->Ok_0@)) == recents
        }),
{
    let recents = add_recent_workspace(get_recent_workspaces(file), workspace_path);
    save_recent_workspaces_list(&recents)
}

/// The text of the file of recent workspaces after `path` was removed from it, given the file as
/// it was. Loading it gives the new list.
pub fn remove_recent_workspace(file: Option<&str>, path: &str) -> (saved: Result<String, AppError>)
    ensures
        ({
            let recents = others(known_recents(opt_text(file)), path@);
            &&& saved is Ok
            &&& saved->Ok_0@ == pretty_string_list(recents)
            &&& loaded_recents(Some(saved->Ok_0@)) == Ok::<Seq<Seq<char>>, ErrorView>(recents)
            &&& known_recents(Some(saved->Ok_0@)) == recents
        }),
{
    let recents = retain_others(get_recent_workspaces(file), path);
    save_recent_workspaces_list(&recents)
}

/// A workspace that was opened heads the list and stands there once, the list never holds more
/// than its limit, and a list without duplicates stays one.
pub proof fn opened_workspace_heads_the_list(recents: Seq<Seq<char>>, path: Seq<char>)
    ensures
        ({
            let saved = with_recent(recents, path);
            &&& saved.len() > 0
            &&& saved[0] == path
            &&& saved.len() <= MAX_RECENT_WORKSPACES
            &&& forall|i: int| 0 < i < saved.len() ==> #[trigger] saved[i] != path
            &&& recents.no_duplicates() ==> saved.no_duplicates()
            &&& forall|i: int|
                0 < i < saved.len() ==> recents.contains(#[trigger] saved[i])
        }),
{
    let rest = others(recents, path);
    others_keeps_exactly_the_others(recents, path);
    let saved = with_recent(recents, path);
    assert forall|i: int| 0 < i < saved.len() implies #[trigger] saved[i] != path
        && recents.contains(saved[i]) by {
        assert(saved[i] == rest[i - 1]);
        assert(rest.contains(rest[i - 1]));
    }
    if recents.no_duplicates() {
        assert forall|i: int, j: int|
            0 <= i < saved.len() && 0 <= j < saved.len() && i != j implies saved[i] != saved[j] by {
            if i == 0 {
                assert(saved[j] == rest[j - 1]);
                assert(rest.contains(rest[j - 1]));
            } else if j == 0 {
                assert(saved[i] == rest[i - 1]);
                assert(rest.contains(rest[i - 1]));
            } else {
                assert(saved[i] == rest[i - 1] && saved[j] == rest[j - 1]);
            }
        }
    }
}

/// Nothing is lost from a list that is not full: what it held is still there, in the same order
/// behind the workspace that was opened.
pub proof fn opening_keeps_the_others(recents: Seq<Seq<char>>, path: Seq<char>)
    requires
        others(recents, path).len() < MAX_RECENT_WORKSPACES,
    ensures
        with_recent(recents, path) == seq![path] + others(recents, path),
        recents.contains(path) || recents.len() < MAX_RECENT_WORKSPACES,
        forall|text: Seq<char>|
            recents.contains(text) ==> #[trigger] with_recent(recents, path).contains(text),
{
    others_keeps_exactly_the_others(recents, path);
    let rest = others(recents, path);
    let saved = with_recent(recents, path);
    assert forall|text: Seq<char>| recents.contains(text) implies #[trigger] saved.contains(
        text,
    ) by {
        if text == path {
            assert(saved[0] == text);
        } else {
            assert(rest.contains(text));
            let i = rest.index_of(text);
            assert(saved[i + 1] == text);
        }
    }
}

/// Opening the same workspace again changes nothing.
pub proof fn opening_again_changes_nothing(recents: Seq<Seq<char>>, path: Seq<char>)
    ensures
        with_recent(with_recent(recents, path), path) == with_recent(recents, path),
{
    let saved = with_recent(recents, path);
    opened_workspace_heads_the_list(recents, path);
    let tail = saved.drop_first();
    assert(saved =~= seq![path] + tail);
    assert(!tail.contains(path)) by {
        if tail.contains(path) {
            let i = tail.index_of(path);
            assert(saved[i + 1] == path);
        }
    }
    others_keeps_exactly_the_others(tail, path);
    vstd::seq::Seq::filter_distributes_over_add(
        seq![path],
        tail,
        |text: Seq<char>| text != path,
    );
    assert(others(seq![path], path) =~= Seq::<Seq<char>>::empty()) by {
        others_keeps_exactly_the_others(seq![path], path);
        let none = others(seq![path], path);
        if none.len() > 0 {
            assert(none.contains(none[0]));
        }
    }
    assert(others(saved, path) =~= tail);
}

/// A workspace that was removed is gone, every other one stays, and removing it from the list
/// after it was opened gives what removing it before would have given, as long as the list was
/// not full.
pub proof fn removed_workspace_is_gone(recents: Seq<Seq<char>>, path: Seq<char>)
    ensures
        !others(recents, path).contains(path),
        forall|text: Seq<char>|
            text != path ==> (#[trigger] others(recents, path).contains(text) == recents.contains(
                text,
            )),
        others(recents, path).len() < MAX_RECENT_WORKSPACES ==> others(
            with_recent(recents, path),
            path,
        ) == others(recents, path),
{
    others_keeps_exactly_the_others(recents, path);
    if others(recents, path).len() < MAX_RECENT_WORKSPACES {
        let rest = others(recents, path);
        vstd::seq::Seq::filter_distributes_over_add(
            seq![path],
            rest,
            |text: Seq<char>| text != path,
        );
        others_keeps_exactly_the_others(seq![path], path);
        others_keeps_exactly_the_others(rest, path);
        let none = others(seq![path], path);
        if none.len() > 0 {
            assert(none.contains(none[0]));
        }
        assert(none + rest =~= rest);
    }
}

/// The content of a list, of a parse and of their errors is what they hold.
pub proof fn list_outcomes_hold_their_list_or_error(
    list: Result<Vec<String>, AppError>,
    parsed: Result<Vec<String>, String>,
)
    ensures
        list matches Ok(found) ==> list_outcome(list) == Ok::<Seq<Seq<char>>, ErrorView>(
            texts(found@),
        ),
        list matches Err(error) ==> list_outcome(list) == Err::<Seq<Seq<char>>, ErrorView>(error@),
        parsed matches Ok(found) ==> parse_outcome(parsed) == Ok::<Seq<Seq<char>>, Seq<char>>(
            texts(found@),
        ),
        parsed matches Err(text) ==> parse_outcome(parsed) == Err::<Seq<Seq<char>>, Seq<char>>(
            text@,
        ),
{
}

/// A file that the parser reads as a list is loaded and shown as exactly that list, all of it and
/// in its order, however long it is. A file that the parser refuses is loaded as its error and
/// shown as nothing. Where there is no file there are no recent workspaces.
pub proof fn files_are_shown_as_they_are_read(
    json: Seq<char>,
    list: Seq<Seq<char>>,
    refusal: Seq<char>,
)
    ensures
        parsed_string_list(json) == Ok::<Seq<Seq<char>>, Seq<char>>(list) ==> {
            &&& loaded_recents(Some(json)) == Ok::<Seq<Seq<char>>, ErrorView>(list)
            &&& known_recents(Some(json)) == list
            &&& known_recents(Some(json)).len() == list.len()
            &&& forall|i: int|
                0 <= i < list.len() ==> #[trigger] known_recents(Some(json))[i] == list[i]
            &&& reads_as(json, list)
        },
        parsed_string_list(json) == Err::<Seq<Seq<char>>, Seq<char>>(refusal) ==> {
            &&& loaded_recents(Some(json)) == Err::<Seq<Seq<char>>, ErrorView>(
                ErrorView::Io(refusal),
            )
            &&& known_recents(Some(json)) == Seq::<Seq<char>>::empty()
            &&& !reads_as(json, list)
        },
        loaded_recents(None) == Ok::<Seq<Seq<char>>, ErrorView>(Seq::empty()),
        known_recents(None) == Seq::<Seq<char>>::empty(),
{
}

/// A workspace that is opened comes first, and behind it stand the others as they stood, as many
/// as there are up to nine. So nothing is lost that need not be.
pub proof fn opening_moves_a_workspace_to_the_front(recents: Seq<Seq<char>>, path: Seq<char>)
    ensures
        ({
            let saved = with_recent(recents, path);
            let rest = others(recents, path);
            &&& saved.len() == if rest.len() < 9 {
                rest.len() + 1
            } else {
                10
            }
            &&& saved[0] == path
            &&& forall|i: int| 0 < i < saved.len() ==> #[trigger] saved[i] == rest[i - 1]
        }),
        !recents.contains(path) && recents.len() < 10 ==> with_recent(recents, path) == seq![path]
            + recents,
        MAX_RECENT_WORKSPACES == 10,
{
    others_keeps_exactly_the_others(recents, path);
}

/// What stands in the file decides what is shown and what is saved: after a workspace that the
/// file did not hold was opened, it is shown in front of all that the file held, as long as there
/// is room. After one was removed, all the others are shown.
pub proof fn what_the_file_held_is_kept(
    json: Seq<char>,
    held: Seq<Seq<char>>,
    path: Seq<char>,
    saved: Seq<char>,
)
    requires
        parsed_string_list(json) == Ok::<Seq<Seq<char>>, Seq<char>>(held),
    ensures
        !held.contains(path) && held.len() < 10 && parsed_string_list(saved) == Ok::<
            Seq<Seq<char>>,
            Seq<char>,
        >(with_recent(known_recents(Some(json)), path)) ==> known_recents(Some(saved)) == seq![path]
            + held,
        !held.contains(path) && parsed_string_list(saved) == Ok::<Seq<Seq<char>>, Seq<char>>(
            others(known_recents(Some(json)), path),
        ) ==> known_recents(Some(saved)) == held,
{
    files_are_shown_as_they_are_read(json, held, Seq::empty());
    opening_moves_a_workspace_to_the_front(held, path);
    others_keeps_exactly_the_others(held, path);
}

} // verus!
