//! What the dialogs do with the database service once the user has chosen:
//! clearing the list, removing or renaming one file, resynchronising the
//! names, adding a file pattern, and showing the NX Studio choice.

use vstd::prelude::*;
use crate::db::{
    answered, number_of, request_file_list, AddFilePattern, DbError, DbLink, DeleteFromDatabase,
    GetIntSetting, QuickNonReturningSqlCommand,
};
use crate::import::CLEAR_LISTS_SQL;
use crate::protocol::{add_file_pattern_command, delete_file_sql, get_int_setting_command, quick_sql_command};
use crate::rename::{prerename_files, rename_sql};
use crate::text::{chars_to_string, str_chars};
use crate::ui::{loword, manual_rename_command, manual_rename_sql, NxStudioDB};

verus! {

/// Empties both lists when it holds files (`listed` > 0) and the user
/// confirmed; gives whether it did.
pub fn clear_list(link: &mut DbLink, listed: usize, confirmed: bool) -> (r: Result<bool, DbError>)
    ensures
        !(listed > 0 && confirmed) ==> final(link).exchanges() == old(link).exchanges() && r == Ok::<
            bool,
            DbError,
        >(false),
        listed > 0 && confirmed ==> final(link).exchanges() == old(link).exchanges().push(
            (quick_sql_command(CLEAR_LISTS_SQL@), final(link).last_reply()),
        ) && r == (match final(link).last_reply() {
            Some(_) => Ok::<bool, DbError>(true),
            None => Err(DbError::Disconnected),
        }),
{
    if listed > 0 && confirmed {
        match QuickNonReturningSqlCommand(link, CLEAR_LISTS_SQL.to_owned()) {
            Ok(()) => Ok(true),
            Err(e) => Err(e),
        }
    } else {
        Ok(false)
    }
}

/// Removes the selected file, and its EXIF tags, from the lists; nothing is
/// selected when `path` is empty. Gives whether a file was removed.
pub fn erase_from_list(link: &mut DbLink, path: String) -> (r: Result<bool, DbError>)
    ensures
        path@.len() == 0 ==> final(link).exchanges() == old(link).exchanges() && r == Ok::<
            bool,
            DbError,
        >(false),
        path@.len() > 0 ==> final(link).exchanges() == old(link).exchanges().push(
            (quick_sql_command(delete_file_sql(path@)), final(link).last_reply()),
        ) && r == (match final(link).last_reply() {
            Some(_) => Ok::<bool, DbError>(true),
            None => Err(DbError::Disconnected),
        }),
{
    if path.as_str().is_empty() {
        return Ok(false);
    }
    match DeleteFromDatabase(link, path) {
        Ok(()) => Ok(true),
        Err(e) => Err(e),
    }
}

/// Gives the file `path` the name `new_name` by hand.
pub fn rename_by_hand(link: &mut DbLink, new_name: &str, path: &str) -> (r: Result<(), DbError>)
    ensures
        final(link).exchanges() == old(link).exchanges().push(
            (quick_sql_command(manual_rename_sql(new_name@, path@)), final(link).last_reply()),
        ),
        r == answered(final(link).last_reply()),
{
    QuickNonReturningSqlCommand(link, manual_rename_command(new_name, path))
}

/// Gives the unlocked files their names under `pattern` again, then asks for
/// the file list; it stops when the service is gone. Every `$(` of the
/// pattern must be followed by a `)` that a tag can be cut out with.
pub fn resync_names(link: &mut DbLink, pattern: &str) -> (r: Result<(), DbError>)
    requires
        rename_sql(pattern@) is Some,
    ensures
        ({
            let sql = rename_sql(pattern@)->0;
            let list = "transfer_data_to_main_file_list"@;
            if sql.len() == 0 {
                &&& final(link).exchanges() == old(link).exchanges().push(
                    (list, final(link).last_reply()),
                )
                &&& r == answered(final(link).last_reply())
            } else {
                let first = final(link).exchanges()[old(link).exchanges().len() as int];
                &&& first == (quick_sql_command(sql), first.1)
                &&& match first.1 {
                    None => final(link).exchanges() == old(link).exchanges().push(first) && r == Err::<
                        (),
                        DbError,
                    >(DbError::Disconnected),
                    Some(_) => final(link).exchanges() == old(link).exchanges().push(first).push(
                        (list, final(link).last_reply()),
                    ) && r == answered(final(link).last_reply()),
                }
            }
        }),
{
    let ghost start = link.exchanges();
    let r = prerename_files(link, pattern);
    if r.is_err() {
        return r;
    }
    let ghost mid = link.exchanges();
    let r2 = request_file_list(link);
    proof {
        if rename_sql(pattern@)->0.len() > 0 {
            assert(link.exchanges()[start.len() as int] == mid.last());
            assert(mid == start.push(mid.last()));
        }
    }
    r2
}

/// A text ended with a NUL, as the dialogs hand text on.
pub open spec fn nul_ended(s: Seq<char>) -> Seq<char> {
    s.push('\0')
}

fn nul_text(s: &str) -> (r: String)
    ensures
        r@ == nul_ended(s@),
{
    let mut v = str_chars(s);
    v.push('\0');
    chars_to_string(&v)
}

/// Adds the file pattern that the add-pattern dialog holds after position
/// `selected`, its description and mask each ended with a NUL.
pub fn add_pattern_from_dialog(link: &mut DbLink, selected: usize, description: &str, mask: &str) -> (r:
    Result<(), DbError>)
    ensures
        final(link).exchanges() == old(link).exchanges().push(
            (
                add_file_pattern_command(selected as nat, nul_ended(description@), nul_ended(mask@)),
                final(link).last_reply(),
            ),
        ),
        r == answered(final(link).last_reply()),
{
    AddFilePattern(link, selected, nul_text(description), nul_text(mask))
}

/// How the settings dialog shows the choice of NX Studio's database.
#[derive(PartialEq, Eq, Structural, Debug, Clone, Copy)]
pub enum NxChoice {
    /// The database was not found: the choice is off and cannot be changed.
    Unavailable,
    /// The database is used.
    Checked,
    /// The database is not used.
    Unchecked,
}

/// What the settings dialog shows for NX Studio's database: unavailable
/// unless it is found (at `candidate`, which exists when `candidate_exists`,
/// if no location is known yet); else checked when the setting
/// `nx_setting_id` is 1.
pub fn nx_studio_choice(
    link: &mut DbLink,
    nx: &mut NxStudioDB,
    candidate: &str,
    candidate_exists: bool,
    nx_setting_id: i32,
) -> (r: Result<NxChoice, DbError>)
    ensures
        old(nx).location_spec().len() > 0 ==> *final(nx) == *old(nx),
        old(nx).location_spec().len() == 0 ==> (if candidate_exists {
            final(nx).location_spec() == candidate@ && final(nx).found()
        } else {
            final(nx).location_spec() == old(nx).location_spec() && !final(nx).found()
        }),
        !final(nx).found() ==> final(link).exchanges() == old(link).exchanges() && r == Ok::<
            NxChoice,
            DbError,
        >(NxChoice::Unavailable),
        final(nx).found() ==> {
            &&& final(link).exchanges() == old(link).exchanges().push(
                (get_int_setting_command(nx_setting_id as int), final(link).last_reply()),
            )
            &&& r == match number_of(final(link).last_reply()) {
                Ok(n) => Ok(
                    if n == 1 {
                        NxChoice::Checked
                    } else {
                        NxChoice::Unchecked
                    },
                ),
                Err(e) => Err(e),
            }
        },
{
    if !nx.existant(candidate, candidate_exists) {
        return Ok(NxChoice::Unavailable);
    }
    match GetIntSetting(link, nx_setting_id) {
        Ok(n) => Ok(
            if n == 1 {
                NxChoice::Checked
            } else {
                NxChoice::Unchecked
            },
        ),
        Err(e) => Err(e),
    }
}

/// The identifier that a dialog's Cancel (and the window's close box) sends.
pub const IDCANCEL: i32 = 2;

/// The identifiers of the main window's buttons and menu items, as the
/// dialog resources define them.
#[derive(Clone, Copy)]
pub struct MainControls {
    pub add_picture: i32,
    pub add_picture_menu: i32,
    pub add_folder: i32,
    pub add_folder_menu: i32,
    pub save: i32,
    pub clear: i32,
    pub clear_menu: i32,
    pub erase: i32,
    pub erase_menu: i32,
    pub sync: i32,
    pub rename: i32,
    pub rename_menu: i32,
    pub lock_menu: i32,
    pub lock: i32,
    pub exif_menu: i32,
    pub exif: i32,
    pub settings: i32,
    pub info: i32,
}

/// What the main window does for a command from one of its controls.
#[derive(PartialEq, Eq, Structural, Debug, Clone, Copy)]
pub enum MainAction {
    /// Close the window and end the program.
    Quit,
    /// Ask for picture files and add them.
    AddPictures,
    /// Ask for a folder and add the pictures in it.
    AddFolder,
    /// Read the file list again from the database.
    RefreshList,
    /// Empty the list, once the user confirmed ([`clear_list`]).
    ClearList,
    /// Remove the selected file from the list ([`erase_from_list`]).
    EraseSelected,
    /// Work out the new names again and show them ([`resync_names`]).
    ResyncNames,
    /// Open the dialog that renames the selected file by hand ([`rename_by_hand`]).
    RenameByHand,
    /// Lock or unlock the selected file's name.
    ToggleLock,
    /// Show the selected file's EXIF fields.
    BrowseExif,
    /// Open the settings dialog.
    OpenSettings,
    /// Show the about box.
    ShowAbout,
    /// A command the main window does not handle.
    Nothing,
}

/// The action for the command `id` (the low word of the message's
/// parameter): Cancel first, then the controls in the window's order, the
/// first that matches deciding.
pub open spec fn main_action_spec(ids: MainControls, id: int) -> MainAction {
    if id == IDCANCEL {
        MainAction::Quit
    } else if id == ids.add_picture || id == ids.add_picture_menu {
        MainAction::AddPictures
    } else if id == ids.add_folder || id == ids.add_folder_menu {
        MainAction::AddFolder
    } else if id == ids.save {
        MainAction::RefreshList
    } else if id == ids.clear || id == ids.clear_menu {
        MainAction::ClearList
    } else if id == ids.erase || id == ids.erase_menu {
        MainAction::EraseSelected
    } else if id == ids.sync {
        MainAction::ResyncNames
    } else if id == ids.rename || id == ids.rename_menu {
        MainAction::RenameByHand
    } else if id == ids.lock_menu || id == ids.lock {
        MainAction::ToggleLock
    } else if id == ids.exif_menu || id == ids.exif {
        MainAction::BrowseExif
    } else if id == ids.settings {
        MainAction::OpenSettings
    } else if id == ids.info {
        MainAction::ShowAbout
    } else {
        MainAction::Nothing
    }
}

/// The identifiers of every control of the main window, IDCANCEL first.
pub open spec fn control_ids(ids: MainControls) -> Seq<i32> {
    seq![
        IDCANCEL,
        ids.add_picture,
        ids.add_picture_menu,
        ids.add_folder,
        ids.add_folder_menu,
        ids.save,
        ids.clear,
        ids.clear_menu,
        ids.erase,
        ids.erase_menu,
        ids.sync,
        ids.rename,
        ids.rename_menu,
        ids.lock_menu,
        ids.lock,
        ids.exif_menu,
        ids.exif,
        ids.settings,
        ids.info,
    ]
}

/// Where every control has an identifier of its own, each button and each
/// menu item does its own action, a button the same as its menu item;
/// Cancel quits.
pub proof fn law_each_control_does_its_action(ids: MainControls)
    requires
        control_ids(ids).no_duplicates(),
    ensures
        main_action_spec(ids, IDCANCEL as int) == MainAction::Quit,
        main_action_spec(ids, ids.add_picture as int) == MainAction::AddPictures,
        main_action_spec(ids, ids.add_picture_menu as int) == MainAction::AddPictures,
        main_action_spec(ids, ids.add_folder as int) == MainAction::AddFolder,
        main_action_spec(ids, ids.add_folder_menu as int) == MainAction::AddFolder,
        main_action_spec(ids, ids.save as int) == MainAction::RefreshList,
        main_action_spec(ids, ids.clear as int) == MainAction::ClearList,
        main_action_spec(ids, ids.clear_menu as int) == MainAction::ClearList,
        main_action_spec(ids, ids.erase as int) == MainAction::EraseSelected,
        main_action_spec(ids, ids.erase_menu as int) == MainAction::EraseSelected,
        main_action_spec(ids, ids.sync as int) == MainAction::ResyncNames,
        main_action_spec(ids, ids.rename as int) == MainAction::RenameByHand,
        main_action_spec(ids, ids.rename_menu as int) == MainAction::RenameByHand,
        main_action_spec(ids, ids.lock_menu as int) == MainAction::ToggleLock,
        main_action_spec(ids, ids.lock as int) == MainAction::ToggleLock,
        main_action_spec(ids, ids.exif_menu as int) == MainAction::BrowseExif,
        main_action_spec(ids, ids.exif as int) == MainAction::BrowseExif,
        main_action_spec(ids, ids.settings as int) == MainAction::OpenSettings,
        main_action_spec(ids, ids.info as int) == MainAction::ShowAbout,
{
    let c = control_ids(ids);
    assert forall|i: int, j: int| 0 <= i < j < c.len() implies c[i] != c[j] by {}
}


/// What the main window does for a command message whose parameter is
/// `w_param`: only its low word names the control.
pub fn main_action(ids: &MainControls, w_param: u64) -> (a: MainAction)
    ensures
        a == main_action_spec(*ids, w_param as int % 0x10000),
{
    let low = loword(w_param);
    let id: i32 = low as i32;
    if id == IDCANCEL {
        MainAction::Quit
    } else if id == ids.add_picture || id == ids.add_picture_menu {
        MainAction::AddPictures
    } else if id == ids.add_folder || id == ids.add_folder_menu {
        MainAction::AddFolder
    } else if id == ids.save {
        MainAction::RefreshList
    } else if id == ids.clear || id == ids.clear_menu {
        MainAction::ClearList
    } else if id == ids.erase || id == ids.erase_menu {
        MainAction::EraseSelected
    } else if id == ids.sync {
        MainAction::ResyncNames
    } else if id == ids.rename || id == ids.rename_menu {
        MainAction::RenameByHand
    } else if id == ids.lock_menu || id == ids.lock {
        MainAction::ToggleLock
    } else if id == ids.exif_menu || id == ids.exif {
        MainAction::BrowseExif
    } else if id == ids.settings {
        MainAction::OpenSettings
    } else if id == ids.info {
        MainAction::ShowAbout
    } else {
        MainAction::Nothing
    }
}

} // verus!
