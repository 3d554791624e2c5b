use exifrensc::db::{DbError, DbLink};
use exifrensc::dialogs::{
    add_pattern_from_dialog, clear_list, erase_from_list, nx_studio_choice, rename_by_hand,
    main_action, resync_names, MainAction, MainControls, NxChoice, IDCANCEL,
};
use exifrensc::ui::NxStudioDB;

fn dead_link() -> DbLink {
    let (tx, rx) = std::sync::mpsc::channel();
    drop(rx);
    DbLink::new(tx)
}

#[test]
fn an_empty_or_unconfirmed_list_is_not_cleared() {
    let mut link = dead_link();
    assert_eq!(clear_list(&mut link, 0, true), Ok(false));
    assert_eq!(clear_list(&mut link, 3, false), Ok(false));
    assert_eq!(clear_list(&mut link, 3, true), Err(DbError::Disconnected));
}

#[test]
fn nothing_selected_means_nothing_erased() {
    let mut link = dead_link();
    assert_eq!(erase_from_list(&mut link, String::new()), Ok(false));
    assert_eq!(erase_from_list(&mut link, "C:\\a.nef".to_string()), Err(DbError::Disconnected));
}

#[test]
fn renaming_and_resyncing_need_the_service() {
    let mut link = dead_link();
    assert_eq!(rename_by_hand(&mut link, "b.nef", "C:\\a.nef"), Err(DbError::Disconnected));
    assert_eq!(resync_names(&mut link, "holiday"), Err(DbError::Disconnected));
    assert_eq!(resync_names(&mut link, "$(Model)"), Err(DbError::Disconnected));
    assert_eq!(add_pattern_from_dialog(&mut link, 2, "JPEG", "*.jpg"), Err(DbError::Disconnected));
}

#[test]
fn nx_studio_is_unavailable_until_its_database_is_found() {
    let mut link = dead_link();
    let mut nx = NxStudioDB::new();
    assert_eq!(nx_studio_choice(&mut link, &mut nx, "C:\\FileData.db", false, 1011), Ok(NxChoice::Unavailable));
    assert_eq!(nx.location(), "");
    assert_eq!(nx_studio_choice(&mut link, &mut nx, "C:\\FileData.db", true, 1011), Err(DbError::Disconnected));
    assert_eq!(nx.location(), "C:\\FileData.db");
    assert_eq!(nx_studio_choice(&mut link, &mut nx, "D:\\Other.db", false, 1011), Err(DbError::Disconnected));
    assert_eq!(nx.location(), "C:\\FileData.db");
}

fn controls() -> MainControls {
    MainControls {
        add_picture: 1001,
        add_picture_menu: 40001,
        add_folder: 1002,
        add_folder_menu: 40002,
        save: 1003,
        clear: 1004,
        clear_menu: 40003,
        erase: 1005,
        erase_menu: 40004,
        sync: 1006,
        rename: 1007,
        rename_menu: 40005,
        lock_menu: 40006,
        lock: 1008,
        exif_menu: 40007,
        exif: 1009,
        settings: 1010,
        info: 1011,
    }
}

#[test]
fn the_main_window_acts_on_the_low_word_of_a_command() {
    let ids = controls();
    assert_eq!(main_action(&ids, IDCANCEL as u64), MainAction::Quit);
    assert_eq!(main_action(&ids, (5u64 << 16) | 2), MainAction::Quit);
    assert_eq!(main_action(&ids, 1001), MainAction::AddPictures);
    assert_eq!(main_action(&ids, 40001), MainAction::AddPictures);
    assert_eq!(main_action(&ids, (1u64 << 16) | 40002), MainAction::AddFolder);
    assert_eq!(main_action(&ids, 1003), MainAction::RefreshList);
    assert_eq!(main_action(&ids, 40003), MainAction::ClearList);
    assert_eq!(main_action(&ids, 1005), MainAction::EraseSelected);
    assert_eq!(main_action(&ids, 1006), MainAction::ResyncNames);
    assert_eq!(main_action(&ids, 40005), MainAction::RenameByHand);
    assert_eq!(main_action(&ids, 1008), MainAction::ToggleLock);
    assert_eq!(main_action(&ids, 40007), MainAction::BrowseExif);
    assert_eq!(main_action(&ids, 1010), MainAction::OpenSettings);
    assert_eq!(main_action(&ids, 1011), MainAction::ShowAbout);
    assert_eq!(main_action(&ids, 1), MainAction::Nothing);
    assert_eq!(main_action(&ids, 1001u64 << 16), MainAction::Nothing);
}

#[test]
fn the_first_control_that_matches_decides() {
    let mut ids = controls();
    ids.sync = 1003;
    assert_eq!(main_action(&ids, 1003), MainAction::RefreshList);
    ids.info = IDCANCEL;
    assert_eq!(main_action(&ids, 2), MainAction::Quit);
}
