//! What the database service reads out of each command that the user
//! interface writes, and what the user interface reads out of each reply.

use vstd::prelude::*;
use crate::protocol::{
    add_file_pattern_command, add_pattern_sql, delete_file_sql,
    count_command, count_sql, delete_file_pattern_command, delete_pattern_sql, exif_list_command,
    exif_list_sql, file_patterns_sql, file_spec_sql, get_file_patterns_command,
    get_file_spec_command, get_int_setting_command, get_text_setting_command, number_reply,
    parse_pattern_reply, pattern_reply, plan_spec, quick_sql_command, reload_settings_sql,
    save_settings_sql, select_setting_sql, set_int_setting_command, set_int_setting_sql,
    set_text_setting_command, set_text_setting_sql, tail_from, Plan, LIST_FILES_SQL,
    MAKE_TEMP_PATTERNS_SQL, RESTORE_PATTERNS_SQL,
};
use crate::import::CLEAR_LISTS_SQL;
use crate::text::{
    contains_seq, occurs_at, lemma_decimal_ascii, lemma_find_first_char, lemma_last_before_exact,
    all_ascii, decimal, lemma_all_ascii_concat, lemma_ascii_prefix_offsets, lemma_ascii_text,
    lemma_byte_len_end, lemma_char_width, lemma_find_last_char, lemma_get_exact,
    lemma_last_ascii_offset, lemma_offset_ends, lemma_offset_step, lemma_parse_decimal,
    lemma_signed_decimal_ascii, lemma_signed_decimal_digits, parse_usize, signed_decimal, str_get,
};

verus! {

/// The service tests the command names in this order, and a command that
/// starts with one of them starts with none of those tested before it, so
/// each command reaches the branch of its own name.
proof fn lemma_command_names_exclusive(cmd: Seq<char>)
    ensures
        "SetIntSetting"@.is_prefix_of(cmd) ==>
            !("GetIntSetting"@.is_prefix_of(cmd)),
        "GetTextSetting"@.is_prefix_of(cmd) ==>
            !("GetIntSetting"@.is_prefix_of(cmd)
                || "SetIntSetting"@.is_prefix_of(cmd)),
        "SetTextSetting"@.is_prefix_of(cmd) ==>
            !("GetIntSetting"@.is_prefix_of(cmd)
                || "SetIntSetting"@.is_prefix_of(cmd)
                || "GetTextSetting"@.is_prefix_of(cmd)),
        "SaveSettings"@.is_prefix_of(cmd) ==>
            !("GetIntSetting"@.is_prefix_of(cmd)
                || "SetIntSetting"@.is_prefix_of(cmd)
                || "GetTextSetting"@.is_prefix_of(cmd)
                || "SetTextSetting"@.is_prefix_of(cmd)),
        "ReloadSettings"@.is_prefix_of(cmd) ==>
            !("GetIntSetting"@.is_prefix_of(cmd)
                || "SetIntSetting"@.is_prefix_of(cmd)
                || "GetTextSetting"@.is_prefix_of(cmd)
                || "SetTextSetting"@.is_prefix_of(cmd)
                || "SaveSettings"@.is_prefix_of(cmd)),
        "Count"@.is_prefix_of(cmd) ==>
            !("GetIntSetting"@.is_prefix_of(cmd)
                || "SetIntSetting"@.is_prefix_of(cmd)
                || "GetTextSetting"@.is_prefix_of(cmd)
                || "SetTextSetting"@.is_prefix_of(cmd)
                || "SaveSettings"@.is_prefix_of(cmd)
                || "ReloadSettings"@.is_prefix_of(cmd)),
        "GetFilePatterns"@.is_prefix_of(cmd) ==>
            !("GetIntSetting"@.is_prefix_of(cmd)
                || "SetIntSetting"@.is_prefix_of(cmd)
                || "GetTextSetting"@.is_prefix_of(cmd)
                || "SetTextSetting"@.is_prefix_of(cmd)
                || "SaveSettings"@.is_prefix_of(cmd)
                || "ReloadSettings"@.is_prefix_of(cmd)
                || "Count"@.is_prefix_of(cmd)),
        "DeleteFilePattern"@.is_prefix_of(cmd) ==>
            !("GetIntSetting"@.is_prefix_of(cmd)
                || "SetIntSetting"@.is_prefix_of(cmd)
                || "GetTextSetting"@.is_prefix_of(cmd)
                || "SetTextSetting"@.is_prefix_of(cmd)
                || "SaveSettings"@.is_prefix_of(cmd)
                || "ReloadSettings"@.is_prefix_of(cmd)
                || "Count"@.is_prefix_of(cmd)
                || "GetFilePatterns"@.is_prefix_of(cmd)),
        "MakeTempFilePatternDatabase"@.is_prefix_of(cmd) ==>
            !("GetIntSetting"@.is_prefix_of(cmd)
                || "SetIntSetting"@.is_prefix_of(cmd)
                || "GetTextSetting"@.is_prefix_of(cmd)
                || "SetTextSetting"@.is_prefix_of(cmd)
                || "SaveSettings"@.is_prefix_of(cmd)
                || "ReloadSettings"@.is_prefix_of(cmd)
                || "Count"@.is_prefix_of(cmd)
                || "GetFilePatterns"@.is_prefix_of(cmd)
                || "DeleteFilePattern"@.is_prefix_of(cmd)),
        "RestoreFilePatternDatabase"@.is_prefix_of(cmd) ==>
            !("GetIntSetting"@.is_prefix_of(cmd)
                || "SetIntSetting"@.is_prefix_of(cmd)
                || "GetTextSetting"@.is_prefix_of(cmd)
                || "SetTextSetting"@.is_prefix_of(cmd)
                || "SaveSettings"@.is_prefix_of(cmd)
                || "ReloadSettings"@.is_prefix_of(cmd)
                || "Count"@.is_prefix_of(cmd)
                || "GetFilePatterns"@.is_prefix_of(cmd)
                || "DeleteFilePattern"@.is_prefix_of(cmd)
                || "MakeTempFilePatternDatabase"@.is_prefix_of(cmd)),
        "AddFilePattern"@.is_prefix_of(cmd) ==>
            !("GetIntSetting"@.is_prefix_of(cmd)
                || "SetIntSetting"@.is_prefix_of(cmd)
                || "GetTextSetting"@.is_prefix_of(cmd)
                || "SetTextSetting"@.is_prefix_of(cmd)
                || "SaveSettings"@.is_prefix_of(cmd)
                || "ReloadSettings"@.is_prefix_of(cmd)
                || "Count"@.is_prefix_of(cmd)
                || "GetFilePatterns"@.is_prefix_of(cmd)
                || "DeleteFilePattern"@.is_prefix_of(cmd)
                || "MakeTempFilePatternDatabase"@.is_prefix_of(cmd)
                || "RestoreFilePatternDatabase"@.is_prefix_of(cmd)),
        "QuickNonReturningSqlCommand"@.is_prefix_of(cmd) ==>
            !("GetIntSetting"@.is_prefix_of(cmd)
                || "SetIntSetting"@.is_prefix_of(cmd)
                || "GetTextSetting"@.is_prefix_of(cmd)
                || "SetTextSetting"@.is_prefix_of(cmd)
                || "SaveSettings"@.is_prefix_of(cmd)
                || "ReloadSettings"@.is_prefix_of(cmd)
                || "Count"@.is_prefix_of(cmd)
                || "GetFilePatterns"@.is_prefix_of(cmd)
                || "DeleteFilePattern"@.is_prefix_of(cmd)
                || "MakeTempFilePatternDatabase"@.is_prefix_of(cmd)
                || "RestoreFilePatternDatabase"@.is_prefix_of(cmd)
                || "AddFilePattern"@.is_prefix_of(cmd)),
        "GetFileSpec"@.is_prefix_of(cmd) ==>
            !("GetIntSetting"@.is_prefix_of(cmd)
                || "SetIntSetting"@.is_prefix_of(cmd)
                || "GetTextSetting"@.is_prefix_of(cmd)
                || "SetTextSetting"@.is_prefix_of(cmd)
                || "SaveSettings"@.is_prefix_of(cmd)
                || "ReloadSettings"@.is_prefix_of(cmd)
                || "Count"@.is_prefix_of(cmd)
                || "GetFilePatterns"@.is_prefix_of(cmd)
                || "DeleteFilePattern"@.is_prefix_of(cmd)
                || "MakeTempFilePatternDatabase"@.is_prefix_of(cmd)
                || "RestoreFilePatternDatabase"@.is_prefix_of(cmd)
                || "AddFilePattern"@.is_prefix_of(cmd)
                || "QuickNonReturningSqlCommand"@.is_prefix_of(cmd)),
        "Begin"@.is_prefix_of(cmd) ==>
            !("GetIntSetting"@.is_prefix_of(cmd)
                || "SetIntSetting"@.is_prefix_of(cmd)
                || "GetTextSetting"@.is_prefix_of(cmd)
                || "SetTextSetting"@.is_prefix_of(cmd)
                || "SaveSettings"@.is_prefix_of(cmd)
                || "ReloadSettings"@.is_prefix_of(cmd)
                || "Count"@.is_prefix_of(cmd)
                || "GetFilePatterns"@.is_prefix_of(cmd)
                || "DeleteFilePattern"@.is_prefix_of(cmd)
                || "MakeTempFilePatternDatabase"@.is_prefix_of(cmd)
                || "RestoreFilePatternDatabase"@.is_prefix_of(cmd)
                || "AddFilePattern"@.is_prefix_of(cmd)
                || "QuickNonReturningSqlCommand"@.is_prefix_of(cmd)
                || "GetFileSpec"@.is_prefix_of(cmd)),
        "Commit"@.is_prefix_of(cmd) ==>
            !("GetIntSetting"@.is_prefix_of(cmd)
                || "SetIntSetting"@.is_prefix_of(cmd)
                || "GetTextSetting"@.is_prefix_of(cmd)
                || "SetTextSetting"@.is_prefix_of(cmd)
                || "SaveSettings"@.is_prefix_of(cmd)
                || "ReloadSettings"@.is_prefix_of(cmd)
                || "Count"@.is_prefix_of(cmd)
                || "GetFilePatterns"@.is_prefix_of(cmd)
                || "DeleteFilePattern"@.is_prefix_of(cmd)
                || "MakeTempFilePatternDatabase"@.is_prefix_of(cmd)
                || "RestoreFilePatternDatabase"@.is_prefix_of(cmd)
                || "AddFilePattern"@.is_prefix_of(cmd)
                || "QuickNonReturningSqlCommand"@.is_prefix_of(cmd)
                || "GetFileSpec"@.is_prefix_of(cmd)
                || "Begin"@.is_prefix_of(cmd)),
        "transfer_data_to_main_file_list"@.is_prefix_of(cmd) ==>
            !("GetIntSetting"@.is_prefix_of(cmd)
                || "SetIntSetting"@.is_prefix_of(cmd)
                || "GetTextSetting"@.is_prefix_of(cmd)
                || "SetTextSetting"@.is_prefix_of(cmd)
                || "SaveSettings"@.is_prefix_of(cmd)
                || "ReloadSettings"@.is_prefix_of(cmd)
                || "Count"@.is_prefix_of(cmd)
                || "GetFilePatterns"@.is_prefix_of(cmd)
                || "DeleteFilePattern"@.is_prefix_of(cmd)
                || "MakeTempFilePatternDatabase"@.is_prefix_of(cmd)
                || "RestoreFilePatternDatabase"@.is_prefix_of(cmd)
                || "AddFilePattern"@.is_prefix_of(cmd)
                || "QuickNonReturningSqlCommand"@.is_prefix_of(cmd)
                || "GetFileSpec"@.is_prefix_of(cmd)
                || "Begin"@.is_prefix_of(cmd)
                || "Commit"@.is_prefix_of(cmd)),
        "transfer_data_to_exif_browser_list"@.is_prefix_of(cmd) ==>
            !("GetIntSetting"@.is_prefix_of(cmd)
                || "SetIntSetting"@.is_prefix_of(cmd)
                || "GetTextSetting"@.is_prefix_of(cmd)
                || "SetTextSetting"@.is_prefix_of(cmd)
                || "SaveSettings"@.is_prefix_of(cmd)
                || "ReloadSettings"@.is_prefix_of(cmd)
                || "Count"@.is_prefix_of(cmd)
                || "GetFilePatterns"@.is_prefix_of(cmd)
                || "DeleteFilePattern"@.is_prefix_of(cmd)
                || "MakeTempFilePatternDatabase"@.is_prefix_of(cmd)
                || "RestoreFilePatternDatabase"@.is_prefix_of(cmd)
                || "AddFilePattern"@.is_prefix_of(cmd)
                || "QuickNonReturningSqlCommand"@.is_prefix_of(cmd)
                || "GetFileSpec"@.is_prefix_of(cmd)
                || "Begin"@.is_prefix_of(cmd)
                || "Commit"@.is_prefix_of(cmd)
                || "transfer_data_to_main_file_list"@.is_prefix_of(cmd)),
        "Quit"@.is_prefix_of(cmd) ==>
            !("GetIntSetting"@.is_prefix_of(cmd)
                || "SetIntSetting"@.is_prefix_of(cmd)
                || "GetTextSetting"@.is_prefix_of(cmd)
                || "SetTextSetting"@.is_prefix_of(cmd)
                || "SaveSettings"@.is_prefix_of(cmd)
                || "ReloadSettings"@.is_prefix_of(cmd)
                || "Count"@.is_prefix_of(cmd)
                || "GetFilePatterns"@.is_prefix_of(cmd)
                || "DeleteFilePattern"@.is_prefix_of(cmd)
                || "MakeTempFilePatternDatabase"@.is_prefix_of(cmd)
                || "RestoreFilePatternDatabase"@.is_prefix_of(cmd)
                || "AddFilePattern"@.is_prefix_of(cmd)
                || "QuickNonReturningSqlCommand"@.is_prefix_of(cmd)
                || "GetFileSpec"@.is_prefix_of(cmd)
                || "Begin"@.is_prefix_of(cmd)
                || "Commit"@.is_prefix_of(cmd)
                || "transfer_data_to_main_file_list"@.is_prefix_of(cmd)
                || "transfer_data_to_exif_browser_list"@.is_prefix_of(cmd)),
{
    reveal_strlit("GetIntSetting");
    reveal_strlit("SetIntSetting");
    reveal_strlit("GetTextSetting");
    reveal_strlit("SetTextSetting");
    reveal_strlit("SaveSettings");
    reveal_strlit("ReloadSettings");
    reveal_strlit("Count");
    reveal_strlit("GetFilePatterns");
    reveal_strlit("DeleteFilePattern");
    reveal_strlit("MakeTempFilePatternDatabase");
    reveal_strlit("RestoreFilePatternDatabase");
    reveal_strlit("AddFilePattern");
    reveal_strlit("QuickNonReturningSqlCommand");
    reveal_strlit("GetFileSpec");
    reveal_strlit("Begin");
    reveal_strlit("Commit");
    reveal_strlit("transfer_data_to_main_file_list");
    reveal_strlit("transfer_data_to_exif_browser_list");
    reveal_strlit("Quit");
    if "SetIntSetting"@.is_prefix_of(cmd) {
        assert(cmd.subrange(0, 13)[0] == cmd[0]);
    }
    if "GetTextSetting"@.is_prefix_of(cmd) {
        assert(cmd.subrange(0, 14)[0] == cmd[0]);
        assert(cmd.subrange(0, 14)[3] == cmd[3]);
    }
    if "SetTextSetting"@.is_prefix_of(cmd) {
        assert(cmd.subrange(0, 14)[0] == cmd[0]);
        assert(cmd.subrange(0, 14)[3] == cmd[3]);
    }
    if "SaveSettings"@.is_prefix_of(cmd) {
        assert(cmd.subrange(0, 12)[0] == cmd[0]);
        assert(cmd.subrange(0, 12)[1] == cmd[1]);
    }
    if "ReloadSettings"@.is_prefix_of(cmd) {
        assert(cmd.subrange(0, 14)[0] == cmd[0]);
    }
    if "Count"@.is_prefix_of(cmd) {
        assert(cmd.subrange(0, 5)[0] == cmd[0]);
    }
    if "GetFilePatterns"@.is_prefix_of(cmd) {
        assert(cmd.subrange(0, 15)[0] == cmd[0]);
        assert(cmd.subrange(0, 15)[3] == cmd[3]);
    }
    if "DeleteFilePattern"@.is_prefix_of(cmd) {
        assert(cmd.subrange(0, 17)[0] == cmd[0]);
    }
    if "MakeTempFilePatternDatabase"@.is_prefix_of(cmd) {
        assert(cmd.subrange(0, 27)[0] == cmd[0]);
    }
    if "RestoreFilePatternDatabase"@.is_prefix_of(cmd) {
        assert(cmd.subrange(0, 26)[0] == cmd[0]);
        assert(cmd.subrange(0, 26)[2] == cmd[2]);
    }
    if "AddFilePattern"@.is_prefix_of(cmd) {
        assert(cmd.subrange(0, 14)[0] == cmd[0]);
    }
    if "QuickNonReturningSqlCommand"@.is_prefix_of(cmd) {
        assert(cmd.subrange(0, 27)[0] == cmd[0]);
    }
    if "GetFileSpec"@.is_prefix_of(cmd) {
        assert(cmd.subrange(0, 11)[0] == cmd[0]);
        assert(cmd.subrange(0, 11)[3] == cmd[3]);
        assert(cmd.subrange(0, 11)[7] == cmd[7]);
    }
    if "Begin"@.is_prefix_of(cmd) {
        assert(cmd.subrange(0, 5)[0] == cmd[0]);
    }
    if "Commit"@.is_prefix_of(cmd) {
        assert(cmd.subrange(0, 6)[0] == cmd[0]);
        assert(cmd.subrange(0, 6)[2] == cmd[2]);
    }
    if "transfer_data_to_main_file_list"@.is_prefix_of(cmd) {
        assert(cmd.subrange(0, 31)[0] == cmd[0]);
    }
    if "transfer_data_to_exif_browser_list"@.is_prefix_of(cmd) {
        assert(cmd.subrange(0, 34)[0] == cmd[0]);
        assert(cmd.subrange(0, 34)[17] == cmd[17]);
    }
    if "Quit"@.is_prefix_of(cmd) {
        assert(cmd.subrange(0, 4)[0] == cmd[0]);
        assert(cmd.subrange(0, 4)[3] == cmd[3]);
    }
}

/// The service reads back the id of a `GetIntSetting` command and queries that setting.
pub proof fn law_get_int_setting(id: int, settings: Seq<char>)
    ensures
        plan_spec(get_int_setting_command(id), settings) == Plan::QueryNumber(
            select_setting_sql(signed_decimal(id)),
        ),
{
    reveal_strlit("GetIntSetting=");
    reveal_strlit("GetIntSetting");
    let p = "GetIntSetting="@;
    let d = signed_decimal(id);
    let cmd = p + d;
    assert("GetIntSetting"@.is_prefix_of(cmd));
    lemma_signed_decimal_ascii(id);
    lemma_all_ascii_concat(p, d);
    lemma_ascii_text(cmd);
    assert(str_get(cmd, 14, cmd.len() as int) == Some(cmd.subrange(14, cmd.len() as int)));
    assert(cmd.subrange(14, cmd.len() as int) =~= d);
}

/// `signed_decimal(i)` holds no `=`, `&` or `|`.
proof fn lemma_signed_decimal_plain(i: int)
    ensures
        forall|j: int|
            0 <= j < signed_decimal(i).len() ==> #[trigger] signed_decimal(i)[j] != '=' && signed_decimal(i)[j] != '&'
                && signed_decimal(i)[j] != '|',
{
    lemma_signed_decimal_digits(i);
}

/// The service reads back the id and the value of a `SetIntSetting` command.
pub proof fn law_set_int_setting(id: int, value: int, settings: Seq<char>)
    ensures
        plan_spec(set_int_setting_command(id, value), settings) == Plan::Execute(
            set_int_setting_sql(signed_decimal(value), signed_decimal(id)),
        ),
{
    reveal_strlit("SetIntSetting=");
    reveal_strlit("SetIntSetting");
    reveal_strlit("=");
    let p = "SetIntSetting="@;
    let a = signed_decimal(id);
    let b = signed_decimal(value);
    let cmd = p + a + "="@ + b;
    lemma_command_names_exclusive(cmd);
    assert("SetIntSetting"@.is_prefix_of(cmd));
    lemma_signed_decimal_ascii(id);
    lemma_signed_decimal_ascii(value);
    lemma_signed_decimal_plain(value);
    lemma_all_ascii_concat(p, a);
    lemma_all_ascii_concat(p + a, "="@);
    lemma_all_ascii_concat(p + a + "="@, b);
    lemma_ascii_text(cmd);
    let k: int = (p.len() + a.len()) as int;
    assert forall|j: int| k < j < cmd.len() implies cmd[j] != '=' by {
        assert(cmd[j] == b[j - k - 1]);
    }
    lemma_find_last_char(cmd, '=', k);
    assert("="@ =~= seq!['=']);
    assert(str_get(cmd, k + 1, cmd.len() as int) == Some(cmd.subrange(k + 1, cmd.len() as int)));
    assert(str_get(cmd, 14, k) == Some(cmd.subrange(14, k)));
    assert(cmd.subrange(k + 1, cmd.len() as int) =~= b);
    assert(cmd.subrange(14, k) =~= a);
}

/// The service reads the text after `GetTextSetting` and queries that
/// setting: the `=` that follows the command's name stays in the query.
pub proof fn law_get_text_setting(id: int, settings: Seq<char>)
    ensures
        plan_spec(get_text_setting_command(id), settings) == Plan::QueryText(
            select_setting_sql("="@ + signed_decimal(id)),
        ),
{
    reveal_strlit("GetTextSetting=");
    reveal_strlit("=");
    reveal_strlit("GetTextSetting");
    let p = "GetTextSetting="@;
    let a = signed_decimal(id);
    let cmd = p + a;
    lemma_command_names_exclusive(cmd);
    assert("GetTextSetting"@.is_prefix_of(cmd));
    lemma_signed_decimal_ascii(id);
    lemma_tail(cmd, 14);
    assert(cmd.subrange(14, cmd.len() as int) =~= "="@ + a);
}

/// The service reads back the id and the whole value of a `SetTextSetting`
/// command, whatever the value holds.
pub proof fn law_set_text_setting(id: int, value: Seq<char>, settings: Seq<char>)
    ensures
        plan_spec(set_text_setting_command(id, value), settings) == Plan::Execute(
            set_text_setting_sql(value, signed_decimal(id)),
        ),
{
    reveal_strlit("SetTextSetting=");
    reveal_strlit("SetTextSetting");
    reveal_strlit("=");
    let p = "SetTextSetting="@;
    let a = signed_decimal(id);
    let cmd = p + a + "="@ + value;
    lemma_command_names_exclusive(cmd);
    assert("SetTextSetting"@.is_prefix_of(cmd));
    lemma_signed_decimal_ascii(id);
    lemma_signed_decimal_plain(id);
    assert(cmd.take(15) =~= p);
    lemma_tail(cmd, 15);
    let rest = a + "="@ + value;
    assert(cmd.subrange(15, cmd.len() as int) =~= rest);
    let k = a.len() as int;
    assert(rest[k] == '=');
    assert forall|j: int| 0 <= j < k implies rest[j] != '=' by {
        assert(rest[j] == a[j]);
    }
    lemma_find_first_char(rest, '=', k);
    assert("="@ =~= seq!['=']);
    lemma_all_ascii_concat(a, "="@);
    assert(rest.take(k + 1) =~= a + "="@);
    assert forall|i: int| 0 <= i < k + 1 implies (#[trigger] rest[i] as u32) < 0x80 by {
        assert(rest[i] == (a + "="@)[i]);
    }
    lemma_ascii_prefix_offsets(rest, k + 1);
    lemma_get_exact(rest, 0, k);
    assert(rest.subrange(0, k) =~= a);
    lemma_tail(rest, k + 1);
    assert(rest.subrange(k + 1, rest.len() as int) =~= value);
}

/// The service writes the settings to disc on `SaveSettings`.
pub proof fn law_save_settings(settings: Seq<char>)
    ensures
        plan_spec("SaveSettings"@, settings) == Plan::Batch(save_settings_sql(settings)),
{
    let cmd = "SaveSettings"@;
    reveal_strlit("SaveSettings");
    lemma_command_names_exclusive(cmd);
    assert("SaveSettings"@.is_prefix_of(cmd));
}

/// The service reloads the settings from disc on `ReloadSettings`.
pub proof fn law_reload_settings(settings: Seq<char>)
    ensures
        plan_spec("ReloadSettings"@, settings) == Plan::Batch(reload_settings_sql(settings)),
{
    let cmd = "ReloadSettings"@;
    reveal_strlit("ReloadSettings");
    lemma_command_names_exclusive(cmd);
    assert("ReloadSettings"@.is_prefix_of(cmd));
}

/// The service reads back what to count and, when it holds no `=`, the table.
pub proof fn law_count(what: Seq<char>, table: Seq<char>, settings: Seq<char>)
    requires
        forall|j: int| 0 <= j < table.len() ==> table[j] != '=',
    ensures
        plan_spec(count_command(what, table), settings) == Plan::QueryNumber(count_sql(what, table)),
{
    reveal_strlit("Count=");
    reveal_strlit("Count");
    reveal_strlit("=");
    let p = "Count="@;
    let cmd = p + what + "="@ + table;
    lemma_command_names_exclusive(cmd);
    assert("Count"@.is_prefix_of(cmd));
    let k: int = (p.len() + what.len()) as int;
    assert(cmd[k] == '=');
    assert forall|j: int| k < j < cmd.len() implies cmd[j] != '=' by {
        assert(cmd[j] == table[j - k - 1]);
    }
    lemma_find_last_char(cmd, '=', k);
    assert("="@ =~= seq!['=']);
    lemma_ascii_prefix(cmd, 6);
    lemma_ascii_prefix_offsets(cmd, 6);
    lemma_offset_step(cmd, k);
    lemma_char_width('=');
    lemma_get_exact(cmd, 6, k);
    lemma_get_exact(cmd, k + 1, cmd.len() as int);
    lemma_byte_len_end(cmd);
    assert(cmd.subrange(k + 1, cmd.len() as int) =~= table);
    assert(cmd.subrange(6, k) =~= what);
}

/// The service reads back the index of a `GetFilePatterns` command.
pub proof fn law_get_file_patterns(idx: nat, settings: Seq<char>)
    ensures
        plan_spec(get_file_patterns_command(idx), settings) == Plan::QueryNamePattern(
            file_patterns_sql(decimal(idx)),
        ),
{
    reveal_strlit("GetFilePatterns=");
    reveal_strlit("GetFilePatterns");
    let p = "GetFilePatterns="@;
    let cmd = p + decimal(idx);
    lemma_command_names_exclusive(cmd);
    assert("GetFilePatterns"@.is_prefix_of(cmd));
    lemma_tail(cmd, 16);
    assert(cmd.subrange(16, cmd.len() as int) =~= decimal(idx));
}

/// The service reads back the name of a `DeleteFilePattern` command.
pub proof fn law_delete_file_pattern(name: Seq<char>, settings: Seq<char>)
    ensures
        plan_spec(delete_file_pattern_command(name), settings) == Plan::Execute(
            delete_pattern_sql(name),
        ),
{
    reveal_strlit("DeleteFilePattern=");
    reveal_strlit("DeleteFilePattern");
    let p = "DeleteFilePattern="@;
    let cmd = p + name;
    lemma_command_names_exclusive(cmd);
    assert("DeleteFilePattern"@.is_prefix_of(cmd));
    lemma_tail(cmd, 18);
    assert(cmd.subrange(18, cmd.len() as int) =~= name);
}

/// `MakeTempFilePatternDatabase` copies the pattern table.
pub proof fn law_make_temp_patterns(settings: Seq<char>)
    ensures
        plan_spec("MakeTempFilePatternDatabase"@, settings) == Plan::Batch(MAKE_TEMP_PATTERNS_SQL@),
{
    let cmd = "MakeTempFilePatternDatabase"@;
    reveal_strlit("MakeTempFilePatternDatabase");
    lemma_command_names_exclusive(cmd);
    assert("MakeTempFilePatternDatabase"@.is_prefix_of(cmd));
}

/// `RestoreFilePatternDatabase` puts the copied pattern table back.
pub proof fn law_restore_patterns(settings: Seq<char>)
    ensures
        plan_spec("RestoreFilePatternDatabase"@, settings) == Plan::Batch(RESTORE_PATTERNS_SQL@),
{
    let cmd = "RestoreFilePatternDatabase"@;
    reveal_strlit("RestoreFilePatternDatabase");
    lemma_command_names_exclusive(cmd);
    assert("RestoreFilePatternDatabase"@.is_prefix_of(cmd));
}

/// The service runs the SQL of a `QuickNonReturningSqlCommand` as it was sent.
pub proof fn law_quick_sql(sql: Seq<char>, settings: Seq<char>)
    ensures
        plan_spec(quick_sql_command(sql), settings) == Plan::Batch(sql),
{
    reveal_strlit("QuickNonReturningSqlCommand=");
    reveal_strlit("QuickNonReturningSqlCommand");
    let p = "QuickNonReturningSqlCommand="@;
    let cmd = p + sql;
    lemma_command_names_exclusive(cmd);
    assert("QuickNonReturningSqlCommand"@.is_prefix_of(cmd));
    assert(cmd.take(28) =~= p);
    lemma_tail(cmd, 28);
    assert(cmd.subrange(28, cmd.len() as int) =~= sql);
}

/// Removing a file from the lists runs one batch that deletes both the
/// file's row and its EXIF tags.
pub proof fn law_delete_removes_file_and_tags(path: Seq<char>, settings: Seq<char>)
    ensures
        plan_spec(quick_sql_command(delete_file_sql(path)), settings) matches Plan::Batch(sql) && contains_seq(
            sql,
            "DELETE FROM files WHERE path='"@ + path + "';"@,
        ) && contains_seq(sql, "DELETE FROM exif WHERE path='"@ + path + "';"@),
{
    let sql = delete_file_sql(path);
    law_quick_sql(sql, settings);
    reveal_strlit("DELETE FROM exif WHERE path='");
    reveal_strlit("';DELETE FROM files WHERE path='");
    reveal_strlit("DELETE FROM files WHERE path='");
    reveal_strlit("';");
    let e = "DELETE FROM exif WHERE path='"@;
    let f = "DELETE FROM files WHERE path='"@;
    assert("';DELETE FROM files WHERE path='"@ =~= "';"@ + f);
    assert(sql =~= (e + path + "';"@) + (f + path + "';"@));
    let k: int = (e.len() + path.len() + 2) as int;
    assert(occurs_at(sql, f + path + "';"@, k)) by {
        assert(sql.subrange(k, k + (f + path + "';"@).len() as int) =~= f + path + "';"@);
    }
    assert(occurs_at(sql, e + path + "';"@, 0)) by {
        assert(sql.subrange(0, (e + path + "';"@).len() as int) =~= e + path + "';"@);
    }
}

/// Clearing the list runs one batch that empties both the files table and
/// the EXIF table.
pub proof fn law_clear_empties_both_tables(settings: Seq<char>)
    ensures
        plan_spec(quick_sql_command(CLEAR_LISTS_SQL@), settings) matches Plan::Batch(sql) && contains_seq(
            sql,
            "DELETE FROM files;"@,
        ) && contains_seq(sql, "DELETE FROM exif;"@),
{
    let sql = CLEAR_LISTS_SQL@;
    law_quick_sql(sql, settings);
    reveal_strlit("DELETE FROM exif;DELETE FROM files;");
    reveal_strlit("DELETE FROM files;");
    reveal_strlit("DELETE FROM exif;");
    assert(sql =~= "DELETE FROM exif;"@ + "DELETE FROM files;"@);
    assert(occurs_at(sql, "DELETE FROM exif;"@, 0)) by {
        assert(sql.subrange(0, 17) =~= "DELETE FROM exif;"@);
    }
    assert(occurs_at(sql, "DELETE FROM files;"@, 17)) by {
        assert(sql.subrange(17, 35) =~= "DELETE FROM files;"@);
    }
}

/// The service reads back the setting id of a `GetFileSpec` command.
#[verifier::rlimit(40)]
pub proof fn law_get_file_spec(idx: nat, settings: Seq<char>)
    ensures
        plan_spec(get_file_spec_command(idx), settings) == Plan::QueryText(
            file_spec_sql(decimal(idx)),
        ),
{
    reveal_strlit("GetFileSpec=");
    reveal_strlit("GetFileSpec");
    let p = "GetFileSpec="@;
    let cmd = p + decimal(idx);
    lemma_command_names_exclusive(cmd);
    assert("GetFileSpec"@.is_prefix_of(cmd));
    lemma_tail(cmd, 12);
    assert(cmd.subrange(12, cmd.len() as int) =~= decimal(idx));
}

/// `Begin` opens a transaction.
pub proof fn law_begin(settings: Seq<char>)
    ensures
        plan_spec("Begin"@, settings) == Plan::Execute("BEGIN;"@),
{
    let cmd = "Begin"@;
    reveal_strlit("Begin");
    lemma_command_names_exclusive(cmd);
    assert("Begin"@.is_prefix_of(cmd));
}

/// `Commit` commits it.
pub proof fn law_commit(settings: Seq<char>)
    ensures
        plan_spec("Commit"@, settings) == Plan::Execute("COMMIT;"@),
{
    let cmd = "Commit"@;
    reveal_strlit("Commit");
    lemma_command_names_exclusive(cmd);
    assert("Commit"@.is_prefix_of(cmd));
}

/// The file list is read on `transfer_data_to_main_file_list`.
pub proof fn law_file_list(settings: Seq<char>)
    ensures
        plan_spec("transfer_data_to_main_file_list"@, settings) == Plan::ListFiles(LIST_FILES_SQL@),
{
    let cmd = "transfer_data_to_main_file_list"@;
    reveal_strlit("transfer_data_to_main_file_list");
    lemma_command_names_exclusive(cmd);
    assert("transfer_data_to_main_file_list"@.is_prefix_of(cmd));
}

/// The service reads back the path of an EXIF list request.
pub proof fn law_exif_list(path: Seq<char>, settings: Seq<char>)
    ensures
        plan_spec(exif_list_command(path), settings) == Plan::ListExif(exif_list_sql(path)),
{
    reveal_strlit("transfer_data_to_exif_browser_list");
    let p = "transfer_data_to_exif_browser_list"@;
    let cmd = p + path;
    lemma_command_names_exclusive(cmd);
    assert("transfer_data_to_exif_browser_list"@.is_prefix_of(cmd));
    lemma_tail(cmd, 34);
    assert(cmd.subrange(34, cmd.len() as int) =~= path);
}

/// `Quit` asks the main thread to quit.
pub proof fn law_quit(settings: Seq<char>)
    ensures
        plan_spec("Quit"@, settings) == Plan::Quit,
{
    let cmd = "Quit"@;
    reveal_strlit("Quit");
    lemma_command_names_exclusive(cmd);
    assert("Quit"@.is_prefix_of(cmd));
}

/// A number reply reads back as the number.
pub proof fn law_number_reply(n: nat)
    requires
        n <= usize::MAX,
    ensures
        parse_usize(number_reply(n)) == Some(n),
{
    lemma_parse_decimal(n);
}

/// A pattern reply reads back as its name and its specification, when the
/// specification holds no `&`.
pub proof fn law_pattern_reply(name: Seq<char>, spec: Seq<char>)
    requires
        forall|j: int| 0 <= j < spec.len() ==> spec[j] != '&',
    ensures
        parse_pattern_reply(pattern_reply(name, spec)) == Some((name, spec)),
{
    reveal_strlit("&");
    let r = name + "&"@ + spec;
    let k: int = name.len() as int;
    assert(r[k] == '&');
    assert forall|j: int| k < j < r.len() implies r[j] != '&' by {
        assert(r[j] == spec[j - k - 1]);
    }
    lemma_find_last_char(r, '&', k);
    assert("&"@ =~= seq!['&']);
    lemma_offset_ends(r);
    lemma_offset_step(r, k);
    lemma_char_width('&');
    lemma_get_exact(r, 0, k);
    lemma_get_exact(r, k + 1, r.len() as int);
    lemma_byte_len_end(r);
    assert(r.subrange(0, k) =~= name);
    assert(r.subrange(k + 1, r.len() as int) =~= spec);
}

/// The first `m` characters of `cmd` take one byte each.
proof fn lemma_ascii_prefix(cmd: Seq<char>, m: int)
    requires
        0 <= m <= cmd.len(),
        all_ascii(cmd.take(m)),
    ensures
        forall|i: int| 0 <= i < m ==> (#[trigger] cmd[i] as u32) < 0x80,
{
    assert forall|i: int| 0 <= i < m implies (#[trigger] cmd[i] as u32) < 0x80 by {
        assert(cmd.take(m)[i] == cmd[i]);
    }
}

/// The text after the first `m` one-byte characters of `cmd`.
proof fn lemma_tail(cmd: Seq<char>, m: int)
    requires
        0 <= m <= cmd.len(),
        all_ascii(cmd.take(m)),
    ensures
        tail_from(cmd, m) == Some(cmd.subrange(m, cmd.len() as int)),
{
    lemma_ascii_prefix(cmd, m);
    lemma_ascii_prefix_offsets(cmd, m);
    lemma_byte_len_end(cmd);
    lemma_get_exact(cmd, m, cmd.len() as int);
}

/// An occurrence of `p` in `s` from index `m` on is one in `s.skip(m)`.
proof fn lemma_occurs_skip(s: Seq<char>, p: Seq<char>, m: int, j: int)
    requires
        0 <= m <= j,
        occurs_at(s, p, j),
    ensures
        occurs_at(s.skip(m), p, j - m),
{
    assert(s.skip(m).subrange(j - m, j - m + p.len()) =~= s.subrange(j, j + p.len()));
}

/// The service reads back the index of an `AddFilePattern` command, and its
/// name and specification without their last characters, which must take one
/// byte each (callers end both with a NUL). Neither may hold the separators
/// in a way that moves the last `|+|` or `|$|` of the command.
#[verifier::rlimit(60)]
pub proof fn law_add_file_pattern(idx: nat, name: Seq<char>, spec: Seq<char>, settings: Seq<char>)
    requires
        name.len() > 0,
        (name.last() as u32) < 0x80,
        spec.len() > 0,
        (spec.last() as u32) < 0x80,
        !contains_seq("+|"@ + name + "|$|"@ + spec, "|+|"@),
        !contains_seq("$|"@ + spec, "|$|"@),
    ensures
        plan_spec(add_file_pattern_command(idx, name, spec), settings) == Plan::Batch(
            add_pattern_sql(decimal(idx), name.drop_last(), spec.drop_last()),
        ),
{
    reveal_strlit("AddFilePattern=");
    reveal_strlit("AddFilePattern");
    reveal_strlit("=");
    reveal_strlit("|+|");
    reveal_strlit("|$|");
    reveal_strlit("+|");
    reveal_strlit("$|");
    let p = "AddFilePattern="@;
    let d = decimal(idx);
    let cmd = p + d + "|+|"@ + name + "|$|"@ + spec;
    lemma_command_names_exclusive(cmd);
    assert("AddFilePattern"@.is_prefix_of(cmd));
    let a: int = (p.len() + d.len()) as int;
    let b: int = a + 3 + name.len();
    lemma_decimal_ascii(idx);
    lemma_all_ascii_concat(p, d);
    lemma_all_ascii_concat(p + d, "|+|"@);
    assert(cmd.take(a + 3) =~= p + d + "|+|"@);
    lemma_ascii_prefix_offsets(cmd, a + 3);
    // the first `=`
    assert forall|j: int| 0 <= j < 14 implies cmd[j] != '=' by {}
    assert(cmd[14] == '=');
    lemma_find_first_char(cmd, '=', 14);
    assert("="@ =~= seq!['=']);
    // the last `|+|`
    assert(cmd.subrange(a, a + 3) =~= "|+|"@);
    assert(cmd.skip(a + 1) =~= "+|"@ + name + "|$|"@ + spec);
    assert forall|j: int| a < j < cmd.len() implies !occurs_at(cmd, "|+|"@, j) by {
        if occurs_at(cmd, "|+|"@, j) {
            lemma_occurs_skip(cmd, "|+|"@, a + 1, j);
        }
    }
    lemma_last_before_exact(cmd, "|+|"@, cmd.len() as int, a);
    // the last `|$|`
    assert(cmd.subrange(b, b + 3) =~= "|$|"@);
    assert(cmd.skip(b + 1) =~= "$|"@ + spec);
    assert forall|j: int| b < j < cmd.len() implies !occurs_at(cmd, "|$|"@, j) by {
        if occurs_at(cmd, "|$|"@, j) {
            lemma_occurs_skip(cmd, "|$|"@, b + 1, j);
        }
    }
    lemma_last_before_exact(cmd, "|$|"@, cmd.len() as int, b);
    // byte offsets round the name and the specification
    assert(cmd[b - 1] == name.last());
    lemma_offset_step(cmd, b - 1);
    lemma_char_width(name.last());
    assert(cmd[b] == '|');
    assert(cmd[b + 1] == '$');
    assert(cmd[b + 2] == '|');
    lemma_offset_step(cmd, b);
    lemma_offset_step(cmd, b + 1);
    lemma_offset_step(cmd, b + 2);
    lemma_char_width('|');
    lemma_char_width('$');
    assert(cmd.last() == spec.last());
    lemma_last_ascii_offset(cmd);
    lemma_get_exact(cmd, 15, a);
    lemma_get_exact(cmd, a + 3, b - 1);
    lemma_get_exact(cmd, b + 3, cmd.len() - 1);
    assert(cmd.subrange(15, a) =~= d);
    assert(cmd.subrange(a + 3, b - 1) =~= name.drop_last());
    assert(cmd.subrange(b + 3, cmd.len() - 1) =~= spec.drop_last());
}

} // verus!
