//! Applying what the settings dialog shows to the settings held by the
//! database service.

use vstd::prelude::*;
use crate::db::{DbError, DbLink, Exchange, SetIntSetting, SetTextSetting};
use crate::import::{added, all_answered, sent_in_order};
use crate::protocol::{set_int_setting_command, set_text_setting_command};

verus! {

/// What the settings dialog shows when it is applied.
pub struct SettingsForm {
    /// The entry chosen in each drop-down list, under the id of its setting,
    /// in the order the settings are written.
    pub choices: Vec<(i32, isize)>,
    /// The id of the setting that holds the path to ExifTool.
    pub tool_path_id: i32,
    /// The path to ExifTool.
    pub tool_path: String,
    /// The id of the setting that says whether NX Studio's database is used.
    pub nx_studio_id: i32,
    /// Whether NX Studio's database is used (1) or not (0).
    pub nx_studio: isize,
}

/// The commands that write the drop-down choices, in order.
pub open spec fn choice_commands(choices: Seq<(i32, isize)>) -> Seq<Seq<char>> {
    choices.map_values(|c: (i32, isize)| set_int_setting_command(c.0 as int, c.1 as int))
}

/// The commands that write every setting of the form, in order: the
/// drop-down choices, then the path to ExifTool, then the NX Studio choice.
pub open spec fn settings_commands(form: SettingsForm) -> Seq<Seq<char>> {
    choice_commands(form.choices@) + seq![
        set_text_setting_command(form.tool_path_id as int, form.tool_path@),
        set_int_setting_command(form.nx_studio_id as int, form.nx_studio as int),
    ]
}

/// Once every command was answered, applying the form wrote each drop-down
/// choice in order, then the path to ExifTool, then the NX Studio choice:
/// one command per setting and nothing else.
pub proof fn law_apply_settings_writes_every_setting(
    form: SettingsForm,
    before: Seq<Exchange>,
    after: Seq<Exchange>,
)
    requires
        after.len() > before.len(),
        after.take(before.len() as int) == before,
        sent_in_order(added(before, after), settings_commands(form)),
        all_answered(added(before, after), settings_commands(form)) is Ok,
    ensures
        added(before, after).len() == form.choices.len() + 2,
        forall|i: int|
            0 <= i < form.choices.len() ==> (#[trigger] added(before, after)[i]).0
                == set_int_setting_command(form.choices@[i].0 as int, form.choices@[i].1 as int),
        added(before, after)[form.choices.len() as int].0 == set_text_setting_command(
            form.tool_path_id as int,
            form.tool_path@,
        ),
        added(before, after).last().0 == set_int_setting_command(
            form.nx_studio_id as int,
            form.nx_studio as int,
        ),
        forall|i: int| 0 <= i < added(before, after).len() ==> (#[trigger] added(before, after)[i]).1 is Some,
{
    let ex = added(before, after);
    let cmds = settings_commands(form);
    let n = form.choices.len() as int;
    assert(cmds.len() == n + 2);
    assert forall|i: int| 0 <= i < n implies (#[trigger] ex[i]).0 == set_int_setting_command(
        form.choices@[i].0 as int,
        form.choices@[i].1 as int,
    ) by {
        assert(ex[i].0 == cmds[i]);
        assert(cmds[i] == choice_commands(form.choices@)[i]);
    }
    assert(ex[n].0 == cmds[n]);
    assert(ex[n + 1].0 == cmds[n + 1]);
}


/// Writes every setting of `form`, one command each, stopping when the
/// service is gone.
pub fn ApplySettings(link: &mut DbLink, form: &SettingsForm) -> (r: Result<(), DbError>)
    ensures
        final(link).exchanges().len() > old(link).exchanges().len(),
        final(link).exchanges().take(old(link).exchanges().len() as int) == old(link).exchanges(),
        sent_in_order(added(old(link).exchanges(), final(link).exchanges()), settings_commands(*form)),
        r == all_answered(added(old(link).exchanges(), final(link).exchanges()), settings_commands(*form)),
{
    let ghost start = link.exchanges();
    let ghost cmds = settings_commands(*form);
    let ghost n = form.choices.len() as int;
    assert(added(start, link.exchanges()) =~= Seq::<Exchange>::empty());
    let mut i: usize = 0;
    while i < form.choices.len()
        invariant
            i <= form.choices.len(),
            n == form.choices.len(),
            start == old(link).exchanges(),
            cmds == settings_commands(*form),
            cmds.len() == n + 2,
            link.exchanges().len() == start.len() + i,
            link.exchanges().take(start.len() as int) == start,
            forall|j: int|
                0 <= j < i ==> (#[trigger] added(start, link.exchanges())[j]).0 == cmds[j]
                    && added(start, link.exchanges())[j].1 is Some,
        decreases form.choices.len() - i,
    {
        let ghost before = link.exchanges();
        let (id, value) = form.choices[i];
        let r = SetIntSetting(link, id, value);
        proof {
            assert(added(start, link.exchanges()) =~= added(start, before).push(link.exchanges().last()));
            assert(link.exchanges().take(start.len() as int) =~= start);
            assert(cmds[i as int] == set_int_setting_command(id as int, value as int));
        }
        if r.is_err() {
            proof {
                let ex = added(start, link.exchanges());
                assert(ex.len() == i + 1);
                assert forall|j: int| 0 <= j < ex.len() implies #[trigger] ex[j].0 == cmds[j] by {
                    if j < i {
                        assert(ex[j] == added(start, before)[j]);
                    }
                }
                assert forall|j: int| 0 <= j < ex.len() - 1 implies (#[trigger] ex[j]).1 is Some by {
                    assert(ex[j] == added(start, before)[j]);
                }
            }
            return r;
        }
        proof {
            let ex = added(start, link.exchanges());
            assert forall|j: int| 0 <= j < i + 1 implies (#[trigger] ex[j]).0 == cmds[j] && ex[j].1
                is Some by {
                if j < i {
                    assert(ex[j] == added(start, before)[j]);
                }
            }
        }
        i = i + 1;
    }
    let ghost mid = link.exchanges();
    let r = SetTextSetting(link, form.tool_path_id, form.tool_path.clone());
    let ghost after_text = link.exchanges();
    proof {
        assert(added(start, after_text) =~= added(start, mid).push(after_text.last()));
        assert(after_text.take(start.len() as int) =~= start);
        assert(cmds[n] == set_text_setting_command(form.tool_path_id as int, form.tool_path@));
        let ex = added(start, after_text);
        assert forall|j: int| 0 <= j < n implies (#[trigger] ex[j]).0 == cmds[j] && ex[j].1 is Some by {
            assert(ex[j] == added(start, mid)[j]);
        }
    }
    if r.is_err() {
        return r;
    }
    let r = SetIntSetting(link, form.nx_studio_id, form.nx_studio);
    proof {
        assert(added(start, link.exchanges()) =~= added(start, after_text).push(link.exchanges().last()));
        assert(link.exchanges().take(start.len() as int) =~= start);
        assert(cmds[n + 1] == set_int_setting_command(form.nx_studio_id as int, form.nx_studio as int));
        let ex = added(start, link.exchanges());
        assert forall|j: int| 0 <= j < n + 1 implies (#[trigger] ex[j]).0 == cmds[j] && ex[j].1 is Some by {
            assert(ex[j] == added(start, after_text)[j]);
        }
    }
    r
}

} // verus!
