//! Properties that hold across the operations of the library.

use vstd::prelude::*;
use crate::backup::{entry_name_spec, pause_seconds_spec, LoopModel, Outcome};
use crate::state::{
    ends_in_component, ends_in_name, AppProfile, AppState, ProfileModel, StateModel,
};
use crate::text::{
    decimal_spec, digit_char, lemma_trim_end_shape, lemma_trim_start_shape, trim_end_spec,
    trim_spec, trim_start_spec, white_space,
};

verus! {

/// Loading a profile makes every profile field of the state that of the
/// profile, and leaves the start counter and the backup switch alone.
pub proof fn law_load_takes_every_profile_field(s: StateModel, p: ProfileModel)
    ensures
        s.loaded(p).profile_model() == p,
        s.loaded(p).count == s.count,
        s.loaded(p).backup_status == s.backup_status,
{
}

/// A profile saved to the current profile's file ("save"), once loaded into any
/// state, gives back every profile field of the state it was saved from.
pub proof fn law_saved_profile_loads_back(s: StateModel, data: ProfileModel, t: StateModel)
    ensures
        t.loaded(s.staged(data).profile_model()).profile_model() == s.staged(data).profile_model(),
{
}

/// A profile saved under a new name ("new"), once loaded into any state, gives
/// back every profile field of the state it was saved from, the new name too.
pub proof fn law_new_profile_loads_back(
    s: StateModel,
    data: ProfileModel,
    name: Seq<char>,
    t: StateModel,
)
    ensures
        ({
            let saved_state = StateModel { profile: name, ..s.staged(data) };
            let saved = ProfileModel { profile: name, ..s.staged(data).profile_model() };
            t.loaded(saved).profile_model() == saved_state.profile_model()
        }),
{
}

proof fn lemma_trim_keeps_unpadded(s: Seq<char>)
    requires
        s.len() > 0,
        !white_space(s[0]),
        !white_space(s.last()),
    ensures
        trim_spec(s) == s,
{
    assert(trim_start_spec(s) == s);
    assert(trim_end_spec(s) == s);
}

proof fn lemma_trim_blank(s: Seq<char>)
    requires
        forall|i: int| 0 <= i < s.len() ==> white_space(#[trigger] s[i]),
    ensures
        trim_start_spec(s).len() == 0,
    decreases s.len(),
{
    if s.len() > 0 {
        let t = s.drop_first();
        assert(white_space(s[0]));
        assert forall|i: int| 0 <= i < t.len() implies white_space(#[trigger] t[i]) by {
            assert(t[i] == s[i + 1]);
        }
        lemma_trim_blank(t);
    }
}

/// The profile name written to the configuration on closing is the one taken
/// at the next start, where it is not empty and neither begins nor ends with
/// white space.
pub proof fn law_config_round_trip(closing: StateModel, starting: StateModel)
    requires
        closing.profile.len() > 0,
        !white_space(closing.profile[0]),
        !white_space(closing.profile.last()),
    ensures
        starting.adopted_profile(Some(closing.config_text())) == closing.profile,
{
    lemma_trim_keeps_unpadded(closing.profile);
}

/// Configuration text made only of white space names no profile.
pub proof fn law_blank_config_names_no_profile(starting: StateModel, text: Seq<char>)
    requires
        forall|i: int| 0 <= i < text.len() ==> white_space(#[trigger] text[i]),
    ensures
        starting.adopted_profile(Some(text)).len() == 0,
{
    lemma_trim_blank(text);
    let t = trim_start_spec(text);
    assert(t.len() == 0);
    assert(trim_end_spec(t) == t);
}

proof fn lemma_rotation_from(m: LoopModel, k: nat)
    requires
        m.backup_number > 0,
        m.slot <= m.backup_number,
        !m.pending,
    ensures
        m.uninterrupted_slots(k).len() == k,
        forall|i: int|
            0 <= i < k ==> #[trigger] m.uninterrupted_slots(k)[i] == (m.slot + i) % (
            m.backup_number as int),
    decreases k, (if m.slot < m.backup_number { 0int } else { 1int }),
{
    let n = m.backup_number as int;
    if k == 0 {
    } else if m.slot < m.backup_number {
        let next = m.checked(m.count, true).finished();
        assert(next.slot == m.slot + 1);
        lemma_rotation_from(next, (k - 1) as nat);
        let rest = next.uninterrupted_slots((k - 1) as nat);
        let all = m.uninterrupted_slots(k);
        assert(all == seq![m.slot] + rest);
        assert forall|i: int| 0 <= i < k implies #[trigger] all[i] == (m.slot + i) % n by {
            if i == 0 {
                vstd::arithmetic::div_mod::lemma_small_mod(m.slot as nat, n as nat);
            } else {
                assert(all[i] == rest[i - 1]);
            }
        }
    } else {
        let next = m.checked(m.count, true);
        assert(next.slot == 0);
        lemma_rotation_from(next, k);
        assert forall|i: int| 0 <= i < k implies #[trigger] m.uninterrupted_slots(k)[i] == (m.slot
            + i) % n by {
            vstd::arithmetic::div_mod::lemma_mod_add_multiples_vanish(i, n);
        }
    }
}

/// A schedule that is never told to stop writes its backups to the slots in
/// turn, starting again at the first after the last: the `i`-th backup goes
/// to slot `i % n`, that is to "Backup (i % n + 1)".
pub proof fn law_backups_rotate(count: u32, backup_time: u32, backup_number: u32, k: nat)
    requires
        backup_number > 0,
    ensures
        ({
            let slots = LoopModel::fresh(count, backup_time, backup_number).uninterrupted_slots(k);
            &&& slots.len() == k
            &&& forall|i: int|
                0 <= i < k ==> #[trigger] slots[i] == i % (backup_number as int)
        }),
{
    lemma_rotation_from(LoopModel::fresh(count, backup_time, backup_number), k);
}

/// Starting or stopping backups makes a schedule that was already running
/// stop the next time it looks at the state, with no backup left to announce.
pub proof fn law_restart_stops_running_schedule(
    s: StateModel,
    running: LoopModel,
    backup_time: u32,
    backup_number: u32,
    status: bool,
)
    requires
        running.count == s.count,
        s.count < u32::MAX,
    ensures
        ({
            let after = s.started(backup_time, backup_number, status);
            &&& running.check_outcome(after.count, after.backup_status) == Outcome::Stop
            &&& running.checked(after.count, after.backup_status) == (LoopModel {
                pending: false,
                ..running
            })
            &&& running.checked(after.count, after.backup_status).finished() == running.checked(
                after.count,
                after.backup_status,
            )
        }),
{
}

/// A schedule started from a state writes backups while that state stays as
/// it is, and stops once backups are switched off.
pub proof fn law_schedule_follows_switch(s: StateModel, backup_time: u32, backup_number: u32)
    requires
        s.count < u32::MAX,
        backup_number > 0,
    ensures
        ({
            let on = s.started(backup_time, backup_number, true);
            let fresh = LoopModel::fresh(on.count, backup_time, backup_number);
            let off = StateModel { backup_status: false, ..on };
            &&& fresh.check_outcome(on.count, on.backup_status) == Outcome::Copy(0)
            &&& fresh.check_outcome(off.count, off.backup_status) == Outcome::Stop
        }),
{
}

proof fn lemma_digit_injective(a: nat, b: nat)
    requires
        a < 10,
        b < 10,
        digit_char(a) == digit_char(b),
    ensures
        a == b,
{
    assert(digit_char(a) as int == 48 + a);
    assert(digit_char(b) as int == 48 + b);
}

proof fn lemma_decimal_len(n: nat)
    ensures
        decimal_spec(n).len() >= 1,
        n >= 10 ==> decimal_spec(n).len() >= 2,
    decreases n,
{
    if n >= 10 {
        lemma_decimal_len(n / 10);
    }
}

proof fn lemma_decimal_injective(a: nat, b: nat)
    requires
        decimal_spec(a) == decimal_spec(b),
    ensures
        a == b,
    decreases a,
{
    lemma_decimal_len(a);
    lemma_decimal_len(b);
    let da = decimal_spec(a);
    let db = decimal_spec(b);
    if a < 10 && b < 10 {
        assert(da[0] == db[0]);
        lemma_digit_injective(a, b);
    } else if a >= 10 && b >= 10 {
        assert(da.last() == db.last());
        lemma_digit_injective(a % 10, b % 10);
        assert(da.drop_last() =~= decimal_spec(a / 10));
        assert(db.drop_last() =~= decimal_spec(b / 10));
        lemma_decimal_injective(a / 10, b / 10);
    } else {
        assert(da.len() != db.len());
    }
}

/// Different slots are written to different folders, so a schedule keeps as
/// many backups as it has slots.
pub proof fn law_slots_have_distinct_folders(i: nat, j: nat)
    requires
        i != j,
    ensures
        entry_name_spec(i) != entry_name_spec(j),
{
    if entry_name_spec(i) == entry_name_spec(j) {
        let p = "Backup "@;
        let a = entry_name_spec(i);
        assert(a.subrange(p.len() as int, a.len() as int) =~= decimal_spec(i + 1));
        assert(entry_name_spec(j).subrange(p.len() as int, a.len() as int) =~= decimal_spec(j + 1));
        lemma_decimal_injective(i + 1, j + 1);
    }
}

/// The pause after each backup is the chosen interval in minutes times sixty
/// seconds; there is none only where that many seconds do not fit in a `u32`.
/// The interval a schedule is started with stays its interval throughout.
pub proof fn law_pause_is_interval_in_seconds(
    s: StateModel,
    minutes: u32,
    backup_number: u32,
    status: bool,
    l: LoopModel,
    current_count: u32,
    backup_status: bool,
)
    ensures
        minutes * 60 <= u32::MAX ==> (pause_seconds_spec(minutes) matches Some(seconds) && seconds
            == minutes * 60),
        minutes * 60 > u32::MAX ==> pause_seconds_spec(minutes) is None,
        s.started(minutes, backup_number, status).backup_time == minutes,
        LoopModel::fresh(s.count, minutes, backup_number).backup_time == minutes,
        l.checked(current_count, backup_status).backup_time == l.backup_time,
        l.finished().backup_time == l.backup_time,
{
}

/// Each profile field goes to the field of the same name: loading takes every
/// field of the profile into that field of the state, the profile built from
/// a state carries each field of the state, and a save takes the interval, the
/// number of backups and the snapshot name of the form into the state.
pub proof fn law_profile_fields_go_where_named(
    s: StateModel,
    p: ProfileModel,
    form: ProfileModel,
    a: AppState,
    q: AppProfile,
)
    ensures
        s.loaded(p).input_folder == p.input_folder,
        s.loaded(p).backup_folder == p.backup_folder,
        s.loaded(p).snapshot_folder == p.snapshot_folder,
        s.loaded(p).backup_time == p.backup_time,
        s.loaded(p).backup_number == p.backup_number,
        s.loaded(p).snapshot_name == p.snapshot_name,
        s.loaded(p).profile == p.profile,
        s.profile_model().input_folder == s.input_folder,
        s.profile_model().backup_folder == s.backup_folder,
        s.profile_model().snapshot_folder == s.snapshot_folder,
        s.profile_model().backup_time == s.backup_time,
        s.profile_model().backup_number == s.backup_number,
        s.profile_model().snapshot_name == s.snapshot_name,
        s.profile_model().profile == s.profile,
        s.staged(form).backup_time == form.backup_time,
        s.staged(form).backup_number == form.backup_number,
        s.staged(form).snapshot_name == form.snapshot_name,
        s.staged(form).input_folder == s.input_folder,
        s.staged(form).backup_folder == s.backup_folder,
        s.staged(form).snapshot_folder == s.snapshot_folder,
        s.staged(form).profile == s.profile,
        a@.count == a.count,
        a@.input_folder == a.input_folder@,
        a@.backup_folder == a.backup_folder@,
        a@.snapshot_folder == a.snapshot_folder@,
        a@.backup_time == a.backup_time,
        a@.backup_number == a.backup_number,
        a@.backup_status == a.backup_status,
        a@.snapshot_name == a.snapshot_name@,
        a@.profile == a.profile@,
        q@.input_folder == q.input_folder@,
        q@.backup_folder == q.backup_folder@,
        q@.snapshot_folder == q.snapshot_folder@,
        q@.backup_time == q.backup_time,
        q@.backup_number == q.backup_number,
        q@.snapshot_name == q.snapshot_name@,
        q@.profile == q.profile@,
{
}

/// The profile taken from configuration text `t` is `t` with its surrounding
/// white space cut off: a stretch `t[a..b]` with only white space before `a`
/// and from `b` on, that neither begins nor ends with white space.
pub proof fn law_config_profile_is_trimmed(s: StateModel, t: Seq<char>) -> (cut: (int, int))
    ensures
        0 <= cut.0 <= cut.1 <= t.len(),
        s.adopted_profile(Some(t)) == t.subrange(cut.0, cut.1),
        forall|k: int| 0 <= k < cut.0 ==> white_space(#[trigger] t[k]),
        forall|k: int| cut.1 <= k < t.len() ==> white_space(#[trigger] t[k]),
        s.adopted_profile(Some(t)).len() > 0 ==> !white_space(s.adopted_profile(Some(t))[0])
            && !white_space(s.adopted_profile(Some(t)).last()),
{
    let a = lemma_trim_start_shape(t);
    let v = t.subrange(a, t.len() as int);
    let b = lemma_trim_end_shape(v);
    assert(v.subrange(0, b) =~= t.subrange(a, a + b));
    assert forall|k: int| a + b <= k < t.len() implies white_space(#[trigger] t[k]) by {
        assert(t[k] == v[k - a]);
    }
    if b > 0 {
        assert(t.subrange(a, a + b)[0] == v[0]);
        assert(t.subrange(a, a + b).last() == v[b - 1]);
    }
    (a, a + b)
}

/// White space put before or after the configuration text changes nothing:
/// the same profile is taken.
pub proof fn law_config_padding_is_ignored(
    s: StateModel,
    t: Seq<char>,
    before: Seq<char>,
    after: Seq<char>,
)
    requires
        forall|k: int| 0 <= k < before.len() ==> white_space(#[trigger] before[k]),
        forall|k: int| 0 <= k < after.len() ==> white_space(#[trigger] after[k]),
    ensures
        s.adopted_profile(Some(before + t + after)) == s.adopted_profile(Some(t)),
{
    let u = before + t + after;
    let a = lemma_trim_start_shape(t);
    let v = t.subrange(a, t.len() as int);
    let b = lemma_trim_end_shape(v);
    let au = lemma_trim_start_shape(u);
    let off = before.len() as int;
    assert forall|k: int| 0 <= k < off + a implies white_space(#[trigger] u[k]) by {
        if k < off {
            assert(u[k] == before[k]);
        } else {
            assert(u[k] == t[k - off]);
        }
    }
    if a == t.len() {
        assert forall|k: int| 0 <= k < u.len() implies white_space(#[trigger] u[k]) by {
            if k < off + a {
            } else {
                assert(u[k] == after[k - off - a]);
            }
        }
        assert(au == u.len());
        assert(u.subrange(au, u.len() as int) =~= Seq::<char>::empty());
        assert(v =~= Seq::<char>::empty());
        assert(trim_start_spec(u) == trim_start_spec(t));
    } else {
        assert(u[off + a] == t[a]);
        assert(au == off + a) by {
            if au < off + a {
                assert(white_space(u[au]));
            } else if au > off + a {
                assert(white_space(u[off + a]));
            }
        }
        let w = u.subrange(off + a, u.len() as int);
        assert(w =~= v + after);
        let bw = lemma_trim_end_shape(w);
        assert forall|k: int| b <= k < w.len() implies white_space(#[trigger] w[k]) by {
            if k < v.len() {
                assert(w[k] == v[k]);
            } else {
                assert(w[k] == after[k - v.len()]);
            }
        }
        if b > 0 {
            assert(w[b - 1] == v[b - 1]);
        }
        assert(bw == b) by {
            if bw < b {
                assert(w[b - 1] == v[b - 1]);
                assert(white_space(w[b - 1]));
            } else if bw > b {
                assert(white_space(w[bw - 1]));
                if bw - 1 < v.len() {
                    assert(w[bw - 1] == v[bw - 1]);
                } else {
                    assert(w[bw - 1] == after[bw - 1 - v.len()]);
                }
            }
        }
        assert(w.subrange(0, b) =~= v.subrange(0, b));
    }
}

/// Choosing a folder as the backup or the snapshot folder is refused exactly
/// when it is the input folder; choosing the input folder is never refused.
/// A folder that is taken becomes the folder of the role it was chosen in,
/// and nothing else changes.
pub proof fn law_folder_refused_only_when_input(s: StateModel, f: Seq<char>)
    ensures
        s.folder_clashes("backup"@, f) <==> f == s.input_folder,
        s.folder_clashes("snapshot"@, f) <==> f == s.input_folder,
        !s.folder_clashes("input"@, f),
        s.chose_folder("input"@, f) == (StateModel { input_folder: f, ..s }),
        s.chose_folder("backup"@, f) == (StateModel { backup_folder: f, ..s }),
        s.chose_folder("snapshot"@, f) == (StateModel { snapshot_folder: f, ..s }),
{
    reveal_strlit("input");
    reveal_strlit("backup");
    reveal_strlit("snapshot");
    assert("input"@.len() != "backup"@.len());
    assert("input"@.len() != "snapshot"@.len());
    assert("backup"@.len() != "snapshot"@.len());
}

/// A path that ends in '/' and a plain component also ends in that component
/// in the sense that covers every separator, so both clauses on the naming of
/// a new profile apply to it.
pub proof fn law_component_after_slash_is_a_name(p: Seq<char>, n: Seq<char>)
    requires
        ends_in_component(p, n),
    ensures
        ends_in_name(p, n),
{
    let q = choose|q: Seq<char>| p == q + seq!['/'] + n;
    assert(p == q + seq!['/'] + n);
    assert(p.subrange(p.len() - n.len(), p.len() as int) =~= n);
    assert(p[p.len() - n.len() - 1] == '/') by {
        assert((q + seq!['/'] + n)[q.len() as int] == '/');
    }
}

} // verus!
