//! Properties that hold across the library's operations.

use vstd::prelude::*;
use crate::aggregates::{
    after_create_attempts, after_poll, gone, registered, still_present, uids_unique, AudioDeviceId,
};
use crate::audio::{
    HandlerView, PlaybackAction, PlaybackEvent, PlaybackPhase, TaskView, is_playback_step,
    input_pattern_list, output_pattern_list,
};
use crate::launcher::{LaunchAction, LaunchEvent, LaunchPhase, spec_daemon_candidates, spec_launch_step};
use crate::paths::path_join;
use crate::sampler::{SampleBank, SampleButtons, SLOT_COUNT, lemma_slot_index_bijective, slot_index};

verus! {

/// Two different bank-and-button pairs occupy different slots.
proof fn lemma_distinct_slots(b1: SampleBank, k1: SampleButtons, b2: SampleBank, k2: SampleButtons)
    requires
        b1 != b2 || k1 != k2,
    ensures
        slot_index(b1, k1) != slot_index(b2, k2),
        0 <= slot_index(b1, k1) < SLOT_COUNT,
{
    lemma_slot_index_bijective(b1, k1, 0);
    lemma_slot_index_bijective(b2, k2, 0);
}

/// After playback starts in a slot, the slot plays that file and does not
/// record, and every other slot is as it was.
pub proof fn law_play_then_query(
    v: HandlerView,
    bank: SampleBank,
    button: SampleButtons,
    file: Seq<char>,
    other_bank: SampleBank,
    other_button: SampleButtons,
)
    requires
        v.streams.len() == SLOT_COUNT,
        other_bank != bank || other_button != button,
    ensures
        v.after_play(bank, button, file).is_playing(bank, button),
        v.after_play(bank, button, file).playing_file(bank, button) == Some(file),
        !v.after_play(bank, button, file).is_recording(bank, button),
        v.after_play(bank, button, file).slot(other_bank, other_button) == v.slot(
            other_bank,
            other_button,
        ),
{
    lemma_distinct_slots(bank, button, other_bank, other_button);
}

/// After a recording starts in a slot, the slot records, some slot records,
/// the slot does not play, and every other slot is as it was.
pub proof fn law_record_then_query(
    v: HandlerView,
    bank: SampleBank,
    button: SampleButtons,
    file: Seq<char>,
    other_bank: SampleBank,
    other_button: SampleButtons,
)
    requires
        v.streams.len() == SLOT_COUNT,
        other_bank != bank || other_button != button,
    ensures
        v.after_record(bank, button, file).is_recording(bank, button),
        v.after_record(bank, button, file).any_recording(),
        !v.after_record(bank, button, file).is_playing(bank, button),
        v.after_record(bank, button, file).playing_file(bank, button) is None,
        v.after_record(bank, button, file).slot(other_bank, other_button) == v.slot(
            other_bank,
            other_button,
        ),
{
    lemma_distinct_slots(bank, button, other_bank, other_button);
    let w = v.after_record(bank, button, file);
    assert(w.streams[slot_index(bank, button)] matches Some(s) && s.stream_type
        == crate::audio::StreamType::Recording);
}

/// A cleared slot neither plays nor records, and every other slot is as it was.
pub proof fn law_cleared_slot_idle(
    v: HandlerView,
    bank: SampleBank,
    button: SampleButtons,
    other_bank: SampleBank,
    other_button: SampleButtons,
)
    requires
        v.streams.len() == SLOT_COUNT,
        other_bank != bank || other_button != button,
    ensures
        !v.with_slot(bank, button, None).is_playing(bank, button),
        !v.with_slot(bank, button, None).is_recording(bank, button),
        v.with_slot(bank, button, None).playing_file(bank, button) is None,
        v.with_slot(bank, button, None).slot(other_bank, other_button) == v.slot(
            other_bank,
            other_button,
        ),
{
    lemma_distinct_slots(bank, button, other_bank, other_button);
}

/// A slot never plays and records at once.
pub proof fn law_slot_exclusive(v: HandlerView, bank: SampleBank, button: SampleButtons)
    ensures
        !(v.is_playing(bank, button) && v.is_recording(bank, button)),
{
}

/// Some slot records exactly when some bank and button records.
pub proof fn law_any_recording_iff_some_button(v: HandlerView)
    requires
        v.streams.len() == SLOT_COUNT,
    ensures
        v.any_recording() <==> exists|bank: SampleBank, button: SampleButtons|
            #[trigger] v.is_recording(bank, button),
{
    if v.any_recording() {
        let i = choose|i: int|
            0 <= i < v.streams.len() && (#[trigger] v.streams[i] matches Some(s) && s.stream_type
                == crate::audio::StreamType::Recording);
        let bank = crate::sampler::slot_bank(i);
        let button = crate::sampler::slot_button(i);
        lemma_slot_index_bijective(bank, button, i);
        assert(v.is_recording(bank, button));
    }
    if exists|bank: SampleBank, button: SampleButtons| #[trigger] v.is_recording(bank, button) {
        let (bank, button) = choose|bank: SampleBank, button: SampleButtons|
            #[trigger] v.is_recording(bank, button);
        lemma_slot_index_bijective(bank, button, 0);
        let i = slot_index(bank, button);
        assert(v.streams[i] matches Some(s) && s.stream_type == crate::audio::StreamType::Recording);
    }
}

/// A gain calculation that starts when none runs is the one handed back, and
/// handing it back returns the handler to where it was.
pub proof fn law_calculation_round_trip(
    v: HandlerView,
    bank: SampleBank,
    button: SampleButtons,
    file: Seq<char>,
)
    requires
        v.task is None,
    ensures
        v.after_calculation_start(bank, button, file).task == Some(TaskView { bank, button, file }),
        (HandlerView { task: None, ..v.after_calculation_start(bank, button, file) }) == v,
{
}

/// Clearing finished streams twice with the same readings changes nothing
/// the second time.
pub proof fn law_check_idempotent(v: HandlerView, finished: Seq<bool>)
    ensures
        v.after_check(finished).after_check(finished) == v.after_check(finished),
        !v.after_check(finished).check_changes(finished),
{
    let w = v.after_check(finished);
    assert(w.after_check(finished).streams =~= w.streams);
    if w.check_changes(finished) {
        let i = choose|i: int| 0 <= i < w.streams.len() && #[trigger] w.finished_stream(finished, i);
        assert(v.finished_stream(finished, i) ==> w.streams[i] is None);
    }
}

/// Clearing finished streams reports a change exactly when the state changes.
pub proof fn law_check_reports_change(v: HandlerView, finished: Seq<bool>)
    ensures
        v.check_changes(finished) <==> v.after_check(finished) != v,
{
    let w = v.after_check(finished);
    if v.check_changes(finished) {
        let i = choose|i: int| 0 <= i < v.streams.len() && #[trigger] v.finished_stream(finished, i);
        assert(w.streams[i] is None);
        assert(w.streams[i] != v.streams[i]);
    } else {
        assert(w.streams =~= v.streams);
    }
}

/// A device search just made at `now` holds off another search at `now`.
pub proof fn law_search_then_throttled(v: HandlerView, now: u64)
    requires
        v.last_device_check == Some(now),
    ensures
        v.device_check_throttled(now),
{
}

/// Removing the devices that have gone splits the registry in two: the
/// entries kept are exactly the present devices, those removed exactly the
/// gone ones, and no entry is lost or duplicated.
pub proof fn law_take_stale_partition(
    s: Seq<(Seq<char>, Seq<AudioDeviceId>)>,
    present: Seq<Seq<char>>,
)
    ensures
        forall|i: int|
            0 <= i < s.filter(still_present(present)).len() ==> present.contains(
                #[trigger] s.filter(still_present(present))[i].0,
            ),
        forall|i: int|
            0 <= i < s.filter(gone(present)).len() ==> !present.contains(
                #[trigger] s.filter(gone(present))[i].0,
            ),
        forall|i: int|
            0 <= i < s.len() && present.contains(s[i].0) ==> s.filter(
                still_present(present),
            ).contains(#[trigger] s[i]),
        forall|i: int|
            0 <= i < s.len() && !present.contains(s[i].0) ==> s.filter(gone(present)).contains(
                #[trigger] s[i],
            ),
        s.filter(still_present(present)).len() + s.filter(gone(present)).len() == s.len(),
    decreases s.len(),
{
    broadcast use vstd::seq_lib::group_filter_ensures;

    reveal_with_fuel(Seq::filter, 1);
    assert forall|i: int|
        0 <= i < s.filter(still_present(present)).len() implies present.contains(
        #[trigger] s.filter(still_present(present))[i].0,
    ) by {
        assert(still_present(present)(s.filter(still_present(present))[i]));
    }
    assert forall|i: int|
        0 <= i < s.filter(gone(present)).len() implies !present.contains(
        #[trigger] s.filter(gone(present))[i].0,
    ) by {
        assert(gone(present)(s.filter(gone(present))[i]));
    }
    assert forall|i: int| 0 <= i < s.len() && present.contains(s[i].0) implies s.filter(
        still_present(present),
    ).contains(#[trigger] s[i]) by {
        assert(still_present(present)(s[i]));
    }
    assert forall|i: int| 0 <= i < s.len() && !present.contains(s[i].0) implies s.filter(
        gone(present),
    ).contains(#[trigger] s[i]) by {
        assert(gone(present)(s[i]));
    }
    if s.len() > 0 {
        law_take_stale_partition(s.drop_last(), present);
    }
}

/// A device that is registered no longer needs aggregates, and registering a
/// new device keeps every device registered once.
pub proof fn law_register_then_registered(
    s: Seq<(Seq<char>, Seq<AudioDeviceId>)>,
    uid: Seq<char>,
    devices: Seq<AudioDeviceId>,
)
    requires
        uids_unique(s),
        !registered(s, uid),
    ensures
        registered(s.push((uid, devices)), uid),
        uids_unique(s.push((uid, devices))),
{
    assert(s.push((uid, devices))[s.len() as int].0 == uid);
    assert forall|i: int, j: int| 0 <= i < j < s.len() + 1 implies s.push((uid, devices))[i].0
        != s.push((uid, devices))[j].0 by {
        if j == s.len() {
            assert(s[i].0 == s.push((uid, devices))[i].0);
        }
    }
}

/// Once the start-up sequence has finished, every further event is ignored.
pub proof fn law_launch_finished_is_final(event: LaunchEvent)
    ensures
        spec_launch_step(LaunchPhase::Finished, event) == (
            LaunchPhase::Finished,
            LaunchAction::Ignore,
        ),
{
}

/// The start-up sequence reports success only right after the web interface answered.
pub proof fn law_launch_success_only_when_answering(phase: LaunchPhase, event: LaunchEvent)
    ensures
        spec_launch_step(phase, event).1 == LaunchAction::SucceedAlreadyRunning ==> event
            == (LaunchEvent::UiProbed { ready: true }),
        spec_launch_step(phase, event).1 == LaunchAction::SucceedStarted ==> event
            == (LaunchEvent::UiWaited { ready: true }),
{
}

/// Reporting success or failure ends the start-up sequence.
pub proof fn law_launch_outcome_ends_run(phase: LaunchPhase, event: LaunchEvent)
    ensures
        (spec_launch_step(phase, event).1 matches LaunchAction::Fail(_)
            || spec_launch_step(phase, event).1 == LaunchAction::SucceedAlreadyRunning
            || spec_launch_step(phase, event).1 == LaunchAction::SucceedStarted) ==> spec_launch_step(
            phase,
            event,
        ).0 == LaunchPhase::Finished,
{
}

/// The phase of the start-up sequence after the first `n` events.
pub open spec fn launch_phase_after(events: Seq<LaunchEvent>, n: nat) -> LaunchPhase
    decreases n,
{
    if n == 0 {
        LaunchPhase::Start
    } else {
        spec_launch_step(launch_phase_after(events, (n - 1) as nat), events[n - 1]).0
    }
}

/// The action the start-up sequence takes on event `n`.
pub open spec fn launch_action_at(events: Seq<LaunchEvent>, n: nat) -> LaunchAction {
    spec_launch_step(launch_phase_after(events, n), events[n as int]).1
}

proof fn lemma_locating_after_checks(events: Seq<LaunchEvent>, n: nat)
    ensures
        (launch_phase_after(events, n) == LaunchPhase::Locating || launch_phase_after(events, n)
            == LaunchPhase::Spawning) ==> (exists|j: int|
            0 <= j < n && #[trigger] events[j] == (LaunchEvent::UiProbed { ready: false }))
            && (exists|k: int|
            0 <= k < n && #[trigger] events[k] == (LaunchEvent::ChildChecked { running: false })),
        launch_phase_after(events, n) == LaunchPhase::CheckingChild ==> exists|j: int|
            0 <= j < n && #[trigger] events[j] == (LaunchEvent::UiProbed { ready: false }),
    decreases n,
{
    if n > 0 {
        lemma_locating_after_checks(events, (n - 1) as nat);
        let p = launch_phase_after(events, (n - 1) as nat);
        let e = events[n - 1];
        if p == LaunchPhase::ProbingUi && e == (LaunchEvent::UiProbed { ready: false }) {
            assert(events[n - 1] == (LaunchEvent::UiProbed { ready: false }));
        }
        if p == LaunchPhase::CheckingChild && e == (LaunchEvent::ChildChecked { running: false }) {
            assert(events[n - 1] == (LaunchEvent::ChildChecked { running: false }));
        }
    }
}

/// The desktop shell starts a daemon only after the web interface failed to
/// answer and no daemon child of its own was running.
pub proof fn law_spawn_only_when_absent(events: Seq<LaunchEvent>, n: nat)
    requires
        n < events.len(),
        launch_action_at(events, n) == LaunchAction::SpawnDaemon,
    ensures
        exists|j: int| 0 <= j < n && #[trigger] events[j] == (LaunchEvent::UiProbed { ready: false }),
        exists|k: int|
            0 <= k < n && #[trigger] events[k] == (LaunchEvent::ChildChecked { running: false }),
{
    lemma_locating_after_checks(events, n);
}

/// After the daemon has been spawned, the sequence is spawning, waiting or finished.
proof fn lemma_after_spawn(events: Seq<LaunchEvent>, n: nat, m: nat)
    requires
        n < events.len(),
        launch_action_at(events, n) == LaunchAction::SpawnDaemon,
        n < m <= events.len(),
    ensures
        launch_phase_after(events, m) == LaunchPhase::Spawning || launch_phase_after(events, m)
            == LaunchPhase::Waiting || launch_phase_after(events, m) == LaunchPhase::Finished,
    decreases m,
{
    if m > n + 1 {
        lemma_after_spawn(events, n, (m - 1) as nat);
    }
}

/// One run of the start-up sequence spawns the daemon at most once.
pub proof fn law_spawn_at_most_once(events: Seq<LaunchEvent>, n1: nat, n2: nat)
    requires
        n1 < n2 < events.len(),
        launch_action_at(events, n1) == LaunchAction::SpawnDaemon,
    ensures
        launch_action_at(events, n2) != LaunchAction::SpawnDaemon,
{
    lemma_after_spawn(events, n1, n2);
}

/// Every entry that a filter keeps is an entry of the sequence.
proof fn lemma_filter_from(
    s: Seq<(Seq<char>, Seq<AudioDeviceId>)>,
    pred: spec_fn((Seq<char>, Seq<AudioDeviceId>)) -> bool,
)
    ensures
        forall|i: int|
            #![trigger s.filter(pred)[i]]
            0 <= i < s.filter(pred).len() ==> exists|j: int|
                0 <= j < s.len() && #[trigger] s[j] == s.filter(pred)[i],
    decreases s.len(),
{
    reveal_with_fuel(Seq::filter, 1);
    if s.len() > 0 {
        lemma_filter_from(s.drop_last(), pred);
        let f0 = s.drop_last().filter(pred);
        assert forall|i: int|
            #![trigger s.filter(pred)[i]]
            0 <= i < s.filter(pred).len() implies exists|j: int|
            0 <= j < s.len() && #[trigger] s[j] == s.filter(pred)[i] by {
            if i < f0.len() {
                let j = choose|j: int|
                    0 <= j < s.drop_last().len() && #[trigger] s.drop_last()[j] == f0[i];
                assert(s[j] == s.drop_last()[j]);
                assert(s.filter(pred)[i] == f0[i]);
            } else {
                assert(s.filter(pred)[i] == s.last());
                assert(s[s.len() - 1] == s.last());
            }
        }
    }
}

/// A filter of a registry with no device twice has no device twice.
proof fn lemma_filter_unique(
    s: Seq<(Seq<char>, Seq<AudioDeviceId>)>,
    pred: spec_fn((Seq<char>, Seq<AudioDeviceId>)) -> bool,
)
    requires
        uids_unique(s),
    ensures
        uids_unique(s.filter(pred)),
    decreases s.len(),
{
    reveal_with_fuel(Seq::filter, 1);
    if s.len() > 0 {
        let d = s.drop_last();
        lemma_filter_unique(d, pred);
        lemma_filter_from(d, pred);
        let f0 = d.filter(pred);
        if pred(s.last()) {
            let f = s.filter(pred);
            assert(f == f0.push(s.last()));
            assert forall|a: int, b: int| 0 <= a < b < f.len() implies f[a].0 != f[b].0 by {
                if b == f0.len() {
                    let j = choose|j: int| 0 <= j < d.len() && #[trigger] d[j] == f0[a];
                    assert(s[j] == d[j]);
                    assert(s[j].0 != s[s.len() - 1].0);
                } else {
                    assert(f[a] == f0[a] && f[b] == f0[b]);
                }
            }
        }
    }
}

/// What trying to create aggregates for a list of devices does to a registry:
/// a device ends up registered exactly when it was, or some attempt for it
/// succeeded; entries already there stay first and unchanged; no device is
/// registered twice.
proof fn lemma_create_attempts(
    t: Seq<(Seq<char>, Seq<AudioDeviceId>)>,
    u: Seq<Seq<char>>,
    o: Seq<Option<Seq<AudioDeviceId>>>,
)
    requires
        uids_unique(t),
        u.len() <= o.len(),
    ensures
        uids_unique(after_create_attempts(t, u, o)),
        t.len() <= after_create_attempts(t, u, o).len(),
        forall|j: int| 0 <= j < t.len() ==> #[trigger] after_create_attempts(t, u, o)[j] == t[j],
        forall|k: Seq<char>|
            #[trigger] registered(after_create_attempts(t, u, o), k) <==> (registered(t, k)
                || exists|i: int| 0 <= i < u.len() && u[i] == k && #[trigger] o[i] is Some),
    decreases u.len(),
{
    if u.len() > 0 {
        let d = u.drop_last();
        lemma_create_attempts(t, d, o);
        let r0 = after_create_attempts(t, d, o);
        let r = after_create_attempts(t, u, o);
        let n = u.len() - 1;
        assert forall|k: Seq<char>| #[trigger] registered(r, k) <==> (registered(t, k) || exists|
            i: int,
        | 0 <= i < u.len() && u[i] == k && #[trigger] o[i] is Some) by {
            if registered(r, k) {
                if !registered(r0, k) {
                    let x = choose|x: int| 0 <= x < r.len() && #[trigger] r[x].0 == k;
                    assert(r != r0);
                    assert(x == r0.len());
                    assert(u[n] == k && o[n] is Some);
                } else if !registered(t, k) {
                    let i = choose|i: int| 0 <= i < d.len() && d[i] == k && #[trigger] o[i] is Some;
                    assert(u[i] == k);
                }
            }
            if registered(t, k) || exists|i: int| 0 <= i < u.len() && u[i] == k && #[trigger] o[i] is Some {
                if registered(t, k) {
                    assert(registered(r0, k));
                } else {
                    let i = choose|i: int| 0 <= i < u.len() && u[i] == k && #[trigger] o[i] is Some;
                    if i < n {
                        assert(d[i] == k);
                        assert(registered(r0, k));
                    } else if !registered(r0, k) {
                        assert(r[r0.len() as int].0 == k);
                    }
                }
                if registered(r0, k) {
                    let x = choose|x: int| 0 <= x < r0.len() && #[trigger] r0[x].0 == k;
                    assert(r[x] == r0[x]);
                }
            }
        }
        assert forall|a: int, b: int| 0 <= a < b < r.len() implies r[a].0 != r[b].0 by {
            if b == r0.len() {
                assert(r[a] == r0[a]);
                assert(!registered(r0, u.last()));
            } else {
                assert(r[a] == r0[a] && r[b] == r0[b]);
            }
        }
    }
}

/// One poll of the GoXLR devices: the devices that have gone are removed,
/// each exactly once, with their aggregates; the devices that stay keep their
/// aggregates and are not asked for new ones; a device ends up registered
/// exactly when it is present and was registered, or an attempt to create its
/// aggregates succeeded; and no device is registered twice.
pub proof fn law_poll(
    s: Seq<(Seq<char>, Seq<AudioDeviceId>)>,
    present: Seq<Seq<char>>,
    outcomes: Seq<Option<Seq<AudioDeviceId>>>,
)
    requires
        uids_unique(s),
        outcomes.len() == present.len(),
    ensures
        uids_unique(s.filter(gone(present))),
        forall|k: Seq<char>|
            #[trigger] registered(s.filter(gone(present)), k) <==> registered(s, k)
                && !present.contains(k),
        uids_unique(after_poll(s, present, outcomes)),
        forall|i: int|
            0 <= i < s.len() && present.contains(s[i].0) ==> after_poll(
                s,
                present,
                outcomes,
            ).contains(#[trigger] s[i]),
        forall|i: int|
            0 <= i < present.len() && registered(s, present[i]) ==> registered(
                #[trigger] after_create_attempts(
                    s.filter(still_present(present)),
                    present.take(i),
                    outcomes,
                ),
                present[i],
            ),
        forall|k: Seq<char>|
            #[trigger] registered(after_poll(s, present, outcomes), k) <==> ((present.contains(k)
                && registered(s, k)) || exists|i: int|
                0 <= i < present.len() && present[i] == k && #[trigger] outcomes[i] is Some),
{
    let kept = s.filter(still_present(present));
    let stale = s.filter(gone(present));
    law_take_stale_partition(s, present);
    lemma_filter_unique(s, still_present(present));
    lemma_filter_unique(s, gone(present));
    lemma_filter_from(s, still_present(present));
    lemma_filter_from(s, gone(present));
    lemma_create_attempts(kept, present, outcomes);
    let r = after_poll(s, present, outcomes);
    assert forall|k: Seq<char>| #[trigger] registered(kept, k) <==> registered(s, k)
        && present.contains(k) by {
        if registered(kept, k) {
            let x = choose|x: int| 0 <= x < kept.len() && #[trigger] kept[x].0 == k;
            let j = choose|j: int| 0 <= j < s.len() && #[trigger] s[j] == kept[x];
            assert(s[j].0 == k);
        }
        if registered(s, k) && present.contains(k) {
            let j = choose|j: int| 0 <= j < s.len() && #[trigger] s[j].0 == k;
            assert(kept.contains(s[j]));
            let x = choose|x: int| 0 <= x < kept.len() && kept[x] == s[j];
            assert(kept[x].0 == k);
        }
    }
    assert forall|k: Seq<char>| #[trigger] registered(stale, k) <==> registered(s, k)
        && !present.contains(k) by {
        if registered(stale, k) {
            let x = choose|x: int| 0 <= x < stale.len() && #[trigger] stale[x].0 == k;
            let j = choose|j: int| 0 <= j < s.len() && #[trigger] s[j] == stale[x];
            assert(s[j].0 == k);
        }
        if registered(s, k) && !present.contains(k) {
            let j = choose|j: int| 0 <= j < s.len() && #[trigger] s[j].0 == k;
            assert(stale.contains(s[j]));
            let x = choose|x: int| 0 <= x < stale.len() && stale[x] == s[j];
            assert(stale[x].0 == k);
        }
    }
    assert forall|i: int| 0 <= i < s.len() && present.contains(s[i].0) implies r.contains(
        #[trigger] s[i],
    ) by {
        assert(kept.contains(s[i]));
        let x = choose|x: int| 0 <= x < kept.len() && kept[x] == s[i];
        assert(r[x] == kept[x]);
    }
    assert forall|i: int| 0 <= i < present.len() && registered(s, present[i]) implies registered(
        #[trigger] after_create_attempts(kept, present.take(i), outcomes),
        present[i],
    ) by {
        lemma_create_attempts(kept, present.take(i), outcomes);
        assert(registered(kept, present[i]));
    }
}

/// A player built on a device is always started; a playback start gives up
/// only after a search found no device or a player could not be built, and a
/// player is only ever built on the device that is known.
pub proof fn law_playback_fails_only_on_failure(
    phase: PlaybackPhase,
    event: PlaybackEvent,
    device: Option<Seq<char>>,
    r: (PlaybackPhase, PlaybackAction),
)
    requires
        is_playback_step(phase, event, device, r),
    ensures
        event == PlaybackEvent::PlayerBuilt && (phase == PlaybackPhase::FirstAttempt || phase
            == PlaybackPhase::SecondAttempt) ==> r.0 == PlaybackPhase::Finished && r.1
            == PlaybackAction::StartPlayback,
        r.1 == PlaybackAction::StartPlayback ==> event == PlaybackEvent::PlayerBuilt,
        r.1 is Fail ==> event == PlaybackEvent::DeviceSearched && device is None,
        r.1 == PlaybackAction::FailWithPlayerError ==> event == PlaybackEvent::PlayerFailed,
        r.1 is BuildPlayer ==> device is Some && r.1->BuildPlayer_0@ == device->0,
{
}

/// Whether the text begins with the prefix.
pub open spec fn starts_with(text: Seq<char>, prefix: Seq<char>) -> bool {
    prefix.len() <= text.len() && text.subrange(0, prefix.len() as int) == prefix
}

/// Whether the text ends with the suffix.
pub open spec fn ends_with(text: Seq<char>, suffix: Seq<char>) -> bool {
    suffix.len() <= text.len() && text.subrange(text.len() - suffix.len(), text.len() as int)
        == suffix
}

/// Whether a pattern names a macOS (CoreAudio) or Windows (WASAPI) device.
pub open spec fn names_platform_device(pattern: Seq<char>) -> bool {
    starts_with(pattern, "CoreAudio\\*"@) || starts_with(pattern, "^WASAPI\\*"@)
}

/// Whether a pattern refuses every name in which `Mini` follows the match start.
pub open spec fn excludes_mini(pattern: Seq<char>) -> bool {
    ends_with(pattern, "(?:(?!Mini).)*$"@)
}

/// Without an override, the output patterns are the Linux sink names and the
/// sampler devices of macOS and Windows, and every macOS or Windows pattern
/// refuses a GoXLR Mini.
pub proof fn law_default_output_patterns()
    ensures
        output_pattern_list(None) == seq![
            "goxlr_sample"@,
            "GoXLR_0_8_9"@,
            "GoXLR.*HiFi__Line3__sink"@,
            "CoreAudio\\*Sample(?:(?!Mini).)*$"@,
            "CoreAudio\\*Sampler(?:(?!Mini).)*$"@,
            "CoreAudio\\*GoXLR(?:(?!Mini).)*$"@,
            "^WASAPI\\*Sample(?:(?!Mini).)*$"@,
        ],
        forall|i: int|
            0 <= i < output_pattern_list(None).len() && names_platform_device(
                #[trigger] output_pattern_list(None)[i],
            ) ==> excludes_mini(output_pattern_list(None)[i]),
{
    let l = output_pattern_list(None);
    reveal_strlit("CoreAudio\\*");
    reveal_strlit("^WASAPI\\*");
    reveal_strlit("(?:(?!Mini).)*$");
    reveal_strlit("goxlr_sample");
    reveal_strlit("GoXLR_0_8_9");
    reveal_strlit("GoXLR.*HiFi__Line3__sink");
    reveal_strlit("CoreAudio\\*Sample(?:(?!Mini).)*$");
    reveal_strlit("CoreAudio\\*Sampler(?:(?!Mini).)*$");
    reveal_strlit("CoreAudio\\*GoXLR(?:(?!Mini).)*$");
    reveal_strlit("^WASAPI\\*Sample(?:(?!Mini).)*$");
    assert forall|i: int|
        0 <= i < l.len() && names_platform_device(#[trigger] l[i]) implies excludes_mini(l[i]) by {
        if i < 3 {
            assert(l[i].subrange(0, 11)[0] == l[i][0]);
            assert(l[i].subrange(0, 10)[0] == l[i][0]);
        } else {
            assert(l[i].subrange(l[i].len() - 15, l[i].len() as int) =~= "(?:(?!Mini).)*$"@);
        }
    }
}

/// Without an override, the input patterns are the Linux source names and the
/// sampler devices of macOS and Windows, and every macOS or Windows pattern
/// refuses a GoXLR Mini.
pub proof fn law_default_input_patterns()
    ensures
        input_pattern_list(None) == seq![
            "goxlr_sample.*source"@,
            "GoXLR_0_4_5.*source"@,
            "GoXLR.*HiFi__Line5__source"@,
            "CoreAudio\\*Sampler(?:(?!Mini).)*$"@,
            "CoreAudio\\*Sample(?:(?!Mini).)*$"@,
            "CoreAudio\\*GoXLR(?:(?!Mini).)*$"@,
            "^WASAPI\\*Sample(?:(?!Mini).)*$"@,
        ],
        forall|i: int|
            0 <= i < input_pattern_list(None).len() && names_platform_device(
                #[trigger] input_pattern_list(None)[i],
            ) ==> excludes_mini(input_pattern_list(None)[i]),
{
    let l = input_pattern_list(None);
    reveal_strlit("CoreAudio\\*");
    reveal_strlit("^WASAPI\\*");
    reveal_strlit("(?:(?!Mini).)*$");
    reveal_strlit("goxlr_sample.*source");
    reveal_strlit("GoXLR_0_4_5.*source");
    reveal_strlit("GoXLR.*HiFi__Line5__source");
    reveal_strlit("CoreAudio\\*Sampler(?:(?!Mini).)*$");
    reveal_strlit("CoreAudio\\*Sample(?:(?!Mini).)*$");
    reveal_strlit("CoreAudio\\*GoXLR(?:(?!Mini).)*$");
    reveal_strlit("^WASAPI\\*Sample(?:(?!Mini).)*$");
    assert forall|i: int|
        0 <= i < l.len() && names_platform_device(#[trigger] l[i]) implies excludes_mini(l[i]) by {
        if i < 3 {
            assert(l[i].subrange(0, 11)[0] == l[i][0]);
            assert(l[i].subrange(0, 10)[0] == l[i][0]);
        } else {
            assert(l[i].subrange(l[i].len() - 15, l[i].len() as int) =~= "(?:(?!Mini).)*$"@);
        }
    }
}

/// An override replaces every default pattern: it is the only pattern searched.
pub proof fn law_override_is_the_only_pattern(device: Seq<char>)
    ensures
        output_pattern_list(Some(device)) == seq![device],
        input_pattern_list(Some(device)) == seq![device],
{
}

/// Clearing finished streams judges each bank and button by its own reading:
/// a stream whose reading says finished is cleared, and a slot whose reading
/// is false or missing is left as it was.
pub proof fn law_check_reads_own_slot(
    v: HandlerView,
    finished: Seq<bool>,
    bank: SampleBank,
    button: SampleButtons,
)
    requires
        v.streams.len() == SLOT_COUNT,
    ensures
        v.slot(bank, button) is Some && slot_index(bank, button) < finished.len()
            && finished[slot_index(bank, button)] ==> v.after_check(finished).slot(bank, button)
            is None,
        !(slot_index(bank, button) < finished.len() && finished[slot_index(bank, button)])
            ==> v.after_check(finished).slot(bank, button) == v.slot(bank, button),
        v.after_check(finished).streams.len() == SLOT_COUNT,
{
    lemma_slot_index_bijective(bank, button, 0);
}

/// The daemon binary bundled beside the shell's sources carries the
/// architecture it was built for: the fourth place looked at is
/// `binaries/goxlr-daemon-<arch>-apple-darwin` under the sources.
pub proof fn law_sidecar_carries_architecture(
    manifest_dir: Seq<char>,
    arch: Seq<char>,
    resource_dir: Option<Seq<char>>,
    current_exe: Option<Seq<char>>,
    current_dir: Option<Seq<char>>,
)
    ensures
        spec_daemon_candidates(manifest_dir, arch, resource_dir, current_exe, current_dir)[3]
            == path_join(
            manifest_dir,
            "../src-tauri/binaries/goxlr-daemon-"@ + arch + "-apple-darwin"@,
        ),
        resource_dir matches Some(r) ==> spec_daemon_candidates(
            manifest_dir,
            arch,
            resource_dir,
            current_exe,
            current_dir,
        )[6] == path_join(r, "goxlr-daemon-"@ + arch + "-apple-darwin"@),
{
    reveal_strlit("../src-tauri/binaries/goxlr-daemon-");
    reveal_strlit("../src-tauri/binaries/");
    reveal_strlit("goxlr-daemon-");
    assert("../src-tauri/binaries/"@ + ("goxlr-daemon-"@ + arch + "-apple-darwin"@)
        =~= "../src-tauri/binaries/goxlr-daemon-"@ + arch + "-apple-darwin"@);
}

} // verus!
