//! What a connection does from its beginning to its end.

use crate::characteristic;
use crate::characteristic::{BATTERY_CHARACTERISTIC_UUID, WRITE_CHARACTERISTIC_UUID};
use crate::command::Command;
use crate::connect::{
    ActionView, ConnectAction, ConnectEvent, ConnectingView, EventView, Phase,
};
use crate::device::{Coyote3, WriteRequest};
use crate::error::{Error, ErrorView};
use crate::settings::DeviceSettings;
use crate::state::State;
use crate::stereo::Stereo;
use btleplug::Error as BtleplugError;
use vstd::prelude::*;

verus! {

/// Where `events` lead from `c`, and the actions on the way, one for each event.
pub open spec fn run(c: ConnectingView, events: Seq<EventView>) -> (
    ConnectingView,
    Seq<ActionView>,
)
    decreases events.len(),
{
    if events.len() == 0 {
        (c, Seq::empty())
    } else {
        let (before, actions) = run(c, events.drop_last());
        let (after, action) = before.next(events.last());
        (after, actions.push(action))
    }
}

/// Each of `events` can come of the action before it.
pub open spec fn all_expected(c: ConnectingView, events: Seq<EventView>) -> bool
    decreases events.len(),
{
    events.len() == 0 || {
        &&& all_expected(c, events.drop_last())
        &&& run(c, events.drop_last()).0.expects(events.last())
    }
}

/// `n` actions that are done.
pub open spec fn all_done(n: nat) -> Seq<EventView> {
    Seq::new(n, |i: int| EventView::Done)
}

/// Waiting for `n` events of the scan.
pub open spec fn waiting(n: nat) -> Seq<ActionView> {
    Seq::new(n, |i: int| ActionView::AwaitEvent)
}

/// Subscribing to the characteristics at `places`.
pub open spec fn subscribing(places: Seq<usize>) -> Seq<ActionView> {
    places.map_values(|i: usize| ActionView::Subscribe(i))
}

/// `places` are the places among `uuids` of all characteristics that give notifications, in order.
pub open spec fn are_notifying_places(uuids: Seq<u128>, places: Seq<usize>) -> bool {
    &&& forall|k: int|
        0 <= k < places.len() ==> (#[trigger] places[k]) < uuids.len()
            && characteristic::gives_notifications(uuids[places[k] as int])
    &&& forall|k: int, l: int| 0 <= k < l < places.len() ==> places[k] < places[l]
    &&& forall|i: int|
        0 <= i < uuids.len() && characteristic::gives_notifications(#[trigger] uuids[i])
            ==> places.contains(i as usize)
}

/// An event that a scan for `target` passes over.
pub open spec fn is_passed_over(target: Seq<char>, event: EventView) -> bool {
    match event {
        EventView::Discovered(Some(name)) => name != target,
        EventView::Discovered(None) => true,
        EventView::OtherScanEvent => true,
        _ => false,
    }
}

/// The events of a scan that finds the device of the name `target` with the last of them.
pub open spec fn finds(target: Seq<char>, events: Seq<EventView>) -> bool {
    &&& events.len() > 0
    &&& events.last() == EventView::Discovered(Some(target))
    &&& forall|i: int|
        0 <= i < events.len() - 1 ==> is_passed_over(target, #[trigger] events[i])
}

/// Events can be taken in one part after the other.
proof fn lemma_run_in_parts(c: ConnectingView, first: Seq<EventView>, second: Seq<EventView>)
    ensures
        run(c, first + second) == (
            run(run(c, first).0, second).0,
            run(c, first).1 + run(run(c, first).0, second).1,
        ),
        all_expected(c, first + second) == (all_expected(c, first) && all_expected(
            run(c, first).0,
            second,
        )),
    decreases second.len(),
{
    let mid = run(c, first).0;
    if second.len() == 0 {
        assert(first + second =~= first);
        assert(run(c, first).1 + run(mid, second).1 =~= run(c, first).1);
    } else {
        lemma_run_in_parts(c, first, second.drop_last());
        assert((first + second).drop_last() =~= first + second.drop_last());
        assert((first + second).last() == second.last());
        let action = run(mid, second.drop_last()).0.next(second.last()).1;
        assert(run(c, first).1 + run(mid, second.drop_last()).1.push(action) =~= (run(c, first).1
            + run(mid, second.drop_last()).1).push(action));
    }
}

/// Where a single event leads.
proof fn lemma_run_one(c: ConnectingView, event: EventView)
    ensures
        run(c, seq![event]) == (c.next(event).0, seq![c.next(event).1]),
        all_expected(c, seq![event]) == c.expects(event),
{
    reveal_with_fuel(run, 2);
    reveal_with_fuel(all_expected, 2);
    assert(seq![event].drop_last() =~= Seq::empty());
    assert(Seq::<ActionView>::empty().push(c.next(event).1) =~= seq![c.next(event).1]);
}

/// Events that are passed over change nothing.
proof fn lemma_passed_over(c: ConnectingView, events: Seq<EventView>)
    requires
        c.phase is Scanning,
        forall|i: int| 0 <= i < events.len() ==> is_passed_over(c.target, #[trigger] events[i]),
    ensures
        run(c, events) == (c, waiting(events.len())),
        all_expected(c, events),
    decreases events.len(),
{
    if events.len() == 0 {
        assert(waiting(0) =~= Seq::empty());
    } else {
        lemma_passed_over(c, events.drop_last());
        assert(is_passed_over(c.target, events[events.len() - 1]));
        assert(waiting((events.len() - 1) as nat).push(ActionView::AwaitEvent) =~= waiting(
            events.len(),
        ));
    }
}

/// A scan goes on until a device of the very name that is looked for is discovered. Then it is
/// stopped, so that the first such device is the one that is connected to.
pub proof fn law_scan_takes_first_match(c: ConnectingView, events: Seq<EventView>)
    requires
        c.phase is Scanning,
        finds(c.target, events),
    ensures
        all_expected(c, events),
        run(c, events) == (
            c.at(Phase::StoppingScan),
            waiting((events.len() - 1) as nat).push(ActionView::StopScan),
        ),
{
    lemma_passed_over(c, events.drop_last());
}

/// A scan that ends without a device of the name that is looked for fails with that name.
pub proof fn law_scan_without_match_fails(c: ConnectingView, events: Seq<EventView>)
    requires
        c.phase is Scanning,
        events.len() > 0,
        events.last() is ScanEnded,
        forall|i: int|
            0 <= i < events.len() - 1 ==> is_passed_over(c.target, #[trigger] events[i]),
    ensures
        all_expected(c, events),
        run(c, events) == (
            c.at(Phase::Over),
            waiting((events.len() - 1) as nat).push(
                ActionView::Fail(ErrorView::DeviceNotFound(c.target)),
            ),
        ),
{
    lemma_passed_over(c, events.drop_last());
}

/// With the first `k` notifying places seen to, the next one is `places[k]`.
proof fn lemma_next_place(uuids: Seq<u128>, places: Seq<usize>, k: int)
    requires
        are_notifying_places(uuids, places),
        0 <= k <= places.len(),
        uuids.len() <= usize::MAX,
    ensures
        characteristic::next_notifying(
            uuids,
            if k == 0 {
                0
            } else {
                places[k - 1] + 1
            },
        ) == (if k < places.len() {
            Some(places[k])
        } else {
            None
        }),
{
    let from = if k == 0 {
        0
    } else {
        places[k - 1] + 1
    };
    let next = if k < places.len() {
        Some(places[k])
    } else {
        None
    };
    let end = if k < places.len() {
        places[k] as int
    } else {
        uuids.len() as int
    };
    if k < places.len() {
        assert(places[k] < uuids.len());
    }
    assert forall|j: int| from <= j < end implies !characteristic::gives_notifications(
        #[trigger] uuids[j],
    ) by {
        if characteristic::gives_notifications(uuids[j]) {
            assert(places.contains(j as usize));
            let l = choose|l: int| 0 <= l < places.len() && places[l] == j as usize;
            if l < k {
                assert(l == k - 1 || places[l] < places[k - 1]);
            } else {
                assert(l == k || places[k] < places[l]);
            }
        }
    }
    characteristic::lemma_next_notifying_is_unique(uuids, from, next);
}

/// The first subscriptions are those to the first notifying places.
proof fn lemma_subscriptions(c: ConnectingView, uuids: Seq<u128>, places: Seq<usize>, k: nat)
    requires
        c.phase is ListingCharacteristics,
        are_notifying_places(uuids, places),
        uuids.len() <= usize::MAX,
        k < places.len(),
    ensures
        ({
            let listed = ConnectingView { characteristics: uuids, ..c };
            let events = seq![EventView::Characteristics(uuids)] + all_done(k);
            &&& all_expected(c, events)
            &&& run(c, events) == (
                listed.at(Phase::Subscribing(places[k as int])),
                subscribing(places.take(k as int + 1)),
            )
        }),
    decreases k,
{
    let list = seq![EventView::Characteristics(uuids)];
    let listed = ConnectingView { characteristics: uuids, ..c };
    lemma_next_place(uuids, places, k as int);
    if k == 0 {
        lemma_run_one(c, EventView::Characteristics(uuids));
        assert(list + all_done(0) =~= list);
        assert(subscribing(places.take(1)) =~= seq![ActionView::Subscribe(places[0])]);
        assert(listed.seen_up_to(0).0 == listed.at(Phase::Subscribing(places[0])));
    } else {
        let before = (k - 1) as nat;
        lemma_subscriptions(c, uuids, places, before);
        let events = list + all_done(k);
        assert(events.drop_last() =~= list + all_done(before));
        assert(events.last() is Done);
        assert(subscribing(places.take(k as int)).push(ActionView::Subscribe(places[k as int]))
            =~= subscribing(places.take(k as int + 1)));
        assert(listed.at(Phase::Subscribing(places[k - 1])).at(Phase::Subscribing(places[k as int]))
            == listed.at(Phase::Subscribing(places[k as int])));
    }
}

/// Every characteristic that gives notifications is subscribed to, once and in order, and no other
/// is. Then the battery charge is read, unless the characteristic that holds it or the one that
/// takes commands is missing: then the connection fails with the missing one, and with the one
/// that takes commands where both are missing.
pub proof fn law_all_notifying_are_subscribed_to(
    c: ConnectingView,
    uuids: Seq<u128>,
    places: Seq<usize>,
    battery: Option<usize>,
    write: Option<usize>,
)
    requires
        c.phase is ListingCharacteristics,
        uuids.len() <= usize::MAX,
        are_notifying_places(uuids, places),
        characteristic::is_last_place(uuids, BATTERY_CHARACTERISTIC_UUID, battery),
        characteristic::is_last_place(uuids, WRITE_CHARACTERISTIC_UUID, write),
    ensures
        ({
            let listed = ConnectingView { characteristics: uuids, ..c };
            let events = seq![EventView::Characteristics(uuids)] + all_done(places.len());
            &&& all_expected(c, events)
            &&& run(c, events) == (match (battery, write) {
                (Some(b), Some(w)) => (
                    listed.at(Phase::ReadingBattery(w)),
                    subscribing(places).push(ActionView::ReadValue(b)),
                ),
                (None, Some(_)) => (
                    listed.at(Phase::Over),
                    subscribing(places).push(
                        ActionView::Fail(
                            ErrorView::MissingCharacteristic(BATTERY_CHARACTERISTIC_UUID),
                        ),
                    ),
                ),
                (_, None) => (
                    listed.at(Phase::Over),
                    subscribing(places).push(
                        ActionView::Fail(
                            ErrorView::MissingCharacteristic(WRITE_CHARACTERISTIC_UUID),
                        ),
                    ),
                ),
            })
        }),
{
    let list = seq![EventView::Characteristics(uuids)];
    let events = list + all_done(places.len());
    let listed = ConnectingView { characteristics: uuids, ..c };
    characteristic::lemma_last_place_is_unique(uuids, BATTERY_CHARACTERISTIC_UUID, battery);
    characteristic::lemma_last_place_is_unique(uuids, WRITE_CHARACTERISTIC_UUID, write);
    lemma_next_place(uuids, places, places.len() as int);
    if places.len() == 0 {
        lemma_run_one(c, EventView::Characteristics(uuids));
        assert(events =~= list);
        assert(listed.seen_up_to(0) == c.next(EventView::Characteristics(uuids)));
        let action = c.next(EventView::Characteristics(uuids)).1;
        assert(subscribing(places).push(action) =~= seq![action]);
    } else {
        let before = (places.len() - 1) as nat;
        lemma_subscriptions(c, uuids, places, before);
        assert(events.drop_last() =~= list + all_done(before));
        assert(events.last() is Done);
        assert(places.take(before as int + 1) =~= places);
    }
}

/// An action that fails ends the connection with the error that it failed with.
pub proof fn law_failure_is_passed_on(c: ConnectingView, e: BtleplugError)
    ensures
        c.next(EventView::Failed(e)) == (
            c.at(Phase::Over),
            ActionView::Fail(ErrorView::Btleplug(e)),
        ),
{
}

/// A connection is over exactly when it is finished or has failed, and then expects nothing more.
pub proof fn law_end_is_final(c: ConnectingView, event: EventView)
    requires
        c.expects(event),
    ensures
        ({
            let (after, action) = c.next(event);
            (action is Finish || action is Fail) <==> forall|e: EventView|
                !(#[trigger] after.expects(e))
        }),
{
    let after = c.next(event).0;
    if !(after.phase is Over) {
        match after.phase {
            Phase::Scanning => {
                assert(after.expects(EventView::ScanEnded));
            },
            Phase::ListingCharacteristics => {
                assert(after.expects(EventView::Characteristics(Seq::empty())));
            },
            Phase::ReadingBattery(_) => {
                assert(after.expects(EventView::Value(seq![0u8])));
            },
            _ => {
                assert(after.expects(EventView::Done));
            },
        }
    }
}

/// The device that a connection made with `c` may end with: the settings are those asked for, the
/// intensity is none, and commands go to the characteristic that takes them.
pub open spec fn is_fresh(c: ConnectingView, coyote: Coyote3) -> bool {
    &&& coyote.state.settings == c.settings
    &&& coyote.state.intensity == (Stereo { a: 0u8, b: 0u8 })
    &&& coyote.write < c.characteristics.len()
    &&& c.characteristics[coyote.write as int] == WRITE_CHARACTERISTIC_UUID
}

/// What holds of every connection on its way.
spec fn is_sound(c: ConnectingView) -> bool {
    match c.phase {
        Phase::ReadingBattery(write) => write < c.characteristics.len()
            && c.characteristics[write as int] == WRITE_CHARACTERISTIC_UUID,
        Phase::OpeningNotifications(coyote) => is_fresh(c, coyote),
        Phase::WritingSettings(coyote) => is_fresh(c, coyote),
        _ => true,
    }
}

/// There is a last place, or none.
proof fn lemma_last_place_exists(uuids: Seq<u128>, uuid: u128)
    requires
        uuids.len() <= usize::MAX,
    ensures
        characteristic::is_last_place(uuids, uuid, characteristic::last_place(uuids, uuid)),
    decreases uuids.len(),
{
    if uuids.len() == 0 {
        characteristic::lemma_last_place_is_unique(uuids, uuid, None);
    } else {
        let last = uuids.len() - 1;
        if uuids[last] == uuid {
            characteristic::lemma_last_place_is_unique(uuids, uuid, Some(last as usize));
        } else {
            let earlier = uuids.drop_last();
            lemma_last_place_exists(earlier, uuid);
            let place = characteristic::last_place(earlier, uuid);
            assert forall|j: int|
                (place matches Some(i) ==> i < j) && 0 <= j < uuids.len() implies
                #[trigger] uuids[j] != uuid by {
                if j < last {
                    assert(earlier[j] != uuid);
                }
            }
            if let Some(i) = place {
                assert(uuids[i as int] == earlier[i as int]);
            }
            characteristic::lemma_last_place_is_unique(uuids, uuid, place);
        }
    }
}

/// A characteristic is said to be missing only where the device does not have it.
pub proof fn law_missing_characteristic_is_not_there(
    c: ConnectingView,
    event: EventView,
    uuid: u128,
)
    requires
        c.expects(event),
        c.next(event).1 == ActionView::Fail(ErrorView::MissingCharacteristic(uuid)),
        c.next(event).0.characteristics.len() <= usize::MAX,
    ensures
        !c.next(event).0.characteristics.contains(uuid),
{
    let uuids = c.next(event).0.characteristics;
    lemma_last_place_exists(uuids, BATTERY_CHARACTERISTIC_UUID);
    lemma_last_place_exists(uuids, WRITE_CHARACTERISTIC_UUID);
    assert(characteristic::is_last_place(uuids, uuid, None));
}

/// The characteristics that the events list fit into memory.
pub open spec fn lists_fit(events: Seq<EventView>) -> bool {
    forall|i: int|
        0 <= i < events.len() ==> ((#[trigger] events[i]) matches EventView::Characteristics(uuids)
            ==> uuids.len() <= usize::MAX)
}

/// What fits as a whole fits without its last event.
proof fn lemma_lists_fit_before(events: Seq<EventView>)
    requires
        lists_fit(events),
        events.len() > 0,
    ensures
        lists_fit(events.drop_last()),
{
    let earlier = events.drop_last();
    assert forall|i: int| 0 <= i < earlier.len() implies ((
    #[trigger] earlier[i]) matches EventView::Characteristics(uuids) ==> uuids.len()
        <= usize::MAX) by {
        assert(earlier[i] == events[i]);
    }
}

/// Soundness is kept all the way.
proof fn lemma_run_is_sound(c: ConnectingView, events: Seq<EventView>)
    requires
        is_sound(c),
        c.characteristics.len() <= usize::MAX,
        all_expected(c, events),
        lists_fit(events),
    ensures
        is_sound(run(c, events).0),
        run(c, events).0.settings == c.settings,
        run(c, events).0.characteristics.len() <= usize::MAX,
        run(c, events).1.len() == events.len(),
    decreases events.len(),
{
    if events.len() > 0 {
        let earlier = events.drop_last();
        lemma_lists_fit_before(events);
        lemma_run_is_sound(c, earlier);
        let before = run(c, earlier).0;
        let event = events[events.len() - 1];
        let uuids = if event is Characteristics {
            event->Characteristics_0
        } else {
            before.characteristics
        };
        lemma_last_place_exists(uuids, WRITE_CHARACTERISTIC_UUID);
    }
}

/// However a connection came about: where it is finished, the device was told the settings that
/// were asked for right before, and the state starts with them, with no intensity, and with
/// commands going to the characteristic that takes them.
pub proof fn law_connected_device_has_its_settings(
    target: Seq<char>,
    settings: DeviceSettings,
    adapter_given: bool,
    peripheral_given: bool,
    events: Seq<EventView>,
)
    requires
        ({
            let start = crate::connect::beginning(
                target,
                settings,
                adapter_given,
                peripheral_given,
            ).0;
            all_expected(start, events)
        }),
        lists_fit(events),
    ensures
        ({
            let start = crate::connect::beginning(
                target,
                settings,
                adapter_given,
                peripheral_given,
            ).0;
            let (end, actions) = run(start, events);
            events.len() > 0 && actions.last() is Finish ==> {
                let coyote = actions.last()->Finish_0;
                &&& coyote.state.settings == settings
                &&& is_fresh(end, coyote)
                &&& events.len() > 1
                &&& actions[events.len() - 2] == ActionView::Write(
                    coyote.request(Command::UpdateSettings(settings)),
                )
            }
        }),
{
    let start = crate::connect::beginning(target, settings, adapter_given, peripheral_given).0;
    if events.len() > 0 && run(start, events).1.last() is Finish {
        let one = events.drop_last();
        lemma_run_is_sound(start, events);
        lemma_lists_fit_before(events);
        lemma_run_is_sound(start, one);
        assert(one.len() > 0);
        let two = one.drop_last();
        lemma_lists_fit_before(one);
        assert(all_expected(start, one));
        assert(all_expected(start, two));
        lemma_run_is_sound(start, two);
    }
}

/// The events up to the point at which the device is connected to, where everything goes well.
pub open spec fn start_events(
    adapter_given: bool,
    peripheral_given: bool,
    scan: Seq<EventView>,
) -> Seq<EventView> {
    (if adapter_given {
        Seq::empty()
    } else {
        all_done(1)
    }) + (if peripheral_given {
        Seq::empty()
    } else {
        all_done(1) + scan + all_done(1)
    })
}

/// The actions before the device is connected to, where everything goes well.
pub open spec fn start_actions(
    adapter_given: bool,
    peripheral_given: bool,
    scan: Seq<EventView>,
) -> Seq<ActionView> {
    (if adapter_given {
        Seq::empty()
    } else {
        seq![ActionView::FindAdapter]
    }) + (if peripheral_given {
        Seq::empty()
    } else {
        seq![ActionView::StartScan] + waiting(scan.len()) + seq![ActionView::StopScan]
    })
}

/// The events from the point at which the device is connected to, where everything goes well.
pub open spec fn rest_events(
    uuids: Seq<u128>,
    subscriptions: nat,
    value: Seq<u8>,
) -> Seq<EventView> {
    seq![EventView::Done, EventView::Done]
        + (seq![EventView::Characteristics(uuids)] + all_done(subscriptions))
        + seq![EventView::Value(value), EventView::Done, EventView::Done]
}

/// The actions after the device is connected to, where everything goes well.
pub open spec fn rest_actions(
    places: Seq<usize>,
    battery: usize,
    coyote: Coyote3,
) -> Seq<ActionView> {
    seq![ActionView::DiscoverServices, ActionView::ListCharacteristics]
        + subscribing(places).push(ActionView::ReadValue(battery))
        + seq![
            ActionView::OpenNotifications,
            ActionView::Write(coyote.request(Command::UpdateSettings(coyote.state.settings))),
            ActionView::Finish(coyote),
        ]
}

/// How far a connection comes with the adapter and the device: to the point at which the device is
/// connected to.
proof fn lemma_good_start(
    target: Seq<char>,
    settings: DeviceSettings,
    adapter_given: bool,
    peripheral_given: bool,
    scan: Seq<EventView>,
)
    requires
        peripheral_given || finds(target, scan),
    ensures
        ({
            let (start, first) = crate::connect::beginning(
                target,
                settings,
                adapter_given,
                peripheral_given,
            );
            let events = start_events(adapter_given, peripheral_given, scan);
            let (end, actions) = run(start, events);
            &&& all_expected(start, events)
            &&& end == start.at(Phase::Linking)
            &&& seq![first] + actions == start_actions(adapter_given, peripheral_given, scan)
                + seq![ActionView::Connect]
        }),
{
    let (start, first) = crate::connect::beginning(
        target,
        settings,
        adapter_given,
        peripheral_given,
    );
    let done = seq![EventView::Done];
    assert(all_done(1) =~= done);
    let adapter_events = if adapter_given {
        Seq::empty()
    } else {
        all_done(1)
    };
    let scan_events = if peripheral_given {
        Seq::empty()
    } else {
        all_done(1) + scan + all_done(1)
    };
    lemma_run_one(start, EventView::Done);
    lemma_run_in_parts(start, adapter_events, scan_events);
    let with_adapter = run(start, adapter_events).0;
    if !peripheral_given {
        lemma_run_one(with_adapter, EventView::Done);
        lemma_run_in_parts(with_adapter, all_done(1), scan);
        let scanning = run(with_adapter, all_done(1)).0;
        law_scan_takes_first_match(scanning, scan);
        lemma_run_in_parts(with_adapter, all_done(1) + scan, all_done(1));
        let stopping = run(with_adapter, all_done(1) + scan).0;
        lemma_run_one(stopping, EventView::Done);
    }
    let actions = run(start, adapter_events + scan_events).1;
    assert(seq![first] + actions =~= start_actions(adapter_given, peripheral_given, scan) + seq![
        ActionView::Connect,
    ]);
}

/// Where three events lead, one after the other.
proof fn lemma_run_three(c: ConnectingView, e1: EventView, e2: EventView, e3: EventView)
    ensures
        ({
            let (c1, a1) = c.next(e1);
            let (c2, a2) = c1.next(e2);
            let (c3, a3) = c2.next(e3);
            &&& run(c, seq![e1, e2]) == (c2, seq![a1, a2])
            &&& run(c, seq![e1, e2, e3]) == (c3, seq![a1, a2, a3])
            &&& all_expected(c, seq![e1, e2]) == (c.expects(e1) && c1.expects(e2))
            &&& all_expected(c, seq![e1, e2, e3]) == (c.expects(e1) && c1.expects(e2)
                && c2.expects(e3))
        }),
{
    let (c1, a1) = c.next(e1);
    let (c2, a2) = c1.next(e2);
    let (c3, a3) = c2.next(e3);
    lemma_run_one(c, e1);
    assert(seq![e1, e2].drop_last() =~= seq![e1]);
    assert(seq![a1].push(a2) =~= seq![a1, a2]);
    assert(run(c, seq![e1, e2]) == (c2, seq![a1, a2]));
    assert(all_expected(c, seq![e1, e2]) == (c.expects(e1) && c1.expects(e2)));
    assert(seq![e1, e2, e3].drop_last() =~= seq![e1, e2]);
    assert(seq![a1, a2].push(a3) =~= seq![a1, a2, a3]);
}

/// From the point at which the device is connected to, everything goes on to its good end.
proof fn lemma_good_rest(
    c: ConnectingView,
    uuids: Seq<u128>,
    places: Seq<usize>,
    battery: usize,
    write: usize,
    value: Seq<u8>,
)
    requires
        c.phase is Linking,
        uuids.len() <= usize::MAX,
        are_notifying_places(uuids, places),
        characteristic::is_last_place(uuids, BATTERY_CHARACTERISTIC_UUID, Some(battery)),
        characteristic::is_last_place(uuids, WRITE_CHARACTERISTIC_UUID, Some(write)),
        value.len() > 0,
    ensures
        ({
            let events = rest_events(uuids, places.len(), value);
            let state = State {
                battery: value[0],
                intensity: Stereo { a: 0, b: 0 },
                settings: c.settings,
            };
            &&& all_expected(c, events)
            &&& run(c, events).1 == rest_actions(places, battery, Coyote3 { write, state })
        }),
{
    let e1 = seq![EventView::Done, EventView::Done];
    let e2 = seq![EventView::Characteristics(uuids)] + all_done(places.len());
    let e3 = seq![EventView::Value(value), EventView::Done, EventView::Done];
    lemma_run_three(c, EventView::Done, EventView::Done, EventView::Done);
    let listing = run(c, e1).0;
    law_all_notifying_are_subscribed_to(listing, uuids, places, Some(battery), Some(write));
    let reading = run(listing, e2).0;
    lemma_run_three(reading, EventView::Value(value), EventView::Done, EventView::Done);
    lemma_run_in_parts(c, e1, e2);
    lemma_run_in_parts(c, e1 + e2, e3);
}

/// Where everything goes well, a connection takes just these steps and ends with the device: an
/// adapter is looked for unless one is given, the device is scanned for unless one is given, the
/// device is connected to, its characteristics that give notifications are subscribed to, its
/// battery charge is read, and its settings are written.
pub proof fn law_good_connection(
    target: Seq<char>,
    settings: DeviceSettings,
    adapter_given: bool,
    peripheral_given: bool,
    scan: Seq<EventView>,
    uuids: Seq<u128>,
    places: Seq<usize>,
    battery: usize,
    write: usize,
    value: Seq<u8>,
)
    requires
        peripheral_given || finds(target, scan),
        uuids.len() <= usize::MAX,
        are_notifying_places(uuids, places),
        characteristic::is_last_place(uuids, BATTERY_CHARACTERISTIC_UUID, Some(battery)),
        characteristic::is_last_place(uuids, WRITE_CHARACTERISTIC_UUID, Some(write)),
        value.len() > 0,
    ensures
        ({
            let (start, first) = crate::connect::beginning(
                target,
                settings,
                adapter_given,
                peripheral_given,
            );
            let events = start_events(adapter_given, peripheral_given, scan) + rest_events(
                uuids,
                places.len(),
                value,
            );
            let state = State { battery: value[0], intensity: Stereo { a: 0, b: 0 }, settings };
            &&& all_expected(start, events)
            &&& seq![first] + run(start, events).1 == start_actions(
                adapter_given,
                peripheral_given,
                scan,
            ) + seq![ActionView::Connect] + rest_actions(
                places,
                battery,
                Coyote3 { write, state },
            )
        }),
{
    let (start, first) = crate::connect::beginning(
        target,
        settings,
        adapter_given,
        peripheral_given,
    );
    let e1 = start_events(adapter_given, peripheral_given, scan);
    let e2 = rest_events(uuids, places.len(), value);
    lemma_good_start(target, settings, adapter_given, peripheral_given, scan);
    let linking = run(start, e1).0;
    lemma_good_rest(linking, uuids, places, battery, write, value);
    lemma_run_in_parts(start, e1, e2);
    let a1 = run(start, e1).1;
    let a2 = run(linking, e2).1;
    assert(seq![first] + (a1 + a2) =~= (seq![first] + a1) + a2);
}

/// What came of an action is seen as it is.
pub proof fn law_events_are_seen_as_they_are(
    name: String,
    uuids: Vec<u128>,
    value: Vec<u8>,
    e: BtleplugError,
)
    ensures
        ConnectEvent::Done@ == EventView::Done,
        ConnectEvent::Discovered(Some(name))@ == EventView::Discovered(Some(name@)),
        ConnectEvent::Discovered(None)@ == EventView::Discovered(None),
        ConnectEvent::OtherScanEvent@ == EventView::OtherScanEvent,
        ConnectEvent::ScanEnded@ == EventView::ScanEnded,
        ConnectEvent::Characteristics(uuids)@ == EventView::Characteristics(uuids@),
        ConnectEvent::Value(value)@ == EventView::Value(value@),
        ConnectEvent::Failed(e)@ == EventView::Failed(e),
{
}

/// An action is seen as it is.
pub proof fn law_actions_are_seen_as_they_are(
    place: usize,
    request: WriteRequest,
    coyote: Coyote3,
    e: Error,
)
    ensures
        ConnectAction::FindAdapter@ == ActionView::FindAdapter,
        ConnectAction::StartScan@ == ActionView::StartScan,
        ConnectAction::AwaitEvent@ == ActionView::AwaitEvent,
        ConnectAction::StopScan@ == ActionView::StopScan,
        ConnectAction::Connect@ == ActionView::Connect,
        ConnectAction::DiscoverServices@ == ActionView::DiscoverServices,
        ConnectAction::ListCharacteristics@ == ActionView::ListCharacteristics,
        ConnectAction::Subscribe(place)@ == ActionView::Subscribe(place),
        ConnectAction::ReadValue(place)@ == ActionView::ReadValue(place),
        ConnectAction::OpenNotifications@ == ActionView::OpenNotifications,
        ConnectAction::Write(request)@ == ActionView::Write(request@),
        ConnectAction::Finish(coyote)@ == ActionView::Finish(coyote),
        ConnectAction::Fail(e)@ == ActionView::Fail(e@),
{
}

/// A connection begins with what was asked for. An adapter that is not given is looked for first,
/// then a device that is not given is scanned for, and a given one is connected to at once.
pub proof fn law_beginning(
    target: Seq<char>,
    settings: DeviceSettings,
    adapter_given: bool,
    peripheral_given: bool,
)
    ensures
        ({
            let (start, first) = crate::connect::beginning(
                target,
                settings,
                adapter_given,
                peripheral_given,
            );
            &&& start.target == target
            &&& start.settings == settings
            &&& start.peripheral_given == peripheral_given
            &&& start.characteristics.len() == 0
            &&& !adapter_given ==> start.phase == Phase::FindingAdapter && first
                == ActionView::FindAdapter
            &&& adapter_given && !peripheral_given ==> start.phase == Phase::StartingScan && first
                == ActionView::StartScan
            &&& adapter_given && peripheral_given ==> start.phase == Phase::Linking && first
                == ActionView::Connect
        }),
{
}

/// What was asked for stays as it is on the whole way, and so do the characteristics once they are
/// listed.
pub proof fn law_what_was_asked_for_stays(c: ConnectingView, event: EventView)
    requires
        c.expects(event),
    ensures
        c.next(event).0.target == c.target,
        c.next(event).0.settings == c.settings,
        c.next(event).0.peripheral_given == c.peripheral_given,
        c.next(event).0.characteristics == (match event {
            EventView::Characteristics(uuids) => uuids,
            _ => c.characteristics,
        }),
{
}

/// The order of the steps up to the list of characteristics, where each is done.
pub proof fn law_steps_to_the_characteristics(c: ConnectingView)
    ensures
        ({
            let (after, action) = c.next(EventView::Done);
            &&& c.phase == Phase::FindingAdapter && !c.peripheral_given ==> after.phase
                == Phase::StartingScan && action == ActionView::StartScan
            &&& c.phase == Phase::FindingAdapter && c.peripheral_given ==> after.phase
                == Phase::Linking && action == ActionView::Connect
            &&& c.phase == Phase::StartingScan ==> after.phase == Phase::Scanning && action
                == ActionView::AwaitEvent
            &&& c.phase == Phase::StoppingScan ==> after.phase == Phase::Linking && action
                == ActionView::Connect
            &&& c.phase == Phase::Linking ==> after.phase == Phase::DiscoveringServices && action
                == ActionView::DiscoverServices
            &&& c.phase == Phase::DiscoveringServices ==> after.phase
                == Phase::ListingCharacteristics && action == ActionView::ListCharacteristics
        }),
{
}

/// A scan stops at a device exactly if the device has the very name that is looked for, and fails
/// exactly when nothing more will come, with that name; all else it waits out.
pub proof fn law_scan_goes_by_the_whole_name(c: ConnectingView, name: Seq<char>)
    requires
        c.phase == Phase::Scanning,
    ensures
        name == c.target ==> c.next(EventView::Discovered(Some(name))).1 == ActionView::StopScan
            && c.next(EventView::Discovered(Some(name))).0.phase == Phase::StoppingScan,
        name != c.target ==> c.next(EventView::Discovered(Some(name))).1 == ActionView::AwaitEvent
            && c.next(EventView::Discovered(Some(name))).0.phase == Phase::Scanning,
        c.next(EventView::Discovered(None)).1 == ActionView::AwaitEvent,
        c.next(EventView::Discovered(None)).0.phase == Phase::Scanning,
        c.next(EventView::OtherScanEvent).1 == ActionView::AwaitEvent,
        c.next(EventView::OtherScanEvent).0.phase == Phase::Scanning,
        c.next(EventView::ScanEnded).1 == ActionView::Fail(ErrorView::DeviceNotFound(c.target)),
        c.next(EventView::ScanEnded).0.phase == Phase::Over,
{
}

/// There is a next notifying place, or none.
proof fn lemma_next_notifying_exists(uuids: Seq<u128>, from: int)
    requires
        uuids.len() <= usize::MAX,
        0 <= from,
    ensures
        characteristic::is_next_notifying(
            uuids,
            from,
            characteristic::next_notifying(uuids, from),
        ),
    decreases uuids.len() - from,
{
    if from >= uuids.len() {
        characteristic::lemma_next_notifying_is_unique(uuids, from, None);
    } else if characteristic::gives_notifications(uuids[from]) {
        characteristic::lemma_next_notifying_is_unique(uuids, from, Some(from as usize));
    } else {
        lemma_next_notifying_exists(uuids, from + 1);
        let r = characteristic::next_notifying(uuids, from + 1);
        characteristic::lemma_next_notifying_is_unique(uuids, from, r);
    }
}

/// From the list of characteristics on, and after each subscription, the next place of the battery
/// (1500) or the notify (150B) characteristic is subscribed to, and no place of any other. Where
/// none is left, the last battery characteristic is read and commands are to go to the last write
/// characteristic (150A), unless one of the two is missing: then that is the error, and the write
/// one where both are.
pub proof fn law_battery_and_notify_are_subscribed_to(c: ConnectingView, event: EventView)
    requires
        c.expects(event),
        event is Characteristics || (c.phase is Subscribing && event is Done),
        c.next(event).0.characteristics.len() <= usize::MAX,
    ensures
        ({
            let (after, action) = c.next(event);
            let uuids = after.characteristics;
            let seen = match c.phase {
                Phase::Subscribing(i) => i + 1,
                _ => 0,
            };
            match action {
                ActionView::Subscribe(k) => {
                    &&& after.phase == Phase::Subscribing(k)
                    &&& seen <= k < uuids.len()
                    &&& uuids[k as int] == 0x00001500_0000_1000_8000_00805f9b34fbu128
                        || uuids[k as int] == 0x0000150B_0000_1000_8000_00805f9b34fbu128
                    &&& forall|j: int|
                        seen <= j < k ==> (#[trigger] uuids[j])
                            != 0x00001500_0000_1000_8000_00805f9b34fbu128 && uuids[j]
                            != 0x0000150B_0000_1000_8000_00805f9b34fbu128
                },
                ActionView::ReadValue(b) => {
                    &&& forall|j: int|
                        seen <= j < uuids.len() ==> (#[trigger] uuids[j])
                            != 0x00001500_0000_1000_8000_00805f9b34fbu128 && uuids[j]
                            != 0x0000150B_0000_1000_8000_00805f9b34fbu128
                    &&& b < uuids.len()
                    &&& uuids[b as int] == 0x00001500_0000_1000_8000_00805f9b34fbu128
                    &&& forall|j: int|
                        b < j < uuids.len() ==> #[trigger] uuids[j]
                            != 0x00001500_0000_1000_8000_00805f9b34fbu128
                    &&& after.phase is ReadingBattery
                    &&& ({
                        let w = after.phase->ReadingBattery_0;
                        &&& w < uuids.len()
                        &&& uuids[w as int] == 0x0000150A_0000_1000_8000_00805f9b34fbu128
                        &&& forall|j: int|
                            w < j < uuids.len() ==> #[trigger] uuids[j]
                                != 0x0000150A_0000_1000_8000_00805f9b34fbu128
                    })
                },
                ActionView::Fail(e) => {
                    &&& forall|j: int|
                        seen <= j < uuids.len() ==> (#[trigger] uuids[j])
                            != 0x00001500_0000_1000_8000_00805f9b34fbu128 && uuids[j]
                            != 0x0000150B_0000_1000_8000_00805f9b34fbu128
                    &&& after.phase == Phase::Over
                    &&& if uuids.contains(0x0000150A_0000_1000_8000_00805f9b34fbu128) {
                        &&& !uuids.contains(0x00001500_0000_1000_8000_00805f9b34fbu128)
                        &&& e == ErrorView::MissingCharacteristic(
                            0x00001500_0000_1000_8000_00805f9b34fbu128,
                        )
                    } else {
                        e == ErrorView::MissingCharacteristic(
                            0x0000150A_0000_1000_8000_00805f9b34fbu128,
                        )
                    }
                },
                _ => false,
            }
        }),
{
    let uuids = c.next(event).0.characteristics;
    let seen = match c.phase {
        Phase::Subscribing(i) => i + 1,
        _ => 0,
    };
    let next = characteristic::next_notifying(uuids, seen);
    let battery = characteristic::last_place(uuids, BATTERY_CHARACTERISTIC_UUID);
    let write = characteristic::last_place(uuids, WRITE_CHARACTERISTIC_UUID);
    lemma_next_notifying_exists(uuids, seen);
    lemma_last_place_exists(uuids, BATTERY_CHARACTERISTIC_UUID);
    lemma_last_place_exists(uuids, WRITE_CHARACTERISTIC_UUID);
    characteristic::law_next_notifying_place(uuids, seen, next);
    characteristic::law_last_place(uuids, BATTERY_CHARACTERISTIC_UUID, battery);
    characteristic::law_last_place(uuids, WRITE_CHARACTERISTIC_UUID, write);
    if let Some(w) = write {
        assert(uuids.contains(uuids[w as int]));
    }
}

/// Subscriptions lead to every notifying place.
proof fn lemma_place_is_reached(c: ConnectingView, uuids: Seq<u128>, i: int) -> (n: nat)
    requires
        c.phase is ListingCharacteristics,
        uuids.len() <= usize::MAX,
        0 <= i < uuids.len(),
        characteristic::gives_notifications(uuids[i]),
    ensures
        ({
            let events = seq![EventView::Characteristics(uuids)] + all_done(n);
            let (end, actions) = run(c, events);
            &&& all_expected(c, events)
            &&& end == ConnectingView {
                characteristics: uuids,
                phase: Phase::Subscribing(i as usize),
                ..c
            }
            &&& actions.len() == n + 1
            &&& actions.last() == ActionView::Subscribe(i as usize)
        }),
    decreases i,
{
    let list = seq![EventView::Characteristics(uuids)];
    if exists|j: int| 0 <= j < i && characteristic::gives_notifications(#[trigger] uuids[j]) {
        let p = lemma_previous_notifying(uuids, i);
        let before = lemma_place_is_reached(c, uuids, p);
        let n = before + 1;
        let events = list + all_done(n);
        assert(events.drop_last() =~= list + all_done(before));
        assert(events.last() is Done);
        characteristic::lemma_next_notifying_is_unique(uuids, p + 1, Some(i as usize));
        n
    } else {
        lemma_run_one(c, EventView::Characteristics(uuids));
        assert(list + all_done(0) =~= list);
        characteristic::lemma_next_notifying_is_unique(uuids, 0, Some(i as usize));
        0
    }
}

/// The last notifying place before another place.
proof fn lemma_previous_notifying(uuids: Seq<u128>, i: int) -> (p: int)
    requires
        0 <= i <= uuids.len(),
        exists|j: int| 0 <= j < i && characteristic::gives_notifications(#[trigger] uuids[j]),
    ensures
        0 <= p < i,
        characteristic::gives_notifications(uuids[p]),
        forall|j: int| p < j < i ==> !characteristic::gives_notifications(#[trigger] uuids[j]),
    decreases i,
{
    if characteristic::gives_notifications(uuids[i - 1]) {
        i - 1
    } else {
        lemma_previous_notifying(uuids, i - 1)
    }
}

/// Only such places are ever subscribed to.
proof fn lemma_subscribed_place_notifies(c: ConnectingView, uuids: Seq<u128>, n: nat)
    requires
        c.phase is ListingCharacteristics,
        uuids.len() <= usize::MAX,
        all_expected(c, seq![EventView::Characteristics(uuids)] + all_done(n)),
    ensures
        ({
            let (end, actions) = run(c, seq![EventView::Characteristics(uuids)] + all_done(n));
            &&& actions.len() == n + 1
            &&& end.characteristics == uuids
            &&& actions.last() matches ActionView::Subscribe(i) ==> i < uuids.len()
                && characteristic::gives_notifications(uuids[i as int])
        }),
    decreases n,
{
    let list = seq![EventView::Characteristics(uuids)];
    if n == 0 {
        lemma_run_one(c, EventView::Characteristics(uuids));
        assert(list + all_done(0) =~= list);
        lemma_next_notifying_exists(uuids, 0);
    } else {
        let before = (n - 1) as nat;
        let events = list + all_done(n);
        assert(events.drop_last() =~= list + all_done(before));
        assert(events.last() is Done);
        lemma_subscribed_place_notifies(c, uuids, before);
        if let Phase::Subscribing(i) = run(c, list + all_done(before)).0.phase {
            lemma_next_notifying_exists(uuids, i + 1);
        }
    }
}

/// Where every subscription is done, a place is subscribed to at some time exactly if it is one of
/// the battery (1500) or the notify (150B) characteristic, for every list of characteristics.
pub proof fn law_place_is_subscribed_to_or_left_alone(
    c: ConnectingView,
    uuids: Seq<u128>,
    place: usize,
)
    requires
        c.phase is ListingCharacteristics,
        uuids.len() <= usize::MAX,
        place < uuids.len(),
    ensures
        (uuids[place as int] == 0x00001500_0000_1000_8000_00805f9b34fbu128 || uuids[place as int]
            == 0x0000150B_0000_1000_8000_00805f9b34fbu128) <==> exists|n: nat|
            {
                let events = seq![EventView::Characteristics(uuids)] + #[trigger] all_done(n);
                all_expected(c, events) && run(c, events).1.last() == ActionView::Subscribe(place)
            },
{
    characteristic::law_two_characteristics_notify(uuids[place as int]);
    if characteristic::gives_notifications(uuids[place as int]) {
        let n = lemma_place_is_reached(c, uuids, place as int);
        let events = seq![EventView::Characteristics(uuids)] + all_done(n);
        assert(all_expected(c, events) && run(c, events).1.last() == ActionView::Subscribe(place));
    }
    if exists|n: nat|
        {
            let events = seq![EventView::Characteristics(uuids)] + #[trigger] all_done(n);
            all_expected(c, events) && run(c, events).1.last() == ActionView::Subscribe(place)
        } {
        let n = choose|n: nat|
            {
                let events = seq![EventView::Characteristics(uuids)] + #[trigger] all_done(n);
                all_expected(c, events) && run(c, events).1.last() == ActionView::Subscribe(place)
            };
        lemma_subscribed_place_notifies(c, uuids, n);
    }
}

/// With the battery charge the state is known: the charge is the first byte of the value, there is
/// no intensity, and the settings are those asked for. Commands are to go where the connection had
/// found. Then the notifications are opened.
pub proof fn law_state_starts_with_the_battery(c: ConnectingView, write: usize, value: Seq<u8>)
    requires
        c.phase == Phase::ReadingBattery(write),
        value.len() > 0,
    ensures
        ({
            let (after, action) = c.next(EventView::Value(value));
            &&& action == ActionView::OpenNotifications
            &&& after.phase is OpeningNotifications
            &&& ({
                let coyote = after.phase->OpeningNotifications_0;
                &&& coyote.write == write
                &&& coyote.state.battery == value[0]
                &&& coyote.state.intensity.a == 0
                &&& coyote.state.intensity.b == 0
                &&& coyote.state.settings == c.settings
            })
        }),
{
}

/// With the notifications open, the settings that were asked for are written, byte by byte, to the
/// characteristic that takes commands; once that is done, the device is connected.
pub proof fn law_settings_are_written_at_last(c: ConnectingView, coyote: Coyote3)
    ensures
        c.phase == Phase::OpeningNotifications(coyote) ==> ({
            let (after, action) = c.next(EventView::Done);
            &&& after.phase == Phase::WritingSettings(coyote)
            &&& action is Write
            &&& action->Write_0.characteristic == coyote.write
            &&& action->Write_0.bytes == seq![
                0xBFu8,
                c.settings.limit.a,
                c.settings.limit.b,
                c.settings.frequency_balance.a,
                c.settings.frequency_balance.b,
                c.settings.intensity_balance.a,
                c.settings.intensity_balance.b,
            ]
        }),
        c.phase == Phase::WritingSettings(coyote) ==> ({
            let (after, action) = c.next(EventView::Done);
            &&& after.phase == Phase::Over
            &&& action == ActionView::Finish(coyote)
        }),
{
    crate::device::law_settings_request_byte_by_byte(coyote, c.settings);
}

/// At whatever step an action fails, the connection is over and fails with the very error.
pub proof fn law_failure_ends_the_connection(c: ConnectingView, e: BtleplugError)
    ensures
        c.next(EventView::Failed(e)).0.phase == Phase::Over,
        c.next(EventView::Failed(e)).1 == ActionView::Fail(ErrorView::Btleplug(e)),
{
}

/// What can come of each step.
pub proof fn law_what_can_come(
    c: ConnectingView,
    name: Option<Seq<char>>,
    uuids: Seq<u128>,
    value: Seq<u8>,
    e: BtleplugError,
)
    ensures
        c.expects(EventView::Done) <==> !(c.phase is Scanning || c.phase is ListingCharacteristics
            || c.phase is ReadingBattery || c.phase is Over),
        c.expects(EventView::Failed(e)) <==> !(c.phase is ListingCharacteristics
            || c.phase is Over),
        c.expects(EventView::Discovered(name)) <==> c.phase is Scanning,
        c.expects(EventView::OtherScanEvent) <==> c.phase is Scanning,
        c.expects(EventView::ScanEnded) <==> c.phase is Scanning,
        c.expects(EventView::Characteristics(uuids)) <==> c.phase is ListingCharacteristics,
        c.expects(EventView::Value(value)) <==> c.phase is ReadingBattery && value.len() > 0,
{
}

} // verus!
