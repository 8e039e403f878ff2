use async_local::doomsday::{
    arsenal_armed, ClockVerdict, DoomsdayClock, DropAction, NuclearWarhead, PollAction,
    WarheadState, ARSENAL_SIZE, SECONDS_TO_MIDNIGHT,
};

#[test]
fn constants() {
    assert_eq!(SECONDS_TO_MIDNIGHT, 100);
    assert_eq!(ARSENAL_SIZE, 1600);
}

#[test]
fn verdicts() {
    let mut c = DoomsdayClock::new(3);
    assert_eq!(c.core_id, 3);
    assert_eq!(c.armed, 0);
    assert_eq!(c.verdict(0), ClockVerdict::Midnight);
    c.armed = 5;
    assert_eq!(c.verdict(0), ClockVerdict::Midnight);
    assert_eq!(c.verdict(5), ClockVerdict::Midnight);
    assert_eq!(c.verdict(4), ClockVerdict::OneWarhead);
    assert_eq!(c.verdict(2), ClockVerdict::Warheads(3));
    assert_eq!(c.verdict(1), ClockVerdict::Warheads(4));
}

#[test]
fn first_poll_arms_local_clock() {
    let mut w = NuclearWarhead::proliferate();
    assert_eq!(w.state, WarheadState::Proliferating);
    let mut c = DoomsdayClock::new(1);
    assert_eq!(w.poll(&mut c), PollAction::WakeAndPend);
    assert_eq!(c.armed, 1);
    assert_eq!(w.state, WarheadState::DoomsdayClock { core_id: 1 });
    assert_eq!(w.poll(&mut c), PollAction::WakeAndPend);
    assert_eq!(c.armed, 1);
    let mut other = DoomsdayClock::new(2);
    assert_eq!(w.poll(&mut other), PollAction::CountArmament);
    assert_eq!(other.armed, 0);
    assert_eq!(w.state, WarheadState::DoomsdayClock { core_id: 1 });
}

#[test]
fn drop_disarms_arming_clock() {
    let mut w = NuclearWarhead::proliferate();
    assert_eq!(w.on_drop(false), DropAction::Nothing);
    assert_eq!(w.on_drop(true), DropAction::Panic);
    let mut c = DoomsdayClock::new(9);
    w.poll(&mut c);
    assert_eq!(w.on_drop(false), DropAction::Disarm(9));
    assert_eq!(w.on_drop(true), DropAction::Panic);
}

#[test]
fn arsenal_completion() {
    assert!(arsenal_armed(ARSENAL_SIZE - 1));
    assert!(!arsenal_armed(0));
    assert!(!arsenal_armed(ARSENAL_SIZE));
}

#[test]
fn disarmed_never_exceeds_armed() {
    let mut c1 = DoomsdayClock::new(1);
    let mut c2 = DoomsdayClock::new(2);
    let mut ws = vec![NuclearWarhead::proliferate(), NuclearWarhead::proliferate(), NuclearWarhead::proliferate()];
    ws[0].poll(&mut c1);
    ws[1].poll(&mut c1);
    ws[2].poll(&mut c2);
    ws[0].poll(&mut c2);
    let mut disarmed = [0usize; 3];
    for w in ws.iter().take(2) {
        if let DropAction::Disarm(core) = w.on_drop(false) {
            disarmed[core] += 1;
        }
    }
    assert_eq!((c1.armed, disarmed[1]), (2, 2));
    assert_eq!((c2.armed, disarmed[2]), (1, 0));
    assert_eq!(c1.verdict(disarmed[1]), ClockVerdict::Midnight);
    assert_eq!(c2.verdict(disarmed[2]), ClockVerdict::Midnight);
}
