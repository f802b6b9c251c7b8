use counting_engine::engine::Engine;
use counting_engine::stats::Statistics;
use counting_engine::verdict::Verdict;

const TENANT: u64 = 1;
const CHANNEL: u64 = 10;
const B: u64 = 2;
const C: u64 = 3;

fn configured() -> Engine {
    let mut e = Engine::new();
    assert_eq!(e.set_active_channel(TENANT, CHANNEL, true), Verdict::ChannelConfigured);
    e
}

#[test]
fn fresh_accept() {
    let mut e = configured();
    let v = e.process_submission(TENANT, B, CHANNEL, b"1", false);
    assert_eq!(v, Verdict::Accepted);
    let t = e.tenant_info(TENANT).unwrap();
    assert_eq!(t.running_count, 1);
    assert_eq!(t.last_contributor, Some(B));
    assert_eq!(t.tally, Statistics { correct: 1, incorrect: 0 });
}

#[test]
fn consecutive_turn_after_accept() {
    let mut e = configured();
    assert_eq!(e.process_submission(TENANT, B, CHANNEL, b"1", false), Verdict::Accepted);
    let v = e.process_submission(TENANT, B, CHANNEL, b"2", false);
    assert_eq!(v, Verdict::ConsecutiveTurn);
    let t = e.tenant_info(TENANT).unwrap();
    assert_eq!(t.running_count, 0);
    assert_eq!(t.last_contributor, None);
    assert_eq!(t.tally, Statistics { correct: 1, incorrect: 1 });
}

#[test]
fn not_a_number() {
    let mut e = configured();
    assert_eq!(e.process_submission(TENANT, B, CHANNEL, b"1", false), Verdict::Accepted);
    assert_eq!(e.process_submission(TENANT, B, CHANNEL, b"2", false), Verdict::ConsecutiveTurn);
    let v = e.process_submission(TENANT, C, CHANNEL, b"abc", false);
    assert_eq!(v, Verdict::NotANumber);
    let t = e.tenant_info(TENANT).unwrap();
    assert_eq!(t.running_count, 0);
    assert_eq!(
        e.query_participant(C, Some(TENANT)),
        Some(Statistics { correct: 0, incorrect: 1 })
    );
}

#[test]
fn consecutive_turn_at_five() {
    let mut e = configured();
    for k in 1u32..=5 {
        let who = if k % 2 == 0 { B } else { C };
        let text = format!("{}", k);
        assert_eq!(
            e.process_submission(TENANT, who, CHANNEL, text.as_bytes(), false),
            Verdict::Accepted
        );
    }
    let t = e.tenant_info(TENANT).unwrap();
    assert_eq!(t.running_count, 5);
    assert_eq!(t.last_contributor, Some(C));
    // C produced "5"; a numerically correct "6" from C is rejected.
    let v = e.process_submission(TENANT, C, CHANNEL, b"6", false);
    assert_eq!(v, Verdict::ConsecutiveTurn);
    let t = e.tenant_info(TENANT).unwrap();
    assert_eq!(t.running_count, 0);
    assert_eq!(t.last_contributor, None);
}

#[test]
fn alternating_chain_counts_to_n() {
    let mut e = configured();
    for k in 1u32..=6 {
        let who = if k % 2 == 0 { B } else { C };
        let text = format!("{}", k);
        assert_eq!(
            e.process_submission(TENANT, who, CHANNEL, text.as_bytes(), false),
            Verdict::Accepted
        );
    }
    assert_eq!(e.tenant_info(TENANT).unwrap().running_count, 6);
    // One wrong submission resets the chain regardless of its height.
    assert_eq!(e.process_submission(TENANT, C, CHANNEL, b"99", false), Verdict::WrongNumber);
    assert_eq!(e.tenant_info(TENANT).unwrap().running_count, 0);
}

#[test]
fn ignored_events_change_nothing() {
    let mut e = configured();
    assert_eq!(e.process_submission(TENANT, B, CHANNEL, b"1", false), Verdict::Accepted);
    let before_tenant = e.tenant_info(TENANT);
    let before_b = e.query_participant(B, Some(TENANT));

    // Automated sender.
    assert_eq!(e.process_submission(TENANT, B, CHANNEL, b"2", true), Verdict::Ignored);
    // Unconfigured tenant.
    assert_eq!(e.process_submission(99, B, CHANNEL, b"2", false), Verdict::Ignored);
    // Wrong channel.
    assert_eq!(e.process_submission(TENANT, B, CHANNEL + 1, b"2", false), Verdict::Ignored);

    assert_eq!(e.tenant_info(TENANT), before_tenant);
    assert_eq!(e.query_participant(B, Some(TENANT)), before_b);
    // No record was created for the ignored tenant's id either.
    assert_eq!(e.tenant_info(99), None);
}

#[test]
fn one_record_for_two_tenants() {
    let mut e = configured();
    let other: u64 = 4;
    let other_channel: u64 = 40;
    assert_eq!(e.set_active_channel(other, other_channel, true), Verdict::ChannelConfigured);
    let p: u64 = 5;
    assert_eq!(e.participant_count(), 0);
    assert_eq!(e.process_submission(TENANT, p, CHANNEL, b"1", false), Verdict::Accepted);
    assert_eq!(e.process_submission(other, p, other_channel, b"7", false), Verdict::WrongNumber);
    // One participant record, with both per-tenant tallies populated.
    assert_eq!(e.participant_count(), 1);
    assert_eq!(
        e.query_participant(p, None),
        Some(Statistics { correct: 1, incorrect: 1 })
    );
    assert_eq!(
        e.query_participant(p, Some(TENANT)),
        Some(Statistics { correct: 1, incorrect: 0 })
    );
    assert_eq!(
        e.query_participant(p, Some(other)),
        Some(Statistics { correct: 0, incorrect: 1 })
    );
}

#[test]
fn cross_tenant_independence() {
    let mut e = configured();
    let other: u64 = 4;
    let other_channel: u64 = 40;
    assert_eq!(e.set_active_channel(other, other_channel, true), Verdict::ChannelConfigured);
    assert_eq!(e.process_submission(other, B, other_channel, b"1", false), Verdict::Accepted);
    let y_before = e.tenant_info(other);
    let b_in_y_before = e.query_participant(B, Some(other));

    // Heavy traffic on the first tenant.
    for k in 1u32..=50 {
        let who = if k % 2 == 0 { B } else { C };
        let text = format!("{}", k);
        e.process_submission(TENANT, who, CHANNEL, text.as_bytes(), false);
    }
    e.process_submission(TENANT, B, CHANNEL, b"nope", false);

    assert_eq!(e.tenant_info(other), y_before);
    assert_eq!(e.query_participant(B, Some(other)), b_in_y_before);
}

#[test]
fn unseen_participant_is_no_data() {
    let mut e = configured();
    assert_eq!(e.query_participant(B, None), None);
    assert_eq!(e.query_participant(B, Some(TENANT)), None);
    assert_eq!(e.process_submission(TENANT, B, CHANNEL, b"1", false), Verdict::Accepted);
    // Seen participant, but never in this other tenant: a zeroed tally,
    // distinct from "no data".
    assert_eq!(
        e.query_participant(B, Some(77)),
        Some(Statistics { correct: 0, incorrect: 0 })
    );
    assert_eq!(e.query_participant(C, Some(77)), None);
}

#[test]
fn non_admin_cannot_configure() {
    let mut e = Engine::new();
    assert_eq!(e.set_active_channel(TENANT, CHANNEL, false), Verdict::PermissionDenied);
    assert_eq!(e.tenant_info(TENANT), None);
    assert_eq!(e.process_submission(TENANT, B, CHANNEL, b"1", false), Verdict::Ignored);
}

#[test]
fn reconfigure_keeps_state() {
    let mut e = configured();
    assert_eq!(e.process_submission(TENANT, B, CHANNEL, b"1", false), Verdict::Accepted);
    assert_eq!(e.set_active_channel(TENANT, CHANNEL + 1, true), Verdict::ChannelConfigured);
    let t = e.tenant_info(TENANT).unwrap();
    assert_eq!(t.active_channel, CHANNEL + 1);
    assert_eq!(t.running_count, 1);
    assert_eq!(t.tally, Statistics { correct: 1, incorrect: 0 });
    // The old channel is no longer monitored; the new one is.
    assert_eq!(e.process_submission(TENANT, C, CHANNEL, b"2", false), Verdict::Ignored);
    assert_eq!(e.process_submission(TENANT, C, CHANNEL + 1, b"2", false), Verdict::Accepted);
}

#[test]
fn tallies_saturate_instead_of_wrapping() {
    let mut s = Statistics { correct: u32::MAX, incorrect: 7 };
    s.record_correct();
    assert_eq!(s, Statistics { correct: u32::MAX, incorrect: 7 });
    s.record_incorrect();
    assert_eq!(s, Statistics { correct: u32::MAX, incorrect: 8 });
}
