use auxin::clock::{format_time_ago, time_ago, whole_seconds_between, Timestamp};

fn chrono_seconds(then: Timestamp, now: Timestamp) -> Option<i64> {
    let a = chrono::DateTime::from_timestamp(then.secs, then.nanos)?;
    let b = chrono::DateTime::from_timestamp(now.secs, now.nanos)?;
    Some(b.signed_duration_since(a).num_seconds())
}

#[test]
fn whole_seconds_between_examples() {
    let t = |secs: i64, nanos: u32| Timestamp { secs, nanos };
    assert_eq!(whole_seconds_between(t(100, 0), t(160, 0)), 60);
    assert_eq!(whole_seconds_between(t(100, 500_000_000), t(160, 0)), 59);
    assert_eq!(whole_seconds_between(t(160, 0), t(100, 500_000_000)), -59);
    assert_eq!(whole_seconds_between(t(160, 0), t(160, 999_999_999)), 0);
    assert_eq!(whole_seconds_between(t(-10, 0), t(10, 0)), 20);
    // Half a second into a leap second, ten seconds into the next day.
    assert_eq!(whole_seconds_between(t(86_399, 1_500_000_000), t(86_400 + 10, 0)), 9);
    assert_eq!(time_ago(t(0, 0), t(7_200, 0)), "2h ago");
    assert_eq!(time_ago(t(10, 0), t(0, 0)), "-10s ago");
    assert_eq!(format_time_ago(i128::MIN), "-170141183460469231731687303715884105728s ago");
}

#[test]
fn whole_seconds_between_agrees_with_chrono() {
    let mut x: u64 = 0x853C49E6748FEA9B;
    let mut next = || {
        x ^= x << 13;
        x ^= x >> 7;
        x ^= x << 17;
        x
    };
    let mut compared = 0;
    for _ in 0..200_000 {
        let a = next();
        let b = next();
        let near = (b % 200_000) as i64 - 100_000;
        let then_secs = (a % 20_000_000_000) as i64 - 10_000_000_000;
        let now_secs = if b % 3 == 0 { then_secs + near } else { (b % 20_000_000_000) as i64 - 10_000_000_000 };
        let leap = |s: i64, r: u64| -> u32 {
            if s.rem_euclid(60) == 59 && r % 4 == 0 {
                1_000_000_000 + (r % 1_000_000_000) as u32
            } else {
                (r % 1_000_000_000) as u32
            }
        };
        let then = Timestamp { secs: then_secs, nanos: leap(then_secs, a >> 20) };
        let now = Timestamp { secs: now_secs, nanos: leap(now_secs, b >> 20) };
        if let Some(expected) = chrono_seconds(then, now) {
            assert_eq!(whole_seconds_between(then, now), expected as i128, "{:?} {:?}", then, now);
            compared += 1;
        }
    }
    assert!(compared > 100_000);
    // Leap seconds near each other, on either side.
    for then_secs in [86_399i64, 86_398, 86_340, 86_400, 86_459] {
        for now_secs in [86_399i64, 86_398, 86_400, 86_401, 172_799] {
            for then_nanos in [0u32, 400_000_000, 1_000_000_000, 1_700_000_000] {
                for now_nanos in [0u32, 600_000_000, 1_000_000_000, 1_200_000_000] {
                    let then = Timestamp { secs: then_secs, nanos: then_nanos };
                    let now = Timestamp { secs: now_secs, nanos: now_nanos };
                    if let Some(expected) = chrono_seconds(then, now) {
                        assert_eq!(whole_seconds_between(then, now), expected as i128, "{:?} {:?}", then, now);
                    }
                }
            }
        }
    }
}
