use auxin::bounce::{AudioFormat, BounceManager, parse_afinfo_output, BounceComparison, BounceFilter, BounceMetadata, Seconds};
use auxin::clock::Timestamp;

#[test]
fn test_audio_format_from_extension() {
    assert_eq!(AudioFormat::from_extension("wav"), Some(AudioFormat::Wav));
    assert_eq!(AudioFormat::from_extension("WAV"), Some(AudioFormat::Wav));
    assert_eq!(AudioFormat::from_extension("aif"), Some(AudioFormat::Aiff));
    assert_eq!(AudioFormat::from_extension("aiff"), Some(AudioFormat::Aiff));
    assert_eq!(AudioFormat::from_extension("mp3"), Some(AudioFormat::Mp3));
    assert_eq!(AudioFormat::from_extension("flac"), Some(AudioFormat::Flac));
    assert_eq!(AudioFormat::from_extension("m4a"), Some(AudioFormat::M4a));
    assert_eq!(AudioFormat::from_extension("xyz"), None);
}

#[test]
fn test_bounce_manager_creation() {
    let manager = BounceManager::new("/tmp/test-repo");
    assert_eq!(manager.bounces_dir, "/tmp/test-repo/.auxin/bounces");
}

#[test]
fn test_audio_format_mime_types() {
    assert_eq!(AudioFormat::Wav.mime_type(), "audio/wav");
    assert_eq!(AudioFormat::Mp3.mime_type(), "audio/mpeg");
    assert_eq!(AudioFormat::Flac.mime_type(), "audio/flac");
}

#[test]
fn aac_is_m4a_and_extensions_round_trip() {
    assert_eq!(AudioFormat::from_extension("AaC"), Some(AudioFormat::M4a));
    for f in [AudioFormat::Wav, AudioFormat::Aiff, AudioFormat::Mp3, AudioFormat::Flac, AudioFormat::M4a] {
        assert_eq!(AudioFormat::from_extension(f.extension()), Some(f));
    }
    assert_eq!(AudioFormat::Aiff.mime_type(), "audio/aiff");
    assert_eq!(AudioFormat::M4a.mime_type(), "audio/mp4");
}

#[test]
fn bounce_path_is_the_first_existing_candidate() {
    let manager = BounceManager::new("/r");
    assert_eq!(manager.bounce_path_candidates("c1")[2], "/r/.auxin/bounces/c1.mp3");
    assert_eq!(manager.get_bounce_path("c1", [false, false, true, true, false]), Some("/r/.auxin/bounces/c1.mp3".to_string()));
    assert_eq!(manager.get_bounce_path("c1", [false; 5]), None);
    assert_eq!(manager.get_bounce_path("c1", [true; 5]), Some("/r/.auxin/bounces/c1.wav".to_string()));
}

fn bounce(id: &str, file: &str, format: AudioFormat, size: u64, secs: Option<f64>, at: i64, by: &str) -> BounceMetadata {
    let mut b = BounceMetadata::new(id, file, format, size, by);
    b.duration_secs = secs.map(|s| Seconds { bits: s.to_bits() });
    b.added_at = Timestamp { secs: at, nanos: 0 };
    b
}

#[test]
fn search_bounces_applies_every_criterion() {
    let all = vec![
        bounce("a", "mix_v1.wav", AudioFormat::Wav, 5_000, Some(120.0), 100, "Alice"),
        bounce("b", "mix_v2.mp3", AudioFormat::Mp3, 50_000, Some(30.5), 200, "bob"),
        bounce("c", "drums.wav", AudioFormat::Wav, 500, None, 300, "ALICE"),
    ];
    let mut f = BounceFilter::default();
    f.format = Some(AudioFormat::Wav);
    let ids = |r: Vec<BounceMetadata>| r.iter().map(|b| b.commit_id.clone()).collect::<Vec<_>>();
    assert_eq!(ids(BounceManager::search_bounces(all.clone(), &f)), vec!["a", "c"]);

    let mut f = BounceFilter::default();
    f.filename_pattern = Some("^mix_v\\d".to_string());
    assert_eq!(ids(BounceManager::search_bounces(all.clone(), &f)), vec!["a", "b"]);
    f.pattern = Some("drums".to_string());
    assert_eq!(ids(BounceManager::search_bounces(all.clone(), &f)), vec!["c"]);
    f.pattern = Some("(".to_string());
    assert_eq!(ids(BounceManager::search_bounces(all.clone(), &f)).len(), 3);

    let mut f = BounceFilter::default();
    f.min_duration = Some(Seconds { bits: 60.0f64.to_bits() });
    assert_eq!(ids(BounceManager::search_bounces(all.clone(), &f)), vec!["a"]);
    let mut f = BounceFilter::default();
    f.max_duration = Some(Seconds { bits: 60.0f64.to_bits() });
    assert_eq!(ids(BounceManager::search_bounces(all.clone(), &f)), vec!["b", "c"]);

    let mut f = BounceFilter::default();
    f.after = Some(Timestamp { secs: 200, nanos: 0 });
    f.before = Some(Timestamp { secs: 300, nanos: 0 });
    assert_eq!(ids(BounceManager::search_bounces(all.clone(), &f)), vec!["b", "c"]);

    let mut f = BounceFilter::default();
    f.added_by = Some("alice".to_string());
    f.min_size = Some(1_000);
    assert_eq!(ids(BounceManager::search_bounces(all.clone(), &f)), vec!["a"]);
    f.added_by = None;
    f.max_size = Some(10_000);
    assert_eq!(ids(BounceManager::search_bounces(all, &f)), vec!["a"]);
}

#[test]
fn seconds_compare_as_floats() {
    let s = |x: f64| Seconds { bits: x.to_bits() };
    assert!(s(-1.5).less_than(&s(-0.5)));
    assert!(!s(-0.0).less_than(&s(0.0)));
    assert!(!s(0.0).less_than(&s(-0.0)));
    assert!(s(1.0).less_than(&s(f64::INFINITY)));
    assert!(!s(f64::NAN).less_than(&s(1.0)));
    assert!(!s(1.0).less_than(&s(f64::NAN)));
    assert!(s(f64::NEG_INFINITY).less_than(&s(-1e300)));
}

#[test]
fn bounce_size_difference_and_afinfo() {
    let a = bounce("a", "a.wav", AudioFormat::Wav, 3_000, None, 0, "u");
    let b = bounce("b", "b.wav", AudioFormat::Wav, 1_000, None, 0, "u");
    assert_eq!(BounceComparison { bounce_a: a, bounce_b: b }.size_diff(), -2_000);
    let out = "File: x.wav\nestimated duration: 12.5 sec sec\nsample rate: 44100\nsample rate: bad\nbits per channel: 24\nchannels: 2\nchannels: 300\n";
    let info = parse_afinfo_output(out);
    assert_eq!(info.duration_texts, vec!["12.5".to_string()]);
    assert_eq!(info.sample_rate, Some(44100));
    assert_eq!(info.bit_depth, Some(24));
    assert_eq!(info.channels, Some(2));
}

#[test]
fn test_bounce_metadata_format_size() {
    let meta = BounceMetadata::new("abc123", "test.wav", AudioFormat::Wav, 500, "tester");
    assert_eq!(meta.format_size(), "500 bytes");

    let meta = BounceMetadata::new("abc123", "test.wav", AudioFormat::Wav, 1500, "tester");
    assert_eq!(meta.format_size(), "1.5 KB");

    let meta = BounceMetadata::new("abc123", "test.wav", AudioFormat::Wav, 1_500_000, "tester");
    assert_eq!(meta.format_size(), "1.50 MB");

    let meta = BounceMetadata::new("abc123", "test.wav", AudioFormat::Wav, 1_500_000_000, "tester");
    assert_eq!(meta.format_size(), "1.50 GB");
}

/// The size figured in binary floating point: the library must print the
/// same text.
fn floating_point_size(size_bytes: u64) -> String {
    if size_bytes >= 1_000_000_000 {
        format!("{:.2} GB", size_bytes as f64 / 1_000_000_000.0)
    } else if size_bytes >= 1_000_000 {
        format!("{:.2} MB", size_bytes as f64 / 1_000_000.0)
    } else if size_bytes >= 1_000 {
        format!("{:.1} KB", size_bytes as f64 / 1_000.0)
    } else {
        format!("{} bytes", size_bytes)
    }
}

#[test]
fn format_size_halfway_and_edges() {
    let size = |n: u64| BounceMetadata::new("c", "f.wav", AudioFormat::Wav, n, "me").format_size();
    assert_eq!(size(0), "0 bytes");
    assert_eq!(size(999), "999 bytes");
    assert_eq!(size(1_000), "1.0 KB");
    assert_eq!(size(1_050), "1.1 KB");
    assert_eq!(size(1_150), "1.1 KB");
    assert_eq!(size(1_250), "1.2 KB");
    assert_eq!(size(999_999), "1000.0 KB");
    assert_eq!(size(1_005_000), "1.00 MB");
    assert_eq!(size(1_015_000), "1.01 MB");
    assert_eq!(size(1_125_000), "1.12 MB");
    assert_eq!(size(u64::MAX), "18446744073.71 GB");
}

#[test]
fn format_size_agrees_with_floating_point() {
    for k in 0..20000u64 {
        for base in [k * 50, k * 5_000, k * 5_000_000, 1_000_000_000 + k * 5_000_000].iter() {
            for n in [base.saturating_sub(1), *base, base + 1].iter() {
                let meta = BounceMetadata::new("c", "f.wav", AudioFormat::Wav, *n, "me");
                assert_eq!(meta.format_size(), floating_point_size(*n), "size {}", n);
            }
        }
    }
    let mut x: u64 = 0x2545F4914F6CDD1D;
    for _ in 0..50000 {
        x ^= x << 13;
        x ^= x >> 7;
        x ^= x << 17;
        for n in [x >> 12, x >> 30, x >> 44].iter() {
            let meta = BounceMetadata::new("c", "f.wav", AudioFormat::Wav, *n, "me");
            assert_eq!(meta.format_size(), floating_point_size(*n), "size {}", n);
        }
    }
}

#[test]
fn bounces_list_newest_first() {
    let make = |id: &str, secs: i64, nanos: u32| {
        let mut b = BounceMetadata::new(id, "f.wav", AudioFormat::Wav, 1, "me");
        b.added_at = Timestamp { secs, nanos };
        b
    };
    let listed = auxin::sequences::newest_first(vec![make("x", 5, 1), make("y", 5, 2), make("z", 4, 999), make("w", 5, 1)]);
    let ids: Vec<&str> = listed.iter().map(|b| b.commit_id.as_str()).collect();
    assert_eq!(ids, vec!["y", "x", "w", "z"]);
}

#[test]
fn comparison_report_lines() {
    let mut a = BounceMetadata::new("abcdef123456", "mix_v1.wav", AudioFormat::Wav, 1_500_000, "me");
    a.sample_rate = Some(48_000);
    let b = BounceMetadata::new("1234", "mix_v2.flac", AudioFormat::Flac, 2_505_000, "me");
    let cmp = BounceComparison { bounce_a: a, bounce_b: b };
    let report = cmp.format_report("1:05.50", "1:07.00", Some("+1.50s"));
    let expected = "Bounce A: mix_v1.wav (commit abcdef12)\n\
Bounce B: mix_v2.flac (commit 1234)\n\n\
Duration:\n  A: 1:05.50\n  B: 1:07.00\n  Diff: +1.50s\n\
\nFile Size:\n  A: 1.50 MB\n  B: 2.50 MB\n  Diff: +1.00 MB\n\
\nFormat:\n  A: Wav\n  B: Flac\n\
\nSample Rate:\n  A: 48000 Hz\n  B: unknown Hz\n";
    assert_eq!(report, expected);
}

#[test]
fn comparison_report_size_differences() {
    let report = |size_a: u64, size_b: u64| {
        let a = BounceMetadata::new("a", "a.wav", AudioFormat::Wav, size_a, "me");
        let b = BounceMetadata::new("b", "b.wav", AudioFormat::Wav, size_b, "me");
        BounceComparison { bounce_a: a, bounce_b: b }.format_report("unknown", "unknown", None)
    };
    assert!(report(2_000, 500).contains("\n  Diff: -1.5 KB\n"));
    assert!(report(500, 2_000).contains("\n  Diff: +1.5 KB\n"));
    assert!(report(900, 100).contains("\n  Diff: -800 bytes\n"));
    assert!(report(100, 900).contains("\n  Diff: 800 bytes\n"));
    assert!(report(5_000_000, 0).contains("\n  Diff: -5.00 MB\n"));
    assert!(report(0, 1_005_000).contains("\n  Diff: +1.00 MB\n"));
    assert!(!report(0, 1).contains("Sample Rate"));
    assert!(report(0, 1).contains("Duration:\n  A: unknown\n  B: unknown\n\nFile Size:"));
}

/// The size difference the report shows, figured in binary floating point.
fn floating_point_size_diff(d: i64) -> String {
    let sign = if d >= 0 { "+" } else { "" };
    if d.abs() >= 1_000_000 {
        format!("  Diff: {}{:.2} MB\n", sign, d as f64 / 1_000_000.0)
    } else if d.abs() >= 1_000 {
        format!("  Diff: {}{:.1} KB\n", sign, d as f64 / 1_000.0)
    } else {
        format!("  Diff: {} bytes\n", d)
    }
}

#[test]
fn comparison_size_difference_agrees_with_floating_point() {
    let mut x: u64 = 0xD1B54A32D192ED03;
    for k in 0..40_000u64 {
        x ^= x << 13;
        x ^= x >> 7;
        x ^= x << 17;
        let a = if k % 2 == 0 { x >> 20 } else { (x >> 40) * 5_000 };
        let b = if k % 3 == 0 { a / 3 } else { (x >> 22) + (k % 7) * 5_000 };
        let cmp = BounceComparison {
            bounce_a: BounceMetadata::new("a", "a.wav", AudioFormat::Wav, a, "me"),
            bounce_b: BounceMetadata::new("b", "b.wav", AudioFormat::Wav, b, "me"),
        };
        let report = cmp.format_report("x", "y", None);
        let expected = floating_point_size_diff(b as i64 - a as i64);
        assert!(report.contains(&expected), "{} {}: {}", a, b, report);
    }
}

#[test]
fn bounce_destinations() {
    let m = BounceManager::new("/music/song");
    let (f, p) = m.bounce_destination("abc123", Some("WAV")).unwrap();
    assert_eq!(f, AudioFormat::Wav);
    assert_eq!(p, "/music/song/.auxin/bounces/abc123.wav");
    let (f, p) = m.bounce_destination("abc123", Some("aif")).unwrap();
    assert_eq!(f, AudioFormat::Aiff);
    assert_eq!(p, "/music/song/.auxin/bounces/abc123.aiff");
    assert_eq!(m.bounce_destination("abc123", None), Err("Cannot determine file format".to_string()));
    assert_eq!(m.bounce_destination("abc123", Some("ogg")), Err("Unsupported audio format: ogg".to_string()));
}

#[test]
fn extensions_name_their_formats_in_any_case() {
    for f in [AudioFormat::Wav, AudioFormat::Aiff, AudioFormat::Mp3, AudioFormat::Flac, AudioFormat::M4a] {
        assert_eq!(AudioFormat::from_extension(f.extension()), Some(f));
        assert_eq!(AudioFormat::from_extension(&f.extension().to_uppercase()), Some(f));
    }
}
