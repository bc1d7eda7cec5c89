use phirepass::env::Mode;
use phirepass::ids::{generate_download_id, generate_id, generate_session_id, generate_upload_id, IdCounter};
use phirepass::ip::{choose_ip, external_address_header, first_entry, IpAddress};
use phirepass::stats::{format_duration, format_mem};

#[test]
fn ids_count_up_from_one() {
    let mut c = IdCounter::new();
    assert_eq!(generate_session_id(&mut c), 1);
    assert_eq!(generate_id(&mut c), 2);
    assert_eq!(generate_upload_id(&mut c), 3);
    assert_eq!(generate_download_id(&mut c), 4);
    assert_eq!(c.peek(), 5);
}

#[test]
fn fetch_next_hands_out_in_order() {
    let mut c = IdCounter::new();
    let mut last = 0;
    for _ in 0..3 {
        last = c.fetch_next();
    }
    assert_eq!(last, 3);
}

#[test]
fn durations() {
    assert_eq!(format_duration(0), "00:00:00");
    assert_eq!(format_duration(3661), "01:01:01");
    assert_eq!(format_duration(59), "00:00:59");
    assert_eq!(format_duration(360_000), "100:00:00");
    assert_eq!(format_duration(u64::MAX), "5124095576030431:00:15");
}

#[test]
fn modes() {
    assert_eq!(Mode::parse("DEV"), Ok(Mode::Development));
    assert_eq!(Mode::parse("development"), Ok(Mode::Development));
    assert_eq!(Mode::parse("Prod"), Ok(Mode::Production));
    assert_eq!(Mode::parse("production"), Ok(Mode::Production));
    assert_eq!(Mode::parse("staging"), Err("invalid mode: staging".to_string()));
    assert_eq!("dev".parse::<Mode>(), Ok(Mode::Development));
    assert_eq!(Mode::Production.name(), "production");
}

#[test]
fn modes_from_lowercased_settings() {
    assert_eq!(Mode::from_lowercased("prod", "PROD"), Ok(Mode::Production));
    assert_eq!(Mode::from_lowercased("dev", "Dev"), Ok(Mode::Development));
    assert_eq!(Mode::from_lowercased("PROD", "PROD"), Err("invalid mode: PROD".to_string()));
}

#[test]
fn external_address_entries() {
    assert_eq!(external_address_header(), "x-envoy-external-address");
    assert_eq!(first_entry("  1.2.3.4 , 5.6.7.8"), "1.2.3.4");
    assert_eq!(first_entry("[::1]:80"), "[::1]:80");
    assert_eq!(first_entry(" , x"), "");
    assert_eq!(choose_ip(Some(IpAddress::V4(1)), Some(IpAddress::V4(2))), Some(IpAddress::V4(1)));
    assert_eq!(choose_ip(None, Some(IpAddress::V6(2))), Some(IpAddress::V6(2)));
}

fn float_format_mem(bytes: u64) -> String {
    let mut size = bytes as f64;
    let units = ["B", "KiB", "MiB", "GiB", "TiB", "PiB"];
    let mut unit = units[0];
    for next in &units[1..] {
        if size < 1024.0 {
            break;
        }
        size /= 1024.0;
        unit = next;
    }
    format!("{:.1} {}", size, unit)
}

#[test]
fn memory_sizes() {
    assert_eq!(format_mem(0), "0.0 B");
    assert_eq!(format_mem(1023), "1023.0 B");
    assert_eq!(format_mem(1024), "1.0 KiB");
    assert_eq!(format_mem(1536), "1.5 KiB");
    assert_eq!(format_mem(1_048_576), "1.0 MiB");
    assert_eq!(format_mem(1_048_575), "1024.0 KiB");
    assert_eq!(format_mem(1 << 50), "1.0 PiB");
    assert_eq!(format_mem(u64::MAX), "16384.0 PiB");
}

#[test]
fn memory_sizes_match_the_float_rendering() {
    let mut samples: Vec<u64> = vec![
        0, 1, 1023, 1024, 1025, 1280, 1331, 1332, 3328, 1_048_575, 1_048_576, (1 << 30) - 1,
        1 << 40, (1 << 50) - 1, 1 << 50, (1 << 53) - 1, 1 << 53, (1 << 53) + 1, (1 << 53) + 3,
        (1 << 60) + (1 << 55), u64::MAX - 1024, u64::MAX,
    ];
    let mut x: u64 = 0x9E37_79B9_7F4A_7C15;
    for i in 0..200_000u64 {
        x = x.wrapping_mul(6364136223846793005).wrapping_add(1442695040888963407);
        let shift = (i % 64) as u32;
        samples.push(x >> shift);
        samples.push((x >> shift) & !0x3ff | 0x200);
    }
    for k in 1..6u32 {
        let unit: u64 = 1 << (10 * k);
        for m in 1..1024u64 {
            samples.push(m * unit + unit / 4);
            samples.push(m * unit + 3 * unit / 4);
            samples.push(m * unit + unit / 20);
        }
    }
    for v in samples {
        assert_eq!(format_mem(v), float_format_mem(v), "bytes = {}", v);
    }
}

#[test]
fn mode_names_read_back() {
    for m in [Mode::Development, Mode::Production] {
        assert_eq!(Mode::parse(m.name()), Ok(m));
        assert_eq!(m.name().to_uppercase().parse::<Mode>(), Ok(m));
    }
}
