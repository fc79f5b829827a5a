use netpanel::listing::{parse_devices, parse_known};
use netpanel::{parse_scan, Device, ScanReport};

const LISTING: &str = "\
*:AA\\:BB\\:CC\\:DD\\:EE\\:01:Home:Infra:6:54 Mbit/s:80:▂▄▆_:WPA2
:AA\\:BB\\:CC\\:DD\\:EE\\:02::Infra:11:130 Mbit/s:42:▂▄__:WPA2
:AA\\:BB\\:CC\\:DD\\:EE\\:03:Cafe:Infra:1:270 Mbit/s:17:▂___:--
";

#[test]
fn ids_follow_the_emitted_rows() {
    let report = parse_scan(LISTING);
    let found = report.networks();
    assert_eq!(found.len(), 2);
    assert_eq!(found[0].id, 0);
    assert_eq!(found[0].ssid, "Home (*)");
    assert_eq!(found[0].bssid, "AA:BB:CC:DD:EE:01");
    assert_eq!(found[1].id, 1);
    assert_eq!(found[1].ssid, "Cafe");
    assert_eq!(found[1].bssid, "AA:BB:CC:DD:EE:03");
    assert_eq!(found[1].channel, 1);
    assert_eq!(found[1].signal, 17);
    assert_eq!(report.skipped(), 0);
}

#[test]
fn hidden_line_alone_gives_nothing() {
    let report = parse_scan("*:AA\\:BB\\:CC\\:DD\\:EE\\:FF::Infra:6:54 Mbit/s:80:▂▄▆_:WPA2");
    assert!(report.networks().is_empty());
    assert_eq!(report.skipped(), 0);
}

#[test]
fn unescaped_hidden_line_gives_nothing_and_takes_no_id() {
    let text = "*:AA:BB:CC:DD:EE:FF::Infra:6:54 Mbit/s:80:▂▄▆_:WPA2\n\
                :AA\\:01:Home:Infra:6:54 Mbit/s:80:▂▄▆_:WPA2\n";
    let report = parse_scan(text);
    assert_eq!(report.networks().len(), 1);
    assert_eq!(report.networks()[0].id, 0);
    assert_eq!(report.networks()[0].ssid, "Home");
    assert_eq!(report.skipped(), 1);
}

#[test]
fn bad_lines_are_counted_and_left_out() {
    let text = "\n:AA:Home:Infra:six:54:80:__:WPA2\n:BB:Cafe:Infra:1:54:80:__:WPA2\ngarbage\n\
                :CC:Park:Infra:1:54:x:__:WPA2\n*:DD:Work:Infra:2:54:9:__:WPA2";
    let report = parse_scan(text);
    let names: Vec<&str> = report.networks().iter().map(|w| w.ssid.as_str()).collect();
    assert_eq!(names, vec!["Cafe", "Work (*)"]);
    let ids: Vec<usize> = report.networks().iter().map(|w| w.id).collect();
    assert_eq!(ids, vec![0, 1]);
    assert_eq!(report.skipped(), 4);
}

#[test]
fn empty_report_holds_nothing() {
    let report = ScanReport::empty();
    assert!(report.networks().is_empty());
    assert_eq!(report.skipped(), 0);
}

#[test]
fn empty_listing_gives_nothing() {
    let report = parse_scan("");
    assert!(report.networks().is_empty());
    assert_eq!(report.skipped(), 0);
    let report = parse_scan("\n");
    assert!(report.networks().is_empty());
    assert_eq!(report.skipped(), 1);
}

#[test]
fn many_networks_keep_their_places() {
    let mut text = String::new();
    for i in 0..300 {
        text.push_str(&format!(":AA\\:{}:Net{}:Infra:{}:54:{}:__:WPA2\r\n", i, i, i % 200, i % 101));
        text.push_str(":hidden::Infra:1:54:1:__:WPA2\r\n");
    }
    let report = parse_scan(&text);
    assert_eq!(report.networks().len(), 300);
    for (i, wifi) in report.networks().iter().enumerate() {
        assert_eq!(wifi.id, i);
        assert_eq!(wifi.ssid, format!("Net{}", i));
        assert_eq!(wifi.bssid, format!("AA:{}", i));
        assert_eq!(wifi.security, "WPA2");
    }
    assert_eq!(report.skipped(), 0);
    assert_eq!(report.into_networks().len(), 300);
}

#[test]
fn devices_are_named_by_the_first_field() {
    let devices = parse_devices("wlan0:wifi:connected:Home\neth0:ethernet:unavailable:--\nlo\n");
    assert_eq!(
        devices,
        vec![
            Device { device: "wlan0".to_string(), status: true },
            Device { device: "eth0".to_string(), status: true },
            Device { device: "lo".to_string(), status: true },
        ]
    );
    assert_eq!(parse_devices(""), Vec::<Device>::new());
    assert_eq!(parse_devices("\n"), vec![Device { device: String::new(), status: true }]);
}

#[test]
fn known_names_end_at_the_first_semicolon() {
    assert_eq!(
        parse_known("Home;uuid;wifi\nCafe:x:y\n;z\n"),
        vec!["Home".to_string(), "Cafe:x:y".to_string(), String::new()]
    );
}
