use netpanel::number::parse_u8;
use netpanel::text::to_chars;
use netpanel::{parse_line, ParseError, Wifi, CURRENT_SUFFIX};

fn wifi(id: usize, bssid: &str, ssid: &str, channel: u8, signal: u8) -> Wifi {
    Wifi {
        id,
        bssid: bssid.to_string(),
        ssid: ssid.to_string(),
        mode: "Infra".to_string(),
        channel,
        rate: "54 Mbit/s".to_string(),
        signal,
        bars: "▂▄▆_".to_string(),
        security: "WPA2".to_string(),
    }
}

#[test]
fn full_line_is_read() {
    let line = ":AA\\:BB\\:CC\\:DD\\:EE\\:FF:Home:Infra:6:54 Mbit/s:80:▂▄▆_:WPA2";
    assert_eq!(
        parse_line(line, 7),
        Ok(Some(wifi(7, "AA:BB:CC:DD:EE:FF", "Home", 6, 80)))
    );
}

#[test]
fn escaped_colons_of_the_address_come_back() {
    let line = ":AA\\:BB\\:CC\\:DD:Home:Infra:6:54 Mbit/s:80:▂▄▆_:WPA2";
    let found = parse_line(line, 0).unwrap().unwrap();
    assert_eq!(found.bssid, "AA:BB:CC:DD");
}

#[test]
fn escaping_an_address_and_reading_it_back_gives_the_address() {
    for address in ["AA:BB:CC:DD", "", ":", "::", "a", "00:11:22:33:44:55", ":x:", "é:▂"] {
        let written = address.replace(':', "\\:");
        let line = format!("*:{}:Home:Infra:6:54 Mbit/s:80:▂▄▆_:WPA2", written);
        let found = parse_line(&line, 0).unwrap().unwrap();
        assert_eq!(found.bssid, address);
        assert_eq!(found.ssid, "Home (*)");
        assert_eq!(found.security, "WPA2");
    }
}

#[test]
fn placeholder_in_the_address_becomes_a_colon() {
    let line = ":AA-BB\\:CC-DD:Home:Infra:6:54 Mbit/s:80:▂▄▆_:WPA2";
    let found = parse_line(line, 0).unwrap().unwrap();
    assert_eq!(found.bssid, "AA:BB:CC:DD");
}

#[test]
fn escaped_colon_elsewhere_stays_masked() {
    let line = ":AA\\:BB:My\\:Net:Ad\\:Hoc:6:5\\:4:80:a\\:b:WPA\\:2";
    let found = parse_line(line, 0).unwrap().unwrap();
    assert_eq!(found.bssid, "AA:BB");
    assert_eq!(found.ssid, "My-Net");
    assert_eq!(found.mode, "Ad-Hoc");
    assert_eq!(found.rate, "5-4");
    assert_eq!(found.bars, "a-b");
    assert_eq!(found.security, "WPA-2");
}

#[test]
fn lone_backslash_is_kept() {
    let line = ":AA\\BB:Ho\\me:Infra:6:54 Mbit/s:80:▂▄▆_:WPA2\\";
    let found = parse_line(line, 0).unwrap().unwrap();
    assert_eq!(found.bssid, "AA\\BB");
    assert_eq!(found.ssid, "Ho\\me");
    assert_eq!(found.security, "WPA2\\");
}

#[test]
fn empty_name_is_hidden() {
    let line = "*:AA\\:BB\\:CC\\:DD\\:EE\\:FF::Infra:6:54 Mbit/s:80:▂▄▆_:WPA2";
    assert_eq!(parse_line(line, 0), Ok(None));
}

#[test]
fn empty_name_hides_a_line_that_ends_early() {
    assert_eq!(parse_line(":AA:", 0), Ok(None));
    assert_eq!(parse_line("*:AA::Infra:x", 3), Ok(None));
}

#[test]
fn marker_decorates_the_name() {
    let line = "*:AA\\:BB:Home:Infra:6:54 Mbit/s:80:▂▄▆_:WPA2";
    let found = parse_line(line, 0).unwrap().unwrap();
    assert_eq!(found.ssid, "Home (*)");
    assert_eq!(found.ssid, format!("Home{}", CURRENT_SUFFIX));
}

#[test]
fn empty_marker_leaves_the_name() {
    let line = ":AA\\:BB:Home:Infra:6:54 Mbit/s:80:▂▄▆_:WPA2";
    let found = parse_line(line, 0).unwrap().unwrap();
    assert_eq!(found.ssid, "Home");
}

#[test]
fn other_marker_leaves_the_name() {
    for marker in ["x", "**", " *", "* ", " "] {
        let line = format!("{}:AA\\:BB:Home:Infra:6:54 Mbit/s:80:▂▄▆_:WPA2", marker);
        let found = parse_line(&line, 0).unwrap().unwrap();
        assert_eq!(found.ssid, "Home");
    }
}

#[test]
fn further_fields_are_ignored() {
    let line = ":AA:Home:Infra:6:54 Mbit/s:80:▂▄▆_:WPA2:more:and more";
    assert_eq!(parse_line(line, 2), Ok(Some(wifi(2, "AA", "Home", 6, 80))));
}

#[test]
fn missing_fields_are_faults() {
    assert_eq!(parse_line("", 0), Err(ParseError::MissingField));
    assert_eq!(parse_line("*", 0), Err(ParseError::MissingField));
    assert_eq!(parse_line("*:AA", 0), Err(ParseError::MissingField));
    assert_eq!(parse_line(":AA:Home", 0), Err(ParseError::MissingField));
    assert_eq!(parse_line(":AA:Home:Infra", 0), Err(ParseError::MissingField));
    assert_eq!(parse_line(":AA:Home:Infra:6", 0), Err(ParseError::MissingField));
    assert_eq!(parse_line(":AA:Home:Infra:6:54", 0), Err(ParseError::MissingField));
    assert_eq!(parse_line(":AA:Home:Infra:6:54:80", 0), Err(ParseError::MissingField));
    assert_eq!(parse_line(":AA:Home:Infra:6:54:80:__", 0), Err(ParseError::MissingField));
    assert_eq!(
        parse_line(":AA:Home:Infra:6:54:80:__:", 0),
        Ok(Some(Wifi {
            id: 0,
            bssid: "AA".to_string(),
            ssid: "Home".to_string(),
            mode: "Infra".to_string(),
            channel: 6,
            rate: "54".to_string(),
            signal: 80,
            bars: "__".to_string(),
            security: String::new(),
        }))
    );
}

#[test]
fn bad_channel_is_a_fault() {
    assert_eq!(
        parse_line(":AA:Home:Infra:six:54 Mbit/s:80:__:WPA2", 0),
        Err(ParseError::BadChannel)
    );
    assert_eq!(
        parse_line(":AA:Home:Infra::54 Mbit/s:80:__:WPA2", 0),
        Err(ParseError::BadChannel)
    );
    assert_eq!(
        parse_line(":AA:Home:Infra:256:54 Mbit/s:80:__:WPA2", 0),
        Err(ParseError::BadChannel)
    );
}

#[test]
fn bad_signal_is_a_fault() {
    assert_eq!(
        parse_line(":AA:Home:Infra:6:54 Mbit/s:8 0:__:WPA2", 0),
        Err(ParseError::BadSignal)
    );
    assert_eq!(
        parse_line(":AA:Home:Infra:6:54 Mbit/s:-1:__:WPA2", 0),
        Err(ParseError::BadSignal)
    );
}

#[test]
fn first_fault_decides() {
    assert_eq!(parse_line(":AA:Home:Infra:six", 0), Err(ParseError::BadChannel));
    assert_eq!(
        parse_line(":AA:Home:Infra:six:54:bad:__:WPA2", 0),
        Err(ParseError::BadChannel)
    );
    assert_eq!(parse_line(":AA:Home:Infra:6:54:bad", 0), Err(ParseError::BadSignal));
}

#[test]
fn unescaped_address_shifts_the_fields() {
    let line = "*:AA:BB:CC:DD:EE:FF::Infra:6:54 Mbit/s:80:▂▄▆_:WPA2";
    assert_eq!(parse_line(line, 0), Err(ParseError::BadChannel));
}

#[test]
fn signal_above_one_hundred_is_kept() {
    let line = ":AA:Home:Infra:6:54 Mbit/s:255:▂▄▆_:WPA2";
    assert_eq!(parse_line(line, 0), Ok(Some(wifi(0, "AA", "Home", 6, 255))));
}

#[test]
fn decimal_numbers() {
    assert_eq!(parse_u8(&to_chars("0")), Some(0));
    assert_eq!(parse_u8(&to_chars("6")), Some(6));
    assert_eq!(parse_u8(&to_chars("80")), Some(80));
    assert_eq!(parse_u8(&to_chars("255")), Some(255));
    assert_eq!(parse_u8(&to_chars("+17")), Some(17));
    assert_eq!(parse_u8(&to_chars("007")), Some(7));
    assert_eq!(parse_u8(&to_chars("0000000000000000000000000255")), Some(255));
}

#[test]
fn numbers_agree_with_std() {
    let mut texts: Vec<String> = (0..=300).map(|n: u32| n.to_string()).collect();
    for n in [0u32, 5, 99, 255, 256] {
        texts.push(format!("+{}", n));
        texts.push(format!("-{}", n));
        texts.push(format!("00{}", n));
        texts.push(format!("{} ", n));
        texts.push(format!("{}x", n));
    }
    for text in texts {
        assert_eq!(parse_u8(&to_chars(&text)), text.parse::<u8>().ok(), "{:?}", text);
    }
}

#[test]
fn numbers_that_are_none() {
    for text in [
        "", "+", "-", "-1", "256", "300", "1000", "99999999999999999999999", "2560", "1a", "a1",
        " 1", "1 ", "++1", "1+", "1_0", "١",
    ] {
        assert_eq!(parse_u8(&to_chars(text)), None, "{:?}", text);
    }
}
