use wifiqr::wifi::{
    nmcli_from_quoted, parse_wifi_uri, try_parse_wifi_uri, WifiConnection, WifiUriError,
    WifiUriParamKey,
};

fn tagged(tag: &str) -> String {
    tag.to_owned()
}

fn connection(ssid: &str, password: Option<&str>, hidden: bool) -> WifiConnection {
    WifiConnection {
        ssid: ssid.to_owned(),
        password: password.map(|p| p.to_owned()),
        hidden,
    }
}

#[test]
fn every_tag_names_its_parameter() {
    assert_eq!(WifiUriParamKey::from_str("T"), WifiUriParamKey::SecurityType);
    assert_eq!(WifiUriParamKey::from_str("R"), WifiUriParamKey::TransitionDisable);
    assert_eq!(WifiUriParamKey::from_str("S"), WifiUriParamKey::Ssid);
    assert_eq!(WifiUriParamKey::from_str("H"), WifiUriParamKey::Hidden);
    assert_eq!(WifiUriParamKey::from_str("I"), WifiUriParamKey::SaePasswordIdentifier);
    assert_eq!(WifiUriParamKey::from_str("P"), WifiUriParamKey::Password);
    assert_eq!(WifiUriParamKey::from_str("K"), WifiUriParamKey::PublicKey);
}

#[test]
fn lookup_knows_the_seven_tags_and_no_other() {
    assert_eq!(WifiUriParamKey::lookup("S"), Some(WifiUriParamKey::Ssid));
    assert_eq!(WifiUriParamKey::lookup("P"), Some(WifiUriParamKey::Password));
    assert_eq!(WifiUriParamKey::lookup("s"), None);
    assert_eq!(WifiUriParamKey::lookup(""), None);
    assert_eq!(WifiUriParamKey::lookup("SS"), None);
    assert_eq!(WifiUriParamKey::lookup("X"), None);
    assert_eq!(WifiUriParamKey::lookup("\u{e9}"), None);
}

#[test]
fn a_plain_uri_is_read() {
    assert_eq!(
        try_parse_wifi_uri("WIFI:T:WPA;S:net;P:pass;;"),
        Ok(connection("net", Some("pass"), false))
    );
}

#[test]
fn parameters_come_in_any_order() {
    assert_eq!(
        try_parse_wifi_uri("WIFI:P:pass;H:true;S:net;T:WPA;R:false;;"),
        Ok(connection("net", Some("pass"), true))
    );
}

#[test]
fn an_open_network_has_no_password() {
    assert_eq!(try_parse_wifi_uri("WIFI:S:cafe;;"), Ok(connection("cafe", None, false)));
    assert_eq!(try_parse_wifi_uri("WIFI:S:cafe;H:false;;"), Ok(connection("cafe", None, false)));
}

#[test]
fn values_are_percent_decoded() {
    assert_eq!(
        try_parse_wifi_uri("WIFI:S:my%20net;P:a%3Bb%3a%C3%A9;;"),
        Ok(connection("my net", Some("a;b:\u{e9}"), false))
    );
    // A percent sign that no two hexadecimal digits follow stands for itself.
    assert_eq!(
        try_parse_wifi_uri("WIFI:S:100%;P:%zz%4;;"),
        Ok(connection("100%", Some("%zz%4"), false))
    );
}

#[test]
fn a_value_may_hold_colons_and_be_empty() {
    assert_eq!(try_parse_wifi_uri("WIFI:S:a:b:c;P:;;"), Ok(connection("a:b:c", Some(""), false)));
}

#[test]
fn text_beyond_ascii_is_read_by_character() {
    assert_eq!(
        try_parse_wifi_uri("WIFI:S:caf\u{e9} \u{2615};P:\u{1f512};;"),
        Ok(connection("caf\u{e9} \u{2615}", Some("\u{1f512}"), false))
    );
}

#[test]
fn a_text_without_the_prefix_is_refused() {
    assert_eq!(try_parse_wifi_uri(""), Err(WifiUriError::MissingPrefix));
    assert_eq!(try_parse_wifi_uri("wifi:S:net;;"), Err(WifiUriError::MissingPrefix));
    assert_eq!(try_parse_wifi_uri("WIFI"), Err(WifiUriError::MissingPrefix));
    assert_eq!(try_parse_wifi_uri("https://example.org"), Err(WifiUriError::MissingPrefix));
}

#[test]
fn a_uri_that_stops_short_is_unterminated() {
    assert_eq!(try_parse_wifi_uri("WIFI:"), Err(WifiUriError::Unterminated));
    assert_eq!(try_parse_wifi_uri("WIFI:S:net;"), Err(WifiUriError::Unterminated));
}

#[test]
fn a_tag_without_colon_is_refused() {
    assert_eq!(try_parse_wifi_uri("WIFI:S"), Err(WifiUriError::MissingColon));
    assert_eq!(try_parse_wifi_uri("WIFI:S:net;;;"), Err(WifiUriError::MissingColon));
}

#[test]
fn a_value_without_semicolon_is_refused() {
    assert_eq!(try_parse_wifi_uri("WIFI:S:net"), Err(WifiUriError::UnterminatedValue { tag: tagged("S") }));
}

#[test]
fn a_value_that_is_not_utf8_is_refused() {
    assert_eq!(try_parse_wifi_uri("WIFI:S:%ff;;"), Err(WifiUriError::InvalidUtf8));
    // The value is decoded before the tag is looked up.
    assert_eq!(try_parse_wifi_uri("WIFI:X:%ff;;"), Err(WifiUriError::InvalidUtf8));
}

#[test]
fn an_unknown_tag_is_refused() {
    assert_eq!(try_parse_wifi_uri("WIFI:X:1;;"), Err(WifiUriError::UnknownKey { tag: tagged("X") }));
    assert_eq!(try_parse_wifi_uri("WIFI:s:net;;"), Err(WifiUriError::UnknownKey { tag: tagged("s") }));
    assert_eq!(try_parse_wifi_uri("WIFI::net;;"), Err(WifiUriError::UnknownKey { tag: tagged("") }));
}

#[test]
fn a_repeated_tag_is_refused() {
    assert_eq!(try_parse_wifi_uri("WIFI:S:a;S:b;;"), Err(WifiUriError::DuplicateKey { tag: tagged("S") }));
}

#[test]
fn transition_disable_must_be_false() {
    assert_eq!(
        try_parse_wifi_uri("WIFI:S:a;R:true;;"),
        Err(WifiUriError::UnsupportedTransitionDisable { value: tagged("true") })
    );
    assert_eq!(
        try_parse_wifi_uri("WIFI:S:a;R:1;;"),
        Err(WifiUriError::UnsupportedTransitionDisable { value: tagged("1") })
    );
    assert_eq!(try_parse_wifi_uri("WIFI:S:a;R:false;;"), Ok(connection("a", None, false)));
}

#[test]
fn security_must_be_wpa() {
    assert_eq!(
        try_parse_wifi_uri("WIFI:T:WEP;S:a;;"),
        Err(WifiUriError::UnsupportedSecurity { value: tagged("WEP") })
    );
    assert_eq!(
        try_parse_wifi_uri("WIFI:T:wpa;S:a;;"),
        Err(WifiUriError::UnsupportedSecurity { value: tagged("wpa") })
    );
    // Transition-disable is looked at first.
    assert_eq!(
        try_parse_wifi_uri("WIFI:T:WEP;R:true;;"),
        Err(WifiUriError::UnsupportedTransitionDisable { value: tagged("true") })
    );
}

#[test]
fn the_name_is_required() {
    assert_eq!(try_parse_wifi_uri("WIFI:;"), Err(WifiUriError::MissingSsid));
    assert_eq!(try_parse_wifi_uri("WIFI:T:WPA;P:pass;;"), Err(WifiUriError::MissingSsid));
    assert_eq!(try_parse_wifi_uri("WIFI:H:maybe;;"), Err(WifiUriError::MissingSsid));
}

#[test]
fn hidden_must_be_true_or_false() {
    assert_eq!(try_parse_wifi_uri("WIFI:S:a;H:yes;;"), Err(WifiUriError::InvalidHidden));
    assert_eq!(try_parse_wifi_uri("WIFI:S:a;H:True;;"), Err(WifiUriError::InvalidHidden));
    assert_eq!(try_parse_wifi_uri("WIFI:S:a;H:;;"), Err(WifiUriError::InvalidHidden));
}

#[test]
fn other_parameters_have_no_place() {
    assert_eq!(
        try_parse_wifi_uri("WIFI:S:a;K:key;;"),
        Err(WifiUriError::UnsupportedFlags {
            sae_password_identifier: None,
            public_key: Some(tagged("key"))
        })
    );
    assert_eq!(
        try_parse_wifi_uri("WIFI:S:a;I:i%20d;K:;;"),
        Err(WifiUriError::UnsupportedFlags {
            sae_password_identifier: Some(tagged("i d")),
            public_key: Some(tagged(""))
        })
    );
    assert_eq!(try_parse_wifi_uri("WIFI:S:a;H:no;K:key;;"), Err(WifiUriError::InvalidHidden));
}

#[test]
fn plain_words_are_rendered_as_they_are() {
    let command = connection("net", Some("pass"), false).render_to_nmcli();
    assert_eq!(command, "nmcli device wifi connect net password pass");
}

#[test]
fn an_open_hidden_network_is_rendered() {
    let command = connection("net", None, true).render_to_nmcli();
    assert_eq!(command, "nmcli device wifi connect net hidden yes");
}

#[test]
fn words_are_quoted_for_the_shell() {
    let command = connection("my net", Some("pa$$ word"), true).render_to_nmcli();
    assert_eq!(command, "nmcli device wifi connect 'my net' password 'pa$$ word' hidden yes");
    let command = connection("it's", Some(""), false).render_to_nmcli();
    assert_eq!(command, "nmcli device wifi connect \"it's\" password ''");
}

#[test]
fn a_nul_character_cannot_be_rendered() {
    assert_eq!(connection("a\0b", None, false).try_render_to_nmcli(), None);
    assert_eq!(connection("net", Some("p\0"), false).try_render_to_nmcli(), None);
    assert_eq!(
        connection("net", Some("pass"), false).try_render_to_nmcli(),
        Some("nmcli device wifi connect net password pass".to_owned())
    );
}

#[test]
fn a_scanned_uri_becomes_a_command() {
    let connection = parse_wifi_uri("WIFI:T:WPA;S:Guest%20WiFi;P:s3cr%C3%A9t!;H:true;;");
    assert_eq!(
        connection.render_to_nmcli(),
        "nmcli device wifi connect 'Guest WiFi' password 's3cr\u{e9}t!' hidden yes"
    );
}

#[test]
fn a_uri_known_to_be_good_is_read_outright() {
    assert_eq!(parse_wifi_uri("WIFI:T:WPA;S:net;P:pass;;"), connection("net", Some("pass"), false));
    assert_eq!(parse_wifi_uri("WIFI:S:my%20net;H:true;;"), connection("my net", None, true));
    assert_eq!(
        parse_wifi_uri("WIFI:R:false;P:a%3Bb;S:x;;"),
        connection("x", Some("a;b"), false)
    );
}

#[test]
fn what_is_accepted_leaves_no_trace() {
    let plain = parse_wifi_uri("WIFI:S:net;P:pass;;");
    assert_eq!(parse_wifi_uri("WIFI:T:WPA;S:net;P:pass;;"), plain);
    assert_eq!(parse_wifi_uri("WIFI:R:false;S:net;P:pass;;"), plain);
    assert_eq!(parse_wifi_uri("WIFI:S:net;H:false;P:pass;T:WPA;R:false;;"), plain);
}

#[test]
fn quoted_words_are_put_together() {
    assert_eq!(
        nmcli_from_quoted("net", Some("pass"), false),
        "nmcli device wifi connect net password pass"
    );
    assert_eq!(nmcli_from_quoted("net", None, false), "nmcli device wifi connect net");
    assert_eq!(
        nmcli_from_quoted("'my net'", None, true),
        "nmcli device wifi connect 'my net' hidden yes"
    );
    assert_eq!(
        nmcli_from_quoted("a", Some("''"), true),
        "nmcli device wifi connect a password '' hidden yes"
    );
}

#[test]
fn a_value_that_runs_to_the_end_names_its_tag() {
    assert_eq!(
        try_parse_wifi_uri("WIFI:S:net;P:pass"),
        Err(WifiUriError::UnterminatedValue { tag: tagged("P") })
    );
    assert_eq!(
        try_parse_wifi_uri("WIFI:S:net;long tag:x"),
        Err(WifiUriError::UnterminatedValue { tag: tagged("long tag") })
    );
}
