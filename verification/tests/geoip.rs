use pathtrace::geoip::{parse_decimal_u16, parse_u16, GeoIpCity, IpInfoGeoIp};

fn some(s: &str) -> Option<String> {
    Some(s.to_string())
}

#[test]
fn test_short_name_joins_what_is_there() {
    let city = GeoIpCity {
        city: some("Yokohama"),
        subdivision_code: some("14"),
        country_code: some("JP"),
        ..GeoIpCity::default()
    };
    assert_eq!(city.short_name(), "Yokohama14JP");
    let city = GeoIpCity { country_code: some("JP"), ..GeoIpCity::default() };
    assert_eq!(city.short_name(), "JP");
    assert_eq!(GeoIpCity::default().short_name(), "");
}

#[test]
fn test_short_name_drops_three_zeros() {
    let city = GeoIpCity {
        city: some("0"),
        subdivision_code: some("1000"),
        country_code: some("0CN0"),
        ..GeoIpCity::default()
    };
    assert_eq!(city.short_name(), "100CN0");
}

#[test]
fn test_long_name() {
    let city = GeoIpCity {
        city: some("Yokohama"),
        subdivision: some("Kanagawa"),
        country: some("Japan"),
        continent: some("Asia"),
        ..GeoIpCity::default()
    };
    assert_eq!(city.long_name(), "YokohamaKanagawaJapanAsia");
}

#[test]
fn test_long_name_leaves_out_municipality() {
    for municipality in ["北京", "上海", "天津", "重庆"] {
        let city = GeoIpCity {
            city: some("0"),
            subdivision: some(municipality),
            country: some("中国"),
            continent: some("亚洲"),
            ..GeoIpCity::default()
        };
        assert_eq!(city.long_name(), "中国亚洲");
    }
    let city = GeoIpCity {
        city: some("广州"),
        subdivision: some("广东"),
        country: some("中国"),
        ..GeoIpCity::default()
    };
    assert_eq!(city.long_name(), "广州广东中国");
}

#[test]
fn test_from_region() {
    let region = "深圳|0|广东|中国|亚洲|电信";
    assert!(GeoIpCity::names_place(region));
    let city = GeoIpCity::from_region(region);
    assert_eq!(city.accuracy_radius, Some(0));
    assert_eq!(city.city, some("深圳"));
    assert_eq!(city.subdivision, some("广东"));
    assert_eq!(city.subdivision_code, some("广东"));
    assert_eq!(city.country, some("中国"));
    assert_eq!(city.country_code, some("中国"));
    assert_eq!(city.continent, some("亚洲"));
    assert_eq!(city.long_name(), "深圳广东中国亚洲");
}

#[test]
fn test_names_place_counts_fields() {
    assert!(GeoIpCity::names_place("||||"));
    assert!(!GeoIpCity::names_place("a|b|c|d"));
    assert!(!GeoIpCity::names_place(""));
    let city = GeoIpCity::from_region("||||");
    assert_eq!(city.city, some(""));
    assert_eq!(city.continent, some(""));
}

#[test]
fn test_parse_u16() {
    assert_eq!(parse_u16("500"), Some(500));
    assert_eq!(parse_u16("0"), Some(0));
    assert_eq!(parse_u16("65535"), Some(65535));
    assert_eq!(parse_u16("+7"), Some(7));
    assert_eq!(parse_u16("00065535"), Some(65535));
    assert_eq!(parse_u16("000000000000000000000000000001"), Some(1));
    assert_eq!(parse_u16("65536"), None);
    assert_eq!(parse_u16("99999999999999999999"), None);
    assert_eq!(parse_u16(""), None);
    assert_eq!(parse_u16("+"), None);
    assert_eq!(parse_u16("-1"), None);
    assert_eq!(parse_u16("-0"), None);
    assert_eq!(parse_u16("++1"), None);
    assert_eq!(parse_u16("1+"), None);
    assert_eq!(parse_u16(" 5"), None);
    assert_eq!(parse_u16("5 "), None);
    assert_eq!(parse_u16("1_000"), None);
    assert_eq!(parse_u16("12a"), None);
    assert_eq!(parse_u16("655360"), None);
    assert_eq!(parse_u16("５"), None);
    assert_eq!(parse_decimal_u16(b"500"), Some(500));
    assert_eq!(parse_decimal_u16(&[0x35, 0xff]), None);
}

#[test]
fn test_parse_u16_agrees_with_std() {
    for text in ["0", "1", "+1", "-1", "65535", "65536", "", "+", "007", "70000", "6553x", "٣"] {
        assert_eq!(parse_u16(text), text.parse::<u16>().ok());
    }
    for n in 0..=70000_u32 {
        assert_eq!(parse_u16(&n.to_string()), u16::try_from(n).ok());
    }
}

#[test]
fn test_from_ipinfo() {
    let record = IpInfoGeoIp {
        latitude: some("35.43333"),
        longitude: some("139.65"),
        radius: some("500"),
        city: some("Yokohama"),
        region: some("Kanagawa"),
        postal_code: some("220-8588"),
        country: some("JP"),
        country_name: some("Japan"),
        continent_name: some("Asia"),
    };
    let city = GeoIpCity::from_ipinfo(record);
    assert_eq!(city.accuracy_radius, Some(500));
    assert_eq!(city.city, some("Yokohama"));
    assert_eq!(city.subdivision, some("Kanagawa"));
    assert_eq!(city.subdivision_code, some("220-8588"));
    assert_eq!(city.country, some("Japan"));
    assert_eq!(city.country_code, some("JP"));
    assert_eq!(city.continent, some("Asia"));
    assert_eq!(city.short_name(), "Yokohama22-8588JP");
    assert_eq!(city.long_name(), "YokohamaKanagawaJapanAsia");
    let city = GeoIpCity::from_ipinfo(IpInfoGeoIp { radius: some("far"), ..IpInfoGeoIp::default() });
    assert_eq!(city.accuracy_radius, None);
    assert_eq!(city.city, None);
    let city = GeoIpCity::from_ipinfo(IpInfoGeoIp::default());
    assert_eq!(city.accuracy_radius, None);
}
