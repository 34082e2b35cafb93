use sensor_display::reading::Reading;
use sensor_display::textfmt::dec_to_string;
use sensor_display::textfmt::format_reading;
use sensor_display::textfmt::tenths_to_string;

#[test]
fn formats_the_observed_reading() {
    let r = Reading { temp_tenths: 235, humidity_tenths: 410 };
    assert_eq!(format_reading(&r), "23.5°C, 41% RH");
}

#[test]
fn formats_a_freezing_reading() {
    let r = Reading { temp_tenths: -40, humidity_tenths: 995 };
    assert_eq!(format_reading(&r), "-4°C, 99.5% RH");
}

#[test]
fn whole_values_drop_the_fraction() {
    assert_eq!(tenths_to_string(410), "41");
    assert_eq!(tenths_to_string(0), "0");
    assert_eq!(tenths_to_string(-230), "-23");
    assert_eq!(tenths_to_string(1000), "100");
}

#[test]
fn fractional_values_keep_one_digit() {
    assert_eq!(tenths_to_string(235), "23.5");
    assert_eq!(tenths_to_string(-5), "-0.5");
    assert_eq!(tenths_to_string(7), "0.7");
}

#[test]
fn decimal_rendering_is_exact() {
    assert_eq!(dec_to_string(0), "0");
    assert_eq!(dec_to_string(10), "10");
    assert_eq!(dec_to_string(1234), "1234");
    assert_eq!(dec_to_string(u64::MAX), "18446744073709551615");
}

#[test]
fn humidity_above_the_scale_is_rejected() {
    assert!(Reading::new(200, 1001).is_none());
    let r = Reading::new(200, 1000);
    assert!(r.is_some());
    assert_eq!(r.unwrap().humidity_tenths, 1000);
}
