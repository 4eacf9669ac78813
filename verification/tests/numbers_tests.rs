use zere::generate_procedural_config;
use zere::i32_to_string;
use zere::parse_i32;

#[test]
fn parse_accepts_what_std_accepts() {
    assert_eq!(parse_i32("0"), Some(0));
    assert_eq!(parse_i32("123"), Some(123));
    assert_eq!(parse_i32("+7"), Some(7));
    assert_eq!(parse_i32("-45"), Some(-45));
    assert_eq!(parse_i32("007"), Some(7));
    assert_eq!(parse_i32("2147483647"), Some(i32::MAX));
    assert_eq!(parse_i32("-2147483648"), Some(i32::MIN));
}

#[test]
fn parse_rejects_what_std_rejects() {
    assert_eq!(parse_i32(""), None);
    assert_eq!(parse_i32("+"), None);
    assert_eq!(parse_i32("-"), None);
    assert_eq!(parse_i32("12a"), None);
    assert_eq!(parse_i32(" 12"), None);
    assert_eq!(parse_i32("12 "), None);
    assert_eq!(parse_i32("1.5"), None);
    assert_eq!(parse_i32("2147483648"), None);
    assert_eq!(parse_i32("-2147483649"), None);
    assert_eq!(parse_i32("99999999999999999999"), None);
}

#[test]
fn parse_agrees_with_std() {
    for s in ["0", "-0", "+000", "42", "-42", "2147483647", "2147483648", "x", "--4"] {
        assert_eq!(parse_i32(s), s.parse::<i32>().ok());
    }
}

#[test]
fn renders_decimals_like_std() {
    assert_eq!(i32_to_string(0), "0");
    assert_eq!(i32_to_string(7), "7");
    assert_eq!(i32_to_string(100), "100");
    assert_eq!(i32_to_string(-45), "-45");
    assert_eq!(i32_to_string(i32::MAX), "2147483647");
    assert_eq!(i32_to_string(i32::MIN), "-2147483648");
    for n in [1, -1, 10, 99, -100, 123456789] {
        assert_eq!(i32_to_string(n), n.to_string());
    }
}

#[test]
fn procedural_config_fills_the_template() {
    let yaml = generate_procedural_config(250, 25, 35, "warehouse_shelf");
    assert!(yaml.starts_with("num_scenes: 250\nscenes_per_batch: 100\nheadless: true\n"));
    assert!(yaml.contains("num_objects_range: [25, 35]"));
    assert!(yaml.contains("environment_type: warehouse_shelf\n"));
    assert!(yaml.contains("profile: StandardOverhead"));
    assert!(yaml.ends_with("intensity_range: [2.0, 4.0]\n"));
}

#[test]
fn procedural_config_batch_is_capped_at_scene_count() {
    let yaml = generate_procedural_config(50, 20, 30, "floor");
    assert!(yaml.starts_with("num_scenes: 50\nscenes_per_batch: 50\n"));
    assert!(yaml.contains("environment_type: floor\n"));
}
