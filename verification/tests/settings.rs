use mobile_rewards::settings::{default_log, Mode};

#[test]
fn mode_names_are_lower_case() {
    assert_eq!(Mode::Iot.to_string(), "iot");
    assert_eq!(Mode::Mobile.to_string(), "mobile");
}

#[test]
fn default_log_filter() {
    assert_eq!(default_log(), "reward_index=debug,poc_store=info");
}
