use gstaldergeist::calendar::Weekday;
use gstaldergeist::config::{
    config, parse_channel_id, parse_count, parse_flatmates, split_at_commas, Config,
};
use gstaldergeist::error::GstaldergeistError;

fn is_config_error<T: std::fmt::Debug>(result: Result<T, GstaldergeistError>) -> bool {
    matches!(result, Err(GstaldergeistError::ConfigError(_)))
}

#[test]
fn settings_hold_what_they_are_made_of() {
    let config =
        Config::new(vec![3, 1, 2], -77, String::from("token"), 3600, 2, Weekday::Wed).unwrap();
    assert_eq!(config.flatmates(), &vec![3, 1, 2]);
    assert_eq!(config.global_channel_id(), -77);
    assert_eq!(config.bot_token(), "token");
    assert_eq!(config.reminder_interval(), 3600);
    assert_eq!(config.max_reminders(), 2);
    assert_eq!(config.rotation_day(), Weekday::Wed);
}

#[test]
fn the_usual_settings() {
    let config = Config::standard(vec![1, 2], 5, String::from("t")).unwrap();
    assert_eq!(config.flatmates(), &vec![1, 2]);
    assert_eq!(config.global_channel_id(), 5);
    assert_eq!(config.reminder_interval(), 5400);
    assert_eq!(config.max_reminders(), 1);
    assert_eq!(config.rotation_day(), Weekday::Sun);
    assert!(is_config_error(Config::standard(vec![], 5, String::from("t"))));
}

#[test]
fn settings_without_a_flatmate_are_refused() {
    assert!(is_config_error(Config::new(vec![], 0, String::new(), 1, 1, Weekday::Sun)));
}

#[test]
fn settings_without_an_interval_are_refused() {
    assert!(is_config_error(Config::new(vec![1], 0, String::new(), 0, 1, Weekday::Sun)));
}

#[test]
fn settings_without_a_reminder_are_refused() {
    assert!(is_config_error(Config::new(vec![1], 0, String::new(), 1, 0, Weekday::Sun)));
}

#[test]
fn the_smallest_settings_are_taken() {
    assert!(Config::new(vec![1], 0, String::new(), 1, 1, Weekday::Sun).is_ok());
    assert!(Config::new(vec![1], 0, String::new(), u32::MAX, u32::MAX, Weekday::Mon).is_ok());
}

#[test]
fn a_refused_configuration_is_fatal() {
    let error = Config::new(vec![], 0, String::new(), 1, 1, Weekday::Sun).unwrap_err();
    assert!(error.is_fatal());
}

#[test]
fn the_list_of_flatmates_is_read() {
    assert_eq!(parse_flatmates("123,456,789").unwrap(), vec![123, 456, 789]);
    assert_eq!(parse_flatmates("123").unwrap(), vec![123]);
    assert_eq!(parse_flatmates(" 1 , -2,+3 ,\t4\n").unwrap(), vec![1, -2, 3, 4]);
    assert_eq!(
        parse_flatmates("9223372036854775807,-9223372036854775808").unwrap(),
        vec![i64::MAX, i64::MIN]
    );
}

#[test]
fn a_list_with_a_piece_that_is_no_number_is_refused() {
    for text in ["", ",", "1,", ",1", "1,,2", "1,a,2", "1;2", "1 2,3", "9223372036854775808", " "] {
        assert!(is_config_error(parse_flatmates(text)), "{:?}", text);
    }
}

#[test]
fn the_list_is_read_as_std_reads_it() {
    for text in ["5, 6 ,7", "5,x", "", "-0", "0x10", "１２", " 12 ", "1,2,3,", "é,1", "1\u{a0},2"] {
        let by_hand: Result<Vec<i64>, _> =
            text.split(',').map(|piece| piece.trim().parse::<i64>()).collect();
        assert_eq!(parse_flatmates(text).ok(), by_hand.ok(), "{:?}", text);
    }
}

#[test]
fn the_number_of_the_channel_is_read() {
    assert_eq!(parse_channel_id("-1001234567890").unwrap(), -1001234567890);
    assert_eq!(parse_channel_id("0").unwrap(), 0);
    assert!(is_config_error(parse_channel_id("")));
    assert!(is_config_error(parse_channel_id(" 5")));
    assert!(is_config_error(parse_channel_id("five")));
}

#[test]
fn a_text_is_cut_at_its_commas() {
    assert_eq!(split_at_commas(""), vec![""]);
    assert_eq!(split_at_commas("a"), vec!["a"]);
    assert_eq!(split_at_commas(","), vec!["", ""]);
    assert_eq!(split_at_commas("a,b"), vec!["a", "b"]);
    assert_eq!(split_at_commas(" a ,, bé,"), vec![" a ", "", " bé", ""]);
    for text in ["", ",", "1,2,3", ",,", "é,ü", "no comma", "a, b ,c,"] {
        let by_hand: Vec<String> = text.split(',').map(String::from).collect();
        assert_eq!(split_at_commas(text), by_hand);
    }
}

#[test]
fn a_count_is_positive_and_fits() {
    assert_eq!(parse_count(None, 7), Some(7));
    assert_eq!(parse_count(Some("1"), 7), Some(1));
    assert_eq!(parse_count(Some("3600"), 7), Some(3600));
    assert_eq!(parse_count(Some("4294967295"), 7), Some(u32::MAX));
    assert_eq!(parse_count(Some("4294967296"), 7), None);
    assert_eq!(parse_count(Some("0"), 7), None);
    assert_eq!(parse_count(Some("-1"), 7), None);
    assert_eq!(parse_count(Some(""), 7), None);
    assert_eq!(parse_count(Some(" 5"), 7), None);
    assert_eq!(parse_count(Some("many"), 7), None);
}

#[test]
fn a_weekday_is_read_from_its_three_letters() {
    for day in [
        Weekday::Mon,
        Weekday::Tue,
        Weekday::Wed,
        Weekday::Thu,
        Weekday::Fri,
        Weekday::Sat,
        Weekday::Sun,
    ] {
        assert_eq!(Weekday::from_name(day.name()), Some(day));
    }
    assert_eq!(Weekday::from_name("sun"), None);
    assert_eq!(Weekday::from_name("Sunday"), None);
    assert_eq!(Weekday::from_name(""), None);
}

#[test]
fn settings_are_made_of_the_texts_of_the_environment() {
    let made = config(
        Some(String::from("123:abc")),
        Some("-100"),
        Some("1, 2,3"),
        Some("3600"),
        Some("2"),
        Some("Wed"),
    )
    .unwrap();
    assert_eq!(made.bot_token(), "123:abc");
    assert_eq!(made.global_channel_id(), -100);
    assert_eq!(made.flatmates(), &vec![1, 2, 3]);
    assert_eq!(made.reminder_interval(), 3600);
    assert_eq!(made.max_reminders(), 2);
    assert_eq!(made.rotation_day(), Weekday::Wed);
}

#[test]
fn settings_that_are_not_given_have_their_usual_value() {
    let made =
        config(Some(String::from("t")), Some("5"), Some("8"), None, None, None).unwrap();
    assert_eq!(made.flatmates(), &vec![8]);
    assert_eq!(made.reminder_interval(), 5400);
    assert_eq!(made.max_reminders(), 1);
    assert_eq!(made.rotation_day(), Weekday::Sun);
}

#[test]
fn missing_or_unreadable_settings_are_refused() {
    let token = || Some(String::from("t"));
    assert!(is_config_error(config(None, Some("5"), Some("8"), None, None, None)));
    assert!(is_config_error(config(token(), None, Some("8"), None, None, None)));
    assert!(is_config_error(config(token(), Some("5"), None, None, None, None)));
    assert!(is_config_error(config(token(), Some("x"), Some("8"), None, None, None)));
    assert!(is_config_error(config(token(), Some("5"), Some("8,x"), None, None, None)));
    assert!(is_config_error(config(token(), Some("5"), Some(""), None, None, None)));
    assert!(is_config_error(config(token(), Some("5"), Some("8"), Some("0"), None, None)));
    assert!(is_config_error(config(token(), Some("5"), Some("8"), None, Some("0"), None)));
    assert!(is_config_error(config(token(), Some("5"), Some("8"), None, Some("x"), None)));
    assert!(is_config_error(config(token(), Some("5"), Some("8"), None, None, Some("So"))));
}
