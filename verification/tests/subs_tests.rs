use productivo::subs::{sub_words, trailing_numbers};

/// "name [price] [renew day] [y|yearly]": up to two trailing numbers are price then
/// day; a y/yr/yearly token anywhere marks a yearly cycle.
fn parse_sub(input: &str) -> (String, Option<f64>, Option<u32>, &'static str) {
    let (words, yearly) = sub_words(input);
    let numeric: Vec<bool> = words.iter().map(|w| w.parse::<f64>().is_ok()).collect();
    let k = trailing_numbers(&numeric);
    let nums: Vec<f64> = words[words.len() - k..].iter().map(|w| w.parse::<f64>().unwrap()).collect();
    let (price, day) = match nums.len() {
        2 => (Some(nums[0]), Some(nums[1] as u32)),
        1 => (Some(nums[0]), None),
        _ => (None, None),
    };
    (
        words[..words.len() - k].join(" "),
        price,
        day.filter(|d| (1..=31).contains(d)),
        if yearly { "yearly" } else { "monthly" },
    )
}

#[test]
fn parses_trailing_numbers() {
    assert_eq!(
        parse_sub("Google One 130 12"),
        ("Google One".into(), Some(130.0), Some(12), "monthly")
    );
    assert_eq!(
        parse_sub("Spotify 119"),
        ("Spotify".into(), Some(119.0), None, "monthly")
    );
    assert_eq!(parse_sub("yazi"), ("yazi".into(), None, None, "monthly"));
    // numeric-looking name alone stays a name, not a price
    assert_eq!(parse_sub("365"), ("365".into(), None, None, "monthly"));
    // day out of range is dropped
    assert_eq!(
        parse_sub("Netflix 649 99"),
        ("Netflix".into(), Some(649.0), None, "monthly")
    );
    // y token anywhere marks yearly billing
    assert_eq!(
        parse_sub("Google One 1300 y 12"),
        ("Google One".into(), Some(1300.0), Some(12), "yearly")
    );
}

#[test]
fn words_split_on_any_white_space() {
    let (w, y) = sub_words("  Prime\tVideo  YEARLY 99 ");
    assert_eq!(w, vec!["Prime", "Video", "99"]);
    assert!(y);
    let (w, y) = sub_words("Yr yr YR");
    assert!(w.is_empty());
    assert!(y);
    let (w, y) = sub_words("yearlyish");
    assert_eq!(w, vec!["yearlyish"]);
    assert!(!y);
}

#[test]
fn at_most_two_trailing_numbers_and_one_name_word() {
    assert_eq!(trailing_numbers(&vec![]), 0);
    assert_eq!(trailing_numbers(&vec![true]), 0);
    assert_eq!(trailing_numbers(&vec![true, true]), 1);
    assert_eq!(trailing_numbers(&vec![false, true, true, true]), 2);
    assert_eq!(trailing_numbers(&vec![false, true, false]), 0);
}
