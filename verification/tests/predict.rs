use doppler::predict::day_of_the_year;

#[test]
fn day_of_year_common_dates() {
    assert_eq!(day_of_the_year(2015, 1, 1), 1);
    assert_eq!(day_of_the_year(2015, 2, 28), 59);
    assert_eq!(day_of_the_year(2015, 3, 1), 60);
    assert_eq!(day_of_the_year(2015, 12, 31), 365);
}

#[test]
fn day_of_year_leap_rules() {
    // 2000 is a leap year (divisible by 400), 1900 is not (by 100 only).
    assert_eq!(day_of_the_year(2000, 2, 29), 60);
    assert_eq!(day_of_the_year(2000, 3, 1), 61);
    assert_eq!(day_of_the_year(2000, 12, 31), 366);
    assert_eq!(day_of_the_year(1900, 3, 1), 60);
    assert_eq!(day_of_the_year(2004, 3, 1), 61);
    // The leap day changes nothing before March.
    assert_eq!(day_of_the_year(2004, 1, 31), 31);
    assert_eq!(day_of_the_year(2004, 2, 1), 32);
}
