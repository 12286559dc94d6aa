use breaktime::text::alert_subtitle_text;
use breaktime::timer::countdown_text;
use breaktime::timer::minutes_text;

#[test]
fn minutes_text_names_the_minutes() {
    assert_eq!(minutes_text(20), "20 min");
    assert_eq!(minutes_text(1), "1 min");
    assert_eq!(minutes_text(0), "0 min");
    assert_eq!(minutes_text(105), "105 min");
    assert_eq!(minutes_text(u32::MAX), "4294967295 min");
}

#[test]
fn countdown_text_has_two_digits() {
    assert_eq!(countdown_text(10), "10");
    assert_eq!(countdown_text(7), "07");
    assert_eq!(countdown_text(0), "00");
    assert_eq!(countdown_text(99), "99");
    assert_eq!(countdown_text(123), "123");
}

#[test]
fn countdown_text_matches_zero_padded_format() {
    for seconds in 0..2000u32 {
        assert_eq!(countdown_text(seconds), format!("{seconds:02}"));
        assert_eq!(minutes_text(seconds), format!("{seconds} min"));
    }
}

#[test]
fn alert_subtitle_names_the_interval() {
    assert_eq!(alert_subtitle_text(20), "Your 20 min timer has finished.");
    assert_eq!(alert_subtitle_text(1), "Your 1 min timer has finished.");
}
