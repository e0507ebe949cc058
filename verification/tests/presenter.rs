use koekbar::presenter::{clock_text, compose, date_text, media_text, render};
use koekbar::types::{MediaInfo, StatusUpdate, Timestamp};

fn at(secs: i64, offset: i32) -> Timestamp {
    Timestamp { secs, nanos: 0, offset }
}

fn media(title: &str, author: Option<&str>) -> MediaInfo {
    MediaInfo {
        title: title.to_string(),
        author: author.map(|a| a.to_string()),
        application: "Idk".to_string(),
    }
}

#[test]
fn media_text_with_author() {
    assert_eq!(media_text(&media("So What", Some("Miles Davis"))), "♫ So What - Miles Davis");
}

#[test]
fn media_text_without_author() {
    assert_eq!(media_text(&media("So What", None)), "♫ So What");
}

#[test]
fn media_text_with_empty_author_keeps_the_dash() {
    assert_eq!(media_text(&media("So What", Some(""))), "♫ So What - ");
}

#[test]
fn clock_text_at_the_epoch() {
    assert_eq!(clock_text(at(0, 0)).as_deref(), Some("00:00"));
}

#[test]
fn clock_text_follows_the_offset() {
    assert_eq!(clock_text(at(0, 3600)).as_deref(), Some("01:00"));
    assert_eq!(clock_text(at(0, -1800)).as_deref(), Some("23:30"));
}

#[test]
fn clock_text_pads_with_zeros() {
    // 2001-09-09 01:46:40 UTC
    assert_eq!(clock_text(at(1_000_000_000, 0)).as_deref(), Some("01:46"));
    assert_eq!(clock_text(at(1_000_000_000, 5 * 3600 + 1800)).as_deref(), Some("07:16"));
}

#[test]
fn date_text_at_the_epoch() {
    assert_eq!(date_text(at(0, 0)).as_deref(), Some("Thu Jan  1"));
}

#[test]
fn date_text_follows_the_offset() {
    // 2001-09-09 01:46:40 UTC is still the eighth, a Saturday, five hours to the west.
    assert_eq!(date_text(at(1_000_000_000, 0)).as_deref(), Some("Sun Sep  9"));
    assert_eq!(date_text(at(1_000_000_000, -5 * 3600)).as_deref(), Some("Sat Sep  8"));
}

#[test]
fn date_text_with_two_digit_day() {
    // 2015-05-15 00:00:00 UTC
    assert_eq!(date_text(at(1_431_648_000, 0)).as_deref(), Some("Fri May 15"));
}

#[test]
fn texts_ignore_the_nanoseconds() {
    let time = Timestamp { secs: 1_431_648_000, nanos: 999_999_999, offset: 0 };
    assert_eq!(clock_text(time).as_deref(), Some("00:00"));
    assert_eq!(date_text(time).as_deref(), Some("Fri May 15"));
}

#[test]
fn offset_of_a_whole_day_has_no_text() {
    assert_eq!(clock_text(at(0, 86_400)), None);
    assert_eq!(date_text(at(0, -86_400)), None);
}

#[test]
fn instant_beyond_the_calendar_has_no_text() {
    assert_eq!(clock_text(at(i64::MAX, 0)), None);
    assert_eq!(date_text(at(i64::MIN, 0)), None);
}

#[test]
fn nanoseconds_out_of_range_have_no_text() {
    let time = Timestamp { secs: 0, nanos: 2_000_000_000, offset: 0 };
    assert_eq!(clock_text(time), None);
}

#[test]
fn render_with_media() {
    let status = StatusUpdate {
        time: at(1_000_000_000, 7200),
        media: Some(media("So What", Some("Miles Davis, Bill Evans"))),
    };
    let frame = render(&status).unwrap();
    assert_eq!(frame.clock, "03:46");
    assert_eq!(frame.date, "Sun Sep  9");
    assert_eq!(frame.media.as_deref(), Some("♫ So What - Miles Davis, Bill Evans"));
}

#[test]
fn render_without_media_hides_the_field() {
    let status = StatusUpdate { time: at(0, 0), media: None };
    let frame = render(&status).unwrap();
    assert_eq!(frame.clock, "00:00");
    assert_eq!(frame.date, "Thu Jan  1");
    assert_eq!(frame.media, None);
}

#[test]
fn render_twice_gives_the_same_frame() {
    let status = StatusUpdate { time: at(1_431_648_000, -3600), media: Some(media("A", None)) };
    let first = render(&status).unwrap();
    let second = render(&status).unwrap();
    assert_eq!(first.clock, second.clock);
    assert_eq!(first.date, second.date);
    assert_eq!(first.media, second.media);
}

#[test]
fn render_without_a_calendar_text_gives_no_frame() {
    let status = StatusUpdate { time: at(0, 100_000), media: Some(media("A", None)) };
    assert!(render(&status).is_none());
}

#[test]
fn compose_needs_both_texts() {
    let status = StatusUpdate { time: at(0, 0), media: None };
    assert!(compose(&status, None, Some("Thu Jan  1".to_string())).is_none());
    assert!(compose(&status, Some("00:00".to_string()), None).is_none());
    let frame = compose(&status, Some("00:00".to_string()), Some("Thu Jan  1".to_string())).unwrap();
    assert_eq!(frame.clock, "00:00");
    assert_eq!(frame.date, "Thu Jan  1");
    assert_eq!(frame.media, None);
}
