use eig_db::query::{HisQuery, HisSetPointQuery, LogQuery, PointsQuery};

fn his_none() -> HisQuery {
    HisQuery {
        id: None,
        start: None,
        end: None,
        date: None,
        source: None,
        last_only: None,
        with_init: None,
    }
}

fn set_point_none() -> HisSetPointQuery {
    HisSetPointQuery { sender_id: None, point_id: None, start: None, end: None, date: None }
}

#[test]
fn his_query_without_fields_is_question_mark() {
    assert_eq!(his_none().query_str(), "?");
}

#[test]
fn his_query_id_only() {
    let q = HisQuery { id: Some("1,2,3".to_string()), ..his_none() };
    assert_eq!(q.query_str(), "?id=1,2,3");
}

#[test]
fn his_query_all_fields_in_order() {
    let q = HisQuery {
        id: Some("10,20".to_string()),
        start: Some(1700000000000),
        end: Some(1700086400000),
        date: Some("2023-11-15".to_string()),
        source: Some(3),
        last_only: Some(true),
        with_init: Some(false),
    };
    assert_eq!(
        q.query_str(),
        "?id=10,20&start=1700000000000&end=1700086400000&date=2023-11-15&source=3&last_only=true&with_init=false"
    );
}

#[test]
fn his_query_with_init_only() {
    let q = HisQuery { with_init: Some(true), ..his_none() };
    assert_eq!(q.query_str(), "?with_init=true");
}

#[test]
fn his_query_without_with_init_has_no_trailing_separator() {
    let q = HisQuery { start: Some(5), last_only: Some(false), ..his_none() };
    assert_eq!(q.query_str(), "?start=5&last_only=false");
}

#[test]
fn his_query_number_edges() {
    let q = HisQuery { start: Some(0), end: Some(u64::MAX), source: Some(u32::MAX), ..his_none() };
    assert_eq!(q.query_str(), "?start=0&end=18446744073709551615&source=4294967295");
}

#[test]
fn his_query_value_ending_in_separator_keeps_it() {
    let q = HisQuery { id: Some("a&".to_string()), ..his_none() };
    assert_eq!(q.query_str(), "?id=a&");
}

#[test]
fn his_query_empty_text_value() {
    let q = HisQuery { date: Some(String::new()), ..his_none() };
    assert_eq!(q.query_str(), "?date=");
}

#[test]
fn set_point_query_without_fields_is_question_mark() {
    assert_eq!(set_point_none().query_str(), "?");
}

#[test]
fn set_point_query_point_id_comes_first() {
    let q = HisSetPointQuery {
        sender_id: Some(7),
        point_id: Some(42),
        start: Some(100),
        end: Some(200),
        date: Some("2024-01-02".to_string()),
    };
    assert_eq!(q.query_str(), "?point_id=42&sender_id=7&start=100&end=200&date=2024-01-02");
}

#[test]
fn set_point_query_sender_only() {
    let q = HisSetPointQuery { sender_id: Some(9), ..set_point_none() };
    assert_eq!(q.query_str(), "?sender_id=9");
}

#[test]
fn points_query_cases() {
    assert_eq!(PointsQuery { id: None, name: None }.query_str(), "?");
    assert_eq!(PointsQuery { id: None, name: Some("pump".to_string()) }.query_str(), "?name=pump");
    assert_eq!(
        PointsQuery { id: Some("1".to_string()), name: Some("pump".to_string()) }.query_str(),
        "?id=1&name=pump"
    );
}

#[test]
fn log_query_cases() {
    assert_eq!(LogQuery { is_query_size: None }.query_str(), "");
    assert_eq!(LogQuery { is_query_size: Some(true) }.query_str(), "?is_query_size=true");
    assert_eq!(LogQuery { is_query_size: Some(false) }.query_str(), "?is_query_size=false");
}

fn read_back(s: &str, key: &str) -> Option<String> {
    if s.is_empty() {
        return None;
    }
    let mut found = None;
    for piece in s[1..].split('&') {
        if let Some(rest) = piece.strip_prefix(key) {
            if let Some(value) = rest.strip_prefix('=') {
                found = Some(value.to_string());
            }
        }
    }
    found
}

#[test]
fn his_query_reads_back_field_by_field() {
    let q = HisQuery {
        id: Some("3,4".to_string()),
        start: None,
        end: Some(99),
        date: None,
        source: Some(2),
        last_only: None,
        with_init: Some(true),
    };
    let s = q.query_str();
    assert_eq!(read_back(&s, "id"), Some("3,4".to_string()));
    assert_eq!(read_back(&s, "start"), None);
    assert_eq!(read_back(&s, "end"), Some("99".to_string()));
    assert_eq!(read_back(&s, "date"), None);
    assert_eq!(read_back(&s, "source"), Some("2".to_string()));
    assert_eq!(read_back(&s, "last_only"), None);
    assert_eq!(read_back(&s, "with_init"), Some("true".to_string()));
}

#[test]
fn set_point_and_points_and_log_read_back() {
    let q = HisSetPointQuery { date: Some("2024-05-06".to_string()), point_id: Some(8), ..set_point_none() };
    let s = q.query_str();
    assert_eq!(read_back(&s, "point_id"), Some("8".to_string()));
    assert_eq!(read_back(&s, "sender_id"), None);
    assert_eq!(read_back(&s, "date"), Some("2024-05-06".to_string()));
    let p = PointsQuery { id: None, name: Some("a=b".to_string()) };
    assert_eq!(read_back(&p.query_str(), "name"), Some("a=b".to_string()));
    assert_eq!(read_back(&LogQuery { is_query_size: None }.query_str(), "is_query_size"), None);
}

#[test]
fn distinct_queries_give_distinct_strings() {
    let a = HisQuery { start: Some(12), ..his_none() };
    let b = HisQuery { start: Some(1), end: Some(2), ..his_none() };
    let c = HisQuery { end: Some(12), ..his_none() };
    assert_ne!(a.query_str(), b.query_str());
    assert_ne!(a.query_str(), c.query_str());
    assert_ne!(b.query_str(), c.query_str());
}

#[test]
fn text_with_separator_can_read_as_another_field() {
    let q = HisQuery { id: Some("1&start=5".to_string()), ..his_none() };
    assert_eq!(read_back(&q.query_str(), "start"), Some("5".to_string()));
}
