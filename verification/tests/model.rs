use eig_db::model::{
    CommitNote, LccDevice, VersionData, VersionQuery, TAG_GROUP_POINT, TOPIC_REGISTER,
    TOPIC_WEB_REQUEST, TOPIC_WEB_RESPONSE, REGISTER_REALTIME_MSG_TOPIC, UPDATE_REALTIME_MSG_TOPIC,
    USER_ADMIN_ID,
};
use eig_db::query::HisQuery;

#[test]
fn topics_and_constants() {
    assert_eq!(TOPIC_REGISTER, "register");
    assert_eq!(TOPIC_WEB_REQUEST, "request");
    assert_eq!(TOPIC_WEB_RESPONSE, "response");
    assert_eq!(REGISTER_REALTIME_MSG_TOPIC, "registerRt");
    assert_eq!(UPDATE_REALTIME_MSG_TOPIC, "updateRt");
    assert_eq!(TAG_GROUP_POINT, 1);
    assert_eq!(USER_ADMIN_ID, 1);
}

#[test]
fn devices_and_queries_compare_by_fields() {
    let d = LccDevice {
        lcc_id: "lcc1".to_string(),
        name: "n".to_string(),
        desc: String::new(),
        ip: "10.0.0.1".to_string(),
        is_ems: false,
    };
    let mut e = d.clone();
    assert_eq!(d, e);
    e.is_ems = true;
    assert_ne!(d, e);
    let q = HisQuery { id: None, start: Some(1), end: None, date: None, source: None, last_only: None, with_init: None };
    assert_eq!(q.clone(), q);
}

#[test]
fn version_data_holds_note_and_data() {
    let v = VersionData {
        note: CommitNote { version: 3, note: "init".to_string(), tree_id: "abc".to_string() },
        data: vec![1u64, 2],
    };
    assert_eq!(v.note.version, 3);
    assert_eq!(v.data, vec![1, 2]);
    assert_eq!(VersionQuery { version: None }.version, None);
}
