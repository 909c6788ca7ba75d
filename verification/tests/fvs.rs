use fvs_notify::calendar::LocalDateTime;
use fvs_notify::fvs::{FvsPublishMessage, FvsPublishMessageRelatedPlugin, FvsPublishMessageResult};

fn plugin(version: &str) -> FvsPublishMessageRelatedPlugin {
    FvsPublishMessageRelatedPlugin {
        pluginid: "id".to_string(),
        name: "FineVis".to_string(),
        upload_time: LocalDateTime::new(2024, 3, 4, 0, 0, 0).unwrap(),
        pluginversion: version.to_string(),
        jartime: LocalDateTime::new(2024, 3, 5, 0, 0, 0).unwrap(),
        changenotes: String::new(),
        pic: String::new(),
    }
}

fn answer(related_plugins: Vec<FvsPublishMessageRelatedPlugin>) -> FvsPublishMessage {
    FvsPublishMessage {
        state: "ok".to_string(),
        result: FvsPublishMessageResult {
            id: "id".to_string(),
            name: "FineVis".to_string(),
            related_plugins,
        },
    }
}

#[test]
fn latest_is_the_first_listed_version() {
    let message = answer(vec![plugin("5.1"), plugin("5.0")]);
    assert_eq!(message.latest(), Some(&plugin("5.1")));
    let single = answer(vec![plugin("1.0")]);
    assert_eq!(single.latest().unwrap().pluginversion, "1.0");
}

#[test]
fn latest_of_an_empty_listing_is_none() {
    assert_eq!(answer(Vec::new()).latest(), None);
}
