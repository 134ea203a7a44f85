use artie::disc::{disc_info_of, AttributeMap, DiscInfo};
use artie::makemkv::{apply_message, Attribute, DiscAttribute, LineEffect, Message, Progress};

fn records_of(messages: Vec<Message>) -> Vec<DiscAttribute> {
    let mut progress = Progress::new();
    let mut records = Vec::new();
    for msg in messages {
        if let LineEffect::Record(record) = apply_message(&mut progress, msg) {
            records.push(record);
        }
    }
    records
}

#[test]
fn process_message_builds_disc_info() {
    let messages = vec![
        Message::Cinfo { id: Attribute::Name, code: 0, value: "Disc Name".to_owned() },
        Message::Tinfo { title_index: 0, id: Attribute::Name, code: 0, value: "Title Name".to_owned() },
        Message::Sinfo {
            title_index: 0,
            stream_index: 0,
            id: Attribute::Name,
            code: 0,
            value: "Stream Name".to_owned(),
        },
    ];
    let disc_info = disc_info_of(&records_of(messages));

    let disc_name = disc_info.attributes.get(Attribute::Name);
    assert_eq!(disc_name, Some(&"Disc Name".to_owned()));

    let title_info = disc_info.titles[0].as_ref().unwrap();
    let title_name = title_info.attributes.get(Attribute::Name);
    assert_eq!(title_name, Some(&"Title Name".to_owned()));

    let stream_info = title_info.streams[0].as_ref().unwrap();
    let stream_name = stream_info.attributes.get(Attribute::Name);
    assert_eq!(stream_name, Some(&"Stream Name".to_owned()));
}

#[test]
fn attribute_map_keeps_the_last_value() {
    let mut map = AttributeMap::new();
    assert_eq!(map.get(Attribute::Name), None);
    map.insert(Attribute::Name, String::from("First"));
    map.insert(Attribute::Duration, String::from("1:02:03"));
    map.insert(Attribute::Name, String::from("Second"));
    assert_eq!(map.get(Attribute::Name), Some(&String::from("Second")));
    assert_eq!(map.get(Attribute::Duration), Some(&String::from("1:02:03")));
    assert_eq!(map.get(Attribute::Type), None);
}

#[test]
fn disc_info_titles_and_streams_by_index() {
    let mut info = DiscInfo::new();
    info.add_stream_attribute(2, 1, Attribute::LangCode, String::from("eng"));
    info.add_title_attribute(0, Attribute::ChapterCount, String::from("12"));
    assert_eq!(info.titles.len(), 3);
    assert!(info.titles[1].is_none());
    let title0 = info.titles[0].as_ref().unwrap();
    assert_eq!(title0.attributes.get(Attribute::ChapterCount), Some(&String::from("12")));
    assert!(title0.streams.is_empty());
    let title2 = info.titles[2].as_ref().unwrap();
    assert_eq!(title2.attributes.get(Attribute::ChapterCount), None);
    assert_eq!(title2.streams.len(), 2);
    assert!(title2.streams[0].is_none());
    assert_eq!(
        title2.streams[1].as_ref().unwrap().attributes.get(Attribute::LangCode),
        Some(&String::from("eng"))
    );
}

#[test]
fn disc_info_passes_over_negative_indexes() {
    let records = vec![
        DiscAttribute::Title { title_index: -1, id: Attribute::Name, value: String::from("x") },
        DiscAttribute::Stream { title_index: 0, stream_index: -2, id: Attribute::Name, value: String::from("y") },
        DiscAttribute::Disc { id: Attribute::Type, value: String::from("Blu-ray disc") },
    ];
    let info = disc_info_of(&records);
    assert!(info.titles.is_empty());
    assert_eq!(info.attributes.get(Attribute::Type), Some(&String::from("Blu-ray disc")));
}
