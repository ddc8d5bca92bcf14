use micropolis_core::city::meta::{CityMetadata, XmlEvent};

#[test]
fn test_city_metadata_deserialization() {
    let meta_xml = r#"
            <metaCity>
                <title>Wet City</title>
                <description>The city of "Wet City".</description>
                <saveFileName>wetcity.cty</saveFileName>
                <readOnly>true</readOnly>
            </metaCity>
        "#;
    let result = CityMetadata::decode_from_xml(meta_xml);
    assert_eq!(result.is_ok(), true);
    assert_eq!(
        result.unwrap(),
        CityMetadata {
            title: "Wet City".into(),
            description: "The city of \"Wet City\".".into(),
            save_file_name: "wetcity.cty".into(),
            is_read_only: true,
        }
    )
}

#[test]
fn test_city_metadata_serialization() {
    let metadata = CityMetadata {
        title: "Happy Isle".into(),
        description: "The city of \"Happy Isle\".".into(),
        save_file_name: "happisle.cty".into(),
        is_read_only: true,
    };
    let expected = r#"<metaCity>
    <title>Happy Isle</title>
    <description>The city of "Happy Isle".</description>
    <saveFileName>happisle.cty</saveFileName>
    <readOnly>true</readOnly>
</metaCity>"#;
    assert_eq!(metadata.encode_to_xml(), expected);
}

#[test]
fn metadata_round_trip_through_xml() {
    let metadata = CityMetadata {
        title: "Bern".into(),
        description: "Traffic jams".into(),
        save_file_name: "bern.cty".into(),
        is_read_only: false,
    };
    let decoded = CityMetadata::decode_from_xml(&metadata.encode_to_xml()).unwrap();
    assert_eq!(decoded, metadata);
}

#[test]
fn metadata_missing_property_is_an_error() {
    let meta_xml = "<metaCity><title>A</title><description>B</description></metaCity>";
    assert!(CityMetadata::decode_from_xml(meta_xml).is_err());
}

#[test]
fn metadata_bad_read_only_value_is_an_error() {
    let meta_xml = "<metaCity><title>A</title><description>B</description>\
        <saveFileName>c</saveFileName><readOnly>maybe</readOnly></metaCity>";
    assert!(CityMetadata::decode_from_xml(meta_xml).is_err());
}

#[test]
fn metadata_events_decode() {
    let events = vec![
        XmlEvent::Start("metaCity".to_string()),
        XmlEvent::Start("title".to_string()),
        XmlEvent::Text("T".to_string()),
        XmlEvent::Other,
        XmlEvent::Start("description".to_string()),
        XmlEvent::Text("D".to_string()),
        XmlEvent::Other,
        XmlEvent::Start("saveFileName".to_string()),
        XmlEvent::Text("f.cty".to_string()),
        XmlEvent::Other,
        XmlEvent::Start("readOnly".to_string()),
        XmlEvent::Text("false".to_string()),
        XmlEvent::Other,
        XmlEvent::Other,
        XmlEvent::Eof,
    ];
    let decoded = CityMetadata::decode_events(&events).unwrap();
    assert_eq!(decoded.get_title(), "T");
    assert_eq!(decoded.get_description(), "D");
    assert_eq!(decoded.get_save_file_name(), "f.cty");
    assert_eq!(decoded.get_is_read_only(), false);
}
