use eve_sde_to_sqlite::record::{
    parse_junction_records, parse_record, to_camel_case, ParseError, SqlValue,
};
use eve_sde_to_sqlite::schema_types::{ArraySource, Column, ColumnType, ForeignKey, TableSchema};

fn simple_table(name: &str, columns: Vec<Column>) -> TableSchema {
    TableSchema {
        name: name.to_string(),
        source_file: format!("{}.jsonl", name),
        columns,
        foreign_keys: vec![],
        indexes: vec![],
        child_tables: vec![],
        array_source: None,
    }
}

fn junction_table(name: &str, columns: Vec<Column>, source: ArraySource) -> TableSchema {
    TableSchema {
        name: name.to_string(),
        source_file: format!("{}.jsonl", name),
        columns,
        foreign_keys: vec![],
        indexes: vec![],
        child_tables: vec![],
        array_source: Some(source),
    }
}

fn expect_int(value: Option<&SqlValue>) -> i64 {
    match value {
        Some(SqlValue::Integer(i)) => *i,
        other => panic!("expected an integer value, got {:?}", other),
    }
}

fn expect_text(value: Option<&SqlValue>) -> String {
    match value {
        Some(SqlValue::Text(s)) => s.clone(),
        other => panic!("expected a text value, got {:?}", other),
    }
}

fn is_null(value: Option<&SqlValue>) -> bool {
    matches!(value, Some(SqlValue::Null))
}

#[test]
fn test_to_camel_case() {
    assert_eq!(to_camel_case("group_id"), "groupID");
    assert_eq!(to_camel_case("category_id"), "categoryID");
    assert_eq!(to_camel_case("solar_system_id"), "solarSystemID");
    assert_eq!(to_camel_case("name"), "name");
    assert_eq!(to_camel_case("sof_faction_name"), "sofFactionName");
}

#[test]
fn test_to_camel_case_bare_id_suffix() {
    assert_eq!(to_camel_case("_id"), "ID");
    assert_eq!(to_camel_case("id"), "id");
}

#[test]
fn test_simple_junction_round_trip() {
    let schema = junction_table(
        "type_materials",
        vec![
            Column::required("type_id", ColumnType::Integer),
            Column::required("material_type_id", ColumnType::Integer),
            Column::required("quantity", ColumnType::Integer),
        ],
        ArraySource::Simple {
            array_field: "materials".to_string(),
            parent_id_column: "type_id".to_string(),
        },
    );
    let rows = parse_junction_records(
        "{\"_key\": 7, \"materials\": [{\"materialTypeID\": 34, \"quantity\": 10}]}",
        &schema,
    )
    .unwrap();
    assert_eq!(rows.len(), 1);
    assert_eq!(expect_int(rows[0].get("type_id")), 7);
    assert_eq!(expect_int(rows[0].get("material_type_id")), 34);
    assert_eq!(expect_int(rows[0].get("quantity")), 10);
}

#[test]
fn test_simple_int_array() {
    let schema = junction_table(
        "planet_schematic_pins",
        vec![
            Column::required("schematic_id", ColumnType::Integer),
            Column::required("pin_type_id", ColumnType::Integer),
        ],
        ArraySource::SimpleIntArray {
            array_field: "pins".to_string(),
            parent_id_column: "schematic_id".to_string(),
            value_column: "pin_type_id".to_string(),
        },
    );
    let rows =
        parse_junction_records("{\"_key\": 5, \"pins\": [100, 200]}", &schema).unwrap();
    assert_eq!(rows.len(), 2);
    assert_eq!(expect_int(rows[0].get("schematic_id")), 5);
    assert_eq!(expect_int(rows[0].get("pin_type_id")), 100);
    assert_eq!(expect_int(rows[1].get("schematic_id")), 5);
    assert_eq!(expect_int(rows[1].get("pin_type_id")), 200);
}

#[test]
fn test_localized_column_expansion() {
    let schema = simple_table(
        "categories",
        vec![
            Column::required("id", ColumnType::Integer),
            Column::new("name", ColumnType::Localized),
        ],
    );
    let row = parse_record(
        "{\"_key\":1, \"name\": {\"en\": \"Veldspar\", \"de\": \"Veldspar\"}}",
        &schema,
    )
    .unwrap();
    assert_eq!(expect_int(row.get("id")), 1);
    assert_eq!(expect_text(row.get("name_en")), "Veldspar");
    assert_eq!(expect_text(row.get("name_de")), "Veldspar");
    assert!(is_null(row.get("name_fr")));

    let absent = parse_record("{\"_key\":1}", &schema).unwrap();
    assert!(is_null(absent.get("name_en")));
    assert!(is_null(absent.get("name_de")));
}

#[test]
fn test_double_nested() {
    let schema = junction_table(
        "type_masteries",
        vec![
            Column::required("type_id", ColumnType::Integer),
            Column::required("mastery_level", ColumnType::Integer),
            Column::required("certificate_id", ColumnType::Integer),
        ],
        ArraySource::DoubleNested {
            parent_id_column: "type_id".to_string(),
            level_key_column: "mastery_level".to_string(),
        },
    );
    let rows = parse_junction_records(
        "{\"_key\": 9, \"_value\": [{\"_key\": 0, \"_value\": [11, 22]}]}",
        &schema,
    )
    .unwrap();
    assert_eq!(rows.len(), 2);
    assert_eq!(expect_int(rows[0].get("type_id")), 9);
    assert_eq!(expect_int(rows[0].get("mastery_level")), 0);
    assert_eq!(expect_int(rows[0].get("certificate_id")), 11);
    assert_eq!(expect_int(rows[1].get("type_id")), 9);
    assert_eq!(expect_int(rows[1].get("mastery_level")), 0);
    assert_eq!(expect_int(rows[1].get("certificate_id")), 22);
}

#[test]
fn test_nested_key_value() {
    let schema = junction_table(
        "type_trait_bonuses",
        vec![
            Column::required("type_id", ColumnType::Integer),
            Column::required("skill_type_id", ColumnType::Integer),
            Column::new("bonus", ColumnType::Integer),
        ],
        ArraySource::NestedKeyValue {
            array_field: "types".to_string(),
            parent_id_column: "type_id".to_string(),
            nested_key_column: "skill_type_id".to_string(),
        },
    );
    let rows = parse_junction_records(
        "{\"_key\": 3, \"types\": [{\"_key\": 44, \"_value\": [{\"bonus\": 5}]}]}",
        &schema,
    )
    .unwrap();
    assert_eq!(rows.len(), 1);
    assert_eq!(expect_int(rows[0].get("type_id")), 3);
    assert_eq!(expect_int(rows[0].get("skill_type_id")), 44);
    assert_eq!(expect_int(rows[0].get("bonus")), 5);
}

#[test]
fn test_blueprint_activity() {
    let schema = junction_table(
        "blueprint_materials",
        vec![
            Column::required("blueprint_id", ColumnType::Integer),
            Column::required("activity", ColumnType::Text),
            Column::new("type_id", ColumnType::Integer),
            Column::new("quantity", ColumnType::Integer),
        ],
        ArraySource::BlueprintActivity {
            activity_column: "activity".to_string(),
            array_field: "materials".to_string(),
        },
    );
    let rows = parse_junction_records(
        "{\"blueprintTypeID\": 12, \"activities\": {\"manufacturing\": {\"materials\": [{\"typeID\": 34, \"quantity\": 2}]}}}",
        &schema,
    )
    .unwrap();
    assert_eq!(rows.len(), 1);
    assert_eq!(expect_int(rows[0].get("blueprint_id")), 12);
    assert_eq!(expect_text(rows[0].get("activity")), "manufacturing");
    assert_eq!(expect_int(rows[0].get("type_id")), 34);
    assert_eq!(expect_int(rows[0].get("quantity")), 2);
}

#[test]
fn test_blueprint_key_fallback() {
    let schema = junction_table(
        "blueprint_materials",
        vec![
            Column::required("blueprint_id", ColumnType::Integer),
            Column::required("activity", ColumnType::Text),
            Column::new("type_id", ColumnType::Integer),
        ],
        ArraySource::BlueprintActivity {
            activity_column: "activity".to_string(),
            array_field: "materials".to_string(),
        },
    );
    let rows = parse_junction_records(
        "{\"_key\": 55, \"activities\": {\"copying\": {\"materials\": [{\"typeID\": 1}]}}}",
        &schema,
    )
    .unwrap();
    assert_eq!(rows.len(), 1);
    assert_eq!(expect_int(rows[0].get("blueprint_id")), 55);
}

#[test]
fn test_boolean_coercion() {
    let schema = simple_table(
        "categories",
        vec![
            Column::required("id", ColumnType::Integer),
            Column::new("published", ColumnType::Boolean),
        ],
    );
    let yes = parse_record("{\"_key\":1, \"published\": true}", &schema).unwrap();
    assert_eq!(expect_int(yes.get("published")), 1);
    let no = parse_record("{\"_key\":2, \"published\": false}", &schema).unwrap();
    assert_eq!(expect_int(no.get("published")), 0);
    let number = parse_record("{\"_key\":3, \"published\": 1}", &schema).unwrap();
    assert!(is_null(number.get("published")));
    let text = parse_record("{\"_key\":4, \"published\": \"yes\"}", &schema).unwrap();
    assert!(is_null(text.get("published")));
    let null = parse_record("{\"_key\":5, \"published\": null}", &schema).unwrap();
    assert!(is_null(null.get("published")));
}

#[test]
fn test_type_mismatches_degrade_to_null() {
    let schema = simple_table(
        "dogma_units",
        vec![
            Column::required("id", ColumnType::Integer),
            Column::new("name", ColumnType::Text),
            Column::new("value", ColumnType::Real),
        ],
    );
    let row = parse_record("{\"_key\":\"seven\", \"name\": 3, \"value\": \"x\"}", &schema)
        .unwrap();
    assert!(is_null(row.get("id")));
    assert!(is_null(row.get("name")));
    assert!(is_null(row.get("value")));
}

#[test]
fn test_real_column_values() {
    let schema = simple_table(
        "dogma_attributes",
        vec![
            Column::required("id", ColumnType::Integer),
            Column::new("default_value", ColumnType::Real),
        ],
    );
    let fractional = parse_record("{\"_key\":1, \"defaultValue\": 1.5}", &schema).unwrap();
    match fractional.get("default_value") {
        Some(SqlValue::Real(s)) => assert_eq!(s.parse::<f64>().unwrap(), 1.5),
        other => panic!("expected a real value, got {:?}", other),
    }
    let whole = parse_record("{\"_key\":2, \"defaultValue\": 4}", &schema).unwrap();
    match whole.get("default_value") {
        Some(SqlValue::Real(s)) => assert_eq!(s.parse::<f64>().unwrap(), 4.0),
        other => panic!("expected a real value, got {:?}", other),
    }
}

#[test]
fn test_json_column_serializes_subtree() {
    let schema = simple_table(
        "graphics",
        vec![
            Column::required("id", ColumnType::Integer),
            Column::new("layout", ColumnType::Json),
        ],
    );
    let row = parse_record("{\"_key\":1, \"layout\": {\"a\": [1, 2]}}", &schema).unwrap();
    let text = expect_text(row.get("layout"));
    let reparsed: serde_json::Value = serde_json::from_str(&text).unwrap();
    assert_eq!(reparsed, serde_json::from_str::<serde_json::Value>("{\"a\":[1,2]}").unwrap());
}

#[test]
fn test_simple_record_honors_json_field_override() {
    let schema = simple_table(
        "stations",
        vec![
            Column::required("id", ColumnType::Integer),
            Column::new("owner", ColumnType::Integer).json("ownerID"),
        ],
    );
    let row = parse_record("{\"_key\": 3, \"ownerID\": 99}", &schema).unwrap();
    assert_eq!(expect_int(row.get("id")), 3);
    assert_eq!(expect_int(row.get("owner")), 99);
}

#[test]
fn test_parse_errors() {
    let schema = simple_table("categories", vec![Column::required("id", ColumnType::Integer)]);
    assert_eq!(parse_record("not json", &schema).unwrap_err(), ParseError::MalformedJson);

    let junction = junction_table(
        "type_materials",
        vec![Column::required("type_id", ColumnType::Integer)],
        ArraySource::Simple {
            array_field: "materials".to_string(),
            parent_id_column: "type_id".to_string(),
        },
    );
    assert_eq!(
        parse_junction_records("{\"materials\": []}", &junction).unwrap_err(),
        ParseError::MissingKey
    );
    assert_eq!(
        parse_junction_records("{", &junction).unwrap_err(),
        ParseError::MalformedJson
    );
    assert_eq!(
        parse_junction_records("{\"_key\": 1}", &schema).unwrap_err(),
        ParseError::NoArraySource
    );

    let blueprint = junction_table(
        "blueprint_materials",
        vec![Column::required("blueprint_id", ColumnType::Integer)],
        ArraySource::BlueprintActivity {
            activity_column: "activity".to_string(),
            array_field: "materials".to_string(),
        },
    );
    assert_eq!(
        parse_junction_records("{\"activities\": {}}", &blueprint).unwrap_err(),
        ParseError::MissingBlueprintKey
    );
}

#[test]
fn test_missing_array_yields_no_rows() {
    let junction = junction_table(
        "type_materials",
        vec![Column::required("type_id", ColumnType::Integer)],
        ArraySource::Simple {
            array_field: "materials".to_string(),
            parent_id_column: "type_id".to_string(),
        },
    );
    let rows = parse_junction_records("{\"_key\": 1}", &junction).unwrap();
    assert!(rows.is_empty());
    let non_array = parse_junction_records("{\"_key\": 1, \"materials\": 3}", &junction).unwrap();
    assert!(non_array.is_empty());
}

#[test]
fn test_explicit_json_field_override() {
    let schema = junction_table(
        "dynamic_item_attributes",
        vec![
            Column::required("type_id", ColumnType::Integer),
            Column::new("min", ColumnType::Real).json("min"),
            Column::new("max", ColumnType::Real).json("max"),
        ],
        ArraySource::Simple {
            array_field: "attributeIDs".to_string(),
            parent_id_column: "type_id".to_string(),
        },
    );
    let rows = parse_junction_records(
        "{\"_key\": 8, \"attributeIDs\": [{\"min\": 1.25, \"max\": 2.5}]}",
        &schema,
    )
    .unwrap();
    assert_eq!(rows.len(), 1);
    match rows[0].get("min") {
        Some(SqlValue::Real(s)) => assert_eq!(s.parse::<f64>().unwrap(), 1.25),
        other => panic!("expected a real value, got {:?}", other),
    }
}
