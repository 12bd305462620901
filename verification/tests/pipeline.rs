use eve_sde_to_sqlite::cache::CacheManager;
use eve_sde_to_sqlite::client::format_bytes;
use eve_sde_to_sqlite::dependencies::DependencyResolver;
use eve_sde_to_sqlite::extract::jsonl_entry_name;
use eve_sde_to_sqlite::filter::resolve_tables;
use eve_sde_to_sqlite::schema_gen::{generate_create_table, generate_indexes, get_column_names};
use eve_sde_to_sqlite::tables::{get_table, table_names};
use eve_sde_to_sqlite::ui::{LogPanel, Phase, Progress, SilentUi, StatusPanel};
use eve_sde_to_sqlite::writer::SqliteWriter;

#[test]
fn test_format_bytes() {
    assert_eq!(format_bytes(500, 999), "500 B / 999 B");
    assert_eq!(format_bytes(1500, 3000), "1.5 KB / 3.0 KB");
    assert_eq!(format_bytes(1_500_000, 3_000_000), "1.5 MB / 3.0 MB");
}

#[test]
fn test_format_bytes_edges() {
    assert_eq!(format_bytes(0, 0), "0 B / 0 B");
    assert_eq!(format_bytes(2_500_000_000, 2_500_000_000), "2.5 GB / 2.5 GB");
}

#[test]
fn test_resolve_types_includes_parents() {
    let resolver = DependencyResolver::new();
    let tables = resolver.resolve_includes(&vec!["types".to_string()]).unwrap();
    let names: Vec<String> = tables.iter().map(|t| t.name.clone()).collect();

    assert!(names.contains(&"types".to_string()));
    assert!(names.contains(&"groups".to_string()));
    assert!(names.contains(&"categories".to_string()));

    let types_pos = names.iter().position(|n| n == "types").unwrap();
    let groups_pos = names.iter().position(|n| n == "groups").unwrap();
    let categories_pos = names.iter().position(|n| n == "categories").unwrap();

    assert!(categories_pos < groups_pos);
    assert!(groups_pos < types_pos);
}

#[test]
fn test_unknown_table_error() {
    let resolver = DependencyResolver::new();
    let result = resolver.resolve_includes(&vec!["nonexistent".to_string()]);
    assert!(result.is_err());
}

#[test]
fn test_resolve_includes_pulls_child_tables() {
    let resolver = DependencyResolver::new();
    let tables = resolver.resolve_includes(&vec!["planet_schematics".to_string()]).unwrap();
    let names: Vec<String> = tables.iter().map(|t| t.name.clone()).collect();
    assert!(names.contains(&"planet_schematic_pins".to_string()));
    assert!(names.contains(&"planet_schematic_types".to_string()));
}

#[test]
fn test_resolve_excludes_shallow_cascade() {
    let resolver = DependencyResolver::new();
    let tables = resolver.resolve_excludes(&vec!["categories".to_string()]).unwrap();
    let names: Vec<String> = tables.iter().map(|t| t.name.clone()).collect();
    // the excluded table and its direct dependants are gone
    assert!(!names.contains(&"categories".to_string()));
    assert!(!names.contains(&"groups".to_string()));
    // the cascade is shallow: a table whose parent was dropped only because
    // of the exclusion still stays
    assert!(names.contains(&"icons".to_string()));
}

#[test]
fn test_resolve_excludes_unknown_name() {
    let resolver = DependencyResolver::new();
    assert!(resolver.resolve_excludes(&vec!["nope".to_string()]).is_err());
}

#[test]
fn test_resolver_output_is_topologically_ordered() {
    let resolver = DependencyResolver::new();
    let tables = resolver.resolve_excludes(&vec![]).unwrap();
    let names: Vec<String> = tables.iter().map(|t| t.name.clone()).collect();
    for (p, t) in tables.iter().enumerate() {
        for fk in &t.foreign_keys {
            if fk.references_table != t.name {
                if let Some(q) = names.iter().position(|n| *n == fk.references_table) {
                    assert!(q < p, "{} must precede {}", fk.references_table, t.name);
                }
            }
        }
    }
}

#[test]
fn test_resolve_tables_rejects_both_filters() {
    let r = resolve_tables(Some(vec!["types".to_string()]), Some(vec!["icons".to_string()]));
    assert!(r.is_err());
}

#[test]
fn test_resolve_tables_defaults_to_all() {
    let all = resolve_tables(None, None).unwrap();
    assert_eq!(all.len(), table_names().len());
    // the registry's own order already respects foreign keys
    let names: Vec<String> = all.iter().map(|t| t.name.clone()).collect();
    for (p, t) in all.iter().enumerate() {
        for fk in &t.foreign_keys {
            if fk.references_table != t.name {
                let q = names.iter().position(|n| *n == fk.references_table).unwrap();
                assert!(q < p, "{} must precede {}", fk.references_table, t.name);
            }
        }
    }
}

#[test]
fn test_generate_create_table() {
    let sql = generate_create_table(&get_table("types").unwrap());
    assert!(sql.contains("CREATE TABLE types"));
    assert!(sql.contains("id INTEGER PRIMARY KEY"));
    assert!(sql.contains("name_en TEXT"));
    assert!(sql.contains("name_de TEXT"));
    assert!(sql.contains("FOREIGN KEY (group_id) REFERENCES groups(id)"));
}

#[test]
fn test_generate_indexes() {
    let indexes = generate_indexes(&get_table("types").unwrap());
    assert!(indexes.iter().any(|i| i.contains("idx_types_group_id")));
}

#[test]
fn test_generate_indexes_composite_for_junctions() {
    let indexes = generate_indexes(&get_table("type_materials").unwrap());
    assert!(indexes.iter().any(|i| i.contains("CREATE UNIQUE INDEX idx_type_materials_composite")));
}

#[test]
fn test_get_column_names_expands_localized() {
    let names = get_column_names(&get_table("categories").unwrap());
    assert!(names.contains(&"id".to_string()));
    assert!(names.contains(&"name_en".to_string()));
    assert!(names.contains(&"name_zh".to_string()));
    assert!(!names.contains(&"name".to_string()));
}

#[test]
fn test_get_table_and_names() {
    assert!(get_table("types").is_some());
    assert!(get_table("no_such_table").is_none());
    let names = table_names();
    assert!(names.len() > 50);
    assert!(names.contains(&"blueprints".to_string()));
}

#[test]
fn test_import_lines_counts_and_stores_rows() {
    let mut ui = SilentUi::new();
    let mut writer = SqliteWriter::new(":memory:").unwrap();
    let resolver = DependencyResolver::new();
    let tables = resolver.resolve_includes(&vec!["categories".to_string()]).unwrap();
    writer.create_tables(&tables, &mut ui).unwrap();

    let schema = get_table("categories").unwrap();
    let lines = vec![
        "{\"_key\":1, \"name\": {\"en\": \"Ship\"}, \"published\": true}".to_string(),
        "".to_string(),
        "{\"_key\":2, \"name\": {\"en\": \"Module\"}, \"published\": false}".to_string(),
    ];
    let count = writer.import_lines(&schema, &lines, 3, &mut ui).unwrap();
    assert_eq!(count, 2);

    let stored: i64 = writer
        .conn
        .query_row("SELECT COUNT(*) FROM categories", [], |r| r.get(0))
        .unwrap();
    assert_eq!(stored, 2);
    let name: String = writer
        .conn
        .query_row("SELECT name_en FROM categories WHERE id = 1", [], |r| r.get(0))
        .unwrap();
    assert_eq!(name, "Ship");
    let published: i64 = writer
        .conn
        .query_row("SELECT published FROM categories WHERE id = 2", [], |r| r.get(0))
        .unwrap();
    assert_eq!(published, 0);
}

#[test]
fn test_import_lines_junction_rows() {
    let mut ui = SilentUi::new();
    let mut writer = SqliteWriter::new(":memory:").unwrap();
    let schema = get_table("planet_schematic_pins").unwrap();
    let sql = generate_create_table(&schema);
    writer.conn.execute(&sql, []).unwrap();

    let lines = vec!["{\"_key\": 5, \"pins\": [100, 200]}".to_string()];
    let count = writer.import_lines(&schema, &lines, 1, &mut ui).unwrap();
    assert_eq!(count, 2);
    let stored: i64 = writer
        .conn
        .query_row("SELECT COUNT(*) FROM planet_schematic_pins WHERE schematic_id = 5", [], |r| {
            r.get(0)
        })
        .unwrap();
    assert_eq!(stored, 2);
}

#[test]
fn test_import_lines_rejects_bad_line() {
    let mut ui = SilentUi::new();
    let mut writer = SqliteWriter::new(":memory:").unwrap();
    let schema = get_table("categories").unwrap();
    let sql = generate_create_table(&schema);
    writer.conn.execute(&sql, []).unwrap();
    let lines = vec!["{\"_key\":1}".to_string(), "oops".to_string()];
    assert!(writer.import_lines(&schema, &lines, 2, &mut ui).is_err());
}

#[test]
fn test_import_real_values_stored_as_numbers() {
    let mut ui = SilentUi::new();
    let mut writer = SqliteWriter::new(":memory:").unwrap();
    let schema = get_table("type_dogma_attributes").unwrap();
    let sql = generate_create_table(&schema);
    writer.conn.execute(&sql, []).unwrap();
    let lines = vec![
        "{\"_key\": 9, \"dogmaAttributes\": [{\"attributeID\": 4, \"value\": 2.5}]}".to_string(),
    ];
    let count = writer.import_lines(&schema, &lines, 1, &mut ui).unwrap();
    assert_eq!(count, 1);
    let value: f64 = writer
        .conn
        .query_row(
            "SELECT value FROM type_dogma_attributes WHERE type_id = 9 AND attribute_id = 4",
            [],
            |r| r.get(0),
        )
        .unwrap();
    assert_eq!(value, 2.5);
}

#[test]
fn test_resolve_includes_empty_request() {
    let resolver = DependencyResolver::new();
    let tables = resolver.resolve_includes(&vec![]).unwrap();
    assert!(tables.is_empty());
}

#[test]
fn test_repeated_import_same_counts() {
    let lines = vec![
        "{\"_key\": 5, \"pins\": [100, 200, 300]}".to_string(),
        "{\"_key\": 6, \"pins\": [7]}".to_string(),
    ];
    let schema = get_table("planet_schematic_pins").unwrap();
    let mut counts = Vec::new();
    for _ in 0..2 {
        let mut ui = SilentUi::new();
        let mut writer = SqliteWriter::new(":memory:").unwrap();
        let sql = generate_create_table(&schema);
        writer.conn.execute(&sql, []).unwrap();
        counts.push(writer.import_lines(&schema, &lines, 2, &mut ui).unwrap());
    }
    assert_eq!(counts[0], counts[1]);
    assert_eq!(counts[0], 4);
}

#[test]
fn test_dependencies_exclude_self_references() {
    let market_groups = get_table("market_groups").unwrap();
    let deps = market_groups.dependencies();
    assert!(!deps.contains(&"market_groups".to_string()));
}

#[test]
fn test_blank_lines_skipped_including_unicode_whitespace() {
    let mut ui = SilentUi::new();
    let mut writer = SqliteWriter::new(":memory:").unwrap();
    let schema = get_table("icons").unwrap();
    let sql = generate_create_table(&schema);
    writer.conn.execute(&sql, []).unwrap();
    let lines = vec![
        "{\"_key\": 1}".to_string(),
        "  \t".to_string(),
        "\u{a0}\u{3000}".to_string(),
        "{\"_key\": 2}".to_string(),
    ];
    let count = writer.import_lines(&schema, &lines, 4, &mut ui).unwrap();
    assert_eq!(count, 2);
}

#[test]
fn test_jsonl_entry_name() {
    assert_eq!(jsonl_entry_name("fsd/types.jsonl"), Some("types.jsonl".to_string()));
    assert_eq!(jsonl_entry_name("types.jsonl"), Some("types.jsonl".to_string()));
    assert_eq!(jsonl_entry_name("fsd/readme.txt"), None);
    assert_eq!(jsonl_entry_name("fsd/"), None);
}

#[test]
fn test_cache_paths() {
    let cache = CacheManager::from_dir("/tmp/sde-cache");
    assert_eq!(cache.cache_dir().as_str(), "/tmp/sde-cache");
    assert_eq!(cache.build_dir(12345), "/tmp/sde-cache/12345");
    assert_eq!(cache.zip_path(12345), "/tmp/sde-cache/12345.zip");
}

#[test]
fn test_ui_state() {
    assert_eq!(Phase::Converting.label(), "Converting to SQLite");
    let p = Progress::new(3, 10, "tables");
    assert_eq!(p.current, 3);
    assert_eq!(p.total, 10);
    assert_eq!(p.label, "tables");

    let mut status = StatusPanel::new();
    assert_eq!(status.phase, Phase::Checking);
    status.set_phase(Phase::Complete);
    status.set_info("done");
    assert_eq!(status.phase, Phase::Complete);
    assert_eq!(status.info, "done");

    let mut log = LogPanel::new();
    for i in 0..105 {
        log.add(&format!("line {}", i));
    }
    assert_eq!(log.entries.len(), 100);
    assert_eq!(log.entries[0], "line 5");
    assert_eq!(log.entries[99], "line 104");
}
