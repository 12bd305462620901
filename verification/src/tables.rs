//! The static registry of every output table, in an order that already
//! respects foreign-key dependencies, mirrored by a specification-level
//! registry that contracts can quantify over.

use vstd::prelude::*;

use crate::schema_types::{
    owned_strings, schema_view, ArraySource, ArraySourceV, Column, ColumnType, ColumnV,
    ForeignKey, ForeignKeyV, Index, IndexV, TableSchema, TableSchemaV,
};

verus! {

pub open spec fn spec_t_categories() -> TableSchemaV {
    TableSchemaV {
        name: "categories"@,
        source_file: "categories.jsonl"@,
        columns: seq![
            ColumnV { name: "id"@, col_type: ColumnType::Integer, nullable: false, json_field: None },
            ColumnV { name: "name"@, col_type: ColumnType::Localized, nullable: true, json_field: None },
            ColumnV { name: "published"@, col_type: ColumnType::Boolean, nullable: true, json_field: None },
        ],
        foreign_keys: seq![],
        indexes: seq![
            IndexV { columns: seq!["name_en"@], unique: false },
            IndexV { columns: seq!["published"@], unique: false },
        ],
        child_tables: seq![],
        array_source: None,
    }
}

fn t_categories() -> (t: TableSchema)
    ensures
        schema_view(t) == spec_t_categories(),
{
    let t = TableSchema {
        name: "categories".to_owned(),
        source_file: "categories.jsonl".to_owned(),
        columns: vec![
            Column::required("id", ColumnType::Integer),
            Column::new("name", ColumnType::Localized),
            Column::new("published", ColumnType::Boolean),
        ],
        foreign_keys: vec![],
        indexes: vec![
            Index::on(&["name_en"]),
            Index::on(&["published"]),
        ],
        child_tables: owned_strings(&[]),
        array_source: None,
    };
    proof {
        assert(schema_view(t).columns =~= spec_t_categories().columns);
        assert(schema_view(t).foreign_keys =~= spec_t_categories().foreign_keys);
        assert(schema_view(t).indexes[0].columns =~= spec_t_categories().indexes[0].columns);
        assert(schema_view(t).indexes[1].columns =~= spec_t_categories().indexes[1].columns);
        assert(schema_view(t).indexes =~= spec_t_categories().indexes);
        assert(schema_view(t).child_tables =~= spec_t_categories().child_tables);
        assert(schema_view(t) == spec_t_categories());
    }
    t
}

pub open spec fn spec_t_dogma_attribute_categories() -> TableSchemaV {
    TableSchemaV {
        name: "dogma_attribute_categories"@,
        source_file: "dogmaAttributeCategories.jsonl"@,
        columns: seq![
            ColumnV { name: "id"@, col_type: ColumnType::Integer, nullable: false, json_field: None },
            ColumnV { name: "description"@, col_type: ColumnType::Text, nullable: true, json_field: None },
            ColumnV { name: "name"@, col_type: ColumnType::Text, nullable: true, json_field: None },
        ],
        foreign_keys: seq![],
        indexes: seq![
            IndexV { columns: seq!["name"@], unique: false },
        ],
        child_tables: seq![],
        array_source: None,
    }
}

fn t_dogma_attribute_categories() -> (t: TableSchema)
    ensures
        schema_view(t) == spec_t_dogma_attribute_categories(),
{
    let t = TableSchema {
        name: "dogma_attribute_categories".to_owned(),
        source_file: "dogmaAttributeCategories.jsonl".to_owned(),
        columns: vec![
            Column::required("id", ColumnType::Integer),
            Column::new("description", ColumnType::Text),
            Column::new("name", ColumnType::Text),
        ],
        foreign_keys: vec![],
        indexes: vec![
            Index::on(&["name"]),
        ],
        child_tables: owned_strings(&[]),
        array_source: None,
    };
    proof {
        assert(schema_view(t).columns =~= spec_t_dogma_attribute_categories().columns);
        assert(schema_view(t).foreign_keys =~= spec_t_dogma_attribute_categories().foreign_keys);
        assert(schema_view(t).indexes[0].columns =~= spec_t_dogma_attribute_categories().indexes[0].columns);
        assert(schema_view(t).indexes =~= spec_t_dogma_attribute_categories().indexes);
        assert(schema_view(t).child_tables =~= spec_t_dogma_attribute_categories().child_tables);
        assert(schema_view(t) == spec_t_dogma_attribute_categories());
    }
    t
}

pub open spec fn spec_t_dogma_units() -> TableSchemaV {
    TableSchemaV {
        name: "dogma_units"@,
        source_file: "dogmaUnits.jsonl"@,
        columns: seq![
            ColumnV { name: "id"@, col_type: ColumnType::Integer, nullable: false, json_field: None },
            ColumnV { name: "description"@, col_type: ColumnType::Text, nullable: true, json_field: None },
            ColumnV { name: "display_name"@, col_type: ColumnType::Text, nullable: true, json_field: None },
            ColumnV { name: "name"@, col_type: ColumnType::Text, nullable: true, json_field: None },
        ],
        foreign_keys: seq![],
        indexes: seq![
            IndexV { columns: seq!["name"@], unique: false },
        ],
        child_tables: seq![],
        array_source: None,
    }
}

fn t_dogma_units() -> (t: TableSchema)
    ensures
        schema_view(t) == spec_t_dogma_units(),
{
    let t = TableSchema {
        name: "dogma_units".to_owned(),
        source_file: "dogmaUnits.jsonl".to_owned(),
        columns: vec![
            Column::required("id", ColumnType::Integer),
            Column::new("description", ColumnType::Text),
            Column::new("display_name", ColumnType::Text),
            Column::new("name", ColumnType::Text),
        ],
        foreign_keys: vec![],
        indexes: vec![
            Index::on(&["name"]),
        ],
        child_tables: owned_strings(&[]),
        array_source: None,
    };
    proof {
        assert(schema_view(t).columns =~= spec_t_dogma_units().columns);
        assert(schema_view(t).foreign_keys =~= spec_t_dogma_units().foreign_keys);
        assert(schema_view(t).indexes[0].columns =~= spec_t_dogma_units().indexes[0].columns);
        assert(schema_view(t).indexes =~= spec_t_dogma_units().indexes);
        assert(schema_view(t).child_tables =~= spec_t_dogma_units().child_tables);
        assert(schema_view(t) == spec_t_dogma_units());
    }
    t
}

pub open spec fn spec_t_icons() -> TableSchemaV {
    TableSchemaV {
        name: "icons"@,
        source_file: "icons.jsonl"@,
        columns: seq![
            ColumnV { name: "id"@, col_type: ColumnType::Integer, nullable: false, json_field: None },
            ColumnV { name: "description"@, col_type: ColumnType::Text, nullable: true, json_field: None },
            ColumnV { name: "icon_file"@, col_type: ColumnType::Text, nullable: true, json_field: None },
        ],
        foreign_keys: seq![],
        indexes: seq![],
        child_tables: seq![],
        array_source: None,
    }
}

fn t_icons() -> (t: TableSchema)
    ensures
        schema_view(t) == spec_t_icons(),
{
    let t = TableSchema {
        name: "icons".to_owned(),
        source_file: "icons.jsonl".to_owned(),
        columns: vec![
            Column::required("id", ColumnType::Integer),
            Column::new("description", ColumnType::Text),
            Column::new("icon_file", ColumnType::Text),
        ],
        foreign_keys: vec![],
        indexes: vec![],
        child_tables: owned_strings(&[]),
        array_source: None,
    };
    proof {
        assert(schema_view(t).columns =~= spec_t_icons().columns);
        assert(schema_view(t).foreign_keys =~= spec_t_icons().foreign_keys);
        assert(schema_view(t).indexes =~= spec_t_icons().indexes);
        assert(schema_view(t).child_tables =~= spec_t_icons().child_tables);
        assert(schema_view(t) == spec_t_icons());
    }
    t
}

pub open spec fn spec_t_graphics() -> TableSchemaV {
    TableSchemaV {
        name: "graphics"@,
        source_file: "graphics.jsonl"@,
        columns: seq![
            ColumnV { name: "id"@, col_type: ColumnType::Integer, nullable: false, json_field: None },
            ColumnV { name: "description"@, col_type: ColumnType::Text, nullable: true, json_field: None },
            ColumnV { name: "graphic_file"@, col_type: ColumnType::Text, nullable: true, json_field: None },
            ColumnV { name: "sof_faction_name"@, col_type: ColumnType::Text, nullable: true, json_field: None },
            ColumnV { name: "sof_hull_name"@, col_type: ColumnType::Text, nullable: true, json_field: None },
            ColumnV { name: "sof_race_name"@, col_type: ColumnType::Text, nullable: true, json_field: None },
        ],
        foreign_keys: seq![],
        indexes: seq![],
        child_tables: seq![],
        array_source: None,
    }
}

fn t_graphics() -> (t: TableSchema)
    ensures
        schema_view(t) == spec_t_graphics(),
{
    let t = TableSchema {
        name: "graphics".to_owned(),
        source_file: "graphics.jsonl".to_owned(),
        columns: vec![
            Column::required("id", ColumnType::Integer),
            Column::new("description", ColumnType::Text),
            Column::new("graphic_file", ColumnType::Text),
            Column::new("sof_faction_name", ColumnType::Text),
            Column::new("sof_hull_name", ColumnType::Text),
            Column::new("sof_race_name", ColumnType::Text),
        ],
        foreign_keys: vec![],
        indexes: vec![],
        child_tables: owned_strings(&[]),
        array_source: None,
    };
    proof {
        assert(schema_view(t).columns =~= spec_t_graphics().columns);
        assert(schema_view(t).foreign_keys =~= spec_t_graphics().foreign_keys);
        assert(schema_view(t).indexes =~= spec_t_graphics().indexes);
        assert(schema_view(t).child_tables =~= spec_t_graphics().child_tables);
        assert(schema_view(t) == spec_t_graphics());
    }
    t
}

pub open spec fn spec_t_agent_types() -> TableSchemaV {
    TableSchemaV {
        name: "agent_types"@,
        source_file: "agentTypes.jsonl"@,
        columns: seq![
            ColumnV { name: "id"@, col_type: ColumnType::Integer, nullable: false, json_field: None },
            ColumnV { name: "name"@, col_type: ColumnType::Text, nullable: true, json_field: None },
        ],
        foreign_keys: seq![],
        indexes: seq![],
        child_tables: seq![],
        array_source: None,
    }
}

fn t_agent_types() -> (t: TableSchema)
    ensures
        schema_view(t) == spec_t_agent_types(),
{
    let t = TableSchema {
        name: "agent_types".to_owned(),
        source_file: "agentTypes.jsonl".to_owned(),
        columns: vec![
            Column::required("id", ColumnType::Integer),
            Column::new("name", ColumnType::Text),
        ],
        foreign_keys: vec![],
        indexes: vec![],
        child_tables: owned_strings(&[]),
        array_source: None,
    };
    proof {
        assert(schema_view(t).columns =~= spec_t_agent_types().columns);
        assert(schema_view(t).foreign_keys =~= spec_t_agent_types().foreign_keys);
        assert(schema_view(t).indexes =~= spec_t_agent_types().indexes);
        assert(schema_view(t).child_tables =~= spec_t_agent_types().child_tables);
        assert(schema_view(t) == spec_t_agent_types());
    }
    t
}

pub open spec fn spec_t_station_services() -> TableSchemaV {
    TableSchemaV {
        name: "station_services"@,
        source_file: "stationServices.jsonl"@,
        columns: seq![
            ColumnV { name: "id"@, col_type: ColumnType::Integer, nullable: false, json_field: None },
            ColumnV { name: "service_name"@, col_type: ColumnType::Text, nullable: true, json_field: None },
        ],
        foreign_keys: seq![],
        indexes: seq![
            IndexV { columns: seq!["service_name"@], unique: false },
        ],
        child_tables: seq![],
        array_source: None,
    }
}

fn t_station_services() -> (t: TableSchema)
    ensures
        schema_view(t) == spec_t_station_services(),
{
    let t = TableSchema {
        name: "station_services".to_owned(),
        source_file: "stationServices.jsonl".to_owned(),
        columns: vec![
            Column::required("id", ColumnType::Integer),
            Column::new("service_name", ColumnType::Text),
        ],
        foreign_keys: vec![],
        indexes: vec![
            Index::on(&["service_name"]),
        ],
        child_tables: owned_strings(&[]),
        array_source: None,
    };
    proof {
        assert(schema_view(t).columns =~= spec_t_station_services().columns);
        assert(schema_view(t).foreign_keys =~= spec_t_station_services().foreign_keys);
        assert(schema_view(t).indexes[0].columns =~= spec_t_station_services().indexes[0].columns);
        assert(schema_view(t).indexes =~= spec_t_station_services().indexes);
        assert(schema_view(t).child_tables =~= spec_t_station_services().child_tables);
        assert(schema_view(t) == spec_t_station_services());
    }
    t
}

pub open spec fn spec_t_corporation_activities() -> TableSchemaV {
    TableSchemaV {
        name: "corporation_activities"@,
        source_file: "corporationActivities.jsonl"@,
        columns: seq![
            ColumnV { name: "id"@, col_type: ColumnType::Integer, nullable: false, json_field: None },
            ColumnV { name: "name"@, col_type: ColumnType::Localized, nullable: true, json_field: None },
        ],
        foreign_keys: seq![],
        indexes: seq![
            IndexV { columns: seq!["name_en"@], unique: false },
        ],
        child_tables: seq![],
        array_source: None,
    }
}

fn t_corporation_activities() -> (t: TableSchema)
    ensures
        schema_view(t) == spec_t_corporation_activities(),
{
    let t = TableSchema {
        name: "corporation_activities".to_owned(),
        source_file: "corporationActivities.jsonl".to_owned(),
        columns: vec![
            Column::required("id", ColumnType::Integer),
            Column::new("name", ColumnType::Localized),
        ],
        foreign_keys: vec![],
        indexes: vec![
            Index::on(&["name_en"]),
        ],
        child_tables: owned_strings(&[]),
        array_source: None,
    };
    proof {
        assert(schema_view(t).columns =~= spec_t_corporation_activities().columns);
        assert(schema_view(t).foreign_keys =~= spec_t_corporation_activities().foreign_keys);
        assert(schema_view(t).indexes[0].columns =~= spec_t_corporation_activities().indexes[0].columns);
        assert(schema_view(t).indexes =~= spec_t_corporation_activities().indexes);
        assert(schema_view(t).child_tables =~= spec_t_corporation_activities().child_tables);
        assert(schema_view(t) == spec_t_corporation_activities());
    }
    t
}

pub open spec fn spec_t_meta_groups() -> TableSchemaV {
    TableSchemaV {
        name: "meta_groups"@,
        source_file: "metaGroups.jsonl"@,
        columns: seq![
            ColumnV { name: "id"@, col_type: ColumnType::Integer, nullable: false, json_field: None },
            ColumnV { name: "name"@, col_type: ColumnType::Localized, nullable: true, json_field: None },
            ColumnV { name: "description"@, col_type: ColumnType::Localized, nullable: true, json_field: None },
            ColumnV { name: "icon_id"@, col_type: ColumnType::Integer, nullable: true, json_field: None },
            ColumnV { name: "icon_suffix"@, col_type: ColumnType::Text, nullable: true, json_field: None },
        ],
        foreign_keys: seq![],
        indexes: seq![
            IndexV { columns: seq!["name_en"@], unique: false },
        ],
        child_tables: seq![],
        array_source: None,
    }
}

fn t_meta_groups() -> (t: TableSchema)
    ensures
        schema_view(t) == spec_t_meta_groups(),
{
    let t = TableSchema {
        name: "meta_groups".to_owned(),
        source_file: "metaGroups.jsonl".to_owned(),
        columns: vec![
            Column::required("id", ColumnType::Integer),
            Column::new("name", ColumnType::Localized),
            Column::new("description", ColumnType::Localized),
            Column::new("icon_id", ColumnType::Integer),
            Column::new("icon_suffix", ColumnType::Text),
        ],
        foreign_keys: vec![],
        indexes: vec![
            Index::on(&["name_en"]),
        ],
        child_tables: owned_strings(&[]),
        array_source: None,
    };
    proof {
        assert(schema_view(t).columns =~= spec_t_meta_groups().columns);
        assert(schema_view(t).foreign_keys =~= spec_t_meta_groups().foreign_keys);
        assert(schema_view(t).indexes[0].columns =~= spec_t_meta_groups().indexes[0].columns);
        assert(schema_view(t).indexes =~= spec_t_meta_groups().indexes);
        assert(schema_view(t).child_tables =~= spec_t_meta_groups().child_tables);
        assert(schema_view(t) == spec_t_meta_groups());
    }
    t
}

pub open spec fn spec_t_character_attributes() -> TableSchemaV {
    TableSchemaV {
        name: "character_attributes"@,
        source_file: "characterAttributes.jsonl"@,
        columns: seq![
            ColumnV { name: "id"@, col_type: ColumnType::Integer, nullable: false, json_field: None },
            ColumnV { name: "name"@, col_type: ColumnType::Localized, nullable: true, json_field: None },
            ColumnV { name: "description"@, col_type: ColumnType::Localized, nullable: true, json_field: None },
            ColumnV { name: "short_description"@, col_type: ColumnType::Localized, nullable: true, json_field: None },
            ColumnV { name: "notes"@, col_type: ColumnType::Text, nullable: true, json_field: None },
            ColumnV { name: "icon_id"@, col_type: ColumnType::Integer, nullable: true, json_field: None },
        ],
        foreign_keys: seq![],
        indexes: seq![
            IndexV { columns: seq!["name_en"@], unique: false },
        ],
        child_tables: seq![],
        array_source: None,
    }
}

fn t_character_attributes() -> (t: TableSchema)
    ensures
        schema_view(t) == spec_t_character_attributes(),
{
    let t = TableSchema {
        name: "character_attributes".to_owned(),
        source_file: "characterAttributes.jsonl".to_owned(),
        columns: vec![
            Column::required("id", ColumnType::Integer),
            Column::new("name", ColumnType::Localized),
            Column::new("description", ColumnType::Localized),
            Column::new("short_description", ColumnType::Localized),
            Column::new("notes", ColumnType::Text),
            Column::new("icon_id", ColumnType::Integer),
        ],
        foreign_keys: vec![],
        indexes: vec![
            Index::on(&["name_en"]),
        ],
        child_tables: owned_strings(&[]),
        array_source: None,
    };
    proof {
        assert(schema_view(t).columns =~= spec_t_character_attributes().columns);
        assert(schema_view(t).foreign_keys =~= spec_t_character_attributes().foreign_keys);
        assert(schema_view(t).indexes[0].columns =~= spec_t_character_attributes().indexes[0].columns);
        assert(schema_view(t).indexes =~= spec_t_character_attributes().indexes);
        assert(schema_view(t).child_tables =~= spec_t_character_attributes().child_tables);
        assert(schema_view(t) == spec_t_character_attributes());
    }
    t
}

pub open spec fn spec_t_translation_languages() -> TableSchemaV {
    TableSchemaV {
        name: "translation_languages"@,
        source_file: "translationLanguages.jsonl"@,
        columns: seq![
            ColumnV { name: "id"@, col_type: ColumnType::Integer, nullable: false, json_field: None },
            ColumnV { name: "name"@, col_type: ColumnType::Text, nullable: true, json_field: None },
        ],
        foreign_keys: seq![],
        indexes: seq![],
        child_tables: seq![],
        array_source: None,
    }
}

fn t_translation_languages() -> (t: TableSchema)
    ensures
        schema_view(t) == spec_t_translation_languages(),
{
    let t = TableSchema {
        name: "translation_languages".to_owned(),
        source_file: "translationLanguages.jsonl".to_owned(),
        columns: vec![
            Column::required("id", ColumnType::Integer),
            Column::new("name", ColumnType::Text),
        ],
        foreign_keys: vec![],
        indexes: vec![],
        child_tables: owned_strings(&[]),
        array_source: None,
    };
    proof {
        assert(schema_view(t).columns =~= spec_t_translation_languages().columns);
        assert(schema_view(t).foreign_keys =~= spec_t_translation_languages().foreign_keys);
        assert(schema_view(t).indexes =~= spec_t_translation_languages().indexes);
        assert(schema_view(t).child_tables =~= spec_t_translation_languages().child_tables);
        assert(schema_view(t) == spec_t_translation_languages());
    }
    t
}

pub open spec fn spec_t_skin_materials() -> TableSchemaV {
    TableSchemaV {
        name: "skin_materials"@,
        source_file: "skinMaterials.jsonl"@,
        columns: seq![
            ColumnV { name: "id"@, col_type: ColumnType::Integer, nullable: false, json_field: None },
            ColumnV { name: "display_name"@, col_type: ColumnType::Localized, nullable: true, json_field: None },
            ColumnV { name: "material_set_id"@, col_type: ColumnType::Integer, nullable: true, json_field: None },
        ],
        foreign_keys: seq![],
        indexes: seq![
            IndexV { columns: seq!["display_name_en"@], unique: false },
            IndexV { columns: seq!["material_set_id"@], unique: false },
        ],
        child_tables: seq![],
        array_source: None,
    }
}

fn t_skin_materials() -> (t: TableSchema)
    ensures
        schema_view(t) == spec_t_skin_materials(),
{
    let t = TableSchema {
        name: "skin_materials".to_owned(),
        source_file: "skinMaterials.jsonl".to_owned(),
        columns: vec![
            Column::required("id", ColumnType::Integer),
            Column::new("display_name", ColumnType::Localized),
            Column::new("material_set_id", ColumnType::Integer),
        ],
        foreign_keys: vec![],
        indexes: vec![
            Index::on(&["display_name_en"]),
            Index::on(&["material_set_id"]),
        ],
        child_tables: owned_strings(&[]),
        array_source: None,
    };
    proof {
        assert(schema_view(t).columns =~= spec_t_skin_materials().columns);
        assert(schema_view(t).foreign_keys =~= spec_t_skin_materials().foreign_keys);
        assert(schema_view(t).indexes[0].columns =~= spec_t_skin_materials().indexes[0].columns);
        assert(schema_view(t).indexes[1].columns =~= spec_t_skin_materials().indexes[1].columns);
        assert(schema_view(t).indexes =~= spec_t_skin_materials().indexes);
        assert(schema_view(t).child_tables =~= spec_t_skin_materials().child_tables);
        assert(schema_view(t) == spec_t_skin_materials());
    }
    t
}

pub open spec fn spec_t_landmarks() -> TableSchemaV {
    TableSchemaV {
        name: "landmarks"@,
        source_file: "landmarks.jsonl"@,
        columns: seq![
            ColumnV { name: "id"@, col_type: ColumnType::Integer, nullable: false, json_field: None },
            ColumnV { name: "name"@, col_type: ColumnType::Localized, nullable: true, json_field: None },
            ColumnV { name: "description"@, col_type: ColumnType::Localized, nullable: true, json_field: None },
            ColumnV { name: "importance"@, col_type: ColumnType::Integer, nullable: true, json_field: None },
            ColumnV { name: "location_id"@, col_type: ColumnType::Integer, nullable: true, json_field: None },
            ColumnV { name: "position_x"@, col_type: ColumnType::Real, nullable: true, json_field: None },
            ColumnV { name: "position_y"@, col_type: ColumnType::Real, nullable: true, json_field: None },
            ColumnV { name: "position_z"@, col_type: ColumnType::Real, nullable: true, json_field: None },
        ],
        foreign_keys: seq![],
        indexes: seq![
            IndexV { columns: seq!["name_en"@], unique: false },
            IndexV { columns: seq!["location_id"@], unique: false },
        ],
        child_tables: seq![],
        array_source: None,
    }
}

fn t_landmarks() -> (t: TableSchema)
    ensures
        schema_view(t) == spec_t_landmarks(),
{
    let t = TableSchema {
        name: "landmarks".to_owned(),
        source_file: "landmarks.jsonl".to_owned(),
        columns: vec![
            Column::required("id", ColumnType::Integer),
            Column::new("name", ColumnType::Localized),
            Column::new("description", ColumnType::Localized),
            Column::new("importance", ColumnType::Integer),
            Column::new("location_id", ColumnType::Integer),
            Column::new("position_x", ColumnType::Real),
            Column::new("position_y", ColumnType::Real),
            Column::new("position_z", ColumnType::Real),
        ],
        foreign_keys: vec![],
        indexes: vec![
            Index::on(&["name_en"]),
            Index::on(&["location_id"]),
        ],
        child_tables: owned_strings(&[]),
        array_source: None,
    };
    proof {
        assert(schema_view(t).columns =~= spec_t_landmarks().columns);
        assert(schema_view(t).foreign_keys =~= spec_t_landmarks().foreign_keys);
        assert(schema_view(t).indexes[0].columns =~= spec_t_landmarks().indexes[0].columns);
        assert(schema_view(t).indexes[1].columns =~= spec_t_landmarks().indexes[1].columns);
        assert(schema_view(t).indexes =~= spec_t_landmarks().indexes);
        assert(schema_view(t).child_tables =~= spec_t_landmarks().child_tables);
        assert(schema_view(t) == spec_t_landmarks());
    }
    t
}

pub open spec fn spec_t_npc_corporation_divisions() -> TableSchemaV {
    TableSchemaV {
        name: "npc_corporation_divisions"@,
        source_file: "npcCorporationDivisions.jsonl"@,
        columns: seq![
            ColumnV { name: "id"@, col_type: ColumnType::Integer, nullable: false, json_field: None },
            ColumnV { name: "name"@, col_type: ColumnType::Localized, nullable: true, json_field: None },
            ColumnV { name: "display_name"@, col_type: ColumnType::Text, nullable: true, json_field: None },
            ColumnV { name: "internal_name"@, col_type: ColumnType::Text, nullable: true, json_field: None },
            ColumnV { name: "leader_type_name"@, col_type: ColumnType::Localized, nullable: true, json_field: None },
        ],
        foreign_keys: seq![],
        indexes: seq![
            IndexV { columns: seq!["name_en"@], unique: false },
        ],
        child_tables: seq![],
        array_source: None,
    }
}

fn t_npc_corporation_divisions() -> (t: TableSchema)
    ensures
        schema_view(t) == spec_t_npc_corporation_divisions(),
{
    let t = TableSchema {
        name: "npc_corporation_divisions".to_owned(),
        source_file: "npcCorporationDivisions.jsonl".to_owned(),
        columns: vec![
            Column::required("id", ColumnType::Integer),
            Column::new("name", ColumnType::Localized),
            Column::new("display_name", ColumnType::Text),
            Column::new("internal_name", ColumnType::Text),
            Column::new("leader_type_name", ColumnType::Localized),
        ],
        foreign_keys: vec![],
        indexes: vec![
            Index::on(&["name_en"]),
        ],
        child_tables: owned_strings(&[]),
        array_source: None,
    };
    proof {
        assert(schema_view(t).columns =~= spec_t_npc_corporation_divisions().columns);
        assert(schema_view(t).foreign_keys =~= spec_t_npc_corporation_divisions().foreign_keys);
        assert(schema_view(t).indexes[0].columns =~= spec_t_npc_corporation_divisions().indexes[0].columns);
        assert(schema_view(t).indexes =~= spec_t_npc_corporation_divisions().indexes);
        assert(schema_view(t).child_tables =~= spec_t_npc_corporation_divisions().child_tables);
        assert(schema_view(t) == spec_t_npc_corporation_divisions());
    }
    t
}

pub open spec fn spec_t_planet_resources() -> TableSchemaV {
    TableSchemaV {
        name: "planet_resources"@,
        source_file: "planetResources.jsonl"@,
        columns: seq![
            ColumnV { name: "id"@, col_type: ColumnType::Integer, nullable: false, json_field: None },
            ColumnV { name: "power"@, col_type: ColumnType::Integer, nullable: true, json_field: None },
        ],
        foreign_keys: seq![],
        indexes: seq![],
        child_tables: seq![],
        array_source: None,
    }
}

fn t_planet_resources() -> (t: TableSchema)
    ensures
        schema_view(t) == spec_t_planet_resources(),
{
    let t = TableSchema {
        name: "planet_resources".to_owned(),
        source_file: "planetResources.jsonl".to_owned(),
        columns: vec![
            Column::required("id", ColumnType::Integer),
            Column::new("power", ColumnType::Integer),
        ],
        foreign_keys: vec![],
        indexes: vec![],
        child_tables: owned_strings(&[]),
        array_source: None,
    };
    proof {
        assert(schema_view(t).columns =~= spec_t_planet_resources().columns);
        assert(schema_view(t).foreign_keys =~= spec_t_planet_resources().foreign_keys);
        assert(schema_view(t).indexes =~= spec_t_planet_resources().indexes);
        assert(schema_view(t).child_tables =~= spec_t_planet_resources().child_tables);
        assert(schema_view(t) == spec_t_planet_resources());
    }
    t
}

pub open spec fn spec_t_clone_grades() -> TableSchemaV {
    TableSchemaV {
        name: "clone_grades"@,
        source_file: "cloneGrades.jsonl"@,
        columns: seq![
            ColumnV { name: "id"@, col_type: ColumnType::Integer, nullable: false, json_field: None },
            ColumnV { name: "name"@, col_type: ColumnType::Text, nullable: true, json_field: None },
        ],
        foreign_keys: seq![],
        indexes: seq![],
        child_tables: seq!["clone_grade_skills"@],
        array_source: None,
    }
}

fn t_clone_grades() -> (t: TableSchema)
    ensures
        schema_view(t) == spec_t_clone_grades(),
{
    let t = TableSchema {
        name: "clone_grades".to_owned(),
        source_file: "cloneGrades.jsonl".to_owned(),
        columns: vec![
            Column::required("id", ColumnType::Integer),
            Column::new("name", ColumnType::Text),
        ],
        foreign_keys: vec![],
        indexes: vec![],
        child_tables: owned_strings(&["clone_grade_skills"]),
        array_source: None,
    };
    proof {
        assert(schema_view(t).columns =~= spec_t_clone_grades().columns);
        assert(schema_view(t).foreign_keys =~= spec_t_clone_grades().foreign_keys);
        assert(schema_view(t).indexes =~= spec_t_clone_grades().indexes);
        assert(schema_view(t).child_tables =~= spec_t_clone_grades().child_tables);
        assert(schema_view(t) == spec_t_clone_grades());
    }
    t
}

pub open spec fn spec_t_planet_schematics() -> TableSchemaV {
    TableSchemaV {
        name: "planet_schematics"@,
        source_file: "planetSchematics.jsonl"@,
        columns: seq![
            ColumnV { name: "id"@, col_type: ColumnType::Integer, nullable: false, json_field: None },
            ColumnV { name: "name"@, col_type: ColumnType::Localized, nullable: true, json_field: None },
            ColumnV { name: "cycle_time"@, col_type: ColumnType::Integer, nullable: true, json_field: None },
        ],
        foreign_keys: seq![],
        indexes: seq![
            IndexV { columns: seq!["name_en"@], unique: false },
        ],
        child_tables: seq!["planet_schematic_pins"@, "planet_schematic_types"@],
        array_source: None,
    }
}

fn t_planet_schematics() -> (t: TableSchema)
    ensures
        schema_view(t) == spec_t_planet_schematics(),
{
    let t = TableSchema {
        name: "planet_schematics".to_owned(),
        source_file: "planetSchematics.jsonl".to_owned(),
        columns: vec![
            Column::required("id", ColumnType::Integer),
            Column::new("name", ColumnType::Localized),
            Column::new("cycle_time", ColumnType::Integer),
        ],
        foreign_keys: vec![],
        indexes: vec![
            Index::on(&["name_en"]),
        ],
        child_tables: owned_strings(&["planet_schematic_pins", "planet_schematic_types"]),
        array_source: None,
    };
    proof {
        assert(schema_view(t).columns =~= spec_t_planet_schematics().columns);
        assert(schema_view(t).foreign_keys =~= spec_t_planet_schematics().foreign_keys);
        assert(schema_view(t).indexes[0].columns =~= spec_t_planet_schematics().indexes[0].columns);
        assert(schema_view(t).indexes =~= spec_t_planet_schematics().indexes);
        assert(schema_view(t).child_tables =~= spec_t_planet_schematics().child_tables);
        assert(schema_view(t) == spec_t_planet_schematics());
    }
    t
}

pub open spec fn spec_t_races() -> TableSchemaV {
    TableSchemaV {
        name: "races"@,
        source_file: "races.jsonl"@,
        columns: seq![
            ColumnV { name: "id"@, col_type: ColumnType::Integer, nullable: false, json_field: None },
            ColumnV { name: "name"@, col_type: ColumnType::Localized, nullable: true, json_field: None },
            ColumnV { name: "description"@, col_type: ColumnType::Localized, nullable: true, json_field: None },
            ColumnV { name: "icon_id"@, col_type: ColumnType::Integer, nullable: true, json_field: None },
            ColumnV { name: "ship_type_id"@, col_type: ColumnType::Integer, nullable: true, json_field: None },
        ],
        foreign_keys: seq![
            ForeignKeyV { column: "icon_id"@, references_table: "icons"@, references_column: "id"@ },
        ],
        indexes: seq![
            IndexV { columns: seq!["name_en"@], unique: false },
        ],
        child_tables: seq![],
        array_source: None,
    }
}

fn t_races() -> (t: TableSchema)
    ensures
        schema_view(t) == spec_t_races(),
{
    let t = TableSchema {
        name: "races".to_owned(),
        source_file: "races.jsonl".to_owned(),
        columns: vec![
            Column::required("id", ColumnType::Integer),
            Column::new("name", ColumnType::Localized),
            Column::new("description", ColumnType::Localized),
            Column::new("icon_id", ColumnType::Integer),
            Column::new("ship_type_id", ColumnType::Integer),
        ],
        foreign_keys: vec![
            ForeignKey::new("icon_id", "icons"),
        ],
        indexes: vec![
            Index::on(&["name_en"]),
        ],
        child_tables: owned_strings(&[]),
        array_source: None,
    };
    proof {
        assert(schema_view(t).columns =~= spec_t_races().columns);
        assert(schema_view(t).foreign_keys =~= spec_t_races().foreign_keys);
        assert(schema_view(t).indexes[0].columns =~= spec_t_races().indexes[0].columns);
        assert(schema_view(t).indexes =~= spec_t_races().indexes);
        assert(schema_view(t).child_tables =~= spec_t_races().child_tables);
        assert(schema_view(t) == spec_t_races());
    }
    t
}

pub open spec fn spec_t_groups() -> TableSchemaV {
    TableSchemaV {
        name: "groups"@,
        source_file: "groups.jsonl"@,
        columns: seq![
            ColumnV { name: "id"@, col_type: ColumnType::Integer, nullable: false, json_field: None },
            ColumnV { name: "name"@, col_type: ColumnType::Localized, nullable: true, json_field: None },
            ColumnV { name: "category_id"@, col_type: ColumnType::Integer, nullable: true, json_field: None },
            ColumnV { name: "published"@, col_type: ColumnType::Boolean, nullable: true, json_field: None },
            ColumnV { name: "anchorable"@, col_type: ColumnType::Boolean, nullable: true, json_field: None },
            ColumnV { name: "anchored"@, col_type: ColumnType::Boolean, nullable: true, json_field: None },
            ColumnV { name: "fittable_non_singleton"@, col_type: ColumnType::Boolean, nullable: true, json_field: None },
            ColumnV { name: "icon_id"@, col_type: ColumnType::Integer, nullable: true, json_field: None },
            ColumnV { name: "use_base_price"@, col_type: ColumnType::Boolean, nullable: true, json_field: None },
        ],
        foreign_keys: seq![
            ForeignKeyV { column: "category_id"@, references_table: "categories"@, references_column: "id"@ },
            ForeignKeyV { column: "icon_id"@, references_table: "icons"@, references_column: "id"@ },
        ],
        indexes: seq![
            IndexV { columns: seq!["category_id"@], unique: false },
            IndexV { columns: seq!["name_en"@], unique: false },
            IndexV { columns: seq!["published"@], unique: false },
        ],
        child_tables: seq![],
        array_source: None,
    }
}

fn t_groups() -> (t: TableSchema)
    ensures
        schema_view(t) == spec_t_groups(),
{
    let t = TableSchema {
        name: "groups".to_owned(),
        source_file: "groups.jsonl".to_owned(),
        columns: vec![
            Column::required("id", ColumnType::Integer),
            Column::new("name", ColumnType::Localized),
            Column::new("category_id", ColumnType::Integer),
            Column::new("published", ColumnType::Boolean),
            Column::new("anchorable", ColumnType::Boolean),
            Column::new("anchored", ColumnType::Boolean),
            Column::new("fittable_non_singleton", ColumnType::Boolean),
            Column::new("icon_id", ColumnType::Integer),
            Column::new("use_base_price", ColumnType::Boolean),
        ],
        foreign_keys: vec![
            ForeignKey::new("category_id", "categories"),
            ForeignKey::new("icon_id", "icons"),
        ],
        indexes: vec![
            Index::on(&["category_id"]),
            Index::on(&["name_en"]),
            Index::on(&["published"]),
        ],
        child_tables: owned_strings(&[]),
        array_source: None,
    };
    proof {
        assert(schema_view(t).columns =~= spec_t_groups().columns);
        assert(schema_view(t).foreign_keys =~= spec_t_groups().foreign_keys);
        assert(schema_view(t).indexes[0].columns =~= spec_t_groups().indexes[0].columns);
        assert(schema_view(t).indexes[1].columns =~= spec_t_groups().indexes[1].columns);
        assert(schema_view(t).indexes[2].columns =~= spec_t_groups().indexes[2].columns);
        assert(schema_view(t).indexes =~= spec_t_groups().indexes);
        assert(schema_view(t).child_tables =~= spec_t_groups().child_tables);
        assert(schema_view(t) == spec_t_groups());
    }
    t
}

pub open spec fn spec_t_dogma_attributes() -> TableSchemaV {
    TableSchemaV {
        name: "dogma_attributes"@,
        source_file: "dogmaAttributes.jsonl"@,
        columns: seq![
            ColumnV { name: "id"@, col_type: ColumnType::Integer, nullable: false, json_field: None },
            ColumnV { name: "name"@, col_type: ColumnType::Text, nullable: true, json_field: None },
            ColumnV { name: "description"@, col_type: ColumnType::Text, nullable: true, json_field: None },
            ColumnV { name: "display_name"@, col_type: ColumnType::Localized, nullable: true, json_field: None },
            ColumnV { name: "tooltip_title"@, col_type: ColumnType::Localized, nullable: true, json_field: None },
            ColumnV { name: "tooltip_description"@, col_type: ColumnType::Localized, nullable: true, json_field: None },
            ColumnV { name: "attribute_category_id"@, col_type: ColumnType::Integer, nullable: true, json_field: None },
            ColumnV { name: "data_type"@, col_type: ColumnType::Integer, nullable: true, json_field: None },
            ColumnV { name: "default_value"@, col_type: ColumnType::Real, nullable: true, json_field: None },
            ColumnV { name: "display_when_zero"@, col_type: ColumnType::Boolean, nullable: true, json_field: None },
            ColumnV { name: "high_is_good"@, col_type: ColumnType::Boolean, nullable: true, json_field: None },
            ColumnV { name: "icon_id"@, col_type: ColumnType::Integer, nullable: true, json_field: None },
            ColumnV { name: "published"@, col_type: ColumnType::Boolean, nullable: true, json_field: None },
            ColumnV { name: "stackable"@, col_type: ColumnType::Boolean, nullable: true, json_field: None },
            ColumnV { name: "unit_id"@, col_type: ColumnType::Integer, nullable: true, json_field: None },
        ],
        foreign_keys: seq![
            ForeignKeyV { column: "attribute_category_id"@, references_table: "dogma_attribute_categories"@, references_column: "id"@ },
            ForeignKeyV { column: "icon_id"@, references_table: "icons"@, references_column: "id"@ },
            ForeignKeyV { column: "unit_id"@, references_table: "dogma_units"@, references_column: "id"@ },
        ],
        indexes: seq![
            IndexV { columns: seq!["unit_id"@], unique: false },
            IndexV { columns: seq!["name"@], unique: false },
            IndexV { columns: seq!["published"@], unique: false },
        ],
        child_tables: seq![],
        array_source: None,
    }
}

fn t_dogma_attributes() -> (t: TableSchema)
    ensures
        schema_view(t) == spec_t_dogma_attributes(),
{
    let t = TableSchema {
        name: "dogma_attributes".to_owned(),
        source_file: "dogmaAttributes.jsonl".to_owned(),
        columns: vec![
            Column::required("id", ColumnType::Integer),
            Column::new("name", ColumnType::Text),
            Column::new("description", ColumnType::Text),
            Column::new("display_name", ColumnType::Localized),
            Column::new("tooltip_title", ColumnType::Localized),
            Column::new("tooltip_description", ColumnType::Localized),
            Column::new("attribute_category_id", ColumnType::Integer),
            Column::new("data_type", ColumnType::Integer),
            Column::new("default_value", ColumnType::Real),
            Column::new("display_when_zero", ColumnType::Boolean),
            Column::new("high_is_good", ColumnType::Boolean),
            Column::new("icon_id", ColumnType::Integer),
            Column::new("published", ColumnType::Boolean),
            Column::new("stackable", ColumnType::Boolean),
            Column::new("unit_id", ColumnType::Integer),
        ],
        foreign_keys: vec![
            ForeignKey::new("attribute_category_id", "dogma_attribute_categories"),
            ForeignKey::new("icon_id", "icons"),
            ForeignKey::new("unit_id", "dogma_units"),
        ],
        indexes: vec![
            Index::on(&["unit_id"]),
            Index::on(&["name"]),
            Index::on(&["published"]),
        ],
        child_tables: owned_strings(&[]),
        array_source: None,
    };
    proof {
        assert(schema_view(t).columns =~= spec_t_dogma_attributes().columns);
        assert(schema_view(t).foreign_keys =~= spec_t_dogma_attributes().foreign_keys);
        assert(schema_view(t).indexes[0].columns =~= spec_t_dogma_attributes().indexes[0].columns);
        assert(schema_view(t).indexes[1].columns =~= spec_t_dogma_attributes().indexes[1].columns);
        assert(schema_view(t).indexes[2].columns =~= spec_t_dogma_attributes().indexes[2].columns);
        assert(schema_view(t).indexes =~= spec_t_dogma_attributes().indexes);
        assert(schema_view(t).child_tables =~= spec_t_dogma_attributes().child_tables);
        assert(schema_view(t) == spec_t_dogma_attributes());
    }
    t
}

pub open spec fn spec_t_dogma_effects() -> TableSchemaV {
    TableSchemaV {
        name: "dogma_effects"@,
        source_file: "dogmaEffects.jsonl"@,
        columns: seq![
            ColumnV { name: "id"@, col_type: ColumnType::Integer, nullable: false, json_field: None },
            ColumnV { name: "name"@, col_type: ColumnType::Text, nullable: true, json_field: None },
            ColumnV { name: "description"@, col_type: ColumnType::Text, nullable: true, json_field: None },
            ColumnV { name: "display_name"@, col_type: ColumnType::Localized, nullable: true, json_field: None },
            ColumnV { name: "effect_category"@, col_type: ColumnType::Integer, nullable: true, json_field: None },
            ColumnV { name: "effect_name"@, col_type: ColumnType::Text, nullable: true, json_field: None },
            ColumnV { name: "guid"@, col_type: ColumnType::Text, nullable: true, json_field: None },
            ColumnV { name: "icon_id"@, col_type: ColumnType::Integer, nullable: true, json_field: None },
            ColumnV { name: "is_assistance"@, col_type: ColumnType::Boolean, nullable: true, json_field: None },
            ColumnV { name: "is_offensive"@, col_type: ColumnType::Boolean, nullable: true, json_field: None },
            ColumnV { name: "is_warp_safe"@, col_type: ColumnType::Boolean, nullable: true, json_field: None },
            ColumnV { name: "published"@, col_type: ColumnType::Boolean, nullable: true, json_field: None },
            ColumnV { name: "range_chance"@, col_type: ColumnType::Boolean, nullable: true, json_field: None },
            ColumnV { name: "electronic_chance"@, col_type: ColumnType::Boolean, nullable: true, json_field: None },
            ColumnV { name: "propulsion_chance"@, col_type: ColumnType::Boolean, nullable: true, json_field: None },
            ColumnV { name: "disallow_auto_repeat"@, col_type: ColumnType::Boolean, nullable: true, json_field: None },
            ColumnV { name: "distribution"@, col_type: ColumnType::Integer, nullable: true, json_field: None },
            ColumnV { name: "duration_attribute_id"@, col_type: ColumnType::Integer, nullable: true, json_field: None },
            ColumnV { name: "discharge_attribute_id"@, col_type: ColumnType::Integer, nullable: true, json_field: None },
            ColumnV { name: "falloff_attribute_id"@, col_type: ColumnType::Integer, nullable: true, json_field: None },
            ColumnV { name: "range_attribute_id"@, col_type: ColumnType::Integer, nullable: true, json_field: None },
            ColumnV { name: "tracking_speed_attribute_id"@, col_type: ColumnType::Integer, nullable: true, json_field: None },
            ColumnV { name: "fitting_usage_chance_attribute_id"@, col_type: ColumnType::Integer, nullable: true, json_field: None },
            ColumnV { name: "resistance_attribute_id"@, col_type: ColumnType::Integer, nullable: true, json_field: None },
        ],
        foreign_keys: seq![
            ForeignKeyV { column: "icon_id"@, references_table: "icons"@, references_column: "id"@ },
        ],
        indexes: seq![
            IndexV { columns: seq!["icon_id"@], unique: false },
            IndexV { columns: seq!["name"@], unique: false },
            IndexV { columns: seq!["published"@], unique: false },
        ],
        child_tables: seq![],
        array_source: None,
    }
}

fn t_dogma_effects() -> (t: TableSchema)
    ensures
        schema_view(t) == spec_t_dogma_effects(),
{
    let t = TableSchema {
        name: "dogma_effects".to_owned(),
        source_file: "dogmaEffects.jsonl".to_owned(),
        columns: vec![
            Column::required("id", ColumnType::Integer),
            Column::new("name", ColumnType::Text),
            Column::new("description", ColumnType::Text),
            Column::new("display_name", ColumnType::Localized),
            Column::new("effect_category", ColumnType::Integer),
            Column::new("effect_name", ColumnType::Text),
            Column::new("guid", ColumnType::Text),
            Column::new("icon_id", ColumnType::Integer),
            Column::new("is_assistance", ColumnType::Boolean),
            Column::new("is_offensive", ColumnType::Boolean),
            Column::new("is_warp_safe", ColumnType::Boolean),
            Column::new("published", ColumnType::Boolean),
            Column::new("range_chance", ColumnType::Boolean),
            Column::new("electronic_chance", ColumnType::Boolean),
            Column::new("propulsion_chance", ColumnType::Boolean),
            Column::new("disallow_auto_repeat", ColumnType::Boolean),
            Column::new("distribution", ColumnType::Integer),
            Column::new("duration_attribute_id", ColumnType::Integer),
            Column::new("discharge_attribute_id", ColumnType::Integer),
            Column::new("falloff_attribute_id", ColumnType::Integer),
            Column::new("range_attribute_id", ColumnType::Integer),
            Column::new("tracking_speed_attribute_id", ColumnType::Integer),
            Column::new("fitting_usage_chance_attribute_id", ColumnType::Integer),
            Column::new("resistance_attribute_id", ColumnType::Integer),
        ],
        foreign_keys: vec![
            ForeignKey::new("icon_id", "icons"),
        ],
        indexes: vec![
            Index::on(&["icon_id"]),
            Index::on(&["name"]),
            Index::on(&["published"]),
        ],
        child_tables: owned_strings(&[]),
        array_source: None,
    };
    proof {
        assert(schema_view(t).columns =~= spec_t_dogma_effects().columns);
        assert(schema_view(t).foreign_keys =~= spec_t_dogma_effects().foreign_keys);
        assert(schema_view(t).indexes[0].columns =~= spec_t_dogma_effects().indexes[0].columns);
        assert(schema_view(t).indexes[1].columns =~= spec_t_dogma_effects().indexes[1].columns);
        assert(schema_view(t).indexes[2].columns =~= spec_t_dogma_effects().indexes[2].columns);
        assert(schema_view(t).indexes =~= spec_t_dogma_effects().indexes);
        assert(schema_view(t).child_tables =~= spec_t_dogma_effects().child_tables);
        assert(schema_view(t) == spec_t_dogma_effects());
    }
    t
}

pub open spec fn spec_t_map_regions() -> TableSchemaV {
    TableSchemaV {
        name: "map_regions"@,
        source_file: "mapRegions.jsonl"@,
        columns: seq![
            ColumnV { name: "id"@, col_type: ColumnType::Integer, nullable: false, json_field: None },
            ColumnV { name: "name"@, col_type: ColumnType::Localized, nullable: true, json_field: None },
            ColumnV { name: "description"@, col_type: ColumnType::Localized, nullable: true, json_field: None },
            ColumnV { name: "faction_id"@, col_type: ColumnType::Integer, nullable: true, json_field: None },
            ColumnV { name: "center_x"@, col_type: ColumnType::Real, nullable: true, json_field: None },
            ColumnV { name: "center_y"@, col_type: ColumnType::Real, nullable: true, json_field: None },
            ColumnV { name: "center_z"@, col_type: ColumnType::Real, nullable: true, json_field: None },
            ColumnV { name: "max_x"@, col_type: ColumnType::Real, nullable: true, json_field: None },
            ColumnV { name: "max_y"@, col_type: ColumnType::Real, nullable: true, json_field: None },
            ColumnV { name: "max_z"@, col_type: ColumnType::Real, nullable: true, json_field: None },
            ColumnV { name: "min_x"@, col_type: ColumnType::Real, nullable: true, json_field: None },
            ColumnV { name: "min_y"@, col_type: ColumnType::Real, nullable: true, json_field: None },
            ColumnV { name: "min_z"@, col_type: ColumnType::Real, nullable: true, json_field: None },
            ColumnV { name: "name_id"@, col_type: ColumnType::Integer, nullable: true, json_field: None },
            ColumnV { name: "description_id"@, col_type: ColumnType::Integer, nullable: true, json_field: None },
            ColumnV { name: "nebula"@, col_type: ColumnType::Integer, nullable: true, json_field: None },
            ColumnV { name: "wormhole_class_id"@, col_type: ColumnType::Integer, nullable: true, json_field: None },
        ],
        foreign_keys: seq![],
        indexes: seq![
            IndexV { columns: seq!["faction_id"@], unique: false },
            IndexV { columns: seq!["name_en"@], unique: false },
        ],
        child_tables: seq![],
        array_source: None,
    }
}

fn t_map_regions() -> (t: TableSchema)
    ensures
        schema_view(t) == spec_t_map_regions(),
{
    let t = TableSchema {
        name: "map_regions".to_owned(),
        source_file: "mapRegions.jsonl".to_owned(),
        columns: vec![
            Column::required("id", ColumnType::Integer),
            Column::new("name", ColumnType::Localized),
            Column::new("description", ColumnType::Localized),
            Column::new("faction_id", ColumnType::Integer),
            Column::new("center_x", ColumnType::Real),
            Column::new("center_y", ColumnType::Real),
            Column::new("center_z", ColumnType::Real),
            Column::new("max_x", ColumnType::Real),
            Column::new("max_y", ColumnType::Real),
            Column::new("max_z", ColumnType::Real),
            Column::new("min_x", ColumnType::Real),
            Column::new("min_y", ColumnType::Real),
            Column::new("min_z", ColumnType::Real),
            Column::new("name_id", ColumnType::Integer),
            Column::new("description_id", ColumnType::Integer),
            Column::new("nebula", ColumnType::Integer),
            Column::new("wormhole_class_id", ColumnType::Integer),
        ],
        foreign_keys: vec![],
        indexes: vec![
            Index::on(&["faction_id"]),
            Index::on(&["name_en"]),
        ],
        child_tables: owned_strings(&[]),
        array_source: None,
    };
    proof {
        assert(schema_view(t).columns =~= spec_t_map_regions().columns);
        assert(schema_view(t).foreign_keys =~= spec_t_map_regions().foreign_keys);
        assert(schema_view(t).indexes[0].columns =~= spec_t_map_regions().indexes[0].columns);
        assert(schema_view(t).indexes[1].columns =~= spec_t_map_regions().indexes[1].columns);
        assert(schema_view(t).indexes =~= spec_t_map_regions().indexes);
        assert(schema_view(t).child_tables =~= spec_t_map_regions().child_tables);
        assert(schema_view(t) == spec_t_map_regions());
    }
    t
}

pub open spec fn spec_t_market_groups() -> TableSchemaV {
    TableSchemaV {
        name: "market_groups"@,
        source_file: "marketGroups.jsonl"@,
        columns: seq![
            ColumnV { name: "id"@, col_type: ColumnType::Integer, nullable: false, json_field: None },
            ColumnV { name: "name"@, col_type: ColumnType::Localized, nullable: true, json_field: None },
            ColumnV { name: "description"@, col_type: ColumnType::Localized, nullable: true, json_field: None },
            ColumnV { name: "icon_id"@, col_type: ColumnType::Integer, nullable: true, json_field: None },
            ColumnV { name: "parent_group_id"@, col_type: ColumnType::Integer, nullable: true, json_field: None },
            ColumnV { name: "has_types"@, col_type: ColumnType::Boolean, nullable: true, json_field: None },
        ],
        foreign_keys: seq![
            ForeignKeyV { column: "icon_id"@, references_table: "icons"@, references_column: "id"@ },
            ForeignKeyV { column: "parent_group_id"@, references_table: "market_groups"@, references_column: "id"@ },
        ],
        indexes: seq![
            IndexV { columns: seq!["parent_group_id"@], unique: false },
            IndexV { columns: seq!["icon_id"@], unique: false },
            IndexV { columns: seq!["name_en"@], unique: false },
        ],
        child_tables: seq![],
        array_source: None,
    }
}

fn t_market_groups() -> (t: TableSchema)
    ensures
        schema_view(t) == spec_t_market_groups(),
{
    let t = TableSchema {
        name: "market_groups".to_owned(),
        source_file: "marketGroups.jsonl".to_owned(),
        columns: vec![
            Column::required("id", ColumnType::Integer),
            Column::new("name", ColumnType::Localized),
            Column::new("description", ColumnType::Localized),
            Column::new("icon_id", ColumnType::Integer),
            Column::new("parent_group_id", ColumnType::Integer),
            Column::new("has_types", ColumnType::Boolean),
        ],
        foreign_keys: vec![
            ForeignKey::new("icon_id", "icons"),
            ForeignKey::new("parent_group_id", "market_groups"),
        ],
        indexes: vec![
            Index::on(&["parent_group_id"]),
            Index::on(&["icon_id"]),
            Index::on(&["name_en"]),
        ],
        child_tables: owned_strings(&[]),
        array_source: None,
    };
    proof {
        assert(schema_view(t).columns =~= spec_t_market_groups().columns);
        assert(schema_view(t).foreign_keys =~= spec_t_market_groups().foreign_keys);
        assert(schema_view(t).indexes[0].columns =~= spec_t_market_groups().indexes[0].columns);
        assert(schema_view(t).indexes[1].columns =~= spec_t_market_groups().indexes[1].columns);
        assert(schema_view(t).indexes[2].columns =~= spec_t_market_groups().indexes[2].columns);
        assert(schema_view(t).indexes =~= spec_t_market_groups().indexes);
        assert(schema_view(t).child_tables =~= spec_t_market_groups().child_tables);
        assert(schema_view(t) == spec_t_market_groups());
    }
    t
}

pub open spec fn spec_t_station_operations() -> TableSchemaV {
    TableSchemaV {
        name: "station_operations"@,
        source_file: "stationOperations.jsonl"@,
        columns: seq![
            ColumnV { name: "id"@, col_type: ColumnType::Integer, nullable: false, json_field: None },
            ColumnV { name: "operation_name"@, col_type: ColumnType::Localized, nullable: true, json_field: None },
            ColumnV { name: "description"@, col_type: ColumnType::Localized, nullable: true, json_field: None },
            ColumnV { name: "activity_id"@, col_type: ColumnType::Integer, nullable: true, json_field: None },
            ColumnV { name: "border"@, col_type: ColumnType::Real, nullable: true, json_field: None },
            ColumnV { name: "corridor"@, col_type: ColumnType::Real, nullable: true, json_field: None },
            ColumnV { name: "fringe"@, col_type: ColumnType::Real, nullable: true, json_field: None },
            ColumnV { name: "hub"@, col_type: ColumnType::Real, nullable: true, json_field: None },
            ColumnV { name: "ratio"@, col_type: ColumnType::Real, nullable: true, json_field: None },
            ColumnV { name: "manufacturing_factor"@, col_type: ColumnType::Real, nullable: true, json_field: None },
            ColumnV { name: "research_factor"@, col_type: ColumnType::Real, nullable: true, json_field: None },
        ],
        foreign_keys: seq![],
        indexes: seq![
            IndexV { columns: seq!["activity_id"@], unique: false },
            IndexV { columns: seq!["operation_name_en"@], unique: false },
        ],
        child_tables: seq![],
        array_source: None,
    }
}

fn t_station_operations() -> (t: TableSchema)
    ensures
        schema_view(t) == spec_t_station_operations(),
{
    let t = TableSchema {
        name: "station_operations".to_owned(),
        source_file: "stationOperations.jsonl".to_owned(),
        columns: vec![
            Column::required("id", ColumnType::Integer),
            Column::new("operation_name", ColumnType::Localized),
            Column::new("description", ColumnType::Localized),
            Column::new("activity_id", ColumnType::Integer),
            Column::new("border", ColumnType::Real),
            Column::new("corridor", ColumnType::Real),
            Column::new("fringe", ColumnType::Real),
            Column::new("hub", ColumnType::Real),
            Column::new("ratio", ColumnType::Real),
            Column::new("manufacturing_factor", ColumnType::Real),
            Column::new("research_factor", ColumnType::Real),
        ],
        foreign_keys: vec![],
        indexes: vec![
            Index::on(&["activity_id"]),
            Index::on(&["operation_name_en"]),
        ],
        child_tables: owned_strings(&[]),
        array_source: None,
    };
    proof {
        assert(schema_view(t).columns =~= spec_t_station_operations().columns);
        assert(schema_view(t).foreign_keys =~= spec_t_station_operations().foreign_keys);
        assert(schema_view(t).indexes[0].columns =~= spec_t_station_operations().indexes[0].columns);
        assert(schema_view(t).indexes[1].columns =~= spec_t_station_operations().indexes[1].columns);
        assert(schema_view(t).indexes =~= spec_t_station_operations().indexes);
        assert(schema_view(t).child_tables =~= spec_t_station_operations().child_tables);
        assert(schema_view(t) == spec_t_station_operations());
    }
    t
}

pub open spec fn spec_t_skins() -> TableSchemaV {
    TableSchemaV {
        name: "skins"@,
        source_file: "skins.jsonl"@,
        columns: seq![
            ColumnV { name: "id"@, col_type: ColumnType::Integer, nullable: false, json_field: None },
            ColumnV { name: "internal_name"@, col_type: ColumnType::Text, nullable: true, json_field: None },
            ColumnV { name: "skin_material_id"@, col_type: ColumnType::Integer, nullable: true, json_field: None },
            ColumnV { name: "allow_ccp_devs"@, col_type: ColumnType::Boolean, nullable: true, json_field: None },
            ColumnV { name: "visible_serenity"@, col_type: ColumnType::Boolean, nullable: true, json_field: None },
            ColumnV { name: "visible_tranquility"@, col_type: ColumnType::Boolean, nullable: true, json_field: None },
        ],
        foreign_keys: seq![
            ForeignKeyV { column: "skin_material_id"@, references_table: "skin_materials"@, references_column: "id"@ },
        ],
        indexes: seq![
            IndexV { columns: seq!["skin_material_id"@], unique: false },
        ],
        child_tables: seq![],
        array_source: None,
    }
}

fn t_skins() -> (t: TableSchema)
    ensures
        schema_view(t) == spec_t_skins(),
{
    let t = TableSchema {
        name: "skins".to_owned(),
        source_file: "skins.jsonl".to_owned(),
        columns: vec![
            Column::required("id", ColumnType::Integer),
            Column::new("internal_name", ColumnType::Text),
            Column::new("skin_material_id", ColumnType::Integer),
            Column::new("allow_ccp_devs", ColumnType::Boolean),
            Column::new("visible_serenity", ColumnType::Boolean),
            Column::new("visible_tranquility", ColumnType::Boolean),
        ],
        foreign_keys: vec![
            ForeignKey::new("skin_material_id", "skin_materials"),
        ],
        indexes: vec![
            Index::on(&["skin_material_id"]),
        ],
        child_tables: owned_strings(&[]),
        array_source: None,
    };
    proof {
        assert(schema_view(t).columns =~= spec_t_skins().columns);
        assert(schema_view(t).foreign_keys =~= spec_t_skins().foreign_keys);
        assert(schema_view(t).indexes[0].columns =~= spec_t_skins().indexes[0].columns);
        assert(schema_view(t).indexes =~= spec_t_skins().indexes);
        assert(schema_view(t).child_tables =~= spec_t_skins().child_tables);
        assert(schema_view(t) == spec_t_skins());
    }
    t
}

pub open spec fn spec_t_bloodlines() -> TableSchemaV {
    TableSchemaV {
        name: "bloodlines"@,
        source_file: "bloodlines.jsonl"@,
        columns: seq![
            ColumnV { name: "id"@, col_type: ColumnType::Integer, nullable: false, json_field: None },
            ColumnV { name: "name"@, col_type: ColumnType::Localized, nullable: true, json_field: None },
            ColumnV { name: "description"@, col_type: ColumnType::Localized, nullable: true, json_field: None },
            ColumnV { name: "race_id"@, col_type: ColumnType::Integer, nullable: true, json_field: None },
            ColumnV { name: "corporation_id"@, col_type: ColumnType::Integer, nullable: true, json_field: None },
            ColumnV { name: "charisma"@, col_type: ColumnType::Integer, nullable: true, json_field: None },
            ColumnV { name: "intelligence"@, col_type: ColumnType::Integer, nullable: true, json_field: None },
            ColumnV { name: "memory"@, col_type: ColumnType::Integer, nullable: true, json_field: None },
            ColumnV { name: "perception"@, col_type: ColumnType::Integer, nullable: true, json_field: None },
            ColumnV { name: "willpower"@, col_type: ColumnType::Integer, nullable: true, json_field: None },
            ColumnV { name: "icon_id"@, col_type: ColumnType::Integer, nullable: true, json_field: None },
        ],
        foreign_keys: seq![
            ForeignKeyV { column: "race_id"@, references_table: "races"@, references_column: "id"@ },
            ForeignKeyV { column: "icon_id"@, references_table: "icons"@, references_column: "id"@ },
        ],
        indexes: seq![
            IndexV { columns: seq!["race_id"@], unique: false },
            IndexV { columns: seq!["corporation_id"@], unique: false },
            IndexV { columns: seq!["name_en"@], unique: false },
        ],
        child_tables: seq![],
        array_source: None,
    }
}

fn t_bloodlines() -> (t: TableSchema)
    ensures
        schema_view(t) == spec_t_bloodlines(),
{
    let t = TableSchema {
        name: "bloodlines".to_owned(),
        source_file: "bloodlines.jsonl".to_owned(),
        columns: vec![
            Column::required("id", ColumnType::Integer),
            Column::new("name", ColumnType::Localized),
            Column::new("description", ColumnType::Localized),
            Column::new("race_id", ColumnType::Integer),
            Column::new("corporation_id", ColumnType::Integer),
            Column::new("charisma", ColumnType::Integer),
            Column::new("intelligence", ColumnType::Integer),
            Column::new("memory", ColumnType::Integer),
            Column::new("perception", ColumnType::Integer),
            Column::new("willpower", ColumnType::Integer),
            Column::new("icon_id", ColumnType::Integer),
        ],
        foreign_keys: vec![
            ForeignKey::new("race_id", "races"),
            ForeignKey::new("icon_id", "icons"),
        ],
        indexes: vec![
            Index::on(&["race_id"]),
            Index::on(&["corporation_id"]),
            Index::on(&["name_en"]),
        ],
        child_tables: owned_strings(&[]),
        array_source: None,
    };
    proof {
        assert(schema_view(t).columns =~= spec_t_bloodlines().columns);
        assert(schema_view(t).foreign_keys =~= spec_t_bloodlines().foreign_keys);
        assert(schema_view(t).indexes[0].columns =~= spec_t_bloodlines().indexes[0].columns);
        assert(schema_view(t).indexes[1].columns =~= spec_t_bloodlines().indexes[1].columns);
        assert(schema_view(t).indexes[2].columns =~= spec_t_bloodlines().indexes[2].columns);
        assert(schema_view(t).indexes =~= spec_t_bloodlines().indexes);
        assert(schema_view(t).child_tables =~= spec_t_bloodlines().child_tables);
        assert(schema_view(t) == spec_t_bloodlines());
    }
    t
}

pub open spec fn spec_t_factions() -> TableSchemaV {
    TableSchemaV {
        name: "factions"@,
        source_file: "factions.jsonl"@,
        columns: seq![
            ColumnV { name: "id"@, col_type: ColumnType::Integer, nullable: false, json_field: None },
            ColumnV { name: "name"@, col_type: ColumnType::Localized, nullable: true, json_field: None },
            ColumnV { name: "description"@, col_type: ColumnType::Localized, nullable: true, json_field: None },
            ColumnV { name: "short_description"@, col_type: ColumnType::Localized, nullable: true, json_field: None },
            ColumnV { name: "corporation_id"@, col_type: ColumnType::Integer, nullable: true, json_field: None },
            ColumnV { name: "militia_corporation_id"@, col_type: ColumnType::Integer, nullable: true, json_field: None },
            ColumnV { name: "solar_system_id"@, col_type: ColumnType::Integer, nullable: true, json_field: None },
            ColumnV { name: "icon_id"@, col_type: ColumnType::Integer, nullable: true, json_field: None },
            ColumnV { name: "size_factor"@, col_type: ColumnType::Real, nullable: true, json_field: None },
            ColumnV { name: "unique_name"@, col_type: ColumnType::Boolean, nullable: true, json_field: None },
        ],
        foreign_keys: seq![
            ForeignKeyV { column: "icon_id"@, references_table: "icons"@, references_column: "id"@ },
        ],
        indexes: seq![
            IndexV { columns: seq!["icon_id"@], unique: false },
            IndexV { columns: seq!["solar_system_id"@], unique: false },
            IndexV { columns: seq!["corporation_id"@], unique: false },
            IndexV { columns: seq!["militia_corporation_id"@], unique: false },
            IndexV { columns: seq!["name_en"@], unique: false },
        ],
        child_tables: seq![],
        array_source: None,
    }
}

fn t_factions() -> (t: TableSchema)
    ensures
        schema_view(t) == spec_t_factions(),
{
    let t = TableSchema {
        name: "factions".to_owned(),
        source_file: "factions.jsonl".to_owned(),
        columns: vec![
            Column::required("id", ColumnType::Integer),
            Column::new("name", ColumnType::Localized),
            Column::new("description", ColumnType::Localized),
            Column::new("short_description", ColumnType::Localized),
            Column::new("corporation_id", ColumnType::Integer),
            Column::new("militia_corporation_id", ColumnType::Integer),
            Column::new("solar_system_id", ColumnType::Integer),
            Column::new("icon_id", ColumnType::Integer),
            Column::new("size_factor", ColumnType::Real),
            Column::new("unique_name", ColumnType::Boolean),
        ],
        foreign_keys: vec![
            ForeignKey::new("icon_id", "icons"),
        ],
        indexes: vec![
            Index::on(&["icon_id"]),
            Index::on(&["solar_system_id"]),
            Index::on(&["corporation_id"]),
            Index::on(&["militia_corporation_id"]),
            Index::on(&["name_en"]),
        ],
        child_tables: owned_strings(&[]),
        array_source: None,
    };
    proof {
        assert(schema_view(t).columns =~= spec_t_factions().columns);
        assert(schema_view(t).foreign_keys =~= spec_t_factions().foreign_keys);
        assert(schema_view(t).indexes[0].columns =~= spec_t_factions().indexes[0].columns);
        assert(schema_view(t).indexes[1].columns =~= spec_t_factions().indexes[1].columns);
        assert(schema_view(t).indexes[2].columns =~= spec_t_factions().indexes[2].columns);
        assert(schema_view(t).indexes[3].columns =~= spec_t_factions().indexes[3].columns);
        assert(schema_view(t).indexes[4].columns =~= spec_t_factions().indexes[4].columns);
        assert(schema_view(t).indexes =~= spec_t_factions().indexes);
        assert(schema_view(t).child_tables =~= spec_t_factions().child_tables);
        assert(schema_view(t) == spec_t_factions());
    }
    t
}

pub open spec fn spec_t_npc_corporations() -> TableSchemaV {
    TableSchemaV {
        name: "npc_corporations"@,
        source_file: "npcCorporations.jsonl"@,
        columns: seq![
            ColumnV { name: "id"@, col_type: ColumnType::Integer, nullable: false, json_field: None },
            ColumnV { name: "name"@, col_type: ColumnType::Localized, nullable: true, json_field: None },
            ColumnV { name: "description"@, col_type: ColumnType::Localized, nullable: true, json_field: None },
            ColumnV { name: "ceo_id"@, col_type: ColumnType::Integer, nullable: true, json_field: None },
            ColumnV { name: "station_id"@, col_type: ColumnType::Integer, nullable: true, json_field: None },
            ColumnV { name: "ticker_name"@, col_type: ColumnType::Text, nullable: true, json_field: None },
            ColumnV { name: "unique_name"@, col_type: ColumnType::Boolean, nullable: true, json_field: None },
            ColumnV { name: "deleted"@, col_type: ColumnType::Boolean, nullable: true, json_field: None },
            ColumnV { name: "extent"@, col_type: ColumnType::Text, nullable: true, json_field: None },
            ColumnV { name: "has_player_personnel_manager"@, col_type: ColumnType::Boolean, nullable: true, json_field: None },
            ColumnV { name: "initial_price"@, col_type: ColumnType::Real, nullable: true, json_field: None },
            ColumnV { name: "member_limit"@, col_type: ColumnType::Integer, nullable: true, json_field: None },
            ColumnV { name: "min_security"@, col_type: ColumnType::Real, nullable: true, json_field: None },
            ColumnV { name: "minimum_join_standing"@, col_type: ColumnType::Real, nullable: true, json_field: None },
            ColumnV { name: "send_char_termination_message"@, col_type: ColumnType::Boolean, nullable: true, json_field: None },
            ColumnV { name: "shares"@, col_type: ColumnType::Integer, nullable: true, json_field: None },
            ColumnV { name: "size"@, col_type: ColumnType::Text, nullable: true, json_field: None },
            ColumnV { name: "tax_rate"@, col_type: ColumnType::Real, nullable: true, json_field: None },
        ],
        foreign_keys: seq![],
        indexes: seq![
            IndexV { columns: seq!["name_en"@], unique: false },
            IndexV { columns: seq!["ticker_name"@], unique: false },
        ],
        child_tables: seq![],
        array_source: None,
    }
}

fn t_npc_corporations() -> (t: TableSchema)
    ensures
        schema_view(t) == spec_t_npc_corporations(),
{
    let t = TableSchema {
        name: "npc_corporations".to_owned(),
        source_file: "npcCorporations.jsonl".to_owned(),
        columns: vec![
            Column::required("id", ColumnType::Integer),
            Column::new("name", ColumnType::Localized),
            Column::new("description", ColumnType::Localized),
            Column::new("ceo_id", ColumnType::Integer),
            Column::new("station_id", ColumnType::Integer),
            Column::new("ticker_name", ColumnType::Text),
            Column::new("unique_name", ColumnType::Boolean),
            Column::new("deleted", ColumnType::Boolean),
            Column::new("extent", ColumnType::Text),
            Column::new("has_player_personnel_manager", ColumnType::Boolean),
            Column::new("initial_price", ColumnType::Real),
            Column::new("member_limit", ColumnType::Integer),
            Column::new("min_security", ColumnType::Real),
            Column::new("minimum_join_standing", ColumnType::Real),
            Column::new("send_char_termination_message", ColumnType::Boolean),
            Column::new("shares", ColumnType::Integer),
            Column::new("size", ColumnType::Text),
            Column::new("tax_rate", ColumnType::Real),
        ],
        foreign_keys: vec![],
        indexes: vec![
            Index::on(&["name_en"]),
            Index::on(&["ticker_name"]),
        ],
        child_tables: owned_strings(&[]),
        array_source: None,
    };
    proof {
        assert(schema_view(t).columns =~= spec_t_npc_corporations().columns);
        assert(schema_view(t).foreign_keys =~= spec_t_npc_corporations().foreign_keys);
        assert(schema_view(t).indexes[0].columns =~= spec_t_npc_corporations().indexes[0].columns);
        assert(schema_view(t).indexes[1].columns =~= spec_t_npc_corporations().indexes[1].columns);
        assert(schema_view(t).indexes =~= spec_t_npc_corporations().indexes);
        assert(schema_view(t).child_tables =~= spec_t_npc_corporations().child_tables);
        assert(schema_view(t) == spec_t_npc_corporations());
    }
    t
}

pub open spec fn spec_t_map_constellations() -> TableSchemaV {
    TableSchemaV {
        name: "map_constellations"@,
        source_file: "mapConstellations.jsonl"@,
        columns: seq![
            ColumnV { name: "id"@, col_type: ColumnType::Integer, nullable: false, json_field: None },
            ColumnV { name: "name"@, col_type: ColumnType::Localized, nullable: true, json_field: None },
            ColumnV { name: "region_id"@, col_type: ColumnType::Integer, nullable: true, json_field: None },
            ColumnV { name: "faction_id"@, col_type: ColumnType::Integer, nullable: true, json_field: None },
            ColumnV { name: "center_x"@, col_type: ColumnType::Real, nullable: true, json_field: None },
            ColumnV { name: "center_y"@, col_type: ColumnType::Real, nullable: true, json_field: None },
            ColumnV { name: "center_z"@, col_type: ColumnType::Real, nullable: true, json_field: None },
            ColumnV { name: "max_x"@, col_type: ColumnType::Real, nullable: true, json_field: None },
            ColumnV { name: "max_y"@, col_type: ColumnType::Real, nullable: true, json_field: None },
            ColumnV { name: "max_z"@, col_type: ColumnType::Real, nullable: true, json_field: None },
            ColumnV { name: "min_x"@, col_type: ColumnType::Real, nullable: true, json_field: None },
            ColumnV { name: "min_y"@, col_type: ColumnType::Real, nullable: true, json_field: None },
            ColumnV { name: "min_z"@, col_type: ColumnType::Real, nullable: true, json_field: None },
            ColumnV { name: "radius"@, col_type: ColumnType::Real, nullable: true, json_field: None },
        ],
        foreign_keys: seq![
            ForeignKeyV { column: "region_id"@, references_table: "map_regions"@, references_column: "id"@ },
        ],
        indexes: seq![
            IndexV { columns: seq!["region_id"@], unique: false },
            IndexV { columns: seq!["faction_id"@], unique: false },
            IndexV { columns: seq!["name_en"@], unique: false },
        ],
        child_tables: seq![],
        array_source: None,
    }
}

fn t_map_constellations() -> (t: TableSchema)
    ensures
        schema_view(t) == spec_t_map_constellations(),
{
    let t = TableSchema {
        name: "map_constellations".to_owned(),
        source_file: "mapConstellations.jsonl".to_owned(),
        columns: vec![
            Column::required("id", ColumnType::Integer),
            Column::new("name", ColumnType::Localized),
            Column::new("region_id", ColumnType::Integer),
            Column::new("faction_id", ColumnType::Integer),
            Column::new("center_x", ColumnType::Real),
            Column::new("center_y", ColumnType::Real),
            Column::new("center_z", ColumnType::Real),
            Column::new("max_x", ColumnType::Real),
            Column::new("max_y", ColumnType::Real),
            Column::new("max_z", ColumnType::Real),
            Column::new("min_x", ColumnType::Real),
            Column::new("min_y", ColumnType::Real),
            Column::new("min_z", ColumnType::Real),
            Column::new("radius", ColumnType::Real),
        ],
        foreign_keys: vec![
            ForeignKey::new("region_id", "map_regions"),
        ],
        indexes: vec![
            Index::on(&["region_id"]),
            Index::on(&["faction_id"]),
            Index::on(&["name_en"]),
        ],
        child_tables: owned_strings(&[]),
        array_source: None,
    };
    proof {
        assert(schema_view(t).columns =~= spec_t_map_constellations().columns);
        assert(schema_view(t).foreign_keys =~= spec_t_map_constellations().foreign_keys);
        assert(schema_view(t).indexes[0].columns =~= spec_t_map_constellations().indexes[0].columns);
        assert(schema_view(t).indexes[1].columns =~= spec_t_map_constellations().indexes[1].columns);
        assert(schema_view(t).indexes[2].columns =~= spec_t_map_constellations().indexes[2].columns);
        assert(schema_view(t).indexes =~= spec_t_map_constellations().indexes);
        assert(schema_view(t).child_tables =~= spec_t_map_constellations().child_tables);
        assert(schema_view(t) == spec_t_map_constellations());
    }
    t
}

pub open spec fn spec_t_types() -> TableSchemaV {
    TableSchemaV {
        name: "types"@,
        source_file: "types.jsonl"@,
        columns: seq![
            ColumnV { name: "id"@, col_type: ColumnType::Integer, nullable: false, json_field: None },
            ColumnV { name: "name"@, col_type: ColumnType::Localized, nullable: true, json_field: None },
            ColumnV { name: "description"@, col_type: ColumnType::Localized, nullable: true, json_field: None },
            ColumnV { name: "group_id"@, col_type: ColumnType::Integer, nullable: true, json_field: None },
            ColumnV { name: "graphic_id"@, col_type: ColumnType::Integer, nullable: true, json_field: None },
            ColumnV { name: "icon_id"@, col_type: ColumnType::Integer, nullable: true, json_field: None },
            ColumnV { name: "market_group_id"@, col_type: ColumnType::Integer, nullable: true, json_field: None },
            ColumnV { name: "meta_group_id"@, col_type: ColumnType::Integer, nullable: true, json_field: None },
            ColumnV { name: "mass"@, col_type: ColumnType::Real, nullable: true, json_field: None },
            ColumnV { name: "volume"@, col_type: ColumnType::Real, nullable: true, json_field: None },
            ColumnV { name: "radius"@, col_type: ColumnType::Real, nullable: true, json_field: None },
            ColumnV { name: "packaged_volume"@, col_type: ColumnType::Real, nullable: true, json_field: None },
            ColumnV { name: "portion_size"@, col_type: ColumnType::Integer, nullable: true, json_field: None },
            ColumnV { name: "capacity"@, col_type: ColumnType::Real, nullable: true, json_field: None },
            ColumnV { name: "base_price"@, col_type: ColumnType::Real, nullable: true, json_field: None },
            ColumnV { name: "published"@, col_type: ColumnType::Boolean, nullable: true, json_field: None },
            ColumnV { name: "race_id"@, col_type: ColumnType::Integer, nullable: true, json_field: None },
            ColumnV { name: "faction_id"@, col_type: ColumnType::Integer, nullable: true, json_field: None },
            ColumnV { name: "sof_faction_name"@, col_type: ColumnType::Text, nullable: true, json_field: None },
            ColumnV { name: "sound_id"@, col_type: ColumnType::Integer, nullable: true, json_field: None },
            ColumnV { name: "variation_parent_type_id"@, col_type: ColumnType::Integer, nullable: true, json_field: None },
        ],
        foreign_keys: seq![
            ForeignKeyV { column: "group_id"@, references_table: "groups"@, references_column: "id"@ },
            ForeignKeyV { column: "graphic_id"@, references_table: "graphics"@, references_column: "id"@ },
            ForeignKeyV { column: "icon_id"@, references_table: "icons"@, references_column: "id"@ },
            ForeignKeyV { column: "market_group_id"@, references_table: "market_groups"@, references_column: "id"@ },
            ForeignKeyV { column: "meta_group_id"@, references_table: "meta_groups"@, references_column: "id"@ },
            ForeignKeyV { column: "race_id"@, references_table: "races"@, references_column: "id"@ },
        ],
        indexes: seq![
            IndexV { columns: seq!["group_id"@], unique: false },
            IndexV { columns: seq!["graphic_id"@], unique: false },
            IndexV { columns: seq!["icon_id"@], unique: false },
            IndexV { columns: seq!["market_group_id"@], unique: false },
            IndexV { columns: seq!["meta_group_id"@], unique: false },
            IndexV { columns: seq!["race_id"@], unique: false },
            IndexV { columns: seq!["name_en"@], unique: false },
            IndexV { columns: seq!["published"@], unique: false },
        ],
        child_tables: seq![],
        array_source: None,
    }
}

fn t_types() -> (t: TableSchema)
    ensures
        schema_view(t) == spec_t_types(),
{
    let t = TableSchema {
        name: "types".to_owned(),
        source_file: "types.jsonl".to_owned(),
        columns: vec![
            Column::required("id", ColumnType::Integer),
            Column::new("name", ColumnType::Localized),
            Column::new("description", ColumnType::Localized),
            Column::new("group_id", ColumnType::Integer),
            Column::new("graphic_id", ColumnType::Integer),
            Column::new("icon_id", ColumnType::Integer),
            Column::new("market_group_id", ColumnType::Integer),
            Column::new("meta_group_id", ColumnType::Integer),
            Column::new("mass", ColumnType::Real),
            Column::new("volume", ColumnType::Real),
            Column::new("radius", ColumnType::Real),
            Column::new("packaged_volume", ColumnType::Real),
            Column::new("portion_size", ColumnType::Integer),
            Column::new("capacity", ColumnType::Real),
            Column::new("base_price", ColumnType::Real),
            Column::new("published", ColumnType::Boolean),
            Column::new("race_id", ColumnType::Integer),
            Column::new("faction_id", ColumnType::Integer),
            Column::new("sof_faction_name", ColumnType::Text),
            Column::new("sound_id", ColumnType::Integer),
            Column::new("variation_parent_type_id", ColumnType::Integer),
        ],
        foreign_keys: vec![
            ForeignKey::new("group_id", "groups"),
            ForeignKey::new("graphic_id", "graphics"),
            ForeignKey::new("icon_id", "icons"),
            ForeignKey::new("market_group_id", "market_groups"),
            ForeignKey::new("meta_group_id", "meta_groups"),
            ForeignKey::new("race_id", "races"),
        ],
        indexes: vec![
            Index::on(&["group_id"]),
            Index::on(&["graphic_id"]),
            Index::on(&["icon_id"]),
            Index::on(&["market_group_id"]),
            Index::on(&["meta_group_id"]),
            Index::on(&["race_id"]),
            Index::on(&["name_en"]),
            Index::on(&["published"]),
        ],
        child_tables: owned_strings(&[]),
        array_source: None,
    };
    proof {
        assert(schema_view(t).columns =~= spec_t_types().columns);
        assert(schema_view(t).foreign_keys =~= spec_t_types().foreign_keys);
        assert(schema_view(t).indexes[0].columns =~= spec_t_types().indexes[0].columns);
        assert(schema_view(t).indexes[1].columns =~= spec_t_types().indexes[1].columns);
        assert(schema_view(t).indexes[2].columns =~= spec_t_types().indexes[2].columns);
        assert(schema_view(t).indexes[3].columns =~= spec_t_types().indexes[3].columns);
        assert(schema_view(t).indexes[4].columns =~= spec_t_types().indexes[4].columns);
        assert(schema_view(t).indexes[5].columns =~= spec_t_types().indexes[5].columns);
        assert(schema_view(t).indexes[6].columns =~= spec_t_types().indexes[6].columns);
        assert(schema_view(t).indexes[7].columns =~= spec_t_types().indexes[7].columns);
        assert(schema_view(t).indexes =~= spec_t_types().indexes);
        assert(schema_view(t).child_tables =~= spec_t_types().child_tables);
        assert(schema_view(t) == spec_t_types());
    }
    t
}

pub open spec fn spec_t_compressible_types() -> TableSchemaV {
    TableSchemaV {
        name: "compressible_types"@,
        source_file: "compressibleTypes.jsonl"@,
        columns: seq![
            ColumnV { name: "id"@, col_type: ColumnType::Integer, nullable: false, json_field: None },
            ColumnV { name: "compressed_type_id"@, col_type: ColumnType::Integer, nullable: true, json_field: None },
        ],
        foreign_keys: seq![
            ForeignKeyV { column: "id"@, references_table: "types"@, references_column: "id"@ },
            ForeignKeyV { column: "compressed_type_id"@, references_table: "types"@, references_column: "id"@ },
        ],
        indexes: seq![
            IndexV { columns: seq!["compressed_type_id"@], unique: false },
        ],
        child_tables: seq![],
        array_source: None,
    }
}

fn t_compressible_types() -> (t: TableSchema)
    ensures
        schema_view(t) == spec_t_compressible_types(),
{
    let t = TableSchema {
        name: "compressible_types".to_owned(),
        source_file: "compressibleTypes.jsonl".to_owned(),
        columns: vec![
            Column::required("id", ColumnType::Integer),
            Column::new("compressed_type_id", ColumnType::Integer),
        ],
        foreign_keys: vec![
            ForeignKey::new("id", "types"),
            ForeignKey::new("compressed_type_id", "types"),
        ],
        indexes: vec![
            Index::on(&["compressed_type_id"]),
        ],
        child_tables: owned_strings(&[]),
        array_source: None,
    };
    proof {
        assert(schema_view(t).columns =~= spec_t_compressible_types().columns);
        assert(schema_view(t).foreign_keys =~= spec_t_compressible_types().foreign_keys);
        assert(schema_view(t).indexes[0].columns =~= spec_t_compressible_types().indexes[0].columns);
        assert(schema_view(t).indexes =~= spec_t_compressible_types().indexes);
        assert(schema_view(t).child_tables =~= spec_t_compressible_types().child_tables);
        assert(schema_view(t) == spec_t_compressible_types());
    }
    t
}

pub open spec fn spec_t_npc_characters() -> TableSchemaV {
    TableSchemaV {
        name: "npc_characters"@,
        source_file: "npcCharacters.jsonl"@,
        columns: seq![
            ColumnV { name: "id"@, col_type: ColumnType::Integer, nullable: false, json_field: None },
            ColumnV { name: "name"@, col_type: ColumnType::Localized, nullable: true, json_field: None },
            ColumnV { name: "bloodline_id"@, col_type: ColumnType::Integer, nullable: true, json_field: None },
            ColumnV { name: "corporation_id"@, col_type: ColumnType::Integer, nullable: true, json_field: None },
            ColumnV { name: "race_id"@, col_type: ColumnType::Integer, nullable: true, json_field: None },
            ColumnV { name: "location_id"@, col_type: ColumnType::Integer, nullable: true, json_field: None },
            ColumnV { name: "ceo"@, col_type: ColumnType::Boolean, nullable: true, json_field: None },
            ColumnV { name: "gender"@, col_type: ColumnType::Boolean, nullable: true, json_field: None },
            ColumnV { name: "start_date"@, col_type: ColumnType::Text, nullable: true, json_field: None },
            ColumnV { name: "unique_name"@, col_type: ColumnType::Boolean, nullable: true, json_field: None },
        ],
        foreign_keys: seq![
            ForeignKeyV { column: "bloodline_id"@, references_table: "bloodlines"@, references_column: "id"@ },
            ForeignKeyV { column: "corporation_id"@, references_table: "npc_corporations"@, references_column: "id"@ },
            ForeignKeyV { column: "race_id"@, references_table: "races"@, references_column: "id"@ },
        ],
        indexes: seq![
            IndexV { columns: seq!["bloodline_id"@], unique: false },
            IndexV { columns: seq!["corporation_id"@], unique: false },
            IndexV { columns: seq!["race_id"@], unique: false },
            IndexV { columns: seq!["name_en"@], unique: false },
        ],
        child_tables: seq![],
        array_source: None,
    }
}

fn t_npc_characters() -> (t: TableSchema)
    ensures
        schema_view(t) == spec_t_npc_characters(),
{
    let t = TableSchema {
        name: "npc_characters".to_owned(),
        source_file: "npcCharacters.jsonl".to_owned(),
        columns: vec![
            Column::required("id", ColumnType::Integer),
            Column::new("name", ColumnType::Localized),
            Column::new("bloodline_id", ColumnType::Integer),
            Column::new("corporation_id", ColumnType::Integer),
            Column::new("race_id", ColumnType::Integer),
            Column::new("location_id", ColumnType::Integer),
            Column::new("ceo", ColumnType::Boolean),
            Column::new("gender", ColumnType::Boolean),
            Column::new("start_date", ColumnType::Text),
            Column::new("unique_name", ColumnType::Boolean),
        ],
        foreign_keys: vec![
            ForeignKey::new("bloodline_id", "bloodlines"),
            ForeignKey::new("corporation_id", "npc_corporations"),
            ForeignKey::new("race_id", "races"),
        ],
        indexes: vec![
            Index::on(&["bloodline_id"]),
            Index::on(&["corporation_id"]),
            Index::on(&["race_id"]),
            Index::on(&["name_en"]),
        ],
        child_tables: owned_strings(&[]),
        array_source: None,
    };
    proof {
        assert(schema_view(t).columns =~= spec_t_npc_characters().columns);
        assert(schema_view(t).foreign_keys =~= spec_t_npc_characters().foreign_keys);
        assert(schema_view(t).indexes[0].columns =~= spec_t_npc_characters().indexes[0].columns);
        assert(schema_view(t).indexes[1].columns =~= spec_t_npc_characters().indexes[1].columns);
        assert(schema_view(t).indexes[2].columns =~= spec_t_npc_characters().indexes[2].columns);
        assert(schema_view(t).indexes[3].columns =~= spec_t_npc_characters().indexes[3].columns);
        assert(schema_view(t).indexes =~= spec_t_npc_characters().indexes);
        assert(schema_view(t).child_tables =~= spec_t_npc_characters().child_tables);
        assert(schema_view(t) == spec_t_npc_characters());
    }
    t
}

pub open spec fn spec_t_sovereignty_upgrades() -> TableSchemaV {
    TableSchemaV {
        name: "sovereignty_upgrades"@,
        source_file: "sovereigntyUpgrades.jsonl"@,
        columns: seq![
            ColumnV { name: "id"@, col_type: ColumnType::Integer, nullable: false, json_field: None },
            ColumnV { name: "fuel_type_id"@, col_type: ColumnType::Integer, nullable: true, json_field: None },
            ColumnV { name: "fuel_hourly_upkeep"@, col_type: ColumnType::Integer, nullable: true, json_field: None },
            ColumnV { name: "fuel_startup_cost"@, col_type: ColumnType::Integer, nullable: true, json_field: None },
            ColumnV { name: "mutually_exclusive_group"@, col_type: ColumnType::Text, nullable: true, json_field: None },
            ColumnV { name: "power_allocation"@, col_type: ColumnType::Integer, nullable: true, json_field: None },
            ColumnV { name: "workforce_allocation"@, col_type: ColumnType::Integer, nullable: true, json_field: None },
        ],
        foreign_keys: seq![
            ForeignKeyV { column: "id"@, references_table: "types"@, references_column: "id"@ },
            ForeignKeyV { column: "fuel_type_id"@, references_table: "types"@, references_column: "id"@ },
        ],
        indexes: seq![
            IndexV { columns: seq!["fuel_type_id"@], unique: false },
        ],
        child_tables: seq![],
        array_source: None,
    }
}

fn t_sovereignty_upgrades() -> (t: TableSchema)
    ensures
        schema_view(t) == spec_t_sovereignty_upgrades(),
{
    let t = TableSchema {
        name: "sovereignty_upgrades".to_owned(),
        source_file: "sovereigntyUpgrades.jsonl".to_owned(),
        columns: vec![
            Column::required("id", ColumnType::Integer),
            Column::new("fuel_type_id", ColumnType::Integer),
            Column::new("fuel_hourly_upkeep", ColumnType::Integer),
            Column::new("fuel_startup_cost", ColumnType::Integer),
            Column::new("mutually_exclusive_group", ColumnType::Text),
            Column::new("power_allocation", ColumnType::Integer),
            Column::new("workforce_allocation", ColumnType::Integer),
        ],
        foreign_keys: vec![
            ForeignKey::new("id", "types"),
            ForeignKey::new("fuel_type_id", "types"),
        ],
        indexes: vec![
            Index::on(&["fuel_type_id"]),
        ],
        child_tables: owned_strings(&[]),
        array_source: None,
    };
    proof {
        assert(schema_view(t).columns =~= spec_t_sovereignty_upgrades().columns);
        assert(schema_view(t).foreign_keys =~= spec_t_sovereignty_upgrades().foreign_keys);
        assert(schema_view(t).indexes[0].columns =~= spec_t_sovereignty_upgrades().indexes[0].columns);
        assert(schema_view(t).indexes =~= spec_t_sovereignty_upgrades().indexes);
        assert(schema_view(t).child_tables =~= spec_t_sovereignty_upgrades().child_tables);
        assert(schema_view(t) == spec_t_sovereignty_upgrades());
    }
    t
}

pub open spec fn spec_t_ancestries() -> TableSchemaV {
    TableSchemaV {
        name: "ancestries"@,
        source_file: "ancestries.jsonl"@,
        columns: seq![
            ColumnV { name: "id"@, col_type: ColumnType::Integer, nullable: false, json_field: None },
            ColumnV { name: "name"@, col_type: ColumnType::Localized, nullable: true, json_field: None },
            ColumnV { name: "description"@, col_type: ColumnType::Localized, nullable: true, json_field: None },
            ColumnV { name: "short_description"@, col_type: ColumnType::Localized, nullable: true, json_field: None },
            ColumnV { name: "bloodline_id"@, col_type: ColumnType::Integer, nullable: true, json_field: None },
            ColumnV { name: "charisma"@, col_type: ColumnType::Integer, nullable: true, json_field: None },
            ColumnV { name: "intelligence"@, col_type: ColumnType::Integer, nullable: true, json_field: None },
            ColumnV { name: "memory"@, col_type: ColumnType::Integer, nullable: true, json_field: None },
            ColumnV { name: "perception"@, col_type: ColumnType::Integer, nullable: true, json_field: None },
            ColumnV { name: "willpower"@, col_type: ColumnType::Integer, nullable: true, json_field: None },
            ColumnV { name: "icon_id"@, col_type: ColumnType::Integer, nullable: true, json_field: None },
        ],
        foreign_keys: seq![
            ForeignKeyV { column: "bloodline_id"@, references_table: "bloodlines"@, references_column: "id"@ },
            ForeignKeyV { column: "icon_id"@, references_table: "icons"@, references_column: "id"@ },
        ],
        indexes: seq![
            IndexV { columns: seq!["bloodline_id"@], unique: false },
            IndexV { columns: seq!["icon_id"@], unique: false },
            IndexV { columns: seq!["name_en"@], unique: false },
        ],
        child_tables: seq![],
        array_source: None,
    }
}

fn t_ancestries() -> (t: TableSchema)
    ensures
        schema_view(t) == spec_t_ancestries(),
{
    let t = TableSchema {
        name: "ancestries".to_owned(),
        source_file: "ancestries.jsonl".to_owned(),
        columns: vec![
            Column::required("id", ColumnType::Integer),
            Column::new("name", ColumnType::Localized),
            Column::new("description", ColumnType::Localized),
            Column::new("short_description", ColumnType::Localized),
            Column::new("bloodline_id", ColumnType::Integer),
            Column::new("charisma", ColumnType::Integer),
            Column::new("intelligence", ColumnType::Integer),
            Column::new("memory", ColumnType::Integer),
            Column::new("perception", ColumnType::Integer),
            Column::new("willpower", ColumnType::Integer),
            Column::new("icon_id", ColumnType::Integer),
        ],
        foreign_keys: vec![
            ForeignKey::new("bloodline_id", "bloodlines"),
            ForeignKey::new("icon_id", "icons"),
        ],
        indexes: vec![
            Index::on(&["bloodline_id"]),
            Index::on(&["icon_id"]),
            Index::on(&["name_en"]),
        ],
        child_tables: owned_strings(&[]),
        array_source: None,
    };
    proof {
        assert(schema_view(t).columns =~= spec_t_ancestries().columns);
        assert(schema_view(t).foreign_keys =~= spec_t_ancestries().foreign_keys);
        assert(schema_view(t).indexes[0].columns =~= spec_t_ancestries().indexes[0].columns);
        assert(schema_view(t).indexes[1].columns =~= spec_t_ancestries().indexes[1].columns);
        assert(schema_view(t).indexes[2].columns =~= spec_t_ancestries().indexes[2].columns);
        assert(schema_view(t).indexes =~= spec_t_ancestries().indexes);
        assert(schema_view(t).child_tables =~= spec_t_ancestries().child_tables);
        assert(schema_view(t) == spec_t_ancestries());
    }
    t
}

pub open spec fn spec_t_map_solar_systems() -> TableSchemaV {
    TableSchemaV {
        name: "map_solar_systems"@,
        source_file: "mapSolarSystems.jsonl"@,
        columns: seq![
            ColumnV { name: "id"@, col_type: ColumnType::Integer, nullable: false, json_field: None },
            ColumnV { name: "name"@, col_type: ColumnType::Localized, nullable: true, json_field: None },
            ColumnV { name: "constellation_id"@, col_type: ColumnType::Integer, nullable: true, json_field: None },
            ColumnV { name: "region_id"@, col_type: ColumnType::Integer, nullable: true, json_field: None },
            ColumnV { name: "star_id"@, col_type: ColumnType::Integer, nullable: true, json_field: None },
            ColumnV { name: "security_status"@, col_type: ColumnType::Real, nullable: true, json_field: None },
            ColumnV { name: "security_class"@, col_type: ColumnType::Text, nullable: true, json_field: None },
            ColumnV { name: "luminosity"@, col_type: ColumnType::Real, nullable: true, json_field: None },
            ColumnV { name: "radius"@, col_type: ColumnType::Real, nullable: true, json_field: None },
            ColumnV { name: "border"@, col_type: ColumnType::Boolean, nullable: true, json_field: None },
            ColumnV { name: "corridor"@, col_type: ColumnType::Boolean, nullable: true, json_field: None },
            ColumnV { name: "fringe"@, col_type: ColumnType::Boolean, nullable: true, json_field: None },
            ColumnV { name: "hub"@, col_type: ColumnType::Boolean, nullable: true, json_field: None },
            ColumnV { name: "international"@, col_type: ColumnType::Boolean, nullable: true, json_field: None },
            ColumnV { name: "regional"@, col_type: ColumnType::Boolean, nullable: true, json_field: None },
            ColumnV { name: "position_x"@, col_type: ColumnType::Real, nullable: true, json_field: None },
            ColumnV { name: "position_y"@, col_type: ColumnType::Real, nullable: true, json_field: None },
            ColumnV { name: "position_z"@, col_type: ColumnType::Real, nullable: true, json_field: None },
        ],
        foreign_keys: seq![
            ForeignKeyV { column: "constellation_id"@, references_table: "map_constellations"@, references_column: "id"@ },
            ForeignKeyV { column: "region_id"@, references_table: "map_regions"@, references_column: "id"@ },
        ],
        indexes: seq![
            IndexV { columns: seq!["constellation_id"@], unique: false },
            IndexV { columns: seq!["star_id"@], unique: false },
            IndexV { columns: seq!["name_en"@], unique: false },
            IndexV { columns: seq!["security_status"@], unique: false },
        ],
        child_tables: seq![],
        array_source: None,
    }
}

fn t_map_solar_systems() -> (t: TableSchema)
    ensures
        schema_view(t) == spec_t_map_solar_systems(),
{
    let t = TableSchema {
        name: "map_solar_systems".to_owned(),
        source_file: "mapSolarSystems.jsonl".to_owned(),
        columns: vec![
            Column::required("id", ColumnType::Integer),
            Column::new("name", ColumnType::Localized),
            Column::new("constellation_id", ColumnType::Integer),
            Column::new("region_id", ColumnType::Integer),
            Column::new("star_id", ColumnType::Integer),
            Column::new("security_status", ColumnType::Real),
            Column::new("security_class", ColumnType::Text),
            Column::new("luminosity", ColumnType::Real),
            Column::new("radius", ColumnType::Real),
            Column::new("border", ColumnType::Boolean),
            Column::new("corridor", ColumnType::Boolean),
            Column::new("fringe", ColumnType::Boolean),
            Column::new("hub", ColumnType::Boolean),
            Column::new("international", ColumnType::Boolean),
            Column::new("regional", ColumnType::Boolean),
            Column::new("position_x", ColumnType::Real),
            Column::new("position_y", ColumnType::Real),
            Column::new("position_z", ColumnType::Real),
        ],
        foreign_keys: vec![
            ForeignKey::new("constellation_id", "map_constellations"),
            ForeignKey::new("region_id", "map_regions"),
        ],
        indexes: vec![
            Index::on(&["constellation_id"]),
            Index::on(&["star_id"]),
            Index::on(&["name_en"]),
            Index::on(&["security_status"]),
        ],
        child_tables: owned_strings(&[]),
        array_source: None,
    };
    proof {
        assert(schema_view(t).columns =~= spec_t_map_solar_systems().columns);
        assert(schema_view(t).foreign_keys =~= spec_t_map_solar_systems().foreign_keys);
        assert(schema_view(t).indexes[0].columns =~= spec_t_map_solar_systems().indexes[0].columns);
        assert(schema_view(t).indexes[1].columns =~= spec_t_map_solar_systems().indexes[1].columns);
        assert(schema_view(t).indexes[2].columns =~= spec_t_map_solar_systems().indexes[2].columns);
        assert(schema_view(t).indexes[3].columns =~= spec_t_map_solar_systems().indexes[3].columns);
        assert(schema_view(t).indexes =~= spec_t_map_solar_systems().indexes);
        assert(schema_view(t).child_tables =~= spec_t_map_solar_systems().child_tables);
        assert(schema_view(t) == spec_t_map_solar_systems());
    }
    t
}

pub open spec fn spec_t_blueprints() -> TableSchemaV {
    TableSchemaV {
        name: "blueprints"@,
        source_file: "blueprints.jsonl"@,
        columns: seq![
            ColumnV { name: "id"@, col_type: ColumnType::Integer, nullable: false, json_field: None },
            ColumnV { name: "blueprint_type_id"@, col_type: ColumnType::Integer, nullable: true, json_field: None },
            ColumnV { name: "max_production_limit"@, col_type: ColumnType::Integer, nullable: true, json_field: None },
            ColumnV { name: "copying_time"@, col_type: ColumnType::Integer, nullable: true, json_field: None },
            ColumnV { name: "manufacturing_time"@, col_type: ColumnType::Integer, nullable: true, json_field: None },
            ColumnV { name: "research_material_time"@, col_type: ColumnType::Integer, nullable: true, json_field: None },
            ColumnV { name: "research_time_time"@, col_type: ColumnType::Integer, nullable: true, json_field: None },
            ColumnV { name: "invention_time"@, col_type: ColumnType::Integer, nullable: true, json_field: None },
            ColumnV { name: "reaction_time"@, col_type: ColumnType::Integer, nullable: true, json_field: None },
        ],
        foreign_keys: seq![
            ForeignKeyV { column: "blueprint_type_id"@, references_table: "types"@, references_column: "id"@ },
        ],
        indexes: seq![
            IndexV { columns: seq!["blueprint_type_id"@], unique: false },
        ],
        child_tables: seq!["blueprint_materials"@, "blueprint_products"@, "blueprint_skills"@],
        array_source: None,
    }
}

fn t_blueprints() -> (t: TableSchema)
    ensures
        schema_view(t) == spec_t_blueprints(),
{
    let t = TableSchema {
        name: "blueprints".to_owned(),
        source_file: "blueprints.jsonl".to_owned(),
        columns: vec![
            Column::required("id", ColumnType::Integer),
            Column::new("blueprint_type_id", ColumnType::Integer),
            Column::new("max_production_limit", ColumnType::Integer),
            Column::new("copying_time", ColumnType::Integer),
            Column::new("manufacturing_time", ColumnType::Integer),
            Column::new("research_material_time", ColumnType::Integer),
            Column::new("research_time_time", ColumnType::Integer),
            Column::new("invention_time", ColumnType::Integer),
            Column::new("reaction_time", ColumnType::Integer),
        ],
        foreign_keys: vec![
            ForeignKey::new("blueprint_type_id", "types"),
        ],
        indexes: vec![
            Index::on(&["blueprint_type_id"]),
        ],
        child_tables: owned_strings(&["blueprint_materials", "blueprint_products", "blueprint_skills"]),
        array_source: None,
    };
    proof {
        assert(schema_view(t).columns =~= spec_t_blueprints().columns);
        assert(schema_view(t).foreign_keys =~= spec_t_blueprints().foreign_keys);
        assert(schema_view(t).indexes[0].columns =~= spec_t_blueprints().indexes[0].columns);
        assert(schema_view(t).indexes =~= spec_t_blueprints().indexes);
        assert(schema_view(t).child_tables =~= spec_t_blueprints().child_tables);
        assert(schema_view(t) == spec_t_blueprints());
    }
    t
}

pub open spec fn spec_t_skin_licenses() -> TableSchemaV {
    TableSchemaV {
        name: "skin_licenses"@,
        source_file: "skinLicenses.jsonl"@,
        columns: seq![
            ColumnV { name: "id"@, col_type: ColumnType::Integer, nullable: false, json_field: None },
            ColumnV { name: "license_type_id"@, col_type: ColumnType::Integer, nullable: true, json_field: None },
            ColumnV { name: "skin_id"@, col_type: ColumnType::Integer, nullable: true, json_field: None },
            ColumnV { name: "duration"@, col_type: ColumnType::Integer, nullable: true, json_field: None },
        ],
        foreign_keys: seq![
            ForeignKeyV { column: "license_type_id"@, references_table: "types"@, references_column: "id"@ },
            ForeignKeyV { column: "skin_id"@, references_table: "skins"@, references_column: "id"@ },
        ],
        indexes: seq![
            IndexV { columns: seq!["skin_id"@], unique: false },
        ],
        child_tables: seq![],
        array_source: None,
    }
}

fn t_skin_licenses() -> (t: TableSchema)
    ensures
        schema_view(t) == spec_t_skin_licenses(),
{
    let t = TableSchema {
        name: "skin_licenses".to_owned(),
        source_file: "skinLicenses.jsonl".to_owned(),
        columns: vec![
            Column::required("id", ColumnType::Integer),
            Column::new("license_type_id", ColumnType::Integer),
            Column::new("skin_id", ColumnType::Integer),
            Column::new("duration", ColumnType::Integer),
        ],
        foreign_keys: vec![
            ForeignKey::new("license_type_id", "types"),
            ForeignKey::new("skin_id", "skins"),
        ],
        indexes: vec![
            Index::on(&["skin_id"]),
        ],
        child_tables: owned_strings(&[]),
        array_source: None,
    };
    proof {
        assert(schema_view(t).columns =~= spec_t_skin_licenses().columns);
        assert(schema_view(t).foreign_keys =~= spec_t_skin_licenses().foreign_keys);
        assert(schema_view(t).indexes[0].columns =~= spec_t_skin_licenses().indexes[0].columns);
        assert(schema_view(t).indexes =~= spec_t_skin_licenses().indexes);
        assert(schema_view(t).child_tables =~= spec_t_skin_licenses().child_tables);
        assert(schema_view(t) == spec_t_skin_licenses());
    }
    t
}

pub open spec fn spec_t_certificates() -> TableSchemaV {
    TableSchemaV {
        name: "certificates"@,
        source_file: "certificates.jsonl"@,
        columns: seq![
            ColumnV { name: "id"@, col_type: ColumnType::Integer, nullable: false, json_field: None },
            ColumnV { name: "name"@, col_type: ColumnType::Localized, nullable: true, json_field: None },
            ColumnV { name: "description"@, col_type: ColumnType::Localized, nullable: true, json_field: None },
            ColumnV { name: "group_id"@, col_type: ColumnType::Integer, nullable: true, json_field: None },
        ],
        foreign_keys: seq![
            ForeignKeyV { column: "group_id"@, references_table: "groups"@, references_column: "id"@ },
        ],
        indexes: seq![
            IndexV { columns: seq!["name_en"@], unique: false },
        ],
        child_tables: seq![],
        array_source: None,
    }
}

fn t_certificates() -> (t: TableSchema)
    ensures
        schema_view(t) == spec_t_certificates(),
{
    let t = TableSchema {
        name: "certificates".to_owned(),
        source_file: "certificates.jsonl".to_owned(),
        columns: vec![
            Column::required("id", ColumnType::Integer),
            Column::new("name", ColumnType::Localized),
            Column::new("description", ColumnType::Localized),
            Column::new("group_id", ColumnType::Integer),
        ],
        foreign_keys: vec![
            ForeignKey::new("group_id", "groups"),
        ],
        indexes: vec![
            Index::on(&["name_en"]),
        ],
        child_tables: owned_strings(&[]),
        array_source: None,
    };
    proof {
        assert(schema_view(t).columns =~= spec_t_certificates().columns);
        assert(schema_view(t).foreign_keys =~= spec_t_certificates().foreign_keys);
        assert(schema_view(t).indexes[0].columns =~= spec_t_certificates().indexes[0].columns);
        assert(schema_view(t).indexes =~= spec_t_certificates().indexes);
        assert(schema_view(t).child_tables =~= spec_t_certificates().child_tables);
        assert(schema_view(t) == spec_t_certificates());
    }
    t
}

pub open spec fn spec_t_map_stars() -> TableSchemaV {
    TableSchemaV {
        name: "map_stars"@,
        source_file: "mapStars.jsonl"@,
        columns: seq![
            ColumnV { name: "id"@, col_type: ColumnType::Integer, nullable: false, json_field: None },
            ColumnV { name: "solar_system_id"@, col_type: ColumnType::Integer, nullable: true, json_field: None },
            ColumnV { name: "type_id"@, col_type: ColumnType::Integer, nullable: true, json_field: None },
            ColumnV { name: "age"@, col_type: ColumnType::Real, nullable: true, json_field: None },
            ColumnV { name: "life"@, col_type: ColumnType::Real, nullable: true, json_field: None },
            ColumnV { name: "locked"@, col_type: ColumnType::Boolean, nullable: true, json_field: None },
            ColumnV { name: "luminosity"@, col_type: ColumnType::Real, nullable: true, json_field: None },
            ColumnV { name: "radius"@, col_type: ColumnType::Real, nullable: true, json_field: None },
            ColumnV { name: "spectral_class"@, col_type: ColumnType::Text, nullable: true, json_field: None },
            ColumnV { name: "temperature"@, col_type: ColumnType::Real, nullable: true, json_field: None },
        ],
        foreign_keys: seq![
            ForeignKeyV { column: "solar_system_id"@, references_table: "map_solar_systems"@, references_column: "id"@ },
            ForeignKeyV { column: "type_id"@, references_table: "types"@, references_column: "id"@ },
        ],
        indexes: seq![
            IndexV { columns: seq!["solar_system_id"@], unique: false },
        ],
        child_tables: seq![],
        array_source: None,
    }
}

fn t_map_stars() -> (t: TableSchema)
    ensures
        schema_view(t) == spec_t_map_stars(),
{
    let t = TableSchema {
        name: "map_stars".to_owned(),
        source_file: "mapStars.jsonl".to_owned(),
        columns: vec![
            Column::required("id", ColumnType::Integer),
            Column::new("solar_system_id", ColumnType::Integer),
            Column::new("type_id", ColumnType::Integer),
            Column::new("age", ColumnType::Real),
            Column::new("life", ColumnType::Real),
            Column::new("locked", ColumnType::Boolean),
            Column::new("luminosity", ColumnType::Real),
            Column::new("radius", ColumnType::Real),
            Column::new("spectral_class", ColumnType::Text),
            Column::new("temperature", ColumnType::Real),
        ],
        foreign_keys: vec![
            ForeignKey::new("solar_system_id", "map_solar_systems"),
            ForeignKey::new("type_id", "types"),
        ],
        indexes: vec![
            Index::on(&["solar_system_id"]),
        ],
        child_tables: owned_strings(&[]),
        array_source: None,
    };
    proof {
        assert(schema_view(t).columns =~= spec_t_map_stars().columns);
        assert(schema_view(t).foreign_keys =~= spec_t_map_stars().foreign_keys);
        assert(schema_view(t).indexes[0].columns =~= spec_t_map_stars().indexes[0].columns);
        assert(schema_view(t).indexes =~= spec_t_map_stars().indexes);
        assert(schema_view(t).child_tables =~= spec_t_map_stars().child_tables);
        assert(schema_view(t) == spec_t_map_stars());
    }
    t
}

pub open spec fn spec_t_map_planets() -> TableSchemaV {
    TableSchemaV {
        name: "map_planets"@,
        source_file: "mapPlanets.jsonl"@,
        columns: seq![
            ColumnV { name: "id"@, col_type: ColumnType::Integer, nullable: false, json_field: None },
            ColumnV { name: "name"@, col_type: ColumnType::Localized, nullable: true, json_field: None },
            ColumnV { name: "solar_system_id"@, col_type: ColumnType::Integer, nullable: true, json_field: None },
            ColumnV { name: "type_id"@, col_type: ColumnType::Integer, nullable: true, json_field: None },
            ColumnV { name: "celestial_index"@, col_type: ColumnType::Integer, nullable: true, json_field: None },
            ColumnV { name: "orbit_id"@, col_type: ColumnType::Integer, nullable: true, json_field: None },
            ColumnV { name: "orbit_index"@, col_type: ColumnType::Integer, nullable: true, json_field: None },
            ColumnV { name: "radius"@, col_type: ColumnType::Real, nullable: true, json_field: None },
            ColumnV { name: "position_x"@, col_type: ColumnType::Real, nullable: true, json_field: None },
            ColumnV { name: "position_y"@, col_type: ColumnType::Real, nullable: true, json_field: None },
            ColumnV { name: "position_z"@, col_type: ColumnType::Real, nullable: true, json_field: None },
        ],
        foreign_keys: seq![
            ForeignKeyV { column: "solar_system_id"@, references_table: "map_solar_systems"@, references_column: "id"@ },
            ForeignKeyV { column: "type_id"@, references_table: "types"@, references_column: "id"@ },
        ],
        indexes: seq![
            IndexV { columns: seq!["solar_system_id"@], unique: false },
            IndexV { columns: seq!["type_id"@], unique: false },
        ],
        child_tables: seq![],
        array_source: None,
    }
}

fn t_map_planets() -> (t: TableSchema)
    ensures
        schema_view(t) == spec_t_map_planets(),
{
    let t = TableSchema {
        name: "map_planets".to_owned(),
        source_file: "mapPlanets.jsonl".to_owned(),
        columns: vec![
            Column::required("id", ColumnType::Integer),
            Column::new("name", ColumnType::Localized),
            Column::new("solar_system_id", ColumnType::Integer),
            Column::new("type_id", ColumnType::Integer),
            Column::new("celestial_index", ColumnType::Integer),
            Column::new("orbit_id", ColumnType::Integer),
            Column::new("orbit_index", ColumnType::Integer),
            Column::new("radius", ColumnType::Real),
            Column::new("position_x", ColumnType::Real),
            Column::new("position_y", ColumnType::Real),
            Column::new("position_z", ColumnType::Real),
        ],
        foreign_keys: vec![
            ForeignKey::new("solar_system_id", "map_solar_systems"),
            ForeignKey::new("type_id", "types"),
        ],
        indexes: vec![
            Index::on(&["solar_system_id"]),
            Index::on(&["type_id"]),
        ],
        child_tables: owned_strings(&[]),
        array_source: None,
    };
    proof {
        assert(schema_view(t).columns =~= spec_t_map_planets().columns);
        assert(schema_view(t).foreign_keys =~= spec_t_map_planets().foreign_keys);
        assert(schema_view(t).indexes[0].columns =~= spec_t_map_planets().indexes[0].columns);
        assert(schema_view(t).indexes[1].columns =~= spec_t_map_planets().indexes[1].columns);
        assert(schema_view(t).indexes =~= spec_t_map_planets().indexes);
        assert(schema_view(t).child_tables =~= spec_t_map_planets().child_tables);
        assert(schema_view(t) == spec_t_map_planets());
    }
    t
}

pub open spec fn spec_t_map_moons() -> TableSchemaV {
    TableSchemaV {
        name: "map_moons"@,
        source_file: "mapMoons.jsonl"@,
        columns: seq![
            ColumnV { name: "id"@, col_type: ColumnType::Integer, nullable: false, json_field: None },
            ColumnV { name: "solar_system_id"@, col_type: ColumnType::Integer, nullable: true, json_field: None },
            ColumnV { name: "planet_id"@, col_type: ColumnType::Integer, nullable: true, json_field: None },
            ColumnV { name: "type_id"@, col_type: ColumnType::Integer, nullable: true, json_field: None },
            ColumnV { name: "celestial_index"@, col_type: ColumnType::Integer, nullable: true, json_field: None },
            ColumnV { name: "orbit_id"@, col_type: ColumnType::Integer, nullable: true, json_field: None },
            ColumnV { name: "orbit_index"@, col_type: ColumnType::Integer, nullable: true, json_field: None },
            ColumnV { name: "radius"@, col_type: ColumnType::Real, nullable: true, json_field: None },
            ColumnV { name: "position_x"@, col_type: ColumnType::Real, nullable: true, json_field: None },
            ColumnV { name: "position_y"@, col_type: ColumnType::Real, nullable: true, json_field: None },
            ColumnV { name: "position_z"@, col_type: ColumnType::Real, nullable: true, json_field: None },
        ],
        foreign_keys: seq![
            ForeignKeyV { column: "solar_system_id"@, references_table: "map_solar_systems"@, references_column: "id"@ },
            ForeignKeyV { column: "planet_id"@, references_table: "map_planets"@, references_column: "id"@ },
            ForeignKeyV { column: "type_id"@, references_table: "types"@, references_column: "id"@ },
        ],
        indexes: seq![
            IndexV { columns: seq!["planet_id"@], unique: false },
            IndexV { columns: seq!["type_id"@], unique: false },
        ],
        child_tables: seq![],
        array_source: None,
    }
}

fn t_map_moons() -> (t: TableSchema)
    ensures
        schema_view(t) == spec_t_map_moons(),
{
    let t = TableSchema {
        name: "map_moons".to_owned(),
        source_file: "mapMoons.jsonl".to_owned(),
        columns: vec![
            Column::required("id", ColumnType::Integer),
            Column::new("solar_system_id", ColumnType::Integer),
            Column::new("planet_id", ColumnType::Integer),
            Column::new("type_id", ColumnType::Integer),
            Column::new("celestial_index", ColumnType::Integer),
            Column::new("orbit_id", ColumnType::Integer),
            Column::new("orbit_index", ColumnType::Integer),
            Column::new("radius", ColumnType::Real),
            Column::new("position_x", ColumnType::Real),
            Column::new("position_y", ColumnType::Real),
            Column::new("position_z", ColumnType::Real),
        ],
        foreign_keys: vec![
            ForeignKey::new("solar_system_id", "map_solar_systems"),
            ForeignKey::new("planet_id", "map_planets"),
            ForeignKey::new("type_id", "types"),
        ],
        indexes: vec![
            Index::on(&["planet_id"]),
            Index::on(&["type_id"]),
        ],
        child_tables: owned_strings(&[]),
        array_source: None,
    };
    proof {
        assert(schema_view(t).columns =~= spec_t_map_moons().columns);
        assert(schema_view(t).foreign_keys =~= spec_t_map_moons().foreign_keys);
        assert(schema_view(t).indexes[0].columns =~= spec_t_map_moons().indexes[0].columns);
        assert(schema_view(t).indexes[1].columns =~= spec_t_map_moons().indexes[1].columns);
        assert(schema_view(t).indexes =~= spec_t_map_moons().indexes);
        assert(schema_view(t).child_tables =~= spec_t_map_moons().child_tables);
        assert(schema_view(t) == spec_t_map_moons());
    }
    t
}

pub open spec fn spec_t_map_asteroid_belts() -> TableSchemaV {
    TableSchemaV {
        name: "map_asteroid_belts"@,
        source_file: "mapAsteroidBelts.jsonl"@,
        columns: seq![
            ColumnV { name: "id"@, col_type: ColumnType::Integer, nullable: false, json_field: None },
            ColumnV { name: "solar_system_id"@, col_type: ColumnType::Integer, nullable: true, json_field: None },
            ColumnV { name: "planet_id"@, col_type: ColumnType::Integer, nullable: true, json_field: None },
            ColumnV { name: "type_id"@, col_type: ColumnType::Integer, nullable: true, json_field: None },
            ColumnV { name: "celestial_index"@, col_type: ColumnType::Integer, nullable: true, json_field: None },
            ColumnV { name: "orbit_id"@, col_type: ColumnType::Integer, nullable: true, json_field: None },
            ColumnV { name: "orbit_index"@, col_type: ColumnType::Integer, nullable: true, json_field: None },
            ColumnV { name: "position_x"@, col_type: ColumnType::Real, nullable: true, json_field: None },
            ColumnV { name: "position_y"@, col_type: ColumnType::Real, nullable: true, json_field: None },
            ColumnV { name: "position_z"@, col_type: ColumnType::Real, nullable: true, json_field: None },
        ],
        foreign_keys: seq![
            ForeignKeyV { column: "solar_system_id"@, references_table: "map_solar_systems"@, references_column: "id"@ },
            ForeignKeyV { column: "planet_id"@, references_table: "map_planets"@, references_column: "id"@ },
            ForeignKeyV { column: "type_id"@, references_table: "types"@, references_column: "id"@ },
        ],
        indexes: seq![
            IndexV { columns: seq!["planet_id"@], unique: false },
        ],
        child_tables: seq![],
        array_source: None,
    }
}

fn t_map_asteroid_belts() -> (t: TableSchema)
    ensures
        schema_view(t) == spec_t_map_asteroid_belts(),
{
    let t = TableSchema {
        name: "map_asteroid_belts".to_owned(),
        source_file: "mapAsteroidBelts.jsonl".to_owned(),
        columns: vec![
            Column::required("id", ColumnType::Integer),
            Column::new("solar_system_id", ColumnType::Integer),
            Column::new("planet_id", ColumnType::Integer),
            Column::new("type_id", ColumnType::Integer),
            Column::new("celestial_index", ColumnType::Integer),
            Column::new("orbit_id", ColumnType::Integer),
            Column::new("orbit_index", ColumnType::Integer),
            Column::new("position_x", ColumnType::Real),
            Column::new("position_y", ColumnType::Real),
            Column::new("position_z", ColumnType::Real),
        ],
        foreign_keys: vec![
            ForeignKey::new("solar_system_id", "map_solar_systems"),
            ForeignKey::new("planet_id", "map_planets"),
            ForeignKey::new("type_id", "types"),
        ],
        indexes: vec![
            Index::on(&["planet_id"]),
        ],
        child_tables: owned_strings(&[]),
        array_source: None,
    };
    proof {
        assert(schema_view(t).columns =~= spec_t_map_asteroid_belts().columns);
        assert(schema_view(t).foreign_keys =~= spec_t_map_asteroid_belts().foreign_keys);
        assert(schema_view(t).indexes[0].columns =~= spec_t_map_asteroid_belts().indexes[0].columns);
        assert(schema_view(t).indexes =~= spec_t_map_asteroid_belts().indexes);
        assert(schema_view(t).child_tables =~= spec_t_map_asteroid_belts().child_tables);
        assert(schema_view(t) == spec_t_map_asteroid_belts());
    }
    t
}

pub open spec fn spec_t_map_stargates() -> TableSchemaV {
    TableSchemaV {
        name: "map_stargates"@,
        source_file: "mapStargates.jsonl"@,
        columns: seq![
            ColumnV { name: "id"@, col_type: ColumnType::Integer, nullable: false, json_field: None },
            ColumnV { name: "solar_system_id"@, col_type: ColumnType::Integer, nullable: true, json_field: None },
            ColumnV { name: "type_id"@, col_type: ColumnType::Integer, nullable: true, json_field: None },
            ColumnV { name: "destination_stargate_id"@, col_type: ColumnType::Integer, nullable: true, json_field: None },
            ColumnV { name: "destination_solar_system_id"@, col_type: ColumnType::Integer, nullable: true, json_field: None },
            ColumnV { name: "position_x"@, col_type: ColumnType::Real, nullable: true, json_field: None },
            ColumnV { name: "position_y"@, col_type: ColumnType::Real, nullable: true, json_field: None },
            ColumnV { name: "position_z"@, col_type: ColumnType::Real, nullable: true, json_field: None },
        ],
        foreign_keys: seq![
            ForeignKeyV { column: "solar_system_id"@, references_table: "map_solar_systems"@, references_column: "id"@ },
            ForeignKeyV { column: "type_id"@, references_table: "types"@, references_column: "id"@ },
            ForeignKeyV { column: "destination_solar_system_id"@, references_table: "map_solar_systems"@, references_column: "id"@ },
        ],
        indexes: seq![
            IndexV { columns: seq!["solar_system_id"@], unique: false },
            IndexV { columns: seq!["destination_stargate_id"@], unique: false },
            IndexV { columns: seq!["type_id"@], unique: false },
        ],
        child_tables: seq![],
        array_source: None,
    }
}

fn t_map_stargates() -> (t: TableSchema)
    ensures
        schema_view(t) == spec_t_map_stargates(),
{
    let t = TableSchema {
        name: "map_stargates".to_owned(),
        source_file: "mapStargates.jsonl".to_owned(),
        columns: vec![
            Column::required("id", ColumnType::Integer),
            Column::new("solar_system_id", ColumnType::Integer),
            Column::new("type_id", ColumnType::Integer),
            Column::new("destination_stargate_id", ColumnType::Integer),
            Column::new("destination_solar_system_id", ColumnType::Integer),
            Column::new("position_x", ColumnType::Real),
            Column::new("position_y", ColumnType::Real),
            Column::new("position_z", ColumnType::Real),
        ],
        foreign_keys: vec![
            ForeignKey::new("solar_system_id", "map_solar_systems"),
            ForeignKey::new("type_id", "types"),
            ForeignKey::new("destination_solar_system_id", "map_solar_systems"),
        ],
        indexes: vec![
            Index::on(&["solar_system_id"]),
            Index::on(&["destination_stargate_id"]),
            Index::on(&["type_id"]),
        ],
        child_tables: owned_strings(&[]),
        array_source: None,
    };
    proof {
        assert(schema_view(t).columns =~= spec_t_map_stargates().columns);
        assert(schema_view(t).foreign_keys =~= spec_t_map_stargates().foreign_keys);
        assert(schema_view(t).indexes[0].columns =~= spec_t_map_stargates().indexes[0].columns);
        assert(schema_view(t).indexes[1].columns =~= spec_t_map_stargates().indexes[1].columns);
        assert(schema_view(t).indexes[2].columns =~= spec_t_map_stargates().indexes[2].columns);
        assert(schema_view(t).indexes =~= spec_t_map_stargates().indexes);
        assert(schema_view(t).child_tables =~= spec_t_map_stargates().child_tables);
        assert(schema_view(t) == spec_t_map_stargates());
    }
    t
}

pub open spec fn spec_t_npc_stations() -> TableSchemaV {
    TableSchemaV {
        name: "npc_stations"@,
        source_file: "npcStations.jsonl"@,
        columns: seq![
            ColumnV { name: "id"@, col_type: ColumnType::Integer, nullable: false, json_field: None },
            ColumnV { name: "solar_system_id"@, col_type: ColumnType::Integer, nullable: true, json_field: None },
            ColumnV { name: "type_id"@, col_type: ColumnType::Integer, nullable: true, json_field: None },
            ColumnV { name: "owner_id"@, col_type: ColumnType::Integer, nullable: true, json_field: None },
            ColumnV { name: "operation_id"@, col_type: ColumnType::Integer, nullable: true, json_field: None },
            ColumnV { name: "orbit_id"@, col_type: ColumnType::Integer, nullable: true, json_field: None },
            ColumnV { name: "celestial_index"@, col_type: ColumnType::Integer, nullable: true, json_field: None },
            ColumnV { name: "orbit_index"@, col_type: ColumnType::Integer, nullable: true, json_field: None },
            ColumnV { name: "reprocessing_efficiency"@, col_type: ColumnType::Real, nullable: true, json_field: None },
            ColumnV { name: "reprocessing_hangar_flag"@, col_type: ColumnType::Integer, nullable: true, json_field: None },
            ColumnV { name: "reprocessing_stations_take"@, col_type: ColumnType::Real, nullable: true, json_field: None },
            ColumnV { name: "use_operation_name"@, col_type: ColumnType::Boolean, nullable: true, json_field: None },
            ColumnV { name: "position_x"@, col_type: ColumnType::Real, nullable: true, json_field: None },
            ColumnV { name: "position_y"@, col_type: ColumnType::Real, nullable: true, json_field: None },
            ColumnV { name: "position_z"@, col_type: ColumnType::Real, nullable: true, json_field: None },
        ],
        foreign_keys: seq![
            ForeignKeyV { column: "solar_system_id"@, references_table: "map_solar_systems"@, references_column: "id"@ },
            ForeignKeyV { column: "type_id"@, references_table: "types"@, references_column: "id"@ },
            ForeignKeyV { column: "owner_id"@, references_table: "npc_corporations"@, references_column: "id"@ },
            ForeignKeyV { column: "operation_id"@, references_table: "station_operations"@, references_column: "id"@ },
        ],
        indexes: seq![
            IndexV { columns: seq!["solar_system_id"@], unique: false },
            IndexV { columns: seq!["operation_id"@], unique: false },
            IndexV { columns: seq!["type_id"@], unique: false },
            IndexV { columns: seq!["owner_id"@], unique: false },
        ],
        child_tables: seq![],
        array_source: None,
    }
}

fn t_npc_stations() -> (t: TableSchema)
    ensures
        schema_view(t) == spec_t_npc_stations(),
{
    let t = TableSchema {
        name: "npc_stations".to_owned(),
        source_file: "npcStations.jsonl".to_owned(),
        columns: vec![
            Column::required("id", ColumnType::Integer),
            Column::new("solar_system_id", ColumnType::Integer),
            Column::new("type_id", ColumnType::Integer),
            Column::new("owner_id", ColumnType::Integer),
            Column::new("operation_id", ColumnType::Integer),
            Column::new("orbit_id", ColumnType::Integer),
            Column::new("celestial_index", ColumnType::Integer),
            Column::new("orbit_index", ColumnType::Integer),
            Column::new("reprocessing_efficiency", ColumnType::Real),
            Column::new("reprocessing_hangar_flag", ColumnType::Integer),
            Column::new("reprocessing_stations_take", ColumnType::Real),
            Column::new("use_operation_name", ColumnType::Boolean),
            Column::new("position_x", ColumnType::Real),
            Column::new("position_y", ColumnType::Real),
            Column::new("position_z", ColumnType::Real),
        ],
        foreign_keys: vec![
            ForeignKey::new("solar_system_id", "map_solar_systems"),
            ForeignKey::new("type_id", "types"),
            ForeignKey::new("owner_id", "npc_corporations"),
            ForeignKey::new("operation_id", "station_operations"),
        ],
        indexes: vec![
            Index::on(&["solar_system_id"]),
            Index::on(&["operation_id"]),
            Index::on(&["type_id"]),
            Index::on(&["owner_id"]),
        ],
        child_tables: owned_strings(&[]),
        array_source: None,
    };
    proof {
        assert(schema_view(t).columns =~= spec_t_npc_stations().columns);
        assert(schema_view(t).foreign_keys =~= spec_t_npc_stations().foreign_keys);
        assert(schema_view(t).indexes[0].columns =~= spec_t_npc_stations().indexes[0].columns);
        assert(schema_view(t).indexes[1].columns =~= spec_t_npc_stations().indexes[1].columns);
        assert(schema_view(t).indexes[2].columns =~= spec_t_npc_stations().indexes[2].columns);
        assert(schema_view(t).indexes[3].columns =~= spec_t_npc_stations().indexes[3].columns);
        assert(schema_view(t).indexes =~= spec_t_npc_stations().indexes);
        assert(schema_view(t).child_tables =~= spec_t_npc_stations().child_tables);
        assert(schema_view(t) == spec_t_npc_stations());
    }
    t
}

pub open spec fn spec_t_agents_in_space() -> TableSchemaV {
    TableSchemaV {
        name: "agents_in_space"@,
        source_file: "agentsInSpace.jsonl"@,
        columns: seq![
            ColumnV { name: "id"@, col_type: ColumnType::Integer, nullable: false, json_field: None },
            ColumnV { name: "dungeon_id"@, col_type: ColumnType::Integer, nullable: true, json_field: None },
            ColumnV { name: "solar_system_id"@, col_type: ColumnType::Integer, nullable: true, json_field: None },
            ColumnV { name: "spawn_point_id"@, col_type: ColumnType::Integer, nullable: true, json_field: None },
            ColumnV { name: "type_id"@, col_type: ColumnType::Integer, nullable: true, json_field: None },
        ],
        foreign_keys: seq![
            ForeignKeyV { column: "solar_system_id"@, references_table: "map_solar_systems"@, references_column: "id"@ },
            ForeignKeyV { column: "type_id"@, references_table: "types"@, references_column: "id"@ },
        ],
        indexes: seq![
            IndexV { columns: seq!["solar_system_id"@], unique: false },
            IndexV { columns: seq!["type_id"@], unique: false },
        ],
        child_tables: seq![],
        array_source: None,
    }
}

fn t_agents_in_space() -> (t: TableSchema)
    ensures
        schema_view(t) == spec_t_agents_in_space(),
{
    let t = TableSchema {
        name: "agents_in_space".to_owned(),
        source_file: "agentsInSpace.jsonl".to_owned(),
        columns: vec![
            Column::required("id", ColumnType::Integer),
            Column::new("dungeon_id", ColumnType::Integer),
            Column::new("solar_system_id", ColumnType::Integer),
            Column::new("spawn_point_id", ColumnType::Integer),
            Column::new("type_id", ColumnType::Integer),
        ],
        foreign_keys: vec![
            ForeignKey::new("solar_system_id", "map_solar_systems"),
            ForeignKey::new("type_id", "types"),
        ],
        indexes: vec![
            Index::on(&["solar_system_id"]),
            Index::on(&["type_id"]),
        ],
        child_tables: owned_strings(&[]),
        array_source: None,
    };
    proof {
        assert(schema_view(t).columns =~= spec_t_agents_in_space().columns);
        assert(schema_view(t).foreign_keys =~= spec_t_agents_in_space().foreign_keys);
        assert(schema_view(t).indexes[0].columns =~= spec_t_agents_in_space().indexes[0].columns);
        assert(schema_view(t).indexes[1].columns =~= spec_t_agents_in_space().indexes[1].columns);
        assert(schema_view(t).indexes =~= spec_t_agents_in_space().indexes);
        assert(schema_view(t).child_tables =~= spec_t_agents_in_space().child_tables);
        assert(schema_view(t) == spec_t_agents_in_space());
    }
    t
}

pub open spec fn spec_t_type_dogma_attributes() -> TableSchemaV {
    TableSchemaV {
        name: "type_dogma_attributes"@,
        source_file: "typeDogma.jsonl"@,
        columns: seq![
            ColumnV { name: "type_id"@, col_type: ColumnType::Integer, nullable: false, json_field: None },
            ColumnV { name: "attribute_id"@, col_type: ColumnType::Integer, nullable: false, json_field: None },
            ColumnV { name: "value"@, col_type: ColumnType::Real, nullable: false, json_field: None },
        ],
        foreign_keys: seq![
            ForeignKeyV { column: "type_id"@, references_table: "types"@, references_column: "id"@ },
            ForeignKeyV { column: "attribute_id"@, references_table: "dogma_attributes"@, references_column: "id"@ },
        ],
        indexes: seq![
            IndexV { columns: seq!["type_id"@], unique: false },
            IndexV { columns: seq!["attribute_id"@], unique: false },
        ],
        child_tables: seq![],
        array_source: Some(ArraySourceV::Simple { array_field: "dogmaAttributes"@, parent_id_column: "type_id"@ }),
    }
}

fn t_type_dogma_attributes() -> (t: TableSchema)
    ensures
        schema_view(t) == spec_t_type_dogma_attributes(),
{
    let t = TableSchema {
        name: "type_dogma_attributes".to_owned(),
        source_file: "typeDogma.jsonl".to_owned(),
        columns: vec![
            Column::required("type_id", ColumnType::Integer),
            Column::required("attribute_id", ColumnType::Integer),
            Column::required("value", ColumnType::Real),
        ],
        foreign_keys: vec![
            ForeignKey::new("type_id", "types"),
            ForeignKey::new("attribute_id", "dogma_attributes"),
        ],
        indexes: vec![
            Index::on(&["type_id"]),
            Index::on(&["attribute_id"]),
        ],
        child_tables: owned_strings(&[]),
        array_source: Some(ArraySource::Simple {
            array_field: "dogmaAttributes".to_owned(),
            parent_id_column: "type_id".to_owned(),
        }),
    };
    proof {
        assert(schema_view(t).columns =~= spec_t_type_dogma_attributes().columns);
        assert(schema_view(t).foreign_keys =~= spec_t_type_dogma_attributes().foreign_keys);
        assert(schema_view(t).indexes[0].columns =~= spec_t_type_dogma_attributes().indexes[0].columns);
        assert(schema_view(t).indexes[1].columns =~= spec_t_type_dogma_attributes().indexes[1].columns);
        assert(schema_view(t).indexes =~= spec_t_type_dogma_attributes().indexes);
        assert(schema_view(t).child_tables =~= spec_t_type_dogma_attributes().child_tables);
        assert(schema_view(t) == spec_t_type_dogma_attributes());
    }
    t
}

pub open spec fn spec_t_type_dogma_effects() -> TableSchemaV {
    TableSchemaV {
        name: "type_dogma_effects"@,
        source_file: "typeDogma.jsonl"@,
        columns: seq![
            ColumnV { name: "type_id"@, col_type: ColumnType::Integer, nullable: false, json_field: None },
            ColumnV { name: "effect_id"@, col_type: ColumnType::Integer, nullable: false, json_field: None },
            ColumnV { name: "is_default"@, col_type: ColumnType::Boolean, nullable: true, json_field: None },
        ],
        foreign_keys: seq![
            ForeignKeyV { column: "type_id"@, references_table: "types"@, references_column: "id"@ },
            ForeignKeyV { column: "effect_id"@, references_table: "dogma_effects"@, references_column: "id"@ },
        ],
        indexes: seq![
            IndexV { columns: seq!["type_id"@], unique: false },
            IndexV { columns: seq!["effect_id"@], unique: false },
        ],
        child_tables: seq![],
        array_source: Some(ArraySourceV::Simple { array_field: "dogmaEffects"@, parent_id_column: "type_id"@ }),
    }
}

fn t_type_dogma_effects() -> (t: TableSchema)
    ensures
        schema_view(t) == spec_t_type_dogma_effects(),
{
    let t = TableSchema {
        name: "type_dogma_effects".to_owned(),
        source_file: "typeDogma.jsonl".to_owned(),
        columns: vec![
            Column::required("type_id", ColumnType::Integer),
            Column::required("effect_id", ColumnType::Integer),
            Column::new("is_default", ColumnType::Boolean),
        ],
        foreign_keys: vec![
            ForeignKey::new("type_id", "types"),
            ForeignKey::new("effect_id", "dogma_effects"),
        ],
        indexes: vec![
            Index::on(&["type_id"]),
            Index::on(&["effect_id"]),
        ],
        child_tables: owned_strings(&[]),
        array_source: Some(ArraySource::Simple {
            array_field: "dogmaEffects".to_owned(),
            parent_id_column: "type_id".to_owned(),
        }),
    };
    proof {
        assert(schema_view(t).columns =~= spec_t_type_dogma_effects().columns);
        assert(schema_view(t).foreign_keys =~= spec_t_type_dogma_effects().foreign_keys);
        assert(schema_view(t).indexes[0].columns =~= spec_t_type_dogma_effects().indexes[0].columns);
        assert(schema_view(t).indexes[1].columns =~= spec_t_type_dogma_effects().indexes[1].columns);
        assert(schema_view(t).indexes =~= spec_t_type_dogma_effects().indexes);
        assert(schema_view(t).child_tables =~= spec_t_type_dogma_effects().child_tables);
        assert(schema_view(t) == spec_t_type_dogma_effects());
    }
    t
}

pub open spec fn spec_t_type_materials() -> TableSchemaV {
    TableSchemaV {
        name: "type_materials"@,
        source_file: "typeMaterials.jsonl"@,
        columns: seq![
            ColumnV { name: "type_id"@, col_type: ColumnType::Integer, nullable: false, json_field: None },
            ColumnV { name: "material_type_id"@, col_type: ColumnType::Integer, nullable: false, json_field: None },
            ColumnV { name: "quantity"@, col_type: ColumnType::Integer, nullable: false, json_field: None },
        ],
        foreign_keys: seq![
            ForeignKeyV { column: "type_id"@, references_table: "types"@, references_column: "id"@ },
            ForeignKeyV { column: "material_type_id"@, references_table: "types"@, references_column: "id"@ },
        ],
        indexes: seq![
            IndexV { columns: seq!["type_id"@], unique: false },
            IndexV { columns: seq!["material_type_id"@], unique: false },
        ],
        child_tables: seq![],
        array_source: Some(ArraySourceV::Simple { array_field: "materials"@, parent_id_column: "type_id"@ }),
    }
}

fn t_type_materials() -> (t: TableSchema)
    ensures
        schema_view(t) == spec_t_type_materials(),
{
    let t = TableSchema {
        name: "type_materials".to_owned(),
        source_file: "typeMaterials.jsonl".to_owned(),
        columns: vec![
            Column::required("type_id", ColumnType::Integer),
            Column::required("material_type_id", ColumnType::Integer),
            Column::required("quantity", ColumnType::Integer),
        ],
        foreign_keys: vec![
            ForeignKey::new("type_id", "types"),
            ForeignKey::new("material_type_id", "types"),
        ],
        indexes: vec![
            Index::on(&["type_id"]),
            Index::on(&["material_type_id"]),
        ],
        child_tables: owned_strings(&[]),
        array_source: Some(ArraySource::Simple {
            array_field: "materials".to_owned(),
            parent_id_column: "type_id".to_owned(),
        }),
    };
    proof {
        assert(schema_view(t).columns =~= spec_t_type_materials().columns);
        assert(schema_view(t).foreign_keys =~= spec_t_type_materials().foreign_keys);
        assert(schema_view(t).indexes[0].columns =~= spec_t_type_materials().indexes[0].columns);
        assert(schema_view(t).indexes[1].columns =~= spec_t_type_materials().indexes[1].columns);
        assert(schema_view(t).indexes =~= spec_t_type_materials().indexes);
        assert(schema_view(t).child_tables =~= spec_t_type_materials().child_tables);
        assert(schema_view(t) == spec_t_type_materials());
    }
    t
}

pub open spec fn spec_t_blueprint_materials() -> TableSchemaV {
    TableSchemaV {
        name: "blueprint_materials"@,
        source_file: "blueprints.jsonl"@,
        columns: seq![
            ColumnV { name: "blueprint_id"@, col_type: ColumnType::Integer, nullable: false, json_field: None },
            ColumnV { name: "activity"@, col_type: ColumnType::Text, nullable: false, json_field: None },
            ColumnV { name: "type_id"@, col_type: ColumnType::Integer, nullable: false, json_field: None },
            ColumnV { name: "quantity"@, col_type: ColumnType::Integer, nullable: false, json_field: None },
        ],
        foreign_keys: seq![
            ForeignKeyV { column: "blueprint_id"@, references_table: "blueprints"@, references_column: "id"@ },
            ForeignKeyV { column: "type_id"@, references_table: "types"@, references_column: "id"@ },
        ],
        indexes: seq![
            IndexV { columns: seq!["blueprint_id"@], unique: false },
            IndexV { columns: seq!["type_id"@], unique: false },
            IndexV { columns: seq!["activity"@], unique: false },
        ],
        child_tables: seq![],
        array_source: Some(ArraySourceV::BlueprintActivity { activity_column: "activity"@, array_field: "materials"@ }),
    }
}

fn t_blueprint_materials() -> (t: TableSchema)
    ensures
        schema_view(t) == spec_t_blueprint_materials(),
{
    let t = TableSchema {
        name: "blueprint_materials".to_owned(),
        source_file: "blueprints.jsonl".to_owned(),
        columns: vec![
            Column::required("blueprint_id", ColumnType::Integer),
            Column::required("activity", ColumnType::Text),
            Column::required("type_id", ColumnType::Integer),
            Column::required("quantity", ColumnType::Integer),
        ],
        foreign_keys: vec![
            ForeignKey::new("blueprint_id", "blueprints"),
            ForeignKey::new("type_id", "types"),
        ],
        indexes: vec![
            Index::on(&["blueprint_id"]),
            Index::on(&["type_id"]),
            Index::on(&["activity"]),
        ],
        child_tables: owned_strings(&[]),
        array_source: Some(ArraySource::BlueprintActivity {
            activity_column: "activity".to_owned(),
            array_field: "materials".to_owned(),
        }),
    };
    proof {
        assert(schema_view(t).columns =~= spec_t_blueprint_materials().columns);
        assert(schema_view(t).foreign_keys =~= spec_t_blueprint_materials().foreign_keys);
        assert(schema_view(t).indexes[0].columns =~= spec_t_blueprint_materials().indexes[0].columns);
        assert(schema_view(t).indexes[1].columns =~= spec_t_blueprint_materials().indexes[1].columns);
        assert(schema_view(t).indexes[2].columns =~= spec_t_blueprint_materials().indexes[2].columns);
        assert(schema_view(t).indexes =~= spec_t_blueprint_materials().indexes);
        assert(schema_view(t).child_tables =~= spec_t_blueprint_materials().child_tables);
        assert(schema_view(t) == spec_t_blueprint_materials());
    }
    t
}

pub open spec fn spec_t_blueprint_products() -> TableSchemaV {
    TableSchemaV {
        name: "blueprint_products"@,
        source_file: "blueprints.jsonl"@,
        columns: seq![
            ColumnV { name: "blueprint_id"@, col_type: ColumnType::Integer, nullable: false, json_field: None },
            ColumnV { name: "activity"@, col_type: ColumnType::Text, nullable: false, json_field: None },
            ColumnV { name: "type_id"@, col_type: ColumnType::Integer, nullable: false, json_field: None },
            ColumnV { name: "quantity"@, col_type: ColumnType::Integer, nullable: false, json_field: None },
            ColumnV { name: "probability"@, col_type: ColumnType::Real, nullable: true, json_field: None },
        ],
        foreign_keys: seq![
            ForeignKeyV { column: "blueprint_id"@, references_table: "blueprints"@, references_column: "id"@ },
            ForeignKeyV { column: "type_id"@, references_table: "types"@, references_column: "id"@ },
        ],
        indexes: seq![
            IndexV { columns: seq!["blueprint_id"@], unique: false },
            IndexV { columns: seq!["type_id"@], unique: false },
            IndexV { columns: seq!["activity"@], unique: false },
        ],
        child_tables: seq![],
        array_source: Some(ArraySourceV::BlueprintActivity { activity_column: "activity"@, array_field: "products"@ }),
    }
}

fn t_blueprint_products() -> (t: TableSchema)
    ensures
        schema_view(t) == spec_t_blueprint_products(),
{
    let t = TableSchema {
        name: "blueprint_products".to_owned(),
        source_file: "blueprints.jsonl".to_owned(),
        columns: vec![
            Column::required("blueprint_id", ColumnType::Integer),
            Column::required("activity", ColumnType::Text),
            Column::required("type_id", ColumnType::Integer),
            Column::required("quantity", ColumnType::Integer),
            Column::new("probability", ColumnType::Real),
        ],
        foreign_keys: vec![
            ForeignKey::new("blueprint_id", "blueprints"),
            ForeignKey::new("type_id", "types"),
        ],
        indexes: vec![
            Index::on(&["blueprint_id"]),
            Index::on(&["type_id"]),
            Index::on(&["activity"]),
        ],
        child_tables: owned_strings(&[]),
        array_source: Some(ArraySource::BlueprintActivity {
            activity_column: "activity".to_owned(),
            array_field: "products".to_owned(),
        }),
    };
    proof {
        assert(schema_view(t).columns =~= spec_t_blueprint_products().columns);
        assert(schema_view(t).foreign_keys =~= spec_t_blueprint_products().foreign_keys);
        assert(schema_view(t).indexes[0].columns =~= spec_t_blueprint_products().indexes[0].columns);
        assert(schema_view(t).indexes[1].columns =~= spec_t_blueprint_products().indexes[1].columns);
        assert(schema_view(t).indexes[2].columns =~= spec_t_blueprint_products().indexes[2].columns);
        assert(schema_view(t).indexes =~= spec_t_blueprint_products().indexes);
        assert(schema_view(t).child_tables =~= spec_t_blueprint_products().child_tables);
        assert(schema_view(t) == spec_t_blueprint_products());
    }
    t
}

pub open spec fn spec_t_blueprint_skills() -> TableSchemaV {
    TableSchemaV {
        name: "blueprint_skills"@,
        source_file: "blueprints.jsonl"@,
        columns: seq![
            ColumnV { name: "blueprint_id"@, col_type: ColumnType::Integer, nullable: false, json_field: None },
            ColumnV { name: "activity"@, col_type: ColumnType::Text, nullable: false, json_field: None },
            ColumnV { name: "type_id"@, col_type: ColumnType::Integer, nullable: false, json_field: None },
            ColumnV { name: "level"@, col_type: ColumnType::Integer, nullable: false, json_field: None },
        ],
        foreign_keys: seq![
            ForeignKeyV { column: "blueprint_id"@, references_table: "blueprints"@, references_column: "id"@ },
            ForeignKeyV { column: "type_id"@, references_table: "types"@, references_column: "id"@ },
        ],
        indexes: seq![
            IndexV { columns: seq!["blueprint_id"@], unique: false },
            IndexV { columns: seq!["type_id"@], unique: false },
            IndexV { columns: seq!["activity"@], unique: false },
        ],
        child_tables: seq![],
        array_source: Some(ArraySourceV::BlueprintActivity { activity_column: "activity"@, array_field: "skills"@ }),
    }
}

fn t_blueprint_skills() -> (t: TableSchema)
    ensures
        schema_view(t) == spec_t_blueprint_skills(),
{
    let t = TableSchema {
        name: "blueprint_skills".to_owned(),
        source_file: "blueprints.jsonl".to_owned(),
        columns: vec![
            Column::required("blueprint_id", ColumnType::Integer),
            Column::required("activity", ColumnType::Text),
            Column::required("type_id", ColumnType::Integer),
            Column::required("level", ColumnType::Integer),
        ],
        foreign_keys: vec![
            ForeignKey::new("blueprint_id", "blueprints"),
            ForeignKey::new("type_id", "types"),
        ],
        indexes: vec![
            Index::on(&["blueprint_id"]),
            Index::on(&["type_id"]),
            Index::on(&["activity"]),
        ],
        child_tables: owned_strings(&[]),
        array_source: Some(ArraySource::BlueprintActivity {
            activity_column: "activity".to_owned(),
            array_field: "skills".to_owned(),
        }),
    };
    proof {
        assert(schema_view(t).columns =~= spec_t_blueprint_skills().columns);
        assert(schema_view(t).foreign_keys =~= spec_t_blueprint_skills().foreign_keys);
        assert(schema_view(t).indexes[0].columns =~= spec_t_blueprint_skills().indexes[0].columns);
        assert(schema_view(t).indexes[1].columns =~= spec_t_blueprint_skills().indexes[1].columns);
        assert(schema_view(t).indexes[2].columns =~= spec_t_blueprint_skills().indexes[2].columns);
        assert(schema_view(t).indexes =~= spec_t_blueprint_skills().indexes);
        assert(schema_view(t).child_tables =~= spec_t_blueprint_skills().child_tables);
        assert(schema_view(t) == spec_t_blueprint_skills());
    }
    t
}

pub open spec fn spec_t_clone_grade_skills() -> TableSchemaV {
    TableSchemaV {
        name: "clone_grade_skills"@,
        source_file: "cloneGrades.jsonl"@,
        columns: seq![
            ColumnV { name: "clone_grade_id"@, col_type: ColumnType::Integer, nullable: false, json_field: None },
            ColumnV { name: "type_id"@, col_type: ColumnType::Integer, nullable: false, json_field: None },
            ColumnV { name: "level"@, col_type: ColumnType::Integer, nullable: false, json_field: None },
        ],
        foreign_keys: seq![
            ForeignKeyV { column: "clone_grade_id"@, references_table: "clone_grades"@, references_column: "id"@ },
            ForeignKeyV { column: "type_id"@, references_table: "types"@, references_column: "id"@ },
        ],
        indexes: seq![
            IndexV { columns: seq!["clone_grade_id"@], unique: false },
            IndexV { columns: seq!["type_id"@], unique: false },
        ],
        child_tables: seq![],
        array_source: Some(ArraySourceV::Simple { array_field: "skills"@, parent_id_column: "clone_grade_id"@ }),
    }
}

fn t_clone_grade_skills() -> (t: TableSchema)
    ensures
        schema_view(t) == spec_t_clone_grade_skills(),
{
    let t = TableSchema {
        name: "clone_grade_skills".to_owned(),
        source_file: "cloneGrades.jsonl".to_owned(),
        columns: vec![
            Column::required("clone_grade_id", ColumnType::Integer),
            Column::required("type_id", ColumnType::Integer),
            Column::required("level", ColumnType::Integer),
        ],
        foreign_keys: vec![
            ForeignKey::new("clone_grade_id", "clone_grades"),
            ForeignKey::new("type_id", "types"),
        ],
        indexes: vec![
            Index::on(&["clone_grade_id"]),
            Index::on(&["type_id"]),
        ],
        child_tables: owned_strings(&[]),
        array_source: Some(ArraySource::Simple {
            array_field: "skills".to_owned(),
            parent_id_column: "clone_grade_id".to_owned(),
        }),
    };
    proof {
        assert(schema_view(t).columns =~= spec_t_clone_grade_skills().columns);
        assert(schema_view(t).foreign_keys =~= spec_t_clone_grade_skills().foreign_keys);
        assert(schema_view(t).indexes[0].columns =~= spec_t_clone_grade_skills().indexes[0].columns);
        assert(schema_view(t).indexes[1].columns =~= spec_t_clone_grade_skills().indexes[1].columns);
        assert(schema_view(t).indexes =~= spec_t_clone_grade_skills().indexes);
        assert(schema_view(t).child_tables =~= spec_t_clone_grade_skills().child_tables);
        assert(schema_view(t) == spec_t_clone_grade_skills());
    }
    t
}

pub open spec fn spec_t_contraband_type_factions() -> TableSchemaV {
    TableSchemaV {
        name: "contraband_type_factions"@,
        source_file: "contrabandTypes.jsonl"@,
        columns: seq![
            ColumnV { name: "type_id"@, col_type: ColumnType::Integer, nullable: false, json_field: None },
            ColumnV { name: "faction_id"@, col_type: ColumnType::Integer, nullable: false, json_field: Some("_key"@) },
            ColumnV { name: "attack_min_sec"@, col_type: ColumnType::Real, nullable: true, json_field: None },
            ColumnV { name: "confiscate_min_sec"@, col_type: ColumnType::Real, nullable: true, json_field: None },
            ColumnV { name: "fine_by_value"@, col_type: ColumnType::Real, nullable: true, json_field: None },
            ColumnV { name: "standing_loss"@, col_type: ColumnType::Real, nullable: true, json_field: None },
        ],
        foreign_keys: seq![
            ForeignKeyV { column: "type_id"@, references_table: "types"@, references_column: "id"@ },
            ForeignKeyV { column: "faction_id"@, references_table: "factions"@, references_column: "id"@ },
        ],
        indexes: seq![
            IndexV { columns: seq!["type_id"@], unique: false },
            IndexV { columns: seq!["faction_id"@], unique: false },
        ],
        child_tables: seq![],
        array_source: Some(ArraySourceV::Simple { array_field: "factions"@, parent_id_column: "type_id"@ }),
    }
}

fn t_contraband_type_factions() -> (t: TableSchema)
    ensures
        schema_view(t) == spec_t_contraband_type_factions(),
{
    let t = TableSchema {
        name: "contraband_type_factions".to_owned(),
        source_file: "contrabandTypes.jsonl".to_owned(),
        columns: vec![
            Column::required("type_id", ColumnType::Integer),
            Column::required("faction_id", ColumnType::Integer).json("_key"),
            Column::new("attack_min_sec", ColumnType::Real),
            Column::new("confiscate_min_sec", ColumnType::Real),
            Column::new("fine_by_value", ColumnType::Real),
            Column::new("standing_loss", ColumnType::Real),
        ],
        foreign_keys: vec![
            ForeignKey::new("type_id", "types"),
            ForeignKey::new("faction_id", "factions"),
        ],
        indexes: vec![
            Index::on(&["type_id"]),
            Index::on(&["faction_id"]),
        ],
        child_tables: owned_strings(&[]),
        array_source: Some(ArraySource::Simple {
            array_field: "factions".to_owned(),
            parent_id_column: "type_id".to_owned(),
        }),
    };
    proof {
        assert(schema_view(t).columns =~= spec_t_contraband_type_factions().columns);
        assert(schema_view(t).foreign_keys =~= spec_t_contraband_type_factions().foreign_keys);
        assert(schema_view(t).indexes[0].columns =~= spec_t_contraband_type_factions().indexes[0].columns);
        assert(schema_view(t).indexes[1].columns =~= spec_t_contraband_type_factions().indexes[1].columns);
        assert(schema_view(t).indexes =~= spec_t_contraband_type_factions().indexes);
        assert(schema_view(t).child_tables =~= spec_t_contraband_type_factions().child_tables);
        assert(schema_view(t) == spec_t_contraband_type_factions());
    }
    t
}

pub open spec fn spec_t_control_tower_resources() -> TableSchemaV {
    TableSchemaV {
        name: "control_tower_resources"@,
        source_file: "controlTowerResources.jsonl"@,
        columns: seq![
            ColumnV { name: "type_id"@, col_type: ColumnType::Integer, nullable: false, json_field: None },
            ColumnV { name: "resource_type_id"@, col_type: ColumnType::Integer, nullable: false, json_field: None },
            ColumnV { name: "purpose"@, col_type: ColumnType::Integer, nullable: true, json_field: None },
            ColumnV { name: "quantity"@, col_type: ColumnType::Integer, nullable: true, json_field: None },
        ],
        foreign_keys: seq![
            ForeignKeyV { column: "type_id"@, references_table: "types"@, references_column: "id"@ },
            ForeignKeyV { column: "resource_type_id"@, references_table: "types"@, references_column: "id"@ },
        ],
        indexes: seq![
            IndexV { columns: seq!["type_id"@], unique: false },
            IndexV { columns: seq!["resource_type_id"@], unique: false },
        ],
        child_tables: seq![],
        array_source: Some(ArraySourceV::Simple { array_field: "resources"@, parent_id_column: "type_id"@ }),
    }
}

fn t_control_tower_resources() -> (t: TableSchema)
    ensures
        schema_view(t) == spec_t_control_tower_resources(),
{
    let t = TableSchema {
        name: "control_tower_resources".to_owned(),
        source_file: "controlTowerResources.jsonl".to_owned(),
        columns: vec![
            Column::required("type_id", ColumnType::Integer),
            Column::required("resource_type_id", ColumnType::Integer),
            Column::new("purpose", ColumnType::Integer),
            Column::new("quantity", ColumnType::Integer),
        ],
        foreign_keys: vec![
            ForeignKey::new("type_id", "types"),
            ForeignKey::new("resource_type_id", "types"),
        ],
        indexes: vec![
            Index::on(&["type_id"]),
            Index::on(&["resource_type_id"]),
        ],
        child_tables: owned_strings(&[]),
        array_source: Some(ArraySource::Simple {
            array_field: "resources".to_owned(),
            parent_id_column: "type_id".to_owned(),
        }),
    };
    proof {
        assert(schema_view(t).columns =~= spec_t_control_tower_resources().columns);
        assert(schema_view(t).foreign_keys =~= spec_t_control_tower_resources().foreign_keys);
        assert(schema_view(t).indexes[0].columns =~= spec_t_control_tower_resources().indexes[0].columns);
        assert(schema_view(t).indexes[1].columns =~= spec_t_control_tower_resources().indexes[1].columns);
        assert(schema_view(t).indexes =~= spec_t_control_tower_resources().indexes);
        assert(schema_view(t).child_tables =~= spec_t_control_tower_resources().child_tables);
        assert(schema_view(t) == spec_t_control_tower_resources());
    }
    t
}

pub open spec fn spec_t_dynamic_item_attributes() -> TableSchemaV {
    TableSchemaV {
        name: "dynamic_item_attributes"@,
        source_file: "dynamicItemAttributes.jsonl"@,
        columns: seq![
            ColumnV { name: "type_id"@, col_type: ColumnType::Integer, nullable: false, json_field: None },
            ColumnV { name: "attribute_id"@, col_type: ColumnType::Integer, nullable: false, json_field: Some("_key"@) },
            ColumnV { name: "min"@, col_type: ColumnType::Real, nullable: true, json_field: None },
            ColumnV { name: "max"@, col_type: ColumnType::Real, nullable: true, json_field: None },
        ],
        foreign_keys: seq![
            ForeignKeyV { column: "type_id"@, references_table: "types"@, references_column: "id"@ },
            ForeignKeyV { column: "attribute_id"@, references_table: "dogma_attributes"@, references_column: "id"@ },
        ],
        indexes: seq![
            IndexV { columns: seq!["type_id"@], unique: false },
            IndexV { columns: seq!["attribute_id"@], unique: false },
        ],
        child_tables: seq![],
        array_source: Some(ArraySourceV::Simple { array_field: "attributeIDs"@, parent_id_column: "type_id"@ }),
    }
}

fn t_dynamic_item_attributes() -> (t: TableSchema)
    ensures
        schema_view(t) == spec_t_dynamic_item_attributes(),
{
    let t = TableSchema {
        name: "dynamic_item_attributes".to_owned(),
        source_file: "dynamicItemAttributes.jsonl".to_owned(),
        columns: vec![
            Column::required("type_id", ColumnType::Integer),
            Column::required("attribute_id", ColumnType::Integer).json("_key"),
            Column::new("min", ColumnType::Real),
            Column::new("max", ColumnType::Real),
        ],
        foreign_keys: vec![
            ForeignKey::new("type_id", "types"),
            ForeignKey::new("attribute_id", "dogma_attributes"),
        ],
        indexes: vec![
            Index::on(&["type_id"]),
            Index::on(&["attribute_id"]),
        ],
        child_tables: owned_strings(&[]),
        array_source: Some(ArraySource::Simple {
            array_field: "attributeIDs".to_owned(),
            parent_id_column: "type_id".to_owned(),
        }),
    };
    proof {
        assert(schema_view(t).columns =~= spec_t_dynamic_item_attributes().columns);
        assert(schema_view(t).foreign_keys =~= spec_t_dynamic_item_attributes().foreign_keys);
        assert(schema_view(t).indexes[0].columns =~= spec_t_dynamic_item_attributes().indexes[0].columns);
        assert(schema_view(t).indexes[1].columns =~= spec_t_dynamic_item_attributes().indexes[1].columns);
        assert(schema_view(t).indexes =~= spec_t_dynamic_item_attributes().indexes);
        assert(schema_view(t).child_tables =~= spec_t_dynamic_item_attributes().child_tables);
        assert(schema_view(t) == spec_t_dynamic_item_attributes());
    }
    t
}

pub open spec fn spec_t_planet_schematic_pins() -> TableSchemaV {
    TableSchemaV {
        name: "planet_schematic_pins"@,
        source_file: "planetSchematics.jsonl"@,
        columns: seq![
            ColumnV { name: "schematic_id"@, col_type: ColumnType::Integer, nullable: false, json_field: None },
            ColumnV { name: "pin_type_id"@, col_type: ColumnType::Integer, nullable: false, json_field: None },
        ],
        foreign_keys: seq![
            ForeignKeyV { column: "schematic_id"@, references_table: "planet_schematics"@, references_column: "id"@ },
            ForeignKeyV { column: "pin_type_id"@, references_table: "types"@, references_column: "id"@ },
        ],
        indexes: seq![
            IndexV { columns: seq!["schematic_id"@], unique: false },
        ],
        child_tables: seq![],
        array_source: Some(ArraySourceV::SimpleIntArray { array_field: "pins"@, parent_id_column: "schematic_id"@, value_column: "pin_type_id"@ }),
    }
}

fn t_planet_schematic_pins() -> (t: TableSchema)
    ensures
        schema_view(t) == spec_t_planet_schematic_pins(),
{
    let t = TableSchema {
        name: "planet_schematic_pins".to_owned(),
        source_file: "planetSchematics.jsonl".to_owned(),
        columns: vec![
            Column::required("schematic_id", ColumnType::Integer),
            Column::required("pin_type_id", ColumnType::Integer),
        ],
        foreign_keys: vec![
            ForeignKey::new("schematic_id", "planet_schematics"),
            ForeignKey::new("pin_type_id", "types"),
        ],
        indexes: vec![
            Index::on(&["schematic_id"]),
        ],
        child_tables: owned_strings(&[]),
        array_source: Some(ArraySource::SimpleIntArray {
            array_field: "pins".to_owned(),
            parent_id_column: "schematic_id".to_owned(),
            value_column: "pin_type_id".to_owned(),
        }),
    };
    proof {
        assert(schema_view(t).columns =~= spec_t_planet_schematic_pins().columns);
        assert(schema_view(t).foreign_keys =~= spec_t_planet_schematic_pins().foreign_keys);
        assert(schema_view(t).indexes[0].columns =~= spec_t_planet_schematic_pins().indexes[0].columns);
        assert(schema_view(t).indexes =~= spec_t_planet_schematic_pins().indexes);
        assert(schema_view(t).child_tables =~= spec_t_planet_schematic_pins().child_tables);
        assert(schema_view(t) == spec_t_planet_schematic_pins());
    }
    t
}

pub open spec fn spec_t_planet_schematic_types() -> TableSchemaV {
    TableSchemaV {
        name: "planet_schematic_types"@,
        source_file: "planetSchematics.jsonl"@,
        columns: seq![
            ColumnV { name: "schematic_id"@, col_type: ColumnType::Integer, nullable: false, json_field: None },
            ColumnV { name: "type_id"@, col_type: ColumnType::Integer, nullable: false, json_field: Some("_key"@) },
            ColumnV { name: "is_input"@, col_type: ColumnType::Boolean, nullable: true, json_field: None },
            ColumnV { name: "quantity"@, col_type: ColumnType::Integer, nullable: true, json_field: None },
        ],
        foreign_keys: seq![
            ForeignKeyV { column: "schematic_id"@, references_table: "planet_schematics"@, references_column: "id"@ },
            ForeignKeyV { column: "type_id"@, references_table: "types"@, references_column: "id"@ },
        ],
        indexes: seq![
            IndexV { columns: seq!["schematic_id"@], unique: false },
            IndexV { columns: seq!["type_id"@], unique: false },
        ],
        child_tables: seq![],
        array_source: Some(ArraySourceV::Simple { array_field: "types"@, parent_id_column: "schematic_id"@ }),
    }
}

fn t_planet_schematic_types() -> (t: TableSchema)
    ensures
        schema_view(t) == spec_t_planet_schematic_types(),
{
    let t = TableSchema {
        name: "planet_schematic_types".to_owned(),
        source_file: "planetSchematics.jsonl".to_owned(),
        columns: vec![
            Column::required("schematic_id", ColumnType::Integer),
            Column::required("type_id", ColumnType::Integer).json("_key"),
            Column::new("is_input", ColumnType::Boolean),
            Column::new("quantity", ColumnType::Integer),
        ],
        foreign_keys: vec![
            ForeignKey::new("schematic_id", "planet_schematics"),
            ForeignKey::new("type_id", "types"),
        ],
        indexes: vec![
            Index::on(&["schematic_id"]),
            Index::on(&["type_id"]),
        ],
        child_tables: owned_strings(&[]),
        array_source: Some(ArraySource::Simple {
            array_field: "types".to_owned(),
            parent_id_column: "schematic_id".to_owned(),
        }),
    };
    proof {
        assert(schema_view(t).columns =~= spec_t_planet_schematic_types().columns);
        assert(schema_view(t).foreign_keys =~= spec_t_planet_schematic_types().foreign_keys);
        assert(schema_view(t).indexes[0].columns =~= spec_t_planet_schematic_types().indexes[0].columns);
        assert(schema_view(t).indexes[1].columns =~= spec_t_planet_schematic_types().indexes[1].columns);
        assert(schema_view(t).indexes =~= spec_t_planet_schematic_types().indexes);
        assert(schema_view(t).child_tables =~= spec_t_planet_schematic_types().child_tables);
        assert(schema_view(t) == spec_t_planet_schematic_types());
    }
    t
}

pub open spec fn spec_t_type_role_bonuses() -> TableSchemaV {
    TableSchemaV {
        name: "type_role_bonuses"@,
        source_file: "typeBonus.jsonl"@,
        columns: seq![
            ColumnV { name: "type_id"@, col_type: ColumnType::Integer, nullable: false, json_field: None },
            ColumnV { name: "bonus"@, col_type: ColumnType::Real, nullable: true, json_field: None },
            ColumnV { name: "bonus_text"@, col_type: ColumnType::Localized, nullable: true, json_field: None },
            ColumnV { name: "importance"@, col_type: ColumnType::Integer, nullable: true, json_field: None },
            ColumnV { name: "unit_id"@, col_type: ColumnType::Integer, nullable: true, json_field: None },
        ],
        foreign_keys: seq![
            ForeignKeyV { column: "type_id"@, references_table: "types"@, references_column: "id"@ },
            ForeignKeyV { column: "unit_id"@, references_table: "dogma_units"@, references_column: "id"@ },
        ],
        indexes: seq![
            IndexV { columns: seq!["type_id"@], unique: false },
        ],
        child_tables: seq![],
        array_source: Some(ArraySourceV::Simple { array_field: "roleBonuses"@, parent_id_column: "type_id"@ }),
    }
}

fn t_type_role_bonuses() -> (t: TableSchema)
    ensures
        schema_view(t) == spec_t_type_role_bonuses(),
{
    let t = TableSchema {
        name: "type_role_bonuses".to_owned(),
        source_file: "typeBonus.jsonl".to_owned(),
        columns: vec![
            Column::required("type_id", ColumnType::Integer),
            Column::new("bonus", ColumnType::Real),
            Column::new("bonus_text", ColumnType::Localized),
            Column::new("importance", ColumnType::Integer),
            Column::new("unit_id", ColumnType::Integer),
        ],
        foreign_keys: vec![
            ForeignKey::new("type_id", "types"),
            ForeignKey::new("unit_id", "dogma_units"),
        ],
        indexes: vec![
            Index::on(&["type_id"]),
        ],
        child_tables: owned_strings(&[]),
        array_source: Some(ArraySource::Simple {
            array_field: "roleBonuses".to_owned(),
            parent_id_column: "type_id".to_owned(),
        }),
    };
    proof {
        assert(schema_view(t).columns =~= spec_t_type_role_bonuses().columns);
        assert(schema_view(t).foreign_keys =~= spec_t_type_role_bonuses().foreign_keys);
        assert(schema_view(t).indexes[0].columns =~= spec_t_type_role_bonuses().indexes[0].columns);
        assert(schema_view(t).indexes =~= spec_t_type_role_bonuses().indexes);
        assert(schema_view(t).child_tables =~= spec_t_type_role_bonuses().child_tables);
        assert(schema_view(t) == spec_t_type_role_bonuses());
    }
    t
}

pub open spec fn spec_t_type_trait_bonuses() -> TableSchemaV {
    TableSchemaV {
        name: "type_trait_bonuses"@,
        source_file: "typeBonus.jsonl"@,
        columns: seq![
            ColumnV { name: "type_id"@, col_type: ColumnType::Integer, nullable: false, json_field: None },
            ColumnV { name: "skill_type_id"@, col_type: ColumnType::Integer, nullable: false, json_field: None },
            ColumnV { name: "bonus"@, col_type: ColumnType::Real, nullable: true, json_field: None },
            ColumnV { name: "bonus_text"@, col_type: ColumnType::Localized, nullable: true, json_field: None },
            ColumnV { name: "importance"@, col_type: ColumnType::Integer, nullable: true, json_field: None },
            ColumnV { name: "is_positive"@, col_type: ColumnType::Boolean, nullable: true, json_field: None },
            ColumnV { name: "unit_id"@, col_type: ColumnType::Integer, nullable: true, json_field: None },
        ],
        foreign_keys: seq![
            ForeignKeyV { column: "type_id"@, references_table: "types"@, references_column: "id"@ },
            ForeignKeyV { column: "skill_type_id"@, references_table: "types"@, references_column: "id"@ },
            ForeignKeyV { column: "unit_id"@, references_table: "dogma_units"@, references_column: "id"@ },
        ],
        indexes: seq![
            IndexV { columns: seq!["type_id"@], unique: false },
            IndexV { columns: seq!["skill_type_id"@], unique: false },
        ],
        child_tables: seq![],
        array_source: Some(ArraySourceV::NestedKeyValue { array_field: "types"@, parent_id_column: "type_id"@, nested_key_column: "skill_type_id"@ }),
    }
}

fn t_type_trait_bonuses() -> (t: TableSchema)
    ensures
        schema_view(t) == spec_t_type_trait_bonuses(),
{
    let t = TableSchema {
        name: "type_trait_bonuses".to_owned(),
        source_file: "typeBonus.jsonl".to_owned(),
        columns: vec![
            Column::required("type_id", ColumnType::Integer),
            Column::required("skill_type_id", ColumnType::Integer),
            Column::new("bonus", ColumnType::Real),
            Column::new("bonus_text", ColumnType::Localized),
            Column::new("importance", ColumnType::Integer),
            Column::new("is_positive", ColumnType::Boolean),
            Column::new("unit_id", ColumnType::Integer),
        ],
        foreign_keys: vec![
            ForeignKey::new("type_id", "types"),
            ForeignKey::new("skill_type_id", "types"),
            ForeignKey::new("unit_id", "dogma_units"),
        ],
        indexes: vec![
            Index::on(&["type_id"]),
            Index::on(&["skill_type_id"]),
        ],
        child_tables: owned_strings(&[]),
        array_source: Some(ArraySource::NestedKeyValue {
            array_field: "types".to_owned(),
            parent_id_column: "type_id".to_owned(),
            nested_key_column: "skill_type_id".to_owned(),
        }),
    };
    proof {
        assert(schema_view(t).columns =~= spec_t_type_trait_bonuses().columns);
        assert(schema_view(t).foreign_keys =~= spec_t_type_trait_bonuses().foreign_keys);
        assert(schema_view(t).indexes[0].columns =~= spec_t_type_trait_bonuses().indexes[0].columns);
        assert(schema_view(t).indexes[1].columns =~= spec_t_type_trait_bonuses().indexes[1].columns);
        assert(schema_view(t).indexes =~= spec_t_type_trait_bonuses().indexes);
        assert(schema_view(t).child_tables =~= spec_t_type_trait_bonuses().child_tables);
        assert(schema_view(t) == spec_t_type_trait_bonuses());
    }
    t
}

pub open spec fn spec_t_type_masteries() -> TableSchemaV {
    TableSchemaV {
        name: "type_masteries"@,
        source_file: "masteries.jsonl"@,
        columns: seq![
            ColumnV { name: "type_id"@, col_type: ColumnType::Integer, nullable: false, json_field: None },
            ColumnV { name: "mastery_level"@, col_type: ColumnType::Integer, nullable: false, json_field: None },
            ColumnV { name: "certificate_id"@, col_type: ColumnType::Integer, nullable: false, json_field: None },
        ],
        foreign_keys: seq![
            ForeignKeyV { column: "type_id"@, references_table: "types"@, references_column: "id"@ },
            ForeignKeyV { column: "certificate_id"@, references_table: "certificates"@, references_column: "id"@ },
        ],
        indexes: seq![
            IndexV { columns: seq!["type_id"@], unique: false },
        ],
        child_tables: seq![],
        array_source: Some(ArraySourceV::DoubleNested { parent_id_column: "type_id"@, level_key_column: "mastery_level"@ }),
    }
}

fn t_type_masteries() -> (t: TableSchema)
    ensures
        schema_view(t) == spec_t_type_masteries(),
{
    let t = TableSchema {
        name: "type_masteries".to_owned(),
        source_file: "masteries.jsonl".to_owned(),
        columns: vec![
            Column::required("type_id", ColumnType::Integer),
            Column::required("mastery_level", ColumnType::Integer),
            Column::required("certificate_id", ColumnType::Integer),
        ],
        foreign_keys: vec![
            ForeignKey::new("type_id", "types"),
            ForeignKey::new("certificate_id", "certificates"),
        ],
        indexes: vec![
            Index::on(&["type_id"]),
        ],
        child_tables: owned_strings(&[]),
        array_source: Some(ArraySource::DoubleNested {
            parent_id_column: "type_id".to_owned(),
            level_key_column: "mastery_level".to_owned(),
        }),
    };
    proof {
        assert(schema_view(t).columns =~= spec_t_type_masteries().columns);
        assert(schema_view(t).foreign_keys =~= spec_t_type_masteries().foreign_keys);
        assert(schema_view(t).indexes[0].columns =~= spec_t_type_masteries().indexes[0].columns);
        assert(schema_view(t).indexes =~= spec_t_type_masteries().indexes);
        assert(schema_view(t).child_tables =~= spec_t_type_masteries().child_tables);
        assert(schema_view(t) == spec_t_type_masteries());
    }
    t
}

pub open spec fn spec_t_dbuff_collections() -> TableSchemaV {
    TableSchemaV {
        name: "dbuff_collections"@,
        source_file: "dbuffCollections.jsonl"@,
        columns: seq![
            ColumnV { name: "id"@, col_type: ColumnType::Integer, nullable: false, json_field: None },
            ColumnV { name: "aggregate_mode"@, col_type: ColumnType::Text, nullable: true, json_field: None },
            ColumnV { name: "developer_description"@, col_type: ColumnType::Text, nullable: true, json_field: None },
        ],
        foreign_keys: seq![],
        indexes: seq![],
        child_tables: seq!["dbuff_item_modifiers"@, "dbuff_location_modifiers"@, "dbuff_location_group_modifiers"@],
        array_source: None,
    }
}

fn t_dbuff_collections() -> (t: TableSchema)
    ensures
        schema_view(t) == spec_t_dbuff_collections(),
{
    let t = TableSchema {
        name: "dbuff_collections".to_owned(),
        source_file: "dbuffCollections.jsonl".to_owned(),
        columns: vec![
            Column::required("id", ColumnType::Integer),
            Column::new("aggregate_mode", ColumnType::Text),
            Column::new("developer_description", ColumnType::Text),
        ],
        foreign_keys: vec![],
        indexes: vec![],
        child_tables: owned_strings(&["dbuff_item_modifiers", "dbuff_location_modifiers", "dbuff_location_group_modifiers"]),
        array_source: None,
    };
    proof {
        assert(schema_view(t).columns =~= spec_t_dbuff_collections().columns);
        assert(schema_view(t).foreign_keys =~= spec_t_dbuff_collections().foreign_keys);
        assert(schema_view(t).indexes =~= spec_t_dbuff_collections().indexes);
        assert(schema_view(t).child_tables =~= spec_t_dbuff_collections().child_tables);
        assert(schema_view(t) == spec_t_dbuff_collections());
    }
    t
}

pub open spec fn spec_t_dbuff_item_modifiers() -> TableSchemaV {
    TableSchemaV {
        name: "dbuff_item_modifiers"@,
        source_file: "dbuffCollections.jsonl"@,
        columns: seq![
            ColumnV { name: "collection_id"@, col_type: ColumnType::Integer, nullable: false, json_field: None },
            ColumnV { name: "dogma_attribute_id"@, col_type: ColumnType::Integer, nullable: false, json_field: Some("dogmaAttributeID"@) },
        ],
        foreign_keys: seq![
            ForeignKeyV { column: "collection_id"@, references_table: "dbuff_collections"@, references_column: "id"@ },
            ForeignKeyV { column: "dogma_attribute_id"@, references_table: "dogma_attributes"@, references_column: "id"@ },
        ],
        indexes: seq![
            IndexV { columns: seq!["collection_id"@], unique: false },
            IndexV { columns: seq!["dogma_attribute_id"@], unique: false },
        ],
        child_tables: seq![],
        array_source: Some(ArraySourceV::Simple { array_field: "itemModifiers"@, parent_id_column: "collection_id"@ }),
    }
}

fn t_dbuff_item_modifiers() -> (t: TableSchema)
    ensures
        schema_view(t) == spec_t_dbuff_item_modifiers(),
{
    let t = TableSchema {
        name: "dbuff_item_modifiers".to_owned(),
        source_file: "dbuffCollections.jsonl".to_owned(),
        columns: vec![
            Column::required("collection_id", ColumnType::Integer),
            Column::required("dogma_attribute_id", ColumnType::Integer).json("dogmaAttributeID"),
        ],
        foreign_keys: vec![
            ForeignKey::new("collection_id", "dbuff_collections"),
            ForeignKey::new("dogma_attribute_id", "dogma_attributes"),
        ],
        indexes: vec![
            Index::on(&["collection_id"]),
            Index::on(&["dogma_attribute_id"]),
        ],
        child_tables: owned_strings(&[]),
        array_source: Some(ArraySource::Simple {
            array_field: "itemModifiers".to_owned(),
            parent_id_column: "collection_id".to_owned(),
        }),
    };
    proof {
        assert(schema_view(t).columns =~= spec_t_dbuff_item_modifiers().columns);
        assert(schema_view(t).foreign_keys =~= spec_t_dbuff_item_modifiers().foreign_keys);
        assert(schema_view(t).indexes[0].columns =~= spec_t_dbuff_item_modifiers().indexes[0].columns);
        assert(schema_view(t).indexes[1].columns =~= spec_t_dbuff_item_modifiers().indexes[1].columns);
        assert(schema_view(t).indexes =~= spec_t_dbuff_item_modifiers().indexes);
        assert(schema_view(t).child_tables =~= spec_t_dbuff_item_modifiers().child_tables);
        assert(schema_view(t) == spec_t_dbuff_item_modifiers());
    }
    t
}

pub open spec fn spec_t_dbuff_location_modifiers() -> TableSchemaV {
    TableSchemaV {
        name: "dbuff_location_modifiers"@,
        source_file: "dbuffCollections.jsonl"@,
        columns: seq![
            ColumnV { name: "collection_id"@, col_type: ColumnType::Integer, nullable: false, json_field: None },
            ColumnV { name: "dogma_attribute_id"@, col_type: ColumnType::Integer, nullable: false, json_field: Some("dogmaAttributeID"@) },
        ],
        foreign_keys: seq![
            ForeignKeyV { column: "collection_id"@, references_table: "dbuff_collections"@, references_column: "id"@ },
            ForeignKeyV { column: "dogma_attribute_id"@, references_table: "dogma_attributes"@, references_column: "id"@ },
        ],
        indexes: seq![
            IndexV { columns: seq!["collection_id"@], unique: false },
            IndexV { columns: seq!["dogma_attribute_id"@], unique: false },
        ],
        child_tables: seq![],
        array_source: Some(ArraySourceV::Simple { array_field: "locationModifiers"@, parent_id_column: "collection_id"@ }),
    }
}

fn t_dbuff_location_modifiers() -> (t: TableSchema)
    ensures
        schema_view(t) == spec_t_dbuff_location_modifiers(),
{
    let t = TableSchema {
        name: "dbuff_location_modifiers".to_owned(),
        source_file: "dbuffCollections.jsonl".to_owned(),
        columns: vec![
            Column::required("collection_id", ColumnType::Integer),
            Column::required("dogma_attribute_id", ColumnType::Integer).json("dogmaAttributeID"),
        ],
        foreign_keys: vec![
            ForeignKey::new("collection_id", "dbuff_collections"),
            ForeignKey::new("dogma_attribute_id", "dogma_attributes"),
        ],
        indexes: vec![
            Index::on(&["collection_id"]),
            Index::on(&["dogma_attribute_id"]),
        ],
        child_tables: owned_strings(&[]),
        array_source: Some(ArraySource::Simple {
            array_field: "locationModifiers".to_owned(),
            parent_id_column: "collection_id".to_owned(),
        }),
    };
    proof {
        assert(schema_view(t).columns =~= spec_t_dbuff_location_modifiers().columns);
        assert(schema_view(t).foreign_keys =~= spec_t_dbuff_location_modifiers().foreign_keys);
        assert(schema_view(t).indexes[0].columns =~= spec_t_dbuff_location_modifiers().indexes[0].columns);
        assert(schema_view(t).indexes[1].columns =~= spec_t_dbuff_location_modifiers().indexes[1].columns);
        assert(schema_view(t).indexes =~= spec_t_dbuff_location_modifiers().indexes);
        assert(schema_view(t).child_tables =~= spec_t_dbuff_location_modifiers().child_tables);
        assert(schema_view(t) == spec_t_dbuff_location_modifiers());
    }
    t
}

pub open spec fn spec_t_dbuff_location_group_modifiers() -> TableSchemaV {
    TableSchemaV {
        name: "dbuff_location_group_modifiers"@,
        source_file: "dbuffCollections.jsonl"@,
        columns: seq![
            ColumnV { name: "collection_id"@, col_type: ColumnType::Integer, nullable: false, json_field: None },
            ColumnV { name: "dogma_attribute_id"@, col_type: ColumnType::Integer, nullable: false, json_field: Some("dogmaAttributeID"@) },
            ColumnV { name: "group_id"@, col_type: ColumnType::Integer, nullable: false, json_field: None },
        ],
        foreign_keys: seq![
            ForeignKeyV { column: "collection_id"@, references_table: "dbuff_collections"@, references_column: "id"@ },
            ForeignKeyV { column: "dogma_attribute_id"@, references_table: "dogma_attributes"@, references_column: "id"@ },
            ForeignKeyV { column: "group_id"@, references_table: "groups"@, references_column: "id"@ },
        ],
        indexes: seq![
            IndexV { columns: seq!["collection_id"@], unique: false },
            IndexV { columns: seq!["dogma_attribute_id"@], unique: false },
            IndexV { columns: seq!["group_id"@], unique: false },
        ],
        child_tables: seq![],
        array_source: Some(ArraySourceV::Simple { array_field: "locationGroupModifiers"@, parent_id_column: "collection_id"@ }),
    }
}

fn t_dbuff_location_group_modifiers() -> (t: TableSchema)
    ensures
        schema_view(t) == spec_t_dbuff_location_group_modifiers(),
{
    let t = TableSchema {
        name: "dbuff_location_group_modifiers".to_owned(),
        source_file: "dbuffCollections.jsonl".to_owned(),
        columns: vec![
            Column::required("collection_id", ColumnType::Integer),
            Column::required("dogma_attribute_id", ColumnType::Integer).json("dogmaAttributeID"),
            Column::required("group_id", ColumnType::Integer),
        ],
        foreign_keys: vec![
            ForeignKey::new("collection_id", "dbuff_collections"),
            ForeignKey::new("dogma_attribute_id", "dogma_attributes"),
            ForeignKey::new("group_id", "groups"),
        ],
        indexes: vec![
            Index::on(&["collection_id"]),
            Index::on(&["dogma_attribute_id"]),
            Index::on(&["group_id"]),
        ],
        child_tables: owned_strings(&[]),
        array_source: Some(ArraySource::Simple {
            array_field: "locationGroupModifiers".to_owned(),
            parent_id_column: "collection_id".to_owned(),
        }),
    };
    proof {
        assert(schema_view(t).columns =~= spec_t_dbuff_location_group_modifiers().columns);
        assert(schema_view(t).foreign_keys =~= spec_t_dbuff_location_group_modifiers().foreign_keys);
        assert(schema_view(t).indexes[0].columns =~= spec_t_dbuff_location_group_modifiers().indexes[0].columns);
        assert(schema_view(t).indexes[1].columns =~= spec_t_dbuff_location_group_modifiers().indexes[1].columns);
        assert(schema_view(t).indexes[2].columns =~= spec_t_dbuff_location_group_modifiers().indexes[2].columns);
        assert(schema_view(t).indexes =~= spec_t_dbuff_location_group_modifiers().indexes);
        assert(schema_view(t).child_tables =~= spec_t_dbuff_location_group_modifiers().child_tables);
        assert(schema_view(t) == spec_t_dbuff_location_group_modifiers());
    }
    t
}

pub open spec fn spec_t_freelance_job_schemas() -> TableSchemaV {
    TableSchemaV {
        name: "freelance_job_schemas"@,
        source_file: "freelanceJobSchemas.jsonl"@,
        columns: seq![
            ColumnV { name: "id"@, col_type: ColumnType::Integer, nullable: false, json_field: None },
        ],
        foreign_keys: seq![],
        indexes: seq![],
        child_tables: seq![],
        array_source: None,
    }
}

fn t_freelance_job_schemas() -> (t: TableSchema)
    ensures
        schema_view(t) == spec_t_freelance_job_schemas(),
{
    let t = TableSchema {
        name: "freelance_job_schemas".to_owned(),
        source_file: "freelanceJobSchemas.jsonl".to_owned(),
        columns: vec![
            Column::required("id", ColumnType::Integer),
        ],
        foreign_keys: vec![],
        indexes: vec![],
        child_tables: owned_strings(&[]),
        array_source: None,
    };
    proof {
        assert(schema_view(t).columns =~= spec_t_freelance_job_schemas().columns);
        assert(schema_view(t).foreign_keys =~= spec_t_freelance_job_schemas().foreign_keys);
        assert(schema_view(t).indexes =~= spec_t_freelance_job_schemas().indexes);
        assert(schema_view(t).child_tables =~= spec_t_freelance_job_schemas().child_tables);
        assert(schema_view(t) == spec_t_freelance_job_schemas());
    }
    t
}

/// The specification-level registry: the shape of every table, in the
/// declared order.
pub open spec fn spec_registry() -> Seq<TableSchemaV> {
    seq![
        spec_t_categories(),
        spec_t_dogma_attribute_categories(),
        spec_t_dogma_units(),
        spec_t_icons(),
        spec_t_graphics(),
        spec_t_agent_types(),
        spec_t_station_services(),
        spec_t_corporation_activities(),
        spec_t_meta_groups(),
        spec_t_character_attributes(),
        spec_t_translation_languages(),
        spec_t_skin_materials(),
        spec_t_landmarks(),
        spec_t_npc_corporation_divisions(),
        spec_t_planet_resources(),
        spec_t_clone_grades(),
        spec_t_planet_schematics(),
        spec_t_dbuff_collections(),
        spec_t_freelance_job_schemas(),
        spec_t_races(),
        spec_t_groups(),
        spec_t_dogma_attributes(),
        spec_t_dogma_effects(),
        spec_t_map_regions(),
        spec_t_market_groups(),
        spec_t_station_operations(),
        spec_t_skins(),
        spec_t_bloodlines(),
        spec_t_factions(),
        spec_t_npc_corporations(),
        spec_t_map_constellations(),
        spec_t_types(),
        spec_t_sovereignty_upgrades(),
        spec_t_ancestries(),
        spec_t_map_solar_systems(),
        spec_t_blueprints(),
        spec_t_skin_licenses(),
        spec_t_certificates(),
        spec_t_compressible_types(),
        spec_t_npc_characters(),
        spec_t_map_stars(),
        spec_t_map_planets(),
        spec_t_map_moons(),
        spec_t_map_asteroid_belts(),
        spec_t_map_stargates(),
        spec_t_npc_stations(),
        spec_t_agents_in_space(),
        spec_t_type_dogma_attributes(),
        spec_t_type_dogma_effects(),
        spec_t_type_materials(),
        spec_t_blueprint_materials(),
        spec_t_blueprint_products(),
        spec_t_blueprint_skills(),
        spec_t_clone_grade_skills(),
        spec_t_contraband_type_factions(),
        spec_t_control_tower_resources(),
        spec_t_dynamic_item_attributes(),
        spec_t_planet_schematic_pins(),
        spec_t_planet_schematic_types(),
        spec_t_type_role_bonuses(),
        spec_t_type_trait_bonuses(),
        spec_t_type_masteries(),
        spec_t_dbuff_item_modifiers(),
        spec_t_dbuff_location_modifiers(),
        spec_t_dbuff_location_group_modifiers(),
    ]
}

/// Every table schema, in an order where each table follows all tables it
/// references through foreign keys.
#[verifier::rlimit(100)]
pub fn all_tables() -> (r: Vec<TableSchema>)
    ensures
        r@.len() == spec_registry().len(),
        forall|i: int| 0 <= i < r@.len() ==> schema_view(#[trigger] r@[i]) == spec_registry()[i],
{
    let r: Vec<TableSchema> = vec![
        t_categories(),
        t_dogma_attribute_categories(),
        t_dogma_units(),
        t_icons(),
        t_graphics(),
        t_agent_types(),
        t_station_services(),
        t_corporation_activities(),
        t_meta_groups(),
        t_character_attributes(),
        t_translation_languages(),
        t_skin_materials(),
        t_landmarks(),
        t_npc_corporation_divisions(),
        t_planet_resources(),
        t_clone_grades(),
        t_planet_schematics(),
        t_dbuff_collections(),
        t_freelance_job_schemas(),
        t_races(),
        t_groups(),
        t_dogma_attributes(),
        t_dogma_effects(),
        t_map_regions(),
        t_market_groups(),
        t_station_operations(),
        t_skins(),
        t_bloodlines(),
        t_factions(),
        t_npc_corporations(),
        t_map_constellations(),
        t_types(),
        t_sovereignty_upgrades(),
        t_ancestries(),
        t_map_solar_systems(),
        t_blueprints(),
        t_skin_licenses(),
        t_certificates(),
        t_compressible_types(),
        t_npc_characters(),
        t_map_stars(),
        t_map_planets(),
        t_map_moons(),
        t_map_asteroid_belts(),
        t_map_stargates(),
        t_npc_stations(),
        t_agents_in_space(),
        t_type_dogma_attributes(),
        t_type_dogma_effects(),
        t_type_materials(),
        t_blueprint_materials(),
        t_blueprint_products(),
        t_blueprint_skills(),
        t_clone_grade_skills(),
        t_contraband_type_factions(),
        t_control_tower_resources(),
        t_dynamic_item_attributes(),
        t_planet_schematic_pins(),
        t_planet_schematic_types(),
        t_type_role_bonuses(),
        t_type_trait_bonuses(),
        t_type_masteries(),
        t_dbuff_item_modifiers(),
        t_dbuff_location_modifiers(),
        t_dbuff_location_group_modifiers(),
    ];
    proof {
        assert(schema_view(r@[0]) == spec_registry()[0]);
        assert(schema_view(r@[1]) == spec_registry()[1]);
        assert(schema_view(r@[2]) == spec_registry()[2]);
        assert(schema_view(r@[3]) == spec_registry()[3]);
        assert(schema_view(r@[4]) == spec_registry()[4]);
        assert(schema_view(r@[5]) == spec_registry()[5]);
        assert(schema_view(r@[6]) == spec_registry()[6]);
        assert(schema_view(r@[7]) == spec_registry()[7]);
        assert(schema_view(r@[8]) == spec_registry()[8]);
        assert(schema_view(r@[9]) == spec_registry()[9]);
        assert(schema_view(r@[10]) == spec_registry()[10]);
        assert(schema_view(r@[11]) == spec_registry()[11]);
        assert(schema_view(r@[12]) == spec_registry()[12]);
        assert(schema_view(r@[13]) == spec_registry()[13]);
        assert(schema_view(r@[14]) == spec_registry()[14]);
        assert(schema_view(r@[15]) == spec_registry()[15]);
        assert(schema_view(r@[16]) == spec_registry()[16]);
        assert(schema_view(r@[17]) == spec_registry()[17]);
        assert(schema_view(r@[18]) == spec_registry()[18]);
        assert(schema_view(r@[19]) == spec_registry()[19]);
        assert(schema_view(r@[20]) == spec_registry()[20]);
        assert(schema_view(r@[21]) == spec_registry()[21]);
        assert(schema_view(r@[22]) == spec_registry()[22]);
        assert(schema_view(r@[23]) == spec_registry()[23]);
        assert(schema_view(r@[24]) == spec_registry()[24]);
        assert(schema_view(r@[25]) == spec_registry()[25]);
        assert(schema_view(r@[26]) == spec_registry()[26]);
        assert(schema_view(r@[27]) == spec_registry()[27]);
        assert(schema_view(r@[28]) == spec_registry()[28]);
        assert(schema_view(r@[29]) == spec_registry()[29]);
        assert(schema_view(r@[30]) == spec_registry()[30]);
        assert(schema_view(r@[31]) == spec_registry()[31]);
        assert(schema_view(r@[32]) == spec_registry()[32]);
        assert(schema_view(r@[33]) == spec_registry()[33]);
        assert(schema_view(r@[34]) == spec_registry()[34]);
        assert(schema_view(r@[35]) == spec_registry()[35]);
        assert(schema_view(r@[36]) == spec_registry()[36]);
        assert(schema_view(r@[37]) == spec_registry()[37]);
        assert(schema_view(r@[38]) == spec_registry()[38]);
        assert(schema_view(r@[39]) == spec_registry()[39]);
        assert(schema_view(r@[40]) == spec_registry()[40]);
        assert(schema_view(r@[41]) == spec_registry()[41]);
        assert(schema_view(r@[42]) == spec_registry()[42]);
        assert(schema_view(r@[43]) == spec_registry()[43]);
        assert(schema_view(r@[44]) == spec_registry()[44]);
        assert(schema_view(r@[45]) == spec_registry()[45]);
        assert(schema_view(r@[46]) == spec_registry()[46]);
        assert(schema_view(r@[47]) == spec_registry()[47]);
        assert(schema_view(r@[48]) == spec_registry()[48]);
        assert(schema_view(r@[49]) == spec_registry()[49]);
        assert(schema_view(r@[50]) == spec_registry()[50]);
        assert(schema_view(r@[51]) == spec_registry()[51]);
        assert(schema_view(r@[52]) == spec_registry()[52]);
        assert(schema_view(r@[53]) == spec_registry()[53]);
        assert(schema_view(r@[54]) == spec_registry()[54]);
        assert(schema_view(r@[55]) == spec_registry()[55]);
        assert(schema_view(r@[56]) == spec_registry()[56]);
        assert(schema_view(r@[57]) == spec_registry()[57]);
        assert(schema_view(r@[58]) == spec_registry()[58]);
        assert(schema_view(r@[59]) == spec_registry()[59]);
        assert(schema_view(r@[60]) == spec_registry()[60]);
        assert(schema_view(r@[61]) == spec_registry()[61]);
        assert(schema_view(r@[62]) == spec_registry()[62]);
        assert(schema_view(r@[63]) == spec_registry()[63]);
        assert(schema_view(r@[64]) == spec_registry()[64]);
        assert forall|i: int| 0 <= i < r@.len() implies schema_view(#[trigger] r@[i])
            == spec_registry()[i] by {}
    }
    r
}

/// The index of the first table in `tables` named `name`, if any.
pub fn find_table(tables: &Vec<TableSchema>, name: &str) -> (r: Option<usize>)
    ensures
        match r {
            Some(i) => 0 <= i < tables@.len() && tables@[i as int].name@ == name@ && forall|j: int|
                0 <= j < i ==> (#[trigger] tables@[j]).name@ != name@,
            None => forall|j: int| 0 <= j < tables@.len() ==> (#[trigger] tables@[j]).name@
                != name@,
        },
{
    let mut k: usize = 0;
    while k < tables.len()
        invariant
            k <= tables@.len(),
            forall|j: int| 0 <= j < k ==> (#[trigger] tables@[j]).name@ != name@,
        decreases tables@.len() - k,
    {
        if tables[k].name.as_str().eq(name) {
            return Some(k);
        }
        k += 1;
    }
    None
}

/// Whether registry position `i` holds the first table named `name`.
pub open spec fn registry_first_match(name: Seq<char>, i: int) -> bool {
    &&& 0 <= i < spec_registry().len()
    &&& spec_registry()[i].name == name
    &&& forall|h: int| 0 <= h < i ==> (#[trigger] spec_registry()[h]).name != name
}

/// The schema of the table named `name`: the first registry table of that
/// name, or `None` when the registry has none.
pub fn get_table(name: &str) -> (r: Option<TableSchema>)
    ensures
        match r {
            Some(t) => t.name@ == name@ && exists|i: int| #[trigger] registry_first_match(name@, i)
                && schema_view(t) == spec_registry()[i],
            None => forall|i: int| 0 <= i < spec_registry().len() ==> (
            #[trigger] spec_registry()[i]).name != name@,
        },
{
    let mut tables = all_tables();
    match find_table(&tables, name) {
        Some(i) => {
            let t = tables.remove(i);
            proof {
                assert(schema_view(t) == spec_registry()[i as int]);
                assert(spec_registry()[i as int].name == name@);
                assert forall|h: int| 0 <= h < i implies (#[trigger] spec_registry()[h]).name
                    != name@ by {
                    assert(schema_view(tables@[h]) == spec_registry()[h]);
                }
                assert(registry_first_match(name@, i as int));
            }
            Some(t)
        },
        None => {
            proof {
                assert forall|i: int| 0 <= i < spec_registry().len() implies (
                #[trigger] spec_registry()[i]).name != name@ by {
                    assert(schema_view(tables@[i]) == spec_registry()[i]);
                    assert(tables@[i].name@ != name@);
                }
            }
            None
        },
    }
}

/// The names of the given tables, in order.
pub fn names_of(tables: &Vec<TableSchema>) -> (names: Vec<String>)
    ensures
        names@.len() == tables@.len(),
        forall|j: int| 0 <= j < tables@.len() ==> (#[trigger] names@[j])@ == tables@[j].name@,
{
    let mut names: Vec<String> = Vec::new();
    let mut k: usize = 0;
    while k < tables.len()
        invariant
            k <= tables@.len(),
            names@.len() == k,
            forall|j: int| 0 <= j < k ==> (#[trigger] names@[j])@ == tables@[j].name@,
        decreases tables@.len() - k,
    {
        names.push(tables[k].name.clone());
        k += 1;
    }
    names
}

/// The names of all tables, in registry order.
pub fn table_names() -> (names: Vec<String>)
    ensures
        names@.len() == spec_registry().len(),
        forall|i: int| 0 <= i < names@.len() ==> (#[trigger] names@[i])@
            == spec_registry()[i].name,
{
    let tables = all_tables();
    let names = names_of(&tables);
    proof {
        assert forall|i: int| 0 <= i < names@.len() implies (#[trigger] names@[i])@
            == spec_registry()[i].name by {
            assert(schema_view(tables@[i]) == spec_registry()[i]);
        }
    }
    names
}

} // verus!
