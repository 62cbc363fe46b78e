use repair_shop::api::views::{ColumnFormat, FrontendDataType};
use repair_shop::derives::{
    column_format, endpoint_column, frontend_data_type, id_parameter_field, process_endpoint_columns,
    require_named_struct, require_struct, serve_entity_json_check, serve_row_json_id_param,
    ColumnFormatAttributes, DeriveError, DeriveName, EndpointColumn, EndpointColumnDisplay,
    EndpointColumnMetadata, EndpointField, ItemShape,
};

fn attrs(
    format: Option<&str>,
    data_type: &str,
    display_name: Option<&str>,
    trimmable: Option<bool>,
    tag_options: Option<&str>,
) -> ColumnFormatAttributes {
    ColumnFormatAttributes {
        format: format.map(|s| s.to_string()),
        data_type: data_type.to_string(),
        display_name: display_name.map(|s| s.to_string()),
        trimmable,
        tag_options: tag_options.map(|s| s.to_string()),
    }
}

fn field(name: &str, attributes: Option<ColumnFormatAttributes>) -> EndpointField {
    EndpointField { name: name.to_string(), attributes }
}

#[test]
fn messages_match_the_derives() {
    assert_eq!(
        DeriveError::NonStruct { derive: DeriveName::ProcessEndpoint }.message(),
        "cannot derive `ProcessEndpoint` for non-struct types"
    );
    assert_eq!(
        DeriveError::UnitOrTupleStruct { derive: DeriveName::IdParameter }.message(),
        "cannot derive `IdParameter` for unit or tuple structs"
    );
    assert_eq!(
        DeriveError::NonStruct { derive: DeriveName::ServeEntityJson }.message(),
        "cannot derive `ServeEntityJson` for non-struct types"
    );
    assert_eq!(
        DeriveError::MissingColumnFormat { column: 2 }.message(),
        "cannot derive `ProcessEndpoint` without `#[col_format(...)]` attribute on each column"
    );
    assert_eq!(
        DeriveError::InvalidFormat { column: 0 }.message(),
        "invalid value for `format` in `#[col_format(...)]` attribute"
    );
    assert_eq!(
        DeriveError::InvalidDataType { column: 0 }.message(),
        "invalid value for `data_type` in `#[col_format(...)]` attribute"
    );
    assert_eq!(
        DeriveError::AmbiguousDisplay { column: 0 }.message(),
        "either `trimmable` or `tag_options` must be specified in `#[col_format(...)]` attribute"
    );
    assert_eq!(
        DeriveError::MissingIdParam.message(),
        "cannot derive `ServeRowJson` without `#[id_param(...)]` attribute"
    );
    assert_eq!(DeriveError::NoFields.message(), "cannot derive `IdParameter` for structs with no fields");
    assert_eq!(DeriveName::ServeRowJson.as_str(), "ServeRowJson");
}

#[test]
fn shapes_that_each_derive_accepts() {
    assert_eq!(require_struct(DeriveName::ServeRowJson, ItemShape::TupleStruct), Ok(()));
    assert_eq!(
        require_struct(DeriveName::ServeRowJson, ItemShape::Union),
        Err(DeriveError::NonStruct { derive: DeriveName::ServeRowJson })
    );
    assert_eq!(require_named_struct(DeriveName::IdParameter, ItemShape::NamedStruct), Ok(()));
    assert_eq!(
        require_named_struct(DeriveName::IdParameter, ItemShape::UnitStruct),
        Err(DeriveError::UnitOrTupleStruct { derive: DeriveName::IdParameter })
    );
    assert_eq!(
        require_named_struct(DeriveName::ProcessEndpoint, ItemShape::Enum),
        Err(DeriveError::NonStruct { derive: DeriveName::ProcessEndpoint })
    );
    assert_eq!(serve_entity_json_check(ItemShape::UnitStruct), Ok(()));
    assert_eq!(
        serve_entity_json_check(ItemShape::Enum),
        Err(DeriveError::NonStruct { derive: DeriveName::ServeEntityJson })
    );
}

#[test]
fn serve_row_json_needs_an_id_param() {
    assert_eq!(serve_row_json_id_param(ItemShape::NamedStruct, Some("u32".to_string())), Ok("u32".to_string()));
    assert_eq!(serve_row_json_id_param(ItemShape::UnitStruct, None), Err(DeriveError::MissingIdParam));
    assert_eq!(
        serve_row_json_id_param(ItemShape::Enum, Some("u32".to_string())),
        Err(DeriveError::NonStruct { derive: DeriveName::ServeRowJson })
    );
}

#[test]
fn id_parameter_uses_the_first_field() {
    let names = vec!["ticket_id".to_string(), "other".to_string()];
    assert_eq!(id_parameter_field(ItemShape::NamedStruct, names), Ok("ticket_id".to_string()));
    assert_eq!(id_parameter_field(ItemShape::NamedStruct, Vec::new()), Err(DeriveError::NoFields));
    assert_eq!(
        id_parameter_field(ItemShape::TupleStruct, Vec::new()),
        Err(DeriveError::UnitOrTupleStruct { derive: DeriveName::IdParameter })
    );
    assert_eq!(
        id_parameter_field(ItemShape::Enum, vec!["x".to_string()]),
        Err(DeriveError::NonStruct { derive: DeriveName::IdParameter })
    );
}

#[test]
fn format_names() {
    assert_eq!(column_format(&None), Some(ColumnFormat::Plain));
    assert_eq!(column_format(&Some("id".to_string())), Some(ColumnFormat::Id));
    assert_eq!(column_format(&Some("currency".to_string())), Some(ColumnFormat::Currency));
    assert_eq!(column_format(&Some("date".to_string())), Some(ColumnFormat::Date));
    assert_eq!(column_format(&Some("tag".to_string())), Some(ColumnFormat::Tag));
    assert_eq!(column_format(&Some("Date".to_string())), None);
    assert_eq!(column_format(&Some("".to_string())), None);
}

#[test]
fn data_type_names() {
    assert_eq!(frontend_data_type(&"integer".to_string()), Some(FrontendDataType::Integer));
    assert_eq!(frontend_data_type(&"decimal".to_string()), Some(FrontendDataType::Decimal));
    assert_eq!(frontend_data_type(&"string".to_string()), Some(FrontendDataType::String));
    assert_eq!(frontend_data_type(&"timestamp".to_string()), Some(FrontendDataType::Timestamp));
    assert_eq!(frontend_data_type(&"tag".to_string()), Some(FrontendDataType::Tag));
    assert_eq!(frontend_data_type(&"float".to_string()), None);
}

fn metadata_of(column: &EndpointColumn) -> &EndpointColumnMetadata {
    column.metadata.as_ref().ok().unwrap()
}

#[test]
fn endpoint_column_takes_the_heading_it_is_given() {
    let f = field("balance", Some(attrs(Some("currency"), "decimal", None, Some(false), None)));
    let column = endpoint_column(4, &f, "Balance".to_string());
    assert_eq!(column.name, "balance");
    assert_eq!(column.format, Ok(ColumnFormat::Currency));
    let metadata = metadata_of(&column);
    assert_eq!(metadata.display_name, "Balance");
    assert_eq!(metadata.data_type, FrontendDataType::Decimal);
    assert!(matches!(metadata.display, EndpointColumnDisplay::Text { trimmable: false }));

    let g = field("status", Some(attrs(Some("tag"), "tag", Some("State"), None, Some("STATUS_TAGS"))));
    let column = endpoint_column(1, &g, "ignored".to_string());
    assert_eq!(column.format, Ok(ColumnFormat::Tag));
    let metadata = metadata_of(&column);
    assert_eq!(metadata.display_name, "State");
    assert!(matches!(&metadata.display, EndpointColumnDisplay::Tag { options } if options == "STATUS_TAGS"));
}

#[test]
fn endpoint_column_holds_the_error_for_each_wrong_entry() {
    let h = field("x", Some(attrs(None, "tag", None, Some(true), Some("T"))));
    let column = endpoint_column(2, &h, String::new());
    assert_eq!(column.format, Ok(ColumnFormat::Plain));
    assert_eq!(column.metadata.err(), Some(DeriveError::AmbiguousDisplay { column: 2 }));

    let i = field("x", Some(attrs(None, "bool", None, None, None)));
    let column = endpoint_column(3, &i, String::new());
    assert_eq!(column.metadata.err(), Some(DeriveError::InvalidDataType { column: 3 }));

    let j = field("total", Some(attrs(Some("money"), "decimal", None, Some(false), None)));
    let column = endpoint_column(5, &j, "Total".to_string());
    assert_eq!(column.format, Err(DeriveError::InvalidFormat { column: 5 }));
    assert_eq!(metadata_of(&column).display_name, "Total");
}

#[test]
fn endpoint_columns_of_a_valid_struct() {
    let fields = vec![
        field("id", Some(attrs(Some("id"), "integer", Some("ID"), Some(false), None))),
        field("created_at", Some(attrs(Some("date"), "timestamp", None, Some(false), None))),
        field("customer", Some(attrs(None, "string", None, Some(true), None))),
        field("status", Some(attrs(Some("tag"), "tag", None, None, Some("TICKET_STATUS_TAGS")))),
    ];
    let columns = process_endpoint_columns(ItemShape::NamedStruct, &fields).ok().unwrap();
    assert_eq!(columns.len(), 4);
    assert_eq!(metadata_of(&columns[0]).display_name, "ID");
    assert_eq!(columns[0].format, Ok(ColumnFormat::Id));
    assert_eq!(metadata_of(&columns[1]).display_name, "Created At");
    assert_eq!(columns[1].format, Ok(ColumnFormat::Date));
    assert_eq!(metadata_of(&columns[1]).data_type, FrontendDataType::Timestamp);
    assert_eq!(metadata_of(&columns[2]).display_name, "Customer");
    assert_eq!(columns[2].format, Ok(ColumnFormat::Plain));
    assert!(matches!(metadata_of(&columns[2]).display, EndpointColumnDisplay::Text { trimmable: true }));
    assert_eq!(columns[3].name, "status");
    assert!(matches!(
        &metadata_of(&columns[3]).display,
        EndpointColumnDisplay::Tag { options } if options == "TICKET_STATUS_TAGS"
    ));
}

#[test]
fn endpoint_derive_stops_at_the_item_or_the_first_bare_field() {
    let fields = vec![
        field("a", Some(attrs(Some("bogus"), "integer", None, Some(true), None))),
        field("b", None),
        field("c", None),
    ];
    assert_eq!(
        process_endpoint_columns(ItemShape::NamedStruct, &fields).err(),
        Some(DeriveError::MissingColumnFormat { column: 1 })
    );
    assert_eq!(
        process_endpoint_columns(ItemShape::TupleStruct, &fields).err(),
        Some(DeriveError::UnitOrTupleStruct { derive: DeriveName::ProcessEndpoint })
    );
    assert_eq!(
        process_endpoint_columns(ItemShape::Union, &Vec::new()).err(),
        Some(DeriveError::NonStruct { derive: DeriveName::ProcessEndpoint })
    );
    assert_eq!(process_endpoint_columns(ItemShape::NamedStruct, &Vec::new()).ok().map(|c| c.len()), Some(0));
}

#[test]
fn every_offending_field_is_reported_in_its_column() {
    let fields = vec![
        field("a", Some(attrs(Some("bogus"), "integer", None, Some(true), None))),
        field("b", Some(attrs(None, "string", None, Some(true), None))),
        field("c", Some(attrs(Some("money"), "decimal", None, Some(false), None))),
        field("d", Some(attrs(None, "float", None, Some(false), None))),
        field("e", Some(attrs(Some("tag"), "tag", None, Some(true), Some("TAGS")))),
        field("f", Some(attrs(Some("bogus"), "real", None, None, None))),
    ];
    let columns = process_endpoint_columns(ItemShape::NamedStruct, &fields).ok().unwrap();
    let formats: Vec<_> = columns.iter().map(|c| c.format).collect();
    assert_eq!(
        formats,
        vec![
            Err(DeriveError::InvalidFormat { column: 0 }),
            Ok(ColumnFormat::Plain),
            Err(DeriveError::InvalidFormat { column: 2 }),
            Ok(ColumnFormat::Plain),
            Ok(ColumnFormat::Tag),
            Err(DeriveError::InvalidFormat { column: 5 }),
        ]
    );
    let metadata_errors: Vec<_> = columns.iter().map(|c| c.metadata.as_ref().err().copied()).collect();
    assert_eq!(
        metadata_errors,
        vec![
            None,
            None,
            None,
            Some(DeriveError::InvalidDataType { column: 3 }),
            Some(DeriveError::AmbiguousDisplay { column: 4 }),
            Some(DeriveError::InvalidDataType { column: 5 }),
        ]
    );
    assert_eq!(metadata_of(&columns[0]).display_name, "A");
}
