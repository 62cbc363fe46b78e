//! The decisions behind the derive macros of the API: which items they accept, and how
//! the `#[col_format(...)]` attributes of an endpoint's fields describe its columns.
//! Reading the item and writing the generated code is left to the macros themselves.

use convert_case::{Case, Casing};
use vstd::prelude::*;

use crate::api::views::{ColumnFormat, FrontendDataType};

verus! {

/// The derive macros of the API.
#[derive(Clone, Copy, Debug, PartialEq, Eq, Structural)]
pub enum DeriveName {
    ProcessEndpoint,
    ServeEntityJson,
    ServeRowJson,
    IdParameter,
}

/// The shape of the item that a derive is applied to.
#[derive(Clone, Copy, Debug, PartialEq, Eq, Structural)]
pub enum ItemShape {
    /// A struct with named fields.
    NamedStruct,
    /// A tuple struct.
    TupleStruct,
    /// A struct without fields.
    UnitStruct,
    Enum,
    Union,
}

/// Why a derive refuses an item. A `column` is the position of the offending field.
#[derive(Clone, Copy, Debug, PartialEq, Eq, Structural)]
pub enum DeriveError {
    NonStruct { derive: DeriveName },
    UnitOrTupleStruct { derive: DeriveName },
    MissingColumnFormat { column: usize },
    InvalidFormat { column: usize },
    InvalidDataType { column: usize },
    AmbiguousDisplay { column: usize },
    MissingIdParam,
    NoFields,
}

/// The name of a derive, as users write it.
pub open spec fn derive_name(derive: DeriveName) -> Seq<char> {
    match derive {
        DeriveName::ProcessEndpoint => "ProcessEndpoint"@,
        DeriveName::ServeEntityJson => "ServeEntityJson"@,
        DeriveName::ServeRowJson => "ServeRowJson"@,
        DeriveName::IdParameter => "IdParameter"@,
    }
}

/// The message that a derive reports for `error`.
pub open spec fn error_message(error: DeriveError) -> Seq<char> {
    match error {
        DeriveError::NonStruct { derive } => "cannot derive `"@ + derive_name(derive)
            + "` for non-struct types"@,
        DeriveError::UnitOrTupleStruct { derive } => "cannot derive `"@ + derive_name(derive)
            + "` for unit or tuple structs"@,
        DeriveError::MissingColumnFormat { .. } =>
            "cannot derive `ProcessEndpoint` without `#[col_format(...)]` attribute on each column"@,
        DeriveError::InvalidFormat { .. } =>
            "invalid value for `format` in `#[col_format(...)]` attribute"@,
        DeriveError::InvalidDataType { .. } =>
            "invalid value for `data_type` in `#[col_format(...)]` attribute"@,
        DeriveError::AmbiguousDisplay { .. } =>
            "either `trimmable` or `tag_options` must be specified in `#[col_format(...)]` attribute"@,
        DeriveError::MissingIdParam => "cannot derive `ServeRowJson` without `#[id_param(...)]` attribute"@,
        DeriveError::NoFields => "cannot derive `IdParameter` for structs with no fields"@,
    }
}

impl DeriveName {
    /// The name of the derive, as users write it.
    pub fn as_str(&self) -> (name: &'static str)
        ensures
            name@ == derive_name(*self),
    {
        match self {
            DeriveName::ProcessEndpoint => "ProcessEndpoint",
            DeriveName::ServeEntityJson => "ServeEntityJson",
            DeriveName::ServeRowJson => "ServeRowJson",
            DeriveName::IdParameter => "IdParameter",
        }
    }
}

impl DeriveError {
    /// The message that the derive reports.
    pub fn message(&self) -> (message: String)
        ensures
            message@ == error_message(*self),
    {
        match self {
            DeriveError::NonStruct { derive } => {
                let mut message = String::from_str("cannot derive `");
                message.append(derive.as_str());
                message.append("` for non-struct types");
                message
            },
            DeriveError::UnitOrTupleStruct { derive } => {
                let mut message = String::from_str("cannot derive `");
                message.append(derive.as_str());
                message.append("` for unit or tuple structs");
                message
            },
            DeriveError::MissingColumnFormat { .. } => String::from_str(
                "cannot derive `ProcessEndpoint` without `#[col_format(...)]` attribute on each column",
            ),
            DeriveError::InvalidFormat { .. } => String::from_str(
                "invalid value for `format` in `#[col_format(...)]` attribute",
            ),
            DeriveError::InvalidDataType { .. } => String::from_str(
                "invalid value for `data_type` in `#[col_format(...)]` attribute",
            ),
            DeriveError::AmbiguousDisplay { .. } => String::from_str(
                "either `trimmable` or `tag_options` must be specified in `#[col_format(...)]` attribute",
            ),
            DeriveError::MissingIdParam => String::from_str(
                "cannot derive `ServeRowJson` without `#[id_param(...)]` attribute",
            ),
            DeriveError::NoFields => String::from_str(
                "cannot derive `IdParameter` for structs with no fields",
            ),
        }
    }
}

/// Accepts any struct, and refuses enums and unions.
pub fn require_struct(derive: DeriveName, shape: ItemShape) -> (result: Result<(), DeriveError>)
    ensures
        result == (if shape is Enum || shape is Union {
            Err(DeriveError::NonStruct { derive })
        } else {
            Ok(())
        }),
{
    match shape {
        ItemShape::Enum | ItemShape::Union => Err(DeriveError::NonStruct { derive }),
        _ => Ok(()),
    }
}

/// The verdict of [`require_named_struct`] on `shape`.
pub open spec fn named_struct_check(derive: DeriveName, shape: ItemShape) -> Result<(), DeriveError> {
    match shape {
        ItemShape::NamedStruct => Ok(()),
        ItemShape::TupleStruct | ItemShape::UnitStruct => Err(
            DeriveError::UnitOrTupleStruct { derive },
        ),
        _ => Err(DeriveError::NonStruct { derive }),
    }
}

/// Accepts a struct with named fields; refuses other structs, and anything but a struct,
/// each with its own error.
pub fn require_named_struct(derive: DeriveName, shape: ItemShape) -> (result: Result<(), DeriveError>)
    ensures
        result == named_struct_check(derive, shape),
        shape is NamedStruct ==> result == Ok::<(), DeriveError>(()),
        (shape is UnitStruct || shape is TupleStruct) ==> result == Err::<(), DeriveError>(
            DeriveError::UnitOrTupleStruct { derive },
        ),
        (shape is Enum || shape is Union) ==> result == Err::<(), DeriveError>(
            DeriveError::NonStruct { derive },
        ),
{
    match shape {
        ItemShape::NamedStruct => Ok(()),
        ItemShape::TupleStruct | ItemShape::UnitStruct => Err(
            DeriveError::UnitOrTupleStruct { derive },
        ),
        _ => Err(DeriveError::NonStruct { derive }),
    }
}

/// What `ServeEntityJson` needs of an item: that it be a struct.
pub fn serve_entity_json_check(shape: ItemShape) -> (result: Result<(), DeriveError>)
    ensures
        result == (if shape is Enum || shape is Union {
            Err(DeriveError::NonStruct { derive: DeriveName::ServeEntityJson })
        } else {
            Ok(())
        }),
{
    require_struct(DeriveName::ServeEntityJson, shape)
}

/// What `ServeRowJson` needs of an item: that it be a struct, and that it name the type
/// of its identifier in an `#[id_param(...)]` attribute, which is returned.
pub fn serve_row_json_id_param(shape: ItemShape, id_param: Option<String>) -> (result: Result<String, DeriveError>)
    ensures
        (shape is Enum || shape is Union) ==> result == Err::<String, DeriveError>(
            DeriveError::NonStruct { derive: DeriveName::ServeRowJson },
        ),
        !(shape is Enum || shape is Union) && id_param is None ==> result == Err::<String, DeriveError>(
            DeriveError::MissingIdParam,
        ),
        !(shape is Enum || shape is Union) && id_param is Some ==> result == Ok::<String, DeriveError>(
            id_param->0,
        ),
{
    match require_struct(DeriveName::ServeRowJson, shape) {
        Err(error) => Err(error),
        Ok(()) => match id_param {
            Some(ty) => Ok(ty),
            None => Err(DeriveError::MissingIdParam),
        },
    }
}

/// What `IdParameter` needs of an item: a struct with named fields, at least one of them.
/// Returns the name of the first field, which holds the identifier.
pub fn id_parameter_field(shape: ItemShape, field_names: Vec<String>) -> (result: Result<String, DeriveError>)
    ensures
        named_struct_check(DeriveName::IdParameter, shape) matches Err(e) ==> result
            == Err::<String, DeriveError>(e),
        (shape is UnitStruct || shape is TupleStruct) ==> result == Err::<String, DeriveError>(
            DeriveError::UnitOrTupleStruct { derive: DeriveName::IdParameter },
        ),
        (shape is Enum || shape is Union) ==> result == Err::<String, DeriveError>(
            DeriveError::NonStruct { derive: DeriveName::IdParameter },
        ),
        shape is NamedStruct && field_names@.len() == 0 ==> result == Err::<String, DeriveError>(
            DeriveError::NoFields,
        ),
        shape is NamedStruct && field_names@.len() > 0 ==> result == Ok::<String, DeriveError>(
            field_names@[0],
        ),
{
    match require_named_struct(DeriveName::IdParameter, shape) {
        Err(error) => Err(error),
        Ok(()) => {
            let mut field_names = field_names;
            if field_names.len() == 0 {
                Err(DeriveError::NoFields)
            } else {
                Ok(field_names.swap_remove(0))
            }
        },
    }
}

/// The `#[col_format(...)]` attribute of an endpoint's field: how to format the column
/// (`format`), the kind of its values (`data_type`), the heading (`display_name`, by
/// default the field's name in title case), and either whether the text may be trimmed
/// (`trimmable`) or the constant that lists its tags (`tag_options`).
pub struct ColumnFormatAttributes {
    pub format: Option<String>,
    pub data_type: String,
    pub display_name: Option<String>,
    pub trimmable: Option<bool>,
    pub tag_options: Option<String>,
}

/// A field of an endpoint's struct, with its `#[col_format(...)]` attribute if it has one.
pub struct EndpointField {
    pub name: String,
    pub attributes: Option<ColumnFormatAttributes>,
}

/// How an endpoint's column is shown: as text that may or may not be trimmed, or as tags
/// listed by the named constant.
pub enum EndpointColumnDisplay {
    Text { trimmable: bool },
    Tag { options: String },
}

/// The metadata of a column: the kind of its values, its heading, and how it is shown.
pub struct EndpointColumnMetadata {
    pub data_type: FrontendDataType,
    pub display_name: String,
    pub display: EndpointColumnDisplay,
}

/// A column of an endpoint, as the derive writes it: its format and its metadata, each
/// either what the field's attribute gives or the error that the derive writes in its place.
pub struct EndpointColumn {
    pub name: String,
    pub format: Result<ColumnFormat, DeriveError>,
    pub metadata: Result<EndpointColumnMetadata, DeriveError>,
}

/// The format that the `format` value of a `#[col_format(...)]` attribute names: none
/// given is `Plain`; `"id"`, `"currency"`, `"date"` and `"tag"` name the formats so
/// called; any other value names none.
pub open spec fn format_named(format: Option<String>) -> Option<ColumnFormat> {
    match format {
        None => Some(ColumnFormat::Plain),
        Some(f) => if f@ == "id"@ {
            Some(ColumnFormat::Id)
        } else if f@ == "currency"@ {
            Some(ColumnFormat::Currency)
        } else if f@ == "date"@ {
            Some(ColumnFormat::Date)
        } else if f@ == "tag"@ {
            Some(ColumnFormat::Tag)
        } else {
            None
        },
    }
}

/// The kind of values that the `data_type` value of a `#[col_format(...)]` attribute
/// names: `"integer"`, `"decimal"`, `"string"`, `"timestamp"` and `"tag"`; any other value
/// names none.
pub open spec fn data_type_named(name: Seq<char>) -> Option<FrontendDataType> {
    if name == "integer"@ {
        Some(FrontendDataType::Integer)
    } else if name == "decimal"@ {
        Some(FrontendDataType::Decimal)
    } else if name == "string"@ {
        Some(FrontendDataType::String)
    } else if name == "timestamp"@ {
        Some(FrontendDataType::Timestamp)
    } else if name == "tag"@ {
        Some(FrontendDataType::Tag)
    } else {
        None
    }
}

/// The attribute gives exactly one of `trimmable` and `tag_options`.
pub open spec fn display_is_given(attributes: ColumnFormatAttributes) -> bool {
    attributes.trimmable is Some != attributes.tag_options is Some
}

/// The field has a `#[col_format(...)]` attribute.
pub open spec fn has_column_format(field: EndpointField) -> bool {
    field.attributes is Some
}

/// The format entry of the field at position `column`: the format that its attribute names,
/// or the error for a `format` value that names none.
pub open spec fn format_entry(attributes: ColumnFormatAttributes, column: usize) -> Result<
    ColumnFormat,
    DeriveError,
> {
    match format_named(attributes.format) {
        Some(format) => Ok(format),
        None => Err(DeriveError::InvalidFormat { column }),
    }
}

/// The attribute names a kind of values and says how to show the column.
pub open spec fn metadata_is_valid(attributes: ColumnFormatAttributes) -> bool {
    data_type_named(attributes.data_type@) is Some && display_is_given(attributes)
}

/// The error for the metadata of the field at position `column`, when it is not valid: an
/// unknown kind of values is reported before a wrong choice of display.
pub open spec fn metadata_error(attributes: ColumnFormatAttributes, column: usize) -> DeriveError {
    if data_type_named(attributes.data_type@) is None {
        DeriveError::InvalidDataType { column }
    } else {
        DeriveError::AmbiguousDisplay { column }
    }
}

/// Every field passes `check`.
pub open spec fn all_fields(fields: Seq<EndpointField>, check: spec_fn(EndpointField) -> bool) -> bool {
    forall|i: int| 0 <= i < fields.len() ==> check(#[trigger] fields[i])
}

/// `column` is the first field that fails `check`.
pub open spec fn is_first_failure(
    fields: Seq<EndpointField>,
    column: int,
    check: spec_fn(EndpointField) -> bool,
) -> bool {
    &&& 0 <= column < fields.len()
    &&& !check(fields[column])
    &&& forall|i: int| 0 <= i < column ==> check(#[trigger] fields[i])
}

/// The title case of a text, as `convert_case` writes it with `Case::Title`.
pub uninterp spec fn title_case(text: Seq<char>) -> Seq<char>;

/// `text` in title case: `convert_case::Casing::to_case` with `Case::Title`, which splits
/// the text into words and joins them with spaces, each word capitalised. The contract
/// claims only that the result is a function of the text, named [`title_case`]; the rules
/// of the split are convert_case's.
#[verifier::external_body]
fn to_title_case(text: &str) -> (title: String)
    ensures
        title@ == title_case(text@),
{
    text.to_case(Case::Title)
}

impl EndpointColumnMetadata {
    /// The metadata is what `attributes` give, headed `default_display_name` when they give
    /// no heading.
    pub open spec fn describes_with_heading(
        self,
        attributes: ColumnFormatAttributes,
        default_display_name: Seq<char>,
    ) -> bool {
        &&& data_type_named(attributes.data_type@) == Some(self.data_type)
        &&& self.display_name@ == (match attributes.display_name {
            Some(d) => d@,
            None => default_display_name,
        })
        &&& match attributes.trimmable {
            Some(t) => self.display == EndpointColumnDisplay::Text { trimmable: t },
            None => self.display matches EndpointColumnDisplay::Tag { options }
                && attributes.tag_options matches Some(o) && options@ == o@,
        }
    }
}

impl EndpointColumn {
    /// The column is the one that `field`, at position `column`, describes, headed
    /// `default_display_name` when its attribute gives no heading: each entry holds what the
    /// attribute gives, or the error for it.
    pub open spec fn describes_with_heading(
        self,
        field: EndpointField,
        column: usize,
        default_display_name: Seq<char>,
    ) -> bool {
        &&& field.attributes matches Some(a)
        &&& self.name@ == field.name@
        &&& self.format == format_entry(a, column)
        &&& if metadata_is_valid(a) {
            self.metadata matches Ok(m) && m.describes_with_heading(a, default_display_name)
        } else {
            self.metadata == Err::<EndpointColumnMetadata, DeriveError>(metadata_error(a, column))
        }
    }

    /// The column is the one that `field`, at position `column`, describes; without a
    /// heading in the attribute, it is headed by the field's name in title case.
    pub open spec fn describes(self, field: EndpointField, column: usize) -> bool {
        self.describes_with_heading(field, column, title_case(field.name@))
    }
}

/// Whether `s` holds `text`.
fn text_is(s: &String, text: &str) -> (equal: bool)
    ensures
        equal == (s@ == text@),
{
    *s == String::from_str(text)
}

/// The format that `format` names, if any.
pub fn column_format(format: &Option<String>) -> (result: Option<ColumnFormat>)
    ensures
        result == format_named(*format),
{
    match format {
        None => Some(ColumnFormat::Plain),
        Some(f) => if text_is(f, "id") {
            Some(ColumnFormat::Id)
        } else if text_is(f, "currency") {
            Some(ColumnFormat::Currency)
        } else if text_is(f, "date") {
            Some(ColumnFormat::Date)
        } else if text_is(f, "tag") {
            Some(ColumnFormat::Tag)
        } else {
            None
        },
    }
}

/// The kind of values that `name` names, if any.
pub fn frontend_data_type(name: &String) -> (result: Option<FrontendDataType>)
    ensures
        result == data_type_named(name@),
{
    if text_is(name, "integer") {
        Some(FrontendDataType::Integer)
    } else if text_is(name, "decimal") {
        Some(FrontendDataType::Decimal)
    } else if text_is(name, "string") {
        Some(FrontendDataType::String)
    } else if text_is(name, "timestamp") {
        Some(FrontendDataType::Timestamp)
    } else if text_is(name, "tag") {
        Some(FrontendDataType::Tag)
    } else {
        None
    }
}

/// The metadata that `attributes`, of the field at position `column`, give, headed
/// `default_display_name` when they give no heading; or the error for them.
fn column_metadata(
    column: usize,
    attributes: &ColumnFormatAttributes,
    default_display_name: String,
) -> (result: Result<EndpointColumnMetadata, DeriveError>)
    ensures
        metadata_is_valid(*attributes) ==> (result matches Ok(m) && m.describes_with_heading(
            *attributes,
            default_display_name@,
        )),
        !metadata_is_valid(*attributes) ==> result == Err::<EndpointColumnMetadata, DeriveError>(
            metadata_error(*attributes, column),
        ),
        result is Ok ==> (attributes.trimmable is Some != attributes.tag_options is Some),
        (attributes.trimmable is Some == attributes.tag_options is Some) ==> result is Err,
        result matches Err(e) ==> (e == DeriveError::InvalidDataType { column } || e
            == DeriveError::AmbiguousDisplay { column }),
{
    let data_type = match frontend_data_type(&attributes.data_type) {
        Some(t) => t,
        None => return Err(DeriveError::InvalidDataType { column }),
    };
    let display = match (attributes.trimmable, &attributes.tag_options) {
        (Some(trimmable), None) => EndpointColumnDisplay::Text { trimmable },
        (None, Some(options)) => EndpointColumnDisplay::Tag { options: options.clone() },
        _ => return Err(DeriveError::AmbiguousDisplay { column }),
    };
    let display_name = match &attributes.display_name {
        Some(name) => name.clone(),
        None => default_display_name,
    };
    Ok(EndpointColumnMetadata { data_type, display_name, display })
}

/// The column that `field`, at position `column`, describes, headed `default_display_name`
/// when its attribute gives no heading. An entry that the attribute gets wrong holds the
/// error for it, so that the derive reports it at that column.
pub fn endpoint_column(column: usize, field: &EndpointField, default_display_name: String) -> (result:
    EndpointColumn)
    requires
        field.attributes is Some,
    ensures
        result.describes_with_heading(*field, column, default_display_name@),
        field.attributes matches Some(a) ==> (result.metadata is Ok ==> (a.trimmable is Some
            != a.tag_options is Some)),
        field.attributes matches Some(a) ==> ((a.trimmable is Some == a.tag_options is Some)
            ==> result.metadata is Err),
{
    let attributes = match &field.attributes {
        Some(a) => a,
        None => vstd::pervasive::unreached(),
    };
    let format = match column_format(&attributes.format) {
        Some(format) => Ok(format),
        None => Err(DeriveError::InvalidFormat { column }),
    };
    let metadata = column_metadata(column, attributes, default_display_name);
    EndpointColumn { name: field.name.clone(), format, metadata }
}

/// `error` reports the first field that carries no attribute.
pub open spec fn reports_first_missing_attribute(fields: Seq<EndpointField>, error: DeriveError) -> bool {
    &&& error is MissingColumnFormat
    &&& is_first_failure(fields, error->MissingColumnFormat_column as int, |f| has_column_format(f))
}

/// The columns of an endpoint, one for each field of its struct, in order; or the error that
/// stops the derive.
///
/// A struct without named fields, or the first field without a `#[col_format(...)]`
/// attribute, stops the derive with that error. Otherwise every field gives its column,
/// and a `format`, `data_type` or display that its attribute gets wrong stands in that
/// column as the error for it, so that every offending field is reported where it is.
pub fn process_endpoint_columns(shape: ItemShape, fields: &Vec<EndpointField>) -> (result: Result<
    Vec<EndpointColumn>,
    DeriveError,
>)
    ensures
        named_struct_check(DeriveName::ProcessEndpoint, shape) matches Err(e) ==> result == Err::<
            Vec<EndpointColumn>,
            DeriveError,
        >(e),
        shape is NamedStruct && !all_fields(fields@, |f| has_column_format(f)) ==> (result matches Err(
            e,
        ) && reports_first_missing_attribute(fields@, e)),
        shape is NamedStruct && all_fields(fields@, |f| has_column_format(f)) ==> (result matches Ok(
            columns,
        ) && columns@.len() == fields@.len() && forall|i: int|
            0 <= i < fields@.len() ==> (#[trigger] columns@[i]).describes(fields@[i], i as usize)),
        result is Ok ==> shape is NamedStruct,
        (shape is UnitStruct || shape is TupleStruct) ==> result == Err::<Vec<EndpointColumn>, DeriveError>(
            DeriveError::UnitOrTupleStruct { derive: DeriveName::ProcessEndpoint },
        ),
        (shape is Enum || shape is Union) ==> result == Err::<Vec<EndpointColumn>, DeriveError>(
            DeriveError::NonStruct { derive: DeriveName::ProcessEndpoint },
        ),
        result matches Ok(columns) ==> forall|i: int|
            0 <= i < columns@.len() ==> (fields@[i].attributes matches Some(a) ==> ((
            #[trigger] columns@[i]).metadata is Ok ==> (a.trimmable is Some != a.tag_options is Some))),
        result matches Ok(columns) ==> forall|i: int|
            0 <= i < columns@.len() ==> (fields@[i].attributes matches Some(a) ==> ((a.trimmable is Some
                == a.tag_options is Some) ==> (#[trigger] columns@[i]).metadata is Err)),
{
    if let Err(error) = require_named_struct(DeriveName::ProcessEndpoint, shape) {
        return Err(error);
    }
    let n = fields.len();
    let mut k: usize = 0;
    while k < n
        invariant
            shape is NamedStruct,
            n == fields@.len(),
            0 <= k <= n,
            forall|i: int| 0 <= i < k ==> has_column_format(#[trigger] fields@[i]),
        decreases n - k,
    {
        if fields[k].attributes.is_none() {
            assert(is_first_failure(fields@, k as int, |f| has_column_format(f)));
            return Err(DeriveError::MissingColumnFormat { column: k });
        }
        k = k + 1;
    }
    assert(all_fields(fields@, |f| has_column_format(f)));

    let mut columns: Vec<EndpointColumn> = Vec::new();
    let mut k: usize = 0;
    while k < n
        invariant
            shape is NamedStruct,
            n == fields@.len(),
            0 <= k <= n,
            all_fields(fields@, |f| has_column_format(f)),
            columns@.len() == k,
            forall|i: int| 0 <= i < k ==> (#[trigger] columns@[i]).describes(fields@[i], i as usize),
            forall|i: int|
                0 <= i < k ==> (fields@[i].attributes matches Some(a) ==> ((
                #[trigger] columns@[i]).metadata is Ok ==> (a.trimmable is Some != a.tag_options is Some))),
            forall|i: int|
                0 <= i < k ==> (fields@[i].attributes matches Some(a) ==> ((a.trimmable is Some
                    == a.tag_options is Some) ==> (#[trigger] columns@[i]).metadata is Err)),
        decreases n - k,
    {
        let field = &fields[k];
        assert(has_column_format(fields@[k as int]));
        let title = to_title_case(field.name.as_str());
        let column = endpoint_column(k, field, title);
        columns.push(column);
        k = k + 1;
    }
    Ok(columns)
}

/// A derive that needs named fields accepts an item exactly when it is a struct with named
/// fields; a unit or tuple struct is refused as such, and anything but a struct as a
/// non-struct.
pub proof fn law_only_named_structs_pass(derive: DeriveName, shape: ItemShape)
    ensures
        named_struct_check(derive, shape) is Ok <==> shape is NamedStruct,
        (shape is UnitStruct || shape is TupleStruct) ==> named_struct_check(derive, shape) == Err::<
            (),
            DeriveError,
        >(DeriveError::UnitOrTupleStruct { derive }),
        (shape is Enum || shape is Union) ==> named_struct_check(derive, shape) == Err::<
            (),
            DeriveError,
        >(DeriveError::NonStruct { derive }),
{
}

/// A column's format is `Plain` when the attribute gives none, the format so named for
/// `"id"`, `"currency"`, `"date"` and `"tag"`, and the error for its field otherwise.
pub proof fn law_column_format(c: EndpointColumn, field: EndpointField, column: usize)
    requires
        c.describes(field, column),
    ensures
        field.attributes matches Some(a) ==> {
            &&& a.format is None ==> c.format == Ok::<ColumnFormat, DeriveError>(ColumnFormat::Plain)
            &&& (a.format matches Some(f) && f@ == "id"@) ==> c.format == Ok::<
                ColumnFormat,
                DeriveError,
            >(ColumnFormat::Id)
            &&& (a.format matches Some(f) && f@ == "currency"@) ==> c.format == Ok::<
                ColumnFormat,
                DeriveError,
            >(ColumnFormat::Currency)
            &&& (a.format matches Some(f) && f@ == "date"@) ==> c.format == Ok::<
                ColumnFormat,
                DeriveError,
            >(ColumnFormat::Date)
            &&& (a.format matches Some(f) && f@ == "tag"@) ==> c.format == Ok::<
                ColumnFormat,
                DeriveError,
            >(ColumnFormat::Tag)
            &&& (a.format matches Some(f) && f@ != "id"@ && f@ != "currency"@ && f@ != "date"@ && f@
                != "tag"@) ==> c.format == Err::<ColumnFormat, DeriveError>(
                DeriveError::InvalidFormat { column },
            )
        },
{
    reveal_strlit("id");
    reveal_strlit("currency");
    reveal_strlit("date");
    reveal_strlit("tag");
    let names = seq!["id"@, "currency"@, "date"@, "tag"@];
    assert forall|i: int, j: int| 0 <= i < j < 4 implies names[i] != names[j] by {
        assert(names[i].len() != names[j].len() || names[i][0] != names[j][0]);
    }
    assert(names[1] != names[0] && names[2] != names[0] && names[2] != names[1]);
    assert(names[3] != names[0] && names[3] != names[1] && names[3] != names[2]);
}

/// A column's kind of values is the one that its attribute's `data_type` names; a name
/// other than `"integer"`, `"decimal"`, `"string"`, `"timestamp"` and `"tag"` puts the
/// error for its field in place of the metadata.
pub proof fn law_column_data_type(c: EndpointColumn, field: EndpointField, column: usize)
    requires
        c.describes(field, column),
    ensures
        field.attributes matches Some(a) ==> {
            &&& (a.data_type@ != "integer"@ && a.data_type@ != "decimal"@ && a.data_type@
                != "string"@ && a.data_type@ != "timestamp"@ && a.data_type@ != "tag"@)
                ==> c.metadata == Err::<EndpointColumnMetadata, DeriveError>(
                DeriveError::InvalidDataType { column },
            )
            &&& c.metadata matches Ok(m) ==> (a.data_type@ == "integer"@ ==> m.data_type
                == FrontendDataType::Integer)
            &&& c.metadata matches Ok(m) ==> (a.data_type@ == "decimal"@ ==> m.data_type
                == FrontendDataType::Decimal)
            &&& c.metadata matches Ok(m) ==> (a.data_type@ == "string"@ ==> m.data_type
                == FrontendDataType::String)
            &&& c.metadata matches Ok(m) ==> (a.data_type@ == "timestamp"@ ==> m.data_type
                == FrontendDataType::Timestamp)
            &&& c.metadata matches Ok(m) ==> (a.data_type@ == "tag"@ ==> m.data_type
                == FrontendDataType::Tag)
        },
{
    reveal_strlit("integer");
    reveal_strlit("decimal");
    reveal_strlit("string");
    reveal_strlit("timestamp");
    reveal_strlit("tag");
    let names = seq!["integer"@, "decimal"@, "string"@, "timestamp"@, "tag"@];
    assert forall|i: int, j: int| 0 <= i < j < 5 implies names[i] != names[j] by {
        assert(names[i][0] != names[j][0] || names[i].len() != names[j].len());
    }
    assert(names[1] != names[0] && names[2] != names[0] && names[2] != names[1]);
    assert(names[3] != names[0] && names[3] != names[1] && names[3] != names[2]);
    assert(names[4] != names[0] && names[4] != names[1] && names[4] != names[2] && names[4]
        != names[3]);
}

/// A column is shown as text or as tags only when its attribute gives exactly one of
/// `trimmable` and `tag_options`: text with that `trimmable`, or tags listed by that
/// constant. With a known kind of values, giving neither or both puts the error for its
/// field in place of the metadata, and giving exactly one gives the metadata.
pub proof fn law_column_display(c: EndpointColumn, field: EndpointField, column: usize)
    requires
        c.describes(field, column),
    ensures
        field.attributes matches Some(a) ==> {
            &&& c.metadata is Ok ==> (a.trimmable is Some != a.tag_options is Some)
            &&& a.trimmable matches Some(t) ==> (c.metadata matches Ok(m) ==> m.display
                == EndpointColumnDisplay::Text { trimmable: t })
            &&& a.tag_options matches Some(o) ==> (c.metadata matches Ok(m) ==> (
            m.display matches EndpointColumnDisplay::Tag { options } && options@ == o@))
            &&& (a.data_type@ == "integer"@ || a.data_type@ == "decimal"@ || a.data_type@
                == "string"@ || a.data_type@ == "timestamp"@ || a.data_type@ == "tag"@) ==> {
                &&& (a.trimmable is Some == a.tag_options is Some) ==> c.metadata == Err::<
                    EndpointColumnMetadata,
                    DeriveError,
                >(DeriveError::AmbiguousDisplay { column })
                &&& (a.trimmable is Some != a.tag_options is Some) ==> c.metadata is Ok
            }
        },
{
}

/// A column is headed by its attribute's `display_name`, or else by its field's name in
/// title case.
pub proof fn law_column_heading(c: EndpointColumn, field: EndpointField, column: usize)
    requires
        c.describes(field, column),
    ensures
        field.attributes matches Some(a) ==> (c.metadata matches Ok(m) ==> m.display_name@ == (
        match a.display_name {
            Some(d) => d@,
            None => title_case(field.name@),
        })),
{
}

} // verus!
