//! The column descriptions that accompany every view the API sends, and the cells that
//! pair each value with the way to format it.

pub mod tickets;

use vstd::prelude::*;

verus! {

/// How the frontend formats the values of a column; `Plain` leaves them as they are.
#[derive(Clone, Copy, Debug, PartialEq, Eq, Structural)]
pub enum ColumnFormat {
    Id,
    Currency,
    Date,
    Tag,
    Plain,
}

/// The kind of value that a column holds, as the frontend knows it.
#[derive(Clone, Copy, Debug, PartialEq, Eq, Structural)]
pub enum FrontendDataType {
    Integer,
    Decimal,
    String,
    Timestamp,
    Tag,
}

/// A colour, as the frontend draws it: a named CSS colour with an opacity in percent.
#[derive(Clone, Copy, Debug)]
pub enum CssColor {
    Preset { name: &'static str, opacity_percent: u32 },
}

/// One value that a tag column can take, with the colour of its badge.
#[derive(Clone, Copy, Debug)]
pub struct TagOption {
    pub name: &'static str,
    pub color: CssColor,
}

/// How the frontend shows a column: as text, which may be trimmed to fit, or as tags.
#[derive(Debug)]
pub enum FrontendColumnDisplay {
    Text { name: &'static str, trimmable: bool },
    Tag { name: &'static str, options: Vec<TagOption> },
}

/// What the frontend needs to know of a column.
#[derive(Debug)]
pub struct FrontendColumnMetadata {
    pub data_type: FrontendDataType,
    pub display: FrontendColumnDisplay,
}

/// `format` suits values of kind `data_type`: identifiers are integers, money is decimal,
/// dates are timestamps, tags are tags, and any kind of value may be shown as it is.
pub open spec fn format_suits(format: ColumnFormat, data_type: FrontendDataType) -> bool {
    match format {
        ColumnFormat::Id => data_type == FrontendDataType::Integer,
        ColumnFormat::Currency => data_type == FrontendDataType::Decimal,
        ColumnFormat::Date => data_type == FrontendDataType::Timestamp,
        ColumnFormat::Tag => data_type == FrontendDataType::Tag,
        ColumnFormat::Plain => true,
    }
}

/// A value together with the format of its column.
pub struct ViewCell<T> {
    pub value: T,
    pub format: ColumnFormat,
}

impl<T> ViewCell<T> {
    /// The cell that shows `value` in `format`.
    pub fn new(value: T, format: &ColumnFormat) -> (cell: Self)
        ensures
            cell.value == value,
            cell.format == *format,
    {
        ViewCell { value, format: *format }
    }
}

/// `metadata` describes a text column of type `data_type`, headed `name`, that may be
/// trimmed when `trimmable`.
pub open spec fn is_text_column(
    metadata: FrontendColumnMetadata,
    data_type: FrontendDataType,
    name: Seq<char>,
    trimmable: bool,
) -> bool {
    &&& metadata.data_type == data_type
    &&& metadata.display matches FrontendColumnDisplay::Text { name: n, trimmable: t }
    &&& n@ == name
    &&& t == trimmable
}

/// `option` is named `name` and drawn in the preset colour `color` at `opacity_percent`.
pub open spec fn is_tag_option(
    option: TagOption,
    name: Seq<char>,
    color: Seq<char>,
    opacity_percent: u32,
) -> bool {
    &&& option.name@ == name
    &&& option.color matches CssColor::Preset { name: c, opacity_percent: o }
    &&& c@ == color
    &&& o == opacity_percent
}

/// The options of a tag column; none for a text column.
pub open spec fn tag_options_of(metadata: FrontendColumnMetadata) -> Seq<TagOption> {
    match metadata.display {
        FrontendColumnDisplay::Tag { options, .. } => options@,
        FrontendColumnDisplay::Text { .. } => Seq::empty(),
    }
}

/// `metadata` describes a tag column of type `data_type`, headed `name`, whose options are
/// given, in order, by `options` as triples of name, colour and opacity.
pub open spec fn is_tag_column(
    metadata: FrontendColumnMetadata,
    data_type: FrontendDataType,
    name: Seq<char>,
    options: Seq<(Seq<char>, Seq<char>, u32)>,
) -> bool {
    &&& metadata.data_type == data_type
    &&& metadata.display matches FrontendColumnDisplay::Tag { name: n, options: o }
    &&& n@ == name
    &&& o@.len() == options.len()
    &&& forall|i: int|
        0 <= i < options.len() ==> is_tag_option(
            #[trigger] o@[i],
            options[i].0,
            options[i].1,
            options[i].2,
        )
}

} // verus!
