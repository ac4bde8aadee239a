//! Data types of the sheets API.

use vstd::prelude::*;

verus! {

#[derive(Debug, Clone)]
pub struct GridProperties {
    pub row_count: Option<i64>,
    pub column_count: Option<i64>,
    pub frozen_row_count: Option<i64>,
    pub frozen_column_count: Option<i64>,
    pub hide_gridlines: bool,
    pub row_group_control_after: bool,
    pub column_group_control_after: bool,
}

#[derive(Debug, Clone)]
pub struct ErrorValue {
    pub error_type: Option<String>,
    pub message: Option<String>,
}

#[derive(Debug, Clone)]
pub struct LinkValue {
    pub uri: Option<String>,
}

#[derive(Debug, Clone)]
pub struct DataValidationRule {
    pub condition: Option<BooleanCondition>,
    pub input_message: Option<String>,
    pub strict: bool,
    pub show_custom_ui: bool,
}

#[derive(Debug, Clone)]
pub struct BooleanCondition {
    pub condition_type: Option<String>,
    pub values: Vec<ConditionValue>,
}

#[derive(Debug, Clone)]
pub struct ConditionValue {
    pub relative_date: Option<String>,
    pub user_entered_value: Option<String>,
}

#[derive(Debug, Clone)]
pub struct NumberFormat {
    pub format_type: Option<String>,
    pub pattern: Option<String>,
}

#[derive(Debug, Clone)]
pub struct Padding {
    pub top: Option<i64>,
    pub bottom: Option<i64>,
    pub left: Option<i64>,
    pub right: Option<i64>,
}

#[derive(Debug, Clone)]
pub struct TextRotation {
    pub angle: Option<i64>,
    pub vertical: bool,
}

#[derive(Debug, Clone)]
pub struct GridRange {
    pub sheet_id: Option<i64>,
    pub start_row_index: Option<i64>,
    pub end_row_index: Option<i64>,
    pub start_column_index: Option<i64>,
    pub end_column_index: Option<i64>,
}

#[derive(Debug, Clone)]
pub struct NamedRange {
    pub named_range_id: Option<String>,
    pub name: Option<String>,
    pub range: Option<GridRange>,
}

} // verus!
