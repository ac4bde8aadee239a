//! Data types of the appscript API.

use vstd::prelude::*;

verus! {

#[derive(Debug, Clone)]
pub struct Project {
    pub script_id: Option<String>,
    pub title: Option<String>,
    pub parent_id: Option<String>,
    pub create_time: Option<String>,
    pub update_time: Option<String>,
    pub creator: Option<GoogleUser>,
    pub last_modify_user: Option<GoogleUser>,
}

#[derive(Debug, Clone)]
pub struct GoogleUser {
    pub domain: Option<String>,
    pub email: Option<String>,
    pub name: Option<String>,
}

#[derive(Debug, Clone)]
pub struct ScriptFile {
    pub name: Option<String>,
    pub file_type: Option<String>,
    pub source: Option<String>,
    pub last_modify_user: Option<GoogleUser>,
    pub create_time: Option<String>,
    pub update_time: Option<String>,
    pub function_set: Option<FunctionSet>,
}

#[derive(Debug, Clone)]
pub struct FunctionSet {
    pub values: Vec<GoogleFunction>,
}

#[derive(Debug, Clone)]
pub struct GoogleFunction {
    pub name: Option<String>,
}

#[derive(Debug, Clone)]
pub struct ScriptContent {
    pub script_id: Option<String>,
    pub files: Vec<ScriptFile>,
}

#[derive(Debug, Clone)]
pub struct ExecutionError {
    pub error_message: Option<String>,
    pub error_type: Option<String>,
    pub script_stack_trace_elements: Vec<ScriptStackTraceElement>,
}

#[derive(Debug, Clone)]
pub struct ScriptStackTraceElement {
    pub function: Option<String>,
    pub line_number: Option<i64>,
}

} // verus!
