//! Data types of the forms API.

use vstd::prelude::*;

verus! {

#[derive(Debug, Clone)]
pub struct Form {
    pub form_id: Option<String>,
    pub info: Option<FormInfo>,
    pub settings: Option<FormSettings>,
    pub items: Vec<FormItem>,
    pub revision_id: Option<String>,
    pub responder_uri: Option<String>,
    pub linked_sheet_id: Option<String>,
}

#[derive(Debug, Clone)]
pub struct FormInfo {
    pub title: Option<String>,
    pub document_title: Option<String>,
    pub description: Option<String>,
}

#[derive(Debug, Clone)]
pub struct FormSettings {
    pub quiz_settings: Option<QuizSettings>,
}

#[derive(Debug, Clone)]
pub struct QuizSettings {
    pub is_quiz: bool,
}

#[derive(Debug, Clone)]
pub struct FormItem {
    pub item_id: Option<String>,
    pub title: Option<String>,
    pub description: Option<String>,
    pub question_item: Option<QuestionItem>,
    pub question_group_item: Option<QuestionGroupItem>,
    pub page_break_item: Option<PageBreakItem>,
    pub text_item: Option<TextItem>,
    pub image_item: Option<ImageItem>,
    pub video_item: Option<VideoItem>,
}

#[derive(Debug, Clone)]
pub struct QuestionItem {
    pub question: Option<Question>,
    pub image: Option<FormImage>,
}

#[derive(Debug, Clone)]
pub struct QuestionGroupItem {
    pub questions: Vec<Question>,
    pub image: Option<FormImage>,
    pub grid: Option<Grid>,
}

#[derive(Debug, Clone)]
pub struct Grid {
    pub columns: Option<ChoiceQuestion>,
    pub shuffle_questions: bool,
}

#[derive(Debug, Clone)]
pub struct PageBreakItem {}

#[derive(Debug, Clone)]
pub struct TextItem {}

#[derive(Debug, Clone)]
pub struct ImageItem {
    pub image: Option<FormImage>,
}

#[derive(Debug, Clone)]
pub struct VideoItem {
    pub video: Option<FormVideo>,
    pub caption: Option<String>,
}

#[derive(Debug, Clone)]
pub struct FormImage {
    pub content_uri: Option<String>,
    pub alt_text: Option<String>,
    pub properties: Option<MediaProperties>,
    pub source_uri: Option<String>,
}

#[derive(Debug, Clone)]
pub struct FormVideo {
    pub youtube_uri: Option<String>,
    pub properties: Option<MediaProperties>,
}

#[derive(Debug, Clone)]
pub struct MediaProperties {
    pub alignment: Option<String>,
    pub width: Option<i64>,
}

#[derive(Debug, Clone)]
pub struct Question {
    pub question_id: Option<String>,
    pub required: bool,
    pub grading: Option<Grading>,
    pub choice_question: Option<ChoiceQuestion>,
    pub text_question: Option<TextQuestion>,
    pub scale_question: Option<ScaleQuestion>,
    pub date_question: Option<DateQuestion>,
    pub time_question: Option<TimeQuestion>,
    pub file_upload_question: Option<FileUploadQuestion>,
    pub row_question: Option<RowQuestion>,
}

#[derive(Debug, Clone)]
pub struct Grading {
    pub point_value: Option<i64>,
    pub correct_answers: Option<CorrectAnswers>,
    pub when_right: Option<Feedback>,
    pub when_wrong: Option<Feedback>,
    pub general_feedback: Option<Feedback>,
}

#[derive(Debug, Clone)]
pub struct CorrectAnswers {
    pub answers: Vec<CorrectAnswer>,
}

#[derive(Debug, Clone)]
pub struct CorrectAnswer {
    pub value: Option<String>,
}

#[derive(Debug, Clone)]
pub struct Feedback {
    pub text: Option<String>,
    pub material: Vec<ExtraMaterial>,
}

#[derive(Debug, Clone)]
pub struct ExtraMaterial {
    pub link: Option<TextLink>,
    pub video: Option<FormVideo>,
}

#[derive(Debug, Clone)]
pub struct TextLink {
    pub uri: Option<String>,
    pub display_text: Option<String>,
}

/// Represents the type of question via its variant fields on `Question`.
/// This enum is provided as a convenience for pattern-matching.
#[derive(Debug, Clone)]
pub enum QuestionType {
    ChoiceQuestion,
    TextQuestion,
    ScaleQuestion,
    DateQuestion,
    TimeQuestion,
    FileUploadQuestion,
    RowQuestion,
}

#[derive(Debug, Clone)]
pub struct ChoiceQuestion {
    pub choice_type: Option<String>,
    pub options: Vec<ChoiceOption>,
    pub shuffle: bool,
}

#[derive(Debug, Clone)]
pub struct ChoiceOption {
    pub value: Option<String>,
    pub image: Option<FormImage>,
    pub is_other: bool,
    pub go_to_action: Option<String>,
    pub go_to_section_id: Option<String>,
}

#[derive(Debug, Clone)]
pub struct TextQuestion {
    pub paragraph: bool,
}

#[derive(Debug, Clone)]
pub struct ScaleQuestion {
    pub low: Option<i64>,
    pub high: Option<i64>,
    pub low_label: Option<String>,
    pub high_label: Option<String>,
}

#[derive(Debug, Clone)]
pub struct DateQuestion {
    pub include_time: bool,
    pub include_year: bool,
}

#[derive(Debug, Clone)]
pub struct TimeQuestion {
    pub duration: bool,
}

#[derive(Debug, Clone)]
pub struct FileUploadQuestion {
    pub folder_id: Option<String>,
    pub types: Vec<String>,
    pub max_files: Option<i64>,
    pub max_file_size: Option<String>,
}

#[derive(Debug, Clone)]
pub struct RowQuestion {
    pub title: Option<String>,
}

#[derive(Debug, Clone)]
pub struct TextAnswers {
    pub answers: Vec<TextAnswer>,
}

#[derive(Debug, Clone)]
pub struct TextAnswer {
    pub value: Option<String>,
}

#[derive(Debug, Clone)]
pub struct FileUploadAnswers {
    pub answers: Vec<FileUploadAnswer>,
}

#[derive(Debug, Clone)]
pub struct FileUploadAnswer {
    pub file_id: Option<String>,
    pub file_name: Option<String>,
    pub mime_type: Option<String>,
}

} // verus!
