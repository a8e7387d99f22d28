//! Builders that turn structured descriptions into documents and back.

pub mod document_template;
pub mod government_report;
