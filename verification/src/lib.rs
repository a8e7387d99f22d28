//! Verified core of an HWP/HWPX document toolkit: document template
//! structures and their normalisation, government report planning,
//! the MCP file-system guard and session table, and the OOXML chart
//! vocabulary (chart kinds and the attribute values a chart's XML uses).

pub mod document_core;
pub mod json_value;
pub mod mcp;
pub mod model;
pub mod ooxml_chart;
pub mod text;
