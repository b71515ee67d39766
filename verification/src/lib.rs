//! Verified core of the Seattle music scene event pipeline: metric naming,
//! change detection, normalization, quality assessment and in-memory storage.

pub mod text;
pub mod metrics;
pub mod recorder;
pub mod domain;
pub mod enrich;
pub mod digest;
pub mod catalog;
pub mod calendar;
pub mod html;
pub mod ids;
pub mod ingestion;
pub mod json;
pub mod normalize;
pub mod parser;
pub mod pipeline;
pub mod quality_gate;
pub mod scrapers;
pub mod storage;
pub mod tasks;
pub mod web;
