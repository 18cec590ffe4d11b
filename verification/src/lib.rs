//! Verified request logic of the JB catalogue service: what each endpoint
//! decides from the records it reads, the documents it renders and the
//! spreadsheets it exports.

pub mod text;
pub mod records;
pub mod reply;
pub mod entity;
pub mod lookup;
pub mod catalog;
pub mod listing;
pub mod exports;
pub mod product_sheets;
pub mod products;
pub mod clients;
pub mod accounts;
pub mod uploads;
pub mod dump;
pub mod decimal;
pub mod budget;
