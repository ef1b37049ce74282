//! A small page-widget library: a clamped page index, an unbounded click
//! counter, and a tag-selection widget that binds a fetched list of labels
//! to a toggleable selection and renders it as a pure view tree.

pub mod counter;
pub mod pagination;
pub mod shell;
pub mod tags;
