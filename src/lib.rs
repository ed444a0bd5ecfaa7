//! A personal media collection: a registry of artists and albums with their
//! tracks, kept as flat metadata files below a collection root, and the
//! decisions of the pipeline that ingests source audio files into it.
pub mod catalog;
pub mod collection;
pub mod ids;
pub mod ingest;
pub mod layout;
pub mod library;
pub mod metadata;
pub mod records;
pub mod scan;
pub mod tags;
pub mod text;
