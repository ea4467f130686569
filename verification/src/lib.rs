//! Reading and writing of LAS point-cloud data, with the GeoTIFF key tables
//! that describe its coordinate reference system.

pub mod bytes;
pub mod codec;
pub mod codec_laws;
pub mod crs;
pub mod datum_names;
pub mod decimal;
pub mod error;
pub mod fields;
pub mod file;
pub mod geographic_names;
pub mod geokey_text;
pub mod geokeys;
pub mod header;
pub mod keyword_tables;
pub mod layout;
pub mod point;
pub mod projected_names;
pub mod projection_names;
pub mod record_codec;
pub mod tag_names;
pub mod tiff_tag;
pub mod varint;
pub mod vlr;
pub mod writer;
