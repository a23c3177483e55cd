//! Entity persistence: the row codec, the entity contract, the upsert
//! decisions and the collection decoding that sit between typed records and
//! rows of a relational store.

mod collection;
mod config;
mod entity;
mod ident;
mod row;
mod upsert;

pub use collection::{
    collect_rows, count_invalid, count_valid, decode_rows, decoded_rows, lemma_best_effort,
    records_view, rows_view,
};
pub use config::Config;
pub use entity::{
    decode_alt_name, encode_alt_name, id_at, lemma_decode_by_columns, AltNameView,
    DatabaseObject, Device, Message, User, UserAltName,
};
pub use ident::{hex_digit, hex_digits, key_text, text_of_uuid, uuid_of_text};
pub use row::{get_int, get_text, int_at, row_view, text_at, Cell, CellView};
pub use upsert::{
    commit_alt_name, commit_next, commit_start, lemma_commit_then_load, lemma_commit_twice,
    lemma_missing_and_malformed_alike, load_alt_name, load_from, next_step, table_commit,
    table_insert, table_update, CommitStep, ExecResult, TableModel,
};
