use std::collections::HashMap;

use gartrix_store::{
    collect_rows, commit_next, commit_start, decode_rows, key_text, load_from, Cell, CommitStep,
    Config, DatabaseObject, ExecResult, UserAltName,
};

const A: u128 = 0xa1a2a3a4b1b2c1c2d1d2d3d4d5d6d7d8;
const U: u128 = 0x550e8400e29b41d4a716446655440000;

fn text(s: &str) -> Cell {
    Cell::Text(s.to_string())
}

fn good_row() -> Vec<Cell> {
    vec![
        text("a1a2a3a4-b1b2-c1c2-d1d2-d3d4d5d6d7d8"),
        text("550e8400-e29b-41d4-a716-446655440000"),
        text("alice"),
        Cell::Int(1000),
    ]
}

/// A table keyed by its identifier column, as the store keeps it.
struct Table {
    rows: HashMap<String, Vec<Cell>>,
}

impl Table {
    fn key(row: &Vec<Cell>) -> String {
        match &row[0] {
            Cell::Text(s) => s.clone(),
            _ => panic!("identifier column is not text"),
        }
    }

    fn update(&mut self, row: &Vec<Cell>) -> ExecResult {
        let k = Table::key(row);
        if self.rows.contains_key(&k) {
            self.rows.insert(k, row.clone());
            ExecResult::Affected(1)
        } else {
            ExecResult::Affected(0)
        }
    }

    fn insert(&mut self, row: &Vec<Cell>) -> ExecResult {
        let k = Table::key(row);
        if self.rows.contains_key(&k) {
            ExecResult::Failed
        } else {
            self.rows.insert(k, row.clone());
            ExecResult::Affected(1)
        }
    }

    fn commit(&mut self, e: &UserAltName) -> bool {
        let row = e.to_row();
        let mut step = commit_start();
        loop {
            step = match step {
                CommitStep::Update => commit_next(step, self.update(&row)),
                CommitStep::Insert => commit_next(step, self.insert(&row)),
                CommitStep::Finished(ok) => return ok,
            };
        }
    }

    fn load(&self, id: u128) -> Option<UserAltName> {
        let k = key_text(id);
        load_from(self.rows.get(&k).cloned())
    }
}

fn same(a: &UserAltName, b: &UserAltName) -> bool {
    a.id() == b.id() && a.user == b.user && a.nickname == b.nickname && a.added == b.added
}

#[test]
fn well_formed_row_decodes_in_column_order() {
    let e = UserAltName::from_row(&good_row()).expect("row decodes");
    assert_eq!(e.id(), A);
    assert_eq!(e.user, U);
    assert_eq!(e.nickname, "alice");
    assert_eq!(e.added, 1000);
}

#[test]
fn malformed_identifier_gives_none() {
    let mut row = good_row();
    row[0] = text("not-a-uuid");
    assert!(UserAltName::from_row(&row).is_none());
}

#[test]
fn malformed_user_identifier_gives_none() {
    let mut row = good_row();
    row[1] = text("550e8400");
    assert!(UserAltName::from_row(&row).is_none());
}

#[test]
fn missing_column_gives_none() {
    let mut row = good_row();
    row.pop();
    assert!(UserAltName::from_row(&row).is_none());
    assert!(UserAltName::from_row(&Vec::new()).is_none());
}

#[test]
fn wrong_column_type_gives_none() {
    let mut row = good_row();
    row[3] = text("1000");
    assert!(UserAltName::from_row(&row).is_none());
    let mut row = good_row();
    row[2] = Cell::Other;
    assert!(UserAltName::from_row(&row).is_none());
}

#[test]
fn to_row_writes_hyphenated_identifiers() {
    let e = UserAltName::new(A, U, "alice".to_string(), 1000);
    let row = e.to_row();
    assert_eq!(row.len(), 4);
    assert!(matches!(&row[0], Cell::Text(s) if s == "a1a2a3a4-b1b2-c1c2-d1d2-d3d4d5d6d7d8"));
    assert!(matches!(&row[1], Cell::Text(s) if s == "550e8400-e29b-41d4-a716-446655440000"));
    assert!(matches!(&row[2], Cell::Text(s) if s == "alice"));
    assert!(matches!(&row[3], Cell::Int(1000)));
}

#[test]
fn row_reads_back_as_the_record() {
    let e = UserAltName::new(u128::MAX, 0, String::new(), i64::MIN);
    let back = UserAltName::from_row(&e.to_row()).expect("row decodes");
    assert!(same(&e, &back));
}

#[test]
fn commit_steps() {
    assert_eq!(commit_start(), CommitStep::Update);
    assert_eq!(commit_next(CommitStep::Update, ExecResult::Affected(1)), CommitStep::Finished(true));
    assert_eq!(commit_next(CommitStep::Update, ExecResult::Affected(0)), CommitStep::Insert);
    assert_eq!(commit_next(CommitStep::Update, ExecResult::Failed), CommitStep::Insert);
    assert_eq!(commit_next(CommitStep::Insert, ExecResult::Affected(1)), CommitStep::Finished(true));
    assert_eq!(commit_next(CommitStep::Insert, ExecResult::Failed), CommitStep::Finished(false));
    assert_eq!(
        commit_next(CommitStep::Finished(false), ExecResult::Affected(1)),
        CommitStep::Finished(false)
    );
}

#[test]
fn commit_then_load_round_trip() {
    let mut t = Table { rows: HashMap::new() };
    let e = UserAltName::new(A, U, "alice".to_string(), 1000);
    assert!(t.commit(&e));
    let back = t.load(A).expect("row is there");
    assert!(same(&e, &back));
}

#[test]
fn commit_twice_keeps_one_row() {
    let mut t = Table { rows: HashMap::new() };
    let first = UserAltName::new(A, U, "alice".to_string(), 1000);
    let second = UserAltName::new(A, U, "bob".to_string(), 2000);
    assert!(t.commit(&first));
    assert!(t.commit(&second));
    assert_eq!(t.rows.len(), 1);
    assert!(same(&t.load(A).unwrap(), &second));
}

#[test]
fn insert_then_rename_alice() {
    let mut t = Table { rows: HashMap::new() };
    let mut e = UserAltName::new(A, U, "alice".to_string(), 1000);
    assert!(t.commit(&e));
    assert_eq!(t.rows.len(), 1);
    let stored = UserAltName::from_row(t.rows.values().next().unwrap()).unwrap();
    assert_eq!(stored.id(), A);
    assert_eq!(stored.user, U);
    assert_eq!(stored.nickname, "alice");
    assert_eq!(stored.added, 1000);
    e.set_nickname("alice2".to_string());
    assert!(t.commit(&e));
    assert_eq!(t.rows.len(), 1);
    assert_eq!(t.load(A).unwrap().nickname, "alice2");
}

#[test]
fn commit_fails_when_update_and_insert_fail() {
    let mut step = commit_start();
    step = commit_next(step, ExecResult::Failed);
    step = commit_next(step, ExecResult::Failed);
    assert_eq!(step, CommitStep::Finished(false));
}

#[test]
fn get_all_skips_rows_that_do_not_decode() {
    let mut bad_id = good_row();
    bad_id[0] = text("zzz");
    let mut other = good_row();
    other[0] = text("00000000-0000-0000-0000-000000000001");
    other[2] = text("bob");
    let rows = vec![good_row(), bad_id, vec![Cell::Other], other];
    let all: Vec<UserAltName> = collect_rows(Some(rows.clone())).expect("query succeeded");
    assert_eq!(all.len(), 2);
    assert_eq!(all[0].nickname, "alice");
    assert_eq!(all[1].nickname, "bob");
    assert_eq!(all[1].id(), 1);
    let direct: Vec<UserAltName> = decode_rows(&rows);
    assert_eq!(direct.len(), 2);
}

#[test]
fn get_all_none_only_when_query_fails() {
    assert!(collect_rows::<UserAltName>(None).is_none());
    let empty: Vec<UserAltName> = collect_rows(Some(Vec::new())).unwrap();
    assert!(empty.is_empty());
    let bad_only: Vec<UserAltName> = collect_rows(Some(vec![vec![Cell::Other]])).unwrap();
    assert!(bad_only.is_empty());
}

#[test]
fn missing_and_malformed_load_alike() {
    let mut t = Table { rows: HashMap::new() };
    assert!(t.load(A).is_none());
    let mut row = good_row();
    row[3] = Cell::Other;
    t.rows.insert("a1a2a3a4-b1b2-c1c2-d1d2-d3d4d5d6d7d8".to_string(), row);
    assert!(t.load(A).is_none());
    assert!(load_from::<UserAltName>(None).is_none());
}

#[test]
fn table_and_statements() {
    assert_eq!(UserAltName::table_name(), "user_alt_name");
    assert_eq!(UserAltName::select_all_statement(), "SELECT * FROM user_alt_name");
    assert_eq!(
        UserAltName::select_one_statement(),
        "SELECT * FROM user_alt_name WHERE id = $1"
    );
    assert_eq!(
        UserAltName::update_statement(),
        "UPDATE user_alt_name SET \"user\" = $2, nickname = $3, added = $4 WHERE id = $1"
    );
    assert_eq!(
        UserAltName::insert_statement(),
        "INSERT INTO user_alt_name (id, \"user\", nickname, added) VALUES ($1, $2, $3, $4)"
    );
}

#[test]
fn key_text_is_hyphenated_lower_hex() {
    assert_eq!(key_text(A), "a1a2a3a4-b1b2-c1c2-d1d2-d3d4d5d6d7d8");
    assert_eq!(key_text(0), "00000000-0000-0000-0000-000000000000");
}

#[test]
fn accessors_and_setters() {
    let mut e = UserAltName::new(A, U, "alice".to_string(), 1000);
    assert_eq!(e.user(), U);
    assert_eq!(e.nickname(), "alice");
    assert_eq!(e.added(), 1000);
    e.set_user(7);
    e.set_nickname("carol".to_string());
    e.set_added(-5);
    assert_eq!(e.id(), A);
    assert_eq!(e.user(), 7);
    assert_eq!(e.nickname(), "carol");
    assert_eq!(e.added(), -5);
}

#[test]
fn environment_overrides_file_settings() {
    let file = Config::new("http://file".to_string(), "postgres://file".to_string());
    let c = file.clone().with_overrides(Some("http://env".to_string()), None);
    assert_eq!(c.base_url(), "http://env");
    assert_eq!(c.database_url(), "postgres://file");
    let c = file.with_overrides(None, Some("postgres://env".to_string()));
    assert_eq!(c.base_url(), "http://file");
    assert_eq!(c.database_url(), "postgres://env");
}

#[test]
fn default_settings_are_empty() {
    let c = Config::default();
    assert_eq!(c.base_url(), "");
    assert_eq!(c.database_url(), "");
}
