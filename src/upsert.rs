//! Commit as update-then-insert, and loading by identifier.
//!
//! The store's work stays with the caller: each function here takes what a
//! statement returned and decides what comes next. A model of a table keyed
//! by the identifier column states what a commit and a load do to it.
use vstd::prelude::*;

use crate::entity::{decode_alt_name, encode_alt_name, AltNameView, DatabaseObject};
use crate::ident::text_of_uuid;
use crate::row::{row_view, Cell, CellView};

verus! {

/// What executing one data-modifying statement returned.
#[derive(Clone, Copy, Debug, PartialEq, Eq, Structural)]
pub enum ExecResult {
    /// The statement ran and changed this many rows.
    Affected(u64),
    /// The store reported an error.
    Failed,
}

/// Where a commit stands: the statement to run next, or its outcome.
#[derive(Clone, Copy, Debug, PartialEq, Eq, Structural)]
pub enum CommitStep {
    Update,
    Insert,
    Finished(bool),
}

/// The next step of a commit, given the result of the statement just run.
///
/// An update that changed a row ends the commit with success. An update that
/// changed none, or that failed, falls back to an insert; the fallback on a
/// failure does not tell a missing row from another error, so the insert may
/// then fail on the existing key. The insert decides the outcome.
pub open spec fn next_step(step: CommitStep, result: ExecResult) -> CommitStep {
    match step {
        CommitStep::Update => match result {
            ExecResult::Affected(n) => if n > 0 {
                CommitStep::Finished(true)
            } else {
                CommitStep::Insert
            },
            ExecResult::Failed => CommitStep::Insert,
        },
        CommitStep::Insert => match result {
            ExecResult::Affected(_) => CommitStep::Finished(true),
            ExecResult::Failed => CommitStep::Finished(false),
        },
        CommitStep::Finished(ok) => CommitStep::Finished(ok),
    }
}

/// The step a commit starts with: the update.
pub fn commit_start() -> (r: CommitStep)
    ensures
        r == CommitStep::Update,
{
    CommitStep::Update
}

/// Advances a commit by the result of the statement that `step` names.
pub fn commit_next(step: CommitStep, result: ExecResult) -> (r: CommitStep)
    ensures
        r == next_step(step, result),
{
    match step {
        CommitStep::Update => match result {
            ExecResult::Affected(n) => if n > 0 {
                CommitStep::Finished(true)
            } else {
                CommitStep::Insert
            },
            ExecResult::Failed => CommitStep::Insert,
        },
        CommitStep::Insert => match result {
            ExecResult::Affected(_) => CommitStep::Finished(true),
            ExecResult::Failed => CommitStep::Finished(false),
        },
        CommitStep::Finished(ok) => CommitStep::Finished(ok),
    }
}

/// The record that a single-row lookup gives: `None` when the lookup found
/// no single row, and when the row does not decode. The two are one answer.
pub fn load_from<T: DatabaseObject>(found: Option<Vec<Cell>>) -> (r: Option<T>)
    ensures
        match found {
            Some(row) => match r {
                Some(e) => T::decode(row_view(row@)) == Some(e@),
                None => T::decode(row_view(row@)) is None,
            },
            None => r is None,
        },
{
    match found {
        Some(row) => T::from_row(&row),
        None => None,
    }
}

/// A table as rows keyed by the text of their identifier column.
pub type TableModel = Map<Seq<char>, Seq<CellView>>;

/// `UPDATE ... WHERE id = key`: replaces the row with that key, if any.
pub open spec fn table_update(t: TableModel, key: Seq<char>, row: Seq<CellView>) -> (
    TableModel,
    ExecResult,
) {
    if t.contains_key(key) {
        (t.insert(key, row), ExecResult::Affected(1))
    } else {
        (t, ExecResult::Affected(0))
    }
}

/// `INSERT`: adds the row, and fails where its key is taken.
pub open spec fn table_insert(t: TableModel, key: Seq<char>, row: Seq<CellView>) -> (
    TableModel,
    ExecResult,
) {
    if t.contains_key(key) {
        (t, ExecResult::Failed)
    } else {
        (t.insert(key, row), ExecResult::Affected(1))
    }
}

/// A commit run against the table: the table after it, and its outcome.
pub open spec fn table_commit(t: TableModel, key: Seq<char>, row: Seq<CellView>) -> (
    TableModel,
    bool,
) {
    let (t1, r1) = table_update(t, key, row);
    match next_step(CommitStep::Update, r1) {
        CommitStep::Finished(ok) => (t1, ok),
        _ => {
            let (t2, r2) = table_insert(t1, key, row);
            match next_step(CommitStep::Insert, r2) {
                CommitStep::Finished(ok) => (t2, ok),
                _ => (t2, false),
            }
        },
    }
}

/// Committing an alternate name: its row, under the text of its identifier.
pub open spec fn commit_alt_name(t: TableModel, v: AltNameView) -> (TableModel, bool) {
    table_commit(t, text_of_uuid(v.id), encode_alt_name(v))
}

/// Loading an alternate name by identifier: the decoded row, if one is there.
pub open spec fn load_alt_name(t: TableModel, id: u128) -> Option<AltNameView> {
    if t.contains_key(text_of_uuid(id)) {
        decode_alt_name(t[text_of_uuid(id)])
    } else {
        None
    }
}

/// A committed record loads back equal in every field. The requirement is
/// that its row reads back as the record, which `to_row` ensures of every
/// record it encodes.
pub proof fn lemma_commit_then_load(t: TableModel, v: AltNameView)
    requires
        decode_alt_name(encode_alt_name(v)) == Some(v),
    ensures
        commit_alt_name(t, v).1,
        load_alt_name(commit_alt_name(t, v).0, v.id) == Some(v),
{
}

/// Two commits of records with one identifier, one after the other, leave
/// a single row under that identifier, holding the second record; both
/// succeed, and no other row changes.
pub proof fn lemma_commit_twice(t: TableModel, first: AltNameView, second: AltNameView)
    requires
        first.id == second.id,
    ensures
        commit_alt_name(t, first).1,
        commit_alt_name(commit_alt_name(t, first).0, second).1,
        commit_alt_name(commit_alt_name(t, first).0, second).0 == t.insert(
            text_of_uuid(second.id),
            encode_alt_name(second),
        ),
{
    let k = text_of_uuid(first.id);
    let t1 = commit_alt_name(t, first).0;
    assert(t1 == t.insert(k, encode_alt_name(first)));
    assert(t1.insert(k, encode_alt_name(second)) =~= t.insert(k, encode_alt_name(second)));
}

/// Loading an identifier that has no row and loading one whose row does
/// not decode give the same answer, `None`: a caller cannot tell them apart.
pub proof fn lemma_missing_and_malformed_alike(absent: TableModel, malformed: TableModel, id: u128)
    requires
        !absent.contains_key(text_of_uuid(id)),
        malformed.contains_key(text_of_uuid(id)),
        decode_alt_name(malformed[text_of_uuid(id)]) is None,
    ensures
        load_alt_name(absent, id) is None,
        load_alt_name(malformed, id) == load_alt_name(absent, id),
{
}

} // verus!
