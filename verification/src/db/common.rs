//! What an entity asks of the database, and what the answers mean for it.
use vstd::prelude::*;
use crate::ballots::BallotsTable;
use crate::common::{
    Candidate, CastBallots, Criteria, Criterion, EmojiCategories, QueryableExt, VotingTable,
};
use crate::db::sqlx_sqlite::{
    ascending, is_unique_sql, is_unique_statement, list_rows_sql, save_sql, select_sql, select_statement,
    update_sql, update_statement, Pair,
};
use crate::error::{VoteErrorKind, VoteErrorView};
use crate::text::replaced;

verus! {

/// How an update is carried out.
#[derive(Debug)]
pub enum UpdatePlan {
    /// No column was named: the entity is inserted as a new row.
    Insert,
    /// The named columns are set by this statement.
    Update(String),
}

/// An entity that is kept in the database.
pub trait Query: QueryableExt {
    fn get_dir() -> (r: String)
        ensures
            r@ == "dummy"@,
    {
        "dummy".to_owned()
    }

    /// The statement that asks whether `id` is taken.
    fn is_unique_sql(&self, id: &str) -> (r: String)
        ensures
            r@ == is_unique_statement(Self::table_text(false), Self::id_expression_text(), id@),
    {
        let table = Self::get_table(false);
        let expression = Self::get_id_expression();
        is_unique_sql(table.as_str(), expression.as_str(), id)
    }

    /// The id that is taken, where the database found `rows` rows of it and
    /// there is one; `NotFound` where it found none, and the failure where
    /// it did not answer (`None`).
    fn is_unique<'r>(&self, id: &str, rows: Option<usize>) -> (r: Result<String, VoteErrorKind<'r>>)
        ensures
            (match rows {
                Some(n) => if n > 0 {
                    r is Ok && r->Ok_0@ == id@
                } else {
                    r is Err && r->Err_0@ == VoteErrorView::NotFound("Not found"@)
                },
                None => r is Err && r->Err_0@ == VoteErrorView::DB(
                    "The database did not answer."@,
                ),
            }),
    {
        match rows {
            Some(n) => {
                if n > 0 {
                    Ok(id.to_owned())
                } else {
                    Err(VoteErrorKind::NotFound("Not found".to_owned()))
                }
            },
            None => Err(VoteErrorKind::DB("The database did not answer.".to_owned())),
        }
    }

    /// The statement that reads all rows of the kind.
    fn list_rows_sql(&self) -> (r: String)
        ensures
            r@ == "SELECT "@ + Self::columns_text() + " FROM "@ + Self::table_text(false) + " "@,
    {
        let table = Self::get_table(false);
        let columns = Self::get_db_columns();
        list_rows_sql(table.as_str(), columns.as_str())
    }

    /// The listing of the rows that were read, or "No entries" where the
    /// database failed.
    fn list_rows(&self, rows: Option<Vec<String>>) -> (r: Result<Vec<String>, String>)
        ensures
            (match rows {
                Some(k) => r == Ok::<Vec<String>, String>(k),
                None => r is Err && r->Err_0@ == "No entries"@,
            }),
    {
        match rows {
            Some(k) => Ok(k),
            None => Err("No entries".to_owned()),
        }
    }

    /// The statement that reads the row of this entity: the row that has
    /// its id.
    fn select_sql(&self) -> (r: String)
        ensures
            r@ == select_statement(
                Self::table_text(false),
                Self::columns_text(),
                Self::id_expression_text(),
                self.id_text(),
            ),
    {
        let table = Self::get_table(false);
        let columns = Self::get_db_columns();
        let expression = Self::get_id_expression();
        let id = self.get_id();
        select_sql(table.as_str(), columns.as_str(), expression.as_str(), id.as_str())
    }

    /// The statement that stores this entity, where no row of its id was
    /// `found`; a conflict where one was.
    fn save<'r>(&self, found: &Vec<String>) -> (r: Result<String, VoteErrorKind<'r>>)
        ensures
            found@.len() == 0 ==> r is Ok && r->Ok_0@ == "INSERT into "@ + Self::table_text(true)
                + " VALUES ("@ + replaced(self.row_text(), crate::common::DELIMITER@, ","@) + ")"@,
            found@.len() > 0 ==> r is Err && r->Err_0@ == VoteErrorView::Conflict(
                "Already exist."@,
            ),
    {
        if found.len() == 0 {
            let table = Self::get_table(true);
            let row = self.to_db_row();
            Ok(save_sql(table.as_str(), row.as_str()))
        } else {
            Err(VoteErrorKind::Conflict("Already exist.".to_owned()))
        }
    }

    /// What storing or changing this entity ends with: its id, or the
    /// failure of the database.
    fn saved<'r>(&self, failure: Option<VoteErrorKind<'r>>) -> (r: Result<
        String,
        VoteErrorKind<'r>,
    >)
        ensures
            (match failure {
                None => r is Ok && r->Ok_0@ == self.id_text(),
                Some(e) => r == Err::<String, VoteErrorKind<'r>>(e),
            }),
    {
        match failure {
            None => Ok(self.get_id()),
            Some(er) => Err(er),
        }
    }

    /// How the named columns of this entity are changed: by an update of
    /// its row, or, where no column is named, by inserting it anew. The
    /// columns come in ascending order and none occurs twice.
    fn update(&self, new_pairs: &Vec<Pair>) -> (r: UpdatePlan)
        requires
            ascending(new_pairs.deep_view()),
        ensures
            (match r {
                UpdatePlan::Insert => new_pairs@.len() == 0,
                UpdatePlan::Update(sql) => new_pairs@.len() > 0 && sql@ == update_statement(
                    Self::table_text(false),
                    new_pairs.deep_view(),
                    Self::id_expression_text(),
                    self.id_text(),
                ),
            }),
    {
        let table = Self::get_table(false);
        let expression = Self::get_id_expression();
        let id = self.get_id();
        match update_sql(table.as_str(), new_pairs, expression.as_str(), id.as_str()) {
            Some(sql) => UpdatePlan::Update(sql),
            None => UpdatePlan::Insert,
        }
    }
}

impl Query for CastBallots {

}

impl Query for Candidate {

}

impl Query for Criteria {

}

impl Query for Criterion {

}

impl Query for EmojiCategories {

}

impl Query for BallotsTable {

}

impl Query for VotingTable {

}

} // verus!
