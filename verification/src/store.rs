//! What the service says to its database and what it reads back, as plain data.
//!
//! A statement is a SQL text with positional parameters. A row is the list of
//! its column values, in the order of the table's columns: the id first, the
//! name second.

use crate::model::{names_of, User};
use vstd::prelude::*;
use vstd::string::StringExecFns;

verus! {

/// A value bound to a placeholder of a statement.
#[derive(Debug, Clone, PartialEq, Eq)]
pub enum Param {
    Text(String),
    Integer(i64),
}

/// A parameter as the contracts see it.
pub enum ParamView {
    Text(Seq<char>),
    Integer(int),
}

impl View for Param {
    type V = ParamView;

    open spec fn view(&self) -> ParamView {
        match self {
            Param::Text(text) => ParamView::Text(text@),
            Param::Integer(number) => ParamView::Integer(*number as int),
        }
    }
}

/// The connection that runs a statement.
#[derive(Debug, Clone, Copy, PartialEq, Eq, Structural)]
pub enum Link {
    /// The connection opened at startup, which the handlers share.
    Shared,
    /// A connection opened for this one request.
    Fresh,
}

/// A SQL statement with the values of its placeholders, in their order, and the
/// connection that is to run it.
#[derive(Debug, Clone, PartialEq, Eq)]
pub struct Statement {
    pub sql: String,
    pub params: Vec<Param>,
    pub link: Link,
}

/// A statement as the contracts see it.
pub struct StatementView {
    pub sql: Seq<char>,
    pub params: Seq<ParamView>,
    pub link: Link,
}

impl View for Statement {
    type V = StatementView;

    open spec fn view(&self) -> StatementView {
        StatementView {
            sql: self.sql@,
            params: Seq::new(self.params@.len(), |i: int| self.params@[i]@),
            link: self.link,
        }
    }
}

/// The value of one column of a row.
#[derive(Debug, Clone, PartialEq, Eq)]
pub enum Column {
    Null,
    Integer(i64),
    /// A floating-point value, held by its bits.
    Real(u64),
    Text(String),
    Blob(Vec<u8>),
}

/// A column value as the contracts see it.
pub enum ColumnView {
    Null,
    Integer(int),
    Real(u64),
    Text(Seq<char>),
    Blob(Seq<u8>),
}

impl View for Column {
    type V = ColumnView;

    open spec fn view(&self) -> ColumnView {
        match self {
            Column::Null => ColumnView::Null,
            Column::Integer(number) => ColumnView::Integer(*number as int),
            Column::Real(bits) => ColumnView::Real(*bits),
            Column::Text(text) => ColumnView::Text(text@),
            Column::Blob(bytes) => ColumnView::Blob(bytes@),
        }
    }
}

/// One row of a result set.
#[derive(Debug, Clone, PartialEq, Eq)]
pub struct Row {
    pub columns: Vec<Column>,
}

impl View for Row {
    type V = Seq<ColumnView>;

    open spec fn view(&self) -> Seq<ColumnView> {
        Seq::new(self.columns@.len(), |i: int| self.columns@[i]@)
    }
}

/// The rows of a result set as the contracts see them.
pub open spec fn rows_view(rows: Seq<Row>) -> Seq<Seq<ColumnView>> {
    Seq::new(rows.len(), |i: int| rows[i]@)
}

/// A statement that did not run, or a result that could not be read: the error
/// in the words meant for the client, and in the form meant for the log.
#[derive(Debug, Clone, PartialEq, Eq)]
pub struct Failure {
    pub message: String,
    pub debug: String,
}

/// A failure as the contracts see it.
pub struct FailureView {
    pub message: Seq<char>,
    pub debug: Seq<char>,
}

impl View for Failure {
    type V = FailureView;

    open spec fn view(&self) -> FailureView {
        FailureView { message: self.message@, debug: self.debug@ }
    }
}

/// Why a row is no user.
#[derive(Debug, Clone, Copy, PartialEq, Eq, Structural)]
pub enum DecodeError {
    /// The row has no column at the position of the name.
    NoSuchColumn,
    /// The column at the position of the name holds no text.
    NotText,
}

impl DecodeError {
    /// The error in words.
    pub open spec fn text(self) -> Seq<char> {
        match self {
            DecodeError::NoSuchColumn => "invalid column index"@,
            DecodeError::NotText => "invalid column type"@,
        }
    }

    /// The error's name in the log.
    pub open spec fn label(self) -> Seq<char> {
        match self {
            DecodeError::NoSuchColumn => "InvalidColumnIndex"@,
            DecodeError::NotText => "InvalidColumnType"@,
        }
    }

    /// The error as a failure of the read.
    pub open spec fn as_failure(self) -> FailureView {
        FailureView { message: self.text(), debug: self.label() }
    }

    /// The error in words, as the client reads it.
    pub fn message(&self) -> (words: &'static str)
        ensures
            words@ == self.text(),
    {
        match self {
            DecodeError::NoSuchColumn => "invalid column index",
            DecodeError::NotText => "invalid column type",
        }
    }

    /// The error's name, as the log shows it.
    pub fn name(&self) -> (name: &'static str)
        ensures
            name@ == self.label(),
    {
        match self {
            DecodeError::NoSuchColumn => "InvalidColumnIndex",
            DecodeError::NotText => "InvalidColumnType",
        }
    }

    /// The error as a failure, with both of its renderings.
    pub fn failure(&self) -> (failure: Failure)
        ensures
            failure@ == self.as_failure(),
    {
        Failure { message: String::from_str(self.message()), debug: String::from_str(self.name()) }
    }
}

/// The position of the name among the columns of a row.
pub const NAME_COLUMN: usize = 1;

/// The name that a row stores, or why it stores none.
pub open spec fn stored_name(row: Seq<ColumnView>) -> Result<Seq<char>, DecodeError> {
    if row.len() <= NAME_COLUMN {
        Err(DecodeError::NoSuchColumn)
    } else {
        match row[NAME_COLUMN as int] {
            ColumnView::Text(name) => Ok(name),
            _ => Err(DecodeError::NotText),
        }
    }
}

/// The names that a result set stores, in its order, or why its first row
/// without a name has none.
pub open spec fn stored_names(rows: Seq<Seq<ColumnView>>) -> Result<Seq<Seq<char>>, DecodeError>
    decreases rows.len(),
{
    if rows.len() == 0 {
        Ok(Seq::empty())
    } else {
        match stored_names(rows.drop_last()) {
            Err(error) => Err(error),
            Ok(names) => match stored_name(rows.last()) {
                Err(error) => Err(error),
                Ok(name) => Ok(names.push(name)),
            },
        }
    }
}

/// Reads a row as a user: the text in the second column is the name, and the
/// other columns are ignored.
pub fn user_from_row(row: &Row) -> (decoded: Result<User, DecodeError>)
    ensures
        match stored_name(row@) {
            Ok(name) => decoded is Ok && decoded->Ok_0@ == name,
            Err(error) => decoded == Err::<User, DecodeError>(error),
        },
{
    if row.columns.len() <= NAME_COLUMN {
        return Err(DecodeError::NoSuchColumn);
    }
    assert(row@[NAME_COLUMN as int] == row.columns@[NAME_COLUMN as int]@);
    match &row.columns[NAME_COLUMN] {
        Column::Text(name) => Ok(User { name: name.clone() }),
        _ => Err(DecodeError::NotText),
    }
}

/// Reads every row of a result set as a user, in the set's order. One row that
/// is no user fails the whole set, with the error of the first such row.
pub fn users_from_rows(rows: &Vec<Row>) -> (decoded: Result<Vec<User>, DecodeError>)
    ensures
        match stored_names(rows_view(rows@)) {
            Ok(names) => decoded is Ok && names_of(decoded->Ok_0@) == names,
            Err(error) => decoded == Err::<Vec<User>, DecodeError>(error),
        },
{
    let mut users: Vec<User> = Vec::new();
    let mut i: usize = 0;
    assert(names_of(users@) == Seq::<Seq<char>>::empty());
    while i < rows.len()
        invariant
            i <= rows.len(),
            stored_names(rows_view(rows@).take(i as int)) == Ok::<Seq<Seq<char>>, DecodeError>(
                names_of(users@),
            ),
        decreases rows.len() - i,
    {
        let ghost seen = rows_view(rows@).take(i as int);
        let ghost next = rows_view(rows@).take(i + 1);
        assert(next.drop_last() == seen);
        assert(next.last() == rows@[i as int]@);
        match user_from_row(&rows[i]) {
            Ok(user) => {
                let ghost names = names_of(users@);
                users.push(user);
                assert(names_of(users@) == names.push(user@));
            },
            Err(error) => {
                proof {
                    lemma_failure_stays(rows_view(rows@), i + 1);
                }
                return Err(error);
            },
        }
        i += 1;
    }
    assert(rows_view(rows@).take(i as int) == rows_view(rows@));
    Ok(users)
}

/// A result set stores names exactly when each of its rows stores one, and
/// then the names are those of the rows, one for one and in order.
pub proof fn lemma_names_row_by_row(rows: Seq<Seq<ColumnView>>)
    ensures
        stored_names(rows) is Ok <==> forall|i: int|
            0 <= i < rows.len() ==> (#[trigger] stored_name(rows[i])) is Ok,
        stored_names(rows) matches Ok(names) ==> names.len() == rows.len() && forall|i: int|
            0 <= i < rows.len() ==> #[trigger] stored_name(rows[i]) == Ok::<Seq<char>, DecodeError>(
                names[i],
            ),
    decreases rows.len(),
{
    if rows.len() > 0 {
        let front = rows.drop_last();
        lemma_names_row_by_row(front);
        assert(forall|i: int| 0 <= i < front.len() ==> front[i] == rows[i]);
        if stored_names(front) is Ok && stored_name(rows.last()) is Ok {
            assert forall|i: int| 0 <= i < rows.len() implies (#[trigger] stored_name(
                rows[i],
            )) is Ok by {
                if i < front.len() {
                    assert(stored_name(front[i]) is Ok);
                }
            }
        } else if stored_names(front) is Err {
            let i: int = choose|i: int| 0 <= i < front.len() && !(stored_name(front[i]) is Ok);
            assert(!(stored_name(rows[i]) is Ok));
        } else {
            assert(!(stored_name(rows[rows.len() - 1]) is Ok));
        }
    }
}

/// A result set that stores no names fails with the error of its first row
/// that stores none.
pub proof fn lemma_first_failure(rows: Seq<Seq<ColumnView>>) -> (at: int)
    requires
        stored_names(rows) is Err,
    ensures
        0 <= at < rows.len(),
        stored_name(rows[at]) == Err::<Seq<char>, DecodeError>(stored_names(rows)->Err_0),
        forall|i: int| 0 <= i < at ==> (#[trigger] stored_name(rows[i])) is Ok,
    decreases rows.len(),
{
    let front = rows.drop_last();
    assert(forall|i: int| 0 <= i < front.len() ==> front[i] == rows[i]);
    if stored_names(front) is Err {
        lemma_first_failure(front)
    } else {
        lemma_names_row_by_row(front);
        rows.len() - 1
    }
}

/// Once the first `n` rows of a result set fail to decode, so does the whole
/// set, with the same error.
pub proof fn lemma_failure_stays(rows: Seq<Seq<ColumnView>>, n: int)
    requires
        0 <= n <= rows.len(),
        stored_names(rows.take(n)) is Err,
    ensures
        stored_names(rows) == stored_names(rows.take(n)),
    decreases rows.len() - n,
{
    if n < rows.len() {
        assert(rows.take(n + 1).drop_last() == rows.take(n));
        lemma_failure_stays(rows, n + 1);
    } else {
        assert(rows.take(n) == rows);
    }
}

} // verus!
