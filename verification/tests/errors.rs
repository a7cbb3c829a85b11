use finance_store::error::{
    classify, constraint_in, written, Constraint, Corruption, Failure, StoreError,
};
use finance_store::repositories::category_repository;
use finance_store::repositories::category_repository::{CategoryRow, InvalidCategoryTypeError};
use finance_store::repositories::expense_repository;
use finance_store::repositories::expense_repository::ExpenseRow;
use finance_store::repositories::income_repository;
use finance_store::repositories::income_repository::IncomeRow;
use finance_store::amount::Amount;
use finance_store::models::category::{Category, CategoryType};
use finance_store::timestamp::{ParseError, Timestamp};

fn engine(code: i32) -> Failure {
    Failure::Engine { code, message: format!("code {}", code) }
}

#[test]
fn constraint_codes_are_told_apart() {
    assert_eq!(constraint_in(19), Some(Constraint::Other));
    assert_eq!(constraint_in(275), Some(Constraint::Check));
    assert_eq!(constraint_in(531), Some(Constraint::Other));
    assert_eq!(constraint_in(787), Some(Constraint::ForeignKey));
    assert_eq!(constraint_in(1043), Some(Constraint::Other));
    assert_eq!(constraint_in(1299), Some(Constraint::NotNull));
    assert_eq!(constraint_in(1555), Some(Constraint::PrimaryKey));
    assert_eq!(constraint_in(1811), Some(Constraint::Other));
    assert_eq!(constraint_in(2067), Some(Constraint::Unique));
    assert_eq!(constraint_in(2579), Some(Constraint::Other));
}

#[test]
fn other_codes_name_no_constraint() {
    for code in [0, 1, 5, 8, 14, 18, 20, 26, 256, 266, 522, 1034, 4874, -1, -19, i32::MIN, i32::MAX]
    {
        assert_eq!(constraint_in(code), None, "{}", code);
    }
}

#[test]
fn codes_match_the_engine() {
    assert_eq!(rusqlite::ffi::SQLITE_CONSTRAINT, 19);
    assert_eq!(
        constraint_in(rusqlite::ffi::SQLITE_CONSTRAINT_CHECK),
        Some(Constraint::Check)
    );
    assert_eq!(
        constraint_in(rusqlite::ffi::SQLITE_CONSTRAINT_FOREIGNKEY),
        Some(Constraint::ForeignKey)
    );
    assert_eq!(
        constraint_in(rusqlite::ffi::SQLITE_CONSTRAINT_NOTNULL),
        Some(Constraint::NotNull)
    );
    assert_eq!(
        constraint_in(rusqlite::ffi::SQLITE_CONSTRAINT_PRIMARYKEY),
        Some(Constraint::PrimaryKey)
    );
    assert_eq!(
        constraint_in(rusqlite::ffi::SQLITE_CONSTRAINT_UNIQUE),
        Some(Constraint::Unique)
    );
    assert_eq!(constraint_in(rusqlite::ffi::SQLITE_BUSY), None);
    assert_eq!(constraint_in(rusqlite::ffi::SQLITE_CANTOPEN), None);
}

#[test]
fn classify_sorts_each_failure() {
    assert_eq!(classify(Failure::NoRows), StoreError::NotFound);
    assert_eq!(
        classify(engine(787)),
        StoreError::Conflict { constraint: Constraint::ForeignKey, message: "code 787".to_string() }
    );
    assert_eq!(classify(engine(14)), StoreError::Unavailable { message: "code 14".to_string() });
    assert_eq!(
        classify(Failure::Column { index: 2, message: "not an integer".to_string() }),
        StoreError::Corrupt(Corruption::Column { index: 2, message: "not an integer".to_string() })
    );
    assert_eq!(
        classify(Failure::Other { message: "closed".to_string() }),
        StoreError::Unavailable { message: "closed".to_string() }
    );
}

#[test]
fn written_succeeds_whatever_the_number_of_rows() {
    assert_eq!(written(Ok(0)), Ok(()));
    assert_eq!(written(Ok(1)), Ok(()));
    assert_eq!(written(Ok(usize::MAX)), Ok(()));
    assert_eq!(written(Err(Failure::NoRows)), Err(StoreError::NotFound));
    assert_eq!(
        written(Err(engine(1299))),
        Err(StoreError::Conflict { constraint: Constraint::NotNull, message: "code 1299".to_string() })
    );
}

#[test]
fn store_error_messages() {
    assert_eq!(StoreError::NotFound.message(), "Query returned no rows");
    assert_eq!(
        StoreError::Conflict { constraint: Constraint::Check, message: "CHECK failed".to_string() }
            .message(),
        "CHECK failed"
    );
    assert_eq!(
        StoreError::Unavailable { message: "unable to open database file".to_string() }.message(),
        "unable to open database file"
    );
    assert_eq!(
        StoreError::Corrupt(Corruption::CategoryType(InvalidCategoryTypeError(9))).message(),
        "Nilai tidak valid untuk CategoryType: 9"
    );
    assert_eq!(
        StoreError::Corrupt(Corruption::Date {
            text: "yesterday".to_string(),
            error: ParseError::Malformed
        })
        .message(),
        "Tanggal tidak valid: the text does not read YYYY-MM-DD HH:MM:SS"
    );
    assert_eq!(
        StoreError::Corrupt(Corruption::Date {
            text: "2024-13-01 00:00:00".to_string(),
            error: ParseError::OutOfRange
        })
        .message(),
        "Tanggal tidak valid: the text names no day or no time of day"
    );
    assert_eq!(
        StoreError::Corrupt(Corruption::Column { index: 1, message: "wrong type".to_string() })
            .message(),
        "wrong type"
    );
}

fn category_row(id: i64, name: &str, category_type: i16) -> CategoryRow {
    CategoryRow { id, name: name.to_string(), category_type }
}

fn income_row(id: i64, date: &str) -> IncomeRow {
    IncomeRow {
        id,
        description: format!("entry {}", id),
        amount: Amount::from_bits((id as f64).to_bits()),
        date: date.to_string(),
        category_id: 1,
    }
}

fn expense_row(id: i64, date: &str) -> ExpenseRow {
    ExpenseRow {
        id,
        description: format!("entry {}", id),
        amount: Amount::from_bits((id as f64).to_bits()),
        date: date.to_string(),
        category_id: 2,
    }
}

#[test]
fn category_rows_are_read_in_order() {
    let rows = vec![category_row(1, "Salary", 1), category_row(2, "Food", 2)];
    assert_eq!(
        category_repository::from_rows(rows),
        Ok(vec![
            Category { id: 1, name: "Salary".to_string(), category_type: CategoryType::Income },
            Category { id: 2, name: "Food".to_string(), category_type: CategoryType::Expense },
        ])
    );
    assert_eq!(category_repository::from_rows(vec![]), Ok(vec![]));
    assert_eq!(category_repository::find_all(Ok(vec![])), Ok(vec![]));
}

#[test]
fn category_rows_fail_with_the_first_unreadable_row() {
    let rows = vec![
        category_row(1, "Salary", 1),
        category_row(2, "Odd", 0),
        category_row(3, "Odder", 3),
        category_row(4, "Food", 2),
    ];
    assert_eq!(
        category_repository::find_all(Ok(rows)),
        Err(StoreError::Corrupt(Corruption::CategoryType(InvalidCategoryTypeError(0))))
    );
    assert_eq!(
        category_repository::from_row(&category_row(3, "Odder", 3)),
        Err(StoreError::Corrupt(Corruption::CategoryType(InvalidCategoryTypeError(3))))
    );
}

#[test]
fn category_failures_are_sorted() {
    assert_eq!(category_repository::find_all(Err(Failure::NoRows)), Err(StoreError::NotFound));
    assert_eq!(category_repository::find_by_id(Err(Failure::NoRows)), Err(StoreError::NotFound));
    assert_eq!(
        category_repository::find_by_id(Err(engine(14))),
        Err(StoreError::Unavailable { message: "code 14".to_string() })
    );
    assert_eq!(
        category_repository::find_by_id(Ok(category_row(5, "Food", 2))),
        Ok(Category { id: 5, name: "Food".to_string(), category_type: CategoryType::Expense })
    );
}

#[test]
fn income_rows_are_read_in_order() {
    let rows = vec![income_row(1, "2024-03-01 09:00:00"), income_row(2, "2024-03-02 10:30:15")];
    let incomes = income_repository::find_all(Ok(rows)).unwrap();
    assert_eq!(incomes.len(), 2);
    assert_eq!(incomes[0].id, 1);
    assert_eq!(incomes[0].description, "entry 1");
    assert_eq!(incomes[0].amount, Amount::from_bits(1.0f64.to_bits()));
    assert_eq!(incomes[0].date, Timestamp::new(2024, 3, 1, 9, 0, 0, 0).unwrap());
    assert_eq!(incomes[0].category_id, 1);
    assert_eq!(incomes[1].id, 2);
    assert_eq!(incomes[1].date, Timestamp::new(2024, 3, 2, 10, 30, 15, 0).unwrap());
}

#[test]
fn income_rows_fail_with_the_first_unreadable_row() {
    let rows = vec![
        income_row(1, "2024-03-01 09:00:00"),
        income_row(2, "2024-02-30 09:00:00"),
        income_row(3, "soon"),
    ];
    assert_eq!(
        income_repository::from_rows(rows),
        Err(StoreError::Corrupt(Corruption::Date {
            text: "2024-02-30 09:00:00".to_string(),
            error: ParseError::OutOfRange,
        }))
    );
    assert_eq!(
        income_repository::from_row(&income_row(3, "soon")),
        Err(StoreError::Corrupt(Corruption::Date {
            text: "soon".to_string(),
            error: ParseError::Malformed,
        }))
    );
    assert_eq!(income_repository::find_by_id(Err(Failure::NoRows)), Err(StoreError::NotFound));
    assert_eq!(
        income_repository::find_all(Err(engine(5))),
        Err(StoreError::Unavailable { message: "code 5".to_string() })
    );
}

#[test]
fn expense_rows_are_read_like_income_rows() {
    let rows = vec![expense_row(1, "2024-03-01 09:00:00"), expense_row(2, "2024-12-31 23:59:59")];
    let expenses = expense_repository::find_all(Ok(rows)).unwrap();
    assert_eq!(expenses.len(), 2);
    assert_eq!(expenses[1].id, 2);
    assert_eq!(expenses[1].description, "entry 2");
    assert_eq!(expenses[1].amount, Amount::from_bits(2.0f64.to_bits()));
    assert_eq!(expenses[1].date, Timestamp::new(2024, 12, 31, 23, 59, 59, 0).unwrap());
    assert_eq!(expenses[1].category_id, 2);

    let rows = vec![expense_row(1, "2024-03-01 09:00:00"), expense_row(2, "2024-3-1 9:00:00")];
    assert_eq!(
        expense_repository::from_rows(rows),
        Err(StoreError::Corrupt(Corruption::Date {
            text: "2024-3-1 9:00:00".to_string(),
            error: ParseError::Malformed,
        }))
    );
    assert_eq!(expense_repository::find_by_id(Err(Failure::NoRows)), Err(StoreError::NotFound));
    assert!(expense_repository::find_by_id(Ok(expense_row(9, "2024-03-01 09:00:00"))).is_ok());
    assert!(expense_repository::from_row(&expense_row(9, "2024-03-01 09:00:60")).is_ok());
}
