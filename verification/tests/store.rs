use finance_store::amount::Amount;
use finance_store::db;
use finance_store::error::{written, Constraint, Corruption, Failure, StoreError};
use finance_store::models::category::{Category, CategoryType};
use finance_store::models::income::Income;
use finance_store::repositories::category_repository::{CategoryRow, InvalidCategoryTypeError};
use finance_store::repositories::expense_repository::ExpenseRow;
use finance_store::repositories::income_repository::IncomeRow;
use finance_store::repositories::{category_repository, expense_repository, income_repository};
use finance_store::statement::{SqlValue, Statement};
use finance_store::timestamp::{ParseError, Timestamp};
use rusqlite::types::Value;
use rusqlite::{params_from_iter, Connection, Row};

fn amount(value: f64) -> Amount {
    Amount::from_bits(value.to_bits())
}

fn bound(statement: &Statement) -> Vec<Value> {
    let mut values = Vec::new();
    for param in &statement.params {
        values.push(match param {
            SqlValue::Null => Value::Null,
            SqlValue::Integer(i) => Value::Integer(*i),
            SqlValue::Real(a) => Value::Real(f64::from_bits(a.to_bits())),
            SqlValue::Text(t) => Value::Text(t.clone()),
        });
    }
    values
}

fn failure(error: rusqlite::Error) -> Failure {
    match error {
        rusqlite::Error::QueryReturnedNoRows => Failure::NoRows,
        rusqlite::Error::SqliteFailure(cause, message) => Failure::Engine {
            code: cause.extended_code,
            message: message.unwrap_or_else(|| cause.to_string()),
        },
        rusqlite::Error::InvalidColumnType(index, name, kind) => Failure::Column {
            index,
            message: format!("Invalid column type {} at index: {}, name: {}", kind, index, name),
        },
        other => Failure::Other { message: other.to_string() },
    }
}

fn execute(conn: &Connection, statement: &Statement) -> Result<usize, Failure> {
    conn.execute(statement.sql, params_from_iter(bound(statement))).map_err(failure)
}

fn category_row(row: &Row<'_>) -> rusqlite::Result<CategoryRow> {
    Ok(CategoryRow { id: row.get(0)?, name: row.get(1)?, category_type: row.get(2)? })
}

fn income_row(row: &Row<'_>) -> rusqlite::Result<IncomeRow> {
    let value: f64 = row.get(2)?;
    Ok(IncomeRow {
        id: row.get(0)?,
        description: row.get(1)?,
        amount: amount(value),
        date: row.get(3)?,
        category_id: row.get(4)?,
    })
}

fn expense_row(row: &Row<'_>) -> rusqlite::Result<ExpenseRow> {
    let value: f64 = row.get(2)?;
    Ok(ExpenseRow {
        id: row.get(0)?,
        description: row.get(1)?,
        amount: amount(value),
        date: row.get(3)?,
        category_id: row.get(4)?,
    })
}

fn all<T>(
    conn: &Connection,
    statement: &Statement,
    read: fn(&Row<'_>) -> rusqlite::Result<T>,
) -> Result<Vec<T>, Failure> {
    let mut prepared = conn.prepare(statement.sql).map_err(failure)?;
    let rows = prepared.query_map(params_from_iter(bound(statement)), read).map_err(failure)?;
    rows.collect::<rusqlite::Result<Vec<T>>>().map_err(failure)
}

fn one<T>(
    conn: &Connection,
    statement: &Statement,
    read: fn(&Row<'_>) -> rusqlite::Result<T>,
) -> Result<T, Failure> {
    conn.query_row(statement.sql, params_from_iter(bound(statement)), read).map_err(failure)
}

fn store() -> Connection {
    let conn = Connection::open_in_memory().expect("a store in memory");
    conn.execute_batch("PRAGMA foreign_keys = ON").expect("foreign keys");
    for statement in db::init_database() {
        assert_eq!(written(execute(&conn, &statement)), Ok(()));
    }
    conn
}

fn march_first() -> Timestamp {
    Timestamp::new(2024, 3, 1, 9, 0, 0, 0).unwrap()
}

fn tables(conn: &Connection) -> Vec<String> {
    let mut prepared =
        conn.prepare("SELECT name FROM sqlite_master WHERE type = 'table' ORDER BY name").unwrap();
    let names = prepared.query_map([], |row| row.get::<_, String>(0)).unwrap();
    names.map(|name| name.unwrap()).collect()
}

#[test]
fn init_database_names_three_tables_categories_first() {
    let statements = db::init_database();
    assert_eq!(statements.len(), 3);
    assert_eq!(statements[0].sql, db::CREATE_CATEGORIES_TABLE);
    assert_eq!(statements[1].sql, db::CREATE_INCOME_TABLE);
    assert_eq!(statements[2].sql, db::CREATE_EXPENSES_TABLE);
    for statement in &statements {
        assert!(statement.params.is_empty());
        assert!(statement.sql.starts_with("CREATE TABLE IF NOT EXISTS "));
    }
}

#[test]
fn init_database_creates_the_tables_and_may_run_again() {
    let conn = store();
    assert_eq!(tables(&conn), vec!["categories", "expenses", "income"]);
    assert_eq!(
        written(execute(&conn, &category_repository::create("Salary", CategoryType::Income))),
        Ok(())
    );
    for statement in db::init_database() {
        assert_eq!(written(execute(&conn, &statement)), Ok(()));
    }
    assert_eq!(tables(&conn), vec!["categories", "expenses", "income"]);
    let found = category_repository::find_all(all(
        &conn,
        &category_repository::find_all_query(),
        category_row,
    ));
    assert_eq!(found.map(|categories| categories.len()), Ok(1));
}

#[test]
fn entries_of_an_existing_category_are_accepted() {
    let conn = store();
    assert_eq!(
        written(execute(&conn, &category_repository::create("Salary", CategoryType::Income))),
        Ok(())
    );
    let income = income_repository::create("March pay", amount(5000.0), &march_first(), 1);
    assert_eq!(written(execute(&conn, &income)), Ok(()));
    let expense = expense_repository::create("Rent", amount(1200.5), &march_first(), 1);
    assert_eq!(written(execute(&conn, &expense)), Ok(()));
}

#[test]
fn entries_of_a_missing_category_are_a_conflict() {
    let conn = store();
    let income = income_repository::create("March pay", amount(5000.0), &march_first(), 42);
    match written(execute(&conn, &income)) {
        Err(StoreError::Conflict { constraint, .. }) => {
            assert_eq!(constraint, Constraint::ForeignKey)
        }
        other => panic!("expected a conflict, got {:?}", other),
    }
    let expense = expense_repository::create("Rent", amount(1200.5), &march_first(), 42);
    match written(execute(&conn, &expense)) {
        Err(StoreError::Conflict { constraint, .. }) => {
            assert_eq!(constraint, Constraint::ForeignKey)
        }
        other => panic!("expected a conflict, got {:?}", other),
    }
    let incomes =
        income_repository::find_all(all(&conn, &income_repository::find_all_query(), income_row));
    assert_eq!(incomes, Ok(vec![]));
}

#[test]
fn a_category_without_name_is_a_conflict() {
    let conn = store();
    let mut statement = category_repository::create("x", CategoryType::Income);
    statement.params[0] = SqlValue::Null;
    match written(execute(&conn, &statement)) {
        Err(StoreError::Conflict { constraint, .. }) => assert_eq!(constraint, Constraint::NotNull),
        other => panic!("expected a conflict, got {:?}", other),
    }
}

#[test]
fn a_category_of_another_kind_is_a_conflict() {
    let conn = store();
    let mut statement = category_repository::create("x", CategoryType::Income);
    statement.params[1] = SqlValue::Integer(3);
    match written(execute(&conn, &statement)) {
        Err(StoreError::Conflict { constraint, .. }) => assert_eq!(constraint, Constraint::Check),
        other => panic!("expected a conflict, got {:?}", other),
    }
}

#[test]
fn find_by_id_of_an_id_never_inserted_is_not_found() {
    let conn = store();
    let category = category_repository::find_by_id(one(
        &conn,
        &category_repository::find_by_id_query(7),
        category_row,
    ));
    assert_eq!(category, Err(StoreError::NotFound));
    let income = income_repository::find_by_id(one(
        &conn,
        &income_repository::find_by_id_query(7),
        income_row,
    ));
    assert_eq!(income, Err(StoreError::NotFound));
    let expense = expense_repository::find_by_id(one(
        &conn,
        &expense_repository::find_by_id_query(7),
        expense_row,
    ));
    assert_eq!(expense, Err(StoreError::NotFound));
}

#[test]
fn find_by_id_on_a_store_without_tables_is_unavailable() {
    let conn = Connection::open_in_memory().unwrap();
    let category = category_repository::find_by_id(one(
        &conn,
        &category_repository::find_by_id_query(7),
        category_row,
    ));
    match category {
        Err(StoreError::Unavailable { message }) => assert!(message.contains("categories")),
        other => panic!("expected an unavailable store, got {:?}", other),
    }
}

#[test]
fn salary_scenario() {
    let conn = store();
    assert_eq!(
        written(execute(&conn, &category_repository::create("Salary", CategoryType::Income))),
        Ok(())
    );
    let category = category_repository::find_by_id(one(
        &conn,
        &category_repository::find_by_id_query(1),
        category_row,
    ));
    assert_eq!(
        category,
        Ok(Category { id: 1, name: "Salary".to_string(), category_type: CategoryType::Income })
    );

    let date = Timestamp::decode("2024-03-01 09:00:00").unwrap();
    let create = income_repository::create("March pay", amount(5000.0), &date, 1);
    assert_eq!(written(execute(&conn, &create)), Ok(()));

    let incomes =
        income_repository::find_all(all(&conn, &income_repository::find_all_query(), income_row))
            .unwrap();
    assert_eq!(incomes.len(), 1);
    assert_eq!(
        incomes[0],
        Income {
            id: incomes[0].id,
            description: "March pay".to_string(),
            amount: amount(5000.0),
            date,
            category_id: 1,
        }
    );
    let id = incomes[0].id;

    let update = income_repository::update(id, "March pay", amount(5500.0), &date, 1);
    assert_eq!(written(execute(&conn, &update)), Ok(()));
    let income = income_repository::find_by_id(one(
        &conn,
        &income_repository::find_by_id_query(id),
        income_row,
    ))
    .unwrap();
    assert_eq!(f64::from_bits(income.amount.to_bits()), 5500.0);
    assert_eq!(income.description, "March pay");
    assert_eq!(income.date.encode(), "2024-03-01 09:00:00");
    assert_eq!(income.category_id, 1);
    assert_eq!(income.id, id);
}

#[test]
fn deleting_a_category_leaves_its_entries() {
    let conn = Connection::open_in_memory().unwrap();
    for statement in db::init_database() {
        assert_eq!(written(execute(&conn, &statement)), Ok(()));
    }
    assert_eq!(
        written(execute(&conn, &category_repository::create("Salary", CategoryType::Income))),
        Ok(())
    );
    let create = income_repository::create("March pay", amount(5000.0), &march_first(), 1);
    assert_eq!(written(execute(&conn, &create)), Ok(()));

    assert_eq!(written(execute(&conn, &category_repository::delete(1))), Ok(()));
    let category = category_repository::find_by_id(one(
        &conn,
        &category_repository::find_by_id_query(1),
        category_row,
    ));
    assert_eq!(category, Err(StoreError::NotFound));

    let income = income_repository::find_by_id(one(
        &conn,
        &income_repository::find_by_id_query(1),
        income_row,
    ))
    .unwrap();
    assert_eq!(income.category_id, 1);
    assert_eq!(income.description, "March pay");
}

#[test]
fn update_and_delete_of_a_missing_row_succeed() {
    let conn = store();
    let update = category_repository::update(99, "Nothing", CategoryType::Expense);
    assert_eq!(execute(&conn, &update), Ok(0));
    assert_eq!(written(execute(&conn, &update)), Ok(()));
    assert_eq!(written(execute(&conn, &category_repository::delete(99))), Ok(()));
    assert_eq!(written(execute(&conn, &income_repository::delete(99))), Ok(()));
    assert_eq!(written(execute(&conn, &expense_repository::delete(99))), Ok(()));
}

#[test]
fn update_replaces_every_column_but_the_id() {
    let conn = store();
    for (name, kind) in [("Salary", CategoryType::Income), ("Food", CategoryType::Expense)] {
        assert_eq!(written(execute(&conn, &category_repository::create(name, kind))), Ok(()));
    }
    let update = category_repository::update(2, "Groceries", CategoryType::Expense);
    assert_eq!(execute(&conn, &update), Ok(1));
    let found = category_repository::find_all(all(
        &conn,
        &category_repository::find_all_query(),
        category_row,
    ));
    assert_eq!(
        found,
        Ok(vec![
            Category { id: 1, name: "Salary".to_string(), category_type: CategoryType::Income },
            Category { id: 2, name: "Groceries".to_string(), category_type: CategoryType::Expense },
        ])
    );

    let first = Timestamp::new(2024, 1, 31, 8, 15, 0, 0).unwrap();
    let second = Timestamp::new(2024, 2, 1, 18, 45, 30, 0).unwrap();
    let create = expense_repository::create("Lunch", amount(12.5), &first, 2);
    assert_eq!(written(execute(&conn, &create)), Ok(()));
    let update = expense_repository::update(1, "Dinner", amount(-3.25), &second, 1);
    assert_eq!(execute(&conn, &update), Ok(1));
    let expense = expense_repository::find_by_id(one(
        &conn,
        &expense_repository::find_by_id_query(1),
        expense_row,
    ))
    .unwrap();
    assert_eq!(expense.id, 1);
    assert_eq!(expense.description, "Dinner");
    assert_eq!(f64::from_bits(expense.amount.to_bits()), -3.25);
    assert_eq!(expense.date, second);
    assert_eq!(expense.category_id, 1);
}

#[test]
fn a_date_is_stored_as_its_text() {
    let conn = store();
    assert_eq!(
        written(execute(&conn, &category_repository::create("Salary", CategoryType::Income))),
        Ok(())
    );
    let date = Timestamp::new(2024, 3, 1, 9, 0, 0, 987_654_321).unwrap();
    let create = income_repository::create("March pay", amount(5000.0), &date, 1);
    assert_eq!(written(execute(&conn, &create)), Ok(()));
    let stored: String =
        conn.query_row("SELECT date FROM income WHERE id = 1", [], |row| row.get(0)).unwrap();
    assert_eq!(stored, "2024-03-01 09:00:00");
    let kind: i64 = conn
        .query_row("SELECT category_type FROM categories WHERE id = 1", [], |row| row.get(0))
        .unwrap();
    assert_eq!(kind, 1);
}

#[test]
fn one_unreadable_row_fails_the_whole_of_find_all() {
    let conn = store();
    assert_eq!(
        written(execute(&conn, &category_repository::create("Salary", CategoryType::Income))),
        Ok(())
    );
    let create = income_repository::create("March pay", amount(5000.0), &march_first(), 1);
    assert_eq!(written(execute(&conn, &create)), Ok(()));
    conn.execute(
        "INSERT INTO income (description, amount, date, category_id) VALUES ('x', 1.0, '01/03/2024', 1)",
        [],
    )
    .unwrap();
    assert_eq!(written(execute(&conn, &create)), Ok(()));

    let incomes =
        income_repository::find_all(all(&conn, &income_repository::find_all_query(), income_row));
    assert_eq!(
        incomes,
        Err(StoreError::Corrupt(Corruption::Date {
            text: "01/03/2024".to_string(),
            error: ParseError::Malformed,
        }))
    );
    let good = income_repository::find_by_id(one(
        &conn,
        &income_repository::find_by_id_query(3),
        income_row,
    ));
    assert!(good.is_ok());
    let bad = income_repository::find_by_id(one(
        &conn,
        &income_repository::find_by_id_query(2),
        income_row,
    ));
    assert!(matches!(bad, Err(StoreError::Corrupt(Corruption::Date { .. }))));
}

#[test]
fn a_stored_kind_outside_one_and_two_is_corrupt() {
    let conn = Connection::open_in_memory().unwrap();
    conn.execute_batch(
        "CREATE TABLE categories (id INTEGER PRIMARY KEY, name TEXT NOT NULL, category_type INTEGER NOT NULL)",
    )
    .unwrap();
    conn.execute("INSERT INTO categories (name, category_type) VALUES ('odd', 7)", []).unwrap();
    let category = category_repository::find_by_id(one(
        &conn,
        &category_repository::find_by_id_query(1),
        category_row,
    ));
    assert_eq!(
        category,
        Err(StoreError::Corrupt(Corruption::CategoryType(InvalidCategoryTypeError(7))))
    );
    let found = category_repository::find_all(all(
        &conn,
        &category_repository::find_all_query(),
        category_row,
    ));
    assert_eq!(
        found,
        Err(StoreError::Corrupt(Corruption::CategoryType(InvalidCategoryTypeError(7))))
    );
}

#[test]
fn a_column_of_another_type_is_corrupt() {
    let conn = Connection::open_in_memory().unwrap();
    conn.execute_batch(
        "CREATE TABLE categories (id INTEGER PRIMARY KEY, name TEXT NOT NULL, category_type)",
    )
    .unwrap();
    conn.execute("INSERT INTO categories (name, category_type) VALUES ('odd', 'one')", [])
        .unwrap();
    let category = category_repository::find_by_id(one(
        &conn,
        &category_repository::find_by_id_query(1),
        category_row,
    ));
    match category {
        Err(StoreError::Corrupt(Corruption::Column { index, .. })) => assert_eq!(index, 2),
        other => panic!("expected a corrupt column, got {:?}", other),
    }
}
