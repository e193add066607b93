use expense_tracker::{Category, Expense, ExpenseTracker};

#[test]
fn test_crud_operations() {
    let mut contract = ExpenseTracker::new();

    let id1 = contract.create_expense(
        "Groceries".to_string(),
        "Bought fruits and vegetables".to_string(),
        50,
        "2025-01-01".to_string(),
        Category::Alimentacao,
    );

    let id2 = contract.create_expense(
        "Bus Ticket".to_string(),
        "Monthly pass".to_string(),
        100,
        "2025-01-02".to_string(),
        Category::Transporte,
    );

    assert!(contract.read_expense(id1).is_some());
    assert!(contract.read_expense(id2).is_some());

    assert!(contract.update_expense(
        id1,
        "Supermarket".to_string(),
        "Bought fruits and vegetables".to_string(),
        60,
        "2025-01-01".to_string(),
        Category::Alimentacao,
    ));

    let updated_expense = contract.read_expense(id1).unwrap();
    assert_eq!(updated_expense.title, "Supermarket");
    assert_eq!(updated_expense.amount, 60);

    contract.delete_expense(id2);
    assert!(contract.read_expense(id2).is_none());
}

#[test]
fn scenario_create_list_update_delete() {
    let mut ledger = ExpenseTracker::new();

    let groceries = ledger.create_expense(
        "Groceries".to_string(),
        "Fruits and vegetables".to_string(),
        5000,
        "2025-01-01".to_string(),
        Category::Alimentacao,
    );
    assert_eq!(groceries, 0);

    let bus = ledger.create_expense(
        "Bus".to_string(),
        "Monthly pass".to_string(),
        10000,
        "2025-01-02".to_string(),
        Category::Transporte,
    );
    assert_eq!(bus, 1);

    let listed = ledger.list_expenses();
    assert_eq!(
        listed,
        vec![Expense {
            id: 1,
            title: "Bus".to_string(),
            description: "Monthly pass".to_string(),
            amount: 10000,
            date: "2025-01-02".to_string(),
            category: Category::Transporte,
        }]
    );

    assert_eq!(
        ledger.read_expense(0),
        Some(Expense {
            id: 0,
            title: "Groceries".to_string(),
            description: "Fruits and vegetables".to_string(),
            amount: 5000,
            date: "2025-01-01".to_string(),
            category: Category::Alimentacao,
        })
    );

    assert!(ledger.update_expense(
        0,
        "Supermarket".to_string(),
        "Weekly shopping".to_string(),
        6000,
        "2025-01-03".to_string(),
        Category::Alimentacao,
    ));
    assert_eq!(ledger.read_expense(0).unwrap().amount, 6000);

    ledger.delete_expense(1);
    assert_eq!(ledger.read_expense(1), None);
    assert!(ledger.list_expenses().is_empty());
}
