use shelby::user::User;
use shelby::util::pagination::{DEFAULT_LIMIT, MAXIMUM_LIMIT};
use shelby::{Limit, Order, Pagination, PaginationError};

#[test]
fn pagination_test_pagination_new() {
    let pagination: Pagination<User> =
        Pagination::new("id", 1, Limit::default(), Order::Ascending).expect("valid pagination");
    assert_eq!(pagination.offset, 1);
    assert_eq!(pagination.limit, Limit::from(DEFAULT_LIMIT));
}

#[test]
fn pagination_test_pagination_new_unknown_column() {
    assert_eq!(
        Pagination::<User>::new("unknown_column", 1, Limit::default(), Order::Ascending),
        Err(PaginationError::InvalidColumn)
    );
}

#[test]
fn pagination_test_sql() {
    assert_eq!(
        Pagination::<User>::new("id", 1, Limit::from(30), Order::Ascending)
            .expect("valid pagination")
            .display_sql(),
        String::from("ORDER BY \"id\" ASC LIMIT 30 OFFSET 1")
    );
}

#[test]
fn pagination_test_length_max_size() {
    assert_eq!(Limit::from(MAXIMUM_LIMIT + 100), Limit::maximum());
    assert_eq!(Limit::maximum().get(), MAXIMUM_LIMIT);
}

#[test]
fn pagination_test_length_default() {
    assert_eq!(Limit::from(DEFAULT_LIMIT), <Limit as Default>::default());
}

#[test]
fn test_next() {
    let pagination = Pagination::<User> {
        offset: 0,
        limit: Limit::from(3),
        ..Default::default()
    };

    // Lets simulate 5 existings elements in database
    let next_pagination = pagination.next(3).expect("valid pagination");
    assert_eq!(next_pagination.offset, 3);
    assert_eq!(pagination.next(2), None);
}

#[test]
fn test_next_pathologic() {
    let pagination = Pagination::<User> {
        offset: 0,
        limit: Limit::from(3),
        ..Default::default()
    };

    let next_pagination = pagination.next(4).expect("valid pagination");
    assert_eq!(next_pagination.offset, 3);
    assert_eq!(pagination.next(2), None);
}

#[test]
fn test_previous() {
    let pagination = Pagination::<User> {
        offset: 0,
        limit: Limit::from(3),
        ..Default::default()
    };

    let next_pagination = pagination.next(5).expect("valid pagination");
    assert_eq!(next_pagination.previous(), Some(pagination));
}

#[test]
fn test_pagination_edges() {
    let page = Pagination::<User>::new("creation_date", 2, Limit::from(5), Order::Descending)
        .expect("valid pagination");
    assert_eq!(page.column.as_str(), "creation_date");
    assert_eq!(page.previous().expect("a page before").offset, 0);
    assert_eq!(page.end_offset(), 7);
    assert_eq!(
        page.display_url(),
        "?column=creation_date&order=DESC&limit=5&offset=2"
    );
    assert_eq!(
        page.display_sql(),
        "ORDER BY \"creation_date\" DESC LIMIT 5 OFFSET 2"
    );
    let last = Pagination::<User> {
        offset: usize::MAX,
        limit: Limit::from(1),
        ..Default::default()
    };
    assert_eq!(last.next(1), None);
    let first = Pagination::<User>::default();
    assert_eq!(first.previous(), None);
    assert_eq!(first.limit.get(), 10);
    assert_eq!(first.order, Order::Descending);
    assert_eq!(first.column.as_str(), "id");
    assert_eq!(Limit::from(100).get(), 100);
    assert_eq!(Limit::from(101).get(), 100);
    assert_eq!(Limit::from(0).get(), 0);
    assert_eq!(
        PaginationError::InvalidColumn.to_string(),
        "The selected column does not exist"
    );
}

#[test]
fn test_length_max_size() {
    assert_eq!(Limit::from(MAXIMUM_LIMIT + 100), Limit::maximum());
    assert_eq!(Limit::maximum().get(), MAXIMUM_LIMIT);
}

#[test]
fn test_length_default() {
    assert_eq!(Limit::from(DEFAULT_LIMIT), <Limit as Default>::default());
}

#[test]
fn test_order_of_a_word() {
    assert_eq!(Order::parse("asc"), Some(Order::Ascending));
    assert_eq!(Order::parse("ASC"), Some(Order::Ascending));
    assert_eq!(Order::parse("Desc"), Some(Order::Descending));
    assert_eq!(Order::parse("dEsC"), Some(Order::Descending));
    assert_eq!(Order::parse("ascending"), None);
    assert_eq!(Order::parse(""), None);
    assert_eq!(Order::parse("\u{e4}sc"), None);
    assert_eq!(Order::Ascending.as_str(), "ASC");
    assert_eq!(Order::Descending.as_str(), "DESC");
    assert_eq!(Order::default(), Order::Descending);
}
