use apcacli::decimal::Decimal;
use apcacli::id::OrderId;
use apcacli::listing::{
    format_listing, format_row, max_width, measure_quantities, measure_symbols,
};
use apcacli::order::{Order, OrderType, Side};
use apcacli::sorting::sort_by_symbol;

fn decimal(numer: &str, denom: &str) -> Decimal {
    Decimal::from_fraction(numer, denom).unwrap()
}

fn market(tag: u8, symbol: &str, side: Side, quantity: &str) -> Order {
    Order::new(
        OrderId([tag; 16]),
        symbol.to_string(),
        side,
        OrderType::Market,
        decimal(quantity, "1"),
        None,
        None,
    )
    .unwrap()
}

fn symbols(orders: &[Order]) -> Vec<String> {
    orders.iter().map(|order| order.symbol().to_string()).collect()
}

fn tags(orders: &[Order]) -> Vec<u8> {
    orders.iter().map(|order| order.id().0[0]).collect()
}

#[test]
fn max_width_of_nothing_is_zero() {
    let nothing: [String; 0] = [];
    assert_eq!(max_width(&nothing, |text| text.len()), 0);
}

#[test]
fn max_width_is_the_greatest() {
    let texts = ["7".to_string(), "1500".to_string(), "23".to_string()];
    assert_eq!(max_width(&texts, |text| text.len()), 4);
    let numbers = [3usize, 9, 2, 9, 0];
    assert_eq!(max_width(&numbers, |number| *number), 9);
    assert_eq!(max_width(&[0usize, 0], |number| *number), 0);
    assert_eq!(max_width(&[usize::MAX, 1], |number| *number), usize::MAX);
}

#[test]
fn orders_are_sorted_by_symbol() {
    let mut orders = vec![
        market(1, "TSLA", Side::Buy, "1"),
        market(2, "AAPL", Side::Buy, "1"),
        market(3, "MSFT", Side::Buy, "1"),
    ];
    sort_by_symbol(&mut orders);
    assert_eq!(symbols(&orders), vec!["AAPL", "MSFT", "TSLA"]);
    assert_eq!(tags(&orders), vec![2, 3, 1]);
}

#[test]
fn orders_of_one_symbol_keep_their_order() {
    let mut orders = vec![
        market(1, "MSFT", Side::Buy, "1"),
        market(2, "AAPL", Side::Buy, "1"),
        market(3, "MSFT", Side::Sell, "2"),
        market(4, "AAPL", Side::Sell, "2"),
        market(5, "MSFT", Side::Buy, "3"),
        market(6, "AAPL", Side::Buy, "3"),
        market(7, "AAP", Side::Buy, "3"),
    ];
    sort_by_symbol(&mut orders);
    assert_eq!(symbols(&orders), vec!["AAP", "AAPL", "AAPL", "AAPL", "MSFT", "MSFT", "MSFT"]);
    assert_eq!(tags(&orders), vec![7, 2, 4, 6, 1, 3, 5]);
}

#[test]
fn symbols_are_compared_byte_by_byte() {
    let mut orders = vec![
        market(1, "b", Side::Buy, "1"),
        market(2, "a", Side::Buy, "1"),
        market(3, "B", Side::Buy, "1"),
        market(4, "", Side::Buy, "1"),
        market(5, "\u{e9}", Side::Buy, "1"),
        market(6, "ab", Side::Buy, "1"),
        market(7, "Z", Side::Buy, "1"),
    ];
    sort_by_symbol(&mut orders);
    assert_eq!(symbols(&orders), vec!["", "B", "Z", "a", "ab", "b", "\u{e9}"]);
    let mut expected: Vec<String> = symbols(&orders);
    expected.sort();
    assert_eq!(symbols(&orders), expected);
}

#[test]
fn sorting_agrees_with_the_stable_sort_of_the_standard_library() {
    let names = ["MSFT", "AAPL", "TSLA", "AAPL", "GOOG", "MSFT", "A", "ZM", "TSLA", "AAPL", "A"];
    let mut orders: Vec<Order> = Vec::new();
    for (at, name) in names.iter().enumerate() {
        orders.push(market(at as u8, name, Side::Buy, "1"));
    }
    let mut expected = orders.clone();
    expected.sort_by(|a, b| a.symbol().cmp(b.symbol()));
    sort_by_symbol(&mut orders);
    assert_eq!(tags(&orders), tags(&expected));
    assert_eq!(symbols(&orders), symbols(&expected));
}

#[test]
fn sorting_nothing_and_one_order() {
    let mut none: Vec<Order> = Vec::new();
    sort_by_symbol(&mut none);
    assert!(none.is_empty());
    let mut one = vec![market(1, "AAPL", Side::Buy, "1")];
    sort_by_symbol(&mut one);
    assert_eq!(tags(&one), vec![1]);
}

#[test]
fn columns_are_as_wide_as_the_widest_entry() {
    let orders = vec![
        market(1, "TSLA", Side::Buy, "7"),
        market(2, "F", Side::Buy, "1500"),
        market(3, "GOOGL", Side::Buy, "23"),
    ];
    assert_eq!(measure_quantities(&orders), 4);
    assert_eq!(measure_symbols(&orders), 5);
    let none: Vec<Order> = Vec::new();
    assert_eq!(measure_quantities(&none), 0);
    assert_eq!(measure_symbols(&none), 0);
}

#[test]
fn quantity_is_measured_as_it_is_written() {
    let rounded = Order::new(
        OrderId([1; 16]),
        "AAPL".to_string(),
        Side::Buy,
        OrderType::Market,
        decimal("19999", "2"),
        None,
        None,
    )
    .unwrap();
    assert_eq!(measure_quantities(&vec![rounded]), 5);
}

#[test]
fn symbol_is_measured_in_bytes() {
    let orders = vec![market(1, "\u{e9}\u{e9}", Side::Buy, "1"), market(2, "abc", Side::Buy, "1")];
    assert_eq!(measure_symbols(&orders), 4);
}

#[test]
fn row_has_its_fields_in_columns() {
    let order = Order::new(
        OrderId([0xab; 16]),
        "AAPL".to_string(),
        Side::Buy,
        OrderType::Limit,
        decimal("10", "1"),
        Some(decimal("1005", "10")),
        None,
    )
    .unwrap();
    assert_eq!(
        format_row(&order, "USD", 4, 6),
        "abababab-abab-abab-abab-abababababab  buy   10 AAPL   limit @ 100.5 USD"
    );
    assert_eq!(
        format_row(&order, "USD", 0, 0),
        "abababab-abab-abab-abab-abababababab  buy 10 AAPL limit @ 100.5 USD"
    );
}

#[test]
fn row_of_market_order_ends_with_a_blank() {
    let order = market(0xcd, "MSFT", Side::Sell, "3");
    assert_eq!(format_row(&order, "USD", 1, 4), "cdcdcdcd-cdcd-cdcd-cdcd-cdcdcdcdcdcd sell 3 MSFT ");
}

#[test]
fn listing_is_sorted_and_aligned() {
    let orders = vec![
        market(0x11, "TSLA", Side::Buy, "7"),
        Order::new(
            OrderId([0x22; 16]),
            "AAPL".to_string(),
            Side::Sell,
            OrderType::StopLimit,
            decimal("1500", "1"),
            Some(decimal("1005", "10")),
            Some(decimal("95", "1")),
        )
        .unwrap(),
        Order::new(
            OrderId([0x33; 16]),
            "MSFT".to_string(),
            Side::Buy,
            OrderType::Stop,
            decimal("23", "1"),
            None,
            Some(decimal("95", "1")),
        )
        .unwrap(),
    ];
    let rows = format_listing("USD", orders);
    assert_eq!(
        rows,
        vec![
            "22222222-2222-2222-2222-222222222222 sell 1500 AAPL stop @ 95 USD, limit @ 100.5 USD",
            "33333333-3333-3333-3333-333333333333  buy   23 MSFT stop @ 95 USD",
            "11111111-1111-1111-1111-111111111111  buy    7 TSLA ",
        ]
    );
}

#[test]
fn quantity_column_is_four_wide_for_seven_fifteen_hundred_and_twenty_three() {
    let orders = vec![
        market(1, "A", Side::Buy, "7"),
        market(2, "B", Side::Buy, "1500"),
        market(3, "C", Side::Buy, "23"),
    ];
    assert_eq!(measure_quantities(&orders), 4);
    let rows = format_listing("USD", orders);
    let fields: Vec<&str> = rows.iter().map(|row| &row[42..46]).collect();
    assert_eq!(fields, vec!["   7", "1500", "  23"]);
    for row in &rows {
        assert_eq!(&row[41..42], " ");
        assert_eq!(&row[46..47], " ");
    }
}

#[test]
fn symbols_of_different_lengths_are_padded() {
    let orders = vec![
        market(1, "GOOGL", Side::Buy, "1"),
        market(2, "F", Side::Sell, "1"),
    ];
    let rows = format_listing("USD", orders);
    assert_eq!(
        rows,
        vec![
            "02020202-0202-0202-0202-020202020202 sell 1 F     ",
            "01010101-0101-0101-0101-010101010101  buy 1 GOOGL ",
        ]
    );
}

#[test]
fn listing_of_no_orders_has_no_rows() {
    let rows = format_listing("USD", Vec::new());
    assert!(rows.is_empty());
}

#[test]
fn columns_stay_aligned_when_a_symbol_has_more_bytes_than_characters() {
    let orders = vec![
        market(1, "\u{e9}\u{e9}", Side::Buy, "1"),
        market(2, "abc", Side::Sell, "20"),
    ];
    let rows = format_listing("USD", orders);
    assert_eq!(
        rows,
        vec![
            "02020202-0202-0202-0202-020202020202 sell 20 abc  ",
            "01010101-0101-0101-0101-010101010101  buy  1 \u{e9}\u{e9}   ",
        ]
    );
    let lengths: Vec<usize> = rows.iter().map(|row| row.chars().count()).collect();
    assert_eq!(lengths, vec![50, 50]);
}

#[test]
fn every_row_has_its_prices_in_the_same_column() {
    let priced = |tag: u8, symbol: &str, quantity: &str| {
        Order::new(
            OrderId([tag; 16]),
            symbol.to_string(),
            Side::Buy,
            OrderType::Limit,
            decimal(quantity, "1"),
            Some(decimal("1", "1")),
            None,
        )
        .unwrap()
    };
    let orders = vec![
        priced(1, "TSLA", "7"),
        priced(2, "F", "123456"),
        priced(3, "GOOGL", "23"),
        priced(4, "", "0"),
    ];
    let rows = format_listing("USD", orders);
    assert_eq!(rows.len(), 4);
    for row in &rows {
        assert_eq!(row.find("limit @ 1 USD"), Some(36 + 1 + 4 + 1 + 6 + 1 + 5 + 1));
    }
}
