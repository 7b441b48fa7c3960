//! The listing of open orders: measured first, then written row by row.

use crate::decimal::{format_quantity, whole_text};
use crate::id::hyphenated_text;
use crate::order::{price_text, Order, OrderView};
use crate::sorting::{
    is_sorted_by_symbol, lemma_sorted_exists, sort_by_symbol, sorted_by_symbol, symbols_ascend,
};
use crate::text::{
    align_left, align_right, left_aligned, lemma_aligned_len, lemma_bytes_cover_chars,
    right_aligned,
};
use vstd::prelude::*;
use vstd::utf8::encode_utf8;

verus! {

/// Whether `f` can give `item` a width that is at most `bound`.
pub open spec fn fits<T, F: Fn(&T) -> usize>(f: F, item: T, bound: usize) -> bool {
    exists|w: usize| w <= bound && #[trigger] call_ensures(f, (&item,), w)
}

/// Determine the maximum width of values produced by applying a function on
/// each element of a slice.
///
/// The result bounds a width of every element and, unless it is 0, is the
/// width of one of them.
pub fn max_width<T, F>(slice: &[T], f: F) -> (width: usize) where F: Fn(&T) -> usize
    requires
        forall|i: int| 0 <= i < slice@.len() ==> call_requires(f, (&#[trigger] slice@[i],)),
    ensures
        forall|i: int| 0 <= i < slice@.len() ==> #[trigger] fits(f, slice@[i], width),
        width == 0 || exists|i: int|
            0 <= i < slice@.len() && #[trigger] call_ensures(f, (&slice@[i],), width),
{
    let mut width: usize = 0;
    let mut at: usize = 0;
    while at < slice.len()
        invariant
            at <= slice@.len(),
            forall|i: int| 0 <= i < slice@.len() ==> call_requires(f, (&#[trigger] slice@[i],)),
            forall|i: int| 0 <= i < at ==> #[trigger] fits(f, slice@[i], width),
            width == 0 || exists|i: int|
                0 <= i < slice@.len() && #[trigger] call_ensures(f, (&slice@[i],), width),
        decreases slice@.len() - at,
    {
        let w: usize = f(&slice[at]);
        let ghost before = width;
        if w > width {
            width = w;
        }
        proof {
            assert(fits(f, slice@[at as int], width)) by {
                assert(w <= width && call_ensures(f, (&slice@[at as int],), w));
            }
            assert forall|i: int| 0 <= i < at implies #[trigger] fits(f, slice@[i], width) by {
                assert(fits(f, slice@[i], before));
                let earlier = choose|v: usize|
                    v <= before && #[trigger] call_ensures(f, (&slice@[i],), v);
                assert(earlier <= width && call_ensures(f, (&slice@[i],), earlier));
            }
        }
        at = at + 1;
    }
    width
}

/// The greatest of `sizes`; 0 where there is none.
pub open spec fn widest(sizes: Seq<nat>) -> nat
    decreases sizes.len(),
{
    if sizes.len() == 0 {
        0
    } else if sizes.last() > widest(sizes.drop_last()) {
        sizes.last()
    } else {
        widest(sizes.drop_last())
    }
}

/// None of `sizes` is greater than the greatest.
pub proof fn lemma_widest_bounds(sizes: Seq<nat>, i: int)
    requires
        0 <= i < sizes.len(),
    ensures
        sizes[i] <= widest(sizes),
    decreases sizes.len(),
{
    if i < sizes.len() - 1 {
        lemma_widest_bounds(sizes.drop_last(), i);
    }
}

/// The greatest of `sizes` is one of them, or 0.
pub proof fn lemma_widest_attained(sizes: Seq<nat>)
    ensures
        widest(sizes) == 0 || exists|i: int| 0 <= i < sizes.len() && sizes[i] == widest(sizes),
    decreases sizes.len(),
{
    if sizes.len() > 0 {
        if sizes.last() > widest(sizes.drop_last()) {
            assert(sizes[sizes.len() - 1] == widest(sizes));
        } else {
            lemma_widest_attained(sizes.drop_last());
            if widest(sizes) != 0 {
                let i = choose|i: int|
                    0 <= i < sizes.drop_last().len() && sizes.drop_last()[i] == widest(
                        sizes.drop_last(),
                    );
                assert(sizes[i] == widest(sizes));
            }
        }
    }
}

/// A bound of `sizes` that is one of them, or 0, is the greatest of them.
pub proof fn lemma_widest_unique(sizes: Seq<nat>, width: nat)
    requires
        forall|i: int| 0 <= i < sizes.len() ==> sizes[i] <= width,
        width == 0 || exists|i: int| 0 <= i < sizes.len() && sizes[i] == width,
    ensures
        width == widest(sizes),
{
    lemma_widest_attained(sizes);
    if width != 0 {
        let i = choose|i: int| 0 <= i < sizes.len() && sizes[i] == width;
        lemma_widest_bounds(sizes, i);
    }
    if widest(sizes) != 0 {
        let i = choose|i: int| 0 <= i < sizes.len() && sizes[i] == widest(sizes);
        assert(sizes[i] <= width);
    }
}

/// The number of characters of an order's quantity, written as a whole number.
pub open spec fn quantity_size(order: Order) -> nat {
    whole_text(order@.quantity).len()
}

/// The number of bytes of an order's symbol.
pub open spec fn symbol_size(order: Order) -> nat {
    encode_utf8(order@.symbol).len()
}

/// The width of the quantity column: the greatest number of characters of a
/// quantity, written as a whole number; 0 without orders.
pub open spec fn quantity_column(orders: Seq<Order>) -> nat {
    widest(orders.map_values(|order: Order| quantity_size(order)))
}

/// The width of the symbol column: the greatest number of bytes of a
/// symbol; 0 without orders.
pub open spec fn symbol_column(orders: Seq<Order>) -> nat {
    widest(orders.map_values(|order: Order| symbol_size(order)))
}

/// Measures the quantity column.
pub fn measure_quantities(orders: &Vec<Order>) -> (width: usize)
    ensures
        width == quantity_column(orders@),
{
    let size = |order: &Order| -> (size: usize)
        ensures
            size == quantity_size(*order),
        { format_quantity(order.quantity()).as_str().unicode_len() };
    let width: usize = max_width(orders.as_slice(), size);
    proof {
        let sizes = orders@.map_values(|order: Order| quantity_size(order));
        assert forall|i: int| 0 <= i < sizes.len() implies sizes[i] <= width by {
            assert(fits(size, orders@[i], width));
        }
        if width != 0 {
            let i = choose|i: int|
                0 <= i < orders@.len() && #[trigger] call_ensures(size, (&orders@[i],), width);
            assert(sizes[i] == width);
        }
        lemma_widest_unique(sizes, width as nat);
    }
    width
}

/// Measures the symbol column.
pub fn measure_symbols(orders: &Vec<Order>) -> (width: usize)
    ensures
        width == symbol_column(orders@),
{
    let size = |order: &Order| -> (size: usize)
        ensures
            size == symbol_size(*order),
        { order.symbol().as_bytes().len() };
    let width: usize = max_width(orders.as_slice(), size);
    proof {
        let sizes = orders@.map_values(|order: Order| symbol_size(order));
        assert forall|i: int| 0 <= i < sizes.len() implies sizes[i] <= width by {
            assert(fits(size, orders@[i], width));
        }
        if width != 0 {
            let i = choose|i: int|
                0 <= i < orders@.len() && #[trigger] call_ensures(size, (&orders@[i],), width);
            assert(sizes[i] == width);
        }
        lemma_widest_unique(sizes, width as nat);
    }
    width
}

/// The row of an order in a listing whose quantity column and symbol column
/// have the given widths: the identifier, the side to the right of four
/// columns, the quantity to the right of its column, the symbol to the left
/// of its column, and the prices, with one blank between two of them.
pub open spec fn row_text(
    order: OrderView,
    currency: Seq<char>,
    quantity_width: nat,
    symbol_width: nat,
) -> Seq<char> {
    hyphenated_text(order.id) + " "@ + right_aligned(order.side.label(), 4) + " "@
        + right_aligned(whole_text(order.quantity), quantity_width) + " "@ + left_aligned(
        order.symbol,
        symbol_width,
    ) + " "@ + price_text(order.limit_price, order.stop_price, currency)
}

/// Writes the row of an order.
pub fn format_row(order: &Order, currency: &str, quantity_width: usize, symbol_width: usize) -> (row:
    String)
    ensures
        row@ == row_text(order@, currency@, quantity_width as nat, symbol_width as nat),
{
    let mut row: String = order.id().to_hyphenated();
    row.append(" ");
    row.append(align_right(order.side().as_str(), 4).as_str());
    row.append(" ");
    row.append(align_right(format_quantity(order.quantity()).as_str(), quantity_width).as_str());
    row.append(" ");
    row.append(align_left(order.symbol(), symbol_width).as_str());
    row.append(" ");
    row.append(order.price_description(currency).as_str());
    row
}

/// The rows of a listing of `orders`: one for each, sorted by symbol, the
/// columns as wide as the widest entry among all of them.
pub open spec fn listing_rows(orders: Seq<Order>, currency: Seq<char>) -> Seq<Seq<char>> {
    let sorted = sorted_by_symbol(orders);
    Seq::new(
        sorted.len(),
        |i: int| row_text(sorted[i]@, currency, quantity_column(sorted), symbol_column(sorted)),
    )
}

/// The texts of rows.
pub open spec fn texts(rows: Seq<String>) -> Seq<Seq<char>> {
    rows.map_values(|row: String| row@)
}

/// Lists orders: sorts them by symbol, measures the columns over all of
/// them, and only then writes the rows.
pub fn format_listing(currency: &str, orders: Vec<Order>) -> (rows: Vec<String>)
    ensures
        rows@.len() == orders@.len(),
        texts(rows@) == listing_rows(orders@, currency@),
{
    let mut sorted = orders;
    sort_by_symbol(&mut sorted);
    let quantity_width: usize = measure_quantities(&sorted);
    let symbol_width: usize = measure_symbols(&sorted);
    let mut rows: Vec<String> = Vec::new();
    let mut at: usize = 0;
    while at < sorted.len()
        invariant
            at <= sorted@.len(),
            rows@.len() == at,
            quantity_width == quantity_column(sorted@),
            symbol_width == symbol_column(sorted@),
            forall|i: int|
                0 <= i < at ==> (#[trigger] rows@[i])@ == row_text(
                    sorted@[i]@,
                    currency@,
                    quantity_width as nat,
                    symbol_width as nat,
                ),
        decreases sorted@.len() - at,
    {
        rows.push(format_row(&sorted[at], currency, quantity_width, symbol_width));
        at = at + 1;
    }
    assert(texts(rows@) =~= listing_rows(orders@, currency@));
    rows
}

/// A listing has one row for each order, and the rows stand as the orders
/// do when they are sorted by symbol.
pub proof fn lemma_rows_follow_symbols(orders: Seq<Order>, currency: Seq<char>)
    ensures
        listing_rows(orders, currency).len() == orders.len(),
        is_sorted_by_symbol(orders, sorted_by_symbol(orders)),
        symbols_ascend(sorted_by_symbol(orders)),
        forall|i: int|
            0 <= i < orders.len() ==> #[trigger] listing_rows(orders, currency)[i] == row_text(
                sorted_by_symbol(orders)[i]@,
                currency,
                quantity_column(sorted_by_symbol(orders)),
                symbol_column(sorted_by_symbol(orders)),
            ),
{
    lemma_sorted_exists(orders);
}

/// The columns of a listing are aligned: in every row the identifier takes
/// 36 characters and the side 4, the quantity takes the width of the
/// quantity column and the symbol the width of the symbol column, one blank
/// stands between two columns, and the prices follow.
pub proof fn lemma_columns_align(orders: Seq<Order>, currency: Seq<char>, i: int)
    requires
        0 <= i < orders.len(),
    ensures
        ({
            let sorted = sorted_by_symbol(orders);
            let order = sorted[i]@;
            let row = listing_rows(orders, currency)[i];
            let quantities = quantity_column(sorted) as int;
            let symbols = symbol_column(sorted) as int;
            &&& row.len() == 44 + quantities + symbols + price_text(
                order.limit_price,
                order.stop_price,
                currency,
            ).len()
            &&& row.subrange(0, 36) == hyphenated_text(order.id)
            &&& row[36] == ' '
            &&& row.subrange(37, 41) == right_aligned(order.side.label(), 4)
            &&& row[41] == ' '
            &&& row.subrange(42, 42 + quantities) == right_aligned(
                whole_text(order.quantity),
                quantities as nat,
            )
            &&& row[42 + quantities] == ' '
            &&& row.subrange(43 + quantities, 43 + quantities + symbols) == left_aligned(
                order.symbol,
                symbols as nat,
            )
            &&& row[43 + quantities + symbols] == ' '
            &&& row.skip(44 + quantities + symbols) == price_text(
                order.limit_price,
                order.stop_price,
                currency,
            )
        }),
{
    lemma_rows_follow_symbols(orders, currency);
    let sorted = sorted_by_symbol(orders);
    let order = sorted[i]@;
    let quantities = quantity_column(sorted);
    let symbols = symbol_column(sorted);
    let id = hyphenated_text(order.id);
    let side = right_aligned(order.side.label(), 4);
    let quantity = right_aligned(whole_text(order.quantity), quantities);
    let symbol = left_aligned(order.symbol, symbols);
    let prices = price_text(order.limit_price, order.stop_price, currency);
    reveal_strlit(" ");
    reveal_strlit("buy");
    reveal_strlit("sell");
    lemma_aligned_len(order.side.label(), 4);
    assert(whole_text(order.quantity).len() <= quantities) by {
        let sizes = sorted.map_values(|order: Order| quantity_size(order));
        lemma_widest_bounds(sizes, i);
    }
    lemma_aligned_len(whole_text(order.quantity), quantities);
    assert(order.symbol.len() <= symbols) by {
        let sizes = sorted.map_values(|order: Order| symbol_size(order));
        lemma_widest_bounds(sizes, i);
        lemma_bytes_cover_chars(order.symbol);
    }
    lemma_aligned_len(order.symbol, symbols);
    let row = listing_rows(orders, currency)[i];
    assert(row == id + " "@ + side + " "@ + quantity + " "@ + symbol + " "@ + prices);
    assert(row.subrange(0, 36) =~= id);
    assert(row.subrange(37, 41) =~= side);
    let q = quantities as int;
    let s = symbols as int;
    assert(row.subrange(42, 42 + q) =~= quantity);
    assert(row.subrange(43 + q, 43 + q + s) =~= symbol);
    assert(row.skip(44 + q + s) =~= prices);
}

} // verus!
