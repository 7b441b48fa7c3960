//! Sorting orders by symbol: what it means, that it has one result, and
//! the sort itself.

use crate::order::Order;
use crate::text::{
    lemma_bytes_le_reflexive, lemma_bytes_le_total, lemma_bytes_le_transitive,
    lemma_text_le_antisymmetric, precedes, text_le,
};
use vstd::prelude::*;
use vstd::utf8::encode_utf8;

verus! {

/// Whether the symbols of `orders` ascend in the byte-wise order.
pub open spec fn symbols_ascend(orders: Seq<Order>) -> bool {
    forall|i: int, j: int|
        0 <= i < j < orders.len() ==> text_le(
            (#[trigger] orders[i])@.symbol,
            (#[trigger] orders[j])@.symbol,
        )
}

/// The test for the orders of one symbol.
pub open spec fn has_symbol(symbol: Seq<char>) -> spec_fn(Order) -> bool {
    |order: Order| order@.symbol == symbol
}

/// The orders of one symbol, in the order in which they stand.
pub open spec fn with_symbol(orders: Seq<Order>, symbol: Seq<char>) -> Seq<Order> {
    orders.filter(has_symbol(symbol))
}

/// Whether `sorted` holds the orders of `orders` sorted by symbol: the
/// symbols ascend, and the orders of each symbol are the same and stand in
/// the same order as before.
pub open spec fn is_sorted_by_symbol(orders: Seq<Order>, sorted: Seq<Order>) -> bool {
    &&& sorted.len() == orders.len()
    &&& symbols_ascend(sorted)
    &&& forall|symbol: Seq<char>| #[trigger]
        with_symbol(sorted, symbol) == with_symbol(orders, symbol)
}

/// The orders of `orders` sorted by symbol. There is one such sequence, as
/// [`lemma_sorted_unique`] shows and [`sort_by_symbol`] computes.
pub open spec fn sorted_by_symbol(orders: Seq<Order>) -> Seq<Order> {
    choose|sorted: Seq<Order>| is_sorted_by_symbol(orders, sorted)
}

/// The orders of one symbol, when the last order is taken away.
proof fn lemma_with_symbol_last(orders: Seq<Order>, symbol: Seq<char>)
    requires
        orders.len() > 0,
    ensures
        with_symbol(orders, symbol) == if orders.last()@.symbol == symbol {
            with_symbol(orders.drop_last(), symbol).push(orders.last())
        } else {
            with_symbol(orders.drop_last(), symbol)
        },
{
    reveal(Seq::filter);
}

/// The last of the orders whose symbols ascend has a symbol that none of the
/// others comes after.
proof fn lemma_last_is_greatest(orders: Seq<Order>, order: Order)
    requires
        orders.len() > 0,
        symbols_ascend(orders),
        orders.contains(order),
    ensures
        text_le(order@.symbol, orders.last()@.symbol),
{
    let i = choose|i: int| 0 <= i < orders.len() && orders[i] == order;
    if i == orders.len() - 1 {
        lemma_bytes_le_reflexive(encode_utf8(order@.symbol));
    }
}

/// The last order of `second` stands in `first` too.
proof fn lemma_last_is_shared(first: Seq<Order>, second: Seq<Order>)
    requires
        second.len() > 0,
        forall|symbol: Seq<char>| #[trigger]
            with_symbol(first, symbol) == with_symbol(second, symbol),
    ensures
        first.contains(second.last()),
{
    let last = second.last();
    let symbol = last@.symbol;
    lemma_with_symbol_last(second, symbol);
    assert(with_symbol(first, symbol).contains(last));
    first.lemma_filter_contains_rev(has_symbol(symbol), last);
}

/// Sequences of orders whose symbols ascend, and which hold the same orders
/// of each symbol in the same order, are the same sequence.
pub proof fn lemma_ascending_determined(first: Seq<Order>, second: Seq<Order>)
    requires
        first.len() == second.len(),
        symbols_ascend(first),
        symbols_ascend(second),
        forall|symbol: Seq<char>| #[trigger]
            with_symbol(first, symbol) == with_symbol(second, symbol),
    ensures
        first == second,
    decreases first.len(),
{
    if first.len() > 0 {
        let a = first.last();
        let b = second.last();
        lemma_last_is_shared(first, second);
        lemma_last_is_shared(second, first);
        lemma_last_is_greatest(first, b);
        lemma_last_is_greatest(second, a);
        lemma_text_le_antisymmetric(a@.symbol, b@.symbol);
        let front = first.drop_last();
        let back = second.drop_last();
        assert forall|symbol: Seq<char>| #[trigger]
            with_symbol(front, symbol) == with_symbol(back, symbol) by {
            lemma_with_symbol_last(first, symbol);
            lemma_with_symbol_last(second, symbol);
            if a@.symbol == symbol {
                assert(with_symbol(front, symbol).push(a).drop_last() =~= with_symbol(
                    front,
                    symbol,
                ));
                assert(with_symbol(back, symbol).push(b).drop_last() =~= with_symbol(
                    back,
                    symbol,
                ));
            }
        }
        assert(a == b) by {
            let symbol = a@.symbol;
            lemma_with_symbol_last(first, symbol);
            lemma_with_symbol_last(second, symbol);
            assert(with_symbol(front, symbol).push(a).last() == a);
            assert(with_symbol(back, symbol).push(b).last() == b);
        }
        assert(symbols_ascend(front));
        assert(symbols_ascend(back));
        lemma_ascending_determined(front, back);
        assert(first =~= front.push(a));
        assert(second =~= back.push(b));
    }
}

/// Sorting by symbol has one result.
pub proof fn lemma_sorted_unique(orders: Seq<Order>, sorted: Seq<Order>)
    requires
        is_sorted_by_symbol(orders, sorted),
    ensures
        sorted == sorted_by_symbol(orders),
{
    lemma_ascending_determined(sorted, sorted_by_symbol(orders));
}

/// An order that is moved forward past orders of other symbols leaves the
/// orders of each symbol, and their order, as they were.
proof fn lemma_move_keeps_symbols(orders: Seq<Order>, to: int, from: int, symbol: Seq<char>)
    requires
        0 <= to <= from < orders.len(),
        forall|k: int| to <= k < from ==> (#[trigger] orders[k])@.symbol != orders[from]@.symbol,
    ensures
        with_symbol(orders.remove(from).insert(to, orders[from]), symbol) == with_symbol(
            orders,
            symbol,
        ),
{
    let pred = has_symbol(symbol);
    let head = orders.subrange(0, to);
    let passed = orders.subrange(to, from);
    let moved = seq![orders[from]];
    let tail = orders.subrange(from + 1, orders.len() as int);
    let after = orders.remove(from).insert(to, orders[from]);
    assert(orders =~= head + passed + moved + tail);
    assert(after =~= head + moved + passed + tail);
    Seq::filter_distributes_over_add(head + passed + moved, tail, pred);
    Seq::filter_distributes_over_add(head + passed, moved, pred);
    Seq::filter_distributes_over_add(head, passed, pred);
    Seq::filter_distributes_over_add(head + moved + passed, tail, pred);
    Seq::filter_distributes_over_add(head + moved, passed, pred);
    Seq::filter_distributes_over_add(head, moved, pred);
    if orders[from]@.symbol == symbol {
        let kept = passed.filter(pred);
        if kept.len() > 0 {
            let order = kept[0];
            passed.lemma_filter_pred(pred, 0);
            passed.lemma_filter_contains_rev(pred, order);
        }
    } else {
        assert(moved.filter(pred) =~= Seq::<Order>::empty()) by {
            reveal_with_fuel(Seq::filter, 2);
        }
    }
}

/// An order that is moved forward to stand behind the orders that do not
/// come after it, and before those that do, extends the part whose symbols
/// ascend by itself.
proof fn lemma_move_keeps_ascending(orders: Seq<Order>, to: int, from: int)
    requires
        0 <= to <= from < orders.len(),
        symbols_ascend(orders.subrange(0, from)),
        to == 0 || text_le(orders[to - 1]@.symbol, orders[from]@.symbol),
        forall|k: int|
            to <= k < from ==> !text_le((#[trigger] orders[k])@.symbol, orders[from]@.symbol),
    ensures
        symbols_ascend(orders.remove(from).insert(to, orders[from]).subrange(0, from + 1)),
{
    let moved = orders[from];
    let earlier = orders.subrange(0, from);
    let sorted = orders.remove(from).insert(to, moved).subrange(0, from + 1);
    assert forall|i: int, j: int| 0 <= i < j < sorted.len() implies text_le(
        (#[trigger] sorted[i])@.symbol,
        (#[trigger] sorted[j])@.symbol,
    ) by {
        if j == to && i < to - 1 {
            lemma_bytes_le_transitive(
                encode_utf8(earlier[i]@.symbol),
                encode_utf8(earlier[to - 1]@.symbol),
                encode_utf8(moved@.symbol),
            );
        } else if i == to {
            lemma_bytes_le_total(encode_utf8(orders[j - 1]@.symbol), encode_utf8(moved@.symbol));
        }
    }
}

/// Where an order of the given symbol goes among sorted orders: behind the
/// last whose symbol does not come after its own.
spec fn place_of(sorted: Seq<Order>, symbol: Seq<char>) -> int
    decreases sorted.len(),
{
    if sorted.len() == 0 {
        0
    } else if text_le(sorted.last()@.symbol, symbol) {
        sorted.len() as int
    } else {
        place_of(sorted.drop_last(), symbol)
    }
}

proof fn lemma_place_of(sorted: Seq<Order>, symbol: Seq<char>)
    ensures
        0 <= place_of(sorted, symbol) <= sorted.len(),
        place_of(sorted, symbol) == 0 || text_le(
            sorted[place_of(sorted, symbol) - 1]@.symbol,
            symbol,
        ),
        forall|k: int|
            place_of(sorted, symbol) <= k < sorted.len() ==> !text_le(
                (#[trigger] sorted[k])@.symbol,
                symbol,
            ),
    decreases sorted.len(),
{
    if sorted.len() > 0 && !text_le(sorted.last()@.symbol, symbol) {
        lemma_place_of(sorted.drop_last(), symbol);
        let place = place_of(sorted, symbol);
        assert forall|k: int| place <= k < sorted.len() implies !text_le(
            (#[trigger] sorted[k])@.symbol,
            symbol,
        ) by {
            if k < sorted.len() - 1 {
                assert(sorted[k] == sorted.drop_last()[k]);
            }
        }
    }
}

/// Every sequence of orders can be sorted by symbol: [`sorted_by_symbol`]
/// is what its name says.
pub proof fn lemma_sorted_exists(orders: Seq<Order>)
    ensures
        is_sorted_by_symbol(orders, sorted_by_symbol(orders)),
    decreases orders.len(),
{
    if orders.len() == 0 {
        assert(is_sorted_by_symbol(orders, orders));
    } else {
        let front = orders.drop_last();
        let last = orders.last();
        lemma_sorted_exists(front);
        let sorted_front = sorted_by_symbol(front);
        let extended = sorted_front.push(last);
        let from = sorted_front.len() as int;
        let to = place_of(sorted_front, last@.symbol);
        lemma_place_of(sorted_front, last@.symbol);
        let sorted = extended.remove(from).insert(to, last);
        assert(extended.subrange(0, from) =~= sorted_front);
        lemma_move_keeps_ascending(extended, to, from);
        assert(sorted.subrange(0, from + 1) =~= sorted);
        assert forall|symbol: Seq<char>| #[trigger]
            with_symbol(sorted, symbol) == with_symbol(orders, symbol) by {
            assert forall|k: int| to <= k < from implies (#[trigger] extended[k])@.symbol
                != last@.symbol by {
                lemma_bytes_le_reflexive(encode_utf8(last@.symbol));
            }
            lemma_move_keeps_symbols(extended, to, from, symbol);
            lemma_with_symbol_last(extended, symbol);
            lemma_with_symbol_last(orders, symbol);
        }
        assert(is_sorted_by_symbol(orders, sorted));
    }
}

/// Sorts orders by symbol, in the byte-wise order of the symbols. Orders of
/// one symbol stay in the order in which they stood.
pub fn sort_by_symbol(orders: &mut Vec<Order>)
    ensures
        is_sorted_by_symbol(old(orders)@, final(orders)@),
        final(orders)@ == sorted_by_symbol(old(orders)@),
{
    let mut done: usize = 0;
    while done < orders.len()
        invariant
            done <= orders@.len(),
            orders@.len() == old(orders)@.len(),
            symbols_ascend(orders@.subrange(0, done as int)),
            forall|symbol: Seq<char>| #[trigger]
                with_symbol(orders@, symbol) == with_symbol(old(orders)@, symbol),
        decreases orders@.len() - done,
    {
        let mut at: usize = done;
        while at > 0 && !precedes(orders[at - 1].symbol(), orders[done].symbol())
            invariant
                at <= done < orders@.len(),
                forall|k: int|
                    at <= k < done ==> !text_le(
                        (#[trigger] orders@[k])@.symbol,
                        orders@[done as int]@.symbol,
                    ),
            decreases at,
        {
            at = at - 1;
        }
        let ghost before = orders@;
        let ghost moved = before[done as int];
        if at < done {
            let order = orders.remove(done);
            orders.insert(at, order);
        }
        proof {
            let after = orders@;
            assert(after =~= before.remove(done as int).insert(at as int, moved));
            assert forall|k: int| at <= k < done implies (#[trigger] before[k])@.symbol
                != moved@.symbol by {
                lemma_bytes_le_reflexive(encode_utf8(moved@.symbol));
            }
            assert forall|symbol: Seq<char>| #[trigger]
                with_symbol(after, symbol) == with_symbol(old(orders)@, symbol) by {
                lemma_move_keeps_symbols(before, at as int, done as int, symbol);
            }
            lemma_move_keeps_ascending(before, at as int, done as int);
        }
        done = done + 1;
    }
    proof {
        assert(orders@.subrange(0, done as int) =~= orders@);
        lemma_sorted_unique(old(orders)@, orders@);
    }
}

} // verus!
