//! Routing a command: which calls it makes, and what comes of the answers.
//!
//! A command runs through a small state machine. It starts as parsed; when it
//! is dispatched it names the calls to make; each answer is delivered as an
//! event; and it ends as completed, with the text to write, or as failed, with
//! one message. Making the calls is left to the caller.

use crate::account::{format_account, report_text, Account};
use crate::decimal::Decimal;
use crate::id::{hyphenated_text, OrderId};
use crate::listing::{format_listing, listing_rows, texts};
use crate::order::{Order, OrderRequest, OrderType, Side, TimeInForce};
use vstd::prelude::*;

verus! {

/// The number of orders that a listing asks for.
pub const LISTING_LIMIT: u64 = 500;

/// What is asked of an order.
#[derive(Debug)]
pub enum OrderCommand {
    /// Submit an order.
    Submit {
        /// The side of the order.
        side: Side,
        /// The symbol of the asset involved in the order.
        symbol: String,
        /// The quantity to trade.
        quantity: u64,
        /// The limit price of a limit order or stop-limit order.
        limit_price: Option<Decimal>,
        /// The stop price of a stop order or stop-limit order.
        stop_price: Option<Decimal>,
        /// Whether the order is valid for today only.
        today: bool,
    },
    /// Cancel an order.
    Cancel {
        /// The identifier of the order.
        id: OrderId,
    },
    /// List the open orders.
    List,
}

/// A command, as the command line gives it.
#[derive(Debug)]
pub enum Command {
    /// Retrieve information about the account.
    Account,
    /// Perform an order related function.
    Order(OrderCommand),
}

/// The four calls that the service takes.
#[derive(Clone, Copy, Debug, PartialEq, Eq, Structural)]
pub enum CallKind {
    /// Get the account.
    GetAccount,
    /// Create an order.
    CreateOrder,
    /// Delete an order.
    DeleteOrder,
    /// List the orders.
    ListOrders,
}

/// A call to make, with what it sends.
#[derive(Debug)]
pub enum Call {
    /// Get the account.
    GetAccount,
    /// Create the order of a request.
    CreateOrder(OrderRequest),
    /// Delete the order of an identifier.
    DeleteOrder(OrderId),
    /// List the orders, at most `limit` of them.
    ListOrders {
        /// The greatest number of orders to list.
        limit: u64,
    },
}

/// Why a call gave no answer to work with, in the words of the transport.
#[derive(Clone, Debug, PartialEq, Eq)]
pub enum Failure {
    /// The call could not be sent.
    Issue(String),
    /// The call was sent, and the answer was an error or could not be read.
    Response(String),
}

/// How a call ended.
#[derive(Debug)]
pub enum Event {
    /// The account was asked for.
    Account(Result<Account, Failure>),
    /// An order was to be created; on success, its identifier.
    Created(Result<OrderId, Failure>),
    /// An order was to be canceled.
    Canceled(Result<(), Failure>),
    /// The orders were asked for.
    Orders(Result<Vec<Order>, Failure>),
}

/// What a dispatched command still waits for.
#[derive(Debug)]
pub enum Pending {
    /// The account, to report it.
    Account,
    /// The order that was submitted.
    Submission,
    /// The cancellation.
    Cancellation,
    /// The account and the orders, to list the orders; each is kept when it
    /// has come.
    Listing { account: Option<Account>, orders: Option<Vec<Order>> },
}

/// The state of a command.
#[derive(Debug)]
pub enum State {
    /// Parsed, and not yet dispatched.
    Parsed(Command),
    /// Dispatched: the calls are named, and not all have been answered.
    Dispatched(Pending),
    /// Completed, with the text to write to the standard output.
    Completed(String),
    /// Failed, with the message to write to the error stream.
    Failed(String),
}

/// A [`State`], with its texts as sequences of characters.
pub enum StateView {
    Parsed(Command),
    Dispatched(Pending),
    Completed(Seq<char>),
    Failed(Seq<char>),
}

impl View for State {
    type V = StateView;

    open spec fn view(&self) -> StateView {
        match *self {
            State::Parsed(command) => StateView::Parsed(command),
            State::Dispatched(pending) => StateView::Dispatched(pending),
            State::Completed(output) => StateView::Completed(output@),
            State::Failed(message) => StateView::Failed(message@),
        }
    }
}

impl CallKind {
    /// The method of the request.
    pub open spec fn method(self) -> Seq<char> {
        match self {
            CallKind::GetAccount => "GET"@,
            CallKind::CreateOrder => "POST"@,
            CallKind::DeleteOrder => "DELETE"@,
            CallKind::ListOrders => "GET"@,
        }
    }

    /// The name of the endpoint.
    pub open spec fn endpoint(self) -> Seq<char> {
        match self {
            CallKind::GetAccount => "account"@,
            CallKind::CreateOrder => "order"@,
            CallKind::DeleteOrder => "order"@,
            CallKind::ListOrders => "orders"@,
        }
    }

    /// What the call is made for.
    pub open spec fn purpose(self) -> Seq<char> {
        match self {
            CallKind::GetAccount => "retrieve account information"@,
            CallKind::CreateOrder => "submit order"@,
            CallKind::DeleteOrder => "cancel order"@,
            CallKind::ListOrders => "list orders"@,
        }
    }

    /// The method of the request.
    pub fn method_str(self) -> (text: &'static str)
        ensures
            text@ == self.method(),
    {
        match self {
            CallKind::GetAccount => "GET",
            CallKind::CreateOrder => "POST",
            CallKind::DeleteOrder => "DELETE",
            CallKind::ListOrders => "GET",
        }
    }

    /// The name of the endpoint.
    pub fn endpoint_str(self) -> (text: &'static str)
        ensures
            text@ == self.endpoint(),
    {
        match self {
            CallKind::GetAccount => "account",
            CallKind::CreateOrder => "order",
            CallKind::DeleteOrder => "order",
            CallKind::ListOrders => "orders",
        }
    }

    /// What the call is made for.
    pub fn purpose_str(self) -> (text: &'static str)
        ensures
            text@ == self.purpose(),
    {
        match self {
            CallKind::GetAccount => "retrieve account information",
            CallKind::CreateOrder => "submit order",
            CallKind::DeleteOrder => "cancel order",
            CallKind::ListOrders => "list orders",
        }
    }
}

impl Call {
    /// Which of the four calls this is.
    pub open spec fn kind_of(self) -> CallKind {
        match self {
            Call::GetAccount => CallKind::GetAccount,
            Call::CreateOrder(_) => CallKind::CreateOrder,
            Call::DeleteOrder(_) => CallKind::DeleteOrder,
            Call::ListOrders { .. } => CallKind::ListOrders,
        }
    }

    /// Which of the four calls this is.
    pub fn kind(&self) -> (kind: CallKind)
        ensures
            kind == self.kind_of(),
    {
        match self {
            Call::GetAccount => CallKind::GetAccount,
            Call::CreateOrder(_) => CallKind::CreateOrder,
            Call::DeleteOrder(_) => CallKind::DeleteOrder,
            Call::ListOrders { .. } => CallKind::ListOrders,
        }
    }
}

/// The message for a call that failed: what was attempted, a colon, and the
/// transport's own words.
pub open spec fn failure_text(kind: CallKind, failure: Failure) -> Seq<char> {
    match failure {
        Failure::Issue(detail) => "failed to issue "@ + kind.method() + " request to "@
            + kind.endpoint() + " endpoint: "@ + detail@,
        Failure::Response(detail) => "failed to "@ + kind.purpose() + ": "@ + detail@,
    }
}

/// Writes the message for a call that failed.
pub fn describe_failure(kind: CallKind, failure: &Failure) -> (message: String)
    ensures
        message@ == failure_text(kind, *failure),
{
    match failure {
        Failure::Issue(detail) => {
            let mut message: String = "failed to issue ".to_owned();
            message.append(kind.method_str());
            message.append(" request to ");
            message.append(kind.endpoint_str());
            message.append(" endpoint: ");
            message.append(detail.as_str());
            message
        },
        Failure::Response(detail) => {
            let mut message: String = "failed to ".to_owned();
            message.append(kind.purpose_str());
            message.append(": ");
            message.append(detail.as_str());
            message
        },
    }
}

/// Lines of text, each with a line feed behind it.
pub open spec fn lines_text(lines: Seq<Seq<char>>) -> Seq<char>
    decreases lines.len(),
{
    if lines.len() == 0 {
        Seq::empty()
    } else {
        lines_text(lines.drop_last()) + lines.last() + "\n"@
    }
}

/// Writes lines of text, each with a line feed behind it.
pub fn join_lines(lines: &Vec<String>) -> (text: String)
    ensures
        text@ == lines_text(texts(lines@)),
{
    let ghost all = texts(lines@);
    let mut text = String::new();
    let mut at: usize = 0;
    assert(all.take(0) =~= Seq::<Seq<char>>::empty());
    while at < lines.len()
        invariant
            at <= lines@.len(),
            all == texts(lines@),
            text@ == lines_text(all.take(at as int)),
        decreases lines@.len() - at,
    {
        text.append(lines[at].as_str());
        text.append("\n");
        proof {
            let taken = all.take(at + 1);
            assert(taken.drop_last() =~= all.take(at as int));
            assert(taken.last() == lines@[at as int]@);
        }
        at = at + 1;
    }
    assert(all.take(at as int) =~= all);
    text
}

/// What is written when the account was retrieved: its report.
pub open spec fn account_output(account: Account) -> Seq<char> {
    report_text(account@) + "\n"@
}

/// What is written when an order was submitted: its identifier.
pub open spec fn submission_output(id: OrderId) -> Seq<char> {
    hyphenated_text(id@) + "\n"@
}

/// What is written when the account and the orders were retrieved: the
/// listing of the orders, with the prices in the account's currency.
pub open spec fn listing_output(account: Account, orders: Vec<Order>) -> Seq<char> {
    lines_text(listing_rows(orders@, account.currency@))
}

impl Event {
    /// The call that ended.
    pub open spec fn kind_of(self) -> CallKind {
        match self {
            Event::Account(_) => CallKind::GetAccount,
            Event::Created(_) => CallKind::CreateOrder,
            Event::Canceled(_) => CallKind::DeleteOrder,
            Event::Orders(_) => CallKind::ListOrders,
        }
    }

    /// Why the call failed, if it did.
    pub open spec fn failure(self) -> Option<Failure> {
        match self {
            Event::Account(Err(failure)) => Some(failure),
            Event::Created(Err(failure)) => Some(failure),
            Event::Canceled(Err(failure)) => Some(failure),
            Event::Orders(Err(failure)) => Some(failure),
            _ => None,
        }
    }
}

impl Pending {
    /// Whether the answer of a call is waited for.
    pub open spec fn awaits(self, kind: CallKind) -> bool {
        match self {
            Pending::Account => kind == CallKind::GetAccount,
            Pending::Submission => kind == CallKind::CreateOrder,
            Pending::Cancellation => kind == CallKind::DeleteOrder,
            Pending::Listing { account, orders } => (kind == CallKind::GetAccount
                && account is None) || (kind == CallKind::ListOrders && orders is None),
        }
    }

    /// The state after an answer that was waited for and is no failure: the
    /// command is completed, unless a listing still waits for the other
    /// answer.
    pub open spec fn advanced(self, event: Event) -> StateView {
        match (self, event) {
            (Pending::Account, Event::Account(Ok(account))) => StateView::Completed(
                account_output(account),
            ),
            (Pending::Submission, Event::Created(Ok(id))) => StateView::Completed(
                submission_output(id),
            ),
            (Pending::Cancellation, Event::Canceled(Ok(_))) => StateView::Completed(Seq::empty()),
            (Pending::Listing { account: None, orders: Some(orders) }, Event::Account(Ok(account))) =>
                StateView::Completed(listing_output(account, orders)),
            (Pending::Listing { account: None, orders: None }, Event::Account(Ok(account))) =>
                StateView::Dispatched(Pending::Listing { account: Some(account), orders: None }),
            (Pending::Listing { account: Some(account), orders: None }, Event::Orders(Ok(orders))) =>
                StateView::Completed(listing_output(account, orders)),
            (Pending::Listing { account: None, orders: None }, Event::Orders(Ok(orders))) =>
                StateView::Dispatched(Pending::Listing { account: None, orders: Some(orders) }),
            _ => StateView::Dispatched(self),
        }
    }
}

/// The request that a submission makes.
pub open spec fn request_of(
    side: Side,
    symbol: String,
    quantity: u64,
    limit_price: Option<Decimal>,
    stop_price: Option<Decimal>,
    today: bool,
) -> OrderRequest {
    OrderRequest {
        symbol,
        quantity,
        side,
        type_: OrderType::inferred(limit_price is Some, stop_price is Some),
        time_in_force: TimeInForce::chosen(today),
        limit_price,
        stop_price,
    }
}

impl Command {
    /// The calls that a command makes, in the order in which they are made.
    pub open spec fn calls(self) -> Seq<Call> {
        match self {
            Command::Account => seq![Call::GetAccount],
            Command::Order(OrderCommand::Submit {
                side,
                symbol,
                quantity,
                limit_price,
                stop_price,
                today,
            }) => seq![
                Call::CreateOrder(
                    request_of(side, symbol, quantity, limit_price, stop_price, today),
                ),
            ],
            Command::Order(OrderCommand::Cancel { id }) => seq![Call::DeleteOrder(id)],
            Command::Order(OrderCommand::List) => seq![
                Call::GetAccount,
                Call::ListOrders { limit: LISTING_LIMIT },
            ],
        }
    }

    /// What a command waits for once its calls are made.
    pub open spec fn pending(self) -> Pending {
        match self {
            Command::Account => Pending::Account,
            Command::Order(OrderCommand::Submit { .. }) => Pending::Submission,
            Command::Order(OrderCommand::Cancel { .. }) => Pending::Cancellation,
            Command::Order(OrderCommand::List) => Pending::Listing { account: None, orders: None },
        }
    }
}

impl StateView {
    /// Whether the command has ended.
    pub open spec fn is_terminal(self) -> bool {
        self is Completed || self is Failed
    }

    /// The state after a dispatch, and the calls to make. Only a parsed
    /// command is dispatched; any other state stays, and no call is made.
    pub open spec fn dispatched(self) -> (StateView, Seq<Call>) {
        match self {
            StateView::Parsed(command) => (
                StateView::Dispatched(command.pending()),
                command.calls(),
            ),
            _ => (self, Seq::empty()),
        }
    }

    /// The state after an event. An answer that a dispatched command waits
    /// for fails it, if it is a failure, and else advances it; any other
    /// event leaves the state as it is.
    pub open spec fn delivered(self, event: Event) -> StateView {
        match self {
            StateView::Dispatched(pending) => if !pending.awaits(event.kind_of()) {
                self
            } else {
                match event.failure() {
                    Some(failure) => StateView::Failed(failure_text(event.kind_of(), failure)),
                    None => pending.advanced(event),
                }
            },
            _ => self,
        }
    }
}

/// Writes what is listed of the orders, with the prices in the account's
/// currency.
fn write_listing(account: Account, orders: Vec<Order>) -> (output: String)
    ensures
        output@ == listing_output(account, orders),
{
    let rows = format_listing(account.currency.as_str(), orders);
    join_lines(&rows)
}

impl State {
    /// The state of a command that was parsed.
    pub fn new(command: Command) -> (state: State)
        ensures
            state@ == StateView::Parsed(command),
    {
        State::Parsed(command)
    }

    /// Dispatches a parsed command: names the calls to make, in their order,
    /// and waits for their answers. Any other state stays as it is, and no
    /// call is named.
    pub fn dispatch(self) -> (next: (State, Vec<Call>))
        ensures
            (next.0@, next.1@) == self@.dispatched(),
    {
        match self {
            State::Parsed(command) => {
                let mut calls: Vec<Call> = Vec::new();
                let pending = match command {
                    Command::Account => {
                        calls.push(Call::GetAccount);
                        Pending::Account
                    },
                    Command::Order(OrderCommand::Submit {
                        side,
                        symbol,
                        quantity,
                        limit_price,
                        stop_price,
                        today,
                    }) => {
                        let request = OrderRequest::new(
                            side,
                            symbol,
                            quantity,
                            limit_price,
                            stop_price,
                            today,
                        );
                        calls.push(Call::CreateOrder(request));
                        Pending::Submission
                    },
                    Command::Order(OrderCommand::Cancel { id }) => {
                        calls.push(Call::DeleteOrder(id));
                        Pending::Cancellation
                    },
                    Command::Order(OrderCommand::List) => {
                        calls.push(Call::GetAccount);
                        calls.push(Call::ListOrders { limit: LISTING_LIMIT });
                        Pending::Listing { account: None, orders: None }
                    },
                };
                assert(calls@ =~= command.calls());
                (State::Dispatched(pending), calls)
            },
            other => {
                let calls: Vec<Call> = Vec::new();
                assert(calls@ =~= Seq::<Call>::empty());
                (other, calls)
            },
        }
    }

    /// Delivers the end of a call. An answer that the command waits for
    /// completes it, or fails it with the message of [`failure_text`]; of the
    /// two answers that a listing waits for, the first that is no failure is
    /// kept, in either order. Any other event leaves the state as it is: a
    /// command that has ended stays ended.
    pub fn deliver(self, event: Event) -> (next: State)
        ensures
            next@ == self@.delivered(event),
    {
        match self {
            State::Dispatched(pending) => match (pending, event) {
                (Pending::Account, Event::Account(answer)) => match answer {
                    Ok(account) => {
                        let mut output: String = format_account(&account);
                        output.append("\n");
                        State::Completed(output)
                    },
                    Err(failure) => State::Failed(
                        describe_failure(CallKind::GetAccount, &failure),
                    ),
                },
                (Pending::Submission, Event::Created(answer)) => match answer {
                    Ok(id) => {
                        let mut output: String = id.to_hyphenated();
                        output.append("\n");
                        State::Completed(output)
                    },
                    Err(failure) => State::Failed(
                        describe_failure(CallKind::CreateOrder, &failure),
                    ),
                },
                (Pending::Cancellation, Event::Canceled(answer)) => match answer {
                    Ok(_) => State::Completed(String::new()),
                    Err(failure) => State::Failed(
                        describe_failure(CallKind::DeleteOrder, &failure),
                    ),
                },
                (Pending::Listing { account: None, orders }, Event::Account(answer)) => match answer {
                    Ok(account) => match orders {
                        Some(orders) => State::Completed(write_listing(account, orders)),
                        None => State::Dispatched(
                            Pending::Listing { account: Some(account), orders: None },
                        ),
                    },
                    Err(failure) => State::Failed(
                        describe_failure(CallKind::GetAccount, &failure),
                    ),
                },
                (Pending::Listing { account, orders: None }, Event::Orders(answer)) => match answer {
                    Ok(orders) => match account {
                        Some(account) => State::Completed(write_listing(account, orders)),
                        None => State::Dispatched(
                            Pending::Listing { account: None, orders: Some(orders) },
                        ),
                    },
                    Err(failure) => State::Failed(
                        describe_failure(CallKind::ListOrders, &failure),
                    ),
                },
                (pending, _) => State::Dispatched(pending),
            },
            other => other,
        }
    }

    /// The exit code of a command that has ended: 0 when it completed, 1 when
    /// it failed. `None` while it has not ended.
    pub fn exit_code(&self) -> (code: Option<u8>)
        ensures
            self@ is Completed ==> code == Some(0u8),
            self@ is Failed ==> code == Some(1u8),
            !self@.is_terminal() ==> code is None,
    {
        match self {
            State::Completed(_) => Some(0),
            State::Failed(_) => Some(1),
            _ => None,
        }
    }
}

/// A command that has ended stays as it ended, whatever is delivered.
pub proof fn lemma_ended_stays(state: StateView, event: Event)
    requires
        state.is_terminal(),
    ensures
        state.delivered(event) == state,
{
}

/// A failure of a call that is waited for fails the command at once, with
/// the message for that call, and nothing is written.
pub proof fn lemma_failure_fails(pending: Pending, event: Event)
    requires
        pending.awaits(event.kind_of()),
        event.failure() is Some,
    ensures
        StateView::Dispatched(pending).delivered(event) == StateView::Failed(
            failure_text(event.kind_of(), event.failure().unwrap()),
        ),
{
}

/// A listing does not depend on which answer comes first: the account and
/// then the orders, or the orders and then the account, complete it with the
/// same text, and until both have come nothing is written.
pub proof fn lemma_listing_joins(account: Account, orders: Vec<Order>)
    ensures
        ({
            let start = StateView::Dispatched(Pending::Listing { account: None, orders: None });
            let account_first = start.delivered(Event::Account(Ok(account)));
            let orders_first = start.delivered(Event::Orders(Ok(orders)));
            &&& account_first is Dispatched
            &&& orders_first is Dispatched
            &&& account_first.delivered(Event::Orders(Ok(orders))) == StateView::Completed(
                listing_output(account, orders),
            )
            &&& orders_first.delivered(Event::Account(Ok(account))) == StateView::Completed(
                listing_output(account, orders),
            )
        }),
{
}

} // verus!
