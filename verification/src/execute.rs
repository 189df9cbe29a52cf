//! Scheduling a chain as continuation messages, and the check of the amount
//! received that ends it.

use vstd::prelude::*;
use classic_terraswap::util::assert_deadline;
use crate::asset::{AssetInfo, AssetInfoView, SwapOperation, SwapOperationView, ask_asset, chain_view};
use crate::market::{
    MarketQuery, MarketQueryView, MarketReply, Oracle, amount_reply, answers_all, answers_as, may_answer_amount,
    query_amount,
};
use crate::validate::{InvalidChain, assert_operations, valid_chain};

verus! {

/// Why a chain was not scheduled.
#[derive(Debug, PartialEq, Eq, Clone, Copy)]
pub enum ExecError {
    /// The block time exceeds the deadline.
    Expired,
    /// The chain has no hop.
    Empty,
    /// The chain is not valid.
    InvalidChain(InvalidChain),
    /// The receiver's balance could not be read.
    BalanceQueryFailed,
}

/// Why the check of the amount received failed.
#[derive(Debug, PartialEq, Eq, Clone, Copy)]
pub enum AssertionError {
    /// The receiver's balance could not be read.
    BalanceQueryFailed,
    /// The balance is below the balance recorded before the swaps.
    Underflow,
    /// Less was received than was asked for.
    AssertionFailed { required: u128, actual: u128 },
}

/// A message that the router sends to itself, to be run after it returns.
#[derive(Debug, PartialEq, Eq)]
pub enum ContinuationMessage {
    /// Run one hop; `to` is where what it gives goes, the router itself if absent.
    ExecuteSwapOperation { operation: SwapOperation, to: Option<String>, deadline: Option<u64> },
    /// Check that `receiver` now holds at least `minimum_receive` more of the asset than `prev_balance`.
    AssertMinimumReceive { asset_info: AssetInfo, prev_balance: u128, minimum_receive: u128, receiver: String },
}

/// What a [`ContinuationMessage`] is in contracts.
pub enum ContinuationMessageView {
    ExecuteSwapOperation { operation: SwapOperationView, to: Option<Seq<char>>, deadline: Option<u64> },
    AssertMinimumReceive { asset_info: AssetInfoView, prev_balance: u128, minimum_receive: u128, receiver: Seq<char> },
}

impl View for ContinuationMessage {
    type V = ContinuationMessageView;

    open spec fn view(&self) -> ContinuationMessageView {
        match self {
            ContinuationMessage::ExecuteSwapOperation { operation, to, deadline } => {
                ContinuationMessageView::ExecuteSwapOperation {
                    operation: operation@,
                    to: match to {
                        Some(address) => Some(address@),
                        None => None,
                    },
                    deadline: *deadline,
                }
            },
            ContinuationMessage::AssertMinimumReceive { asset_info, prev_balance, minimum_receive, receiver } => {
                ContinuationMessageView::AssertMinimumReceive {
                    asset_info: asset_info@,
                    prev_balance: *prev_balance,
                    minimum_receive: *minimum_receive,
                    receiver: receiver@,
                }
            },
        }
    }
}

/// A list of messages as the sequence of their views.
pub open spec fn messages_view(messages: Seq<ContinuationMessage>) -> Seq<ContinuationMessageView> {
    Seq::new(messages.len(), |i: int| messages[i]@)
}

/// The view of what scheduling returns.
pub open spec fn schedule_view(result: Result<Vec<ContinuationMessage>, ExecError>) -> Result<
    Seq<ContinuationMessageView>,
    ExecError,
> {
    match result {
        Ok(messages) => Ok(messages_view(messages@)),
        Err(e) => Err(e),
    }
}

/// The deadline, where there is one, has been reached at `blocktime`.
pub open spec fn deadline_reached(blocktime: u64, deadline: Option<u64>) -> bool {
    match deadline {
        Some(limit) => blocktime >= limit,
        None => false,
    }
}

/// The block time exceeds the deadline, where there is one.
pub open spec fn deadline_passed(blocktime: u64, deadline: Option<u64>) -> bool {
    match deadline {
        Some(limit) => blocktime > limit,
        None => false,
    }
}

/// Calls `classic_terraswap::util::assert_deadline` and says whether it
/// refused: it does so exactly when a deadline is given and the block time
/// is not before it.
#[verifier::external_body]
fn deadline_expired(blocktime: u64, deadline: Option<u64>) -> (expired: bool)
    ensures
        expired == deadline_reached(blocktime, deadline),
{
    assert_deadline(blocktime, deadline).is_err()
}

/// One message for each hop, in order; the last one carries the receiver.
pub open spec fn hop_messages(chain: Seq<SwapOperationView>, receiver: Seq<char>) -> Seq<ContinuationMessageView> {
    Seq::new(
        chain.len(),
        |i: int|
            ContinuationMessageView::ExecuteSwapOperation {
                operation: chain[i],
                to: if i + 1 == chain.len() {
                    Some(receiver)
                } else {
                    None
                },
                deadline: None,
            },
    )
}

/// Who receives what the chain gives: `to`, or the sender where none is named.
pub open spec fn receiver_of(sender: Seq<char>, to: Option<Seq<char>>) -> Seq<char> {
    match to {
        Some(address) => address,
        None => sender,
    }
}

/// The question for the balance that `address` holds of the asset.
pub open spec fn balance_query(asset_info: AssetInfoView, address: Seq<char>) -> MarketQueryView {
    MarketQueryView::Balance { asset_info, address }
}

/// The optional address as a character sequence.
pub open spec fn address_view(address: Option<String>) -> Option<Seq<char>> {
    match address {
        Some(text) => Some(text@),
        None => None,
    }
}

/// The messages for the hops, where the chain may be scheduled at all: the
/// deadline, the chain's length and its validity are checked in this order.
pub open spec fn schedule_hops(
    blocktime: u64,
    sender: Seq<char>,
    chain: Seq<SwapOperationView>,
    to: Option<Seq<char>>,
    deadline: Option<u64>,
) -> Result<Seq<ContinuationMessageView>, ExecError> {
    if deadline_passed(blocktime, deadline) {
        Err(ExecError::Expired)
    } else if chain.len() == 0 {
        Err(ExecError::Empty)
    } else if !valid_chain(chain) {
        Err(ExecError::InvalidChain(InvalidChain::MultipleOutputs))
    } else {
        Ok(hop_messages(chain, receiver_of(sender, to)))
    }
}

/// The message that checks the amount received at the end of a chain.
pub open spec fn assertion_message(
    chain: Seq<SwapOperationView>,
    receiver: Seq<char>,
    prev_balance: u128,
    minimum_receive: u128,
) -> ContinuationMessageView {
    ContinuationMessageView::AssertMinimumReceive {
        asset_info: ask_asset(chain.last()),
        prev_balance,
        minimum_receive,
        receiver,
    }
}

/// What scheduling a chain returns: the messages for the hops and, where a
/// minimum is asked for, one more that holds the receiver's balance of the
/// chain's last ask asset as the market gives it now.
pub open spec fn schedule(
    oracle: Oracle,
    blocktime: u64,
    sender: Seq<char>,
    chain: Seq<SwapOperationView>,
    minimum_receive: Option<u128>,
    to: Option<Seq<char>>,
    deadline: Option<u64>,
) -> Result<Seq<ContinuationMessageView>, ExecError> {
    let receiver = receiver_of(sender, to);
    match (schedule_hops(blocktime, sender, chain, to, deadline), minimum_receive) {
        (Err(e), _) => Err(e),
        (Ok(hops), None) => Ok(hops),
        (Ok(hops), Some(minimum)) => match amount_reply(oracle, balance_query(ask_asset(chain.last()), receiver)) {
            None => Err(ExecError::BalanceQueryFailed),
            Some(balance) => Ok(hops.push(assertion_message(chain, receiver, balance, minimum))),
        },
    }
}

/// The messages for the hops of a chain, the last one carrying the receiver.
pub fn hop_continuations(operations: &Vec<SwapOperation>, receiver: &String) -> (messages: Vec<ContinuationMessage>)
    ensures
        messages_view(messages@) == hop_messages(chain_view(operations@), receiver@),
{
    let operations_len = operations.len();
    let ghost planned = hop_messages(chain_view(operations@), receiver@);
    let mut messages: Vec<ContinuationMessage> = Vec::new();
    let mut index: usize = 0;
    while index < operations_len
        invariant
            operations_len == operations@.len(),
            index <= operations_len,
            planned == hop_messages(chain_view(operations@), receiver@),
            messages@.len() == index,
            forall|i: int| 0 <= i < index ==> (#[trigger] messages@[i])@ == planned[i],
        decreases operations_len - index,
    {
        let to = if index + 1 == operations_len {
            Some(receiver.clone())
        } else {
            None
        };
        messages.push(
            ContinuationMessage::ExecuteSwapOperation { operation: operations[index].clone(), to, deadline: None },
        );
        index += 1;
    }
    assert(messages_view(messages@) =~= planned);
    messages
}

/// Schedules a chain: one message for each hop, the last hop sending what it
/// gives to `to` (the sender where none is named), and, where a minimum is
/// asked for, a last message that checks the receiver's balance against the
/// balance read here, before any hop runs.
pub fn execute_swap_operations<F: Fn(MarketQuery) -> Option<MarketReply>>(
    market: &F,
    blocktime: u64,
    sender: String,
    operations: Vec<SwapOperation>,
    minimum_receive: Option<u128>,
    to: Option<String>,
    deadline: Option<u64>,
) -> (result: Result<Vec<ContinuationMessage>, ExecError>)
    requires
        answers_all(*market),
    ensures
        forall|oracle: Oracle| #[trigger]
            answers_as(*market, oracle) ==> schedule_view(result) == schedule(
                oracle,
                blocktime,
                sender@,
                chain_view(operations@),
                minimum_receive,
                address_view(to),
                deadline,
            ),
        deadline_passed(blocktime, deadline) <==> result == Err::<Vec<ContinuationMessage>, ExecError>(
            ExecError::Expired,
        ),
        match (
            schedule_hops(blocktime, sender@, chain_view(operations@), address_view(to), deadline),
            minimum_receive,
            schedule_view(result),
        ) {
            (Err(refused), _, outcome) => outcome == Err::<Seq<ContinuationMessageView>, ExecError>(refused),
            (Ok(hops), None, outcome) => outcome == Ok::<Seq<ContinuationMessageView>, ExecError>(hops),
            (Ok(hops), Some(minimum), Ok(planned)) => exists|balance: u128|
                may_answer_amount(
                    *market,
                    balance_query(
                        ask_asset(chain_view(operations@).last()),
                        receiver_of(sender@, address_view(to)),
                    ),
                    balance,
                ) && planned == hops.push(
                    #[trigger] assertion_message(
                        chain_view(operations@),
                        receiver_of(sender@, address_view(to)),
                        balance,
                        minimum,
                    ),
                ),
            (Ok(hops), Some(minimum), Err(failed)) => failed == ExecError::BalanceQueryFailed,
        },
{
    // A deadline still holds at its own time: it is passed once the time before has reached it.
    if blocktime > 0 && deadline_expired(blocktime - 1, deadline) {
        return Err(ExecError::Expired);
    }
    let operations_len = operations.len();
    if operations_len == 0 {
        return Err(ExecError::Empty);
    }
    match assert_operations(operations.as_slice()) {
        Err(e) => {
            return Err(ExecError::InvalidChain(e));
        },
        Ok(()) => {},
    }
    let ghost receiver_view = receiver_of(sender@, address_view(to));
    let receiver = match to {
        Some(address) => address,
        None => sender,
    };
    let target_asset_info = operations[operations_len - 1].get_target_asset_info();
    // The balance is read before any message is made.
    let snapshot = match minimum_receive {
        None => None,
        Some(minimum) => match query_amount(
            market,
            MarketQuery::Balance { asset_info: target_asset_info.clone(), address: receiver.clone() },
        ) {
            None => {
                return Err(ExecError::BalanceQueryFailed);
            },
            Some(balance) => Some((minimum, balance)),
        },
    };
    let mut messages = hop_continuations(&operations, &receiver);
    let ghost hops = messages_view(messages@);
    if let Some((minimum, balance)) = snapshot {
        messages.push(
            ContinuationMessage::AssertMinimumReceive {
                asset_info: target_asset_info,
                prev_balance: balance,
                minimum_receive: minimum,
                receiver,
            },
        );
        proof {
            let planned = messages_view(messages@);
            let check = assertion_message(chain_view(operations@), receiver_view, balance, minimum);
            assert(planned.last() == check);
            assert(planned =~= hops.push(check));
        }
    }
    Ok(messages)
}

/// What the check of the amount received answers, given the receiver's
/// balance now and before the swaps.
pub open spec fn minimum_receive_check(current_balance: u128, prev_balance: u128, minimum_receive: u128) -> Result<
    (),
    AssertionError,
> {
    if current_balance < prev_balance {
        Err(AssertionError::Underflow)
    } else if current_balance - prev_balance < minimum_receive {
        Err(
            AssertionError::AssertionFailed {
                required: minimum_receive,
                actual: (current_balance - prev_balance) as u128,
            },
        )
    } else {
        Ok(())
    }
}

/// Checks that the balance has grown by at least `minimum_receive`.
pub fn check_minimum_receive(current_balance: u128, prev_balance: u128, minimum_receive: u128) -> (result: Result<
    (),
    AssertionError,
>)
    ensures
        result == minimum_receive_check(current_balance, prev_balance, minimum_receive),
{
    if current_balance < prev_balance {
        return Err(AssertionError::Underflow);
    }
    let swap_amount = current_balance - prev_balance;
    if swap_amount < minimum_receive {
        return Err(AssertionError::AssertionFailed { required: minimum_receive, actual: swap_amount });
    }
    Ok(())
}

/// The check fails exactly when the balance has grown by less than the
/// minimum, a fallen balance included; growth by exactly the minimum passes.
pub proof fn lemma_minimum_receive_boundary(current_balance: u128, prev_balance: u128, minimum_receive: u128)
    ensures
        minimum_receive_check(current_balance, prev_balance, minimum_receive) is Err <==> current_balance
            - prev_balance < minimum_receive,
        current_balance - prev_balance == minimum_receive ==> minimum_receive_check(
            current_balance,
            prev_balance,
            minimum_receive,
        ) == Ok::<(), AssertionError>(()),
{
}

/// Reads the receiver's balance of the asset and checks that it has grown by
/// at least `minimum_receive` since `prev_balance` was recorded.
pub fn assert_minimum_receive<F: Fn(MarketQuery) -> Option<MarketReply>>(
    market: &F,
    asset_info: AssetInfo,
    prev_balance: u128,
    minimum_receive: u128,
    receiver: String,
) -> (result: Result<(), AssertionError>)
    requires
        answers_all(*market),
    ensures
        forall|oracle: Oracle| #[trigger]
            answers_as(*market, oracle) ==> result == match amount_reply(
                oracle,
                balance_query(asset_info@, receiver@),
            ) {
                None => Err(AssertionError::BalanceQueryFailed),
                Some(current_balance) => minimum_receive_check(current_balance, prev_balance, minimum_receive),
            },
        result == Err::<(), AssertionError>(AssertionError::BalanceQueryFailed) || exists|current_balance: u128|
            may_answer_amount(*market, balance_query(asset_info@, receiver@), current_balance) && result
                == #[trigger] minimum_receive_check(current_balance, prev_balance, minimum_receive),
{
    match query_amount(market, MarketQuery::Balance { asset_info, address: receiver }) {
        None => Err(AssertionError::BalanceQueryFailed),
        Some(current_balance) => check_minimum_receive(current_balance, prev_balance, minimum_receive),
    }
}

} // verus!
