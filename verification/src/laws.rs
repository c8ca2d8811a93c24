//! What holds of the token's operations whatever the state and the
//! request: who pays what on a taxed move, who is exempt, and what the
//! admin's sets do.

use crate::allowance::BlockInfo;
use crate::error::ContractError;
use crate::message::{MessageView, ResponseView};
use crate::registry::{lemma_insert_idempotent, lemma_remove_undoes_insert};
use crate::tax::post_tax_spec;
use crate::token::{
    aggregator_added, aggregator_removed, exempt_sent, exempt_transferred, moved, recipient_added,
    sent, transferred, transferred_from, Token,
};
use vstd::prelude::*;

verus! {

/// After a move between three different accounts, the sender holds the
/// whole amount less, the recipient holds `post_tax` more, and the
/// treasury holds the rest more; every other account holds what it held.
pub proof fn lemma_move_between_three(
    old: Token,
    new: Token,
    sender: Seq<char>,
    recipient: Seq<char>,
    amount: nat,
    post_tax: nat,
)
    requires
        moved(old, new, sender, recipient, amount, post_tax),
        sender != recipient,
        sender != old.treasury@,
        recipient != old.treasury@,
    ensures
        new.ledger.balance_of(sender) == old.ledger.balance_of(sender) - amount,
        new.ledger.balance_of(recipient) == old.ledger.balance_of(recipient) + post_tax,
        new.ledger.balance_of(old.treasury@) == old.ledger.balance_of(old.treasury@) + (amount
            - post_tax),
        forall|other: Seq<char>|
            other != sender && other != recipient && other != old.treasury@
                ==> #[trigger] new.ledger.balance_of(other) == old.ledger.balance_of(other),
        new.ledger.total_supply() == old.ledger.total_supply(),
{
}

/// A `Transfer` that succeeds, between a sender, a recipient and a
/// treasury that are three different accounts, takes the amount from the
/// sender, gives `floor(amount * (1 - global_rate))` to the recipient and
/// the rest to the treasury.
pub proof fn lemma_transfer_is_taxed(
    old: Token,
    new: Token,
    sender: Seq<char>,
    recipient: Seq<char>,
    amount: nat,
    out: Result<ResponseView, ContractError>,
)
    requires
        transferred(old, new, sender, recipient, amount, out),
        out is Ok,
        sender != recipient,
        sender != old.treasury@,
        recipient != old.treasury@,
    ensures
        new.ledger.balance_of(sender) == old.ledger.balance_of(sender) - amount,
        new.ledger.balance_of(recipient) == old.ledger.balance_of(recipient) + post_tax_spec(
            amount,
            old.tax.global_rate@,
        ),
        new.ledger.balance_of(old.treasury@) == old.ledger.balance_of(old.treasury@) + (amount
            - post_tax_spec(amount, old.tax.global_rate@)),
{
    lemma_move_between_three(
        old,
        new,
        sender,
        recipient,
        amount,
        post_tax_spec(amount, old.tax.global_rate@),
    );
}

/// A `Send` that succeeds is taxed as a `Transfer` is.
pub proof fn lemma_send_is_taxed(
    old: Token,
    new: Token,
    sender: Seq<char>,
    contract: Seq<char>,
    amount: nat,
    payload: Seq<u8>,
    out: Result<ResponseView, ContractError>,
)
    requires
        sent(old, new, sender, contract, amount, payload, out),
        out is Ok,
        sender != contract,
        sender != old.treasury@,
        contract != old.treasury@,
    ensures
        new.ledger.balance_of(sender) == old.ledger.balance_of(sender) - amount,
        new.ledger.balance_of(contract) == old.ledger.balance_of(contract) + post_tax_spec(
            amount,
            old.tax.global_rate@,
        ),
        new.ledger.balance_of(old.treasury@) == old.ledger.balance_of(old.treasury@) + (amount
            - post_tax_spec(amount, old.tax.global_rate@)),
{
    lemma_move_between_three(
        old,
        new,
        sender,
        contract,
        amount,
        post_tax_spec(amount, old.tax.global_rate@),
    );
}

/// A `TransferFrom` that succeeds, to a recipient that is not on the
/// whitelist, is taxed as a `Transfer` is, the owner paying.
pub proof fn lemma_transfer_from_is_taxed(
    old: Token,
    new: Token,
    block: BlockInfo,
    spender: Seq<char>,
    owner: Seq<char>,
    recipient: Seq<char>,
    amount: nat,
    out: Result<ResponseView, ContractError>,
)
    requires
        transferred_from(old, new, block, spender, owner, recipient, amount, out),
        out is Ok,
        !old.tf_recipients@.contains(recipient),
        owner != recipient,
        owner != old.treasury@,
        recipient != old.treasury@,
    ensures
        new.ledger.balance_of(owner) == old.ledger.balance_of(owner) - amount,
        new.ledger.balance_of(recipient) == old.ledger.balance_of(recipient) + post_tax_spec(
            amount,
            old.tax.global_rate@,
        ),
        new.ledger.balance_of(old.treasury@) == old.ledger.balance_of(old.treasury@) + (amount
            - post_tax_spec(amount, old.tax.global_rate@)),
{
    lemma_move_between_three(
        old,
        new,
        owner,
        recipient,
        amount,
        post_tax_spec(amount, old.tax.global_rate@),
    );
}

/// The exempt operations move the whole amount for an aggregator: the
/// recipient gets all of it, the treasury gets nothing and is not told to
/// liquify. For anybody else they fail as unauthorized and change nothing.
pub proof fn lemma_exemption(
    old: Token,
    new: Token,
    sender: Seq<char>,
    recipient: Seq<char>,
    amount: nat,
    payload: Seq<u8>,
    transfer_out: Result<ResponseView, ContractError>,
    send_out: Result<ResponseView, ContractError>,
)
    requires
        sender != recipient,
        sender != old.treasury@,
        recipient != old.treasury@,
    ensures
        exempt_transferred(old, new, sender, recipient, amount, transfer_out)
            && !old.aggregators@.contains(sender) ==> transfer_out == Err::<
            ResponseView,
            ContractError,
        >(ContractError::Unauthorized) && new == old,
        exempt_sent(old, new, sender, recipient, amount, payload, send_out)
            && !old.aggregators@.contains(sender) ==> send_out == Err::<
            ResponseView,
            ContractError,
        >(ContractError::Unauthorized) && new == old,
        exempt_transferred(old, new, sender, recipient, amount, transfer_out)
            && old.aggregators@.contains(sender) && transfer_out is Ok ==> {
            &&& new.ledger.balance_of(sender) == old.ledger.balance_of(sender) - amount
            &&& new.ledger.balance_of(recipient) == old.ledger.balance_of(recipient) + amount
            &&& new.ledger.balance_of(old.treasury@) == old.ledger.balance_of(old.treasury@)
            &&& transfer_out->Ok_0.messages.len() == 0
        },
        exempt_sent(old, new, sender, recipient, amount, payload, send_out)
            && old.aggregators@.contains(sender) && send_out is Ok ==> {
            &&& new.ledger.balance_of(sender) == old.ledger.balance_of(sender) - amount
            &&& new.ledger.balance_of(recipient) == old.ledger.balance_of(recipient) + amount
            &&& new.ledger.balance_of(old.treasury@) == old.ledger.balance_of(old.treasury@)
            &&& send_out->Ok_0.messages.len() == 1
            &&& send_out->Ok_0.messages[0] matches MessageView::Receive { amount: told, .. }
                && told == amount
        },
{
    if exempt_transferred(old, new, sender, recipient, amount, transfer_out)
        && old.aggregators@.contains(sender) && transfer_out is Ok {
        lemma_move_between_three(old, new, sender, recipient, amount, amount);
    }
    if exempt_sent(old, new, sender, recipient, amount, payload, send_out)
        && old.aggregators@.contains(sender) && send_out is Ok {
        lemma_move_between_three(old, new, sender, recipient, amount, amount);
    }
}

/// The whitelist counts for delegated transfers only. A `TransferFrom`
/// that succeeds gives a recipient on the whitelist the whole amount and
/// the treasury nothing; a `Transfer` that succeeds gives the same
/// recipient what it gives anybody: the amount less the tax.
pub proof fn lemma_whitelist_asymmetry(
    old: Token,
    delegated: Token,
    direct: Token,
    block: BlockInfo,
    spender: Seq<char>,
    owner: Seq<char>,
    recipient: Seq<char>,
    amount: nat,
    delegated_out: Result<ResponseView, ContractError>,
    direct_out: Result<ResponseView, ContractError>,
)
    requires
        old.tf_recipients@.contains(recipient),
        owner != recipient,
        owner != old.treasury@,
        recipient != old.treasury@,
        transferred_from(old, delegated, block, spender, owner, recipient, amount, delegated_out),
        transferred(old, direct, owner, recipient, amount, direct_out),
    ensures
        delegated_out is Ok ==> {
            &&& delegated.ledger.balance_of(recipient) == old.ledger.balance_of(recipient)
                + amount
            &&& delegated.ledger.balance_of(old.treasury@) == old.ledger.balance_of(
                old.treasury@,
            )
            &&& delegated.allowances.allowance_of(owner, spender).0
                == old.allowances.allowance_of(owner, spender).0 - amount
        },
        direct_out is Ok ==> {
            &&& direct.ledger.balance_of(recipient) == old.ledger.balance_of(recipient)
                + post_tax_spec(amount, old.tax.global_rate@)
            &&& direct.ledger.balance_of(old.treasury@) == old.ledger.balance_of(old.treasury@)
                + (amount - post_tax_spec(amount, old.tax.global_rate@))
        },
{
    if delegated_out is Ok {
        lemma_move_between_three(old, delegated, owner, recipient, amount, amount);
    }
    if direct_out is Ok {
        lemma_move_between_three(
            old,
            direct,
            owner,
            recipient,
            amount,
            post_tax_spec(amount, old.tax.global_rate@),
        );
    }
}

/// Adding the same address twice, to the aggregators or to the whitelist,
/// leaves the set that adding it once leaves, and both requests succeed.
pub proof fn lemma_adding_twice(
    start: Token,
    once: Token,
    twice: Token,
    admin: Seq<char>,
    address: Seq<char>,
    first: Result<ResponseView, ContractError>,
    second: Result<ResponseView, ContractError>,
)
    requires
        admin == start.admin@,
    ensures
        aggregator_added(start, once, admin, address, first) && aggregator_added(
            once,
            twice,
            admin,
            address,
            second,
        ) ==> first is Ok && second is Ok && twice.aggregators@ == once.aggregators@,
        recipient_added(start, once, admin, address, first) && recipient_added(
            once,
            twice,
            admin,
            address,
            second,
        ) ==> first is Ok && second is Ok && twice.tf_recipients@ == once.tf_recipients@,
{
    lemma_insert_idempotent(start.aggregators@, address);
    lemma_insert_idempotent(start.tf_recipients@, address);
}

/// Only the admin adds an aggregator, and what the admin has added the
/// admin can take back at once: removing an address that was no
/// aggregator before it was added restores the set.
pub proof fn lemma_aggregator_reversible(
    start: Token,
    added: Token,
    removed: Token,
    sender: Seq<char>,
    address: Seq<char>,
    first: Result<ResponseView, ContractError>,
    second: Result<ResponseView, ContractError>,
)
    requires
        aggregator_added(start, added, sender, address, first),
        aggregator_removed(added, removed, sender, address, second),
    ensures
        sender != start.admin@ ==> first == Err::<ResponseView, ContractError>(
            ContractError::Unauthorized,
        ) && added == start,
        sender == start.admin@ ==> first is Ok && second is Ok && added.aggregators@.contains(
            address,
        ) && !removed.aggregators@.contains(address),
        sender == start.admin@ && !start.aggregators@.contains(address) ==> removed.aggregators@
            == start.aggregators@,
{
    if !start.aggregators@.contains(address) {
        lemma_remove_undoes_insert(start.aggregators@, address);
    }
}

} // verus!
