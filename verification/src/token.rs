//! The token's tax engine: every way tokens move, what each withholds for
//! the treasury, and who is exempt.

use crate::allowance::{Allowances, BlockInfo, Expiration};
use crate::error::{ContractError, ValidationFault};
use crate::ledger::Ledger;
use crate::message::{
    AttributeView, Cw20HookMsg, Message, MessageView, Payload, PayloadView, Response,
    ResponseView,
};
use crate::rate::{Rate, DECIMAL_FRACTIONAL};
use crate::registry::AddressSet;
use crate::tax::{post_tax_spec, TaxConfig};
use crate::text::{amount_text, clone_text, decimal_text};
use vstd::prelude::*;

verus! {

/// The state of the token: its accounts and allowances, its tax rates,
/// and the sets of addresses that are exempt.
#[derive(Debug, PartialEq, Eq)]
pub struct Token {
    /// The one address that may change rates and sets.
    pub admin: String,
    /// The account that collects the tax.
    pub treasury: String,
    /// The four rates.
    pub tax: TaxConfig,
    /// Who holds how much.
    pub ledger: Ledger,
    /// Who lets whom move how much.
    pub allowances: Allowances,
    /// The senders that may move tokens untaxed by the exempt operations.
    pub aggregators: AddressSet,
    /// The recipients to whom delegated transfers are not taxed.
    pub tf_recipients: AddressSet,
}

/// The value of an outcome.
pub open spec fn outcome_view(out: Result<Response, ContractError>) -> Result<
    ResponseView,
    ContractError,
> {
    match out {
        Ok(response) => Ok(response@),
        Err(e) => Err(e),
    }
}

/// The balance of `account` after `amount` has left `sender`, `post_tax`
/// of it has reached `recipient`, and the rest has reached `treasury`,
/// where it held `before`.
pub open spec fn settled(
    before: nat,
    account: Seq<char>,
    sender: Seq<char>,
    recipient: Seq<char>,
    treasury: Seq<char>,
    amount: nat,
    post_tax: nat,
) -> int {
    before - (if account == sender {
        amount as int
    } else {
        0
    }) + (if account == recipient {
        post_tax as int
    } else {
        0
    }) + (if account == treasury {
        amount - post_tax
    } else {
        0
    })
}

/// Whether `new` differs from `old` in its balances alone, and in those
/// by the move of `amount` from `sender`, of which `post_tax` reaches
/// `recipient` and the rest the treasury. The total supply is the same.
pub open spec fn moved(
    old: Token,
    new: Token,
    sender: Seq<char>,
    recipient: Seq<char>,
    amount: nat,
    post_tax: nat,
) -> bool {
    &&& forall|account: Seq<char>| #[trigger]
        new.ledger.balance_of(account) == settled(
            old.ledger.balance_of(account),
            account,
            sender,
            recipient,
            old.treasury@,
            amount,
            post_tax,
        )
    &&& new.ledger.total_supply() == old.ledger.total_supply()
    &&& settings_kept(old, new)
}

/// Whether `new` has the admin, the treasury, the rates and the sets of
/// `old`.
pub open spec fn settings_kept(old: Token, new: Token) -> bool {
    &&& new.admin@ == old.admin@
    &&& new.treasury@ == old.treasury@
    &&& new.tax == old.tax
    &&& new.aggregators@ == old.aggregators@
    &&& new.tf_recipients@ == old.tf_recipients@
}

/// The attributes of a move: the action, from whom, to whom, by whom
/// where another than the owner moved, the amount credited to the
/// recipient, the nominal amount, and once more the amount after tax.
pub open spec fn moved_attributes(
    action: Seq<char>,
    from: Seq<char>,
    to: Seq<char>,
    by: Option<Seq<char>>,
    amount: nat,
    post_tax: nat,
) -> Seq<AttributeView> {
    let lead = seq![
        AttributeView { key: "action"@, value: action },
        AttributeView { key: "from"@, value: from },
        AttributeView { key: "to"@, value: to },
    ];
    let who = match by {
        Some(spender) => seq![AttributeView { key: "by"@, value: spender }],
        None => Seq::empty(),
    };
    lead + who + seq![
        AttributeView { key: "amount"@, value: decimal_text(post_tax) },
        AttributeView { key: "amount"@, value: decimal_text(amount) },
        AttributeView { key: "post_tax_amount"@, value: decimal_text(post_tax) },
    ]
}

/// The message that tells the treasury to liquify what it has collected:
/// dispatched whenever a move has withheld something.
pub open spec fn treasury_hook(treasury: Seq<char>, sender: Seq<char>, tax_cut: nat) -> Seq<
    MessageView,
> {
    if tax_cut == 0 {
        Seq::empty()
    } else {
        seq![
            MessageView::Receive {
                contract: treasury,
                sender,
                amount: tax_cut,
                msg: PayloadView::Hook(Cw20HookMsg::Liquify),
            },
        ]
    }
}

/// The message that tells `contract` what `sender` has sent it.
pub open spec fn notification(
    contract: Seq<char>,
    sender: Seq<char>,
    amount: nat,
    payload: Seq<u8>,
) -> MessageView {
    MessageView::Receive { contract, sender, amount, msg: PayloadView::Raw(payload) }
}

/// What a move of `amount` from `sender` to `recipient` does, of which
/// `post_tax` arrives: it fails, changing nothing, where `sender` holds
/// less; else the balances change as [`moved`] says, `lead` and then the
/// treasury's hook are dispatched, and the move is reported.
pub open spec fn move_outcome(
    old: Token,
    new: Token,
    action: Seq<char>,
    sender: Seq<char>,
    recipient: Seq<char>,
    amount: nat,
    post_tax: nat,
    lead: Seq<MessageView>,
    out: Result<ResponseView, ContractError>,
) -> bool {
    if amount > old.ledger.balance_of(sender) {
        out == Err::<ResponseView, ContractError>(ContractError::InsufficientFunds) && new == old
    } else {
        &&& moved(old, new, sender, recipient, amount, post_tax)
        &&& new.allowances == old.allowances
        &&& out == Ok::<ResponseView, ContractError>(
            ResponseView {
                messages: lead + treasury_hook(old.treasury@, sender, (amount - post_tax) as nat),
                attributes: moved_attributes(action, sender, recipient, None, amount, post_tax),
            },
        )
    }
}

/// What `Transfer` does: the tax at the global rate is withheld.
pub open spec fn transferred(
    old: Token,
    new: Token,
    sender: Seq<char>,
    recipient: Seq<char>,
    amount: nat,
    out: Result<ResponseView, ContractError>,
) -> bool {
    move_outcome(
        old,
        new,
        "transfer"@,
        sender,
        recipient,
        amount,
        post_tax_spec(amount, old.tax.global_rate@),
        Seq::empty(),
        out,
    )
}

/// What `Send` does: the tax at the global rate is withheld, and the
/// receiving contract is told what arrived.
pub open spec fn sent(
    old: Token,
    new: Token,
    sender: Seq<char>,
    contract: Seq<char>,
    amount: nat,
    payload: Seq<u8>,
    out: Result<ResponseView, ContractError>,
) -> bool {
    let post_tax = post_tax_spec(amount, old.tax.global_rate@);
    move_outcome(
        old,
        new,
        "send"@,
        sender,
        contract,
        amount,
        post_tax,
        seq![notification(contract, sender, post_tax, payload)],
        out,
    )
}

/// What `TaxExemptTransfer` does: for an aggregator the whole amount
/// arrives; anybody else is refused.
pub open spec fn exempt_transferred(
    old: Token,
    new: Token,
    sender: Seq<char>,
    recipient: Seq<char>,
    amount: nat,
    out: Result<ResponseView, ContractError>,
) -> bool {
    if !old.aggregators@.contains(sender) {
        out == Err::<ResponseView, ContractError>(ContractError::Unauthorized) && new == old
    } else {
        move_outcome(old, new, "transfer"@, sender, recipient, amount, amount, Seq::empty(), out)
    }
}

/// What `TaxExemptSend` does: for an aggregator the whole amount arrives,
/// and the receiving contract is told so; anybody else is refused.
pub open spec fn exempt_sent(
    old: Token,
    new: Token,
    sender: Seq<char>,
    contract: Seq<char>,
    amount: nat,
    payload: Seq<u8>,
    out: Result<ResponseView, ContractError>,
) -> bool {
    if !old.aggregators@.contains(sender) {
        out == Err::<ResponseView, ContractError>(ContractError::Unauthorized) && new == old
    } else {
        move_outcome(
            old,
            new,
            "send"@,
            sender,
            contract,
            amount,
            amount,
            seq![notification(contract, sender, amount, payload)],
            out,
        )
    }
}

/// What `TransferFrom` by `spender` does in `block`. It fails, changing
/// nothing, where the allowance has run out, where it is less than
/// `amount`, or where `owner` holds less. Else the allowance shrinks by
/// the whole `amount`, and the tokens move: untaxed to a recipient of the
/// whitelist, less the tax at the global rate to anybody else.
pub open spec fn transferred_from(
    old: Token,
    new: Token,
    block: BlockInfo,
    spender: Seq<char>,
    owner: Seq<char>,
    recipient: Seq<char>,
    amount: nat,
    out: Result<ResponseView, ContractError>,
) -> bool {
    let allowance = old.allowances.allowance_of(owner, spender);
    let post_tax = if old.tf_recipients@.contains(recipient) {
        amount
    } else {
        post_tax_spec(amount, old.tax.global_rate@)
    };
    if allowance.1.expired_at(block) {
        out == Err::<ResponseView, ContractError>(ContractError::AllowanceExpired) && new == old
    } else if amount > allowance.0 {
        out == Err::<ResponseView, ContractError>(ContractError::InsufficientAllowance) && new
            == old
    } else if amount > old.ledger.balance_of(owner) {
        out == Err::<ResponseView, ContractError>(ContractError::InsufficientFunds) && new == old
    } else {
        &&& moved(old, new, owner, recipient, amount, post_tax)
        &&& new.allowances.allowance_of(owner, spender) == (
            (allowance.0 - amount) as nat,
            allowance.1,
        )
        &&& forall|o: Seq<char>, s: Seq<char>|
            !(o == owner && s == spender) ==> #[trigger] new.allowances.allowance_of(o, s)
                == old.allowances.allowance_of(o, s)
        &&& out == Ok::<ResponseView, ContractError>(
            ResponseView {
                messages: treasury_hook(old.treasury@, owner, (amount - post_tax) as nat),
                attributes: moved_attributes(
                    "transfer_from"@,
                    owner,
                    recipient,
                    Some(spender),
                    amount,
                    post_tax,
                ),
            },
        )
    }
}

/// Whether `new` differs from `old` in nothing but its allowances.
pub open spec fn balances_kept(old: Token, new: Token) -> bool {
    &&& new.ledger == old.ledger
    &&& settings_kept(old, new)
}

/// What `IncreaseAllowance` does: `owner` lets `spender` move `amount`
/// more, until `expires` where that is given and as long as before where
/// not. It fails, changing nothing, where the allowance would exceed 128
/// bits.
pub open spec fn allowance_increased(
    old: Token,
    new: Token,
    owner: Seq<char>,
    spender: Seq<char>,
    amount: nat,
    expires: Option<Expiration>,
    out: Result<ResponseView, ContractError>,
) -> bool {
    let allowance = old.allowances.allowance_of(owner, spender);
    if allowance.0 + amount > u128::MAX {
        out == Err::<ResponseView, ContractError>(
            ContractError::GenericValidationError(ValidationFault::AllowanceOverflow),
        ) && new == old
    } else {
        &&& balances_kept(old, new)
        &&& new.allowances.allowance_of(owner, spender) == (
            allowance.0 + amount,
            match expires {
                Some(until) => until,
                None => allowance.1,
            },
        )
        &&& forall|o: Seq<char>, s: Seq<char>|
            !(o == owner && s == spender) ==> #[trigger] new.allowances.allowance_of(o, s)
                == old.allowances.allowance_of(o, s)
        &&& out == Ok::<ResponseView, ContractError>(
            ResponseView {
                messages: Seq::empty(),
                attributes: seq![
                    AttributeView { key: "action"@, value: "increase_allowance"@ },
                    AttributeView { key: "owner"@, value: owner },
                    AttributeView { key: "spender"@, value: spender },
                    AttributeView { key: "amount"@, value: decimal_text(amount) },
                ],
            },
        )
    }
}

/// The outcome of a change that the admin made about `address`.
pub open spec fn registered(action: Seq<char>, address: Seq<char>) -> ResponseView {
    ResponseView {
        messages: Seq::empty(),
        attributes: seq![
            AttributeView { key: "action"@, value: action },
            AttributeView { key: "address"@, value: address },
        ],
    }
}

/// Whether `new` differs from `old` in nothing but the set of
/// aggregators, which is `aggregators`.
pub open spec fn aggregators_set(old: Token, new: Token, aggregators: Set<Seq<char>>) -> bool {
    &&& new.ledger == old.ledger
    &&& new.allowances == old.allowances
    &&& new.admin@ == old.admin@
    &&& new.treasury@ == old.treasury@
    &&& new.tax == old.tax
    &&& new.tf_recipients@ == old.tf_recipients@
    &&& new.aggregators@ == aggregators
}

/// What `AddAggregator` does: the admin, and nobody else, makes `address`
/// an aggregator; it stays one if it was.
pub open spec fn aggregator_added(
    old: Token,
    new: Token,
    sender: Seq<char>,
    address: Seq<char>,
    out: Result<ResponseView, ContractError>,
) -> bool {
    if sender != old.admin@ {
        out == Err::<ResponseView, ContractError>(ContractError::Unauthorized) && new == old
    } else {
        &&& aggregators_set(old, new, old.aggregators@.insert(address))
        &&& out == Ok::<ResponseView, ContractError>(registered("add_aggregator"@, address))
    }
}

/// What `RemoveAggregator` does: the admin, and nobody else, makes
/// `address` no aggregator; nothing changes if it was none.
pub open spec fn aggregator_removed(
    old: Token,
    new: Token,
    sender: Seq<char>,
    address: Seq<char>,
    out: Result<ResponseView, ContractError>,
) -> bool {
    if sender != old.admin@ {
        out == Err::<ResponseView, ContractError>(ContractError::Unauthorized) && new == old
    } else {
        &&& aggregators_set(old, new, old.aggregators@.remove(address))
        &&& out == Ok::<ResponseView, ContractError>(registered("remove_aggregator"@, address))
    }
}

/// What `AddTransferFromRecipient` does: the admin, and nobody else, puts
/// `address` on the whitelist of delegated transfers; it stays there if
/// it was.
pub open spec fn recipient_added(
    old: Token,
    new: Token,
    sender: Seq<char>,
    address: Seq<char>,
    out: Result<ResponseView, ContractError>,
) -> bool {
    if sender != old.admin@ {
        out == Err::<ResponseView, ContractError>(ContractError::Unauthorized) && new == old
    } else {
        &&& new.ledger == old.ledger
        &&& new.allowances == old.allowances
        &&& new.admin@ == old.admin@
        &&& new.treasury@ == old.treasury@
        &&& new.tax == old.tax
        &&& new.aggregators@ == old.aggregators@
        &&& new.tf_recipients@ == old.tf_recipients@.insert(address)
        &&& out == Ok::<ResponseView, ContractError>(
            registered("add_transfer_from_recipient"@, address),
        )
    }
}

/// What `SetTaxRate` does: the admin, and nobody else, replaces the four
/// rates.
pub open spec fn tax_rate_set(
    old: Token,
    new: Token,
    sender: Seq<char>,
    tax: TaxConfig,
    out: Result<ResponseView, ContractError>,
) -> bool {
    if sender != old.admin@ {
        out == Err::<ResponseView, ContractError>(ContractError::Unauthorized) && new == old
    } else {
        &&& new.ledger == old.ledger
        &&& new.allowances == old.allowances
        &&& new.admin@ == old.admin@
        &&& new.treasury@ == old.treasury@
        &&& new.aggregators@ == old.aggregators@
        &&& new.tf_recipients@ == old.tf_recipients@
        &&& new.tax == tax
        &&& out == Ok::<ResponseView, ContractError>(
            ResponseView {
                messages: Seq::empty(),
                attributes: seq![AttributeView { key: "action"@, value: "set_tax_rate"@ }],
            },
        )
    }
}

fn registered_response(action: &str, address: &String) -> (response: Response)
    ensures
        response@ == registered(action@, address@),
{
    let mut response = Response::new();
    response.add_attribute("action", String::from_str(action));
    response.add_attribute("address", clone_text(address));
    assert(response@.attributes =~= registered(action@, address@).attributes);
    response
}

fn push_moved_attributes(
    response: &mut Response,
    action: &str,
    from: &String,
    to: &String,
    by: Option<&String>,
    amount: u128,
    post_tax: u128,
)
    ensures
        final(response)@.attributes == old(response)@.attributes + moved_attributes(
            action@,
            from@,
            to@,
            match by {
                Some(spender) => Some(spender@),
                None => None,
            },
            amount as nat,
            post_tax as nat,
        ),
        final(response)@.messages == old(response)@.messages,
{
    response.add_attribute("action", String::from_str(action));
    response.add_attribute("from", clone_text(from));
    response.add_attribute("to", clone_text(to));
    match by {
        Some(spender) => {
            response.add_attribute("by", clone_text(spender));
        },
        None => {},
    }
    response.add_attribute("amount", amount_text(post_tax));
    response.add_attribute("amount", amount_text(amount));
    response.add_attribute("post_tax_amount", amount_text(post_tax));
    assert(response@.attributes =~= old(response)@.attributes + moved_attributes(
        action@,
        from@,
        to@,
        match by {
            Some(spender) => Some(spender@),
            None => None,
        },
        amount as nat,
        post_tax as nat,
    ));
}

fn push_treasury_hook(response: &mut Response, treasury: &String, sender: &String, tax_cut: u128)
    ensures
        final(response)@.messages == old(response)@.messages + treasury_hook(
            treasury@,
            sender@,
            tax_cut as nat,
        ),
        final(response)@.attributes == old(response)@.attributes,
{
    if tax_cut > 0 {
        response.add_message(
            Message::Receive {
                contract: clone_text(treasury),
                sender: clone_text(sender),
                amount: tax_cut,
                msg: Payload::Hook(Cw20HookMsg::Liquify),
            },
        );
    }
    assert(response@.messages =~= old(response)@.messages + treasury_hook(
        treasury@,
        sender@,
        tax_cut as nat,
    ));
}

impl Token {
    /// Moves `amount` from `sender`: `post_tax` of it to `recipient`, the
    /// rest to the treasury.
    fn settle(&mut self, sender: &String, recipient: &String, amount: u128, post_tax: u128) -> (out:
        Result<(), ContractError>)
        requires
            post_tax <= amount,
        ensures
            out is Ok <==> amount <= old(self).ledger.balance_of(sender@),
            out matches Err(e) ==> e == ContractError::InsufficientFunds && *final(self) == *old(
                self,
            ),
            out is Ok ==> moved(
                *old(self),
                *final(self),
                sender@,
                recipient@,
                amount as nat,
                post_tax as nat,
            ) && final(self).allowances == old(self).allowances,
    {
        match self.ledger.debit(sender, amount) {
            Err(e) => {
                return Err(e);
            },
            Ok(_) => {},
        }
        self.ledger.credit(recipient, post_tax);
        self.ledger.credit(&self.treasury, amount - post_tax);
        Ok(())
    }

    /// Carries out a move and reports it: `lead` is dispatched first, then
    /// the treasury's hook where something was withheld.
    fn carry(
        &mut self,
        action: &str,
        sender: &String,
        recipient: &String,
        amount: u128,
        post_tax: u128,
        lead: Option<Message>,
    ) -> (out: Result<Response, ContractError>)
        requires
            post_tax <= amount,
        ensures
            move_outcome(
                *old(self),
                *final(self),
                action@,
                sender@,
                recipient@,
                amount as nat,
                post_tax as nat,
                match lead {
                    Some(message) => seq![message@],
                    None => Seq::empty(),
                },
                outcome_view(out),
            ),
    {
        match self.settle(sender, recipient, amount, post_tax) {
            Err(e) => {
                return Err(e);
            },
            Ok(_) => {},
        }
        let mut response = Response::new();
        match lead {
            Some(message) => {
                response.add_message(message);
            },
            None => {},
        }
        push_treasury_hook(&mut response, &self.treasury, sender, amount - post_tax);
        push_moved_attributes(&mut response, action, sender, recipient, None, amount, post_tax);
        assert(response@.messages =~= (match lead {
            Some(message) => seq![message@],
            None => Seq::empty(),
        }) + treasury_hook(old(self).treasury@, sender@, (amount - post_tax) as nat));
        assert(response@.attributes =~= moved_attributes(
            action@,
            sender@,
            recipient@,
            None,
            amount as nat,
            post_tax as nat,
        ));
        Ok(response)
    }

    /// Moves `amount` from `sender` to `recipient`, less the tax.
    pub fn transfer(&mut self, sender: &String, recipient: &String, amount: u128) -> (out: Result<
        Response,
        ContractError,
    >)
        ensures
            transferred(
                *old(self),
                *final(self),
                sender@,
                recipient@,
                amount as nat,
                outcome_view(out),
            ),
    {
        let parts = self.tax.apply(amount);
        self.carry("transfer", sender, recipient, amount, parts.0, None)
    }

    /// Moves `amount` from `sender` to `contract`, less the tax, and tells
    /// the contract what arrived and what `msg` the sender attached.
    pub fn send(&mut self, sender: &String, contract: &String, amount: u128, msg: Vec<u8>) -> (out:
        Result<Response, ContractError>)
        ensures
            sent(
                *old(self),
                *final(self),
                sender@,
                contract@,
                amount as nat,
                msg@,
                outcome_view(out),
            ),
    {
        let parts = self.tax.apply(amount);
        let lead = Message::Receive {
            contract: clone_text(contract),
            sender: clone_text(sender),
            amount: parts.0,
            msg: Payload::Raw(msg),
        };
        self.carry("send", sender, contract, amount, parts.0, Some(lead))
    }

    /// Moves all of `amount` from `sender` to `recipient`, provided that
    /// `sender` is an aggregator.
    pub fn tax_exempt_transfer(
        &mut self,
        sender: &String,
        recipient: &String,
        amount: u128,
    ) -> (out: Result<Response, ContractError>)
        ensures
            exempt_transferred(
                *old(self),
                *final(self),
                sender@,
                recipient@,
                amount as nat,
                outcome_view(out),
            ),
    {
        if !self.aggregators.contains(sender) {
            return Err(ContractError::Unauthorized);
        }
        self.carry("transfer", sender, recipient, amount, amount, None)
    }

    /// Moves all of `amount` from `sender` to `contract` and tells the
    /// contract so, provided that `sender` is an aggregator.
    pub fn tax_exempt_send(
        &mut self,
        sender: &String,
        contract: &String,
        amount: u128,
        msg: Vec<u8>,
    ) -> (out: Result<Response, ContractError>)
        ensures
            exempt_sent(
                *old(self),
                *final(self),
                sender@,
                contract@,
                amount as nat,
                msg@,
                outcome_view(out),
            ),
    {
        if !self.aggregators.contains(sender) {
            return Err(ContractError::Unauthorized);
        }
        let lead = Message::Receive {
            contract: clone_text(contract),
            sender: clone_text(sender),
            amount,
            msg: Payload::Raw(msg),
        };
        self.carry("send", sender, contract, amount, amount, Some(lead))
    }

    /// Moves `amount` of what `owner` holds to `recipient`, on behalf of
    /// `spender` and against its allowance.
    pub fn transfer_from(
        &mut self,
        block: &BlockInfo,
        spender: &String,
        owner: &String,
        recipient: &String,
        amount: u128,
    ) -> (out: Result<Response, ContractError>)
        ensures
            transferred_from(
                *old(self),
                *final(self),
                *block,
                spender@,
                owner@,
                recipient@,
                amount as nat,
                outcome_view(out),
            ),
    {
        let allowance = self.allowances.get(owner, spender);
        if allowance.1.is_expired(block) {
            return Err(ContractError::AllowanceExpired);
        }
        if amount > allowance.0 {
            return Err(ContractError::InsufficientAllowance);
        }
        if amount > self.ledger.balance(owner) {
            return Err(ContractError::InsufficientFunds);
        }
        let post_tax: u128 = if self.tf_recipients.contains(recipient) {
            amount
        } else {
            self.tax.apply(amount).0
        };
        self.allowances.set(owner, spender, allowance.0 - amount, allowance.1);
        let settled = self.settle(owner, recipient, amount, post_tax);
        assert(settled is Ok);
        let mut response = Response::new();
        push_treasury_hook(&mut response, &self.treasury, owner, amount - post_tax);
        push_moved_attributes(
            &mut response,
            "transfer_from",
            owner,
            recipient,
            Some(spender),
            amount,
            post_tax,
        );
        assert(response@.messages =~= treasury_hook(
            old(self).treasury@,
            owner@,
            (amount - post_tax) as nat,
        ));
        assert(response@.attributes =~= moved_attributes(
            "transfer_from"@,
            owner@,
            recipient@,
            Some(spender@),
            amount as nat,
            post_tax as nat,
        ));
        Ok(response)
    }

    /// Lets `spender` move `amount` more of what `owner` holds.
    pub fn increase_allowance(
        &mut self,
        owner: &String,
        spender: &String,
        amount: u128,
        expires: Option<Expiration>,
    ) -> (out: Result<Response, ContractError>)
        ensures
            allowance_increased(
                *old(self),
                *final(self),
                owner@,
                spender@,
                amount as nat,
                expires,
                outcome_view(out),
            ),
    {
        let allowance = self.allowances.get(owner, spender);
        if amount > u128::MAX - allowance.0 {
            return Err(ContractError::GenericValidationError(ValidationFault::AllowanceOverflow));
        }
        let until = match expires {
            Some(until) => until,
            None => allowance.1,
        };
        self.allowances.set(owner, spender, allowance.0 + amount, until);
        let mut response = Response::new();
        response.add_attribute("action", String::from_str("increase_allowance"));
        response.add_attribute("owner", clone_text(owner));
        response.add_attribute("spender", clone_text(spender));
        response.add_attribute("amount", amount_text(amount));
        assert(response@.attributes =~= seq![
            AttributeView { key: "action"@, value: "increase_allowance"@ },
            AttributeView { key: "owner"@, value: owner@ },
            AttributeView { key: "spender"@, value: spender@ },
            AttributeView { key: "amount"@, value: decimal_text(amount as nat) },
        ]);
        Ok(response)
    }

    /// Makes `address` an aggregator, if `sender` is the admin.
    pub fn add_aggregator(&mut self, sender: &String, address: String) -> (out: Result<
        Response,
        ContractError,
    >)
        ensures
            aggregator_added(*old(self), *final(self), sender@, address@, outcome_view(out)),
    {
        if *sender != self.admin {
            return Err(ContractError::Unauthorized);
        }
        let response = registered_response("add_aggregator", &address);
        self.aggregators.insert(address);
        Ok(response)
    }

    /// Makes `address` no aggregator, if `sender` is the admin.
    pub fn remove_aggregator(&mut self, sender: &String, address: String) -> (out: Result<
        Response,
        ContractError,
    >)
        ensures
            aggregator_removed(*old(self), *final(self), sender@, address@, outcome_view(out)),
    {
        if *sender != self.admin {
            return Err(ContractError::Unauthorized);
        }
        self.aggregators.remove(&address);
        Ok(registered_response("remove_aggregator", &address))
    }

    /// Puts `address` on the whitelist of delegated transfers, if `sender`
    /// is the admin.
    pub fn add_transfer_from_recipient(&mut self, sender: &String, address: String) -> (out:
        Result<Response, ContractError>)
        ensures
            recipient_added(*old(self), *final(self), sender@, address@, outcome_view(out)),
    {
        if *sender != self.admin {
            return Err(ContractError::Unauthorized);
        }
        let response = registered_response("add_transfer_from_recipient", &address);
        self.tf_recipients.insert(address);
        Ok(response)
    }

    /// Replaces the four rates, if `sender` is the admin.
    pub fn set_tax_rate(&mut self, sender: &String, tax: TaxConfig) -> (out: Result<
        Response,
        ContractError,
    >)
        ensures
            tax_rate_set(*old(self), *final(self), sender@, tax, outcome_view(out)),
    {
        if *sender != self.admin {
            return Err(ContractError::Unauthorized);
        }
        self.tax = tax;
        let mut response = Response::new();
        response.add_attribute("action", String::from_str("set_tax_rate"));
        assert(response@.attributes =~= seq![
            AttributeView { key: "action"@, value: "set_tax_rate"@ },
        ]);
        Ok(response)
    }

    /// What `address` holds.
    pub fn query_balance(&self, address: &String) -> (balance: u128)
        ensures
            balance == self.ledger.balance_of(address@),
    {
        self.ledger.balance(address)
    }

    /// The global, reflection, burn and anti-whale rates, in this order.
    pub fn query_rates(&self) -> (rates: (Rate, Rate, Rate, Rate))
        ensures
            rates == (
                self.tax.global_rate,
                self.tax.reflection_rate,
                self.tax.burn_rate,
                self.tax.antiwhale_rate,
            ),
    {
        (
            self.tax.global_rate,
            self.tax.reflection_rate,
            self.tax.burn_rate,
            self.tax.antiwhale_rate,
        )
    }
}

/// An initial balance.
#[derive(Debug, PartialEq, Eq)]
pub struct Cw20Coin {
    pub address: String,
    pub amount: u128,
}

/// What `coins` give to `address` together.
pub open spec fn minted(coins: Seq<Cw20Coin>, address: Seq<char>) -> nat
    decreases coins.len(),
{
    if coins.len() == 0 {
        0
    } else {
        minted(coins.drop_last(), address) + if coins.last().address@ == address {
            coins.last().amount as nat
        } else {
            0
        }
    }
}

/// What `coins` give to everybody together.
pub open spec fn minted_total(coins: Seq<Cw20Coin>) -> nat
    decreases coins.len(),
{
    if coins.len() == 0 {
        0
    } else {
        minted_total(coins.drop_last()) + coins.last().amount as nat
    }
}

proof fn lemma_minted_prefix(coins: Seq<Cw20Coin>, n: int)
    requires
        0 <= n <= coins.len(),
    ensures
        minted_total(coins.subrange(0, n)) <= minted_total(coins),
    decreases coins.len(),
{
    if n == coins.len() {
        assert(coins.subrange(0, n) =~= coins);
    } else {
        assert(coins.drop_last().subrange(0, n) =~= coins.subrange(0, n));
        lemma_minted_prefix(coins.drop_last(), n);
    }
}

impl Token {
    /// Creates the token with `admin`, the treasury's account and the
    /// initial balances; several balances for one address add up. There
    /// is no tax yet, and nobody is exempt or allowed anything. It fails
    /// where the balances together exceed 128 bits.
    pub fn instantiate(admin: String, treasury: String, initial_balances: &Vec<Cw20Coin>) -> (out:
        Result<Token, ContractError>)
        ensures
            out is Ok <==> minted_total(initial_balances@) <= u128::MAX,
            out matches Err(e) ==> e == ContractError::GenericValidationError(
                ValidationFault::SupplyOverflow,
            ),
            out matches Ok(token) ==> {
                &&& token.admin@ == admin@
                &&& token.treasury@ == treasury@
                &&& token.tax.global_rate@ == 0
                &&& token.tax.reflection_rate@ == 0
                &&& token.tax.burn_rate@ == 0
                &&& token.tax.antiwhale_rate@ == DECIMAL_FRACTIONAL
                &&& token.aggregators@ == Set::<Seq<char>>::empty()
                &&& token.tf_recipients@ == Set::<Seq<char>>::empty()
                &&& token.ledger.total_supply() == minted_total(initial_balances@)
                &&& forall|address: Seq<char>| #[trigger]
                    token.ledger.balance_of(address) == minted(initial_balances@, address)
                &&& forall|owner: Seq<char>, spender: Seq<char>| #[trigger]
                    token.allowances.allowance_of(owner, spender) == (0nat, Expiration::Never)
            },
    {
        let mut ledger = Ledger::new();
        let mut sum: u128 = 0;
        let mut i: usize = 0;
        while i < initial_balances.len()
            invariant
                i <= initial_balances@.len(),
                sum == ledger.total_supply(),
                ledger.total_supply() == minted_total(initial_balances@.subrange(0, i as int)),
                forall|address: Seq<char>| #[trigger]
                    ledger.balance_of(address) == minted(
                        initial_balances@.subrange(0, i as int),
                        address,
                    ),
            decreases initial_balances@.len() - i,
        {
            let coin = &initial_balances[i];
            proof {
                let next = initial_balances@.subrange(0, i + 1);
                assert(next.drop_last() =~= initial_balances@.subrange(0, i as int));
                lemma_minted_prefix(initial_balances@, i + 1);
            }
            if coin.amount > u128::MAX - sum {
                return Err(ContractError::GenericValidationError(ValidationFault::SupplyOverflow));
            }
            ledger.credit(&coin.address, coin.amount);
            sum = sum + coin.amount;
            i += 1;
        }
        assert(initial_balances@.subrange(0, i as int) =~= initial_balances@);
        Ok(
            Token {
                admin,
                treasury,
                tax: TaxConfig::new(),
                ledger,
                allowances: Allowances::new(),
                aggregators: AddressSet::new(),
                tf_recipients: AddressSet::new(),
            },
        )
    }
}

/// A request that may change the token.
#[derive(Debug, PartialEq, Eq)]
pub enum TokenExecuteMsg {
    Transfer { recipient: String, amount: u128 },
    Send { contract: String, amount: u128, msg: Vec<u8> },
    TransferFrom { owner: String, recipient: String, amount: u128 },
    TaxExemptTransfer { recipient: String, amount: u128 },
    TaxExemptSend { contract: String, amount: u128, msg: Vec<u8> },
    IncreaseAllowance { spender: String, amount: u128, expires: Option<Expiration> },
    AddAggregator { address: String },
    RemoveAggregator { address: String },
    AddTransferFromRecipient { address: String },
    SetTaxRate { global_rate: Rate, reflection_rate: Rate, burn_rate: Rate, antiwhale_rate: Rate },
}

/// What a request from `sender` in `block` does to the token.
pub open spec fn executed(
    old: Token,
    new: Token,
    block: BlockInfo,
    sender: Seq<char>,
    msg: TokenExecuteMsg,
    out: Result<ResponseView, ContractError>,
) -> bool {
    match msg {
        TokenExecuteMsg::Transfer { recipient, amount } => transferred(
            old,
            new,
            sender,
            recipient@,
            amount as nat,
            out,
        ),
        TokenExecuteMsg::Send { contract, amount, msg } => sent(
            old,
            new,
            sender,
            contract@,
            amount as nat,
            msg@,
            out,
        ),
        TokenExecuteMsg::TransferFrom { owner, recipient, amount } => transferred_from(
            old,
            new,
            block,
            sender,
            owner@,
            recipient@,
            amount as nat,
            out,
        ),
        TokenExecuteMsg::TaxExemptTransfer { recipient, amount } => exempt_transferred(
            old,
            new,
            sender,
            recipient@,
            amount as nat,
            out,
        ),
        TokenExecuteMsg::TaxExemptSend { contract, amount, msg } => exempt_sent(
            old,
            new,
            sender,
            contract@,
            amount as nat,
            msg@,
            out,
        ),
        TokenExecuteMsg::IncreaseAllowance { spender, amount, expires } => allowance_increased(
            old,
            new,
            sender,
            spender@,
            amount as nat,
            expires,
            out,
        ),
        TokenExecuteMsg::AddAggregator { address } => aggregator_added(
            old,
            new,
            sender,
            address@,
            out,
        ),
        TokenExecuteMsg::RemoveAggregator { address } => aggregator_removed(
            old,
            new,
            sender,
            address@,
            out,
        ),
        TokenExecuteMsg::AddTransferFromRecipient { address } => recipient_added(
            old,
            new,
            sender,
            address@,
            out,
        ),
        TokenExecuteMsg::SetTaxRate { global_rate, reflection_rate, burn_rate, antiwhale_rate } => {
            tax_rate_set(
                old,
                new,
                sender,
                TaxConfig { global_rate, reflection_rate, burn_rate, antiwhale_rate },
                out,
            )
        },
    }
}

/// Takes a request sent by `sender` in `block`. A failed request leaves
/// the token as it was.
pub fn execute(token: &mut Token, block: &BlockInfo, sender: &String, msg: TokenExecuteMsg) -> (out:
    Result<Response, ContractError>)
    ensures
        executed(*old(token), *final(token), *block, sender@, msg, outcome_view(out)),
{
    match msg {
        TokenExecuteMsg::Transfer { recipient, amount } => token.transfer(
            sender,
            &recipient,
            amount,
        ),
        TokenExecuteMsg::Send { contract, amount, msg } => token.send(
            sender,
            &contract,
            amount,
            msg,
        ),
        TokenExecuteMsg::TransferFrom { owner, recipient, amount } => token.transfer_from(
            block,
            sender,
            &owner,
            &recipient,
            amount,
        ),
        TokenExecuteMsg::TaxExemptTransfer { recipient, amount } => token.tax_exempt_transfer(
            sender,
            &recipient,
            amount,
        ),
        TokenExecuteMsg::TaxExemptSend { contract, amount, msg } => token.tax_exempt_send(
            sender,
            &contract,
            amount,
            msg,
        ),
        TokenExecuteMsg::IncreaseAllowance { spender, amount, expires } => {
            token.increase_allowance(sender, &spender, amount, expires)
        },
        TokenExecuteMsg::AddAggregator { address } => token.add_aggregator(sender, address),
        TokenExecuteMsg::RemoveAggregator { address } => token.remove_aggregator(sender, address),
        TokenExecuteMsg::AddTransferFromRecipient { address } => {
            token.add_transfer_from_recipient(sender, address)
        },
        TokenExecuteMsg::SetTaxRate { global_rate, reflection_rate, burn_rate, antiwhale_rate } => {
            token.set_tax_rate(
                sender,
                TaxConfig { global_rate, reflection_rate, burn_rate, antiwhale_rate },
            )
        },
    }
}

} // verus!
