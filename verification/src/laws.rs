//! What holds of the escrow ledger whatever is asked of it.

use crate::accounts::Rent;
use crate::accounts::TokenKey;
use crate::address::Address;
use crate::derivation::escrow_address;
use crate::error::EscrowError;
use crate::instruction::CloseAccount;
use crate::instruction::TransferChecked;
use crate::ledger::settled;
use crate::ledger::LedgerState;
use crate::model::BankState;
use crate::state::escrow::Escrow;
use vstd::prelude::*;

verus! {

/// The empty ledger is sound: it has no record and no vault.
pub proof fn lemma_empty_is_sound(rent: Rent)
    ensures
        (LedgerState {
            bank: BankState {
                rent,
                capital: 0,
                wallets: Map::empty(),
                mints: Map::empty(),
                tokens: Map::empty(),
                escrows: Map::empty(),
            },
            deposits: Map::empty(),
        }).wf(),
{
}

/// Opening an escrow keeps records and vaults together.
pub proof fn lemma_make_keeps_wf(
    before: LedgerState,
    derived: Option<(Address, u8)>,
    maker: Address,
    mint_a: Address,
    mint_b: Address,
    seed: u64,
    deposit: u64,
    receive: u64,
)
    requires
        before.wf(),
        before.make(derived, maker, mint_a, mint_b, seed, deposit, receive) is Ok,
    ensures
        before.make(derived, maker, mint_a, mint_b, seed, deposit, receive)->Ok_0.wf(),
{
}

/// Fulfilling an escrow keeps records and vaults together.
pub proof fn lemma_take_keeps_wf(
    before: LedgerState,
    authority: Option<Address>,
    taker: Address,
    maker: Address,
    mint_a: Address,
    mint_b: Address,
    escrow: Address,
)
    requires
        before.wf(),
        before.take(authority, taker, maker, mint_a, mint_b, escrow) is Ok,
    ensures
        before.take(authority, taker, maker, mint_a, mint_b, escrow)->Ok_0.wf(),
{
}

/// Cancelling an escrow keeps records and vaults together.
pub proof fn lemma_refund_keeps_wf(
    before: LedgerState,
    authority: Option<Address>,
    maker: Address,
    mint_a: Address,
    escrow: Address,
)
    requires
        before.wf(),
        before.refund(authority, maker, mint_a, escrow) is Ok,
    ensures
        before.refund(authority, maker, mint_a, escrow)->Ok_0.wf(),
{
}

/// Pairing. In a sound ledger a record stands at an address exactly when a
/// vault is there for it, and the vault holds what was deposited when the
/// escrow was opened: it is non-empty unless nothing was deposited.
pub proof fn lemma_record_iff_vault(ledger: LedgerState, escrow: Address)
    requires
        ledger.wf(),
    ensures
        ledger.is_open(escrow) <==> ledger.has_vault(escrow),
        ledger.is_open(escrow) ==> ledger.vault_balance(escrow) == ledger.deposits[escrow],
        ledger.is_open(escrow) && ledger.deposits[escrow] > 0 ==> ledger.vault_balance(escrow) > 0,
{
}

/// What opening does. Where `make` succeeds, an address was derived and an
/// escrow is open there with exactly the terms given; its vault holds the
/// deposit, which has left the maker's account; every other custody account
/// and every other record is as it was; and the maker has paid for the vault
/// and the record.
pub proof fn lemma_make_opens(
    before: LedgerState,
    derived: Option<(Address, u8)>,
    maker: Address,
    mint_a: Address,
    mint_b: Address,
    seed: u64,
    deposit: u64,
    receive: u64,
)
    requires
        before.wf(),
        before.make(derived, maker, mint_a, mint_b, seed, deposit, receive) is Ok,
    ensures
        ({
            let after = before.make(derived, maker, mint_a, mint_b, seed, deposit, receive)->Ok_0;
            let source = TokenKey { owner: maker, mint: mint_a };
            &&& derived matches Some((escrow, bump))
            &&& !before.is_open(escrow)
            &&& after.is_open(escrow)
            &&& after.bank.escrows[escrow].data == (Escrow {
                seed,
                maker,
                mint_a,
                mint_b,
                receive,
                bump,
            })
            &&& after.deposits[escrow] == deposit
            &&& after.vault_balance(escrow) == deposit
            &&& after.bank.balance(source) == before.bank.balance(source) - deposit
            &&& forall|key: TokenKey|
                key != source && key != (TokenKey { owner: escrow, mint: mint_a })
                    ==> after.bank.tokens.contains_key(key) == before.bank.tokens.contains_key(key)
                    && #[trigger] after.bank.balance(key) == before.bank.balance(key)
            &&& forall|other: Address|
                other != escrow ==> #[trigger] after.bank.escrows.contains_key(other)
                    == before.bank.escrows.contains_key(other) && after.bank.escrows[other]
                    == before.bank.escrows[other]
            &&& after.bank.mints == before.bank.mints
            &&& after.bank.lamports(maker) == before.bank.lamports(maker)
                - before.bank.rent.token_account - before.bank.rent.escrow
            &&& forall|other: Address|
                other != maker ==> #[trigger] after.bank.lamports(other) == before.bank.lamports(
                    other,
                )
        }),
{
}

/// When opening succeeds. In a sound ledger `make` succeeds exactly when an
/// address was derived that is not occupied, both assets are known, and the
/// maker has a wallet that can pay for the vault and the record and a custody
/// account for `mint_a` that holds the deposit.
pub proof fn lemma_make_succeeds_iff(
    before: LedgerState,
    derived: Option<(Address, u8)>,
    maker: Address,
    mint_a: Address,
    mint_b: Address,
    seed: u64,
    deposit: u64,
    receive: u64,
)
    requires
        before.wf(),
    ensures
        before.make(derived, maker, mint_a, mint_b, seed, deposit, receive) is Ok <==> {
            &&& derived matches Some((escrow, bump))
            &&& !before.bank.occupied(escrow)
            &&& before.bank.mints.contains_key(mint_a)
            &&& before.bank.mints.contains_key(mint_b)
            &&& before.bank.wallets.contains_key(maker)
            &&& before.bank.tokens.contains_key(TokenKey { owner: maker, mint: mint_a })
            &&& before.bank.balance(TokenKey { owner: maker, mint: mint_a }) >= deposit
            &&& before.bank.lamports(maker) >= before.bank.rent.token_account
                + before.bank.rent.escrow
        },
{
}

/// The errors of opening, in the order in which they are looked for: no
/// address derived, the address occupied, an asset unknown, and then the
/// maker short of the deposit or of the cost of the two accounts.
pub proof fn lemma_make_errors(
    before: LedgerState,
    derived: Option<(Address, u8)>,
    maker: Address,
    mint_a: Address,
    mint_b: Address,
    seed: u64,
    deposit: u64,
    receive: u64,
)
    requires
        before.wf(),
    ensures
        ({
            let r = before.make(derived, maker, mint_a, mint_b, seed, deposit, receive);
            &&& r == Err::<LedgerState, EscrowError>(EscrowError::AuthorityMismatch)
                <==> derived is None
            &&& r == Err::<LedgerState, EscrowError>(EscrowError::AlreadyExists) <==> (
            derived matches Some((escrow, bump)) && before.bank.occupied(escrow))
            &&& r == Err::<LedgerState, EscrowError>(EscrowError::AssetMismatch) <==> (
            derived matches Some((escrow, bump)) && !before.bank.occupied(escrow) && !(
            before.bank.mints.contains_key(mint_a) && before.bank.mints.contains_key(mint_b)))
            &&& r == Err::<LedgerState, EscrowError>(EscrowError::InsufficientFunds) <==> (
            derived matches Some((escrow, bump)) && !before.bank.occupied(escrow)
                && before.bank.mints.contains_key(mint_a) && before.bank.mints.contains_key(mint_b)
                && !(before.bank.wallets.contains_key(maker) && before.bank.tokens.contains_key(
                TokenKey { owner: maker, mint: mint_a },
            ) && before.bank.balance(TokenKey { owner: maker, mint: mint_a }) >= deposit
                && before.bank.lamports(maker) >= before.bank.rent.token_account
                + before.bank.rent.escrow))
            &&& r != Err::<LedgerState, EscrowError>(EscrowError::NotFound)
            &&& r != Err::<LedgerState, EscrowError>(EscrowError::AuthorizationDenied)
        }),
{
}

/// When fulfilling succeeds. In a sound ledger `take` succeeds exactly when an
/// escrow of `maker` is open at `escrow` with the two assets named, the proof
/// in its record derives its address, and the taker has a custody account for
/// `mint_b` that holds what the record asks for and a wallet that can pay for
/// the receiving accounts that are missing.
pub proof fn lemma_take_succeeds_iff(
    before: LedgerState,
    authority: Option<Address>,
    taker: Address,
    maker: Address,
    mint_a: Address,
    mint_b: Address,
    escrow: Address,
)
    requires
        before.wf(),
    ensures
        before.take(authority, taker, maker, mint_a, mint_b, escrow) is Ok <==> {
            &&& before.is_open(escrow)
            &&& before.bank.escrows[escrow].data.maker == maker
            &&& before.bank.escrows[escrow].data.mint_a == mint_a
            &&& before.bank.escrows[escrow].data.mint_b == mint_b
            &&& authority == Some(escrow)
            &&& before.bank.wallets.contains_key(taker)
            &&& before.bank.tokens.contains_key(TokenKey { owner: taker, mint: mint_b })
            &&& before.bank.balance(TokenKey { owner: taker, mint: mint_b })
                >= before.bank.escrows[escrow].data.receive
            &&& before.bank.lamports(taker) >= before.take_cost(taker, maker, mint_a, mint_b)
        },
{
}

/// Conservation. Where `take` succeeds for a taker other than the maker and
/// two different assets, the taker's holding of `mint_a` has grown by exactly
/// what was deposited, the maker's holding of `mint_b` has grown by exactly
/// what the record asked for, which has left the taker's holding of `mint_b`;
/// the vault and the record are gone, and no other holding and no other
/// record has changed. The maintenance balances of the vault and of the
/// record are back with the maker; the taker has paid for the receiving
/// accounts that were missing, and no other wallet has changed.
pub proof fn lemma_take_conserves(
    before: LedgerState,
    authority: Option<Address>,
    taker: Address,
    maker: Address,
    mint_a: Address,
    mint_b: Address,
    escrow: Address,
)
    requires
        before.wf(),
        before.take(authority, taker, maker, mint_a, mint_b, escrow) is Ok,
        taker != maker,
        mint_a != mint_b,
    ensures
        ({
            let after = before.take(authority, taker, maker, mint_a, mint_b, escrow)->Ok_0;
            let receives = TokenKey { owner: taker, mint: mint_a };
            let pays = TokenKey { owner: taker, mint: mint_b };
            let paid = TokenKey { owner: maker, mint: mint_b };
            let vault = TokenKey { owner: escrow, mint: mint_a };
            &&& after.bank.balance(receives) == before.bank.balance(receives)
                + before.deposits[escrow]
            &&& after.bank.balance(paid) == before.bank.balance(paid)
                + before.bank.escrows[escrow].data.receive
            &&& after.bank.balance(pays) == before.bank.balance(pays)
                - before.bank.escrows[escrow].data.receive
            &&& !after.is_open(escrow)
            &&& !after.has_vault(escrow)
            &&& forall|key: TokenKey|
                key != receives && key != paid && key != pays && key != vault
                    ==> after.bank.tokens.contains_key(key) == before.bank.tokens.contains_key(key)
                    && #[trigger] after.bank.balance(key) == before.bank.balance(key)
            &&& forall|other: Address|
                other != escrow ==> #[trigger] after.bank.escrows.contains_key(other)
                    == before.bank.escrows.contains_key(other) && after.bank.escrows[other]
                    == before.bank.escrows[other]
            &&& after.bank.mints == before.bank.mints
            &&& after.bank.lamports(maker) == before.bank.lamports(maker)
                + before.bank.tokens[vault].lamports + before.bank.escrows[escrow].lamports
            &&& after.bank.lamports(taker) == before.bank.lamports(taker) - before.take_cost(
                taker,
                maker,
                mint_a,
                mint_b,
            )
            &&& forall|other: Address|
                other != maker && other != taker ==> #[trigger] after.bank.lamports(other)
                    == before.bank.lamports(other)
        }),
{
}

/// When cancelling succeeds. In a sound ledger `refund` succeeds exactly when
/// an escrow of `maker` is open at `escrow` with `mint_a` in its vault and the
/// proof in its record derives its address.
pub proof fn lemma_refund_succeeds_iff(
    before: LedgerState,
    authority: Option<Address>,
    maker: Address,
    mint_a: Address,
    escrow: Address,
)
    requires
        before.wf(),
    ensures
        before.refund(authority, maker, mint_a, escrow) is Ok <==> {
            &&& before.is_open(escrow)
            &&& before.bank.escrows[escrow].data.maker == maker
            &&& before.bank.escrows[escrow].data.mint_a == mint_a
            &&& authority == Some(escrow)
        },
{
}

/// What cancelling does. Where `refund` succeeds, the maker's holding of
/// `mint_a` has grown by exactly what was deposited; the vault and the record
/// are gone, and no other holding and no other record has changed. The
/// maintenance balances of the vault and of the record are back with the
/// maker, and no other wallet has changed.
pub proof fn lemma_refund_returns(
    before: LedgerState,
    authority: Option<Address>,
    maker: Address,
    mint_a: Address,
    escrow: Address,
)
    requires
        before.wf(),
        before.refund(authority, maker, mint_a, escrow) is Ok,
    ensures
        ({
            let after = before.refund(authority, maker, mint_a, escrow)->Ok_0;
            let receives = TokenKey { owner: maker, mint: mint_a };
            let vault = TokenKey { owner: escrow, mint: mint_a };
            &&& after.bank.balance(receives) == before.bank.balance(receives)
                + before.deposits[escrow]
            &&& !after.is_open(escrow)
            &&& !after.has_vault(escrow)
            &&& forall|key: TokenKey|
                key != receives && key != vault ==> after.bank.tokens.contains_key(key)
                    == before.bank.tokens.contains_key(key) && #[trigger] after.bank.balance(key)
                    == before.bank.balance(key)
            &&& forall|other: Address|
                other != escrow ==> #[trigger] after.bank.escrows.contains_key(other)
                    == before.bank.escrows.contains_key(other) && after.bank.escrows[other]
                    == before.bank.escrows[other]
            &&& after.bank.mints == before.bank.mints
            &&& after.bank.lamports(maker) == before.bank.lamports(maker)
                + before.bank.tokens[vault].lamports + before.bank.escrows[escrow].lamports
            &&& forall|other: Address|
                other != maker ==> #[trigger] after.bank.lamports(other) == before.bank.lamports(
                    other,
                )
        }),
{
}

/// Cancel, then fulfill. Once `refund` has succeeded for an escrow, every
/// attempt to fulfill it is rejected with `NotFound`, whoever asks and
/// whatever is named.
pub proof fn lemma_take_after_refund(
    before: LedgerState,
    authority: Option<Address>,
    maker: Address,
    mint_a: Address,
    escrow: Address,
    later_authority: Option<Address>,
    taker: Address,
    named_maker: Address,
    named_mint_a: Address,
    named_mint_b: Address,
)
    requires
        before.refund(authority, maker, mint_a, escrow) is Ok,
    ensures
        before.refund(authority, maker, mint_a, escrow)->Ok_0.take(
            later_authority,
            taker,
            named_maker,
            named_mint_a,
            named_mint_b,
            escrow,
        ) == Err::<LedgerState, EscrowError>(EscrowError::NotFound),
{
}

/// Fulfill, then cancel. Once `take` has succeeded for an escrow, every
/// attempt to cancel it is rejected with `NotFound`, whoever asks and whatever
/// is named.
pub proof fn lemma_refund_after_take(
    before: LedgerState,
    authority: Option<Address>,
    taker: Address,
    maker: Address,
    mint_a: Address,
    mint_b: Address,
    escrow: Address,
    later_authority: Option<Address>,
    caller: Address,
    named_mint_a: Address,
)
    requires
        before.take(authority, taker, maker, mint_a, mint_b, escrow) is Ok,
    ensures
        before.take(authority, taker, maker, mint_a, mint_b, escrow)->Ok_0.refund(
            later_authority,
            caller,
            named_mint_a,
            escrow,
        ) == Err::<LedgerState, EscrowError>(EscrowError::NotFound),
{
}

/// A terminal operation happens once: after a successful `take` every further
/// `take` of the same escrow is rejected with `NotFound`, and so is every
/// further `refund` after a successful `refund`.
pub proof fn lemma_terminal_once(
    before: LedgerState,
    authority: Option<Address>,
    taker: Address,
    maker: Address,
    mint_a: Address,
    mint_b: Address,
    escrow: Address,
)
    ensures
        before.take(authority, taker, maker, mint_a, mint_b, escrow) matches Ok(after)
            ==> after.take(authority, taker, maker, mint_a, mint_b, escrow) == Err::<
            LedgerState,
            EscrowError,
        >(EscrowError::NotFound),
        before.refund(authority, maker, mint_a, escrow) matches Ok(after) ==> after.refund(
            authority,
            maker,
            mint_a,
            escrow,
        ) == Err::<LedgerState, EscrowError>(EscrowError::NotFound),
{
}

/// Authorization. Where an escrow is open, `refund` on behalf of anyone but
/// its maker is rejected with `AuthorizationDenied`; and a call that is
/// rejected leaves the ledger, record and vault included, as it was.
pub proof fn lemma_only_the_maker_cancels(
    before: LedgerState,
    authority: Option<Address>,
    caller: Address,
    mint_a: Address,
    escrow: Address,
)
    requires
        before.is_open(escrow),
        caller != before.bank.escrows[escrow].data.maker,
    ensures
        before.refund(authority, caller, mint_a, escrow) == Err::<LedgerState, EscrowError>(
            EscrowError::AuthorizationDenied,
        ),
        forall|r: Result<(), EscrowError>, after: LedgerState| #[trigger]
            settled(r, before, after, before.refund(authority, caller, mint_a, escrow)) ==> r
                == Err::<(), EscrowError>(EscrowError::AuthorizationDenied) && after == before,
{
}

/// Derivation is a function of the maker and the seed: inputs that agree,
/// byte for byte, derive the same address and the same proof.
pub proof fn lemma_derivation_is_a_function(
    first_maker: Address,
    first_seed: u64,
    second_maker: Address,
    second_seed: u64,
)
    requires
        first_maker@ == second_maker@,
        first_seed == second_seed,
    ensures
        escrow_address(first_maker, first_seed) == escrow_address(second_maker, second_seed),
{
}

/// With authentic records the derived authority is never refused: where every
/// record holds a proof that derives its address, neither `take` nor `refund`
/// is rejected with `AuthorityMismatch` when given what the proof derives.
pub proof fn lemma_authentic_authority(
    before: LedgerState,
    taker: Address,
    maker: Address,
    mint_a: Address,
    mint_b: Address,
    escrow: Address,
)
    requires
        before.wf(),
        before.authentic(),
    ensures
        before.take(
            before.derived_authority(maker, escrow),
            taker,
            maker,
            mint_a,
            mint_b,
            escrow,
        ) != Err::<LedgerState, EscrowError>(EscrowError::AuthorityMismatch),
        before.refund(before.derived_authority(maker, escrow), maker, mint_a, escrow) != Err::<
            LedgerState,
            EscrowError,
        >(EscrowError::AuthorityMismatch),
{
}

/// The errors of fulfilling, in the order in which they are looked for: no
/// record of the maker at the address, the assets named not those of the
/// record, the taker short of the payment or of the cost of the receiving
/// accounts, and only then the authority. So a taker who cannot pay is turned
/// away before the vault is looked at.
pub proof fn lemma_take_errors(
    before: LedgerState,
    authority: Option<Address>,
    taker: Address,
    maker: Address,
    mint_a: Address,
    mint_b: Address,
    escrow: Address,
)
    requires
        before.wf(),
    ensures
        ({
            let r = before.take(authority, taker, maker, mint_a, mint_b, escrow);
            let found = before.is_open(escrow) && before.bank.escrows[escrow].data.maker == maker;
            let named = before.bank.escrows[escrow].data.mint_a == mint_a
                && before.bank.escrows[escrow].data.mint_b == mint_b;
            let funded = {
                &&& before.bank.wallets.contains_key(taker)
                &&& before.bank.tokens.contains_key(TokenKey { owner: taker, mint: mint_b })
                &&& before.bank.balance(TokenKey { owner: taker, mint: mint_b })
                    >= before.bank.escrows[escrow].data.receive
                &&& before.bank.lamports(taker) >= before.take_cost(taker, maker, mint_a, mint_b)
            };
            &&& r == Err::<LedgerState, EscrowError>(EscrowError::NotFound) <==> !found
            &&& r == Err::<LedgerState, EscrowError>(EscrowError::AssetMismatch) <==> found
                && !named
            &&& r == Err::<LedgerState, EscrowError>(EscrowError::InsufficientFunds) <==> found
                && named && !funded
            &&& r == Err::<LedgerState, EscrowError>(EscrowError::AuthorityMismatch) <==> found
                && named && funded && authority != Some(escrow)
            &&& r != Err::<LedgerState, EscrowError>(EscrowError::AlreadyExists)
            &&& r != Err::<LedgerState, EscrowError>(EscrowError::AuthorizationDenied)
        }),
{
}

/// The errors of cancelling, in the order in which they are looked for: no
/// record at the address, the caller not its maker, the asset named not the
/// one in the vault, and then the authority.
pub proof fn lemma_refund_errors(
    before: LedgerState,
    authority: Option<Address>,
    maker: Address,
    mint_a: Address,
    escrow: Address,
)
    requires
        before.wf(),
    ensures
        ({
            let r = before.refund(authority, maker, mint_a, escrow);
            let terms = before.bank.escrows[escrow].data;
            &&& r == Err::<LedgerState, EscrowError>(EscrowError::NotFound) <==> !before.is_open(
                escrow,
            )
            &&& r == Err::<LedgerState, EscrowError>(EscrowError::AuthorizationDenied)
                <==> before.is_open(escrow) && terms.maker != maker
            &&& r == Err::<LedgerState, EscrowError>(EscrowError::AssetMismatch)
                <==> before.is_open(escrow) && terms.maker == maker && terms.mint_a != mint_a
            &&& r == Err::<LedgerState, EscrowError>(EscrowError::AuthorityMismatch)
                <==> before.is_open(escrow) && terms.maker == maker && terms.mint_a == mint_a
                && authority != Some(escrow)
            &&& r != Err::<LedgerState, EscrowError>(EscrowError::AlreadyExists)
            &&& r != Err::<LedgerState, EscrowError>(EscrowError::InsufficientFunds)
        }),
{
}

/// Every step keeps records and vaults together: a sound ledger is sound
/// again after any operation that succeeds.
pub proof fn lemma_steps_keep_wf(before: LedgerState, after: LedgerState)
    requires
        before.wf(),
        before.steps_to(after),
    ensures
        after.wf(),
{
}

/// Terms and deposits stay. Whatever operation succeeds, an escrow that is
/// open before and after it has the same record, the same maintenance balance
/// and the same amount in its vault: terms are never updated, and a vault is
/// touched only when its escrow ends.
pub proof fn lemma_open_escrows_stay(before: LedgerState, after: LedgerState, escrow: Address)
    requires
        before.wf(),
        before.steps_to(after),
        before.is_open(escrow),
        after.is_open(escrow),
    ensures
        after.bank.escrows[escrow] == before.bank.escrows[escrow],
        after.vault_balance(escrow) == before.vault_balance(escrow),
        after.deposits[escrow] == before.deposits[escrow],
{
}

/// Cancelling undoes opening. Where `make` succeeds and the maker then
/// cancels, with the authority that the vault was opened under, the ledger is
/// again exactly as it was before: the deposit and both maintenance balances
/// are back, and nothing else has changed.
pub proof fn lemma_refund_undoes_make(
    before: LedgerState,
    derived: Option<(Address, u8)>,
    maker: Address,
    mint_a: Address,
    mint_b: Address,
    seed: u64,
    deposit: u64,
    receive: u64,
)
    requires
        before.wf(),
        before.make(derived, maker, mint_a, mint_b, seed, deposit, receive) is Ok,
    ensures
        derived matches Some((escrow, bump)) && before.make(
            derived,
            maker,
            mint_a,
            mint_b,
            seed,
            deposit,
            receive,
        )->Ok_0.refund(Some(escrow), maker, mint_a, escrow) == Ok::<LedgerState, EscrowError>(
            before,
        ),
{
    let opened = before.make(derived, maker, mint_a, mint_b, seed, deposit, receive)->Ok_0;
    let escrow = derived->Some_0.0;
    let closed = opened.refund(Some(escrow), maker, mint_a, escrow)->Ok_0;
    // The place of the vault was free, so taking the vault out again leaves
    // the custody accounts as they were.
    assert(closed =~= before);
}

/// Custody is exclusive. The asset-transfer service moves nothing out of a
/// custody account, and closes no custody account, on the word of anyone but
/// the one who controls it: such a request is rejected. For a vault that is
/// the escrow's derived address, which is nobody's wallet.
pub proof fn lemma_custody_is_exclusive(
    bank: BankState,
    transfer: TransferChecked,
    close: CloseAccount,
    signer: Address,
)
    ensures
        signer != transfer.from.owner ==> bank.transfer_checked(transfer, signer) is Err,
        signer != close.account.owner ==> bank.close_account(close, signer) is Err,
{
}

} // verus!
