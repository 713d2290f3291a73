//! What holds of a listing and of a purchase record over their whole
//! lives: of every purchase made against a listing, of every sequence of
//! attempts, settled or refused, and of every attempt to bind a capsule.

use vstd::prelude::*;
use crate::instructions::cancel_listing::{cancel_listing_error, cancelled_listing, CancelListing};
use crate::instructions::finalize_purchase::{finalize_error, finalized_record, FinalizePurchase};
use crate::instructions::purchase_listing::{
    purchase_error, purchase_record_of, settled_listing, ErrorCode, PurchaseListing,
};
use crate::state::listing::{ListingView, STATUS_ACTIVE, STATUS_CANCELLED, STATUS_SOLD_OUT};
use crate::state::purchase_record::PurchaseRecordView;

verus! {

/// One attempt at a purchase: the accounts as they stood when it was made,
/// and the request.
pub struct Attempt {
    pub ctx: PurchaseListing,
    pub units_requested: u64,
    pub purchase_index: u64,
    pub now: i64,
}

impl Attempt {
    /// The check that the attempt fails, if it fails one.
    pub open spec fn error(self) -> Option<ErrorCode> {
        purchase_error(&self.ctx, self.units_requested, self.purchase_index, self.now)
    }

    /// Whether the attempt is settled.
    pub open spec fn succeeds(self) -> bool {
        self.error() is None
    }

    /// The listing as the attempt found it.
    pub open spec fn listing_before(self) -> ListingView {
        self.ctx.listing_state.data@
    }

    /// The listing as the attempt leaves it: taken down where the attempt is
    /// settled, untouched where it is refused.
    pub open spec fn listing_after(self) -> ListingView {
        if self.succeeds() {
            settled_listing(
                self.listing_before(),
                self.ctx.buyer@,
                self.units_requested as nat,
                self.now as int,
            )
        } else {
            self.listing_before()
        }
    }

    /// The purchase record that the attempt creates where it is settled.
    pub open spec fn record(self, buyer_x25519_pubkey: Seq<u8>) -> PurchaseRecordView {
        purchase_record_of(
            self.ctx.listing_state.key@,
            self.listing_before(),
            self.ctx.buyer@,
            self.units_requested as nat,
            self.ctx.marketplace.data.seller_fee as nat,
            buyer_x25519_pubkey,
            self.now as int,
        )
    }

    /// Whether the request names the accounts that belong together: the
    /// checks that come before the purchase index is looked at.
    pub open spec fn accounts_match(self) -> bool {
        let ctx = self.ctx;
        let listing = ctx.listing_state.data;
        &&& listing.marketplace == ctx.marketplace.key
        &&& listing.device == ctx.device_registry.key
        &&& listing.token_mint == ctx.usdc_mint
        &&& ctx.device_registry.data.is_active
        &&& ctx.treasury == ctx.marketplace.data.treasury
        &&& ctx.buyer_ata.owner == ctx.buyer
        &&& ctx.buyer_ata.mint == ctx.usdc_mint
        &&& ctx.seller_ata.owner == listing.seller
        &&& ctx.seller_ata.mint == ctx.usdc_mint
        &&& ctx.treasury_ata.owner == ctx.treasury
        &&& ctx.treasury_ata.mint == ctx.usdc_mint
    }
}

/// A history of a listing: each attempt finds the listing as the attempt
/// before it left it.
pub open spec fn is_history(attempts: Seq<Attempt>) -> bool {
    forall|i: int|
        0 <= i < attempts.len() - 1 ==> (#[trigger] attempts[i + 1]).listing_before() == attempts[i].listing_after()
}

/// The number of settled attempts among `attempts`.
pub open spec fn settled_count(attempts: Seq<Attempt>) -> nat
    decreases attempts.len(),
{
    if attempts.len() == 0 {
        0
    } else {
        settled_count(attempts.drop_last()) + if attempts.last().succeeds() {
            1nat
        } else {
            0nat
        }
    }
}

/// The listing at the end of a history that began with `start`.
pub open spec fn listing_at_end(start: ListingView, attempts: Seq<Attempt>) -> ListingView {
    if attempts.len() == 0 {
        start
    } else {
        attempts.last().listing_after()
    }
}

/// Whether a history begins with the listing `start`.
pub open spec fn begins_with(attempts: Seq<Attempt>, start: ListingView) -> bool {
    attempts.len() > 0 ==> attempts[0].listing_before() == start
}

/// A settled purchase keeps a listing well formed: its inventory is not
/// oversold, and it is sold out exactly when nothing remains.
pub proof fn lemma_purchase_keeps_listing_well_formed(attempt: Attempt)
    requires
        attempt.listing_before().wf(),
    ensures
        attempt.listing_after().wf(),
        attempt.listing_after().remaining_units <= attempt.listing_after().total_data_units,
        attempt.listing_after().status == STATUS_SOLD_OUT <==> attempt.listing_after().remaining_units
            == 0 && attempt.listing_after().sold_at is Some,
{
}

/// A purchase moves a listing's status from active to sold out or leaves
/// it as it is, and a listing that is not active takes no purchase.
pub proof fn lemma_status_only_moves_forward(attempt: Attempt)
    ensures
        attempt.listing_before().status != STATUS_ACTIVE ==> !attempt.succeeds(),
        attempt.listing_after().status == attempt.listing_before().status || (
        attempt.listing_before().status == STATUS_ACTIVE && attempt.listing_after().status
            == STATUS_SOLD_OUT),
{
}

/// A settled purchase takes exactly the requested units off the inventory
/// and raises the purchase count by exactly one; a refused one changes
/// neither.
pub proof fn lemma_purchase_effect_on_inventory(attempt: Attempt)
    ensures
        attempt.succeeds() ==> attempt.listing_after().remaining_units + attempt.units_requested
            == attempt.listing_before().remaining_units,
        attempt.succeeds() ==> attempt.listing_after().purchase_count
            == attempt.listing_before().purchase_count + 1,
        !attempt.succeeds() ==> attempt.listing_after() == attempt.listing_before(),
{
}

/// Of every settled purchase: the price paid is the listing's price per
/// unit at that time multiplied by the units bought, the fee is the price's
/// share at the marketplace's rate, rounded down, and fee and remainder add
/// up to the price, all within the range of the amounts.
pub proof fn lemma_price_and_fee_of_purchase(attempt: Attempt, buyer_x25519_pubkey: Seq<u8>)
    requires
        attempt.succeeds(),
    ensures
        attempt.record(buyer_x25519_pubkey).price_paid == attempt.listing_before().price_per_unit
            * attempt.units_requested,
        attempt.record(buyer_x25519_pubkey).fee == (attempt.record(buyer_x25519_pubkey).price_paid
            * attempt.ctx.marketplace.data.seller_fee) / 10_000,
        attempt.record(buyer_x25519_pubkey).fee <= attempt.record(buyer_x25519_pubkey).price_paid,
        attempt.record(buyer_x25519_pubkey).fee + (attempt.record(buyer_x25519_pubkey).price_paid
            - attempt.record(buyer_x25519_pubkey).fee) == attempt.record(
            buyer_x25519_pubkey,
        ).price_paid,
        attempt.record(buyer_x25519_pubkey).price_paid <= u64::MAX,
        attempt.record(buyer_x25519_pubkey).price_paid <= attempt.ctx.buyer_ata.amount,
        attempt.record(buyer_x25519_pubkey).dek_capsule_for_buyer_cid.len() == 0,
{
}

/// Along a history every listing is well formed, if the first one is.
pub proof fn lemma_history_keeps_listing_well_formed(attempts: Seq<Attempt>, i: int)
    requires
        is_history(attempts),
        0 <= i < attempts.len(),
        attempts[0].listing_before().wf(),
    ensures
        attempts[i].listing_before().wf(),
        attempts[i].listing_after().wf(),
    decreases i,
{
    if i > 0 {
        lemma_history_keeps_listing_well_formed(attempts, i - 1);
        assert(attempts[(i - 1) + 1].listing_before() == attempts[i - 1].listing_after());
    }
    lemma_purchase_keeps_listing_well_formed(attempts[i]);
}

/// The purchase count of a listing is the number of purchases settled
/// against it: over any history it grows by the number of settled attempts.
pub proof fn lemma_purchase_count_counts_purchases(start: ListingView, attempts: Seq<Attempt>)
    requires
        is_history(attempts),
        begins_with(attempts, start),
    ensures
        listing_at_end(start, attempts).purchase_count == start.purchase_count + settled_count(
            attempts,
        ),
    decreases attempts.len(),
{
    if attempts.len() == 0 {
    } else {
        let earlier = attempts.drop_last();
        let last = attempts.last();
        assert forall|i: int| 0 <= i < earlier.len() - 1 implies (#[trigger] earlier[i
            + 1]).listing_before() == earlier[i].listing_after() by {
            assert(earlier[i + 1] == attempts[i + 1]);
            assert(earlier[i] == attempts[i]);
        }
        if earlier.len() > 0 {
            assert(earlier[0] == attempts[0]);
        }
        lemma_purchase_count_counts_purchases(start, earlier);
        if earlier.len() > 0 {
            let k = earlier.len() - 1;
            assert(attempts[k + 1].listing_before() == attempts[k].listing_after());
            assert(earlier.last() == attempts[k]);
            assert(last == attempts[k + 1]);
        }
        lemma_purchase_effect_on_inventory(last);
    }
}

/// Of a listing that was created and then saw a history of attempts, the
/// purchase count is exactly the number of settled attempts.
pub proof fn lemma_purchase_count_of_new_listing(start: ListingView, attempts: Seq<Attempt>)
    requires
        is_history(attempts),
        begins_with(attempts, start),
        start.purchase_count == 0,
    ensures
        listing_at_end(start, attempts).purchase_count == settled_count(attempts),
{
    lemma_purchase_count_counts_purchases(start, attempts);
}

/// Two attempts with one purchase index, one after the other against one
/// listing: not both are settled. Where the first is settled, the second is
/// refused and leaves the remaining units as it found them; and where the
/// second names the accounts that belong together, it is refused for its
/// stale index.
pub proof fn lemma_same_index_settles_once(first: Attempt, second: Attempt)
    requires
        second.listing_before() == first.listing_after(),
        second.purchase_index == first.purchase_index,
    ensures
        !(first.succeeds() && second.succeeds()),
        first.succeeds() ==> second.listing_after().remaining_units
            == second.listing_before().remaining_units,
        first.succeeds() && second.accounts_match() ==> second.error() == Some(
            ErrorCode::PurchaseIndexMismatch,
        ),
{
}

/// An attempt whose index is not the listing's purchase count is refused
/// and changes nothing: with the stale-index error where it names the
/// accounts that belong together.
pub proof fn lemma_stale_index_is_refused(attempt: Attempt)
    requires
        attempt.purchase_index != attempt.listing_before().purchase_count,
    ensures
        !attempt.succeeds(),
        attempt.listing_after() == attempt.listing_before(),
        attempt.accounts_match() ==> attempt.error() == Some(ErrorCode::PurchaseIndexMismatch),
{
}

/// A request for no units is refused before anything changes.
pub proof fn lemma_zero_units_is_refused(attempt: Attempt)
    requires
        attempt.units_requested == 0,
    ensures
        !attempt.succeeds(),
        attempt.listing_after() == attempt.listing_before(),
        attempt.accounts_match() && attempt.purchase_index
            == attempt.listing_before().purchase_count ==> attempt.error() == Some(
            ErrorCode::InvalidUnitsRequested,
        ),
{
}

/// A seller cannot buy from the seller's own listing.
pub proof fn lemma_own_listing_is_refused(attempt: Attempt)
    requires
        attempt.ctx.buyer == attempt.ctx.listing_state.data.seller,
    ensures
        !attempt.succeeds(),
        attempt.listing_after() == attempt.listing_before(),
        attempt.accounts_match() && attempt.purchase_index
            == attempt.listing_before().purchase_count && attempt.units_requested > 0
            && attempt.listing_before().status == STATUS_ACTIVE ==> attempt.error() == Some(
            ErrorCode::CannotBuyOwnListing,
        ),
{
}

/// A refused purchase that is made again with the listing's current index
/// leaves exactly one new purchase behind, not two: of the two attempts one
/// is settled, and the purchase count has grown by one.
pub proof fn lemma_retry_settles_once(stale: Attempt, retry: Attempt)
    requires
        !stale.succeeds(),
        retry.listing_before() == stale.listing_after(),
        retry.succeeds(),
    ensures
        settled_count(seq![stale, retry]) == 1,
        retry.purchase_index == stale.listing_before().purchase_count,
        retry.listing_after().purchase_count == stale.listing_before().purchase_count + 1,
{
    let both = seq![stale, retry];
    assert(both.drop_last() =~= seq![stale]);
    assert(seq![stale].drop_last() =~= Seq::<Attempt>::empty());
    assert(both.last() == retry);
    assert(seq![stale].last() == stale);
    reveal_with_fuel(settled_count, 3);
}

/// One step in the life of a listing: an attempt at a purchase, or an
/// attempt of someone to withdraw it.
pub enum Event {
    Purchase(Attempt),
    Cancel(CancelListing),
}

impl Event {
    /// The listing as the step found it.
    pub open spec fn listing_before(self) -> ListingView {
        match self {
            Event::Purchase(attempt) => attempt.listing_before(),
            Event::Cancel(ctx) => ctx.listing.data@,
        }
    }

    /// The listing as the step leaves it.
    pub open spec fn listing_after(self) -> ListingView {
        match self {
            Event::Purchase(attempt) => attempt.listing_after(),
            Event::Cancel(ctx) => if cancel_listing_error(&ctx) is None {
                cancelled_listing(ctx.listing.data)@
            } else {
                ctx.listing.data@
            },
        }
    }
}

/// A life of a listing: each step finds the listing as the step before it
/// left it.
pub open spec fn is_life(events: Seq<Event>) -> bool {
    forall|i: int|
        0 <= i < events.len() - 1 ==> (#[trigger] events[i + 1]).listing_before() == events[i].listing_after()
}

/// Every step keeps a listing well formed, and moves its status from active
/// to sold out, from active to cancelled, or not at all.
pub proof fn lemma_step_keeps_listing_well_formed(event: Event)
    requires
        event.listing_before().wf(),
    ensures
        event.listing_after().wf(),
        event.listing_after().status == event.listing_before().status || (
        event.listing_before().status == STATUS_ACTIVE && (event.listing_after().status
            == STATUS_SOLD_OUT || event.listing_after().status == STATUS_CANCELLED)),
        event.listing_after().purchase_count >= event.listing_before().purchase_count,
        event.listing_after().remaining_units <= event.listing_before().remaining_units,
{
}

/// A listing that is not active stays exactly as it is, whatever is
/// attempted: sold out and cancelled are final.
pub proof fn lemma_step_leaves_inactive_listing(event: Event)
    requires
        event.listing_before().status != STATUS_ACTIVE,
    ensures
        event.listing_after() == event.listing_before(),
{
}

/// Through a whole life every listing is well formed, if the first one is.
pub proof fn lemma_life_keeps_listing_well_formed(events: Seq<Event>, i: int)
    requires
        is_life(events),
        0 <= i < events.len(),
        events[0].listing_before().wf(),
    ensures
        events[i].listing_before().wf(),
        events[i].listing_after().wf(),
    decreases i,
{
    if i > 0 {
        lemma_life_keeps_listing_well_formed(events, i - 1);
        assert(events[(i - 1) + 1].listing_before() == events[i - 1].listing_after());
    }
    lemma_step_keeps_listing_well_formed(events[i]);
}

/// Once a listing is sold out or cancelled, it is the same listing at every
/// later step of its life: no purchase is settled and nothing is changed.
pub proof fn lemma_inactive_listing_is_final(events: Seq<Event>, i: int, j: int)
    requires
        is_life(events),
        0 <= i <= j < events.len(),
        events[i].listing_before().status != STATUS_ACTIVE,
    ensures
        events[j].listing_before() == events[i].listing_before(),
        events[j].listing_after() == events[i].listing_before(),
    decreases j - i,
{
    if j > i {
        lemma_inactive_listing_is_final(events, i, j - 1);
        assert(events[(j - 1) + 1].listing_before() == events[j - 1].listing_after());
    }
    lemma_step_leaves_inactive_listing(events[j]);
}

/// One attempt to bind a capsule to a purchase record: the accounts as they
/// stood when it was made, and the capsule.
pub struct Binding {
    pub ctx: FinalizePurchase,
    pub cid: Seq<char>,
}

impl Binding {
    /// Whether the capsule is bound.
    pub open spec fn succeeds(self) -> bool {
        finalize_error(&self.ctx, self.cid) is None
    }

    /// The record as the attempt found it.
    pub open spec fn record_before(self) -> PurchaseRecordView {
        self.ctx.purchase_record.data@
    }

    /// The record as the attempt leaves it.
    pub open spec fn record_after(self) -> PurchaseRecordView {
        if self.succeeds() {
            finalized_record(self.record_before(), self.cid)
        } else {
            self.record_before()
        }
    }
}

/// A life of a purchase record after its creation: each attempt finds the
/// record as the attempt before it left it.
pub open spec fn is_record_life(bindings: Seq<Binding>) -> bool {
    forall|i: int|
        0 <= i < bindings.len() - 1 ==> (#[trigger] bindings[i + 1]).record_before() == bindings[i].record_after()
}

/// An attempt changes nothing of a record but the capsule for the buyer,
/// and that only from empty to set.
pub proof fn lemma_binding_writes_one_field(binding: Binding)
    ensures
        binding.record_after() == (PurchaseRecordView {
            dek_capsule_for_buyer_cid: binding.record_after().dek_capsule_for_buyer_cid,
            ..binding.record_before()
        }),
        binding.record_after().dek_capsule_for_buyer_cid
            != binding.record_before().dek_capsule_for_buyer_cid
            ==> binding.record_before().dek_capsule_for_buyer_cid.len() == 0
            && binding.record_after().dek_capsule_for_buyer_cid.len() > 0,
{
}

/// Once a record holds a capsule for the buyer, it is the same record at
/// every later attempt: the capsule is written once and then kept.
pub proof fn lemma_bound_capsule_is_kept(bindings: Seq<Binding>, i: int, j: int)
    requires
        is_record_life(bindings),
        0 <= i <= j < bindings.len(),
        bindings[i].record_before().is_finalized(),
    ensures
        !bindings[j].succeeds(),
        bindings[j].record_before() == bindings[i].record_before(),
        bindings[j].record_after() == bindings[i].record_before(),
    decreases j - i,
{
    if j > i {
        lemma_bound_capsule_is_kept(bindings, i, j - 1);
        assert(bindings[(j - 1) + 1].record_before() == bindings[j - 1].record_after());
    }
}

/// Of all the attempts in the life of a record at most one binds a
/// capsule: where one succeeds, every later one is refused and the record
/// keeps the capsule of the one that succeeded.
pub proof fn lemma_capsule_is_bound_at_most_once(bindings: Seq<Binding>, i: int, j: int)
    requires
        is_record_life(bindings),
        0 <= i < j < bindings.len(),
        bindings[i].succeeds(),
    ensures
        !bindings[j].succeeds(),
        bindings[j].record_after().dek_capsule_for_buyer_cid == bindings[i].cid,
{
    assert(bindings[i + 1].record_before() == bindings[i].record_after());
    lemma_bound_capsule_is_kept(bindings, i + 1, j);
}

} // verus!
