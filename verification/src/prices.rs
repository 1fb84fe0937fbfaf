use vstd::prelude::*;

use crate::models::InvestmentAddress;

verus! {

// ---------------------------------------------------------------------------
// The quote service
// ---------------------------------------------------------------------------

/// Endpoint of the DexScreener quote service; a token's address follows it.
pub const TOKEN_PRICE_ENDPOINT: &'static str = "https://api.dexscreener.com/latest/dex/tokens/";

/// The price text taken when the quote names no price.
pub const NO_PRICE_TEXT: &'static str = "0";

/// The URL that quotes the token at `token_address`.
pub fn token_price_url(token_address: &str) -> (url: String)
    ensures
        url@ == TOKEN_PRICE_ENDPOINT@ + token_address@,
{
    let url = String::from_str(TOKEN_PRICE_ENDPOINT);
    url.concat(token_address)
}

/// One trading pair of a quote, as far as the price is read from it: its
/// `priceUsd` field when that is a string.
#[derive(Debug, Clone, PartialEq, Eq)]
pub struct PairQuote {
    pub price_usd: Option<String>,
}

/// The price text of a quote: the `priceUsd` of its first pair, or `"0"`
/// when there is no pair or the first pair has no such string.
pub open spec fn price_text_spec(pairs: Seq<PairQuote>) -> Seq<char> {
    if pairs.len() > 0 && pairs[0].price_usd is Some {
        pairs[0].price_usd->Some_0@
    } else {
        NO_PRICE_TEXT@
    }
}

/// Picks the text of a token's price out of a quote's pairs (the `pairs`
/// array of the reply, empty when the reply has none).
pub fn price_text(pairs: &Vec<PairQuote>) -> (t: String)
    ensures
        t@ == price_text_spec(pairs@),
{
    if pairs.len() > 0 {
        match &pairs[0].price_usd {
            Some(p) => return p.clone(),
            None => {},
        }
    }
    String::from_str(NO_PRICE_TEXT)
}

/// A quote with at least one pair whose first pair names a `priceUsd`
/// string gives that string, whatever follows it; a quote with no pair, or
/// whose first pair names none, gives `"0"`.
pub proof fn lemma_price_text_is_first_pair_price(pairs: Seq<PairQuote>)
    ensures
        pairs.len() >= 1 && pairs[0].price_usd is Some ==> price_text_spec(pairs)
            == pairs[0].price_usd->Some_0@,
        pairs.len() == 0 ==> price_text_spec(pairs) == "0"@,
        pairs.len() >= 1 && pairs[0].price_usd is None ==> price_text_spec(pairs) == "0"@,
{
    assert(NO_PRICE_TEXT@ == "0"@);
}

// ---------------------------------------------------------------------------
// Which investments get a fresh price
// ---------------------------------------------------------------------------

/// Which token addresses are worth a quote.
#[derive(Debug, Clone, PartialEq, Eq)]
pub enum AddressRule {
    /// Any address that is present and not empty (the home page).
    NonBlank,
    /// Any address that is present (the periodic refresh).
    Present,
}

/// Whether `inv` gets a fresh price under `rule`.
pub open spec fn is_refresh_target(inv: InvestmentAddress, rule: AddressRule) -> bool {
    match inv.token_address {
        None => false,
        Some(a) => match rule {
            AddressRule::NonBlank => a@.len() > 0,
            AddressRule::Present => true,
        },
    }
}

/// The positions, in order, of the investments that get a fresh price.
pub open spec fn refresh_targets_spec(invs: Seq<InvestmentAddress>, rule: AddressRule) -> Seq<
    usize,
>
    decreases invs.len(),
{
    if invs.len() == 0 {
        Seq::empty()
    } else {
        let earlier = refresh_targets_spec(invs.drop_last(), rule);
        if is_refresh_target(invs.last(), rule) {
            earlier.push((invs.len() - 1) as usize)
        } else {
            earlier
        }
    }
}

fn is_target(inv: &InvestmentAddress, rule: &AddressRule) -> (b: bool)
    ensures
        b == is_refresh_target(*inv, *rule),
{
    match &inv.token_address {
        None => false,
        Some(a) => match rule {
            AddressRule::NonBlank => !a.as_str().is_empty(),
            AddressRule::Present => true,
        },
    }
}

/// The positions, in order, of the investments that get a fresh price
/// under `rule`.
pub fn refresh_targets(invs: &Vec<InvestmentAddress>, rule: &AddressRule) -> (t: Vec<usize>)
    ensures
        t@ == refresh_targets_spec(invs@, *rule),
{
    let mut t: Vec<usize> = Vec::new();
    let mut i: usize = 0;
    while i < invs.len()
        invariant
            i <= invs.len(),
            t@ == refresh_targets_spec(invs@.take(i as int), *rule),
        decreases invs.len() - i,
    {
        let ghost prefix = invs@.take(i + 1);
        assert(prefix.drop_last() =~= invs@.take(i as int));
        assert(prefix.last() == invs@[i as int]);
        if is_target(&invs[i], rule) {
            t.push(i);
        }
        i = i + 1;
    }
    assert(invs@.take(invs.len() as int) =~= invs@);
    t
}

/// The refresh targets are exactly the investments that the rule selects,
/// each named once, in the order of the list.
pub proof fn lemma_refresh_targets_exact(invs: Seq<InvestmentAddress>, rule: AddressRule)
    requires
        invs.len() <= usize::MAX,
    ensures
        forall|k: int|
            0 <= k < refresh_targets_spec(invs, rule).len() ==> {
                let i = #[trigger] refresh_targets_spec(invs, rule)[k];
                i < invs.len() && is_refresh_target(invs[i as int], rule)
            },
        forall|k: int, l: int|
            0 <= k < l < refresh_targets_spec(invs, rule).len() ==> #[trigger] refresh_targets_spec(
                invs,
                rule,
            )[k] < #[trigger] refresh_targets_spec(invs, rule)[l],
        forall|i: int|
            0 <= i < invs.len() && #[trigger] is_refresh_target(invs[i], rule) ==> exists|k: int|
                0 <= k < refresh_targets_spec(invs, rule).len() && #[trigger] refresh_targets_spec(
                    invs,
                    rule,
                )[k] == i,
    decreases invs.len(),
{
    if invs.len() > 0 {
        let earlier = invs.drop_last();
        lemma_refresh_targets_exact(earlier, rule);
        let t = refresh_targets_spec(invs, rule);
        let te = refresh_targets_spec(earlier, rule);
        assert forall|i: int|
            0 <= i < invs.len() && #[trigger] is_refresh_target(invs[i], rule) implies exists|k: int|
                0 <= k < t.len() && #[trigger] t[k] == i by {
            if i < invs.len() - 1 {
                assert(earlier[i] == invs[i]);
                assert(is_refresh_target(earlier[i], rule));
                let k = choose|k: int| 0 <= k < te.len() && #[trigger] te[k] == i;
                assert(t[k] == te[k]);
            } else {
                assert(invs.last() == invs[i]);
                assert(t[t.len() - 1] == i);
            }
        }
    }
}

/// Under the home page's rule an investment gets a fresh price exactly when
/// it has a token address that is not empty, whatever its length; under the
/// periodic rule exactly when it has a token address.
pub proof fn lemma_refresh_targets_by_address(invs: Seq<InvestmentAddress>)
    requires
        invs.len() <= usize::MAX,
    ensures
        forall|i: int|
            #![trigger invs[i]]
            0 <= i < invs.len() ==> (refresh_targets_spec(invs, AddressRule::NonBlank).contains(
                i as usize,
            ) <==> (invs[i].token_address matches Some(a) && a@.len() > 0)),
        forall|i: int|
            #![trigger invs[i]]
            0 <= i < invs.len() ==> (refresh_targets_spec(invs, AddressRule::Present).contains(
                i as usize,
            ) <==> invs[i].token_address is Some),
{
    lemma_refresh_targets_exact(invs, AddressRule::NonBlank);
    lemma_refresh_targets_exact(invs, AddressRule::Present);
    let tn = refresh_targets_spec(invs, AddressRule::NonBlank);
    let tp = refresh_targets_spec(invs, AddressRule::Present);
    assert forall|i: int| #![trigger invs[i]] 0 <= i < invs.len() implies (tn.contains(i as usize) <==> (
    invs[i].token_address matches Some(a) && a@.len() > 0)) by {
        if tn.contains(i as usize) {
            let k = choose|k: int| 0 <= k < tn.len() && tn[k] == i as usize;
            assert(is_refresh_target(invs[tn[k] as int], AddressRule::NonBlank));
        }
        if is_refresh_target(invs[i], AddressRule::NonBlank) {
            let k = choose|k: int| 0 <= k < tn.len() && #[trigger] tn[k] == i;
            assert(tn[k] == i as usize);
        }
    }
    assert forall|i: int| #![trigger invs[i]] 0 <= i < invs.len() implies (tp.contains(i as usize)
        <==> invs[i].token_address is Some) by {
        if tp.contains(i as usize) {
            let k = choose|k: int| 0 <= k < tp.len() && tp[k] == i as usize;
            assert(is_refresh_target(invs[tp[k] as int], AddressRule::Present));
        }
        if is_refresh_target(invs[i], AddressRule::Present) {
            let k = choose|k: int| 0 <= k < tp.len() && #[trigger] tp[k] == i;
            assert(tp[k] == i as usize);
        }
    }
}

// ---------------------------------------------------------------------------
// The refresh, step by step
// ---------------------------------------------------------------------------

/// What the refresh waits for.
#[derive(Debug, Clone, PartialEq, Eq)]
pub enum Awaiting {
    /// Nothing has been asked yet.
    Start,
    /// The price of the current target.
    Fetch,
    /// The storing of the current target's new price.
    Store,
    /// Nothing more: every target has been handled.
    Done,
}

/// What the refresh asks the caller to do next.
#[derive(Debug, Clone, PartialEq, Eq)]
pub enum RefreshAction {
    /// Fetch the price of the token at `address`, for the investment at
    /// position `index` of the list.
    FetchPrice { index: usize, address: String },
    /// Take the price just fetched as the current price of the investment
    /// at position `index` and store it for the investment `investment_id`.
    StorePrice { index: usize, investment_id: i32 },
    /// The refresh is over.
    Finished,
}

/// The abstract state of a refresh: the investments it runs over, their
/// refresh targets, how many of these are behind it, and what it waits for.
pub ghost struct RefreshProgress {
    pub invs: Seq<InvestmentAddress>,
    pub targets: Seq<usize>,
    pub position: nat,
    pub awaiting: Awaiting,
}

/// A refresh of the prices of a list of investments: it asks for each
/// target's price in turn, and for the price to be stored when it came.
pub struct PriceRefresh {
    targets: Vec<usize>,
    position: usize,
    awaiting: Awaiting,
    invs: Ghost<Seq<InvestmentAddress>>,
}

impl View for PriceRefresh {
    type V = RefreshProgress;

    closed spec fn view(&self) -> RefreshProgress {
        RefreshProgress {
            invs: self.invs@,
            targets: self.targets@,
            position: self.position as nat,
            awaiting: self.awaiting,
        }
    }
}

/// `a` is what the refresh asks for once `p.position` targets are behind
/// it: the price of the next target, or the end when none is left.
pub open spec fn announces_next(a: RefreshAction, p: RefreshProgress) -> bool {
    if p.position < p.targets.len() {
        let i = p.targets[p.position as int];
        &&& p.awaiting == Awaiting::Fetch
        &&& a matches RefreshAction::FetchPrice { index, address } && index == i
            && p.invs[i as int].token_address is Some
            && address@ == p.invs[i as int].token_address->Some_0@
    } else {
        p.awaiting == Awaiting::Done && a is Finished
    }
}

/// An upper bound on the steps a refresh still takes: two for each target
/// not yet behind it (a fetch and a store), less what the current one has
/// already taken, plus one before the first step.
pub open spec fn steps_left(p: RefreshProgress) -> int {
    let rest = p.targets.len() - p.position;
    match p.awaiting {
        Awaiting::Start => 2 * rest + 1,
        Awaiting::Fetch => 2 * rest,
        Awaiting::Store => 2 * rest - 1,
        Awaiting::Done => 0,
    }
}

impl PriceRefresh {
    /// The refresh is consistent: its targets are those of its investments
    /// under some rule, and it waits for a fetch or a store only while a
    /// target is in hand.
    pub closed spec fn wf(&self) -> bool {
        &&& exists|rule: AddressRule| self.targets@ == refresh_targets_spec(self.invs@, rule)
        &&& self.invs@.len() <= usize::MAX
        &&& self.position <= self.targets.len()
        &&& (self.awaiting == Awaiting::Fetch || self.awaiting == Awaiting::Store) ==> self.position
            < self.targets.len()
        &&& self.awaiting == Awaiting::Done ==> self.position == self.targets.len()
    }

    /// A refresh of the investments `invs` whose targets `rule` selects,
    /// before its first step.
    pub fn new(invs: &Vec<InvestmentAddress>, rule: AddressRule) -> (r: PriceRefresh)
        ensures
            r.wf(),
            r@ == (RefreshProgress {
                invs: invs@,
                targets: refresh_targets_spec(invs@, rule),
                position: 0,
                awaiting: Awaiting::Start,
            }),
    {
        let targets = refresh_targets(invs, &rule);
        let n = invs.len();
        assert(invs@.len() == n);
        PriceRefresh { targets, position: 0, awaiting: Awaiting::Start, invs: Ghost(invs@) }
    }

    fn announce(&mut self, invs: &Vec<InvestmentAddress>) -> (a: RefreshAction)
        requires
            old(self).wf(),
            invs@ == old(self)@.invs,
        ensures
            final(self).wf(),
            final(self)@.invs == old(self)@.invs,
            final(self)@.targets == old(self)@.targets,
            final(self)@.position == old(self)@.position,
            announces_next(a, final(self)@),
    {
        proof {
            let rule = choose|rule: AddressRule|
                self.targets@ == refresh_targets_spec(self.invs@, rule);
            lemma_refresh_targets_exact(self.invs@, rule);
        }
        if self.position < self.targets.len() {
            let index = self.targets[self.position];
            assert(self.targets@[self.position as int] == index);
            self.awaiting = Awaiting::Fetch;
            match &invs[index].token_address {
                Some(a) => RefreshAction::FetchPrice { index, address: a.clone() },
                None => {
                    assert(false);
                    RefreshAction::Finished
                },
            }
        } else {
            self.awaiting = Awaiting::Done;
            RefreshAction::Finished
        }
    }

    /// The first step: asks for the first target's price, or ends at once
    /// when there is no target.
    pub fn start(&mut self, invs: &Vec<InvestmentAddress>) -> (a: RefreshAction)
        requires
            old(self).wf(),
            old(self)@.awaiting == Awaiting::Start,
            invs@ == old(self)@.invs,
        ensures
            final(self).wf(),
            final(self)@.invs == old(self)@.invs,
            final(self)@.targets == old(self)@.targets,
            final(self)@.position == old(self)@.position,
            announces_next(a, final(self)@),
            0 <= steps_left(final(self)@) < steps_left(old(self)@),
    {
        self.announce(invs)
    }

    /// The step after a price fetch: when the fetch succeeded, asks for the
    /// price to be stored for the same investment; when it failed, moves on
    /// to the next target (or ends).
    pub fn price_fetched(&mut self, invs: &Vec<InvestmentAddress>, succeeded: bool) -> (a:
        RefreshAction)
        requires
            old(self).wf(),
            old(self)@.awaiting == Awaiting::Fetch,
            invs@ == old(self)@.invs,
        ensures
            final(self).wf(),
            final(self)@.invs == old(self)@.invs,
            final(self)@.targets == old(self)@.targets,
            succeeded ==> {
                let i = old(self)@.targets[old(self)@.position as int];
                &&& final(self)@.position == old(self)@.position
                &&& final(self)@.awaiting == Awaiting::Store
                &&& a matches RefreshAction::StorePrice { index, investment_id } && index == i
                    && investment_id == invs@[i as int].id
            },
            !succeeded ==> {
                &&& final(self)@.position == old(self)@.position + 1
                &&& announces_next(a, final(self)@)
            },
            0 <= steps_left(final(self)@) < steps_left(old(self)@),
    {
        proof {
            let rule = choose|rule: AddressRule|
                self.targets@ == refresh_targets_spec(self.invs@, rule);
            lemma_refresh_targets_exact(self.invs@, rule);
        }
        if succeeded {
            let index = self.targets[self.position];
            assert(self.targets@[self.position as int] == index);
            self.awaiting = Awaiting::Store;
            RefreshAction::StorePrice { index, investment_id: invs[index].id }
        } else {
            self.awaiting = Awaiting::Start;
            self.position = self.position + 1;
            self.announce(invs)
        }
    }

    /// The step after a price was stored: moves on to the next target (or
    /// ends).
    pub fn price_stored(&mut self, invs: &Vec<InvestmentAddress>) -> (a: RefreshAction)
        requires
            old(self).wf(),
            old(self)@.awaiting == Awaiting::Store,
            invs@ == old(self)@.invs,
        ensures
            final(self).wf(),
            final(self)@.invs == old(self)@.invs,
            final(self)@.targets == old(self)@.targets,
            final(self)@.position == old(self)@.position + 1,
            announces_next(a, final(self)@),
            0 <= steps_left(final(self)@) < steps_left(old(self)@),
    {
        self.awaiting = Awaiting::Start;
        self.position = self.position + 1;
        self.announce(invs)
    }

    /// Whether the refresh waits for a price.
    pub fn awaits_price(&self) -> (b: bool)
        ensures
            b == (self@.awaiting == Awaiting::Fetch),
    {
        match self.awaiting {
            Awaiting::Fetch => true,
            _ => false,
        }
    }

    /// Whether the refresh waits for a price to be stored.
    pub fn awaits_store(&self) -> (b: bool)
        ensures
            b == (self@.awaiting == Awaiting::Store),
    {
        match self.awaiting {
            Awaiting::Store => true,
            _ => false,
        }
    }

    /// Whether the refresh has not taken its first step.
    pub fn awaits_start(&self) -> (b: bool)
        ensures
            b == (self@.awaiting == Awaiting::Start),
    {
        match self.awaiting {
            Awaiting::Start => true,
            _ => false,
        }
    }
}

} // verus!
