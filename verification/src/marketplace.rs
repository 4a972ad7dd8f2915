//! The marketplace: listings of paper tokens in the order in which they
//! were registered, and for each a bounded history of recorded trades.

use vstd::prelude::*;
use crate::address::Address;
use crate::error::MarketplaceError;

verus! {

/// The configuration record of the marketplace.
#[derive(Clone, Copy, Debug, PartialEq, Eq, Structural)]
pub struct MarketplaceConfig {
    pub admin: Address,
    pub registry: Option<Address>,
    pub max_trade_history: u32,
}

/// What the marketplace keeps of a listed paper.
#[derive(Debug)]
pub struct Listing {
    pub paper_id: u32,
    pub token: Address,
    pub metadata_uri: String,
    pub owner: Address,
    pub is_active: bool,
    pub created_at: u64,
}

impl Clone for Listing {
    fn clone(&self) -> (l: Self)
        ensures
            l == *self,
    {
        Listing {
            paper_id: self.paper_id,
            token: self.token,
            metadata_uri: self.metadata_uri.clone(),
            owner: self.owner,
            is_active: self.is_active,
            created_at: self.created_at,
        }
    }
}

/// A listing together with the identifier of its paper.
#[derive(Debug)]
pub struct ListingRecord {
    pub id: u32,
    pub data: Listing,
}

/// A recorded trade.
#[derive(Clone, Copy, Debug, PartialEq, Eq, Structural)]
pub struct Trade {
    pub trader: Address,
    pub amount: i128,
    pub cost: i128,
    pub is_buy: bool,
    pub timestamp: u64,
}

/// The history length that `init` sets where it is given zero.
pub const DEFAULT_TRADE_HISTORY: u32 = 50;

/// No paper is listed twice.
pub open spec fn ids_distinct(listings: Seq<Listing>) -> bool {
    forall|i: int, j: int|
        0 <= i < j < listings.len() ==> #[trigger] listings[i].paper_id
            != #[trigger] listings[j].paper_id
}

/// Whether the paper `paper_id` is listed.
pub open spec fn listed(listings: Seq<Listing>, paper_id: u32) -> bool {
    exists|i: int| 0 <= i < listings.len() && #[trigger] listings[i].paper_id == paper_id
}

/// The position of the listing of a listed paper.
pub open spec fn place_of(listings: Seq<Listing>, paper_id: u32) -> int {
    choose|i: int| 0 <= i < listings.len() && #[trigger] listings[i].paper_id == paper_id
}

/// Where no paper is listed twice, a listing is found at its own position.
pub proof fn lemma_place(listings: Seq<Listing>, i: int)
    requires
        ids_distinct(listings),
        0 <= i < listings.len(),
    ensures
        listed(listings, listings[i].paper_id),
        place_of(listings, listings[i].paper_id) == i,
{
}

/// The listings as records, in their order; with `only_active`, only those
/// that are active.
pub open spec fn shown(listings: Seq<Listing>, only_active: bool) -> Seq<ListingRecord>
    decreases listings.len(),
{
    if listings.len() == 0 {
        Seq::empty()
    } else if !only_active || listings.last().is_active {
        shown(listings.drop_last(), only_active).push(
            ListingRecord { id: listings.last().paper_id, data: listings.last() },
        )
    } else {
        shown(listings.drop_last(), only_active)
    }
}

/// The first `limit` of `records`, or all of them where `limit` is zero.
pub open spec fn limited<T>(records: Seq<T>, limit: int) -> Seq<T> {
    if limit == 0 || records.len() <= limit {
        records
    } else {
        records.take(limit)
    }
}

/// The last `keep` of `trades`, or all of them where they are no more.
pub open spec fn trimmed(trades: Seq<Trade>, keep: int) -> Seq<Trade> {
    if trades.len() > keep {
        trades.subrange(trades.len() - keep, trades.len() as int)
    } else {
        trades
    }
}

/// What is shown of the first `k` listings is the beginning of what is
/// shown of all.
pub proof fn lemma_shown_prefix(listings: Seq<Listing>, only_active: bool, k: int)
    requires
        0 <= k <= listings.len(),
    ensures
        shown(listings.take(k), only_active).len() <= shown(listings, only_active).len(),
        shown(listings.take(k), only_active) == shown(listings, only_active).take(
            shown(listings.take(k), only_active).len() as int,
        ),
    decreases listings.len(),
{
    if k == listings.len() {
        assert(listings.take(k) =~= listings);
        assert(shown(listings, only_active).take(shown(listings, only_active).len() as int)
            =~= shown(listings, only_active));
    } else {
        lemma_shown_prefix(listings.drop_last(), only_active, k);
        assert(listings.drop_last().take(k) =~= listings.take(k));
    }
}

/// The state of a marketplace as contracts see it: the configuration, the
/// listings in the order of their registration, and for each listing, at
/// the same position, the history of its trades.
pub struct MarketplaceView {
    pub config: Option<MarketplaceConfig>,
    pub listings: Seq<Listing>,
    pub histories: Seq<Seq<Trade>>,
}

impl MarketplaceView {
    /// The state before anything happened.
    pub open spec fn blank() -> MarketplaceView {
        MarketplaceView { config: None, listings: Seq::empty(), histories: Seq::empty() }
    }

    /// Every listing has its history, no paper is listed twice, and no
    /// history is longer than the configuration allows; without a
    /// configuration no trade has been recorded.
    pub open spec fn inv(self) -> bool {
        &&& self.listings.len() == self.histories.len()
        &&& ids_distinct(self.listings)
        &&& match self.config {
            Some(c) => {
                &&& c.max_trade_history > 0
                &&& forall|i: int|
                    0 <= i < self.histories.len() ==> (#[trigger] self.histories[i]).len()
                        <= c.max_trade_history
            },
            None => forall|i: int|
                0 <= i < self.histories.len() ==> (#[trigger] self.histories[i]).len() == 0,
        }
    }

    /// The recorded trades of the paper `paper_id`, oldest first; none for
    /// a paper that is not listed.
    pub open spec fn history_of(self, paper_id: u32) -> Seq<Trade> {
        if listed(self.listings, paper_id) {
            self.histories[place_of(self.listings, paper_id)]
        } else {
            Seq::empty()
        }
    }

    /// Why `set_registry` is refused, if it is; the first failing check
    /// decides.
    pub open spec fn set_registry_refusal(
        self,
        caller: Address,
        authorized: bool,
    ) -> Option<MarketplaceError> {
        match self.config {
            None => Some(MarketplaceError::NotInitialized),
            Some(c) => if !authorized || caller != c.admin {
                Some(MarketplaceError::Unauthorized)
            } else {
                None
            },
        }
    }

    /// Why `register_listing` is refused, if it is; the first failing check
    /// decides.
    pub open spec fn register_refusal(
        self,
        authorized: bool,
        paper_id: u32,
    ) -> Option<MarketplaceError> {
        if !authorized {
            Some(MarketplaceError::Unauthorized)
        } else if listed(self.listings, paper_id) {
            Some(MarketplaceError::ListingExists)
        } else {
            None
        }
    }

    /// Why a change that the administrator and the listing's owner may make
    /// is refused, if it is; the first failing check decides.
    pub open spec fn owner_change_refusal(
        self,
        caller: Address,
        authorized: bool,
        paper_id: u32,
    ) -> Option<MarketplaceError> {
        if !authorized {
            Some(MarketplaceError::Unauthorized)
        } else {
            match self.config {
                None => Some(MarketplaceError::NotInitialized),
                Some(c) => if !listed(self.listings, paper_id) {
                    Some(MarketplaceError::ListingNotFound)
                } else if caller != c.admin && caller != self.listings[place_of(
                    self.listings,
                    paper_id,
                )].owner {
                    Some(MarketplaceError::Unauthorized)
                } else {
                    None
                },
            }
        }
    }

    /// Why a change that only the administrator may make is refused, if it
    /// is; the first failing check decides.
    pub open spec fn admin_change_refusal(
        self,
        caller: Address,
        authorized: bool,
        paper_id: u32,
    ) -> Option<MarketplaceError> {
        if !authorized {
            Some(MarketplaceError::Unauthorized)
        } else {
            match self.config {
                None => Some(MarketplaceError::NotInitialized),
                Some(c) => if caller != c.admin {
                    Some(MarketplaceError::Unauthorized)
                } else if !listed(self.listings, paper_id) {
                    Some(MarketplaceError::ListingNotFound)
                } else {
                    None
                },
            }
        }
    }

    /// Why `record_trade` is refused, if it is; the first failing check
    /// decides.
    pub open spec fn record_trade_refusal(
        self,
        caller: Address,
        authorized: bool,
        paper_id: u32,
        amount: int,
        cost: int,
    ) -> Option<MarketplaceError> {
        if amount <= 0 || cost <= 0 {
            Some(MarketplaceError::InvalidTrade)
        } else {
            self.owner_change_refusal(caller, authorized, paper_id)
        }
    }
}

/// The trades of `source` from the position `from` on.
fn copy_from(source: &Vec<Trade>, from: usize) -> (copy: Vec<Trade>)
    requires
        from <= source.len(),
    ensures
        copy@ == source@.subrange(from as int, source.len() as int),
{
    let mut copy: Vec<Trade> = Vec::new();
    let mut i: usize = from;
    while i < source.len()
        invariant
            from <= i <= source.len(),
            copy@ == source@.subrange(from as int, i as int),
        decreases source.len() - i,
    {
        copy.push(source[i]);
        i += 1;
    }
    copy
}

/// The marketplace.
#[derive(Debug)]
pub struct PapexMarketplace {
    cfg: Option<MarketplaceConfig>,
    listings: Vec<Listing>,
    histories: Vec<Vec<Trade>>,
}

impl View for PapexMarketplace {
    type V = MarketplaceView;

    closed spec fn view(&self) -> MarketplaceView {
        MarketplaceView {
            config: self.cfg,
            listings: self.listings@,
            histories: Seq::new(self.histories@.len(), |i: int| self.histories@[i]@),
        }
    }
}

impl PapexMarketplace {
    /// A marketplace without configuration and without listings.
    pub fn new() -> (m: PapexMarketplace)
        ensures
            m@ == MarketplaceView::blank(),
            m@.inv(),
    {
        let m = PapexMarketplace { cfg: None, listings: Vec::new(), histories: Vec::new() };
        proof {
            assert(m@.histories =~= Seq::<Seq<Trade>>::empty());
        }
        m
    }

    /// The marketplace whose persisted records are the arguments, if they
    /// form a state that the marketplace can be in. The history at a
    /// position is that of the listing at the same position.
    pub fn restore(
        cfg: Option<MarketplaceConfig>,
        listings: Vec<Listing>,
        histories: Vec<Vec<Trade>>,
    ) -> (r: Option<PapexMarketplace>)
        ensures
            match r {
                Some(m) => {
                    &&& m@.config == cfg
                    &&& m@.listings == listings@
                    &&& m@.histories == Seq::new(histories@.len(), |i: int| histories@[i]@)
                    &&& m@.inv()
                },
                None => !(MarketplaceView {
                    config: cfg,
                    listings: listings@,
                    histories: Seq::new(histories@.len(), |i: int| histories@[i]@),
                }).inv(),
            },
    {
        let ghost view = MarketplaceView {
            config: cfg,
            listings: listings@,
            histories: Seq::new(histories@.len(), |i: int| histories@[i]@),
        };
        let n: usize = listings.len();
        if histories.len() != n {
            return None;
        }
        let keep: usize = match cfg {
            Some(c) => {
                if c.max_trade_history == 0 {
                    return None;
                }
                c.max_trade_history as usize
            },
            None => 0,
        };
        let mut i: usize = 0;
        while i < n
            invariant
                i <= n,
                n == listings.len(),
                n == histories.len(),
                view.histories == Seq::new(histories@.len(), |i: int| histories@[i]@),
                cfg is Some ==> keep == cfg->0.max_trade_history,
                cfg is None ==> keep == 0,
                forall|a: int, b: int|
                    0 <= a < b < i ==> #[trigger] listings@[a].paper_id
                        != #[trigger] listings@[b].paper_id,
                forall|a: int| 0 <= a < i ==> (#[trigger] view.histories[a]).len() <= keep,
            decreases n - i,
        {
            assert(view.histories[i as int] == histories@[i as int]@);
            if histories[i].len() > keep {
                return None;
            }
            let mut j: usize = 0;
            while j < i
                invariant
                    j <= i < n,
                    n == listings.len(),
                    forall|a: int|
                        0 <= a < j ==> #[trigger] listings@[a].paper_id
                            != listings@[i as int].paper_id,
                decreases i - j,
            {
                if listings[j].paper_id == listings[i].paper_id {
                    return None;
                }
                j += 1;
            }
            i += 1;
        }
        Some(PapexMarketplace { cfg, listings, histories })
    }

    /// The listings, in the order of their registration.
    pub fn listings(&self) -> (listings: &Vec<Listing>)
        ensures
            listings@ == self@.listings,
    {
        &self.listings
    }

    /// The histories, each at the position of its listing.
    pub fn histories(&self) -> (histories: &Vec<Vec<Trade>>)
        ensures
            self@.histories == Seq::new(histories@.len(), |i: int| histories@[i]@),
    {
        &self.histories
    }

    /// The position of the listing of the paper `paper_id`, if it is listed.
    fn find(&self, paper_id: u32) -> (r: Option<usize>)
        ensures
            match r {
                Some(i) => i < self@.listings.len() && self@.listings[i as int].paper_id
                    == paper_id,
                None => !listed(self@.listings, paper_id),
            },
    {
        let mut i: usize = 0;
        while i < self.listings.len()
            invariant
                i <= self.listings.len(),
                forall|k: int| 0 <= k < i ==> self.listings@[k].paper_id != paper_id,
            decreases self.listings.len() - i,
        {
            if self.listings[i].paper_id == paper_id {
                return Some(i);
            }
            i += 1;
        }
        None
    }

    /// Writes the configuration and starts the marketplace empty: listings
    /// and trades from before are dropped. A history length of zero stands
    /// for [`DEFAULT_TRADE_HISTORY`].
    ///
    /// `authorized` says whether `admin` has proved its identity for this call.
    pub fn init(
        &mut self,
        admin: Address,
        authorized: bool,
        registry: Option<Address>,
        max_trade_history: u32,
    ) -> (r: Result<MarketplaceConfig, MarketplaceError>)
        requires
            old(self)@.inv(),
        ensures
            final(self)@.inv(),
            match r {
                Err(e) => {
                    &&& e == if old(self)@.config is Some {
                        MarketplaceError::AlreadyInitialized
                    } else {
                        MarketplaceError::Unauthorized
                    }
                    &&& old(self)@.config is Some || !authorized
                    &&& final(self)@ == old(self)@
                },
                Ok(config) => {
                    &&& old(self)@.config is None
                    &&& authorized
                    &&& config == (MarketplaceConfig {
                        admin,
                        registry,
                        max_trade_history: if max_trade_history == 0 {
                            DEFAULT_TRADE_HISTORY
                        } else {
                            max_trade_history
                        },
                    })
                    &&& final(self)@ == (MarketplaceView {
                        config: Some(config),
                        listings: Seq::empty(),
                        histories: Seq::empty(),
                    })
                },
            },
    {
        if self.cfg.is_some() {
            return Err(MarketplaceError::AlreadyInitialized);
        }
        if !authorized {
            return Err(MarketplaceError::Unauthorized);
        }
        let config = MarketplaceConfig {
            admin,
            registry,
            max_trade_history: if max_trade_history == 0 {
                DEFAULT_TRADE_HISTORY
            } else {
                max_trade_history
            },
        };
        self.cfg = Some(config);
        self.listings = Vec::new();
        self.histories = Vec::new();
        proof {
            assert(self@.histories =~= Seq::<Seq<Trade>>::empty());
        }
        Ok(config)
    }

    /// The configuration record.
    pub fn config(&self) -> (r: Result<MarketplaceConfig, MarketplaceError>)
        ensures
            r == match self@.config {
                Some(c) => Ok::<MarketplaceConfig, MarketplaceError>(c),
                None => Err(MarketplaceError::NotInitialized),
            },
    {
        match self.cfg {
            Some(c) => Ok(c),
            None => Err(MarketplaceError::NotInitialized),
        }
    }

    /// Names the registry, or none. Only the administrator may.
    ///
    /// `authorized` says whether `caller` has proved its identity for this call.
    pub fn set_registry(
        &mut self,
        caller: Address,
        authorized: bool,
        registry: Option<Address>,
    ) -> (r: Result<(), MarketplaceError>)
        requires
            old(self)@.inv(),
        ensures
            final(self)@.inv(),
            match r {
                Err(e) => {
                    &&& old(self)@.set_registry_refusal(caller, authorized) == Some(e)
                    &&& final(self)@ == old(self)@
                },
                Ok(_) => {
                    &&& old(self)@.set_registry_refusal(caller, authorized) is None
                    &&& final(self)@ == (MarketplaceView {
                        config: Some(MarketplaceConfig { registry, ..old(self)@.config->0 }),
                        ..old(self)@
                    })
                },
            },
    {
        let config: MarketplaceConfig = match self.cfg {
            None => {
                return Err(MarketplaceError::NotInitialized);
            },
            Some(c) => c,
        };
        if !authorized || caller != config.admin {
            return Err(MarketplaceError::Unauthorized);
        }
        self.cfg = Some(
            MarketplaceConfig {
                admin: config.admin,
                registry,
                max_trade_history: config.max_trade_history,
            },
        );
        Ok(())
    }

    /// Lists the paper `paper_id` with its token for `caller`, active, at
    /// the time `now`. A paper is listed once.
    ///
    /// `authorized` says whether `caller` has proved its identity for this call.
    pub fn register_listing(
        &mut self,
        caller: Address,
        authorized: bool,
        paper_id: u32,
        token: Address,
        metadata_uri: String,
        now: u64,
    ) -> (r: Result<ListingRecord, MarketplaceError>)
        requires
            old(self)@.inv(),
        ensures
            final(self)@.inv(),
            match r {
                Err(e) => {
                    &&& old(self)@.register_refusal(authorized, paper_id) == Some(e)
                    &&& final(self)@ == old(self)@
                },
                Ok(record) => {
                    &&& old(self)@.register_refusal(authorized, paper_id) is None
                    &&& record == (ListingRecord {
                        id: paper_id,
                        data: Listing {
                            paper_id,
                            token,
                            metadata_uri,
                            owner: caller,
                            is_active: true,
                            created_at: now,
                        },
                    })
                    &&& final(self)@ == (MarketplaceView {
                        config: old(self)@.config,
                        listings: old(self)@.listings.push(record.data),
                        histories: old(self)@.histories.push(Seq::empty()),
                    })
                },
            },
    {
        if !authorized {
            return Err(MarketplaceError::Unauthorized);
        }
        if self.find(paper_id).is_some() {
            return Err(MarketplaceError::ListingExists);
        }
        let listing = Listing {
            paper_id,
            token,
            metadata_uri,
            owner: caller,
            is_active: true,
            created_at: now,
        };
        self.listings.push(listing.clone());
        self.histories.push(Vec::new());
        proof {
            assert(self@.histories =~= old(self)@.histories.push(Seq::empty()));
        }
        Ok(ListingRecord { id: paper_id, data: listing })
    }

    /// Activates or deactivates a listing. The administrator and the
    /// listing's owner may.
    ///
    /// `authorized` says whether `caller` has proved its identity for this call.
    pub fn update_listing_status(
        &mut self,
        caller: Address,
        authorized: bool,
        paper_id: u32,
        is_active: bool,
    ) -> (r: Result<ListingRecord, MarketplaceError>)
        requires
            old(self)@.inv(),
        ensures
            final(self)@.inv(),
            match r {
                Err(e) => {
                    &&& old(self)@.owner_change_refusal(caller, authorized, paper_id) == Some(e)
                    &&& final(self)@ == old(self)@
                },
                Ok(record) => {
                    &&& old(self)@.owner_change_refusal(caller, authorized, paper_id) is None
                    &&& record == (ListingRecord {
                        id: paper_id,
                        data: Listing {
                            is_active,
                            ..old(self)@.listings[place_of(old(self)@.listings, paper_id)]
                        },
                    })
                    &&& final(self)@ == (MarketplaceView {
                        listings: old(self)@.listings.update(
                            place_of(old(self)@.listings, paper_id),
                            record.data,
                        ),
                        ..old(self)@
                    })
                },
            },
    {
        if !authorized {
            return Err(MarketplaceError::Unauthorized);
        }
        let config: MarketplaceConfig = match self.cfg {
            None => {
                return Err(MarketplaceError::NotInitialized);
            },
            Some(c) => c,
        };
        let i: usize = match self.find(paper_id) {
            None => {
                return Err(MarketplaceError::ListingNotFound);
            },
            Some(i) => i,
        };
        proof {
            lemma_place(self@.listings, i as int);
        }
        let mut listing: Listing = self.listings[i].clone();
        if caller != config.admin && caller != listing.owner {
            return Err(MarketplaceError::Unauthorized);
        }
        listing.is_active = is_active;
        self.listings[i] = listing.clone();
        Ok(ListingRecord { id: paper_id, data: listing })
    }

    /// Hands a listing to `new_owner`. Only the administrator may.
    ///
    /// `authorized` says whether `caller` has proved its identity for this call.
    pub fn reassign_listing_owner(
        &mut self,
        caller: Address,
        authorized: bool,
        paper_id: u32,
        new_owner: Address,
    ) -> (r: Result<ListingRecord, MarketplaceError>)
        requires
            old(self)@.inv(),
        ensures
            final(self)@.inv(),
            match r {
                Err(e) => {
                    &&& old(self)@.admin_change_refusal(caller, authorized, paper_id) == Some(e)
                    &&& final(self)@ == old(self)@
                },
                Ok(record) => {
                    &&& old(self)@.admin_change_refusal(caller, authorized, paper_id) is None
                    &&& record == (ListingRecord {
                        id: paper_id,
                        data: Listing {
                            owner: new_owner,
                            ..old(self)@.listings[place_of(old(self)@.listings, paper_id)]
                        },
                    })
                    &&& final(self)@ == (MarketplaceView {
                        listings: old(self)@.listings.update(
                            place_of(old(self)@.listings, paper_id),
                            record.data,
                        ),
                        ..old(self)@
                    })
                },
            },
    {
        if !authorized {
            return Err(MarketplaceError::Unauthorized);
        }
        let config: MarketplaceConfig = match self.cfg {
            None => {
                return Err(MarketplaceError::NotInitialized);
            },
            Some(c) => c,
        };
        if caller != config.admin {
            return Err(MarketplaceError::Unauthorized);
        }
        let i: usize = match self.find(paper_id) {
            None => {
                return Err(MarketplaceError::ListingNotFound);
            },
            Some(i) => i,
        };
        proof {
            lemma_place(self@.listings, i as int);
        }
        let mut listing: Listing = self.listings[i].clone();
        listing.owner = new_owner;
        self.listings[i] = listing.clone();
        Ok(ListingRecord { id: paper_id, data: listing })
    }

    /// The listing of the paper `paper_id`, if it is listed.
    pub fn get_listing(&self, paper_id: u32) -> (r: Option<ListingRecord>)
        requires
            self@.inv(),
        ensures
            r == if listed(self@.listings, paper_id) {
                Some(
                    ListingRecord {
                        id: paper_id,
                        data: self@.listings[place_of(self@.listings, paper_id)],
                    },
                )
            } else {
                None
            },
    {
        match self.find(paper_id) {
            None => None,
            Some(i) => {
                proof {
                    lemma_place(self@.listings, i as int);
                }
                Some(ListingRecord { id: paper_id, data: self.listings[i].clone() })
            },
        }
    }

    /// The listings in the order of their registration, with `only_active`
    /// only the active ones: all of them where `limit` is zero, else the
    /// first `limit`.
    pub fn list_listings(&self, limit: u32, only_active: bool) -> (records: Vec<ListingRecord>)
        ensures
            records@ == limited(shown(self@.listings, only_active), limit as int),
    {
        let mut records: Vec<ListingRecord> = Vec::new();
        let mut i: usize = 0;
        while i < self.listings.len() && (limit == 0 || records.len() < limit as usize)
            invariant
                i <= self.listings.len(),
                limit == 0 || records.len() <= limit,
                records@ == shown(self.listings@.take(i as int), only_active),
            decreases self.listings.len() - i,
        {
            proof {
                assert(self.listings@.take(i + 1).drop_last() =~= self.listings@.take(i as int));
            }
            if !only_active || self.listings[i].is_active {
                records.push(
                    ListingRecord {
                        id: self.listings[i].paper_id,
                        data: self.listings[i].clone(),
                    },
                );
            }
            i += 1;
        }
        proof {
            lemma_shown_prefix(self.listings@, only_active, i as int);
            if i == self.listings.len() {
                assert(self.listings@.take(i as int) =~= self.listings@);
            }
        }
        records
    }

    /// Records a trade on a listed paper at the time `now` and returns it.
    /// The administrator and the listing's owner may. Of a history that
    /// grows over the configured length, the oldest trades are dropped.
    ///
    /// `authorized` says whether `caller` has proved its identity for this call.
    pub fn record_trade(
        &mut self,
        caller: Address,
        authorized: bool,
        paper_id: u32,
        amount: i128,
        cost: i128,
        is_buy: bool,
        now: u64,
    ) -> (r: Result<Trade, MarketplaceError>)
        requires
            old(self)@.inv(),
        ensures
            final(self)@.inv(),
            match r {
                Err(e) => {
                    &&& old(self)@.record_trade_refusal(
                        caller,
                        authorized,
                        paper_id,
                        amount as int,
                        cost as int,
                    ) == Some(e)
                    &&& final(self)@ == old(self)@
                },
                Ok(trade) => {
                    &&& old(self)@.record_trade_refusal(
                        caller,
                        authorized,
                        paper_id,
                        amount as int,
                        cost as int,
                    ) is None
                    &&& trade == (Trade { trader: caller, amount, cost, is_buy, timestamp: now })
                    &&& final(self)@ == (MarketplaceView {
                        histories: old(self)@.histories.update(
                            place_of(old(self)@.listings, paper_id),
                            trimmed(
                                old(self)@.history_of(paper_id).push(trade),
                                old(self)@.config->0.max_trade_history as int,
                            ),
                        ),
                        ..old(self)@
                    })
                },
            },
    {
        if amount <= 0 || cost <= 0 {
            return Err(MarketplaceError::InvalidTrade);
        }
        if !authorized {
            return Err(MarketplaceError::Unauthorized);
        }
        let config: MarketplaceConfig = match self.cfg {
            None => {
                return Err(MarketplaceError::NotInitialized);
            },
            Some(c) => c,
        };
        let i: usize = match self.find(paper_id) {
            None => {
                return Err(MarketplaceError::ListingNotFound);
            },
            Some(i) => i,
        };
        proof {
            lemma_place(self@.listings, i as int);
        }
        if caller != config.admin && caller != self.listings[i].owner {
            return Err(MarketplaceError::Unauthorized);
        }
        let trade = Trade { trader: caller, amount, cost, is_buy, timestamp: now };
        let keep: usize = config.max_trade_history as usize;
        let held: usize = self.histories[i].len();
        let from: usize = if held >= keep {
            held - keep + 1
        } else {
            0
        };
        let mut history: Vec<Trade> = copy_from(&self.histories[i], from);
        history.push(trade);
        proof {
            let before = old(self)@.histories[i as int];
            assert(history@ =~= trimmed(before.push(trade), keep as int));
        }
        self.histories[i] = history;
        proof {
            assert(self@.histories =~= old(self)@.histories.update(i as int, history@));
        }
        Ok(trade)
    }

    /// The recorded trades of the paper `paper_id`, oldest first.
    pub fn get_trades(&self, paper_id: u32) -> (trades: Vec<Trade>)
        requires
            self@.inv(),
        ensures
            trades@ == self@.history_of(paper_id),
    {
        match self.find(paper_id) {
            None => Vec::new(),
            Some(i) => {
                proof {
                    lemma_place(self@.listings, i as int);
                }
                copy_from(&self.histories[i], 0)
            },
        }
    }
}

} // verus!
