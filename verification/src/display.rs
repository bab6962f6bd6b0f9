use vstd::prelude::*;
use crate::market::{event_matches_lowered, event_matches_lowered_term, market_tradable, Event, Market};
use crate::text::{lowercase, to_lowercase};

verus! {

/// The positions at which `flags` holds, in ascending order.
pub open spec fn selected_indices(flags: Seq<bool>) -> Seq<int>
    decreases flags.len(),
{
    if flags.len() == 0 {
        Seq::empty()
    } else {
        let before = selected_indices(flags.drop_last());
        if flags.last() {
            before.push(flags.len() - 1)
        } else {
            before
        }
    }
}

/// An event is listed for a lowercased search term when it matches it; every event is
/// listed when there is no term.
pub open spec fn event_listed(event: Event, term: Option<Seq<char>>) -> bool {
    match term {
        Some(t) => event_matches_lowered(event, t),
        None => true,
    }
}

/// The positions of the events that are listed for the term.
pub open spec fn listed_events(events: Seq<Event>, term: Option<Seq<char>>) -> Seq<int> {
    selected_indices(Seq::new(events.len(), |i: int| event_listed(events[i], term)))
}

/// The positions of the tradable markets.
pub open spec fn tradable_markets(markets: Seq<Market>) -> Seq<int> {
    selected_indices(Seq::new(markets.len(), |i: int| market_tradable(markets[i])))
}

/// The search term as it is compared: lowercased.
pub open spec fn lowered_term(search: Option<&str>) -> Option<Seq<char>> {
    match search {
        Some(s) => Some(lowercase(s@)),
        None => None,
    }
}

/// How an event is to be listed: which event, all of its tradable markets, how many of
/// them to show (the first ones) and how many to leave out.
#[derive(Debug)]
pub struct EventListing {
    pub event_index: usize,
    pub tradable_markets: Vec<usize>,
    pub shown_markets: usize,
    pub hidden_markets: usize,
}

/// The listing of a tradable market list under a display limit: all are shown up to the
/// limit, the rest are counted as hidden.
pub open spec fn listing_of(l: EventListing, event_index: int, tradable: Seq<int>, max_display_markets: usize) -> bool {
    &&& l.event_index == event_index
    &&& l.tradable_markets@.map_values(|x: usize| x as int) == tradable
    &&& l.shown_markets == if tradable.len() <= max_display_markets { tradable.len() } else { max_display_markets as nat }
    &&& l.hidden_markets == if tradable.len() <= max_display_markets { 0 } else { tradable.len() - max_display_markets }
}

/// The positions of a market list's tradable markets, in order.
pub fn tradable_market_indices(markets: &Vec<Market>) -> (r: Vec<usize>)
    ensures
        r@.map_values(|x: usize| x as int) == tradable_markets(markets@),
{
    let ghost flags = Seq::new(markets@.len(), |i: int| market_tradable(markets@[i]));
    let mut r: Vec<usize> = Vec::new();
    let mut i: usize = 0;
    while i < markets.len()
        invariant
            i <= markets@.len(),
            flags == Seq::new(markets@.len(), |i: int| market_tradable(markets@[i])),
            r@.map_values(|x: usize| x as int) == selected_indices(flags.take(i as int)),
        decreases markets@.len() - i,
    {
        proof {
            assert(flags.take(i + 1).drop_last() =~= flags.take(i as int));
            assert(flags.take(i + 1).last() == flags[i as int]);
        }
        let ghost before = r@;
        if markets[i].is_tradable() {
            r.push(i);
            proof {
                assert(r@.map_values(|x: usize| x as int) =~= before.map_values(|x: usize| x as int).push(i as int));
            }
        }
        i = i + 1;
    }
    proof {
        assert(flags.take(markets@.len() as int) =~= flags);
    }
    r
}

/// Plans a listing of events: the events that match the search term (ignoring case; all
/// events when there is none), in their order, each with its tradable markets, of which
/// the first `max_display_markets` are shown and the rest counted as hidden.
pub fn plan_event_listing(events: &Vec<Event>, max_display_markets: usize, search: Option<&str>) -> (r: Vec<EventListing>)
    ensures
        r@.len() == listed_events(events@, lowered_term(search)).len(),
        forall|k: int|
            0 <= k < r@.len() ==> {
                let e = listed_events(events@, lowered_term(search))[k];
                listing_of(#[trigger] r@[k], e, tradable_markets(events@[e].markets@), max_display_markets)
            },
{
    let lowered: Option<String> = match search {
        Some(s) => Some(to_lowercase(s)),
        None => None,
    };
    let ghost term = lowered_term(search);
    let ghost flags = Seq::new(events@.len(), |i: int| event_listed(events@[i], term));
    let mut r: Vec<EventListing> = Vec::new();
    let mut i: usize = 0;
    while i < events.len()
        invariant
            i <= events@.len(),
            term == lowered_term(search),
            match lowered {
                Some(t) => term == Some(t@),
                None => term is None,
            },
            flags == Seq::new(events@.len(), |i: int| event_listed(events@[i], term)),
            r@.len() == selected_indices(flags.take(i as int)).len(),
            forall|k: int|
                0 <= k < r@.len() ==> {
                    let e = selected_indices(flags.take(i as int))[k];
                    listing_of(#[trigger] r@[k], e, tradable_markets(events@[e].markets@), max_display_markets)
                },
        decreases events@.len() - i,
    {
        proof {
            assert(flags.take(i + 1).drop_last() =~= flags.take(i as int));
            assert(flags.take(i + 1).last() == flags[i as int]);
        }
        let listed = match &lowered {
            Some(t) => event_matches_lowered_term(&events[i], t.as_str()),
            None => true,
        };
        if listed {
            let tradable = tradable_market_indices(&events[i].markets);
            let count = tradable.len();
            let shown = if count <= max_display_markets { count } else { max_display_markets };
            let hidden = if count <= max_display_markets { 0 } else { count - max_display_markets };
            r.push(EventListing { event_index: i, tradable_markets: tradable, shown_markets: shown, hidden_markets: hidden });
        }
        i = i + 1;
    }
    proof {
        assert(flags.take(events@.len() as int) =~= flags);
    }
    r
}

/// A listing accounts for every tradable market of its event: the shown and the hidden
/// add up to all of them, and no more are shown than the limit allows.
pub proof fn lemma_listing_accounts_for_every_tradable_market(
    l: EventListing,
    event_index: int,
    tradable: Seq<int>,
    max_display_markets: usize,
)
    requires
        listing_of(l, event_index, tradable, max_display_markets),
    ensures
        l.shown_markets + l.hidden_markets == tradable.len(),
        l.shown_markets <= max_display_markets,
        l.hidden_markets > 0 ==> l.shown_markets == max_display_markets,
{
}

/// With no search term every event is listed, in order.
pub proof fn lemma_no_search_lists_every_event(events: Seq<Event>)
    ensures
        listed_events(events, None) == Seq::new(events.len(), |i: int| i),
    decreases events.len(),
{
    lemma_all_selected(Seq::new(events.len(), |i: int| event_listed(events[i], None)));
}

/// Where every flag holds, every position is selected.
pub proof fn lemma_all_selected(flags: Seq<bool>)
    requires
        forall|i: int| 0 <= i < flags.len() ==> #[trigger] flags[i],
    ensures
        selected_indices(flags) == Seq::new(flags.len(), |i: int| i),
    decreases flags.len(),
{
    if flags.len() > 0 {
        lemma_all_selected(flags.drop_last());
        assert(flags.last() == flags[flags.len() - 1]);
        assert(selected_indices(flags) =~= Seq::new(flags.len(), |i: int| i));
    } else {
        assert(selected_indices(flags) =~= Seq::new(flags.len(), |i: int| i));
    }
}

} // verus!
