//! Home-screen hubs: picking the continue-watching and on-deck items, and
//! showing each item once across all hubs.
use vstd::prelude::*;
use crate::library::MetadataItem;
use crate::text::{contains_str, lowercase, owned, spec_contains, str_eq, to_lowercase, views};

verus! {

broadcast use vstd::string::group_string_axioms;

/// Why a hubs request failed.
#[derive(Debug)]
pub enum HubError {
    Http(String),
}

/// What the home page says when the hubs could not be loaded.
pub struct HubFailure {
    pub message: String,
    /// The session expired: the token is dropped and the user asked to sign in.
    pub is_auth_failure: bool,
}

/// A failure mentioning `Unauthorized` or `401` is an expired session.
pub open spec fn is_auth_failure_text(error_text: Seq<char>) -> bool {
    spec_contains(error_text, "Unauthorized"@) || spec_contains(error_text, "401"@)
}

/// What the home page says when loading the hubs failed with `error_text`.
pub fn hub_failure(error_text: &str) -> (f: HubFailure)
    ensures
        f.is_auth_failure == is_auth_failure_text(error_text@),
        f.message@ == if f.is_auth_failure {
            "Your Plex session has expired. Please sign in again."@
        } else {
            "Could not load your Plex home feed. Please check connectivity and try again."@
        },
{
    let is_auth = contains_str(error_text, "Unauthorized") || contains_str(error_text, "401");
    let message = if is_auth {
        owned("Your Plex session has expired. Please sign in again.")
    } else {
        owned("Could not load your Plex home feed. Please check connectivity and try again.")
    };
    HubFailure { message, is_auth_failure: is_auth }
}

/// The hubs response.
#[derive(Debug, Clone)]
pub struct HubsResponse {
    pub media_container: HubsContainer,
}

/// The hubs of a response.
#[derive(Debug, Clone)]
pub struct HubsContainer {
    pub hubs: Vec<Hub>,
}

/// A row of the home screen.
#[derive(Debug, Clone)]
pub struct Hub {
    pub title: String,
    pub hub_type: Option<String>,
    pub hub_identifier: Option<String>,
    pub size: Option<u32>,
    pub metadata: Vec<MetadataItem>,
}

/// A hub as values.
pub struct HubView {
    pub title: String,
    pub hub_type: Option<String>,
    pub hub_identifier: Option<String>,
    pub size: Option<u32>,
    pub metadata: Seq<MetadataItem>,
}

impl View for Hub {
    type V = HubView;

    open spec fn view(&self) -> HubView {
        HubView {
            title: self.title,
            hub_type: self.hub_type,
            hub_identifier: self.hub_identifier,
            size: self.size,
            metadata: self.metadata@,
        }
    }
}

/// The views of a list of hubs.
pub open spec fn hub_views(v: Seq<Hub>) -> Seq<HubView> {
    v.map_values(|h: Hub| h@)
}

/// The items of the hubs, hub after hub.
pub open spec fn concat_items(hubs: Seq<HubView>) -> Seq<MetadataItem>
    decreases hubs.len(),
{
    if hubs.len() == 0 {
        Seq::empty()
    } else {
        concat_items(hubs.drop_last()) + hubs.last().metadata
    }
}

/// The hub's identifier is `id`.
pub open spec fn has_identifier(h: HubView, id: Seq<char>) -> bool {
    h.hub_identifier matches Some(i) && i@ == id
}

/// A continue-watching hub: by identifier, or by a title that mentions it.
pub open spec fn is_continue_hub(h: HubView) -> bool {
    has_identifier(h, "home.continue"@) || has_identifier(h, "hub.tv.inprogress"@)
        || spec_contains(lowercase(h.title@), "continue watching"@)
}

/// An on-deck hub: by identifier, or by a title that mentions it.
pub open spec fn is_on_deck_hub(h: HubView) -> bool {
    has_identifier(h, "hub.tv.ondeck"@) || spec_contains(lowercase(h.title@), "on deck"@)
}

/// Which hubs are continue-watching hubs.
pub open spec fn continue_pred() -> spec_fn(HubView) -> bool {
    |h: HubView| is_continue_hub(h)
}

/// Which hubs are on-deck hubs.
pub open spec fn on_deck_pred() -> spec_fn(HubView) -> bool {
    |h: HubView| is_on_deck_hub(h)
}

fn has_identifier_exec(h: &Hub, id: &str) -> (b: bool)
    ensures
        b == has_identifier(h@, id@),
{
    match &h.hub_identifier {
        Some(i) => str_eq(i.as_str(), id),
        None => false,
    }
}

fn reversed_hubs(v: Vec<Hub>) -> (r: Vec<Hub>)
    ensures
        r@ == v@.reverse(),
{
    let ghost all = v@;
    let mut rest = v;
    let mut taken: Vec<Hub> = Vec::new();
    while rest.len() > 0
        invariant
            rest@ + taken@.reverse() == all,
        decreases rest.len(),
    {
        let ghost before_rest = rest@;
        let ghost before_taken = taken@;
        let item = rest.pop().unwrap();
        taken.push(item);
        assert(rest@ + taken@.reverse() == all) by {
            assert(taken@.reverse() == seq![item] + before_taken.reverse());
            assert(before_rest == rest@.push(item));
        }
    }
    assert(taken@ == all.reverse()) by {
        assert(taken@.reverse().reverse() == taken@);
    }
    taken
}

/// The items of the hubs that `wanted` picks (true for continue watching,
/// false for on deck), hub after hub.
fn items_of_hubs(hubs: Vec<Hub>, continue_watching: bool) -> (r: Vec<MetadataItem>)
    ensures
        r@ == concat_items(hub_views(hubs@).filter(if continue_watching { continue_pred() } else { on_deck_pred() })),
{
    let ghost all = hub_views(hubs@);
    let ghost pred = if continue_watching { continue_pred() } else { on_deck_pred() };
    let mut rest = reversed_hubs(hubs);
    let ghost rev = rest@;
    let mut out: Vec<MetadataItem> = Vec::new();
    assert(all.take(0) == Seq::<HubView>::empty());
    proof {
        reveal(Seq::filter);
    }
    while rest.len() > 0
        invariant
            pred == (if continue_watching { continue_pred() } else { on_deck_pred() }),
            rest@.len() <= all.len(),
            rev.len() == all.len(),
            forall|j: int| 0 <= j < rev.len() ==> #[trigger] rev[j]@ == all[all.len() - 1 - j],
            rest@ == rev.take(rest@.len() as int),
            out@ == concat_items(all.take(all.len() - rest@.len()).filter(pred)),
        decreases rest.len(),
    {
        let ghost k = all.len() - rest@.len();
        let hub = rest.pop().unwrap();
        let ghost hv = hub@;
        assert(hv == rev[rest@.len() as int]@);
        assert(hv == all[k]);
        let wanted = if continue_watching {
            if has_identifier_exec(&hub, "home.continue") || has_identifier_exec(&hub, "hub.tv.inprogress") {
                true
            } else {
                let t = to_lowercase(hub.title.as_str());
                contains_str(t.as_str(), "continue watching")
            }
        } else {
            if has_identifier_exec(&hub, "hub.tv.ondeck") {
                true
            } else {
                let t = to_lowercase(hub.title.as_str());
                contains_str(t.as_str(), "on deck")
            }
        };
        assert(wanted == pred(hv));
        let ghost before = out@;
        if wanted {
            let mut items = hub.metadata;
            out.append(&mut items);
        }
        proof {
            assert(all.take(k + 1).drop_last() == all.take(k));
            assert(all.take(k + 1).last() == hv);
            reveal(Seq::filter);
            let f = all.take(k).filter(pred);
            assert(all.take(k + 1).filter(pred) == if pred(hv) { f.push(hv) } else { f });
            if pred(hv) {
                assert(f.push(hv).drop_last() == f);
            }
            assert(rest@ == rev.take(rest@.len() as int));
        }
    }
    assert(all.take(all.len() as int) == all);
    out
}

/// The items of the continue-watching hubs, hub after hub.
pub fn continue_watching_items(hubs: Vec<Hub>) -> (r: Vec<MetadataItem>)
    ensures
        r@ == concat_items(hub_views(hubs@).filter(continue_pred())),
{
    items_of_hubs(hubs, true)
}

/// The items of the on-deck hubs, hub after hub.
pub fn on_deck_items(hubs: Vec<Hub>) -> (r: Vec<MetadataItem>)
    ensures
        r@ == concat_items(hub_views(hubs@).filter(on_deck_pred())),
{
    items_of_hubs(hubs, false)
}

// ---------------------------------------------------------------------------
// Showing each item once
// ---------------------------------------------------------------------------

/// The rating keys of a list of items.
pub open spec fn item_keys(items: Seq<MetadataItem>) -> Set<Seq<char>>
    decreases items.len(),
{
    if items.len() == 0 {
        Set::empty()
    } else {
        item_keys(items.drop_last()).insert(items.last().rating_key@)
    }
}

/// The rating keys of the items of a list of hubs.
pub open spec fn hub_keys(hubs: Seq<HubView>) -> Set<Seq<char>>
    decreases hubs.len(),
{
    if hubs.len() == 0 {
        Set::empty()
    } else {
        hub_keys(hubs.drop_last()).union(item_keys(hubs.last().metadata))
    }
}

/// The items whose rating key is neither in `seen` nor on an earlier item.
pub open spec fn first_seen(items: Seq<MetadataItem>, seen: Set<Seq<char>>) -> Seq<MetadataItem>
    decreases items.len(),
{
    if items.len() == 0 {
        Seq::empty()
    } else {
        let prev = first_seen(items.drop_last(), seen);
        let k = items.last().rating_key@;
        if seen.contains(k) || item_keys(items.drop_last()).contains(k) {
            prev
        } else {
            prev.push(items.last())
        }
    }
}

/// The hubs with every item shown only in the first hub (and at the first
/// place) it appears, and without the hubs left empty.
pub open spec fn spec_deduplicate(hubs: Seq<HubView>) -> Seq<HubView>
    decreases hubs.len(),
{
    if hubs.len() == 0 {
        Seq::empty()
    } else {
        let prev = spec_deduplicate(hubs.drop_last());
        let h = hubs.last();
        let kept = first_seen(h.metadata, hub_keys(hubs.drop_last()));
        if kept.len() == 0 {
            prev
        } else {
            prev.push(HubView { metadata: kept, ..h })
        }
    }
}

fn contains_string(v: &Vec<String>, s: &str) -> (r: bool)
    ensures
        r == views(v@).contains(s@),
{
    let mut i: usize = 0;
    while i < v.len()
        invariant
            i <= v.len(),
            forall|j: int| 0 <= j < i ==> views(v@)[j] != s@,
        decreases v.len() - i,
    {
        if str_eq(v[i].as_str(), s) {
            assert(views(v@)[i as int] == s@);
            return true;
        }
        i += 1;
    }
    false
}

fn reversed_items(v: Vec<MetadataItem>) -> (r: Vec<MetadataItem>)
    ensures
        r@ == v@.reverse(),
{
    let ghost all = v@;
    let mut rest = v;
    let mut taken: Vec<MetadataItem> = Vec::new();
    while rest.len() > 0
        invariant
            rest@ + taken@.reverse() == all,
        decreases rest.len(),
    {
        let ghost before_rest = rest@;
        let ghost before_taken = taken@;
        let item = rest.pop().unwrap();
        taken.push(item);
        assert(rest@ + taken@.reverse() == all) by {
            assert(taken@.reverse() == seq![item] + before_taken.reverse());
            assert(before_rest == rest@.push(item));
        }
    }
    assert(taken@ == all.reverse()) by {
        assert(taken@.reverse().reverse() == taken@);
    }
    taken
}

/// Keeps the items of `items` whose rating key is not in `seen` and not on
/// an earlier item, adding the keys to `seen`.
fn keep_first_seen(items: Vec<MetadataItem>, seen: &mut Vec<String>) -> (r: Vec<MetadataItem>)
    ensures
        r@ == first_seen(items@, views(old(seen)@).to_set()),
        views(final(seen)@).to_set() == views(old(seen)@).to_set().union(item_keys(items@)),
{
    let ghost all = items@;
    let ghost s0 = views(seen@).to_set();
    let mut rest = reversed_items(items);
    let ghost rev = rest@;
    let mut out: Vec<MetadataItem> = Vec::new();
    assert(all.take(0) == Seq::<MetadataItem>::empty());
    assert(views(seen@).to_set() == s0.union(item_keys(all.take(0))));
    while rest.len() > 0
        invariant
            rest@.len() <= all.len(),
            rev == all.reverse(),
            rest@ == rev.take(rest@.len() as int),
            out@ == first_seen(all.take(all.len() - rest@.len()), s0),
            views(seen@).to_set() == s0.union(item_keys(all.take(all.len() - rest@.len()))),
        decreases rest.len(),
    {
        let ghost k = all.len() - rest@.len();
        let item = rest.pop().unwrap();
        let ghost it = item;
        assert(item == rev[rest@.len() as int]);
        assert(item == all[k]);
        let ghost seen_before = views(seen@);
        let known = contains_string(seen, item.rating_key.as_str());
        assert(known == seen_before.to_set().contains(it.rating_key@));
        if !known {
            seen.push(item.rating_key.clone());
            out.push(item);
        }
        proof {
            let pre = all.take(k);
            assert(all.take(k + 1).drop_last() == pre);
            assert(all.take(k + 1).last() == it);
            assert(item_keys(all.take(k + 1)) == item_keys(pre).insert(it.rating_key@));
            if !known {
                assert(views(seen@) == seen_before.push(it.rating_key@));
                seen_before.lemma_push_to_set_commute(it.rating_key@);
                assert(views(seen@).to_set() == seen_before.to_set().insert(it.rating_key@));
            }
            assert(views(seen@).to_set() == s0.union(item_keys(all.take(k + 1))));
            assert(rest@ == rev.take(rest@.len() as int));
        }
    }
    assert(all.take(all.len() as int) == all);
    out
}

/// Shows each item only in the first hub, and at the first place, it
/// appears (items are told apart by rating key), and drops the hubs left
/// empty.
pub fn deduplicate_hubs(hubs: Vec<Hub>) -> (r: Vec<Hub>)
    ensures
        hub_views(r@) == spec_deduplicate(hub_views(hubs@)),
{
    let ghost all = hub_views(hubs@);
    let mut rest = reversed_hubs(hubs);
    let ghost rev = rest@;
    let mut seen: Vec<String> = Vec::new();
    let mut out: Vec<Hub> = Vec::new();
    assert(all.take(0) == Seq::<HubView>::empty());
    assert(views(seen@).to_set() == Set::<Seq<char>>::empty());
    while rest.len() > 0
        invariant
            rest@.len() <= all.len(),
            rev.len() == all.len(),
            forall|j: int| 0 <= j < rev.len() ==> #[trigger] rev[j]@ == all[all.len() - 1 - j],
            rest@ == rev.take(rest@.len() as int),
            hub_views(out@) == spec_deduplicate(all.take(all.len() - rest@.len())),
            views(seen@).to_set() == hub_keys(all.take(all.len() - rest@.len())),
        decreases rest.len(),
    {
        let ghost k = all.len() - rest@.len();
        let hub = rest.pop().unwrap();
        let ghost hv = hub@;
        assert(hv == rev[rest@.len() as int]@);
        assert(hv == all[k]);
        let Hub { title, hub_type, hub_identifier, size, metadata } = hub;
        let kept = keep_first_seen(metadata, &mut seen);
        let ghost before = out@;
        if kept.len() > 0 {
            let h = Hub { title, hub_type, hub_identifier, size, metadata: kept };
            out.push(h);
            assert(hub_views(out@) == hub_views(before).push(h@));
        }
        proof {
            let pre = all.take(k);
            assert(all.take(k + 1).drop_last() == pre);
            assert(all.take(k + 1).last() == hv);
            assert(rest@ == rev.take(rest@.len() as int));
        }
    }
    assert(all.take(all.len() as int) == all);
    out
}

/// No two items share a rating key.
pub open spec fn unique_keys(items: Seq<MetadataItem>) -> bool {
    forall|i: int, j: int| 0 <= i < j < items.len() ==> items[i].rating_key@ != items[j].rating_key@
}

proof fn lemma_item_keys_contains(items: Seq<MetadataItem>, k: Seq<char>)
    ensures
        item_keys(items).contains(k) <==> exists|i: int| 0 <= i < items.len() && #[trigger] items[i].rating_key@ == k,
    decreases items.len(),
{
    if items.len() > 0 {
        lemma_item_keys_contains(items.drop_last(), k);
        if item_keys(items.drop_last()).contains(k) {
            let i = choose|i: int| 0 <= i < items.drop_last().len() && #[trigger] items.drop_last()[i].rating_key@ == k;
            assert(items[i] == items.drop_last()[i]);
        }
        if exists|i: int| 0 <= i < items.len() && #[trigger] items[i].rating_key@ == k {
            let i = choose|i: int| 0 <= i < items.len() && #[trigger] items[i].rating_key@ == k;
            if i < items.len() - 1 {
                assert(items.drop_last()[i] == items[i]);
            }
        }
    }
}

proof fn lemma_item_keys_concat(a: Seq<MetadataItem>, b: Seq<MetadataItem>)
    ensures
        item_keys(a + b) == item_keys(a).union(item_keys(b)),
    decreases b.len(),
{
    if b.len() == 0 {
        assert(a + b == a);
        assert(item_keys(b) == Set::<Seq<char>>::empty());
        assert(item_keys(a).union(Set::<Seq<char>>::empty()) == item_keys(a));
    } else {
        lemma_item_keys_concat(a, b.drop_last());
        assert((a + b).drop_last() == a + b.drop_last());
        assert((a + b).last() == b.last());
        assert(item_keys(a).union(item_keys(b.drop_last())).insert(b.last().rating_key@) == item_keys(a).union(
            item_keys(b.drop_last()).insert(b.last().rating_key@),
        ));
    }
}

proof fn lemma_first_seen(items: Seq<MetadataItem>, seen: Set<Seq<char>>)
    ensures
        unique_keys(first_seen(items, seen)),
        item_keys(first_seen(items, seen)) == item_keys(items).difference(seen),
    decreases items.len(),
{
    if items.len() == 0 {
        assert(item_keys(items).difference(seen) == Set::<Seq<char>>::empty());
    } else {
        let pre = items.drop_last();
        let x = items.last();
        let k = x.rating_key@;
        lemma_first_seen(pre, seen);
        let fs = first_seen(pre, seen);
        if seen.contains(k) || item_keys(pre).contains(k) {
            assert(item_keys(items) == item_keys(pre).insert(k));
            assert(item_keys(items).difference(seen) == item_keys(pre).difference(seen));
        } else {
            let out = fs.push(x);
            assert(out.drop_last() == fs);
            assert(!item_keys(fs).contains(k));
            assert forall|i: int, j: int| 0 <= i < j < out.len() implies out[i].rating_key@ != out[j].rating_key@ by {
                if j == out.len() - 1 {
                    lemma_item_keys_contains(fs, k);
                    assert(out[i] == fs[i]);
                    assert(out[j] == x);
                } else {
                    assert(out[i] == fs[i] && out[j] == fs[j]);
                }
            }
            assert(item_keys(out) == item_keys(fs).insert(k));
            assert(item_keys(items).difference(seen) == item_keys(pre).difference(seen).insert(k));
        }
    }
}

proof fn lemma_unique_concat(a: Seq<MetadataItem>, b: Seq<MetadataItem>)
    requires
        unique_keys(a),
        unique_keys(b),
        item_keys(a).disjoint(item_keys(b)),
    ensures
        unique_keys(a + b),
{
    let c = a + b;
    assert forall|i: int, j: int| 0 <= i < j < c.len() implies c[i].rating_key@ != c[j].rating_key@ by {
        if j < a.len() {
            assert(c[i] == a[i] && c[j] == a[j]);
        } else if i >= a.len() {
            assert(c[i] == b[i - a.len()] && c[j] == b[j - a.len()]);
        } else {
            assert(c[i] == a[i] && c[j] == b[j - a.len()]);
            lemma_item_keys_contains(a, a[i].rating_key@);
            lemma_item_keys_contains(b, b[j - a.len()].rating_key@);
            if a[i].rating_key@ == b[j - a.len()].rating_key@ {
                assert(item_keys(a).contains(a[i].rating_key@));
                assert(item_keys(b).contains(a[i].rating_key@));
            }
        }
    }
}

/// After deduplication every item appears once across all hubs, no hub is
/// empty, and every item that was shown somewhere is still shown.
pub proof fn law_deduplicated_hubs(hubs: Seq<HubView>)
    ensures
        unique_keys(concat_items(spec_deduplicate(hubs))),
        forall|i: int| 0 <= i < spec_deduplicate(hubs).len() ==> #[trigger] spec_deduplicate(hubs)[i].metadata.len() > 0,
        item_keys(concat_items(spec_deduplicate(hubs))) == hub_keys(hubs),
    decreases hubs.len(),
{
    if hubs.len() == 0 {
        assert(concat_items(spec_deduplicate(hubs)) == Seq::<MetadataItem>::empty());
        assert(item_keys(Seq::<MetadataItem>::empty()) == Set::<Seq<char>>::empty());
    } else {
        let pre = hubs.drop_last();
        let h = hubs.last();
        law_deduplicated_hubs(pre);
        let d = spec_deduplicate(pre);
        let seen = hub_keys(pre);
        let kept = first_seen(h.metadata, seen);
        lemma_first_seen(h.metadata, seen);
        if kept.len() == 0 {
            assert(item_keys(kept) == Set::<Seq<char>>::empty());
            assert(hub_keys(hubs) == seen.union(item_keys(h.metadata)));
            assert(seen.union(item_keys(h.metadata)) == seen) by {
                assert forall|k: Seq<char>| item_keys(h.metadata).contains(k) implies seen.contains(k) by {
                    if !seen.contains(k) {
                        assert(item_keys(h.metadata).difference(seen).contains(k));
                    }
                }
            }
        } else {
            let nh = HubView { metadata: kept, ..h };
            let out = d.push(nh);
            assert(out.drop_last() == d);
            assert(concat_items(out) == concat_items(d) + kept);
            lemma_item_keys_concat(concat_items(d), kept);
            assert(item_keys(concat_items(d)).disjoint(item_keys(kept)));
            lemma_unique_concat(concat_items(d), kept);
            assert(hub_keys(hubs) == seen.union(item_keys(h.metadata)));
            assert(seen.union(item_keys(h.metadata).difference(seen)) == seen.union(item_keys(h.metadata)));
            assert forall|i: int| 0 <= i < out.len() implies #[trigger] out[i].metadata.len() > 0 by {
                if i < d.len() {
                    assert(out[i] == d[i]);
                }
            }
        }
    }
}

} // verus!
