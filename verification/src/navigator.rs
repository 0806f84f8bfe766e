//! A filterable, stably-indexed cursor over an ordered collection.
//!
//! Every record of the backing collection keeps its *absolute index* for the
//! session's lifetime.  The navigator holds, per absolute index, the record's
//! discriminator (`None` for records that can never be displayed, such as
//! records that failed to decode), one filter entry per distinct
//! discriminator, and the *display list*: the subsequence of absolute indices
//! whose discriminator maps to an enabled entry, in original order.
//!
//! The active selection, when present, is always a member of the display
//! list; selecting an index that the current filters hide first resets every
//! filter to enabled.

use crate::seq_util::lemma_filter_push;
use vstd::prelude::*;

verus! {

/// One filter entry: a discriminator value with its display label, enabled
/// flag and occurrence count over the backing collection.
pub struct FilterEntry {
    pub disc: u64,
    pub label: String,
    pub enabled: bool,
    pub count: usize,
}

/// No two entries name the same discriminator.
pub open spec fn unique_discs(filters: Seq<FilterEntry>) -> bool {
    forall|j: int, k: int|
        0 <= j < k < filters.len() ==> filters[j].disc != filters[k].disc
}

/// Some entry names discriminator `d`.
pub open spec fn has_entry(filters: Seq<FilterEntry>, d: u64) -> bool {
    exists|j: int| 0 <= j < filters.len() && filters[j].disc == d
}

/// Some entry names discriminator `d` and is enabled.
pub open spec fn enabled_in(filters: Seq<FilterEntry>, d: u64) -> bool {
    exists|j: int| 0 <= j < filters.len() && filters[j].disc == d && filters[j].enabled
}

/// Record `i` is eligible for display: it has a discriminator and that
/// discriminator's entry is enabled.
pub open spec fn shown(items: Seq<Option<u64>>, filters: Seq<FilterEntry>, i: int) -> bool {
    items[i] is Some && enabled_in(filters, items[i]->0)
}

/// The display list over the first `n` records: every index `i < n` with
/// `shown(items, filters, i)`, in increasing order.
pub open spec fn display_prefix(
    items: Seq<Option<u64>>,
    filters: Seq<FilterEntry>,
    n: int,
) -> Seq<usize>
    decreases n,
{
    if n <= 0 {
        Seq::empty()
    } else {
        let prev = display_prefix(items, filters, n - 1);
        if shown(items, filters, n - 1) {
            prev.push((n - 1) as usize)
        } else {
            prev
        }
    }
}

/// The full display list.
pub open spec fn display_of(items: Seq<Option<u64>>, filters: Seq<FilterEntry>) -> Seq<usize> {
    display_prefix(items, filters, items.len() as int)
}

/// The same entries with every enabled flag set.
pub open spec fn all_enabled(filters: Seq<FilterEntry>) -> Seq<FilterEntry> {
    filters.map_values(
        |e: FilterEntry|
            FilterEntry { disc: e.disc, label: e.label, enabled: true, count: e.count },
    )
}

/// The same entries with the flag of discriminator `d` set to `en`.
pub open spec fn set_flag(filters: Seq<FilterEntry>, d: u64, en: bool) -> Seq<FilterEntry> {
    filters.map_values(
        |e: FilterEntry|
            if e.disc == d {
                FilterEntry { disc: e.disc, label: e.label, enabled: en, count: e.count }
            } else {
                e
            },
    )
}

/// The entry list that `build` derives from the first `n` records: one entry
/// per distinct discriminator in order of first occurrence, labelled by the
/// first occurrence, enabled, counting every occurrence.
pub open spec fn entries_prefix(
    items: Seq<Option<u64>>,
    labels: Seq<String>,
    n: int,
) -> Seq<FilterEntry>
    decreases n,
{
    if n <= 0 {
        Seq::empty()
    } else {
        let prev = entries_prefix(items, labels, n - 1);
        if items[n - 1] is Some {
            let d = items[n - 1]->0;
            if has_entry(prev, d) {
                bump_count(prev, d)
            } else {
                prev.push(FilterEntry { disc: d, label: labels[n - 1], enabled: true, count: 1 })
            }
        } else {
            prev
        }
    }
}

/// The same entries with the count of discriminator `d` raised by one.
pub open spec fn bump_count(filters: Seq<FilterEntry>, d: u64) -> Seq<FilterEntry> {
    filters.map_values(
        |e: FilterEntry|
            if e.disc == d {
                FilterEntry {
                    disc: e.disc,
                    label: e.label,
                    enabled: e.enabled,
                    count: (e.count + 1) as usize,
                }
            } else {
                e
            },
    )
}

/// The full entry list that `build` derives.
pub open spec fn entries_of(items: Seq<Option<u64>>, labels: Seq<String>) -> Seq<FilterEntry> {
    entries_prefix(items, labels, items.len() as int)
}

pub open spec fn strictly_increasing(s: Seq<usize>) -> bool {
    forall|j: int, k: int| 0 <= j < k < s.len() ==> s[j] < s[k]
}

/// The position of `a` inside `s` (meaningful when `s` contains `a` exactly
/// once, as the display list does).
pub open spec fn idx_in(s: Seq<usize>, a: usize) -> int {
    choose|j: int| 0 <= j < s.len() && s[j] == a
}

/// Selection after a `first` motion.
pub open spec fn first_active(display: Seq<usize>) -> Option<usize> {
    if display.len() == 0 {
        Option::None
    } else {
        Option::Some(display[0])
    }
}

/// Selection after a `last` motion.
pub open spec fn last_active(display: Seq<usize>) -> Option<usize> {
    if display.len() == 0 {
        Option::None
    } else {
        Option::Some(display[display.len() - 1])
    }
}

/// Selection after a `next` motion: with no selection it acts as `first`;
/// at the end of the display list it saturates.
pub open spec fn next_active(display: Seq<usize>, active: Option<usize>) -> Option<usize> {
    match active {
        Option::None => first_active(display),
        Option::Some(a) => {
            let p = idx_in(display, a);
            if p + 1 < display.len() {
                Option::Some(display[p + 1])
            } else {
                Option::Some(a)
            }
        },
    }
}

/// Selection after a `prev` motion: with no selection it acts as `first`;
/// at the start of the display list it saturates.
pub open spec fn prev_active(display: Seq<usize>, active: Option<usize>) -> Option<usize> {
    match active {
        Option::None => first_active(display),
        Option::Some(a) => {
            let p = idx_in(display, a);
            if p > 0 {
                Option::Some(display[p - 1])
            } else {
                Option::Some(a)
            }
        },
    }
}

/// The generic filterable list navigator.
pub struct FilteredListNavigator {
    pub items: Vec<Option<u64>>,
    pub filters: Vec<FilterEntry>,
    pub display: Vec<usize>,
    pub active: Option<usize>,
    pub scroll_pending: bool,
}

/// The display list over `n` records holds exactly the shown indices below
/// `n`, in strictly increasing order.
pub proof fn lemma_display_prefix_props(
    items: Seq<Option<u64>>,
    filters: Seq<FilterEntry>,
    n: int,
)
    requires
        n <= usize::MAX,
    ensures
        forall|k: int|
            #![trigger display_prefix(items, filters, n)[k]]
            0 <= k < display_prefix(items, filters, n).len() ==> display_prefix(items, filters, n)[k]
                < n && shown(items, filters, display_prefix(items, filters, n)[k] as int),
        forall|i: usize|
            #![trigger shown(items, filters, i as int)]
            i < n && shown(items, filters, i as int) ==> display_prefix(
                items,
                filters,
                n,
            ).contains(i),
        strictly_increasing(display_prefix(items, filters, n)),
    decreases n,
{
    if n > 0 {
        lemma_display_prefix_props(items, filters, n - 1);
        let prev = display_prefix(items, filters, n - 1);
        let cur = display_prefix(items, filters, n);
        if shown(items, filters, n - 1) {
            assert(cur == prev.push((n - 1) as usize));
            assert forall|k: int| 0 <= k < cur.len() implies cur[k] < n && shown(
                items,
                filters,
                cur[k] as int,
            ) by {
                if k < prev.len() {
                    assert(cur[k] == prev[k]);
                } else {
                    assert(cur[k] == (n - 1) as usize);
                }
            }
            assert forall|i: usize| i < n && shown(items, filters, i as int) implies cur.contains(
                i,
            ) by {
                if (i as int) < n - 1 {
                    assert(prev.contains(i));
                    let k = choose|k: int| 0 <= k < prev.len() && prev[k] == i;
                    assert(cur[k] == i);
                } else {
                    assert(i == (n - 1) as usize);
                    assert(cur[cur.len() - 1] == i);
                }
            }
            assert forall|j: int, k: int| 0 <= j < k < cur.len() implies cur[j] < cur[k] by {
                if k < prev.len() {
                    assert(cur[j] == prev[j] && cur[k] == prev[k]);
                } else {
                    assert(cur[k] == (n - 1) as usize);
                    assert(cur[j] == prev[j]);
                    assert(prev[j] < n - 1);
                }
            }
        } else {
            assert(cur == prev);
            assert forall|i: usize| i < n && shown(items, filters, i as int) implies cur.contains(
                i,
            ) by {
                assert(i as int != n - 1);
            }
        }
    }
}

/// Membership in the display list characterised pointwise.
pub proof fn lemma_display_membership(items: Seq<Option<u64>>, filters: Seq<FilterEntry>, n: int)
    requires
        n <= usize::MAX,
    ensures
        forall|i: usize|
            #![trigger display_prefix(items, filters, n).contains(i)]
            display_prefix(items, filters, n).contains(i) <==> (i < n && shown(
                items,
                filters,
                i as int,
            )),
{
    lemma_display_prefix_props(items, filters, n);
    let d = display_prefix(items, filters, n);
    assert forall|i: usize|
        #![trigger d.contains(i)]
        d.contains(i) <==> (i < n && shown(items, filters, i as int)) by {
        if d.contains(i) {
            let k = choose|k: int| 0 <= k < d.len() && d[k] == i;
            assert(d[k] < n && shown(items, filters, d[k] as int));
        }
        if i < n && shown(items, filters, i as int) {
            assert(d.contains(i));
        }
    }
}

/// In a strictly increasing sequence every value sits at a unique position.
pub proof fn lemma_idx_unique(s: Seq<usize>, j: int)
    requires
        strictly_increasing(s),
        0 <= j < s.len(),
    ensures
        idx_in(s, s[j]) == j,
{
    let a = s[j];
    assert(0 <= j < s.len() && s[j] == a);
    let p = idx_in(s, a);
    assert(0 <= p < s.len() && s[p] == a);
    if p < j {
        assert(s[p] < s[j]);
    }
    if j < p {
        assert(s[j] < s[p]);
    }
}

impl FilteredListNavigator {
    /// Structural well-formedness: entries are unique, every discriminator
    /// that occurs has an entry, the display list is the filtered
    /// subsequence, and the selection (when present) is displayed.
    pub open spec fn wf(self) -> bool {
        &&& self.items@.len() <= usize::MAX
        &&& unique_discs(self.filters@)
        &&& forall|i: int|
            0 <= i < self.items@.len() && self.items@[i] is Some ==> has_entry(
                self.filters@,
                #[trigger] self.items@[i]->0,
            )
        &&& self.display@ == display_of(self.items@, self.filters@)
        &&& self.active is Some ==> self.display@.contains(self.active->0)
    }

    /// True iff the entry for `d` exists and is enabled.
    #[verifier::loop_isolation(false)]
    fn entry_enabled(&self, d: u64) -> (r: bool)
        requires
            unique_discs(self.filters@),
        ensures
            r == enabled_in(self.filters@, d),
    {
        let n = self.filters.len();
        let mut j: usize = 0;
        while j < n
            invariant
                n == self.filters@.len(),
                0 <= j <= n,
                unique_discs(self.filters@),
                forall|k: int| 0 <= k < j ==> self.filters@[k].disc != d,
            decreases n - j,
        {
            if self.filters[j].disc == d {
                if self.filters[j].enabled {
                    assert(enabled_in(self.filters@, d));
                    return true;
                } else {
                    assert forall|k: int|
                        0 <= k < self.filters@.len() && self.filters@[k].disc == d implies !self
                        .filters@[k].enabled by {
                        if k != j as int {
                            assert(self.filters@[k].disc != self.filters@[j as int].disc);
                        }
                    }
                    return false;
                }
            }
            j += 1;
        }
        false
    }

    /// The position of the entry for `d`, if one exists.
    #[verifier::loop_isolation(false)]
    fn find_entry(&self, d: u64) -> (r: Option<usize>)
        ensures
            match r {
                Option::Some(j) => j < self.filters@.len() && self.filters@[j as int].disc == d,
                Option::None => !has_entry(self.filters@, d),
            },
    {
        let n = self.filters.len();
        let mut j: usize = 0;
        while j < n
            invariant
                n == self.filters@.len(),
                0 <= j <= n,
                forall|k: int| 0 <= k < j ==> self.filters@[k].disc != d,
            decreases n - j,
        {
            if self.filters[j].disc == d {
                return Option::Some(j);
            }
            j += 1;
        }
        Option::None
    }

    /// Recompute the display list from the current items and filters.
    #[verifier::loop_isolation(false)]
    fn recompute_display(&mut self)
        requires
            unique_discs(old(self).filters@),
        ensures
            final(self).items == old(self).items,
            final(self).filters == old(self).filters,
            final(self).active == old(self).active,
            final(self).scroll_pending == old(self).scroll_pending,
            final(self).display@ == display_of(final(self).items@, final(self).filters@),
    {
        let n = self.items.len();
        let mut display: Vec<usize> = Vec::new();
        let mut i: usize = 0;
        while i < n
            invariant
                n == self.items@.len(),
                0 <= i <= n,
                unique_discs(self.filters@),
                display@ == display_prefix(self.items@, self.filters@, i as int),
            decreases n - i,
        {
            let show = match self.items[i] {
                Option::Some(d) => self.entry_enabled(d),
                Option::None => false,
            };
            if show {
                display.push(i);
            }
            i += 1;
        }
        self.display = display;
    }

    /// Build a navigator over a collection: one discriminator per record
    /// (`None` for records that can never be displayed) and one label per
    /// record, used for the first occurrence of each discriminator.
    ///
    /// Initially every filter entry is enabled, every displayable record is
    /// displayed and nothing is selected.
    #[verifier::loop_isolation(false)]
    pub fn build(items: Vec<Option<u64>>, labels: Vec<String>) -> (nav: Self)
        requires
            items@.len() == labels@.len(),
        ensures
            nav.wf(),
            nav.items@ == items@,
            nav.filters@ == entries_of(items@, labels@),
            nav.display@ == display_of(items@, entries_of(items@, labels@)),
            nav.active is None,
            !nav.scroll_pending,
    {
        let n = items.len();
        let ghost items0 = items@;
        let mut nav = FilteredListNavigator {
            items,
            filters: Vec::new(),
            display: Vec::new(),
            active: Option::None,
            scroll_pending: false,
        };
        let mut i: usize = 0;
        while i < n
            invariant
                nav.items@ == items0,
                n == nav.items@.len(),
                0 <= i <= n,
                nav.active is None,
                !nav.scroll_pending,
                nav.filters@ == entries_prefix(nav.items@, labels@, i as int),
            decreases n - i,
        {
            proof {
                lemma_entries_prefix_props(nav.items@, labels@, i as int);
            }
            match nav.items[i] {
                Option::Some(d) => {
                    let found = nav.find_entry(d);
                    match found {
                        Option::Some(j) => {
                            let ghost prev = nav.filters@;
                            let e = &nav.filters[j];
                            let bumped = FilterEntry {
                                disc: e.disc,
                                label: e.label.clone(),
                                enabled: e.enabled,
                                count: e.count + 1,
                            };
                            nav.filters[j] = bumped;
                            proof {
                                assert(has_entry(prev, d));
                                assert forall|k: int|
                                    0 <= k < nav.filters@.len() implies nav.filters@[k]
                                    == bump_count(prev, d)[k] by {
                                    if k != j as int {
                                        assert(prev[k].disc != prev[j as int].disc);
                                    }
                                }
                                assert(nav.filters@ =~= bump_count(prev, d));
                            }
                        },
                        Option::None => {
                            let entry = FilterEntry {
                                disc: d,
                                label: labels[i].clone(),
                                enabled: true,
                                count: 1,
                            };
                            nav.filters.push(entry);
                        },
                    }
                },
                Option::None => {},
            }
            i += 1;
        }
        proof {
            lemma_entries_prefix_props(nav.items@, labels@, n as int);
        }
        nav.recompute_display();
        proof {
            lemma_display_membership(nav.items@, nav.filters@, nav.items@.len() as int);
        }
        nav
    }

    /// Select the record at `index`.
    ///
    /// Fails, changing nothing, when `index` is out of bounds or names a
    /// record that can never be displayed.  Otherwise the selection moves to
    /// `index` and a scroll is marked pending; when the current filters hide
    /// `index`, every filter is first reset to enabled.
    pub fn select(&mut self, index: usize) -> (ok: bool)
        requires
            old(self).wf(),
        ensures
            final(self).wf(),
            final(self).items == old(self).items,
            ok == (index < old(self).items@.len() && old(self).items@[index as int] is Some),
            !ok ==> *final(self) == *old(self),
            ok ==> final(self).active == Option::Some(index) && final(self).scroll_pending,
            ok && shown(old(self).items@, old(self).filters@, index as int) ==> final(self).filters
                == old(self).filters && final(self).display == old(self).display,
            ok && !shown(old(self).items@, old(self).filters@, index as int) ==> final(self).filters@
                == all_enabled(old(self).filters@) && final(self).display@ == display_of(
                old(self).items@,
                all_enabled(old(self).filters@),
            ),
    {
        if index >= self.items.len() {
            return false;
        }
        let d = match self.items[index] {
            Option::Some(d) => d,
            Option::None => { return false; },
        };
        if !self.entry_enabled(d) {
            self.clear_filters();
            proof {
                assert(has_entry(old(self).filters@, d));
                let j = choose|j: int|
                    0 <= j < old(self).filters@.len() && old(self).filters@[j].disc == d;
                assert(all_enabled(old(self).filters@)[j].disc == d);
                assert(enabled_in(self.filters@, d));
            }
        }
        self.active = Option::Some(index);
        self.scroll_pending = true;
        proof {
            lemma_display_membership(self.items@, self.filters@, self.items@.len() as int);
            assert(self.display@.contains(index));
        }
        true
    }

    /// Re-enable every filter entry and recompute the display list; the
    /// selection is unchanged.
    #[verifier::loop_isolation(false)]
    pub fn clear_filters(&mut self)
        requires
            old(self).wf(),
        ensures
            final(self).wf(),
            final(self).items == old(self).items,
            final(self).filters@ == all_enabled(old(self).filters@),
            final(self).display@ == display_of(old(self).items@, all_enabled(old(self).filters@)),
            final(self).active == old(self).active,
            final(self).scroll_pending == old(self).scroll_pending,
    {
        let n = self.filters.len();
        let mut j: usize = 0;
        while j < n
            invariant
                n == self.filters@.len(),
                self.filters@.len() == old(self).filters@.len(),
                0 <= j <= n,
                self.items == old(self).items,
                self.active == old(self).active,
                self.scroll_pending == old(self).scroll_pending,
                self.display == old(self).display,
                forall|k: int|
                    0 <= k < j ==> #[trigger] self.filters@[k] == all_enabled(
                        old(self).filters@,
                    )[k],
                forall|k: int| j <= k < n ==> #[trigger] self.filters@[k] == old(self).filters@[k],
            decreases n - j,
        {
            let e = &self.filters[j];
            let cleared = FilterEntry {
                disc: e.disc,
                label: e.label.clone(),
                enabled: true,
                count: e.count,
            };
            self.filters[j] = cleared;
            j += 1;
        }
        proof {
            assert(self.filters@ =~= all_enabled(old(self).filters@));
        }
        self.recompute_display();
        proof {
            let items = self.items@;
            let olds = old(self).filters@;
            let news = self.filters@;
            assert forall|i: int| 0 <= i < items.len() && items[i] is Some implies has_entry(
                news,
                #[trigger] items[i]->0,
            ) by {
                let d = items[i]->0;
                let j = choose|j: int| 0 <= j < olds.len() && olds[j].disc == d;
                assert(news[j].disc == d);
            }
            if self.active is Some {
                let a = self.active->0;
                lemma_display_membership(items, olds, items.len() as int);
                lemma_display_membership(items, news, items.len() as int);
                assert(old(self).display@.contains(a));
                assert(shown(items, olds, a as int));
                let d = items[a as int]->0;
                let j = choose|j: int| 0 <= j < olds.len() && olds[j].disc == d && olds[j].enabled;
                assert(news[j].disc == d && news[j].enabled);
                assert(shown(items, news, a as int));
            }
        }
    }

    /// Toggle one filter entry and recompute the display list.
    ///
    /// Fails, changing nothing, when no entry names `d`.  A selection that
    /// the new filters still show is kept; one that they hide is cleared.
    pub fn set_enabled(&mut self, d: u64, en: bool) -> (found: bool)
        requires
            old(self).wf(),
        ensures
            final(self).wf(),
            final(self).items == old(self).items,
            found == has_entry(old(self).filters@, d),
            !found ==> *final(self) == *old(self),
            found ==> final(self).filters@ == set_flag(old(self).filters@, d, en),
            found ==> final(self).display@ == display_of(
                old(self).items@,
                set_flag(old(self).filters@, d, en),
            ),
            found ==> final(self).active == (if old(self).active is Some && shown(
                old(self).items@,
                set_flag(old(self).filters@, d, en),
                old(self).active->0 as int,
            ) {
                old(self).active
            } else {
                Option::<usize>::None
            }),
            found ==> final(self).scroll_pending == old(self).scroll_pending,
    {
        let j = match self.find_entry(d) {
            Option::Some(j) => j,
            Option::None => { return false; },
        };
        let ghost prev = self.filters@;
        let e = &self.filters[j];
        let toggled = FilterEntry {
            disc: e.disc,
            label: e.label.clone(),
            enabled: en,
            count: e.count,
        };
        self.filters[j] = toggled;
        proof {
            assert forall|k: int| 0 <= k < self.filters@.len() implies self.filters@[k] == set_flag(
                prev,
                d,
                en,
            )[k] by {
                if k != j as int {
                    assert(prev[k].disc != prev[j as int].disc);
                }
            }
            assert(self.filters@ =~= set_flag(prev, d, en));
        }
        self.recompute_display();
        let keep = match self.active {
            Option::Some(a) => {
                proof {
                    lemma_display_membership(
                        old(self).items@,
                        prev,
                        old(self).items@.len() as int,
                    );
                    assert(old(self).display@.contains(a));
                    assert(shown(old(self).items@, prev, a as int));
                }
                let da = match self.items[a] {
                    Option::Some(da) => da,
                    Option::None => {
                        assert(false);
                        0
                    },
                };
                self.entry_enabled(da)
            },
            Option::None => false,
        };
        if !keep {
            self.active = Option::None;
        }
        proof {
            let news = self.filters@;
            let items = self.items@;
            assert forall|j2: int, k2: int|
                0 <= j2 < k2 < news.len() implies news[j2].disc != news[k2].disc by {
                assert(news[j2].disc == prev[j2].disc);
                assert(news[k2].disc == prev[k2].disc);
            }
            assert forall|i: int|
                0 <= i < items.len() && items[i] is Some implies has_entry(
                news,
                #[trigger] items[i]->0,
            ) by {
                let dd = items[i]->0;
                assert(has_entry(prev, dd));
                let j2 = choose|j2: int| 0 <= j2 < prev.len() && prev[j2].disc == dd;
                assert(news[j2].disc == dd);
            }
            lemma_display_membership(items, news, items.len() as int);
            if self.active is Some {
                let a = self.active->0;
                assert(shown(items, news, a as int));
                assert(self.display@.contains(a));
            }
        }
        true
    }

    /// Move the selection to the first member of the display list.
    /// With an empty display list nothing happens.
    pub fn first(&mut self) -> (selected: bool)
        requires
            old(self).wf(),
        ensures
            final(self).wf(),
            final(self).items == old(self).items,
            final(self).filters == old(self).filters,
            final(self).display == old(self).display,
            final(self).active == first_active(old(self).display@),
            selected == (old(self).display@.len() > 0),
            final(self).scroll_pending == (old(self).scroll_pending || selected),
    {
        if self.display.len() > 0 {
            let a = self.display[0];
            self.active = Option::Some(a);
            self.scroll_pending = true;
            proof {
                assert(self.display@.contains(a));
            }
            true
        } else {
            proof {
                if old(self).active is Some {
                    assert(old(self).display@.contains(old(self).active->0));
                }
            }
            false
        }
    }

    /// Move the selection to the last member of the display list.
    /// With an empty display list nothing happens.
    pub fn last(&mut self) -> (selected: bool)
        requires
            old(self).wf(),
        ensures
            final(self).wf(),
            final(self).items == old(self).items,
            final(self).filters == old(self).filters,
            final(self).display == old(self).display,
            final(self).active == last_active(old(self).display@),
            selected == (old(self).display@.len() > 0),
            final(self).scroll_pending == (old(self).scroll_pending || selected),
    {
        if self.display.len() > 0 {
            let a = self.display[self.display.len() - 1];
            self.active = Option::Some(a);
            self.scroll_pending = true;
            proof {
                assert(self.display@.contains(a));
            }
            true
        } else {
            proof {
                if old(self).active is Some {
                    assert(old(self).display@.contains(old(self).active->0));
                }
            }
            false
        }
    }

    /// The position of the current selection inside the display list.
    #[verifier::loop_isolation(false)]
    fn position_of_active(&self) -> (r: Option<usize>)
        requires
            self.wf(),
            self.active is Some,
        ensures
            r is Some,
            r->0 < self.display@.len(),
            self.display@[r->0 as int] == self.active->0,
            r->0 as int == idx_in(self.display@, self.active->0),
    {
        let a = match self.active {
            Option::Some(a) => a,
            Option::None => {
                assert(false);
                0
            },
        };
        let n = self.display.len();
        let mut j: usize = 0;
        proof {
            assert(self.display@.contains(a));
        }
        while j < n
            invariant
                n == self.display@.len(),
                0 <= j <= n,
                self.display@.contains(a),
                forall|k: int| 0 <= k < j ==> self.display@[k] != a,
            decreases n - j,
        {
            if self.display[j] == a {
                proof {
                    lemma_display_prefix_props(self.items@, self.filters@, self.items@.len() as int);
                    lemma_idx_unique(self.display@, j as int);
                }
                return Option::Some(j);
            }
            j += 1;
        }
        proof {
            let w = choose|k: int| 0 <= k < self.display@.len() && self.display@[k] == a;
            assert(self.display@[w] != a);
        }
        Option::None
    }

    /// Move the selection to the next member of the display list; with no
    /// selection this acts as `first`; at the end it saturates.
    pub fn next(&mut self) -> (moved: bool)
        requires
            old(self).wf(),
        ensures
            final(self).wf(),
            final(self).items == old(self).items,
            final(self).filters == old(self).filters,
            final(self).display == old(self).display,
            final(self).active == next_active(old(self).display@, old(self).active),
            moved == (final(self).active != old(self).active),
            final(self).scroll_pending == (old(self).scroll_pending || moved),
    {
        match self.active {
            Option::None => {
                let selected = self.first();
                selected
            },
            Option::Some(a) => {
                let p = match self.position_of_active() {
                    Option::Some(p) => p,
                    Option::None => {
                        assert(false);
                        0
                    },
                };
                let len = self.display.len();
                if p + 1 < len {
                    let b = self.display[p + 1];
                    self.active = Option::Some(b);
                    self.scroll_pending = true;
                    proof {
                        assert(self.display@.contains(b));
                        lemma_display_prefix_props(
                            self.items@,
                            self.filters@,
                            self.items@.len() as int,
                        );
                        assert(self.display@[p as int] < self.display@[p + 1]);
                    }
                    true
                } else {
                    false
                }
            },
        }
    }

    /// Move the selection to the previous member of the display list; with
    /// no selection this acts as `first`; at the start it saturates.
    pub fn prev(&mut self) -> (moved: bool)
        requires
            old(self).wf(),
        ensures
            final(self).wf(),
            final(self).items == old(self).items,
            final(self).filters == old(self).filters,
            final(self).display == old(self).display,
            final(self).active == prev_active(old(self).display@, old(self).active),
            moved == (final(self).active != old(self).active),
            final(self).scroll_pending == (old(self).scroll_pending || moved),
    {
        match self.active {
            Option::None => {
                let selected = self.first();
                selected
            },
            Option::Some(a) => {
                let p = match self.position_of_active() {
                    Option::Some(p) => p,
                    Option::None => {
                        assert(false);
                        0
                    },
                };
                if p > 0 {
                    let b = self.display[p - 1];
                    self.active = Option::Some(b);
                    self.scroll_pending = true;
                    proof {
                        assert(self.display@.contains(b));
                        lemma_display_prefix_props(
                            self.items@,
                            self.filters@,
                            self.items@.len() as int,
                        );
                        assert(self.display@[p - 1] < self.display@[p as int]);
                    }
                    true
                } else {
                    false
                }
            },
        }
    }

    /// Read and clear the pending-scroll mark; rendering calls this once per
    /// frame.
    pub fn take_scroll_pending(&mut self) -> (was_pending: bool)
        requires
            old(self).wf(),
        ensures
            final(self).wf(),
            final(self).items == old(self).items,
            final(self).filters == old(self).filters,
            final(self).display == old(self).display,
            final(self).active == old(self).active,
            !final(self).scroll_pending,
            was_pending == old(self).scroll_pending,
    {
        let was = self.scroll_pending;
        self.scroll_pending = false;
        was
    }

    /// The current selection, as an absolute index.
    pub fn active_index(&self) -> (r: Option<usize>)
        ensures
            r == self.active,
    {
        self.active
    }
}

/// The entry list that `build` derives is unique, complete over the
/// discriminators that occur, fully enabled, and bounded in its counts.
pub proof fn lemma_entries_prefix_props(items: Seq<Option<u64>>, labels: Seq<String>, n: int)
    ensures
        unique_discs(entries_prefix(items, labels, n)),
        forall|d: u64|
            #![trigger has_entry(entries_prefix(items, labels, n), d)]
            has_entry(entries_prefix(items, labels, n), d) <==> exists|i: int|
                0 <= i < n && items[i] == Option::Some(d),
        forall|j: int|
            0 <= j < entries_prefix(items, labels, n).len() ==> #[trigger] entries_prefix(
                items,
                labels,
                n,
            )[j].enabled,
        forall|j: int|
            0 <= j < entries_prefix(items, labels, n).len() ==> #[trigger] entries_prefix(
                items,
                labels,
                n,
            )[j].count <= n,
    decreases n,
{
    if n > 0 {
        lemma_entries_prefix_props(items, labels, n - 1);
        let prev = entries_prefix(items, labels, n - 1);
        let cur = entries_prefix(items, labels, n);
        if items[n - 1] is Some {
            let d0 = items[n - 1]->0;
            if has_entry(prev, d0) {
                assert(cur == bump_count(prev, d0));
                assert forall|d: u64| has_entry(cur, d) implies exists|i: int|
                    0 <= i < n && items[i] == Option::Some(d) by {
                    let j = choose|j: int| 0 <= j < cur.len() && cur[j].disc == d;
                    assert(cur[j].disc == prev[j].disc);
                    assert(has_entry(prev, d));
                    let i = choose|i: int| 0 <= i < n - 1 && items[i] == Option::Some(d);
                    assert(0 <= i < n && items[i] == Option::Some(d));
                }
                assert forall|d: u64|
                    (exists|i: int| 0 <= i < n && items[i] == Option::Some(d)) implies has_entry(
                    cur,
                    d,
                ) by {
                    let i = choose|i: int| 0 <= i < n && items[i] == Option::Some(d);
                    if i < n - 1 {
                        assert(has_entry(prev, d));
                        let j = choose|j: int| 0 <= j < prev.len() && prev[j].disc == d;
                        assert(cur[j].disc == d);
                    } else {
                        assert(d == d0);
                        let j = choose|j: int| 0 <= j < prev.len() && prev[j].disc == d0;
                        assert(cur[j].disc == d);
                    }
                }
                assert forall|j: int, k: int|
                    0 <= j < k < cur.len() implies cur[j].disc != cur[k].disc by {
                    assert(cur[j].disc == prev[j].disc);
                    assert(cur[k].disc == prev[k].disc);
                }
            } else {
                assert(cur == prev.push(
                    FilterEntry { disc: d0, label: labels[n - 1], enabled: true, count: 1 },
                ));
                assert forall|d: u64| has_entry(cur, d) implies exists|i: int|
                    0 <= i < n && items[i] == Option::Some(d) by {
                    let j = choose|j: int| 0 <= j < cur.len() && cur[j].disc == d;
                    if j < prev.len() {
                        assert(cur[j] == prev[j]);
                        assert(has_entry(prev, d));
                        let i = choose|i: int| 0 <= i < n - 1 && items[i] == Option::Some(d);
                        assert(0 <= i < n && items[i] == Option::Some(d));
                    } else {
                        assert(cur[j].disc == d0);
                        assert(0 <= n - 1 < n && items[n - 1] == Option::Some(d));
                    }
                }
                assert forall|d: u64|
                    (exists|i: int| 0 <= i < n && items[i] == Option::Some(d)) implies has_entry(
                    cur,
                    d,
                ) by {
                    let i = choose|i: int| 0 <= i < n && items[i] == Option::Some(d);
                    if i < n - 1 {
                        assert(has_entry(prev, d));
                        let j = choose|j: int| 0 <= j < prev.len() && prev[j].disc == d;
                        assert(cur[j].disc == d);
                    } else {
                        assert(cur[cur.len() - 1].disc == d);
                    }
                }
                assert forall|j: int, k: int|
                    0 <= j < k < cur.len() implies cur[j].disc != cur[k].disc by {
                    if k == cur.len() - 1 {
                        assert(!has_entry(prev, d0));
                        if cur[j].disc == d0 {
                            assert(prev[j].disc == d0);
                        }
                    }
                }
            }
        } else {
            assert(cur == prev);
        }
    }
}

/// Clearing the filters is idempotent: clearing an already cleared filter
/// state changes neither the filters nor the display list.
pub proof fn lemma_clear_filters_idempotent(items: Seq<Option<u64>>, filters: Seq<FilterEntry>)
    ensures
        all_enabled(all_enabled(filters)) == all_enabled(filters),
        display_of(items, all_enabled(all_enabled(filters))) == display_of(
            items,
            all_enabled(filters),
        ),
{
    assert(all_enabled(all_enabled(filters)) =~= all_enabled(filters));
}

/// Filtering is a closure property: disabling a discriminator removes from
/// the display list exactly the records that carry it, in place; and, when
/// the discriminator was enabled, re-enabling it restores the filters, and
/// with them the display list, exactly.
pub proof fn lemma_filter_closure(
    items: Seq<Option<u64>>,
    filters: Seq<FilterEntry>,
    d: u64,
    n: int,
)
    requires
        unique_discs(filters),
        n <= usize::MAX,
    ensures
        display_prefix(items, set_flag(filters, d, false), n) == display_prefix(
            items,
            filters,
            n,
        ).filter(|a: usize| items[a as int] != Option::Some(d)),
        enabled_in(filters, d) ==> set_flag(set_flag(filters, d, false), d, true) == filters,
    decreases n,
{
    let off = set_flag(filters, d, false);
    let pred = |a: usize| items[a as int] != Option::Some(d);
    if enabled_in(filters, d) {
        assert forall|j: int|
            0 <= j < filters.len() implies set_flag(set_flag(filters, d, false), d, true)[j]
            == filters[j] by {
            if filters[j].disc == d {
                let w = choose|w: int|
                    0 <= w < filters.len() && filters[w].disc == d && filters[w].enabled;
                if w != j {
                    assert(filters[w].disc != filters[j].disc);
                }
                assert(filters[j].enabled);
            }
        }
        assert(set_flag(set_flag(filters, d, false), d, true) =~= filters);
    }
    if n <= 0 {
        reveal(Seq::filter);
        assert(display_prefix(items, filters, n).filter(pred) =~= Seq::<usize>::empty());
    } else {
        lemma_filter_closure(items, filters, d, n - 1);
        let prev = display_prefix(items, filters, n - 1);
        let i = n - 1;
        // how the two filter states classify record i
        assert forall|x: u64| x != d implies enabled_in(off, x) == enabled_in(filters, x) by {
            if enabled_in(filters, x) {
                let j = choose|j: int|
                    0 <= j < filters.len() && filters[j].disc == x && filters[j].enabled;
                assert(off[j].disc == x && off[j].enabled);
            }
            if enabled_in(off, x) {
                let j = choose|j: int| 0 <= j < off.len() && off[j].disc == x && off[j].enabled;
                assert(filters[j].disc == x && filters[j].enabled);
            }
        }
        assert(!enabled_in(off, d)) by {
            if enabled_in(off, d) {
                let j = choose|j: int| 0 <= j < off.len() && off[j].disc == d && off[j].enabled;
                assert(!off[j].enabled);
            }
        }
        if shown(items, filters, i) {
            lemma_filter_push(prev, i as usize, pred);
            if items[i] == Option::Some(d) {
                assert(!shown(items, off, i));
                assert(!pred(i as usize));
            } else {
                assert(shown(items, off, i));
                assert(pred(i as usize));
            }
        } else {
            assert(!shown(items, off, i));
        }
    }
}

/// Selection after one keyboard motion.
pub open spec fn motion_result(
    motion: crate::events::NavMotion,
    display: Seq<usize>,
    active: Option<usize>,
) -> Option<usize> {
    match motion {
        crate::events::NavMotion::MoveFirst => first_active(display),
        crate::events::NavMotion::MoveLast => last_active(display),
        crate::events::NavMotion::MoveNext => next_active(display, active),
        crate::events::NavMotion::MovePrev => prev_active(display, active),
    }
}

/// Selection after the same keyboard motion applied `n` times over an
/// unchanged display list.
pub open spec fn iterate_motion(
    motion: crate::events::NavMotion,
    display: Seq<usize>,
    active: Option<usize>,
    n: nat,
) -> Option<usize>
    decreases n,
{
    if n == 0 {
        active
    } else {
        iterate_motion(motion, display, motion_result(motion, display, active), (n - 1) as nat)
    }
}

/// When every record below `n` is shown, the display list is the identity
/// sequence of indices.
pub proof fn lemma_display_all_shown(items: Seq<Option<u64>>, filters: Seq<FilterEntry>, n: int)
    requires
        0 <= n <= usize::MAX,
        forall|i: int| 0 <= i < n ==> shown(items, filters, i),
    ensures
        display_prefix(items, filters, n) == Seq::new(n as nat, |i: int| (i as usize)),
    decreases n,
{
    if n > 0 {
        lemma_display_all_shown(items, filters, n - 1);
        assert(display_prefix(items, filters, n) =~= Seq::new(n as nat, |i: int| (i as usize)));
    } else {
        assert(display_prefix(items, filters, n) =~= Seq::new(n as nat, |i: int| (i as usize)));
    }
}

/// From any non-boundary selection, `next` followed by `prev` returns to the
/// original selection; `next` at the end of the display list and `prev` at
/// its start leave the selection unchanged.
pub proof fn lemma_next_prev_round_trip(display: Seq<usize>, p: int)
    requires
        strictly_increasing(display),
        0 <= p < display.len(),
    ensures
        p + 1 < display.len() ==> prev_active(display, next_active(display, Option::Some(display[p])))
            == Option::<usize>::Some(display[p]),
        p + 1 == display.len() ==> next_active(display, Option::Some(display[p]))
            == Option::<usize>::Some(display[p]),
        p == 0 ==> prev_active(display, Option::Some(display[p])) == Option::<usize>::Some(
            display[p],
        ),
{
    lemma_idx_unique(display, p);
    if p + 1 < display.len() {
        lemma_idx_unique(display, p + 1);
    }
}

} // verus!
