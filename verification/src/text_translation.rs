//! Engine-neutral text translation request and replacement bookkeeping.
//!
//! Hosts can install an exact replacement table and receive asynchronous
//! translation requests. Pending requests are bound to both a text slot and
//! its generation so that a stale response cannot overwrite newer text.
use crate::unicode::is_whitespace;
use vstd::prelude::*;

verus! {

/// A text is blank when every character in it is whitespace, which is when
/// trimming it leaves nothing.
pub open spec fn is_blank(text: Seq<char>) -> bool {
    forall|i: int| 0 <= i < text.len() ==> crate::unicode::char_is_whitespace(text[i])
}

fn is_blank_text(text: &str) -> (b: bool)
    ensures
        b == is_blank(text@),
{
    broadcast use vstd::string::axiom_spec_iter;

    for c in it: text.chars()
        invariant
            it.seq() == text@,
            forall|j: int| 0 <= j < it.index() ==> crate::unicode::char_is_whitespace(text@[j]),
    {
        if !is_whitespace(c) {
            return false;
        }
    }
    true
}

/// The serial that follows `current`: it wraps around and skips zero.
pub open spec fn next_serial_spec(current: u64) -> u64 {
    if current == u64::MAX {
        1
    } else {
        (current + 1) as u64
    }
}

/// The characters of an optional string.
pub open spec fn opt_text(o: Option<String>) -> Option<Seq<char>> {
    match o {
        Some(s) => Some(s@),
        None => None,
    }
}

/// A text slot that should be translated by the host.
#[derive(Debug, Clone, PartialEq, Eq)]
pub struct TextTranslationRequest {
    pub serial: u64,
    pub slot: u32,
    pub generation: u64,
    pub source: String,
    pub ruby: Option<String>,
}

/// The contents of a request.
pub struct RequestView {
    pub serial: u64,
    pub slot: u32,
    pub generation: u64,
    pub source: Seq<char>,
    pub ruby: Option<Seq<char>>,
}

impl View for TextTranslationRequest {
    type V = RequestView;

    open spec fn view(&self) -> RequestView {
        RequestView {
            serial: self.serial,
            slot: self.slot,
            generation: self.generation,
            source: self.source@,
            ruby: opt_text(self.ruby),
        }
    }
}

/// A request that is still waiting for, or holding, its result.
#[derive(Debug)]
pub struct PendingTextTranslation {
    pub slot: u32,
    pub generation: u64,
    pub translated: Option<String>,
}

/// The contents of a pending request.
pub struct PendingView {
    pub slot: u32,
    pub generation: u64,
    pub translated: Option<Seq<char>>,
}

impl View for PendingTextTranslation {
    type V = PendingView;

    open spec fn view(&self) -> PendingView {
        PendingView {
            slot: self.slot,
            generation: self.generation,
            translated: opt_text(self.translated),
        }
    }
}

/// The value of the last pair in `pairs` whose key is `key`.
pub open spec fn pair_lookup(pairs: Seq<(String, String)>, key: Seq<char>) -> Option<Seq<char>>
    decreases pairs.len(),
{
    if pairs.len() == 0 {
        None
    } else if pairs.last().0@ == key {
        Some(pairs.last().1@)
    } else {
        pair_lookup(pairs.drop_last(), key)
    }
}

/// The table that collecting `pairs` into a map gives: a later pair wins over an earlier one.
pub open spec fn replacement_map(pairs: Seq<(String, String)>) -> Map<Seq<char>, Seq<char>> {
    Map::new(|k: Seq<char>| pair_lookup(pairs, k) is Some, |k: Seq<char>| pair_lookup(pairs, k)->0)
}

/// The contents of a translation controller.
pub struct TranslationView {
    pub replacements: Map<Seq<char>, Seq<char>>,
    pub online_enabled: bool,
    pub next_serial: u64,
    pub outgoing: Seq<RequestView>,
    pub pending: Seq<(u64, PendingView)>,
}

/// Whether `entry` belongs to a slot other than `slot`.
pub open spec fn other_slot(slot: u32) -> spec_fn((u64, PendingView)) -> bool {
    |entry: (u64, PendingView)| entry.1.slot != slot
}

impl TranslationView {
    /// No serial and no slot is pending twice.
    pub open spec fn wf(self) -> bool {
        &&& forall|i: int, j: int|
            0 <= i < j < self.pending.len() ==> self.pending[i].0 != self.pending[j].0
        &&& forall|i: int, j: int|
            0 <= i < j < self.pending.len() ==> self.pending[i].1.slot != self.pending[j].1.slot
    }

    /// Whether a request with this serial is pending.
    pub open spec fn has_pending(self, serial: u64) -> bool {
        exists|i: int| 0 <= i < self.pending.len() && self.pending[i].0 == serial
    }

    /// The pending request with this serial.
    pub open spec fn pending_for(self, serial: u64) -> Option<PendingView> {
        if self.has_pending(serial) {
            let i = choose|i: int| 0 <= i < self.pending.len() && self.pending[i].0 == serial;
            Some(self.pending[i].1)
        } else {
            None
        }
    }

    /// The same controller with every request of `slot` dropped.
    pub open spec fn invalidate_result(self, slot: u32) -> TranslationView {
        TranslationView { pending: self.pending.filter(other_slot(slot)), ..self }
    }

    /// The pending list with `serial` bound to `entry`: an existing request
    /// with that serial is replaced, otherwise the request is appended.
    pub open spec fn pending_with(self, serial: u64, entry: PendingView) -> Seq<(u64, PendingView)> {
        if self.has_pending(serial) {
            let i = choose|i: int| 0 <= i < self.pending.len() && self.pending[i].0 == serial;
            self.pending.update(i, (serial, entry))
        } else {
            self.pending.push((serial, entry))
        }
    }

    /// What `begin_source` does: the new state and the synchronous replacement.
    pub open spec fn begin_source_result(
        self,
        slot: u32,
        generation: u64,
        source: Seq<char>,
        ruby: Option<Seq<char>>,
    ) -> (TranslationView, Option<Seq<char>>) {
        let cleared = self.invalidate_result(slot);
        if self.replacements.contains_key(source) {
            (cleared, Some(self.replacements[source]))
        } else if !self.online_enabled || is_blank(source) {
            (cleared, None)
        } else {
            let serial = next_serial_spec(self.next_serial);
            (
                TranslationView {
                    next_serial: serial,
                    outgoing: self.outgoing.push(
                        RequestView { serial, slot, generation, source, ruby },
                    ),
                    pending: cleared.pending_with(
                        serial,
                        PendingView { slot, generation, translated: None },
                    ),
                    ..self
                },
                None,
            )
        }
    }

    /// What `submit` does: the new state and whether the serial was still pending.
    pub open spec fn submit_result(self, serial: u64, translated: Option<Seq<char>>) -> (
        TranslationView,
        bool,
    ) {
        if !self.has_pending(serial) {
            (self, false)
        } else {
            let i = choose|i: int| 0 <= i < self.pending.len() && self.pending[i].0 == serial;
            match translated {
                Some(text) if text.len() > 0 => (
                    TranslationView {
                        pending: self.pending.update(
                            i,
                            (serial, PendingView { translated: Some(text), ..self.pending[i].1 }),
                        ),
                        ..self
                    },
                    true,
                ),
                _ => (TranslationView { pending: self.pending.remove(i), ..self }, true),
            }
        }
    }

    /// Whether the entry at `i` holds a result for `slot` at `generation`.
    pub open spec fn is_ready_at(self, i: int, slot: u32, generation: u64) -> bool {
        &&& 0 <= i < self.pending.len()
        &&& self.pending[i].1.slot == slot
        &&& self.pending[i].1.generation == generation
        &&& self.pending[i].1.translated is Some
    }

    /// What `take_ready` does: the new state and the result handed out.
    pub open spec fn take_ready_result(self, slot: u32, generation: u64) -> (
        TranslationView,
        Option<Seq<char>>,
    ) {
        if exists|i: int| self.is_ready_at(i, slot, generation) {
            let i = choose|i: int| self.is_ready_at(i, slot, generation);
            (TranslationView { pending: self.pending.remove(i), ..self }, self.pending[i].1.translated)
        } else {
            (self, None)
        }
    }

    /// The state after `clear`.
    pub open spec fn cleared() -> TranslationView {
        TranslationView {
            replacements: Map::empty(),
            online_enabled: false,
            next_serial: 0,
            outgoing: Seq::empty(),
            pending: Seq::empty(),
        }
    }
}

/// State owned by the text manager.
///
/// The manager drains requests and submits results through this controller.
pub struct TextTranslationController {
    replacements: Vec<(String, String)>,
    online_enabled: bool,
    next_serial: u64,
    outgoing: Vec<TextTranslationRequest>,
    pending: Vec<(u64, PendingTextTranslation)>,
}

impl View for TextTranslationController {
    type V = TranslationView;

    closed spec fn view(&self) -> TranslationView {
        TranslationView {
            replacements: replacement_map(self.replacements@),
            online_enabled: self.online_enabled,
            next_serial: self.next_serial,
            outgoing: self.outgoing@.map_values(|r: TextTranslationRequest| r@),
            pending: self.pending@.map_values(
                |e: (u64, PendingTextTranslation)| (e.0, e.1@),
            ),
        }
    }
}

/// With distinct keys, the pair found at `i` is the one a lookup of its key gives.
proof fn lemma_pair_lookup_distinct(pairs: Seq<(String, String)>, i: int)
    requires
        0 <= i < pairs.len(),
        forall|a: int, b: int| 0 <= a < b < pairs.len() ==> pairs[a].0@ != pairs[b].0@,
    ensures
        pair_lookup(pairs, pairs[i].0@) == Some(pairs[i].1@),
    decreases pairs.len(),
{
    if i < pairs.len() - 1 {
        lemma_pair_lookup_distinct(pairs.drop_last(), i);
    }
}

/// A lookup finds nothing when no pair has the key.
proof fn lemma_pair_lookup_absent(pairs: Seq<(String, String)>, key: Seq<char>)
    requires
        forall|a: int| 0 <= a < pairs.len() ==> pairs[a].0@ != key,
    ensures
        pair_lookup(pairs, key) is None,
    decreases pairs.len(),
{
    if pairs.len() > 0 {
        lemma_pair_lookup_absent(pairs.drop_last(), key);
    }
}

/// Putting a pair in front only matters for its key when no later pair has that key.
proof fn lemma_pair_lookup_prepend(front: (String, String), pairs: Seq<(String, String)>, key: Seq<char>)
    ensures
        pair_lookup(seq![front] + pairs, key) == (if pair_lookup(pairs, key) is Some {
            pair_lookup(pairs, key)
        } else if front.0@ == key {
            Some(front.1@)
        } else {
            None
        }),
    decreases pairs.len(),
{
    let whole = seq![front] + pairs;
    if pairs.len() == 0 {
        assert(whole.last() == front);
        assert(whole.drop_last() =~= Seq::<(String, String)>::empty());
        assert(pair_lookup(whole.drop_last(), key) is None);
        assert(pair_lookup(pairs, key) is None);
    } else {
        assert(whole.last() == pairs.last());
        assert(whole.drop_last() =~= seq![front] + pairs.drop_last());
        lemma_pair_lookup_prepend(front, pairs.drop_last(), key);
        if pairs.last().0@ != key {
            assert(pair_lookup(whole, key) == pair_lookup(whole.drop_last(), key));
            assert(pair_lookup(pairs, key) == pair_lookup(pairs.drop_last(), key));
        }
    }
}

/// Under well-formedness, a pending serial sits at exactly one index.
proof fn lemma_pending_index_unique(view: TranslationView, i: int)
    requires
        view.wf(),
        0 <= i < view.pending.len(),
    ensures
        view.has_pending(view.pending[i].0),
        (choose|j: int|
            0 <= j < view.pending.len() && view.pending[j].0 == view.pending[i].0) == i,
{
    let j = choose|j: int| 0 <= j < view.pending.len() && view.pending[j].0 == view.pending[i].0;
    assert(0 <= j < view.pending.len() && view.pending[j].0 == view.pending[i].0);
}

/// Under well-formedness, a ready entry for a slot sits at exactly one index.
proof fn lemma_ready_index_unique(view: TranslationView, i: int, slot: u32, generation: u64)
    requires
        view.wf(),
        view.is_ready_at(i, slot, generation),
    ensures
        (choose|j: int| view.is_ready_at(j, slot, generation)) == i,
{
    let j = choose|j: int| view.is_ready_at(j, slot, generation);
    assert(view.is_ready_at(j, slot, generation));
}

/// Dropping the entries of a slot keeps serials and slots distinct and leaves none of that slot.
proof fn lemma_filter_keeps_wf(view: TranslationView, slot: u32)
    requires
        view.wf(),
    ensures
        view.invalidate_result(slot).wf(),
        forall|i: int|
            0 <= i < view.invalidate_result(slot).pending.len() ==> view.invalidate_result(
                slot,
            ).pending[i].1.slot != slot,
{
    let kept = view.pending.filter(other_slot(slot));
    assert forall|i: int| 0 <= i < kept.len() implies kept[i].1.slot != slot by {
        view.pending.lemma_filter_pred(other_slot(slot), i);
    }
    lemma_filter_preserves_distinct(view.pending, slot);
}

/// Filtering a sequence keeps its distinct serials and slots distinct.
proof fn lemma_filter_preserves_distinct(entries: Seq<(u64, PendingView)>, slot: u32)
    requires
        forall|i: int, j: int| 0 <= i < j < entries.len() ==> entries[i].0 != entries[j].0,
        forall|i: int, j: int| 0 <= i < j < entries.len() ==> entries[i].1.slot != entries[j].1.slot,
    ensures
        ({
            let kept = entries.filter(other_slot(slot));
            &&& forall|i: int, j: int| 0 <= i < j < kept.len() ==> kept[i].0 != kept[j].0
            &&& forall|i: int, j: int|
                0 <= i < j < kept.len() ==> kept[i].1.slot != kept[j].1.slot
        }),
    decreases entries.len(),
{
    reveal(Seq::filter);
    if entries.len() > 0 {
        let init = entries.drop_last();
        lemma_filter_preserves_distinct(init, slot);
        let kept_init = init.filter(other_slot(slot));
        let kept = entries.filter(other_slot(slot));
        if other_slot(slot)(entries.last()) {
            assert(kept == kept_init.push(entries.last()));
            assert forall|i: int| 0 <= i < kept_init.len() implies kept_init[i].0 != entries.last().0
                && kept_init[i].1.slot != entries.last().1.slot by {
                assert(kept_init.contains(kept_init[i]));
                init.lemma_filter_contains_rev(other_slot(slot), kept_init[i]);
                let k = choose|k: int| 0 <= k < init.len() && init[k] == kept_init[i];
                assert(entries[k] == init[k]);
            }
        } else {
            assert(kept == kept_init);
        }
    }
}

impl Default for TextTranslationController {
    fn default() -> (c: Self)
        ensures
            c@ == TranslationView::cleared(),
            c.wf(),
    {
        let c = Self {
            replacements: Vec::new(),
            online_enabled: false,
            next_serial: 0,
            outgoing: Vec::new(),
            pending: Vec::new(),
        };
        assert(c@.replacements =~= Map::<Seq<char>, Seq<char>>::empty());
        assert(c@.outgoing =~= Seq::<RequestView>::empty());
        assert(c@.pending =~= Seq::<(u64, PendingView)>::empty());
        c
    }
}

impl TextTranslationController {
    /// A well-formed controller has well-formed contents: no serial and no
    /// slot is pending twice.
    pub proof fn lemma_contents_wf(&self)
        requires
            self.wf(),
        ensures
            self@.wf(),
    {
    }

    /// The controller's invariant: its contents are well formed and its
    /// replacement table holds each source once.
    pub closed spec fn wf(&self) -> bool {
        &&& self@.wf()
        &&& forall|a: int, b: int|
            0 <= a < b < self.replacements@.len() ==> self.replacements@[a].0@
                != self.replacements@[b].0@
    }

    /// Installs an exact replacement table; a later pair for the same source wins.
    #[verifier::loop_isolation(false)]
    pub fn set_replacements(&mut self, replacements: Vec<(String, String)>)
        requires
            old(self).wf(),
        ensures
            final(self)@ == (TranslationView {
                replacements: replacement_map(replacements@),
                ..old(self)@
            }),
            final(self).wf(),
    {
        let ghost all = replacements@;
        let mut remaining = replacements;
        let mut table: Vec<(String, String)> = Vec::new();
        while remaining.len() > 0
            invariant
                all =~= remaining@ + (all.subrange(remaining@.len() as int, all.len() as int)),
                remaining@.len() <= all.len(),
                forall|a: int, b: int|
                    0 <= a < b < table@.len() ==> table@[a].0@ != table@[b].0@,
                forall|k: Seq<char>|
                    pair_lookup(table@, k) == pair_lookup(
                        all.subrange(remaining@.len() as int, all.len() as int),
                        k,
                    ),
            decreases remaining@.len(),
        {
            let ghost n = remaining@.len() as int;
            let pair = remaining.pop().unwrap();
            let ghost suffix = all.subrange(n, all.len() as int);
            let ghost longer = all.subrange(n - 1, all.len() as int);
            assert(longer =~= seq![pair] + suffix);
            let mut found = false;
            let mut i: usize = 0;
            while i < table.len()
                invariant
                    i <= table@.len(),
                    !found ==> forall|a: int| 0 <= a < i ==> table@[a].0@ != pair.0@,
                    found ==> exists|a: int| 0 <= a < table@.len() && table@[a].0@ == pair.0@,
                decreases table@.len() - i,
            {
                if table[i].0 == pair.0 {
                    found = true;
                }
                i = i + 1;
            }
            if !found {
                let ghost before = table@;
                let ghost p = pair;
                table.push(pair);
                proof {
                    lemma_pair_lookup_absent(before, p.0@);
                    assert(table@.drop_last() =~= before);
                    assert(table@.last() == p);
                    assert forall|k: Seq<char>|
                        pair_lookup(table@, k) == pair_lookup(longer, k) by {
                        lemma_pair_lookup_prepend(p, suffix, k);
                        assert(pair_lookup(before, k) == pair_lookup(suffix, k));
                        if p.0@ != k {
                            assert(pair_lookup(table@, k) == pair_lookup(before, k));
                        }
                    }
                }
            } else {
                proof {
                    let a = choose|a: int| 0 <= a < table@.len() && table@[a].0@ == pair.0@;
                    lemma_pair_lookup_distinct(table@, a);
                    assert forall|k: Seq<char>|
                        pair_lookup(table@, k) == pair_lookup(longer, k) by {
                        lemma_pair_lookup_prepend(pair, suffix, k);
                    }
                }
            }
        }
        assert(all.subrange(0, all.len() as int) =~= all);
        self.replacements = table;
        assert(self@.replacements =~= replacement_map(all));
    }

    /// Empties the replacement table.
    pub fn clear_replacements(&mut self)
        requires
            old(self).wf(),
        ensures
            final(self)@ == (TranslationView { replacements: Map::empty(), ..old(self)@ }),
            final(self).wf(),
    {
        self.replacements.clear();
        assert(self@.replacements =~= Map::<Seq<char>, Seq<char>>::empty());
    }

    /// Turns online translation on or off; turning it off drops every pending request.
    pub fn set_online_enabled(&mut self, enabled: bool)
        requires
            old(self).wf(),
        ensures
            final(self)@ == (TranslationView {
                online_enabled: enabled,
                pending: if enabled {
                    old(self)@.pending
                } else {
                    Seq::empty()
                },
                ..old(self)@
            }),
            final(self).wf(),
    {
        self.online_enabled = enabled;
        if !enabled {
            self.pending.clear();
        }
        assert(self@.pending =~= (if enabled {
            old(self)@.pending
        } else {
            Seq::empty()
        }));
    }

    pub fn online_enabled(&self) -> (b: bool)
        ensures
            b == self@.online_enabled,
    {
        self.online_enabled
    }

    /// Number of requests still pending.
    pub fn pending_count(&self) -> (n: usize)
        ensures
            n == self@.pending.len(),
    {
        self.pending.len()
    }

    /// The replacement recorded for `source`, if any.
    #[verifier::loop_isolation(false)]
    fn find_replacement(&self, source: &String) -> (r: Option<String>)
        requires
            self.wf(),
        ensures
            opt_text(r) == (if self@.replacements.contains_key(source@) {
                Some(self@.replacements[source@])
            } else {
                None
            }),
    {
        let mut i: usize = 0;
        while i < self.replacements.len()
            invariant
                self.wf(),
                i <= self.replacements@.len(),
                forall|a: int| 0 <= a < i ==> self.replacements@[a].0@ != source@,
            decreases self.replacements@.len() - i,
        {
            if self.replacements[i].0 == *source {
                proof {
                    lemma_pair_lookup_distinct(self.replacements@, i as int);
                }
                return Some(self.replacements[i].1.clone());
            }
            i = i + 1;
        }
        proof {
            lemma_pair_lookup_absent(self.replacements@, source@);
        }
        None
    }

    /// Binds `entry` to `serial`, replacing a request that already has that serial.
    #[verifier::loop_isolation(false)]
    fn put_pending(&mut self, serial: u64, entry: PendingTextTranslation)
        requires
            old(self).wf(),
            forall|i: int| 0 <= i < old(self)@.pending.len() ==> old(self)@.pending[i].1.slot != entry.slot,
        ensures
            final(self)@ == (TranslationView {
                pending: old(self)@.pending_with(serial, entry@),
                ..old(self)@
            }),
            final(self).wf(),
    {
        let ghost pre = self@;
        let mut i: usize = 0;
        while i < self.pending.len()
            invariant
                i <= self.pending@.len(),
                self@ == pre,
                self.wf(),
                forall|a: int| 0 <= a < i ==> self.pending@[a].0 != serial,
            decreases self.pending@.len() - i,
        {
            if self.pending[i].0 == serial {
                proof {
                    lemma_pending_index_unique(pre, i as int);
                }
                self.pending.set(i, (serial, entry));
                assert(self@.pending =~= pre.pending_with(serial, entry@));
                proof {
                    assert forall|a: int, b: int|
                        0 <= a < b < self@.pending.len() implies self@.pending[a].1.slot
                        != self@.pending[b].1.slot by {
                        if a != i as int && b != i as int {
                            assert(pre.pending[a].1.slot != pre.pending[b].1.slot);
                        }
                    }
                }
                return;
            }
            i = i + 1;
        }
        assert(!pre.has_pending(serial));
        self.pending.push((serial, entry));
        assert(self@.pending =~= pre.pending_with(serial, entry@));
    }

    /// Starts a new source revision for a slot.
    ///
    /// Returns a synchronous replacement when the exact source is present in
    /// the replacement table. Otherwise an online request is queued and
    /// `None` is returned so the caller renders the original text first.
    pub fn begin_source(
        &mut self,
        slot: u32,
        generation: u64,
        source: &str,
        ruby: Option<String>,
    ) -> (r: Option<String>)
        requires
            old(self).wf(),
        ensures
            final(self)@ == old(self)@.begin_source_result(
                slot,
                generation,
                source@,
                opt_text(ruby),
            ).0,
            opt_text(r) == old(self)@.begin_source_result(
                slot,
                generation,
                source@,
                opt_text(ruby),
            ).1,
            final(self).wf(),
    {
        self.invalidate_slot(slot);
        let key = source.to_owned();
        match self.find_replacement(&key) {
            Some(replacement) => {
                return Some(replacement);
            },
            None => {},
        }
        if !self.online_enabled || is_blank_text(source) {
            return None;
        }
        let serial = {
            self.next_serial = self.next_serial.wrapping_add(1);
            if self.next_serial == 0 {
                self.next_serial = 1;
            }
            self.next_serial
        };
        let request = TextTranslationRequest { serial, slot, generation, source: key, ruby };
        self.put_pending(serial, PendingTextTranslation { slot, generation, translated: None });
        self.outgoing.push(request);
        assert(self@.outgoing =~= old(self)@.outgoing.push(request@));
        None
    }

    /// Hands out every queued request, oldest first, and empties the queue.
    pub fn drain_requests(&mut self) -> (r: Vec<TextTranslationRequest>)
        requires
            old(self).wf(),
        ensures
            r@.map_values(|q: TextTranslationRequest| q@) == old(self)@.outgoing,
            final(self)@ == (TranslationView { outgoing: Seq::empty(), ..old(self)@ }),
            final(self).wf(),
    {
        let mut drained: Vec<TextTranslationRequest> = Vec::new();
        core::mem::swap(&mut drained, &mut self.outgoing);
        assert(self@.outgoing =~= Seq::<RequestView>::empty());
        drained
    }

    /// Stores an asynchronous result.
    ///
    /// Returning `false` means the request was already invalidated by a newer
    /// text revision, a slot clear, or a disabled online translation mode. An
    /// empty or missing result withdraws the request.
    #[verifier::loop_isolation(false)]
    pub fn submit(&mut self, serial: u64, translated: Option<String>) -> (accepted: bool)
        requires
            old(self).wf(),
        ensures
            final(self)@ == old(self)@.submit_result(serial, opt_text(translated)).0,
            accepted == old(self)@.submit_result(serial, opt_text(translated)).1,
            final(self).wf(),
    {
        let ghost pre = self@;
        let mut i: usize = 0;
        while i < self.pending.len()
            invariant
                i <= self.pending@.len(),
                self@ == pre,
                self.wf(),
                forall|a: int| 0 <= a < i ==> self.pending@[a].0 != serial,
            decreases self.pending@.len() - i,
        {
            if self.pending[i].0 == serial {
                proof {
                    lemma_pending_index_unique(pre, i as int);
                }
                let keep = match &translated {
                    Some(text) => !text.as_str().is_empty(),
                    None => false,
                };
                if keep {
                    let slot = self.pending[i].1.slot;
                    let generation = self.pending[i].1.generation;
                    self.pending.set(
                        i,
                        (serial, PendingTextTranslation { slot, generation, translated }),
                    );
                    assert(self@.pending =~= pre.submit_result(serial, opt_text(translated)).0.pending);
                    proof {
                        assert forall|a: int, b: int|
                            0 <= a < b < self@.pending.len() implies self@.pending[a].0
                            != self@.pending[b].0 && self@.pending[a].1.slot
                            != self@.pending[b].1.slot by {
                            assert(pre.pending[a].1.slot != pre.pending[b].1.slot);
                            assert(pre.pending[a].0 != pre.pending[b].0);
                        }
                    }
                } else {
                    self.pending.remove(i);
                    assert(self@.pending =~= pre.submit_result(serial, opt_text(translated)).0.pending);
                    proof {
                        assert forall|a: int, b: int|
                            0 <= a < b < self@.pending.len() implies self@.pending[a].0
                            != self@.pending[b].0 && self@.pending[a].1.slot
                            != self@.pending[b].1.slot by {
                            let a0 = if a < i { a } else { a + 1 };
                            let b0 = if b < i { b } else { b + 1 };
                            assert(self@.pending[a] == pre.pending[a0]);
                            assert(self@.pending[b] == pre.pending[b0]);
                            assert(pre.pending[a0].1.slot != pre.pending[b0].1.slot);
                            assert(pre.pending[a0].0 != pre.pending[b0].0);
                        }
                    }
                }
                return true;
            }
            i = i + 1;
        }
        assert(!pre.has_pending(serial));
        false
    }

    /// Takes the result for `slot` at `generation`, if one has arrived.
    #[verifier::loop_isolation(false)]
    pub fn take_ready(&mut self, slot: u32, generation: u64) -> (r: Option<String>)
        requires
            old(self).wf(),
        ensures
            final(self)@ == old(self)@.take_ready_result(slot, generation).0,
            opt_text(r) == old(self)@.take_ready_result(slot, generation).1,
            final(self).wf(),
    {
        let ghost pre = self@;
        let mut i: usize = 0;
        while i < self.pending.len()
            invariant
                i <= self.pending@.len(),
                self@ == pre,
                self.wf(),
                forall|a: int| 0 <= a < i ==> !pre.is_ready_at(a, slot, generation),
            decreases self.pending@.len() - i,
        {
            if self.pending[i].1.slot == slot && self.pending[i].1.generation == generation
                && self.pending[i].1.translated.is_some() {
                proof {
                    assert(pre.is_ready_at(i as int, slot, generation));
                    lemma_ready_index_unique(pre, i as int, slot, generation);
                }
                let (_, entry) = self.pending.remove(i);
                assert(self@.pending =~= pre.take_ready_result(slot, generation).0.pending);
                proof {
                    assert forall|a: int, b: int|
                        0 <= a < b < self@.pending.len() implies self@.pending[a].0
                        != self@.pending[b].0 && self@.pending[a].1.slot
                        != self@.pending[b].1.slot by {
                        let a0 = if a < i { a } else { a + 1 };
                        let b0 = if b < i { b } else { b + 1 };
                        assert(self@.pending[a] == pre.pending[a0]);
                        assert(self@.pending[b] == pre.pending[b0]);
                        assert(pre.pending[a0].1.slot != pre.pending[b0].1.slot);
                        assert(pre.pending[a0].0 != pre.pending[b0].0);
                    }
                }
                return entry.translated;
            }
            i = i + 1;
        }
        None
    }

    /// Drops every pending request of `slot`; other slots keep theirs.
    pub fn invalidate_slot(&mut self, slot: u32)
        requires
            old(self).wf(),
        ensures
            final(self)@ == old(self)@.invalidate_result(slot),
            final(self).wf(),
    {
        let ghost pre = self@;
        let ghost all = self.pending@;
        let mut old_pending: Vec<(u64, PendingTextTranslation)> = Vec::new();
        core::mem::swap(&mut old_pending, &mut self.pending);
        let mut kept: Vec<(u64, PendingTextTranslation)> = Vec::new();
        for entry in it: old_pending.into_iter()
            invariant
                it.seq() == all,
                kept@.map_values(|e: (u64, PendingTextTranslation)| (e.0, e.1@)) == all.subrange(
                    0,
                    it.index() as int,
                ).map_values(|e: (u64, PendingTextTranslation)| (e.0, e.1@)).filter(other_slot(slot)),
        {
            let ghost idx = it.index() as int;
            let ghost viewed = |e: (u64, PendingTextTranslation)| (e.0, e.1@);
            proof {
                reveal(Seq::filter);
                assert(all.subrange(0, idx + 1).map_values(viewed).drop_last() =~= all.subrange(
                    0,
                    idx,
                ).map_values(viewed));
                assert(all.subrange(0, idx + 1).map_values(viewed).last() == viewed(entry));
            }
            if entry.1.slot != slot {
                kept.push(entry);
                assert(kept@.map_values(viewed) =~= all.subrange(0, idx).map_values(viewed).filter(
                    other_slot(slot),
                ).push(viewed(entry)));
            } else {
                assert(kept@.map_values(viewed) =~= all.subrange(0, idx + 1).map_values(
                    viewed,
                ).filter(other_slot(slot)));
            }
        }
        assert(all.subrange(0, all.len() as int) =~= all);
        self.pending = kept;
        proof {
            lemma_filter_keeps_wf(pre, slot);
        }
        assert(self@.pending =~= pre.invalidate_result(slot).pending);
    }

    /// Forgets everything: replacements, mode, queued and pending requests, and the serial counter.
    pub fn clear(&mut self)
        ensures
            final(self)@ == TranslationView::cleared(),
            final(self).wf(),
    {
        self.replacements.clear();
        self.online_enabled = false;
        self.outgoing.clear();
        self.pending.clear();
        self.next_serial = 0;
        assert(self@.replacements =~= Map::<Seq<char>, Seq<char>>::empty());
        assert(self@.outgoing =~= Seq::<RequestView>::empty());
        assert(self@.pending =~= Seq::<(u64, PendingView)>::empty());
    }
}

/// An exact replacement wins: when the table holds the source, `begin_source`
/// returns its replacement and queues no network work for it.
pub proof fn lemma_exact_replacement_wins(
    view: TranslationView,
    slot: u32,
    generation: u64,
    source: Seq<char>,
    ruby: Option<Seq<char>>,
)
    requires
        view.wf(),
        view.replacements.contains_key(source),
    ensures
        ({
            let (post, replacement) = view.begin_source_result(slot, generation, source, ruby);
            &&& replacement == Some(view.replacements[source])
            &&& post.outgoing == view.outgoing
            &&& post.next_serial == view.next_serial
            &&& forall|i: int| 0 <= i < post.pending.len() ==> post.pending[i].1.slot != slot
        }),
{
    lemma_filter_keeps_wf(view, slot);
}

/// A new source revision supersedes the slot's earlier requests: afterwards
/// the only request of that slot that can still be pending is the one just
/// queued, for the new generation.
pub proof fn lemma_new_revision_supersedes_slot(
    view: TranslationView,
    slot: u32,
    generation: u64,
    source: Seq<char>,
    ruby: Option<Seq<char>>,
)
    requires
        view.wf(),
    ensures
        ({
            let post = view.begin_source_result(slot, generation, source, ruby).0;
            &&& post.wf()
            &&& forall|i: int|
                0 <= i < post.pending.len() && post.pending[i].1.slot == slot ==> {
                    &&& post.pending[i].0 == post.next_serial
                    &&& post.next_serial == next_serial_spec(view.next_serial)
                    &&& post.pending[i].1.generation == generation
                    &&& post.pending[i].1.translated is None
                }
        }),
{
    let cleared = view.invalidate_result(slot);
    lemma_filter_keeps_wf(view, slot);
    if !view.replacements.contains_key(source) && view.online_enabled && !is_blank(source) {
        let serial = next_serial_spec(view.next_serial);
        let entry = PendingView { slot, generation, translated: None };
        let post = cleared.pending_with(serial, entry);
        if cleared.has_pending(serial) {
            let k = choose|k: int| 0 <= k < cleared.pending.len() && cleared.pending[k].0 == serial;
            assert forall|a: int, b: int| 0 <= a < b < post.len() implies post[a].0 != post[b].0
                && post[a].1.slot != post[b].1.slot by {
                assert(cleared.pending[a].1.slot != slot);
                assert(cleared.pending[b].1.slot != slot);
            }
            assert forall|i: int| 0 <= i < post.len() && post[i].1.slot == slot implies i == k by {
                if i != k {
                    assert(cleared.pending[i].1.slot != slot);
                }
            }
        } else {
            assert forall|a: int, b: int| 0 <= a < b < post.len() implies post[a].0 != post[b].0
                && post[a].1.slot != post[b].1.slot by {
                if b == post.len() - 1 {
                    assert(cleared.pending[a].1.slot != slot);
                    assert(cleared.pending[a].0 != serial);
                }
            }
            assert forall|i: int| 0 <= i < post.len() && post[i].1.slot == slot implies i == post.len()
                - 1 by {
                if i < post.len() - 1 {
                    assert(cleared.pending[i].1.slot != slot);
                }
            }
        }
    }
}

/// A result submitted for a request that a newer revision of its slot has
/// superseded is refused.
pub proof fn lemma_stale_result_is_refused(
    view: TranslationView,
    stale: u64,
    slot: u32,
    generation: u64,
    source: Seq<char>,
    ruby: Option<Seq<char>>,
    translated: Option<Seq<char>>,
)
    requires
        view.wf(),
        view.pending_for(stale) matches Some(p) && p.slot == slot,
        stale != next_serial_spec(view.next_serial),
    ensures
        !view.begin_source_result(slot, generation, source, ruby).0.submit_result(
            stale,
            translated,
        ).1,
{
    let post = view.begin_source_result(slot, generation, source, ruby).0;
    lemma_new_revision_supersedes_slot(view, slot, generation, source, ruby);
    let i = choose|i: int| 0 <= i < view.pending.len() && view.pending[i].0 == stale;
    lemma_filter_keeps_wf(view, slot);
    if post.has_pending(stale) {
        let j = choose|j: int| 0 <= j < post.pending.len() && post.pending[j].0 == stale;
        let cleared = view.invalidate_result(slot);
        if post.pending[j].1.slot != slot {
            // An entry of another slot came through the filter, so it was
            // pending before under the same serial: it would be the stale
            // request itself, which belongs to `slot`.
            if post.pending[j].0 != next_serial_spec(view.next_serial) {
                assert(cleared.pending.contains(post.pending[j]));
                view.pending.lemma_filter_contains_rev(other_slot(slot), post.pending[j]);
                let k = choose|k: int| 0 <= k < view.pending.len() && view.pending[k] == post.pending[j];
                assert(k == i);
            }
        }
    }
}

/// What is submitted for a pending request is what `take_ready` hands back
/// for that request's slot and generation.
pub proof fn lemma_submit_then_take_ready(view: TranslationView, serial: u64, text: Seq<char>)
    requires
        view.wf(),
        view.has_pending(serial),
        text.len() > 0,
    ensures
        ({
            let p = view.pending_for(serial)->0;
            let submitted = view.submit_result(serial, Some(text));
            let (post, taken) = submitted.0.take_ready_result(p.slot, p.generation);
            &&& submitted.1
            &&& taken == Some(text)
            &&& !post.has_pending(serial)
        }),
{
    let i = choose|i: int| 0 <= i < view.pending.len() && view.pending[i].0 == serial;
    let p = view.pending[i].1;
    let mid = view.submit_result(serial, Some(text)).0;
    assert(mid.is_ready_at(i, p.slot, p.generation));
    assert(mid.wf()) by {
        assert forall|a: int, b: int| 0 <= a < b < mid.pending.len() implies mid.pending[a].0
            != mid.pending[b].0 && mid.pending[a].1.slot != mid.pending[b].1.slot by {
            assert(view.pending[a].0 != view.pending[b].0);
            assert(view.pending[a].1.slot != view.pending[b].1.slot);
        }
    }
    lemma_ready_index_unique(mid, i, p.slot, p.generation);
    let post = mid.take_ready_result(p.slot, p.generation).0;
    if post.has_pending(serial) {
        let j = choose|j: int| 0 <= j < post.pending.len() && post.pending[j].0 == serial;
        let j0 = if j < i {
            j
        } else {
            j + 1
        };
        assert(post.pending[j] == mid.pending[j0]);
        assert(view.pending[j0].0 != view.pending[i].0);
    }
}

/// Dropping a slot's requests leaves every other slot's requests as they were.
pub proof fn lemma_invalidate_preserves_other_slots(view: TranslationView, slot: u32)
    requires
        view.wf(),
    ensures
        ({
            let post = view.invalidate_result(slot);
            &&& post.wf()
            &&& forall|i: int| 0 <= i < post.pending.len() ==> post.pending[i].1.slot != slot
            &&& forall|i: int|
                0 <= i < view.pending.len() && view.pending[i].1.slot != slot
                    ==> post.pending.contains(view.pending[i])
        }),
{
    lemma_filter_keeps_wf(view, slot);
    assert forall|i: int|
        0 <= i < view.pending.len() && view.pending[i].1.slot != slot implies view.invalidate_result(
        slot,
    ).pending.contains(view.pending[i]) by {
        view.pending.lemma_filter_contains(other_slot(slot), i);
    }
}

/// Issued serials are never zero.
pub proof fn lemma_serials_are_nonzero(current: u64)
    ensures
        next_serial_spec(current) != 0,
{
}

/// A result is handed out once: after `take_ready` gives one, the request is
/// gone and asking again for the same slot and generation gives nothing;
/// when it gives none, nothing changes.
pub proof fn lemma_take_ready_once(view: TranslationView, slot: u32, generation: u64)
    requires
        view.wf(),
    ensures
        ({
            let (after, taken) = view.take_ready_result(slot, generation);
            &&& after.wf()
            &&& taken is Some ==> after.pending.len() == view.pending.len() - 1
                && after.take_ready_result(slot, generation).1 is None
            &&& taken is None ==> after == view
        }),
{
    if exists|i: int| view.is_ready_at(i, slot, generation) {
        let i = choose|i: int| view.is_ready_at(i, slot, generation);
        let after = view.take_ready_result(slot, generation).0;
        assert(after.pending == view.pending.remove(i));
        assert forall|a: int, b: int| 0 <= a < b < after.pending.len() implies after.pending[a].0
            != after.pending[b].0 && after.pending[a].1.slot != after.pending[b].1.slot by {
            let a0 = if a < i { a } else { a + 1 };
            let b0 = if b < i { b } else { b + 1 };
            assert(after.pending[a] == view.pending[a0]);
            assert(after.pending[b] == view.pending[b0]);
        }
        assert forall|j: int| !after.is_ready_at(j, slot, generation) by {
            if 0 <= j < after.pending.len() {
                let j0 = if j < i { j } else { j + 1 };
                assert(after.pending[j] == view.pending[j0]);
                assert(view.pending[j0].1.slot != view.pending[i].1.slot);
            }
        }
    }
}

} // verus!
